use pastel_hn::copilot::{
    check_availability, discussion_prompt, explain_prompt, gh_authenticated, reply_prompt,
    start_check, status_of, status_started, status_unavailable, summarize_prompt, CommentSummary,
    CopilotError, DiscussionContext, ReplyContext, ResponseCollector, SessionSignal, StoryContext,
    RESPONSE_TIMEOUT_SECS, SYSTEM_PROMPT,
};
use pastel_hn::text::contains;

#[test]
fn availability_needs_the_tool_installed_and_logged_in() {
    let a = check_availability(true, true);
    assert!(a.available && a.cli_installed && a.cli_authenticated);
    assert_eq!(a.message, "GitHub Copilot is ready");

    let a = check_availability(true, false);
    assert!(!a.available && a.cli_installed && !a.cli_authenticated);
    assert_eq!(
        a.message,
        "GitHub CLI not authenticated. Run 'gh auth login' to enable AI assistant."
    );

    for authenticated in [true, false] {
        let a = check_availability(false, authenticated);
        assert!(!a.available && !a.cli_installed);
        assert_eq!(a.cli_authenticated, authenticated);
        assert_eq!(a.message, "GitHub Copilot CLI not found. Install it to enable AI assistant.");
    }
}

#[test]
fn the_client_starts_only_when_available() {
    assert!(start_check(true, true).is_ok());
    assert!(matches!(start_check(false, true), Err(CopilotError::CliNotFound)));
    assert!(matches!(start_check(false, false), Err(CopilotError::CliNotFound)));
    assert!(matches!(start_check(true, false), Err(CopilotError::NotAuthenticated)));
}

#[test]
fn log_in_status_is_read_from_either_stream() {
    let out = "github.com\n  ✓ Logged in to github.com account octocat (keyring)\n  - Active account: true\n";
    assert!(gh_authenticated(out, ""));
    assert!(gh_authenticated("", out));
    assert!(gh_authenticated("✓ Logged in to github.com", "- Active account: true"));
    assert!(!gh_authenticated("Logged in to github.com\nActive account: false", ""));
    assert!(!gh_authenticated("You are not logged into any GitHub hosts.", ""));
    assert!(!gh_authenticated("Active account: true", ""));
    assert!(!gh_authenticated("", ""));
    // the two streams are read as one text
    assert!(gh_authenticated("Logged in", " to x; Active account: true"));
}

#[test]
fn substring_search() {
    assert!(contains("hello world", "lo wo"));
    assert!(contains("hello", "hello"));
    assert!(contains("hello", ""));
    assert!(contains("", ""));
    assert!(contains("aab", "ab"));
    assert!(contains("héllo", "éll"));
    assert!(!contains("hello", "hello!"));
    assert!(!contains("hello", "world"));
    assert!(!contains("", "a"));
    assert!(!contains("abab", "abb"));
}

#[test]
fn status_reports() {
    let s = status_unavailable(check_availability(true, false));
    assert!(!s.available && !s.running && s.cli_installed && !s.cli_authenticated);
    assert_eq!(s.message, "GitHub CLI not authenticated. Run 'gh auth login' to enable AI assistant.");

    let s = status_started();
    assert!(s.available && s.running && s.cli_installed && s.cli_authenticated);
    assert_eq!(s.message, "AI assistant ready");

    let s = status_of(check_availability(true, true), true);
    assert!(s.available && s.running);
    assert_eq!(s.message, "AI assistant ready");
    let s = status_of(check_availability(true, true), false);
    assert!(s.available && !s.running);
    assert_eq!(s.message, "GitHub Copilot is ready");
    let s = status_of(check_availability(false, false), false);
    assert!(!s.available && !s.cli_installed);
    assert_eq!(s.message, "GitHub Copilot CLI not found. Install it to enable AI assistant.");
}

#[test]
fn question_about_a_story() {
    let context = StoryContext {
        title: "Show HN: A thing".to_string(),
        url: Some("https://example.com/a".to_string()),
        domain: Some("example.com".to_string()),
        score: 120,
        comment_count: 45,
        author: Some("me".to_string()),
        text: Some("Body".to_string()),
    };
    assert_eq!(
        summarize_prompt(&context),
        "Summarize what this Hacker News story is likely about:\n\nTitle: Show HN: A thing\nURL: https://example.com/a\nDomain: example.com\n\nStory text:\nBody\n\nScore: 120 points, 45 comments\n\nProvide a concise summary (2-3 paragraphs) of what this article likely covers based on the title and context. If it's an Ask HN or Show HN, explain the nature of the post."
    );
    let bare = StoryContext { title: "T".to_string(), ..StoryContext::default() };
    assert_eq!(
        summarize_prompt(&bare),
        "Summarize what this Hacker News story is likely about:\n\nTitle: T\n\nScore: 0 points, 0 comments\n\nProvide a concise summary (2-3 paragraphs) of what this article likely covers based on the title and context. If it's an Ask HN or Show HN, explain the nature of the post."
    );
}

#[test]
fn question_about_a_discussion() {
    let context = DiscussionContext {
        story_title: "S".to_string(),
        comment_count: 12,
        top_comments: vec![
            CommentSummary { author: "a".to_string(), text_preview: "first".to_string(), reply_count: 3 },
            CommentSummary { author: "b".to_string(), text_preview: "second".to_string(), reply_count: 0 },
        ],
    };
    assert_eq!(
        discussion_prompt(&context),
        "Analyze this Hacker News discussion:\n\nStory: S\nTotal comments: 12\n\nTop-level comments:\n\n1. a (3 replies):\n\"first\"\n\n2. b (0 replies):\n\"second\"\n\nProvide a brief analysis of this discussion:\n1. What are the main viewpoints or themes?\n2. Are there areas of agreement or contention?\n3. Any particularly notable perspectives?"
    );
    assert_eq!(
        discussion_prompt(&DiscussionContext::default()),
        "Analyze this Hacker News discussion:\n\nStory: \nTotal comments: 0\n\nTop-level comments:\n\nProvide a brief analysis of this discussion:\n1. What are the main viewpoints or themes?\n2. Are there areas of agreement or contention?\n3. Any particularly notable perspectives?"
    );
    let many = DiscussionContext {
        story_title: "S".to_string(),
        comment_count: 12,
        top_comments: vec![CommentSummary::default(); 11],
    };
    assert!(discussion_prompt(&many).contains("\n11.  (0 replies):\n\"\"\n"));
}

#[test]
fn question_about_a_term() {
    assert_eq!(
        explain_prompt("CRDT", Some("a thread on sync")),
        "Explain this term/concept in the context of a Hacker News discussion:\n\nTerm: \"CRDT\"\nContext: a thread on sync\n\nProvide a brief explanation (1-2 paragraphs) that would help a technically-competent reader who may not be familiar with this specific topic."
    );
    assert_eq!(
        explain_prompt("CRDT", None),
        "Explain this term/concept for a Hacker News reader:\n\nTerm: \"CRDT\"\n\nProvide a brief explanation (1-2 paragraphs) that would help a technically-competent reader."
    );
}

#[test]
fn request_for_a_reply() {
    let mut context = ReplyContext {
        parent_comment: "I disagree".to_string(),
        parent_author: "bob".to_string(),
        story_title: "S".to_string(),
        user_draft: None,
    };
    assert_eq!(
        reply_prompt(&context),
        "Help draft a thoughtful reply to this Hacker News comment:\n\nStory: S\n\nComment by bob:\n\"I disagree\"\n\nSuggest 2-3 different angles for a thoughtful reply, with a brief draft for each. Keep them substantive but not too long."
    );
    context.user_draft = Some("Well".to_string());
    assert_eq!(
        reply_prompt(&context),
        "Help draft a thoughtful reply to this Hacker News comment:\n\nStory: S\n\nComment by bob:\n\"I disagree\"\n\nUser's draft so far:\n\"Well\"\n\nHelp improve and expand this draft while maintaining the user's voice."
    );
    assert_eq!(ReplyContext::default().user_draft, None);
}

#[test]
fn an_answer_is_put_together_from_its_pieces() {
    let mut collector = ResponseCollector::new();
    assert!(collector.observe(SessionSignal::Other).is_none());
    assert!(collector.observe(SessionSignal::Delta("Hel".to_string())).is_none());
    assert!(collector.observe(SessionSignal::Delta("lo".to_string())).is_none());
    // the whole answer does not replace what the pieces gave
    assert!(collector.observe(SessionSignal::Message("Other".to_string())).is_none());
    match collector.observe(SessionSignal::Idle) {
        Some(Ok(response)) => assert_eq!(response.content, "Hello"),
        other => panic!("unexpected: {:?}", other),
    }
}

#[test]
fn a_whole_answer_counts_where_no_piece_came() {
    let mut collector = ResponseCollector::new();
    assert!(collector.observe(SessionSignal::Message("Whole".to_string())).is_none());
    assert!(collector.observe(SessionSignal::Message("Second".to_string())).is_none());
    match collector.observe(SessionSignal::ChannelClosed) {
        Some(Ok(response)) => assert_eq!(response.content, "Whole"),
        other => panic!("unexpected: {:?}", other),
    }
    let mut empty = ResponseCollector::new();
    match empty.observe(SessionSignal::Idle) {
        Some(Ok(response)) => assert_eq!(response.content, ""),
        other => panic!("unexpected: {:?}", other),
    }
}

#[test]
fn errors_and_silence_end_the_answer() {
    let mut collector = ResponseCollector::new();
    collector.observe(SessionSignal::Delta("x".to_string()));
    match collector.observe(SessionSignal::Failed("quota".to_string())) {
        Some(Err(CopilotError::SendFailed(words))) => assert_eq!(words, "quota"),
        other => panic!("unexpected: {:?}", other),
    }
    let mut collector = ResponseCollector::new();
    assert!(matches!(
        collector.observe(SessionSignal::TimedOut),
        Some(Err(CopilotError::Timeout))
    ));
    assert_eq!(RESPONSE_TIMEOUT_SECS, 60);
}

#[test]
fn assistant_error_messages() {
    assert_eq!(CopilotError::NotInitialized.message(), "Copilot service not initialized");
    assert_eq!(
        CopilotError::CliNotFound.message(),
        "GitHub Copilot CLI not found. Please install it from https://docs.github.com/en/copilot/github-copilot-in-the-cli"
    );
    assert_eq!(
        CopilotError::NotAuthenticated.message(),
        "GitHub Copilot CLI not authenticated. Run 'gh auth login' and 'gh extension install github/gh-copilot'"
    );
    assert_eq!(CopilotError::StartFailed("x".to_string()).message(), "Failed to start Copilot client: x");
    assert_eq!(CopilotError::SessionFailed("x".to_string()).message(), "Failed to create session: x");
    assert_eq!(CopilotError::SendFailed("x".to_string()).message(), "Failed to send message: x");
    assert_eq!(CopilotError::Timeout.message(), "Session timeout");
}

#[test]
fn the_role_of_the_assistant() {
    assert!(SYSTEM_PROMPT.starts_with("You are a knowledgeable Hacker News reader assistant.\n\n<your_role>\n"));
    assert!(SYSTEM_PROMPT.ends_with("- Be concise - HN readers value brevity\n</constraints>"));
    assert_eq!(SYSTEM_PROMPT.lines().count(), 25);
    assert_eq!(SYSTEM_PROMPT.len(), 1052);
}
