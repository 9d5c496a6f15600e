//! The reading assistant: whether it is available, what it is asked, and how
//! its answer is put together.
//!
//! The assistant itself runs outside. A caller finds out what is installed,
//! sends the prompts that are built here, and feeds what comes back to a
//! `ResponseCollector`.

use vstd::prelude::*;
use crate::text::{contains, decimal, spec_contains, spec_decimal};

verus! {

/// How long an answer may take, in seconds.
pub const RESPONSE_TIMEOUT_SECS: u64 = 60;

/// What the assistant is told about its role.
pub const SYSTEM_PROMPT: &'static str =
    "You are a knowledgeable Hacker News reader assistant.\n\n<your_role>\n- Summarize linked articles concisely (2-3 paragraphs unless asked for more)\n- Explain technical concepts mentioned in stories or comments\n- Analyze discussion threads for key viewpoints and sentiment\n- Provide context for references to tech history, companies, or people\n- Help draft thoughtful, HN-appropriate replies\n</your_role>\n\n<your_style>\n- Neutral, informative tone (like a well-read HN commenter)\n- When summarizing discussions, represent multiple viewpoints fairly\n- Keep summaries concise; expand only when asked\n- For explanations, assume technical competence but not domain expertise\n- Never be condescending or overly enthusiastic\n- Use markdown formatting for structure (headers, lists, bold)\n</your_style>\n\n<constraints>\n- When summarizing articles, work with the title/URL/domain context provided\n- For discussion analysis, cite specific perspectives fairly\n- Keep replies HN-appropriate: substantive, not snarky\n- Be concise - HN readers value brevity\n</constraints>";

/// Errors of the assistant.
#[derive(Debug)]
pub enum CopilotError {
    /// The service was not started.
    NotInitialized,
    /// The command-line tool is not installed.
    CliNotFound,
    /// The command-line tool is not logged in.
    NotAuthenticated,
    /// The client could not be started.
    StartFailed(String),
    /// The session could not be created.
    SessionFailed(String),
    /// The message could not be sent, or the session reported an error.
    SendFailed(String),
    /// No answer came in time.
    Timeout,
}

impl CopilotError {
    /// The text of `message`.
    pub open spec fn spec_message(self) -> Seq<char> {
        match self {
            CopilotError::NotInitialized => "Copilot service not initialized"@,
            CopilotError::CliNotFound => "GitHub Copilot CLI not found. Please install it from https://docs.github.com/en/copilot/github-copilot-in-the-cli"@,
            CopilotError::NotAuthenticated => "GitHub Copilot CLI not authenticated. Run 'gh auth login' and 'gh extension install github/gh-copilot'"@,
            CopilotError::StartFailed(s) => "Failed to start Copilot client: "@ + s@,
            CopilotError::SessionFailed(s) => "Failed to create session: "@ + s@,
            CopilotError::SendFailed(s) => "Failed to send message: "@ + s@,
            CopilotError::Timeout => "Session timeout"@,
        }
    }

    /// A sentence a person can read.
    pub fn message(&self) -> (out: String)
        ensures
            out@ == self.spec_message(),
    {
        match self {
            CopilotError::NotInitialized => String::from_str("Copilot service not initialized"),
            CopilotError::CliNotFound => String::from_str(
                "GitHub Copilot CLI not found. Please install it from https://docs.github.com/en/copilot/github-copilot-in-the-cli",
            ),
            CopilotError::NotAuthenticated => String::from_str(
                "GitHub Copilot CLI not authenticated. Run 'gh auth login' and 'gh extension install github/gh-copilot'",
            ),
            CopilotError::StartFailed(s) => String::from_str(
                "Failed to start Copilot client: ",
            ).concat(s.as_str()),
            CopilotError::SessionFailed(s) => String::from_str("Failed to create session: ").concat(
                s.as_str(),
            ),
            CopilotError::SendFailed(s) => String::from_str("Failed to send message: ").concat(
                s.as_str(),
            ),
            CopilotError::Timeout => String::from_str("Session timeout"),
        }
    }
}

/// What the assistant is told about a story.
#[derive(Debug, Clone)]
pub struct StoryContext {
    pub title: String,
    pub url: Option<String>,
    pub domain: Option<String>,
    pub score: u32,
    pub comment_count: u32,
    pub author: Option<String>,
    pub text: Option<String>,
}

impl Default for StoryContext {
    fn default() -> (c: StoryContext)
        ensures
            c.title@.len() == 0,
            c.url is None,
            c.domain is None,
            c.score == 0,
            c.comment_count == 0,
            c.author is None,
            c.text is None,
    {
        StoryContext {
            title: String::new(),
            url: None,
            domain: None,
            score: 0,
            comment_count: 0,
            author: None,
            text: None,
        }
    }
}

/// What the assistant is told about a comment.
#[derive(Debug, Clone)]
pub struct CommentSummary {
    pub author: String,
    pub text_preview: String,
    pub reply_count: u32,
}

impl Default for CommentSummary {
    fn default() -> (c: CommentSummary)
        ensures
            c.author@.len() == 0,
            c.text_preview@.len() == 0,
            c.reply_count == 0,
    {
        CommentSummary { author: String::new(), text_preview: String::new(), reply_count: 0 }
    }
}

/// What the assistant is told about a discussion.
#[derive(Debug, Clone)]
pub struct DiscussionContext {
    pub story_title: String,
    pub comment_count: u32,
    pub top_comments: Vec<CommentSummary>,
}

impl Default for DiscussionContext {
    fn default() -> (c: DiscussionContext)
        ensures
            c.story_title@.len() == 0,
            c.comment_count == 0,
            c.top_comments@.len() == 0,
    {
        DiscussionContext { story_title: String::new(), comment_count: 0, top_comments: Vec::new() }
    }
}

/// What the assistant is told about a comment to reply to.
#[derive(Debug, Clone)]
pub struct ReplyContext {
    pub parent_comment: String,
    pub parent_author: String,
    pub story_title: String,
    pub user_draft: Option<String>,
}

impl Default for ReplyContext {
    fn default() -> (c: ReplyContext)
        ensures
            c.parent_comment@.len() == 0,
            c.parent_author@.len() == 0,
            c.story_title@.len() == 0,
            c.user_draft is None,
    {
        ReplyContext {
            parent_comment: String::new(),
            parent_author: String::new(),
            story_title: String::new(),
            user_draft: None,
        }
    }
}

/// An answer of the assistant.
#[derive(Debug, Clone)]
pub struct AssistantResponse {
    pub content: String,
}

/// Whether the assistant can be used, and if not, why.
#[derive(Debug, Clone)]
pub struct CopilotAvailability {
    pub cli_installed: bool,
    pub cli_authenticated: bool,
    pub available: bool,
    pub message: String,
}

/// What a front end shows of the assistant.
#[derive(Debug, Clone)]
pub struct CopilotStatus {
    pub available: bool,
    pub running: bool,
    pub cli_installed: bool,
    pub cli_authenticated: bool,
    pub message: String,
}

/// Whether the output of the log-in status command shows an account that is
/// logged in and active.
pub open spec fn spec_gh_authenticated(stdout: Seq<char>, stderr: Seq<char>) -> bool {
    spec_contains(stdout + stderr, "Logged in to"@) && spec_contains(
        stdout + stderr,
        "Active account: true"@,
    )
}

/// Reads the output of the log-in status command.
pub fn gh_authenticated(stdout: &str, stderr: &str) -> (b: bool)
    ensures
        b == spec_gh_authenticated(stdout@, stderr@),
{
    let combined = String::from_str(stdout).concat(stderr);
    contains(combined.as_str(), "Logged in to") && contains(
        combined.as_str(),
        "Active account: true",
    )
}

/// What is told about availability.
pub open spec fn spec_availability_message(cli_installed: bool, cli_authenticated: bool) -> Seq<
    char,
> {
    if !cli_installed {
        "GitHub Copilot CLI not found. Install it to enable AI assistant."@
    } else if !cli_authenticated {
        "GitHub CLI not authenticated. Run 'gh auth login' to enable AI assistant."@
    } else {
        "GitHub Copilot is ready"@
    }
}

/// Judges availability from what was found installed and logged in.
pub fn check_availability(cli_installed: bool, cli_authenticated: bool) -> (a: CopilotAvailability)
    ensures
        a.cli_installed == cli_installed,
        a.cli_authenticated == cli_authenticated,
        a.available == (cli_installed && cli_authenticated),
        a.message@ == spec_availability_message(cli_installed, cli_authenticated),
{
    let message = if !cli_installed {
        String::from_str("GitHub Copilot CLI not found. Install it to enable AI assistant.")
    } else if !cli_authenticated {
        String::from_str(
            "GitHub CLI not authenticated. Run 'gh auth login' to enable AI assistant.",
        )
    } else {
        String::from_str("GitHub Copilot is ready")
    };
    CopilotAvailability {
        cli_installed,
        cli_authenticated,
        available: cli_installed && cli_authenticated,
        message,
    }
}

/// Whether the client may be started: the tool must be installed and logged
/// in.
pub fn start_check(cli_installed: bool, cli_authenticated: bool) -> (r: Result<(), CopilotError>)
    ensures
        match r {
            Ok(_) => cli_installed && cli_authenticated,
            Err(e) => if !cli_installed {
                e is CliNotFound
            } else {
                !cli_authenticated && e is NotAuthenticated
            },
        },
{
    if !cli_installed {
        Err(CopilotError::CliNotFound)
    } else if !cli_authenticated {
        Err(CopilotError::NotAuthenticated)
    } else {
        Ok(())
    }
}

/// The status of an assistant that is not available.
pub fn status_unavailable(availability: CopilotAvailability) -> (s: CopilotStatus)
    ensures
        !s.available,
        !s.running,
        s.cli_installed == availability.cli_installed,
        s.cli_authenticated == availability.cli_authenticated,
        s.message == availability.message,
{
    CopilotStatus {
        available: false,
        running: false,
        cli_installed: availability.cli_installed,
        cli_authenticated: availability.cli_authenticated,
        message: availability.message,
    }
}

/// The status of an assistant that was just started.
pub fn status_started() -> (s: CopilotStatus)
    ensures
        s.available,
        s.running,
        s.cli_installed,
        s.cli_authenticated,
        s.message@ == "AI assistant ready"@,
{
    CopilotStatus {
        available: true,
        running: true,
        cli_installed: true,
        cli_authenticated: true,
        message: String::from_str("AI assistant ready"),
    }
}

/// The status of the assistant: what availability says, and "ready" while
/// the client runs.
pub fn status_of(availability: CopilotAvailability, running: bool) -> (s: CopilotStatus)
    ensures
        s.available == availability.available,
        s.running == running,
        s.cli_installed == availability.cli_installed,
        s.cli_authenticated == availability.cli_authenticated,
        s.message@ == if running {
            "AI assistant ready"@
        } else {
            availability.message@
        },
{
    let message = if running {
        String::from_str("AI assistant ready")
    } else {
        availability.message
    };
    CopilotStatus {
        available: availability.available,
        running,
        cli_installed: availability.cli_installed,
        cli_authenticated: availability.cli_authenticated,
        message,
    }
}

/// `label`, the text and a line break where there is a text; nothing where
/// there is none.
pub open spec fn spec_optional_line(label: Seq<char>, value: Option<String>) -> Seq<char> {
    match value {
        Some(v) => label + v@ + "\n"@,
        None => Seq::empty(),
    }
}

/// The question about a story.
pub open spec fn spec_summarize_prompt(c: StoryContext) -> Seq<char> {
    "Summarize what this Hacker News story is likely about:\n\nTitle: "@ + c.title@ + "\n"@
        + spec_optional_line("URL: "@, c.url) + spec_optional_line("Domain: "@, c.domain)
        + spec_optional_line("\nStory text:\n"@, c.text) + "\nScore: "@ + spec_decimal(
        c.score as nat,
    ) + " points, "@ + spec_decimal(c.comment_count as nat) + " comments\n"@
        + "\nProvide a concise summary (2-3 paragraphs) of what this article likely covers based on the title and context. If it's an Ask HN or Show HN, explain the nature of the post."@
}

/// Appends a labelled line to `out` where there is a value.
fn append_optional_line(out: &mut String, label: &str, value: &Option<String>)
    ensures
        final(out)@ == old(out)@ + spec_optional_line(label@, *value),
{
    match value {
        Some(v) => {
            out.append(label);
            out.append(v.as_str());
            out.append("\n");
            proof {
                assert(out@ =~= old(out)@ + (label@ + v@ + "\n"@));
            }
        },
        None => {
            proof {
                assert(out@ + Seq::<char>::empty() =~= out@);
            }
        },
    }
}

/// Builds the question about a story.
pub fn summarize_prompt(context: &StoryContext) -> (prompt: String)
    ensures
        prompt@ == spec_summarize_prompt(*context),
{
    let mut prompt = String::from_str(
        "Summarize what this Hacker News story is likely about:\n\nTitle: ",
    );
    prompt.append(context.title.as_str());
    prompt.append("\n");
    append_optional_line(&mut prompt, "URL: ", &context.url);
    append_optional_line(&mut prompt, "Domain: ", &context.domain);
    append_optional_line(&mut prompt, "\nStory text:\n", &context.text);
    prompt.append("\nScore: ");
    prompt.append(decimal(context.score as u64).as_str());
    prompt.append(" points, ");
    prompt.append(decimal(context.comment_count as u64).as_str());
    prompt.append(" comments\n");
    prompt.append(
        "\nProvide a concise summary (2-3 paragraphs) of what this article likely covers based on the title and context. If it's an Ask HN or Show HN, explain the nature of the post.",
    );
    proof {
        assert(prompt@ =~= spec_summarize_prompt(*context));
    }
    prompt
}

/// The entry of one comment in the question about a discussion; `number`
/// counts from one.
pub open spec fn spec_comment_entry(number: nat, c: CommentSummary) -> Seq<char> {
    "\n"@ + spec_decimal(number) + ". "@ + c.author@ + " ("@ + spec_decimal(c.reply_count as nat)
        + " replies):\n\""@ + c.text_preview@ + "\"\n"@
}

/// The entries of all comments, numbered from one.
pub open spec fn spec_comment_entries(comments: Seq<CommentSummary>) -> Seq<char>
    decreases comments.len(),
{
    if comments.len() == 0 {
        Seq::empty()
    } else {
        spec_comment_entries(comments.drop_last()) + spec_comment_entry(
            comments.len(),
            comments.last(),
        )
    }
}

/// The question about a discussion.
pub open spec fn spec_discussion_prompt(c: DiscussionContext) -> Seq<char> {
    "Analyze this Hacker News discussion:\n\nStory: "@ + c.story_title@ + "\nTotal comments: "@
        + spec_decimal(c.comment_count as nat) + "\n\nTop-level comments:\n"@
        + spec_comment_entries(c.top_comments@)
        + "\nProvide a brief analysis of this discussion:\n1. What are the main viewpoints or themes?\n2. Are there areas of agreement or contention?\n3. Any particularly notable perspectives?"@
}

/// Builds the question about a discussion.
pub fn discussion_prompt(context: &DiscussionContext) -> (prompt: String)
    ensures
        prompt@ == spec_discussion_prompt(*context),
{
    let mut prompt = String::from_str("Analyze this Hacker News discussion:\n\nStory: ");
    prompt.append(context.story_title.as_str());
    prompt.append("\nTotal comments: ");
    prompt.append(decimal(context.comment_count as u64).as_str());
    prompt.append("\n\nTop-level comments:\n");
    let ghost head = prompt@;
    proof {
        assert(context.top_comments@.take(0) =~= Seq::<CommentSummary>::empty());
        assert(head + spec_comment_entries(context.top_comments@.take(0)) =~= head);
    }
    let mut i: usize = 0;
    while i < context.top_comments.len()
        invariant
            i <= context.top_comments.len(),
            prompt@ == head + spec_comment_entries(context.top_comments@.take(i as int)),
        decreases context.top_comments.len() - i,
    {
        let comment = &context.top_comments[i];
        let ghost before = prompt@;
        prompt.append("\n");
        prompt.append(decimal(i as u64 + 1).as_str());
        prompt.append(". ");
        prompt.append(comment.author.as_str());
        prompt.append(" (");
        prompt.append(decimal(comment.reply_count as u64).as_str());
        prompt.append(" replies):\n\"");
        prompt.append(comment.text_preview.as_str());
        prompt.append("\"\n");
        proof {
            let upto = context.top_comments@.take(i + 1);
            assert(upto.drop_last() =~= context.top_comments@.take(i as int));
            assert(upto.last() == *comment);
            assert(prompt@ =~= before + spec_comment_entry((i + 1) as nat, *comment));
            assert(head + spec_comment_entries(context.top_comments@.take(i as int))
                + spec_comment_entry((i + 1) as nat, *comment) =~= head + spec_comment_entries(
                upto,
            ));
        }
        i += 1;
    }
    proof {
        assert(context.top_comments@.take(i as int) =~= context.top_comments@);
    }
    prompt.append(
        "\nProvide a brief analysis of this discussion:\n1. What are the main viewpoints or themes?\n2. Are there areas of agreement or contention?\n3. Any particularly notable perspectives?",
    );
    proof {
        assert(prompt@ =~= spec_discussion_prompt(*context));
    }
    prompt
}

/// The question about a term, with or without the context it stands in.
pub open spec fn spec_explain_prompt(text: Seq<char>, context: Option<Seq<char>>) -> Seq<char> {
    match context {
        Some(c) => "Explain this term/concept in the context of a Hacker News discussion:\n\nTerm: \""@
            + text + "\"\nContext: "@ + c
            + "\n\nProvide a brief explanation (1-2 paragraphs) that would help a technically-competent reader who may not be familiar with this specific topic."@,
        None => "Explain this term/concept for a Hacker News reader:\n\nTerm: \""@ + text
            + "\"\n\nProvide a brief explanation (1-2 paragraphs) that would help a technically-competent reader."@,
    }
}

/// Builds the question about a term.
pub fn explain_prompt(text: &str, context: Option<&str>) -> (prompt: String)
    ensures
        prompt@ == spec_explain_prompt(
            text@,
            match context {
                Some(c) => Some(c@),
                None => None,
            },
        ),
{
    match context {
        Some(c) => {
            let mut prompt = String::from_str(
                "Explain this term/concept in the context of a Hacker News discussion:\n\nTerm: \"",
            );
            prompt.append(text);
            prompt.append("\"\nContext: ");
            prompt.append(c);
            prompt.append(
                "\n\nProvide a brief explanation (1-2 paragraphs) that would help a technically-competent reader who may not be familiar with this specific topic.",
            );
            prompt
        },
        None => {
            let mut prompt = String::from_str(
                "Explain this term/concept for a Hacker News reader:\n\nTerm: \"",
            );
            prompt.append(text);
            prompt.append(
                "\"\n\nProvide a brief explanation (1-2 paragraphs) that would help a technically-competent reader.",
            );
            prompt
        },
    }
}

/// The request for help with a reply.
pub open spec fn spec_reply_prompt(c: ReplyContext) -> Seq<char> {
    "Help draft a thoughtful reply to this Hacker News comment:\n\nStory: "@ + c.story_title@
        + "\n\nComment by "@ + c.parent_author@ + ":\n\""@ + c.parent_comment@ + "\"\n"@ + match c.user_draft {
        Some(draft) => "\nUser's draft so far:\n\""@ + draft@ + "\"\n"@
            + "\nHelp improve and expand this draft while maintaining the user's voice."@,
        None => "\nSuggest 2-3 different angles for a thoughtful reply, with a brief draft for each. Keep them substantive but not too long."@,
    }
}

/// Builds the request for help with a reply.
pub fn reply_prompt(context: &ReplyContext) -> (prompt: String)
    ensures
        prompt@ == spec_reply_prompt(*context),
{
    let mut prompt = String::from_str(
        "Help draft a thoughtful reply to this Hacker News comment:\n\nStory: ",
    );
    prompt.append(context.story_title.as_str());
    prompt.append("\n\nComment by ");
    prompt.append(context.parent_author.as_str());
    prompt.append(":\n\"");
    prompt.append(context.parent_comment.as_str());
    prompt.append("\"\n");
    match &context.user_draft {
        Some(draft) => {
            prompt.append("\nUser's draft so far:\n\"");
            prompt.append(draft.as_str());
            prompt.append("\"\n");
            prompt.append(
                "\nHelp improve and expand this draft while maintaining the user's voice.",
            );
        },
        None => {
            prompt.append(
                "\nSuggest 2-3 different angles for a thoughtful reply, with a brief draft for each. Keep them substantive but not too long.",
            );
        },
    }
    proof {
        assert(prompt@ =~= spec_reply_prompt(*context));
    }
    prompt
}

/// What comes back from a session.
#[derive(Debug)]
pub enum SessionSignal {
    /// A piece of the answer.
    Delta(String),
    /// The whole answer.
    Message(String),
    /// The session has nothing more to say.
    Idle,
    /// The session reported an error.
    Failed(String),
    /// The channel of events closed.
    ChannelClosed,
    /// Nothing came in time.
    TimedOut,
    /// An event that carries nothing of the answer.
    Other,
}

/// How collecting an answer ended.
pub enum Outcome {
    /// The answer is complete: its text.
    Answer(Seq<char>),
    /// The session reported an error: its words.
    Failure(Seq<char>),
    /// Nothing came in time.
    Timeout,
}

/// One step of collecting an answer: the text afterwards, and the outcome
/// once there is one. Pieces are put together in order; a whole answer
/// counts only where no piece came before it.
pub open spec fn spec_collect(content: Seq<char>, signal: SessionSignal) -> (
    Seq<char>,
    Option<Outcome>,
) {
    match signal {
        SessionSignal::Delta(piece) => (content + piece@, None),
        SessionSignal::Message(whole) => if content.len() == 0 {
            (whole@, None)
        } else {
            (content, None)
        },
        SessionSignal::Idle => (content, Some(Outcome::Answer(content))),
        SessionSignal::Failed(words) => (content, Some(Outcome::Failure(words@))),
        SessionSignal::ChannelClosed => (content, Some(Outcome::Answer(content))),
        SessionSignal::TimedOut => (content, Some(Outcome::Timeout)),
        SessionSignal::Other => (content, None),
    }
}

/// Puts an answer together from the events of a session.
pub struct ResponseCollector {
    content: String,
}

impl View for ResponseCollector {
    type V = Seq<char>;

    /// The text collected so far.
    closed spec fn view(&self) -> Seq<char> {
        self.content@
    }
}

impl ResponseCollector {
    /// A collector that holds nothing yet.
    pub fn new() -> (c: ResponseCollector)
        ensures
            c@ == Seq::<char>::empty(),
    {
        ResponseCollector { content: String::new() }
    }

    /// Takes an event. The answer is `None` while the session goes on, and
    /// the result once it is over.
    pub fn observe(&mut self, signal: SessionSignal) -> (r: Option<
        Result<AssistantResponse, CopilotError>,
    >)
        ensures
            final(self)@ == spec_collect(old(self)@, signal).0,
            match spec_collect(old(self)@, signal).1 {
                None => r is None,
                Some(Outcome::Answer(text)) => r matches Some(Ok(response)) && response.content@
                    == text,
                Some(Outcome::Failure(words)) => r matches Some(Err(CopilotError::SendFailed(s)))
                    && s@ == words,
                Some(Outcome::Timeout) => r matches Some(Err(CopilotError::Timeout)),
            },
    {
        match signal {
            SessionSignal::Delta(piece) => {
                self.content.append(piece.as_str());
                None
            },
            SessionSignal::Message(whole) => {
                if self.content.as_str().is_empty() {
                    self.content = whole;
                }
                None
            },
            SessionSignal::Idle => Some(Ok(AssistantResponse { content: self.content.clone() })),
            SessionSignal::Failed(words) => Some(Err(CopilotError::SendFailed(words))),
            SessionSignal::ChannelClosed => Some(
                Ok(AssistantResponse { content: self.content.clone() }),
            ),
            SessionSignal::TimedOut => Some(Err(CopilotError::Timeout)),
            SessionSignal::Other => None,
        }
    }
}

} // verus!
