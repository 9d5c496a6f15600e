use pastel_hn::client::{
    CONNECT_TIMEOUT_SECS, HTTP_TIMEOUT_SECS, ITEM_CACHE_CAPACITY, POOL_MAX_IDLE_PER_HOST,
    STORY_IDS_CACHE_CAPACITY, USER_AGENT, USER_CACHE_CAPACITY,
    cache_stats, kids_to_fetch, retry_after_secs,
    ALGOLIA_BASE_URL, HN_BASE_URL, ITEM_CACHE_TTL_SECS, RefreshTracker, STALE_THRESHOLD_PERCENT,
    STORY_IDS_CACHE_TTL_SECS, USER_CACHE_TTL_SECS, article_from, check_response_status,
    collect_items, feed_changed, filter_submissions, has_more, item_from_response, item_url,
    page_ids, search_response_from, search_url, stories_page, story_ids_url,
    submission_fetch_limit, submissions_page, user_from_response, user_url, word_count,
};
use pastel_hn::types::{HNItem, RawHNItem, 
    AlgoliaHit, AlgoliaResponse, ApiError, RawHNUser, SearchFilter, SearchSort, StoryFeed,
    SubmissionFilter,
};

const ALL_FEEDS: [StoryFeed; 6] = [
    StoryFeed::Top,
    StoryFeed::New,
    StoryFeed::Best,
    StoryFeed::Ask,
    StoryFeed::Show,
    StoryFeed::Jobs,
];

#[test]
fn cache_ttl_constants_are_reasonable() {
    // Item cache: 5 minutes
    assert_eq!(ITEM_CACHE_TTL_SECS, 5 * 60);

    // Story IDs cache: 2 minutes (shorter for fresher feeds)
    assert_eq!(STORY_IDS_CACHE_TTL_SECS, 2 * 60);

    // User cache: 10 minutes (user data changes less frequently)
    assert_eq!(USER_CACHE_TTL_SECS, 10 * 60);
}

#[test]
fn hn_base_url_is_correct() {
    assert_eq!(HN_BASE_URL, "https://hacker-news.firebaseio.com/v0");
}

#[test]
fn algolia_base_url_is_correct() {
    assert_eq!(ALGOLIA_BASE_URL, "https://hn.algolia.com/api/v1");
}

#[test]
fn stale_threshold_is_75_percent() {
    assert_eq!(STALE_THRESHOLD_PERCENT, 75);
}

#[test]
fn refresh_tracker_new_creates_empty() {
    let tracker = RefreshTracker::new();
    assert!(ALL_FEEDS.iter().all(|f| !tracker.has_fetched(*f)));
    assert!(ALL_FEEDS.iter().all(|f| !tracker.is_refreshing(*f)));
}

#[test]
fn refresh_tracker_mark_fetched_records_time() {
    let mut tracker = RefreshTracker::new();
    tracker.mark_fetched(StoryFeed::Top, 1_000);
    assert!(tracker.has_fetched(StoryFeed::Top));
}

#[test]
fn refresh_tracker_mark_fetched_clears_refreshing() {
    let mut tracker = RefreshTracker::new();
    tracker.start_refresh(StoryFeed::Top);
    assert!(tracker.is_refreshing(StoryFeed::Top));

    tracker.mark_fetched(StoryFeed::Top, 1_000);
    assert!(!tracker.is_refreshing(StoryFeed::Top));
}

#[test]
fn refresh_tracker_is_stale_false_for_fresh_data() {
    let mut tracker = RefreshTracker::new();
    tracker.mark_fetched(StoryFeed::Top, 1_000);
    // Just fetched, should not be stale
    assert!(!tracker.is_stale(StoryFeed::Top, 120 * 1000, 1_000));
}

#[test]
fn refresh_tracker_is_stale_false_for_unknown_feed() {
    let tracker = RefreshTracker::new();
    // Never fetched, should not be considered stale (will be fetched fresh)
    assert!(!tracker.is_stale(StoryFeed::Top, 120 * 1000, 1_000));
}

#[test]
fn refresh_tracker_start_refresh_sets_flag() {
    let mut tracker = RefreshTracker::new();
    assert!(!tracker.is_refreshing(StoryFeed::Top));
    tracker.start_refresh(StoryFeed::Top);
    assert!(tracker.is_refreshing(StoryFeed::Top));
}

#[test]
fn refresh_tracker_independent_feeds() {
    let mut tracker = RefreshTracker::new();
    tracker.mark_fetched(StoryFeed::Top, 1_000);
    tracker.start_refresh(StoryFeed::New);

    assert!(tracker.has_fetched(StoryFeed::Top));
    assert!(!tracker.has_fetched(StoryFeed::New));
    assert!(tracker.is_refreshing(StoryFeed::New));
    assert!(!tracker.is_refreshing(StoryFeed::Top));
}

#[test]
fn is_feed_stale_false_initially() {
    let tracker = RefreshTracker::new();
    // No data cached yet, shouldn't be considered stale
    assert!(!tracker.needs_refresh(StoryFeed::Top, STORY_IDS_CACHE_TTL_SECS * 1000, 0));
}

#[test]
fn data_is_stale_in_the_last_quarter_of_its_life() {
    let mut tracker = RefreshTracker::new();
    tracker.mark_fetched(StoryFeed::Best, 10_000);
    let ttl = 120_000;
    assert!(!tracker.is_stale(StoryFeed::Best, ttl, 10_000 + 89_999));
    assert!(tracker.is_stale(StoryFeed::Best, ttl, 10_000 + 90_000));
    assert!(tracker.is_stale(StoryFeed::Best, ttl, 10_000 + 119_999));
    assert!(!tracker.is_stale(StoryFeed::Best, ttl, 10_000 + 120_000));
    // a clock that went back counts as no time passed
    assert!(!tracker.is_stale(StoryFeed::Best, ttl, 5_000));
    assert!(!tracker.is_stale(StoryFeed::Best, 0, 10_000));
    assert!(tracker.is_stale(StoryFeed::Best, u64::MAX, u64::MAX - 1));
}

#[test]
fn a_refresh_is_due_once_per_stale_feed() {
    let mut tracker = RefreshTracker::new();
    tracker.mark_fetched(StoryFeed::Ask, 0);
    assert!(!tracker.needs_refresh(StoryFeed::Ask, 1_000, 700));
    assert!(tracker.needs_refresh(StoryFeed::Ask, 1_000, 800));
    tracker.start_refresh(StoryFeed::Ask);
    assert!(!tracker.needs_refresh(StoryFeed::Ask, 1_000, 800));
    tracker.refresh_failed(StoryFeed::Ask);
    assert!(tracker.needs_refresh(StoryFeed::Ask, 1_000, 800));
    tracker.start_refresh(StoryFeed::Ask);
    tracker.mark_fetched(StoryFeed::Ask, 900);
    assert!(!tracker.needs_refresh(StoryFeed::Ask, 1_000, 950));
    assert!(!tracker.needs_refresh(StoryFeed::Show, 1_000, 950));
}

fn story(id: u32, item_type: u8, kids: Option<Vec<u32>>) -> HNItem {
    HNItem {
        id,
        item_type,
        by: Some("testuser".to_string()),
        time: 1609459200,
        text: None,
        url: Some("https://example.com".to_string()),
        score: 100,
        title: Some("Test Story".to_string()),
        descendants: 50,
        kids,
        parent: None,
        dead: false,
        deleted: false,
    }
}

#[test]
fn fetch_comments_depth_zero_returns_empty() {
    let item = story(123, 0, Some(vec![456, 789]));
    assert!(kids_to_fetch(&item, 0).is_empty());
}

#[test]
fn fetch_comments_no_kids_returns_empty() {
    let item = story(123, 0, None);
    assert!(kids_to_fetch(&item, 3).is_empty());
}

#[test]
fn fetch_comments_empty_kids_returns_empty() {
    let item = story(123, 0, Some(vec![]));
    assert!(kids_to_fetch(&item, 3).is_empty());
}

#[test]
fn comments_are_fetched_while_depth_remains() {
    let item = story(123, 0, Some(vec![456, 789]));
    assert_eq!(kids_to_fetch(&item, 1), vec![456, 789]);
    assert_eq!(kids_to_fetch(&item, 255), vec![456, 789]);
}

#[test]
fn client_settings() {
    assert_eq!(HTTP_TIMEOUT_SECS, 30);
    assert_eq!(CONNECT_TIMEOUT_SECS, 10);
    assert_eq!(POOL_MAX_IDLE_PER_HOST, 10);
    assert_eq!(USER_AGENT, "pastel-hn/0.3");
    assert_eq!(ITEM_CACHE_CAPACITY, 10_000);
    assert_eq!(STORY_IDS_CACHE_CAPACITY, 10);
    assert_eq!(USER_CACHE_CAPACITY, 100);
}

#[test]
fn rate_limits_name_the_wait() {
    assert!(check_response_status(200, None).is_ok());
    assert!(check_response_status(404, Some("5")).is_ok());
    assert!(check_response_status(500, None).is_ok());
    assert!(matches!(check_response_status(429, Some("7")), Err(ApiError::RateLimited(7))));
    assert!(matches!(check_response_status(429, None), Err(ApiError::RateLimited(60))));
    assert!(matches!(check_response_status(429, Some("soon")), Err(ApiError::RateLimited(60))));
    assert!(matches!(check_response_status(429, Some("-1")), Err(ApiError::RateLimited(60))));
    assert!(matches!(check_response_status(429, Some("0")), Err(ApiError::RateLimited(0))));
    assert_eq!(retry_after_secs(Some(12)), 12);
    assert_eq!(retry_after_secs(None), 60);
}

#[test]
fn service_addresses() {
    assert_eq!(
        story_ids_url(StoryFeed::Top),
        "https://hacker-news.firebaseio.com/v0/topstories.json"
    );
    assert_eq!(
        story_ids_url(StoryFeed::Jobs),
        "https://hacker-news.firebaseio.com/v0/jobstories.json"
    );
    assert_eq!(item_url(12345), "https://hacker-news.firebaseio.com/v0/item/12345.json");
    assert_eq!(item_url(0), "https://hacker-news.firebaseio.com/v0/item/0.json");
    assert_eq!(user_url("pg"), "https://hacker-news.firebaseio.com/v0/user/pg.json");
}

#[test]
fn search_addresses() {
    assert_eq!(
        search_url("rust", 0, 20, SearchSort::Relevance, SearchFilter::All),
        "https://hn.algolia.com/api/v1/search?query=rust&page=0&hitsPerPage=20"
    );
    assert_eq!(
        search_url("rust lang", 2, 50, SearchSort::Date, SearchFilter::Story),
        "https://hn.algolia.com/api/v1/search_by_date?query=rust%20lang&page=2&hitsPerPage=50&tags=story"
    );
    assert_eq!(
        search_url("a&b=c/d?é~_.-", 1, 1, SearchSort::Relevance, SearchFilter::Comment),
        "https://hn.algolia.com/api/v1/search?query=a%26b%3Dc%2Fd%3F%C3%A9~_.-&page=1&hitsPerPage=1&tags=comment"
    );
    assert_eq!(
        search_url("", 0, 0, SearchSort::Relevance, SearchFilter::All),
        "https://hn.algolia.com/api/v1/search?query=&page=0&hitsPerPage=0"
    );
}

#[test]
fn a_refresh_reports_new_data_only() {
    assert!(feed_changed(None, &vec![1, 2, 3]));
    assert!(feed_changed(None, &vec![]));
    assert!(!feed_changed(Some(&vec![1, 2, 3]), &vec![1, 2, 3]));
    assert!(!feed_changed(Some(&vec![]), &vec![]));
    assert!(feed_changed(Some(&vec![1, 2, 3]), &vec![1, 2, 4]));
    assert!(feed_changed(Some(&vec![1, 2, 3]), &vec![3, 2, 1]));
    assert!(feed_changed(Some(&vec![1, 2, 3]), &vec![1, 2]));
    assert!(feed_changed(Some(&vec![1, 2]), &vec![1, 2, 3]));
}

fn raw_item(id: u32) -> RawHNItem {
    RawHNItem {
        id,
        item_type: Some("story".to_string()),
        by: None,
        time: 0,
        text: None,
        url: None,
        score: 0,
        title: None,
        descendants: 0,
        kids: None,
        parent: None,
        dead: false,
        deleted: false,
    }
}

#[test]
fn responses_without_an_item_mean_not_found() {
    let item = item_from_response(true, Some(raw_item(5)), 5).unwrap();
    assert_eq!(item.id, 5);
    assert_eq!(item.item_type, 0);
    assert!(matches!(item_from_response(true, None, 5), Err(ApiError::NotFound(5))));
    assert!(matches!(item_from_response(false, Some(raw_item(5)), 6), Err(ApiError::NotFound(6))));
    assert!(matches!(item_from_response(false, None, 7), Err(ApiError::NotFound(7))));

    let raw = RawHNUser {
        id: "pg".to_string(),
        created: 1,
        karma: 2,
        about: None,
        submitted: None,
    };
    let user = user_from_response(true, Some(raw.clone()), "pg").unwrap();
    assert_eq!(user.id, "pg");
    assert_eq!(user.karma, 2);
    match user_from_response(false, Some(raw), "pg") {
        Err(ApiError::UserNotFound(name)) => assert_eq!(name, "pg"),
        other => panic!("unexpected: {:?}", other),
    }
    match user_from_response(true, None, "nobody") {
        Err(ApiError::UserNotFound(name)) => assert_eq!(name, "nobody"),
        other => panic!("unexpected: {:?}", other),
    }
}

#[test]
fn missing_items_are_left_out_and_failures_are_passed_on() {
    let results = vec![
        Ok(story(1, 0, None)),
        Err(ApiError::NotFound(2)),
        Ok(story(3, 1, None)),
        Err(ApiError::NotFound(4)),
    ];
    let items = collect_items(results).unwrap();
    assert_eq!(items.iter().map(|i| i.id).collect::<Vec<u32>>(), vec![1, 3]);

    let results = vec![
        Ok(story(1, 0, None)),
        Err(ApiError::NotFound(2)),
        Err(ApiError::RateLimited(9)),
        Err(ApiError::Api("later".to_string())),
        Ok(story(3, 1, None)),
    ];
    assert!(matches!(collect_items(results), Err(ApiError::RateLimited(9))));
    assert!(collect_items(vec![]).unwrap().is_empty());
}

#[test]
fn pages_are_cut_from_the_list() {
    let ids: Vec<u32> = (1..=10).collect();
    assert_eq!(page_ids(&ids, 0, 3), vec![1, 2, 3]);
    assert_eq!(page_ids(&ids, 3, 3), vec![4, 5, 6]);
    assert_eq!(page_ids(&ids, 8, 3), vec![9, 10]);
    assert_eq!(page_ids(&ids, 10, 3), Vec::<u32>::new());
    assert_eq!(page_ids(&ids, 11, 3), Vec::<u32>::new());
    assert_eq!(page_ids(&ids, 0, 0), Vec::<u32>::new());
    assert_eq!(page_ids(&ids, 2, usize::MAX), vec![3, 4, 5, 6, 7, 8, 9, 10]);
    assert_eq!(page_ids(&ids, usize::MAX, usize::MAX), Vec::<u32>::new());

    assert!(has_more(0, 3, 10));
    assert!(has_more(6, 3, 10));
    assert!(!has_more(7, 3, 10));
    assert!(!has_more(10, 3, 10));
    assert!(!has_more(0, 0, 0));
    assert!(has_more(0, 0, 1));
    assert!(!has_more(usize::MAX, usize::MAX, usize::MAX));

    let page = stories_page(vec![story(1, 0, None)], 0, 1, 2);
    assert_eq!(page.stories.len(), 1);
    assert!(page.has_more);
    assert_eq!(page.total, 2);
}

#[test]
fn submissions_are_filtered_by_kind() {
    let items = || {
        vec![
            story(1, 0, None),
            story(2, 1, None),
            story(3, 2, None),
            story(4, 3, None),
            story(5, 1, None),
            story(6, 0, None),
        ]
    };
    let ids = |items: Vec<HNItem>| -> Vec<u32> {
        items.iter().map(|i| i.id).collect()
    };
    assert_eq!(ids(filter_submissions(items(), SubmissionFilter::All, 10)), vec![1, 2, 3, 4, 5, 6]);
    assert_eq!(ids(filter_submissions(items(), SubmissionFilter::All, 2)), vec![1, 2]);
    assert_eq!(ids(filter_submissions(items(), SubmissionFilter::Stories, 10)), vec![1, 3, 6]);
    assert_eq!(ids(filter_submissions(items(), SubmissionFilter::Stories, 2)), vec![1, 3]);
    assert_eq!(ids(filter_submissions(items(), SubmissionFilter::Comments, 10)), vec![2, 5]);
    assert_eq!(ids(filter_submissions(items(), SubmissionFilter::Comments, 1)), vec![2]);
    assert_eq!(ids(filter_submissions(items(), SubmissionFilter::Comments, 0)), Vec::<u32>::new());

    assert_eq!(submission_fetch_limit(30, SubmissionFilter::All), 30);
    assert_eq!(submission_fetch_limit(30, SubmissionFilter::Stories), 60);
    assert_eq!(submission_fetch_limit(30, SubmissionFilter::Comments), 60);
    assert_eq!(submission_fetch_limit(usize::MAX, SubmissionFilter::Comments), usize::MAX);

    let page = submissions_page(items(), SubmissionFilter::Stories, 4, 2, 7);
    assert_eq!(ids(page.items), vec![1, 3]);
    assert!(page.has_more);
    assert_eq!(page.total, 7);
}

#[test]
fn cache_statistics_carry_the_lifetimes() {
    let stats = cache_stats(5, 2, 1);
    assert_eq!(stats.item_count, 5);
    assert_eq!(stats.story_ids_count, 2);
    assert_eq!(stats.user_count, 1);
    assert_eq!(stats.item_ttl_secs, 300);
    assert_eq!(stats.story_ids_ttl_secs, 120);
    assert_eq!(stats.user_ttl_secs, 600);
}

#[test]
fn words_are_runs_without_white_space() {
    assert_eq!(word_count(""), 0);
    assert_eq!(word_count("   \n\t "), 0);
    assert_eq!(word_count("one"), 1);
    assert_eq!(word_count("  one  two\nthree\t"), 3);
    assert_eq!(word_count("a\u{a0}b\u{2003}c"), 3);

    let article = article_from("".to_string(), "<p>x</p>".to_string(), "hello big world".to_string());
    assert_eq!(article.title, None);
    assert_eq!(article.content, "<p>x</p>");
    assert_eq!(article.text_content, "hello big world");
    assert_eq!(article.word_count, 3);
    assert_eq!(article.byline, None);
    assert_eq!(article.excerpt, None);
    assert_eq!(article.site_name, None);
    assert_eq!(article.lang, None);
    let article = article_from("T".to_string(), "".to_string(), "".to_string());
    assert_eq!(article.title, Some("T".to_string()));
    assert_eq!(article.word_count, 0);
}

#[test]
fn search_pages_are_converted_hit_by_hit() {
    let hit = |id: &str, tags: Vec<&str>| AlgoliaHit {
        object_id: id.to_string(),
        title: Some(format!("t{}", id)),
        url: None,
        author: None,
        points: Some(3),
        num_comments: None,
        created_at_i: None,
        story_id: None,
        story_title: None,
        comment_text: None,
        tags: tags.into_iter().map(String::from).collect(),
    };
    let response = AlgoliaResponse {
        hits: vec![hit("10", vec!["story"]), hit("x", vec!["comment"]), hit("30", vec![])],
        nb_hits: 100,
        page: 1,
        nb_pages: 10,
        hits_per_page: 3,
        query: "q".to_string(),
    };
    let out = search_response_from(response);
    assert_eq!(out.hits.iter().map(|h| h.id).collect::<Vec<u32>>(), vec![10, 0, 30]);
    assert_eq!(
        out.hits.iter().map(|h| h.result_type.as_str()).collect::<Vec<&str>>(),
        vec!["story", "comment", "story"]
    );
    assert_eq!(out.hits[0].title, Some("t10".to_string()));
    assert_eq!(out.nb_hits, 100);
    assert_eq!(out.page, 1);
    assert_eq!(out.nb_pages, 10);
    assert_eq!(out.hits_per_page, 3);
    assert_eq!(out.query, "q");
}
