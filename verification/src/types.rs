//! The items, users and search results of Hacker News, as the services
//! deliver them and as the reader shows them.

use vstd::prelude::*;
use crate::text::{decimal, spec_decimal, str_equal};

verus! {

/// The kinds of items.
#[derive(Debug, Clone, Copy, PartialEq, Eq, Structural)]
pub enum ItemType {
    Story,
    Comment,
    Job,
    Poll,
    Pollopt,
    Unknown,
}

impl Default for ItemType {
    fn default() -> (t: ItemType)
        ensures
            t == ItemType::Unknown,
    {
        ItemType::Unknown
    }
}

/// The story feeds.
#[derive(Debug, Clone, Copy, PartialEq, Eq, Hash, Structural)]
pub enum StoryFeed {
    Top,
    New,
    Best,
    Ask,
    Show,
    Jobs,
}

impl StoryFeed {
    /// The name of the feed's list in the item service.
    pub open spec fn spec_endpoint(self) -> Seq<char> {
        match self {
            StoryFeed::Top => "topstories"@,
            StoryFeed::New => "newstories"@,
            StoryFeed::Best => "beststories"@,
            StoryFeed::Ask => "askstories"@,
            StoryFeed::Show => "showstories"@,
            StoryFeed::Jobs => "jobstories"@,
        }
    }

    /// The name of the feed's list in the item service.
    pub fn endpoint(&self) -> (name: &'static str)
        ensures
            name@ == self.spec_endpoint(),
    {
        match self {
            StoryFeed::Top => "topstories",
            StoryFeed::New => "newstories",
            StoryFeed::Best => "beststories",
            StoryFeed::Ask => "askstories",
            StoryFeed::Show => "showstories",
            StoryFeed::Jobs => "jobstories",
        }
    }
}

/// An item as the item service delivers it.
#[derive(Debug, Clone)]
pub struct RawHNItem {
    pub id: u32,
    pub item_type: Option<String>,
    pub by: Option<String>,
    pub time: u64,
    pub text: Option<String>,
    pub url: Option<String>,
    pub score: i32,
    pub title: Option<String>,
    pub descendants: u32,
    pub kids: Option<Vec<u32>>,
    pub parent: Option<u32>,
    pub dead: bool,
    pub deleted: bool,
}

/// An item as the reader shows it. `item_type` is 0 for a story, 1 for a
/// comment, 2 for a job, 3 for a poll, 4 for a poll option and 5 for anything
/// else.
#[derive(Debug, Clone)]
pub struct HNItem {
    pub id: u32,
    pub item_type: u8,
    pub by: Option<String>,
    pub time: u64,
    pub text: Option<String>,
    pub url: Option<String>,
    pub score: i32,
    pub title: Option<String>,
    pub descendants: u32,
    pub kids: Option<Vec<u32>>,
    pub parent: Option<u32>,
    pub dead: bool,
    pub deleted: bool,
}

/// The number of the kind that the service names `name`.
pub open spec fn spec_item_type(name: Option<String>) -> u8 {
    match name {
        Some(s) => if s@ == "story"@ {
            0u8
        } else if s@ == "comment"@ {
            1u8
        } else if s@ == "job"@ {
            2u8
        } else if s@ == "poll"@ {
            3u8
        } else if s@ == "pollopt"@ {
            4u8
        } else {
            5u8
        },
        None => 5u8,
    }
}

/// The number of the kind that the service names `name`.
pub fn item_type_code(name: &Option<String>) -> (code: u8)
    ensures
        code == spec_item_type(*name),
{
    match name {
        Some(s) => {
            if str_equal(s.as_str(), "story") {
                0
            } else if str_equal(s.as_str(), "comment") {
                1
            } else if str_equal(s.as_str(), "job") {
                2
            } else if str_equal(s.as_str(), "poll") {
                3
            } else if str_equal(s.as_str(), "pollopt") {
                4
            } else {
                5
            }
        },
        None => 5,
    }
}

impl From<RawHNItem> for HNItem {
    fn from(raw: RawHNItem) -> (item: HNItem) {
        let item_type = item_type_code(&raw.item_type);
        HNItem {
            id: raw.id,
            item_type,
            by: raw.by,
            time: raw.time,
            text: raw.text,
            url: raw.url,
            score: raw.score,
            title: raw.title,
            descendants: raw.descendants,
            kids: raw.kids,
            parent: raw.parent,
            dead: raw.dead,
            deleted: raw.deleted,
        }
    }
}

impl vstd::std_specs::convert::FromSpecImpl<RawHNItem> for HNItem {
    open spec fn obeys_from_spec() -> bool {
        true
    }

    open spec fn from_spec(raw: RawHNItem) -> HNItem {
        spec_item_from(raw)
    }
}

/// The item that the reader shows for an item of the service: the same, with
/// the kind as a number.
pub open spec fn spec_item_from(raw: RawHNItem) -> HNItem {
    HNItem {
        id: raw.id,
        item_type: spec_item_type(raw.item_type),
        by: raw.by,
        time: raw.time,
        text: raw.text,
        url: raw.url,
        score: raw.score,
        title: raw.title,
        descendants: raw.descendants,
        kids: raw.kids,
        parent: raw.parent,
        dead: raw.dead,
        deleted: raw.deleted,
    }
}

/// A comment with the comments below it.
#[derive(Debug)]
pub struct CommentWithChildren {
    pub item: HNItem,
    pub children: Vec<CommentWithChildren>,
}

/// A story with its comments.
#[derive(Debug)]
pub struct StoryWithComments {
    pub story: HNItem,
    pub comments: Vec<CommentWithChildren>,
}

/// One page of stories.
#[derive(Debug, Clone)]
pub struct StoriesResponse {
    pub stories: Vec<HNItem>,
    pub has_more: bool,
    pub total: usize,
}

/// A user as the item service delivers it.
#[derive(Debug, Clone)]
pub struct RawHNUser {
    pub id: String,
    pub created: u64,
    pub karma: i32,
    pub about: Option<String>,
    pub submitted: Option<Vec<u32>>,
}

/// A user as the reader shows them.
#[derive(Debug, Clone)]
pub struct HNUser {
    pub id: String,
    pub created: u64,
    pub karma: i32,
    pub about: Option<String>,
    pub submitted: Option<Vec<u32>>,
}

impl From<RawHNUser> for HNUser {
    fn from(raw: RawHNUser) -> (user: HNUser) {
        HNUser {
            id: raw.id,
            created: raw.created,
            karma: raw.karma,
            about: raw.about,
            submitted: raw.submitted,
        }
    }
}

impl vstd::std_specs::convert::FromSpecImpl<RawHNUser> for HNUser {
    open spec fn obeys_from_spec() -> bool {
        true
    }

    open spec fn from_spec(raw: RawHNUser) -> HNUser {
        spec_user_from(raw)
    }
}

/// The user that the reader shows for a user of the service: the same.
pub open spec fn spec_user_from(raw: RawHNUser) -> HNUser {
    HNUser {
        id: raw.id,
        created: raw.created,
        karma: raw.karma,
        about: raw.about,
        submitted: raw.submitted,
    }
}

/// Which of a user's submissions to show.
#[derive(Debug, Clone, Copy, PartialEq, Eq, Structural)]
pub enum SubmissionFilter {
    All,
    Stories,
    Comments,
}

/// One page of a user's submissions.
#[derive(Debug, Clone)]
pub struct SubmissionsResponse {
    pub items: Vec<HNItem>,
    pub has_more: bool,
    pub total: usize,
}

/// How search results are ordered.
#[derive(Debug, Clone, Copy, PartialEq, Eq, Structural)]
pub enum SearchSort {
    Relevance,
    Date,
}

/// Which kind of item a search looks for.
#[derive(Debug, Clone, Copy, PartialEq, Eq, Structural)]
pub enum SearchFilter {
    All,
    Story,
    Comment,
}

/// A search result as the reader shows it. `result_type` is `story` or
/// `comment`.
#[derive(Debug, Clone)]
pub struct SearchResult {
    pub id: u32,
    pub title: Option<String>,
    pub url: Option<String>,
    pub author: Option<String>,
    pub points: i32,
    pub num_comments: u32,
    pub created_at: u64,
    pub result_type: String,
    pub story_id: Option<u32>,
    pub story_title: Option<String>,
    pub text: Option<String>,
}

/// One page of search results.
#[derive(Debug, Clone)]
pub struct SearchResponse {
    pub hits: Vec<SearchResult>,
    pub nb_hits: u32,
    pub page: u32,
    pub nb_pages: u32,
    pub hits_per_page: u32,
    pub query: String,
}

/// A hit as the search service delivers it.
#[derive(Debug, Clone)]
pub struct AlgoliaHit {
    pub object_id: String,
    pub title: Option<String>,
    pub url: Option<String>,
    pub author: Option<String>,
    pub points: Option<i32>,
    pub num_comments: Option<u32>,
    pub created_at_i: Option<u64>,
    pub story_id: Option<u32>,
    pub story_title: Option<String>,
    pub comment_text: Option<String>,
    pub tags: Vec<String>,
}

/// The number that `s` is the decimal numeral of, or none where it is not the
/// numeral of a `u32`.
pub uninterp spec fn spec_parse_u32(s: Seq<char>) -> Option<u32>;

/// `str::parse::<u32>` of the standard library. The result is named
/// `spec_parse_u32`; nothing else is claimed of it.
#[verifier::external_body]
pub(crate) fn parse_u32(s: &str) -> (r: Option<u32>)
    ensures
        r == spec_parse_u32(s@),
{
    s.parse::<u32>().ok()
}

/// Whether one of `tags` is `comment`.
pub open spec fn spec_tagged_comment(tags: Seq<String>) -> bool {
    exists|i: int| 0 <= i < tags.len() && (#[trigger] tags[i])@ == "comment"@
}

/// Whether one of `tags` is `comment`.
pub fn tagged_comment(tags: &Vec<String>) -> (b: bool)
    ensures
        b == spec_tagged_comment(tags@),
{
    let mut i: usize = 0;
    while i < tags.len()
        invariant
            i <= tags.len(),
            forall|k: int| 0 <= k < i ==> (#[trigger] tags@[k])@ != "comment"@,
        decreases tags.len() - i,
    {
        if str_equal(tags[i].as_str(), "comment") {
            return true;
        }
        i += 1;
    }
    false
}

/// The search result that a hit stands for, given the number its identifier
/// was read as.
pub open spec fn spec_search_result(hit: AlgoliaHit, id: Option<u32>, result: SearchResult) -> bool {
    &&& result.id == match id {
        Some(n) => n,
        None => 0,
    }
    &&& result.title == hit.title
    &&& result.url == hit.url
    &&& result.author == hit.author
    &&& result.points == match hit.points {
        Some(p) => p,
        None => 0,
    }
    &&& result.num_comments == match hit.num_comments {
        Some(n) => n,
        None => 0,
    }
    &&& result.created_at == match hit.created_at_i {
        Some(t) => t,
        None => 0,
    }
    &&& result.result_type@ == if spec_tagged_comment(hit.tags@) {
        "comment"@
    } else {
        "story"@
    }
    &&& result.story_id == hit.story_id
    &&& result.story_title == hit.story_title
    &&& result.text == hit.comment_text
}

/// Turns a hit into a search result. `id` is what the hit's identifier was
/// read as; an identifier that is no number counts as 0.
pub fn search_result_from(hit: AlgoliaHit, id: Option<u32>) -> (result: SearchResult)
    ensures
        spec_search_result(hit, id, result),
{
    let is_comment = tagged_comment(&hit.tags);
    SearchResult {
        id: match id {
            Some(n) => n,
            None => 0,
        },
        title: hit.title,
        url: hit.url,
        author: hit.author,
        points: match hit.points {
            Some(p) => p,
            None => 0,
        },
        num_comments: match hit.num_comments {
            Some(n) => n,
            None => 0,
        },
        created_at: match hit.created_at_i {
            Some(t) => t,
            None => 0,
        },
        result_type: if is_comment {
            String::from_str("comment")
        } else {
            String::from_str("story")
        },
        story_id: hit.story_id,
        story_title: hit.story_title,
        text: hit.comment_text,
    }
}

impl From<AlgoliaHit> for SearchResult {
    fn from(hit: AlgoliaHit) -> (result: SearchResult) {
        let id = parse_u32(hit.object_id.as_str());
        search_result_from(hit, id)
    }
}

impl vstd::std_specs::convert::FromSpecImpl<AlgoliaHit> for SearchResult {
    open spec fn obeys_from_spec() -> bool {
        false
    }

    open spec fn from_spec(hit: AlgoliaHit) -> SearchResult {
        arbitrary()
    }
}

/// A page of hits as the search service delivers it.
#[derive(Debug, Clone)]
pub struct AlgoliaResponse {
    pub hits: Vec<AlgoliaHit>,
    pub nb_hits: u32,
    pub page: u32,
    pub nb_pages: u32,
    pub hits_per_page: u32,
    pub query: String,
}

/// Errors of the story client.
#[derive(Debug)]
pub enum ApiError {
    /// The request did not get through; the text says why.
    Request(String),
    /// The answer could not be read; the text says why.
    Parse(String),
    /// There is no item of this number.
    NotFound(u32),
    /// There is no user of this name.
    UserNotFound(String),
    /// The service asks to wait this many seconds.
    RateLimited(u32),
    /// The service reported an error.
    Api(String),
    /// The content of an article could not be extracted.
    ArticleExtraction(String),
}

impl ApiError {
    /// The text of `message`.
    pub open spec fn spec_message(self) -> Seq<char> {
        match self {
            ApiError::Request(s) => "HTTP request failed: "@ + s@,
            ApiError::Parse(s) => "Failed to parse JSON: "@ + s@,
            ApiError::NotFound(id) => "Item not found: "@ + spec_decimal(id as nat),
            ApiError::UserNotFound(s) => "User not found: "@ + s@,
            ApiError::RateLimited(secs) => "Rate limited, retry after "@ + spec_decimal(
                secs as nat,
            ) + " seconds"@,
            ApiError::Api(s) => "API error: "@ + s@,
            ApiError::ArticleExtraction(s) => "Failed to extract article content: "@ + s@,
        }
    }

    /// A sentence a person can read.
    pub fn message(&self) -> (out: String)
        ensures
            out@ == self.spec_message(),
    {
        match self {
            ApiError::Request(s) => String::from_str("HTTP request failed: ").concat(s.as_str()),
            ApiError::Parse(s) => String::from_str("Failed to parse JSON: ").concat(s.as_str()),
            ApiError::NotFound(id) => String::from_str("Item not found: ").concat(
                decimal(*id as u64).as_str(),
            ),
            ApiError::UserNotFound(s) => String::from_str("User not found: ").concat(s.as_str()),
            ApiError::RateLimited(secs) => {
                let mut out = String::from_str("Rate limited, retry after ");
                out.append(decimal(*secs as u64).as_str());
                out.append(" seconds");
                out
            },
            ApiError::Api(s) => String::from_str("API error: ").concat(s.as_str()),
            ApiError::ArticleExtraction(s) => String::from_str(
                "Failed to extract article content: ",
            ).concat(s.as_str()),
        }
    }
}

/// The readable content of an article.
#[derive(Debug, Clone)]
pub struct ArticleContent {
    /// The article's title, if it has one.
    pub title: Option<String>,
    /// The main content as HTML.
    pub content: String,
    /// The main content as plain text.
    pub text_content: String,
    /// The author line, if one was found.
    pub byline: Option<String>,
    /// A short description.
    pub excerpt: Option<String>,
    /// The name of the site.
    pub site_name: Option<String>,
    /// The language of the content.
    pub lang: Option<String>,
    /// An estimate of the number of words.
    pub word_count: usize,
}

/// Counts and lifetimes of the caches.
#[derive(Debug, Clone)]
pub struct CacheStats {
    pub item_count: u64,
    pub story_ids_count: u64,
    pub user_count: u64,
    pub item_ttl_secs: u64,
    pub story_ids_ttl_secs: u64,
    pub user_ttl_secs: u64,
}

} // verus!
