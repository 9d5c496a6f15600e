//! What the story client keeps about its feeds: where the services live, how
//! long cached data lives, and which feeds are due for a refresh.

use vstd::prelude::*;
use vstd::string::StringSliceAdditionalSpecFns;
use std::collections::{HashMap, HashSet};
use crate::text::{chars_of, decimal, is_whitespace, is_whitespace_char, spec_decimal};
use crate::types::{
    parse_u32,
    search_result_from,
    spec_item_from,
    spec_parse_u32,
    spec_search_result,
    spec_user_from,
    AlgoliaHit,
    AlgoliaResponse,
    ApiError,
    ArticleContent,
    CacheStats,
    HNItem,
    HNUser,
    RawHNItem,
    RawHNUser,
    SearchFilter,
    SearchResponse,
    SearchResult,
    SearchSort,
    StoriesResponse,
    StoryFeed,
    SubmissionFilter,
    SubmissionsResponse,
};

verus! {

broadcast use vstd::std_specs::hash::group_hash_axioms;

/// The address of the item service.
pub const HN_BASE_URL: &'static str = "https://hacker-news.firebaseio.com/v0";

/// The address of the search service.
pub const ALGOLIA_BASE_URL: &'static str = "https://hn.algolia.com/api/v1";

/// How long an item stays cached, in seconds.
pub const ITEM_CACHE_TTL_SECS: u64 = 300;

/// How long a feed's list of stories stays cached, in seconds.
pub const STORY_IDS_CACHE_TTL_SECS: u64 = 120;

/// How long a user stays cached, in seconds.
pub const USER_CACHE_TTL_SECS: u64 = 600;

/// The share of its lifetime after which cached data counts as stale, in
/// percent.
pub const STALE_THRESHOLD_PERCENT: u64 = 75;

/// A number for each feed.
pub open spec fn spec_feed_code(feed: StoryFeed) -> u8 {
    match feed {
        StoryFeed::Top => 0,
        StoryFeed::New => 1,
        StoryFeed::Best => 2,
        StoryFeed::Ask => 3,
        StoryFeed::Show => 4,
        StoryFeed::Jobs => 5,
    }
}

/// The number of `feed`.
fn feed_code(feed: StoryFeed) -> (code: u8)
    ensures
        code == spec_feed_code(feed),
{
    match feed {
        StoryFeed::Top => 0,
        StoryFeed::New => 1,
        StoryFeed::Best => 2,
        StoryFeed::Ask => 3,
        StoryFeed::Show => 4,
        StoryFeed::Jobs => 5,
    }
}

/// Different feeds have different numbers.
proof fn lemma_feed_codes_differ(a: StoryFeed, b: StoryFeed)
    ensures
        spec_feed_code(a) == spec_feed_code(b) ==> a == b,
{
}

/// Whether data fetched at `last` with a lifetime of `ttl` is stale at `now`:
/// older than three quarters of its lifetime, and not yet expired. All three
/// are in milliseconds.
pub open spec fn spec_stale(last: u64, ttl: u64, now: u64) -> bool {
    let age = if now >= last {
        now - last
    } else {
        0
    };
    age >= ttl * STALE_THRESHOLD_PERCENT / 100 && age < ttl
}

/// A tracker as plain values: when each feed was last fetched, in
/// milliseconds, and which feeds are being refreshed.
pub struct TrackerView {
    pub last_fetch: Map<StoryFeed, u64>,
    pub refreshing: Set<StoryFeed>,
}

/// Keeps, for each feed, the time of the last fetch and whether a refresh is
/// under way.
pub struct RefreshTracker {
    last_fetch: HashMap<u8, u64>,
    refreshing: HashSet<u8>,
}

impl View for RefreshTracker {
    type V = TrackerView;

    closed spec fn view(&self) -> TrackerView {
        TrackerView {
            last_fetch: Map::new(
                |f: StoryFeed| self.last_fetch@.contains_key(spec_feed_code(f)),
                |f: StoryFeed| self.last_fetch@[spec_feed_code(f)],
            ),
            refreshing: Set::new(|f: StoryFeed| self.refreshing@.contains(spec_feed_code(f))),
        }
    }
}

impl RefreshTracker {
    /// A tracker that has seen no fetch and no refresh.
    pub fn new() -> (t: RefreshTracker)
        ensures
            t@.last_fetch == Map::<StoryFeed, u64>::empty(),
            t@.refreshing == Set::<StoryFeed>::empty(),
    {
        let t = RefreshTracker { last_fetch: HashMap::new(), refreshing: HashSet::new() };
        proof {
            assert(t@.last_fetch =~= Map::<StoryFeed, u64>::empty());
            assert(t@.refreshing =~= Set::<StoryFeed>::empty());
        }
        t
    }

    /// Records that `feed` was fetched at `now`; its refresh, if one was
    /// under way, is over.
    pub fn mark_fetched(&mut self, feed: StoryFeed, now: u64)
        ensures
            final(self)@.last_fetch == old(self)@.last_fetch.insert(feed, now),
            final(self)@.refreshing == old(self)@.refreshing.remove(feed),
    {
        let code = feed_code(feed);
        self.last_fetch.insert(code, now);
        self.refreshing.remove(&code);
        proof {
            let fetched = old(self)@.last_fetch.insert(feed, now);
            assert forall|f: StoryFeed| self@.last_fetch.dom().contains(f) == fetched.dom().contains(
                f,
            ) by {
                lemma_feed_codes_differ(f, feed);
            }
            assert forall|f: StoryFeed| self@.last_fetch.dom().contains(f) implies self@.last_fetch[f]
                == fetched[f] by {
                lemma_feed_codes_differ(f, feed);
            }
            assert(self@.last_fetch =~= fetched);
            assert forall|f: StoryFeed|
                self@.refreshing.contains(f) == old(self)@.refreshing.remove(feed).contains(f) by {
                lemma_feed_codes_differ(f, feed);
            }
            assert(self@.refreshing =~= old(self)@.refreshing.remove(feed));
        }
    }

    /// Whether the data of `feed` is stale at `now`, given its lifetime. A
    /// feed that was never fetched is not stale.
    pub fn is_stale(&self, feed: StoryFeed, ttl: u64, now: u64) -> (stale: bool)
        ensures
            stale == (self@.last_fetch.contains_key(feed) && spec_stale(
                self@.last_fetch[feed],
                ttl,
                now,
            )),
    {
        let code = feed_code(feed);
        match self.last_fetch.get(&code) {
            Some(last) => {
                let age: u64 = if now >= *last {
                    now - *last
                } else {
                    0
                };
                let threshold: u128 = (ttl as u128) * (STALE_THRESHOLD_PERCENT as u128) / 100;
                age as u128 >= threshold && age < ttl
            },
            None => false,
        }
    }

    /// Whether `feed` was fetched at all.
    pub fn has_fetched(&self, feed: StoryFeed) -> (b: bool)
        ensures
            b == self@.last_fetch.contains_key(feed),
    {
        let code = feed_code(feed);
        self.last_fetch.contains_key(&code)
    }

    /// Whether a refresh of `feed` is under way.
    pub fn is_refreshing(&self, feed: StoryFeed) -> (b: bool)
        ensures
            b == self@.refreshing.contains(feed),
    {
        let code = feed_code(feed);
        self.refreshing.contains(&code)
    }

    /// Records that a refresh of `feed` begins.
    pub fn start_refresh(&mut self, feed: StoryFeed)
        ensures
            final(self)@.last_fetch == old(self)@.last_fetch,
            final(self)@.refreshing == old(self)@.refreshing.insert(feed),
    {
        let code = feed_code(feed);
        self.refreshing.insert(code);
        proof {
            assert forall|f: StoryFeed|
                self@.refreshing.contains(f) == old(self)@.refreshing.insert(feed).contains(f) by {
                lemma_feed_codes_differ(f, feed);
            }
            assert(self@.refreshing =~= old(self)@.refreshing.insert(feed));
            assert(self@.last_fetch =~= old(self)@.last_fetch);
        }
    }

    /// Records that the refresh of `feed` failed.
    pub fn refresh_failed(&mut self, feed: StoryFeed)
        ensures
            final(self)@.last_fetch == old(self)@.last_fetch,
            final(self)@.refreshing == old(self)@.refreshing.remove(feed),
    {
        let code = feed_code(feed);
        self.refreshing.remove(&code);
        proof {
            assert forall|f: StoryFeed|
                self@.refreshing.contains(f) == old(self)@.refreshing.remove(feed).contains(f) by {
                lemma_feed_codes_differ(f, feed);
            }
            assert(self@.refreshing =~= old(self)@.refreshing.remove(feed));
            assert(self@.last_fetch =~= old(self)@.last_fetch);
        }
    }

    /// Whether the data of `feed` is stale at `now` and no refresh of it is
    /// under way: then it is time to start one.
    pub fn needs_refresh(&self, feed: StoryFeed, ttl: u64, now: u64) -> (b: bool)
        ensures
            b == (self@.last_fetch.contains_key(feed) && spec_stale(
                self@.last_fetch[feed],
                ttl,
                now,
            ) && !self@.refreshing.contains(feed)),
    {
        self.is_stale(feed, ttl, now) && !self.is_refreshing(feed)
    }
}

} // verus!

verus! {

/// How long a request may take, in seconds.
pub const HTTP_TIMEOUT_SECS: u64 = 30;

/// How long connecting may take, in seconds.
pub const CONNECT_TIMEOUT_SECS: u64 = 10;

/// How many idle connections are kept per host.
pub const POOL_MAX_IDLE_PER_HOST: usize = 10;

/// The name the client gives itself.
pub const USER_AGENT: &'static str = "pastel-hn/0.3";

/// How many items the cache holds.
pub const ITEM_CACHE_CAPACITY: u64 = 10_000;

/// How many feed lists the cache holds.
pub const STORY_IDS_CACHE_CAPACITY: u64 = 10;

/// How many users the cache holds.
pub const USER_CACHE_CAPACITY: u64 = 100;

/// The HTTP status of a service that asks to slow down.
pub const TOO_MANY_REQUESTS: u16 = 429;

/// The wait, in seconds, where a service that asks to slow down names none.
pub const DEFAULT_RETRY_AFTER_SECS: u32 = 60;

/// The wait that a `retry-after` header asks for: its number of seconds, or
/// the default where it is missing or no number.
pub open spec fn spec_retry_after(header: Option<Seq<char>>) -> u32 {
    match header {
        Some(text) => match spec_parse_u32(text) {
            Some(secs) => secs,
            None => DEFAULT_RETRY_AFTER_SECS,
        },
        None => DEFAULT_RETRY_AFTER_SECS,
    }
}

/// The wait for a header as it was read.
pub fn retry_after_secs(parsed: Option<u32>) -> (secs: u32)
    ensures
        secs == match parsed {
            Some(n) => n,
            None => DEFAULT_RETRY_AFTER_SECS,
        },
{
    match parsed {
        Some(n) => n,
        None => DEFAULT_RETRY_AFTER_SECS,
    }
}

/// Looks at the status of a response: a service that asks to slow down is an
/// error that names the wait; any other status passes.
pub fn check_response_status(status: u16, retry_after: Option<&str>) -> (r: Result<(), ApiError>)
    ensures
        if status == TOO_MANY_REQUESTS {
            r matches Err(ApiError::RateLimited(secs)) && secs == spec_retry_after(
                match retry_after {
                    Some(text) => Some(text@),
                    None => None,
                },
            )
        } else {
            r is Ok
        },
{
    if status == TOO_MANY_REQUESTS {
        let parsed = match retry_after {
            Some(text) => parse_u32(text),
            None => None,
        };
        Err(ApiError::RateLimited(retry_after_secs(parsed)))
    } else {
        Ok(())
    }
}

/// Where the list of a feed's stories is read.
pub fn story_ids_url(feed: StoryFeed) -> (url: String)
    ensures
        url@ == HN_BASE_URL@ + "/"@ + feed.spec_endpoint() + ".json"@,
{
    let mut url = String::from_str(HN_BASE_URL);
    url.append("/");
    url.append(feed.endpoint());
    url.append(".json");
    url
}

/// Where the item `id` is read.
pub fn item_url(id: u32) -> (url: String)
    ensures
        url@ == HN_BASE_URL@ + "/item/"@ + spec_decimal(id as nat) + ".json"@,
{
    let mut url = String::from_str(HN_BASE_URL);
    url.append("/item/");
    url.append(decimal(id as u64).as_str());
    url.append(".json");
    url
}

/// Where the user `id` is read.
pub fn user_url(id: &str) -> (url: String)
    ensures
        url@ == HN_BASE_URL@ + "/user/"@ + id@ + ".json"@,
{
    let mut url = String::from_str(HN_BASE_URL);
    url.append("/user/");
    url.append(id);
    url.append(".json");
    url
}

/// Whether a byte stands for itself in a query: letters, digits, `-`, `.`,
/// `_` and `~`.
pub open spec fn is_unreserved(b: u8) -> bool {
    ||| 0x30 <= b <= 0x39
    ||| 0x41 <= b <= 0x5a
    ||| 0x61 <= b <= 0x7a
    ||| b == 0x2d
    ||| b == 0x2e
    ||| b == 0x5f
    ||| b == 0x7e
}

/// The hexadecimal digit for a number below sixteen, in upper case.
pub open spec fn spec_hex_digit(d: int) -> char {
    if d < 10 {
        (0x30 + d) as char
    } else {
        (0x41 + d - 10) as char
    }
}

/// The bytes of a text, percent-encoded: an unreserved byte stands for
/// itself, any other becomes `%` and two hexadecimal digits.
pub open spec fn spec_percent_encoded(bytes: Seq<u8>) -> Seq<char>
    decreases bytes.len(),
{
    if bytes.len() == 0 {
        Seq::empty()
    } else {
        let b = bytes.last();
        spec_percent_encoded(bytes.drop_last()) + if is_unreserved(b) {
            seq![b as char]
        } else {
            seq!['%', spec_hex_digit(b as int / 16), spec_hex_digit(b as int % 16)]
        }
    }
}

/// `urlencoding::encode`: every byte of the text's UTF-8 form is
/// percent-encoded, except letters, digits, `-`, `.`, `_` and `~`.
#[verifier::external_body]
fn percent_encode(text: &str) -> (out: String)
    ensures
        out@ == spec_percent_encoded(text.spec_bytes()),
{
    urlencoding::encode(text).into_owned()
}

/// The path of a search in the search service.
pub open spec fn spec_search_endpoint(sort: SearchSort) -> Seq<char> {
    match sort {
        SearchSort::Relevance => "search"@,
        SearchSort::Date => "search_by_date"@,
    }
}

/// The tag that narrows a search, if any.
pub open spec fn spec_search_tags(filter: SearchFilter) -> Seq<char> {
    match filter {
        SearchFilter::All => ""@,
        SearchFilter::Story => "&tags=story"@,
        SearchFilter::Comment => "&tags=comment"@,
    }
}

/// The address of a search.
pub open spec fn spec_search_url(
    query: Seq<u8>,
    page: u32,
    hits_per_page: u32,
    sort: SearchSort,
    filter: SearchFilter,
) -> Seq<char> {
    ALGOLIA_BASE_URL@ + "/"@ + spec_search_endpoint(sort) + "?query="@ + spec_percent_encoded(
        query,
    ) + "&page="@ + spec_decimal(page as nat) + "&hitsPerPage="@ + spec_decimal(
        hits_per_page as nat,
    ) + spec_search_tags(filter)
}

/// The address of a search for `query`.
pub fn search_url(
    query: &str,
    page: u32,
    hits_per_page: u32,
    sort: SearchSort,
    filter: SearchFilter,
) -> (url: String)
    ensures
        url@ == spec_search_url(query.spec_bytes(), page, hits_per_page, sort, filter),
{
    let mut url = String::from_str(ALGOLIA_BASE_URL);
    url.append("/");
    match sort {
        SearchSort::Relevance => url.append("search"),
        SearchSort::Date => url.append("search_by_date"),
    }
    url.append("?query=");
    url.append(percent_encode(query).as_str());
    url.append("&page=");
    url.append(decimal(page as u64).as_str());
    url.append("&hitsPerPage=");
    url.append(decimal(hits_per_page as u64).as_str());
    match filter {
        SearchFilter::All => {
            proof {
                reveal_strlit("");
                assert(url@ + ""@ =~= url@);
            }
        },
        SearchFilter::Story => url.append("&tags=story"),
        SearchFilter::Comment => url.append("&tags=comment"),
    }
    url
}

/// Whether a refresh brought new data: yes where nothing was cached, and
/// where the cached list differs from the fresh one.
pub fn feed_changed(old: Option<&Vec<u32>>, fresh: &Vec<u32>) -> (changed: bool)
    ensures
        changed == match old {
            Some(ids) => ids@ != fresh@,
            None => true,
        },
{
    match old {
        None => true,
        Some(ids) => {
            if ids.len() != fresh.len() {
                return true;
            }
            let mut i: usize = 0;
            while i < ids.len()
                invariant
                    i <= ids.len(),
                    ids.len() == fresh.len(),
                    old == Some(ids),
                    forall|k: int| 0 <= k < i ==> ids@[k] == fresh@[k],
                decreases ids.len() - i,
            {
                if ids[i] != fresh[i] {
                    proof {
                        assert(ids@[i as int] != fresh@[i as int]);
                    }
                    return true;
                }
                i += 1;
            }
            proof {
                assert(ids@ =~= fresh@);
            }
            false
        },
    }
}

/// The item that a response stands for: a refusal and an empty answer both
/// mean that there is no such item.
pub fn item_from_response(success: bool, raw: Option<RawHNItem>, id: u32) -> (r: Result<
    HNItem,
    ApiError,
>)
    ensures
        match r {
            Ok(item) => success && raw is Some && item == spec_item_from(raw->0),
            Err(e) => !(success && raw is Some) && e == ApiError::NotFound(id),
        },
{
    if !success {
        return Err(ApiError::NotFound(id));
    }
    match raw {
        Some(raw) => Ok(HNItem::from(raw)),
        None => Err(ApiError::NotFound(id)),
    }
}

/// The user that a response stands for: a refusal and an empty answer both
/// mean that there is no such user.
pub fn user_from_response(success: bool, raw: Option<RawHNUser>, id: &str) -> (r: Result<
    HNUser,
    ApiError,
>)
    ensures
        match r {
            Ok(user) => success && raw is Some && user == spec_user_from(raw->0),
            Err(e) => !(success && raw is Some) && (e matches ApiError::UserNotFound(name)
                && name@ == id@),
        },
{
    if !success {
        return Err(ApiError::UserNotFound(String::from_str(id)));
    }
    match raw {
        Some(raw) => Ok(HNUser::from(raw)),
        None => Err(ApiError::UserNotFound(String::from_str(id))),
    }
}

/// The items among `results`, in order, without those that were not found.
pub open spec fn spec_found(results: Seq<Result<HNItem, ApiError>>) -> Seq<HNItem>
    decreases results.len(),
{
    if results.len() == 0 {
        Seq::empty()
    } else {
        let before = spec_found(results.drop_last());
        match results.last() {
            Ok(item) => before.push(item),
            Err(_) => before,
        }
    }
}

/// Whether a result is a failure other than "not found".
pub open spec fn is_failure(result: Result<HNItem, ApiError>) -> bool {
    result matches Err(e) && !(e is NotFound)
}

/// Puts the results of fetching several items together. Items that were not
/// found are left out; the first other failure is the failure of the whole.
pub fn collect_items(results: Vec<Result<HNItem, ApiError>>) -> (r: Result<Vec<HNItem>, ApiError>)
    ensures
        match r {
            Ok(items) => items@ == spec_found(results@) && forall|i: int|
                0 <= i < results@.len() ==> !is_failure(#[trigger] results@[i]),
            Err(e) => exists|i: int|
                0 <= i < results@.len() && results@[i] == Err::<HNItem, ApiError>(e)
                    && is_failure(results@[i]) && forall|k: int|
                    0 <= k < i ==> !is_failure(#[trigger] results@[k]),
        },
{
    let mut items: Vec<HNItem> = Vec::new();
    for result in it: results
        invariant
            it.seq() == results@,
            items@ == spec_found(results@.take(it.index())),
            forall|k: int| 0 <= k < it.index() ==> !is_failure(#[trigger] results@[k]),
    {
        proof {
            assert(results@.take(it.index() + 1).drop_last() =~= results@.take(it.index()));
            assert(results@.take(it.index() + 1).last() == result);
        }
        match result {
            Ok(item) => items.push(item),
            Err(ApiError::NotFound(_)) => {},
            Err(e) => {
                return Err(e);
            },
        }
    }
    proof {
        assert(results@.take(results@.len() as int) =~= results@);
    }
    Ok(items)
}

/// The part of `ids` that a page shows: `limit` entries from `offset` on, or
/// fewer where `ids` ends before.
pub open spec fn spec_page(ids: Seq<u32>, offset: int, limit: int) -> Seq<u32> {
    if offset >= ids.len() {
        Seq::empty()
    } else if offset + limit >= ids.len() {
        ids.subrange(offset, ids.len() as int)
    } else {
        ids.subrange(offset, offset + limit)
    }
}

/// The entries of `ids` that the page at `offset` shows.
pub fn page_ids(ids: &Vec<u32>, offset: usize, limit: usize) -> (page: Vec<u32>)
    ensures
        page@ == spec_page(ids@, offset as int, limit as int),
{
    let mut page: Vec<u32> = Vec::new();
    if offset >= ids.len() {
        return page;
    }
    let end = if limit >= ids.len() - offset {
        ids.len()
    } else {
        offset + limit
    };
    let mut i: usize = offset;
    while i < end
        invariant
            offset <= i <= end <= ids.len(),
            page@ == ids@.subrange(offset as int, i as int),
        decreases end - i,
    {
        proof {
            assert(ids@.subrange(offset as int, i + 1) =~= ids@.subrange(
                offset as int,
                i as int,
            ).push(ids@[i as int]));
        }
        page.push(ids[i]);
        i += 1;
    }
    page
}

/// Whether entries remain after the page at `offset`.
pub fn has_more(offset: usize, limit: usize, total: usize) -> (more: bool)
    ensures
        more == (offset + limit < total),
{
    offset < total && limit < total - offset
}

/// One page of stories with its place in the feed.
pub fn stories_page(stories: Vec<HNItem>, offset: usize, limit: usize, total: usize) -> (page:
    StoriesResponse)
    ensures
        page.stories == stories,
        page.has_more == (offset + limit < total),
        page.total == total,
{
    StoriesResponse { stories, has_more: has_more(offset, limit, total), total }
}

/// How many submissions to fetch for a page of `limit`: twice as many where
/// a filter will drop some, capped at the largest `usize`.
pub fn submission_fetch_limit(limit: usize, filter: SubmissionFilter) -> (n: usize)
    ensures
        n == match filter {
            SubmissionFilter::All => limit as int,
            _ => if limit * 2 > usize::MAX {
                usize::MAX as int
            } else {
                limit * 2
            },
        },
{
    match filter {
        SubmissionFilter::All => limit,
        _ => if limit > usize::MAX / 2 {
            usize::MAX
        } else {
            limit * 2
        },
    }
}

/// Whether the filter lets an item through: stories and jobs count as
/// stories.
pub open spec fn spec_passes(filter: SubmissionFilter, item: HNItem) -> bool {
    match filter {
        SubmissionFilter::All => true,
        SubmissionFilter::Stories => item.item_type == 0 || item.item_type == 2,
        SubmissionFilter::Comments => item.item_type == 1,
    }
}

/// The items that the filter lets through, in order.
pub open spec fn spec_filtered(items: Seq<HNItem>, filter: SubmissionFilter) -> Seq<HNItem>
    decreases items.len(),
{
    if items.len() == 0 {
        Seq::empty()
    } else {
        let before = spec_filtered(items.drop_last(), filter);
        if spec_passes(filter, items.last()) {
            before.push(items.last())
        } else {
            before
        }
    }
}

/// The first `limit` of the items that the filter lets through.
pub open spec fn spec_submissions(items: Seq<HNItem>, filter: SubmissionFilter, limit: int) -> Seq<
    HNItem,
> {
    let kept = spec_filtered(items, filter);
    if limit >= kept.len() {
        kept
    } else {
        kept.take(limit)
    }
}

/// Filters a user's submissions and keeps at most `limit` of them.
pub fn filter_submissions(items: Vec<HNItem>, filter: SubmissionFilter, limit: usize) -> (out: Vec<
    HNItem,
>)
    ensures
        out@ == spec_submissions(items@, filter, limit as int),
{
    let mut out: Vec<HNItem> = Vec::new();
    for item in it: items
        invariant
            it.seq() == items@,
            out@ == spec_submissions(items@.take(it.index()), filter, limit as int),
    {
        let ghost seen = items@.take(it.index());
        let ghost next = items@.take(it.index() + 1);
        proof {
            assert(next.drop_last() =~= seen);
            assert(next.last() == item);
        }
        let passes = match filter {
            SubmissionFilter::All => true,
            SubmissionFilter::Stories => item.item_type == 0 || item.item_type == 2,
            SubmissionFilter::Comments => item.item_type == 1,
        };
        if passes && out.len() < limit {
            proof {
                let kept = spec_filtered(seen, filter);
                assert(out@ == kept);
                assert(kept.push(item).take(kept.len() + 1 as int) =~= kept.push(item));
            }
            out.push(item);
        } else {
            proof {
                let kept = spec_filtered(seen, filter);
                if passes {
                    assert(out@ == kept.take(limit as int));
                    assert(kept.push(item).take(limit as int) =~= kept.take(limit as int));
                }
            }
        }
    }
    proof {
        assert(items@.take(items@.len() as int) =~= items@);
    }
    out
}

/// One page of a user's submissions with its place in the list.
pub fn submissions_page(
    items: Vec<HNItem>,
    filter: SubmissionFilter,
    offset: usize,
    limit: usize,
    total: usize,
) -> (page: SubmissionsResponse)
    ensures
        page.items@ == spec_submissions(items@, filter, limit as int),
        page.has_more == (offset + limit < total),
        page.total == total,
{
    SubmissionsResponse {
        items: filter_submissions(items, filter, limit),
        has_more: has_more(offset, limit, total),
        total,
    }
}

/// The comments to fetch below `item`: its children while depth remains,
/// none at depth zero or without children.
pub fn kids_to_fetch(item: &HNItem, depth: u8) -> (kids: Vec<u32>)
    ensures
        kids@ == if depth == 0 {
            Seq::<u32>::empty()
        } else {
            match item.kids {
                Some(k) => k@,
                None => Seq::<u32>::empty(),
            }
        },
{
    if depth == 0 {
        return Vec::new();
    }
    match &item.kids {
        Some(k) => {
            let mut kids: Vec<u32> = Vec::new();
            let mut i: usize = 0;
            while i < k.len()
                invariant
                    i <= k.len(),
                    kids@ == k@.take(i as int),
                decreases k.len() - i,
            {
                proof {
                    assert(k@.take(i + 1) =~= k@.take(i as int).push(k@[i as int]));
                }
                kids.push(k[i]);
                i += 1;
            }
            proof {
                assert(k@.take(i as int) =~= k@);
            }
            kids
        },
        None => Vec::new(),
    }
}

/// The statistics of the caches, from their counts.
pub fn cache_stats(item_count: u64, story_ids_count: u64, user_count: u64) -> (stats: CacheStats)
    ensures
        stats.item_count == item_count,
        stats.story_ids_count == story_ids_count,
        stats.user_count == user_count,
        stats.item_ttl_secs == ITEM_CACHE_TTL_SECS,
        stats.story_ids_ttl_secs == STORY_IDS_CACHE_TTL_SECS,
        stats.user_ttl_secs == USER_CACHE_TTL_SECS,
{
    CacheStats {
        item_count,
        story_ids_count,
        user_count,
        item_ttl_secs: ITEM_CACHE_TTL_SECS,
        story_ids_ttl_secs: STORY_IDS_CACHE_TTL_SECS,
        user_ttl_secs: USER_CACHE_TTL_SECS,
    }
}

/// The number of words in `text`: the runs of characters that are not white
/// space.
pub open spec fn spec_word_count(text: Seq<char>) -> nat
    decreases text.len(),
{
    if text.len() == 0 {
        0
    } else {
        let starts_word = !is_whitespace_char(text.last()) && (text.len() == 1
            || is_whitespace_char(text[text.len() - 2]));
        spec_word_count(text.drop_last()) + if starts_word {
            1nat
        } else {
            0nat
        }
    }
}

/// A text has no more words than characters.
proof fn lemma_word_count_bound(text: Seq<char>)
    ensures
        spec_word_count(text) <= text.len(),
    decreases text.len(),
{
    if text.len() > 0 {
        lemma_word_count_bound(text.drop_last());
    }
}

/// Counts the words of `text`.
pub fn word_count(text: &str) -> (n: usize)
    ensures
        n == spec_word_count(text@),
{
    let chars = chars_of(text);
    let mut n: usize = 0;
    let mut in_word = false;
    let mut i: usize = 0;
    while i < chars.len()
        invariant
            i <= chars.len(),
            chars@ == text@,
            n == spec_word_count(chars@.take(i as int)),
            n <= i,
            in_word == (i > 0 && !is_whitespace_char(chars@[i - 1])),
        decreases chars.len() - i,
    {
        let blank = is_whitespace(chars[i]);
        proof {
            let upto = chars@.take(i + 1);
            assert(upto.drop_last() =~= chars@.take(i as int));
            assert(upto.last() == chars@[i as int]);
            if i > 0 {
                assert(upto[upto.len() - 2] == chars@[i - 1]);
            }
        }
        if !blank && !in_word {
            n = n + 1;
        }
        in_word = !blank;
        i += 1;
    }
    proof {
        assert(chars@.take(i as int) =~= chars@);
    }
    n
}

/// The content of an article as it was extracted. An empty title counts as
/// none.
pub fn article_from(title: String, content: String, text: String) -> (article: ArticleContent)
    ensures
        article.title == if title@.len() == 0 {
            None
        } else {
            Some(title)
        },
        article.content == content,
        article.text_content == text,
        article.byline is None,
        article.excerpt is None,
        article.site_name is None,
        article.lang is None,
        article.word_count == spec_word_count(text@),
{
    let words = word_count(text.as_str());
    ArticleContent {
        title: if title.as_str().is_empty() {
            None
        } else {
            Some(title)
        },
        content,
        text_content: text,
        byline: None,
        excerpt: None,
        site_name: None,
        lang: None,
        word_count: words,
    }
}

/// The search results that a page of hits stands for, given what each hit's
/// identifier was read as.
pub open spec fn spec_results(hits: Seq<AlgoliaHit>, results: Seq<SearchResult>) -> bool {
    &&& results.len() == hits.len()
    &&& forall|i: int|
        0 <= i < hits.len() ==> spec_search_result(
            hits[i],
            spec_parse_u32(hits[i].object_id@),
            #[trigger] results[i],
        )
}

/// Turns a page of hits into a page of search results.
pub fn search_response_from(response: AlgoliaResponse) -> (out: SearchResponse)
    ensures
        spec_results(response.hits@, out.hits@),
        out.nb_hits == response.nb_hits,
        out.page == response.page,
        out.nb_pages == response.nb_pages,
        out.hits_per_page == response.hits_per_page,
        out.query == response.query,
{
    let mut hits: Vec<SearchResult> = Vec::new();
    let ghost all = response.hits@;
    for hit in it: response.hits
        invariant
            it.seq() == all,
            hits@.len() == it.index(),
            forall|i: int|
                0 <= i < it.index() ==> spec_search_result(
                    all[i],
                    spec_parse_u32(all[i].object_id@),
                    #[trigger] hits@[i],
                ),
    {
        let id = parse_u32(hit.object_id.as_str());
        let result = search_result_from(hit, id);
        hits.push(result);
    }
    SearchResponse {
        hits,
        nb_hits: response.nb_hits,
        page: response.page,
        nb_pages: response.nb_pages,
        hits_per_page: response.hits_per_page,
        query: response.query,
    }
}

} // verus!
