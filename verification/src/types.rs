//! The bodies that travel between the client and the service: the search
//! request, and the two answers with the parts they share.
//!
//! Each answer is read from a JSON object by the names of its members. The
//! rate limit and the quota are not objects of their own on the wire: their
//! members stand beside the others, and are gathered into one value here.

use crate::encoding::{
    base64_bytes, base64_round_trip, base64_text, base64_text_is_plain, encode, is_base64_text,
};
use crate::json::{
    as_items, field_double_bits, field_flag, field_text, field_texts, field_u32, field_u64,
    json_document, json_of, member, optional_text, optional_u32, parse, read_double_bits,
    read_flag, read_optional_text, read_optional_u32, read_text, read_texts, read_u32, read_u64,
    text_views, JsonValue,
};
use vstd::prelude::*;
use vstd::string::StringExecFns;

verus! {

/// A finite number with a fraction, held by the bit pattern of its IEEE-754
/// double.
#[derive(Debug, Clone, Copy, PartialEq, Eq)]
pub struct Real {
    pub bits: u64,
}

/// A rate limit. Usually resets every minute.
#[derive(Debug, Clone, Copy, PartialEq, Eq)]
pub struct Limit {
    /// Number of requests remaining in limit period.
    pub limit: u32,
    /// Time until limit resets (in seconds).
    pub limit_ttl: u32,
}

/// Quota on requests. Usually resets every day.
#[derive(Debug, Clone, Copy, PartialEq, Eq)]
pub struct Quota {
    /// Number of requests remaining in quota.
    pub quota: u32,
    /// Time until quota resets (in seconds).
    pub quota_ttl: u32,
}

/// The most that an account's rate limit allows.
#[derive(Debug, Clone, Copy, PartialEq, Eq)]
pub struct UserLimit {
    /// Maximum number of requests per limit period.
    pub user_limit: u32,
    /// Time between limit resets (in seconds).
    pub user_limit_ttl: u32,
}

/// The most that an account's quota allows.
#[derive(Debug, Clone, Copy, PartialEq, Eq)]
pub struct UserQuota {
    /// Maximum number of requests per quota.
    pub user_quota: u32,
    /// Time between quota resets (in seconds).
    pub user_quota_ttl: u32,
}

/// One match of a search: a scene of an episode and how well it fits.
#[derive(Debug, PartialEq)]
pub struct Doc {
    /// Where the scene starts (in seconds).
    pub from: Real,
    /// Where the scene ends (in seconds).
    pub to: Real,
    /// The moment of the best match (in seconds).
    pub at: Real,
    /// How well the scene fits the image; the service sends the best first.
    pub similarity: Real,
    pub anilist_id: u32,
    pub mal_id: Option<u32>,
    pub is_adult: bool,
    pub title_native: Option<String>,
    pub title_chinese: Option<String>,
    pub title_english: Option<String>,
    pub title_romaji: String,
    pub synonyms: Vec<String>,
    pub synonyms_chinese: Vec<String>,
    pub filename: String,
    pub tokenthumb: String,
}

/// What a [`Doc`] holds.
pub struct DocView {
    pub from: Real,
    pub to: Real,
    pub at: Real,
    pub similarity: Real,
    pub anilist_id: u32,
    pub mal_id: Option<u32>,
    pub is_adult: bool,
    pub title_native: Option<Seq<char>>,
    pub title_chinese: Option<Seq<char>>,
    pub title_english: Option<Seq<char>>,
    pub title_romaji: Seq<char>,
    pub synonyms: Seq<Seq<char>>,
    pub synonyms_chinese: Seq<Seq<char>>,
    pub filename: Seq<char>,
    pub tokenthumb: Seq<char>,
}

/// The answer to a search.
#[derive(Debug, PartialEq)]
pub struct SearchResponse {
    /// Total number of frames searched.
    pub raw_docs_count: u32,
    /// Time taken to retrieve the frames from database (sum of all cores).
    pub raw_docs_search_time: u64,
    /// Time taken to compare the frames (sum of all cores).
    pub re_rank_search_time: u64,
    /// Whether the search result is cached.
    pub cache_hit: bool,
    /// Number of times searched.
    pub trial: u32,
    pub limit: Limit,
    pub quota: Quota,
    /// The matches, in the order in which the service sent them.
    pub docs: Vec<Doc>,
}

/// What a [`SearchResponse`] holds.
pub struct SearchResponseView {
    pub raw_docs_count: u32,
    pub raw_docs_search_time: u64,
    pub re_rank_search_time: u64,
    pub cache_hit: bool,
    pub trial: u32,
    pub limit: Limit,
    pub quota: Quota,
    pub docs: Seq<DocView>,
}

/// The state of an account, or of an address that searches without one.
#[derive(Debug, PartialEq)]
pub struct Me {
    pub user_id: Option<u32>,
    /// The account's e-mail address, or the caller's IP address.
    pub email: String,
    pub limit: Limit,
    pub quota: Quota,
    pub user_limit: UserLimit,
    pub user_quota: UserQuota,
}

/// What a [`Me`] holds.
pub struct MeView {
    pub user_id: Option<u32>,
    pub email: Seq<char>,
    pub limit: Limit,
    pub quota: Quota,
    pub user_limit: UserLimit,
    pub user_quota: UserQuota,
}

/// The body of a search request.
#[derive(Debug, PartialEq)]
pub struct SearchRequest {
    /// The Base64-encoded image.
    pub image: String,
    /// An optional AniList ID to filter on.
    pub filter: Option<u32>,
}

/// The view of a string that may be absent.
pub open spec fn optional_view(text: Option<String>) -> Option<Seq<char>> {
    match text {
        Some(s) => Some(s@),
        None => None,
    }
}

impl View for Doc {
    type V = DocView;

    open spec fn view(&self) -> DocView {
        DocView {
            from: self.from,
            to: self.to,
            at: self.at,
            similarity: self.similarity,
            anilist_id: self.anilist_id,
            mal_id: self.mal_id,
            is_adult: self.is_adult,
            title_native: optional_view(self.title_native),
            title_chinese: optional_view(self.title_chinese),
            title_english: optional_view(self.title_english),
            title_romaji: self.title_romaji@,
            synonyms: text_views(self.synonyms@),
            synonyms_chinese: text_views(self.synonyms_chinese@),
            filename: self.filename@,
            tokenthumb: self.tokenthumb@,
        }
    }
}

/// The views of a list of matches.
pub open spec fn doc_views(docs: Seq<Doc>) -> Seq<DocView> {
    docs.map_values(|doc: Doc| doc@)
}

impl View for SearchResponse {
    type V = SearchResponseView;

    open spec fn view(&self) -> SearchResponseView {
        SearchResponseView {
            raw_docs_count: self.raw_docs_count,
            raw_docs_search_time: self.raw_docs_search_time,
            re_rank_search_time: self.re_rank_search_time,
            cache_hit: self.cache_hit,
            trial: self.trial,
            limit: self.limit,
            quota: self.quota,
            docs: doc_views(self.docs@),
        }
    }
}

impl View for Me {
    type V = MeView;

    open spec fn view(&self) -> MeView {
        MeView {
            user_id: self.user_id,
            email: self.email@,
            limit: self.limit,
            quota: self.quota,
            user_limit: self.user_limit,
            user_quota: self.user_quota,
        }
    }
}

/// The rate limit that the members `limit` and `limit_ttl` of `object` give.
pub open spec fn limit_of(object: JsonValue) -> Option<Limit> {
    match (field_u32(object, "limit"@), field_u32(object, "limit_ttl"@)) {
        (Some(limit), Some(limit_ttl)) => Some(Limit { limit, limit_ttl }),
        _ => None,
    }
}

/// The quota that the members `quota` and `quota_ttl` of `object` give.
pub open spec fn quota_of(object: JsonValue) -> Option<Quota> {
    match (field_u32(object, "quota"@), field_u32(object, "quota_ttl"@)) {
        (Some(quota), Some(quota_ttl)) => Some(Quota { quota, quota_ttl }),
        _ => None,
    }
}

/// The limit that the members `user_limit` and `user_limit_ttl` of `object`
/// give.
pub open spec fn user_limit_of(object: JsonValue) -> Option<UserLimit> {
    match (field_u32(object, "user_limit"@), field_u32(object, "user_limit_ttl"@)) {
        (Some(user_limit), Some(user_limit_ttl)) => Some(UserLimit { user_limit, user_limit_ttl }),
        _ => None,
    }
}

/// The quota that the members `user_quota` and `user_quota_ttl` of `object`
/// give.
pub open spec fn user_quota_of(object: JsonValue) -> Option<UserQuota> {
    match (field_u32(object, "user_quota"@), field_u32(object, "user_quota_ttl"@)) {
        (Some(user_quota), Some(user_quota_ttl)) => Some(UserQuota { user_quota, user_quota_ttl }),
        _ => None,
    }
}

/// Whether `object` has every member of a match, each of its kind. The
/// second identifier and three of the titles may be missing or `null`.
pub open spec fn is_doc(object: JsonValue) -> bool {
    &&& field_double_bits(object, "from"@) is Some
    &&& field_double_bits(object, "to"@) is Some
    &&& field_double_bits(object, "at"@) is Some
    &&& field_double_bits(object, "similarity"@) is Some
    &&& field_u32(object, "anilist_id"@) is Some
    &&& optional_u32(object, "mal_id"@) is Some
    &&& field_flag(object, "is_adult"@) is Some
    &&& optional_text(object, "title_native"@) is Some
    &&& optional_text(object, "title_chinese"@) is Some
    &&& optional_text(object, "title_english"@) is Some
    &&& field_text(object, "title_romaji"@) is Some
    &&& field_texts(object, "synonyms"@) is Some
    &&& field_texts(object, "synonyms_chinese"@) is Some
    &&& field_text(object, "filename"@) is Some
    &&& field_text(object, "tokenthumb"@) is Some
}

/// The match that `object` describes, member by member; `None` where a
/// member is missing or of another kind.
pub open spec fn doc_of(object: JsonValue) -> Option<DocView> {
    if is_doc(object) {
        Some(
            DocView {
                from: Real { bits: field_double_bits(object, "from"@)->0 },
                to: Real { bits: field_double_bits(object, "to"@)->0 },
                at: Real { bits: field_double_bits(object, "at"@)->0 },
                similarity: Real { bits: field_double_bits(object, "similarity"@)->0 },
                anilist_id: field_u32(object, "anilist_id"@)->0,
                mal_id: optional_u32(object, "mal_id"@)->0,
                is_adult: field_flag(object, "is_adult"@)->0,
                title_native: optional_text(object, "title_native"@)->0,
                title_chinese: optional_text(object, "title_chinese"@)->0,
                title_english: optional_text(object, "title_english"@)->0,
                title_romaji: field_text(object, "title_romaji"@)->0,
                synonyms: field_texts(object, "synonyms"@)->0,
                synonyms_chinese: field_texts(object, "synonyms_chinese"@)->0,
                filename: field_text(object, "filename"@)->0,
                tokenthumb: field_text(object, "tokenthumb"@)->0,
            },
        )
    } else {
        None
    }
}

/// The matches that the array `list` describes, in its order; `None` where
/// it is no array or one of its items is no match.
pub open spec fn docs_of(list: JsonValue) -> Option<Seq<DocView>> {
    match list {
        JsonValue::Array(items) => if forall|i: int|
            0 <= i < items.len() ==> doc_of(#[trigger] items[i]) is Some {
            Some(Seq::new(items.len(), |i: int| doc_of(items[i])->0))
        } else {
            None
        },
        _ => None,
    }
}

/// The member `docs` of `object`, read as matches.
pub open spec fn field_docs(object: JsonValue) -> Option<Seq<DocView>> {
    match object.member("docs"@) {
        Some(list) => docs_of(list),
        None => None,
    }
}

/// Whether `object` has every member of an answer to a search, each of its
/// kind.
pub open spec fn is_search_response(object: JsonValue) -> bool {
    &&& field_u32(object, "RawDocsCount"@) is Some
    &&& field_u64(object, "RawDocsSearchTime"@) is Some
    &&& field_u64(object, "ReRankSearchTime"@) is Some
    &&& field_flag(object, "CacheHit"@) is Some
    &&& field_u32(object, "trial"@) is Some
    &&& limit_of(object) is Some
    &&& quota_of(object) is Some
    &&& field_docs(object) is Some
}

/// The answer to a search that `object` describes; `None` where a member is
/// missing or of another kind.
pub open spec fn search_response_of(object: JsonValue) -> Option<SearchResponseView> {
    if is_search_response(object) {
        Some(
            SearchResponseView {
                raw_docs_count: field_u32(object, "RawDocsCount"@)->0,
                raw_docs_search_time: field_u64(object, "RawDocsSearchTime"@)->0,
                re_rank_search_time: field_u64(object, "ReRankSearchTime"@)->0,
                cache_hit: field_flag(object, "CacheHit"@)->0,
                trial: field_u32(object, "trial"@)->0,
                limit: limit_of(object)->0,
                quota: quota_of(object)->0,
                docs: field_docs(object)->0,
            },
        )
    } else {
        None
    }
}

/// Whether `object` has every member of an account's state, each of its
/// kind. The user's identifier may be missing or `null`.
pub open spec fn is_me(object: JsonValue) -> bool {
    &&& optional_u32(object, "user_id"@) is Some
    &&& field_text(object, "email"@) is Some
    &&& limit_of(object) is Some
    &&& quota_of(object) is Some
    &&& user_limit_of(object) is Some
    &&& user_quota_of(object) is Some
}

/// The state of an account that `object` describes; `None` where a member is
/// missing or of another kind.
pub open spec fn me_of(object: JsonValue) -> Option<MeView> {
    if is_me(object) {
        Some(
            MeView {
                user_id: optional_u32(object, "user_id"@)->0,
                email: field_text(object, "email"@)->0,
                limit: limit_of(object)->0,
                quota: quota_of(object)->0,
                user_limit: user_limit_of(object)->0,
                user_quota: user_quota_of(object)->0,
            },
        )
    } else {
        None
    }
}

/// The answer to a search that the JSON document `text` describes; `None`
/// where `text` is no JSON document or describes no such answer.
pub open spec fn search_response_in(text: Seq<char>) -> Option<SearchResponseView> {
    match json_document(text) {
        Some(object) => search_response_of(object),
        None => None,
    }
}

/// The state of an account that the JSON document `text` describes; `None`
/// where `text` is no JSON document or describes no such state.
pub open spec fn me_in(text: Seq<char>) -> Option<MeView> {
    match json_document(text) {
        Some(object) => me_of(object),
        None => None,
    }
}

impl Limit {
    /// Reads a rate limit from the members of `object`.
    pub fn from_json(object: &serde_json::Value) -> (r: Option<Limit>)
        ensures
            r == limit_of(json_of(*object)),
    {
        let limit: u32 = read_u32(object, "limit")?;
        let limit_ttl: u32 = read_u32(object, "limit_ttl")?;
        Some(Limit { limit, limit_ttl })
    }
}

impl Quota {
    /// Reads a quota from the members of `object`.
    pub fn from_json(object: &serde_json::Value) -> (r: Option<Quota>)
        ensures
            r == quota_of(json_of(*object)),
    {
        let quota: u32 = read_u32(object, "quota")?;
        let quota_ttl: u32 = read_u32(object, "quota_ttl")?;
        Some(Quota { quota, quota_ttl })
    }
}

impl UserLimit {
    /// Reads an account's greatest rate limit from the members of `object`.
    pub fn from_json(object: &serde_json::Value) -> (r: Option<UserLimit>)
        ensures
            r == user_limit_of(json_of(*object)),
    {
        let user_limit: u32 = read_u32(object, "user_limit")?;
        let user_limit_ttl: u32 = read_u32(object, "user_limit_ttl")?;
        Some(UserLimit { user_limit, user_limit_ttl })
    }
}

impl UserQuota {
    /// Reads an account's greatest quota from the members of `object`.
    pub fn from_json(object: &serde_json::Value) -> (r: Option<UserQuota>)
        ensures
            r == user_quota_of(json_of(*object)),
    {
        let user_quota: u32 = read_u32(object, "user_quota")?;
        let user_quota_ttl: u32 = read_u32(object, "user_quota_ttl")?;
        Some(UserQuota { user_quota, user_quota_ttl })
    }
}

impl Doc {
    /// Reads one match from the members of `object`.
    pub fn from_json(object: &serde_json::Value) -> (r: Option<Doc>)
        ensures
            match r {
                Some(doc) => doc_of(json_of(*object)) == Some(doc@),
                None => doc_of(json_of(*object)) is None,
            },
    {
        let from: u64 = read_double_bits(object, "from")?;
        let to: u64 = read_double_bits(object, "to")?;
        let at: u64 = read_double_bits(object, "at")?;
        let similarity: u64 = read_double_bits(object, "similarity")?;
        let anilist_id: u32 = read_u32(object, "anilist_id")?;
        let mal_id = read_optional_u32(object, "mal_id")?;
        let is_adult = read_flag(object, "is_adult")?;
        let title_native = read_optional_text(object, "title_native")?;
        let title_chinese = read_optional_text(object, "title_chinese")?;
        let title_english = read_optional_text(object, "title_english")?;
        let title_romaji = read_text(object, "title_romaji")?;
        let synonyms = read_texts(object, "synonyms")?;
        let synonyms_chinese = read_texts(object, "synonyms_chinese")?;
        let filename = read_text(object, "filename")?;
        let tokenthumb = read_text(object, "tokenthumb")?;
        Some(
            Doc {
                from: Real { bits: from },
                to: Real { bits: to },
                at: Real { bits: at },
                similarity: Real { bits: similarity },
                anilist_id,
                mal_id,
                is_adult,
                title_native,
                title_chinese,
                title_english,
                title_romaji,
                synonyms,
                synonyms_chinese,
                filename,
                tokenthumb,
            },
        )
    }
}

/// Reads the member `docs` of `object` as matches.
fn read_docs(object: &serde_json::Value) -> (r: Option<Vec<Doc>>)
    ensures
        match r {
            Some(docs) => field_docs(json_of(*object)) == Some(doc_views(docs@)),
            None => field_docs(json_of(*object)) is None,
        },
{
    let list = member(object, "docs")?;
    let items = match as_items(list) {
        Some(items) => items,
        None => return None,
    };
    let ghost models = items@.map_values(|item: serde_json::Value| json_of(item));
    let mut docs: Vec<Doc> = Vec::new();
    let mut i: usize = 0;
    while i < items.len()
        invariant
            i <= items.len(),
            models == items@.map_values(|item: serde_json::Value| json_of(item)),
            json_of(*list) == JsonValue::Array(models),
            json_of(*object).member("docs"@) == Some(json_of(*list)),
            docs@.len() == i,
            forall|k: int| 0 <= k < i ==> doc_of(models[k]) == Some(#[trigger] docs@[k]@),
        decreases items.len() - i,
    {
        assert(models[i as int] == json_of(items@[i as int]));
        match Doc::from_json(&items[i]) {
            Some(doc) => {
                docs.push(doc);
            },
            None => {
                assert(doc_of(models[i as int]) is None);
                assert(docs_of(json_of(*list)) is None);
                return None;
            },
        }
        i = i + 1;
    }
    assert forall|k: int| 0 <= k < models.len() implies doc_of(#[trigger] models[k]) is Some by {
        assert(doc_of(models[k]) == Some(docs@[k]@));
    }
    assert(doc_views(docs@) =~= Seq::new(models.len(), |k: int| doc_of(models[k])->0)) by {
        assert forall|k: int| 0 <= k < docs@.len() implies doc_views(docs@)[k] == doc_of(
            models[k],
        )->0 by {
            assert(doc_of(models[k]) == Some(docs@[k]@));
        }
    }
    Some(docs)
}

impl SearchResponse {
    /// Reads the answer to a search from the members of `object`.
    pub fn from_json(object: &serde_json::Value) -> (r: Option<SearchResponse>)
        ensures
            match r {
                Some(response) => search_response_of(json_of(*object)) == Some(response@),
                None => search_response_of(json_of(*object)) is None,
            },
    {
        let raw_docs_count: u32 = read_u32(object, "RawDocsCount")?;
        let raw_docs_search_time: u64 = read_u64(object, "RawDocsSearchTime")?;
        let re_rank_search_time: u64 = read_u64(object, "ReRankSearchTime")?;
        let cache_hit = read_flag(object, "CacheHit")?;
        let trial: u32 = read_u32(object, "trial")?;
        let limit = Limit::from_json(object)?;
        let quota = Quota::from_json(object)?;
        let docs = read_docs(object)?;
        Some(
            SearchResponse {
                raw_docs_count,
                raw_docs_search_time,
                re_rank_search_time,
                cache_hit,
                trial,
                limit,
                quota,
                docs,
            },
        )
    }

    /// Reads the answer to a search from the JSON document `text`.
    pub fn decode(text: &str) -> (r: Option<SearchResponse>)
        ensures
            match r {
                Some(response) => search_response_in(text@) == Some(response@),
                None => search_response_in(text@) is None,
            },
    {
        match parse(text) {
            Some(document) => SearchResponse::from_json(&document),
            None => None,
        }
    }
}

impl Me {
    /// Reads the state of an account from the members of `object`.
    pub fn from_json(object: &serde_json::Value) -> (r: Option<Me>)
        ensures
            match r {
                Some(me) => me_of(json_of(*object)) == Some(me@),
                None => me_of(json_of(*object)) is None,
            },
    {
        let user_id = read_optional_u32(object, "user_id")?;
        let email = read_text(object, "email")?;
        let limit = Limit::from_json(object)?;
        let quota = Quota::from_json(object)?;
        let user_limit = UserLimit::from_json(object)?;
        let user_quota = UserQuota::from_json(object)?;
        Some(Me { user_id, email, limit, quota, user_limit, user_quota })
    }

    /// Reads the state of an account from the JSON document `text`.
    pub fn decode(text: &str) -> (r: Option<Me>)
        ensures
            match r {
                Some(me) => me_in(text@) == Some(me@),
                None => me_in(text@) is None,
            },
    {
        match parse(text) {
            Some(document) => Me::from_json(&document),
            None => None,
        }
    }
}

/// The character of the decimal digit `d`.
pub open spec fn digit_char(d: int) -> char {
    (d + 48) as char
}

/// The number `n` in decimal digits.
pub open spec fn decimal(n: nat) -> Seq<char>
    decreases n,
{
    if n < 10 {
        seq![digit_char(n as int)]
    } else {
        decimal(n / 10).push(digit_char((n % 10) as int))
    }
}

/// The JSON text of a search request: an object with the member `image` and,
/// where a filter is set, the member `filter`.
pub open spec fn search_body(image: Seq<char>, filter: Option<u32>) -> Seq<char> {
    "{\"image\":\""@ + image + match filter {
        Some(id) => "\",\"filter\":"@ + decimal(id as nat) + "}"@,
        None => "\"}"@,
    }
}

/// The characters of `text` before its first `"`.
pub open spec fn until_quote(text: Seq<char>) -> Seq<char>
    decreases text.len(),
{
    if text.len() == 0 || text[0] == '"' {
        Seq::empty()
    } else {
        seq![text[0]] + until_quote(text.skip(1))
    }
}

/// The image that a reader of the JSON text `body` of a search request finds
/// in it: what stands between the quote that opens the first member's value
/// and the next quote.
pub open spec fn body_image(body: Seq<char>) -> Seq<char> {
    until_quote(body.skip(10))
}

fn digit_text(d: u32) -> (r: &'static str)
    requires
        d < 10,
    ensures
        r@ == seq![digit_char(d as int)],
{
    proof {
        reveal_strlit("0");
        reveal_strlit("1");
        reveal_strlit("2");
        reveal_strlit("3");
        reveal_strlit("4");
        reveal_strlit("5");
        reveal_strlit("6");
        reveal_strlit("7");
        reveal_strlit("8");
        reveal_strlit("9");
    }
    let r = if d == 0 {
        "0"
    } else if d == 1 {
        "1"
    } else if d == 2 {
        "2"
    } else if d == 3 {
        "3"
    } else if d == 4 {
        "4"
    } else if d == 5 {
        "5"
    } else if d == 6 {
        "6"
    } else if d == 7 {
        "7"
    } else if d == 8 {
        "8"
    } else {
        "9"
    };
    assert(r@ =~= seq![digit_char(d as int)]);
    r
}

fn decimal_text(n: u32) -> (r: String)
    ensures
        r@ == decimal(n as nat),
    decreases n,
{
    if n < 10 {
        String::from_str(digit_text(n))
    } else {
        let mut r = decimal_text(n / 10);
        r.append(digit_text(n % 10));
        assert(r@ =~= decimal(n as nat));
        r
    }
}

impl SearchRequest {
    /// Whether the image is written in base64 characters only. JSON takes
    /// each of them as it stands, so such an image needs no escaping.
    pub open spec fn wf(&self) -> bool {
        is_base64_text(self.image@)
    }

    /// Creates a [`SearchRequest`] from raw image bytes, with no filter.
    pub fn new(image: Vec<u8>) -> (r: Self)
        ensures
            r.image@ == base64_text(image@),
            r.filter is None,
            r.wf(),
    {
        proof {
            base64_text_is_plain(image@);
        }
        Self { image: encode(&image), filter: None }
    }

    /// The JSON text of the request.
    pub fn to_json(&self) -> (body: String)
        requires
            self.wf(),
        ensures
            body@ == search_body(self.image@, self.filter),
    {
        let mut body = String::from_str("{\"image\":\"");
        body.append(self.image.as_str());
        match self.filter {
            Some(id) => {
                body.append("\",\"filter\":");
                let digits = decimal_text(id);
                body.append(digits.as_str());
                body.append("}");
            },
            None => {
                body.append("\"}");
            },
        }
        assert(body@ =~= search_body(self.image@, self.filter));
        body
    }
}

/// A reader finds the text of a plain image again in the body that holds it.
proof fn until_quote_of_plain(image: Seq<char>, rest: Seq<char>)
    requires
        is_base64_text(image),
        rest.len() > 0,
        rest[0] == '"',
    ensures
        until_quote(image + rest) == image,
    decreases image.len(),
{
    let text = image + rest;
    if image.len() == 0 {
        assert(text =~= rest);
    } else {
        assert(text[0] == image[0]);
        assert(text.skip(1) =~= image.skip(1) + rest);
        until_quote_of_plain(image.skip(1), rest);
        assert(seq![image[0]] + image.skip(1) =~= image);
    }
}

/// The body of a search request gives back the image that went into it:
/// whoever reads the member `image` of the body finds the base64 text
/// unchanged, with a filter or without.
pub proof fn body_holds_image(image: Seq<char>, filter: Option<u32>)
    requires
        is_base64_text(image),
    ensures
        body_image(search_body(image, filter)) == image,
{
    reveal_strlit("{\"image\":\"");
    reveal_strlit("\",\"filter\":");
    reveal_strlit("\"}");
    let rest = match filter {
        Some(id) => "\",\"filter\":"@ + decimal(id as nat) + "}"@,
        None => "\"}"@,
    };
    assert(search_body(image, filter).skip(10) =~= image + rest);
    until_quote_of_plain(image, rest);
}

/// An image is sent without loss: for any bytes, the image in the body of the
/// request that [`SearchRequest::new`] makes of them decodes to those bytes.
pub proof fn image_survives_encoding(bytes: Seq<u8>, filter: Option<u32>)
    ensures
        base64_bytes(body_image(search_body(base64_text(bytes), filter))) == Some(bytes),
{
    base64_text_is_plain(bytes);
    body_holds_image(base64_text(bytes), filter);
    base64_round_trip(bytes);
}

} // verus!
