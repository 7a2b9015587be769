//! Small shared models: query parameters, the wire-tagged enumerations, the
//! quarantine permission set, and a width/height pair.

use vstd::prelude::*;

use crate::json::{pairs_view, str_eq, JsonV, JsonValue};

verus! {

broadcast use vstd::string::group_string_axioms;

/// Query parameters for a request: an ordered list of key/value pairs.
#[derive(Debug, Clone)]
pub struct Params(pub Vec<(String, String)>);

impl View for Params {
    type V = Seq<(Seq<char>, Seq<char>)>;

    open spec fn view(&self) -> Seq<(Seq<char>, Seq<char>)> {
        Seq::new(self.0@.len(), |i: int| (self.0@[i].0@, self.0@[i].1@))
    }
}

impl Params {
    /// Creates an empty parameter list.
    pub fn new() -> (r: Self)
        ensures
            r@ == Seq::<(Seq<char>, Seq<char>)>::empty(),
    {
        let r = Params(Vec::new());
        proof {
            assert(r@ =~= Seq::<(Seq<char>, Seq<char>)>::empty());
        }
        r
    }

    /// Appends one key/value pair, keeping the existing pairs in order.
    pub fn add(self, key: &str, value: &str) -> (r: Self)
        ensures
            r@ == self@.push((key@, value@)),
    {
        let mut v = self.0;
        v.push((key.to_owned(), value.to_owned()));
        let r = Params(v);
        proof {
            assert(r@ =~= self@.push((key@, value@)));
        }
        r
    }
}

impl Default for Params {
    /// The empty parameter list.
    fn default() -> (r: Params)
        ensures
            r@ == Seq::<(Seq<char>, Seq<char>)>::empty(),
    {
        Params::new()
    }
}

/// Who may post to a subreddit.
#[derive(Clone, Copy, Debug, PartialEq, Eq, Structural)]
pub enum SubredditType {
    /// Anyone can post.
    Public,
    /// Only approved users can post.
    Private,
}

pub open spec fn spec_subreddit_type_str(t: SubredditType) -> Seq<char> {
    match t {
        SubredditType::Public => "public"@,
        SubredditType::Private => "private"@,
    }
}

pub open spec fn spec_subreddit_type_of(s: Seq<char>) -> Option<SubredditType> {
    if s == "public"@ {
        Some(SubredditType::Public)
    } else if s == "private"@ {
        Some(SubredditType::Private)
    } else {
        None
    }
}

impl SubredditType {
    /// The tag this variant carries on the wire.
    pub fn wire_str(&self) -> (r: &'static str)
        ensures
            r@ == spec_subreddit_type_str(*self),
    {
        match self {
            SubredditType::Public => "public",
            SubredditType::Private => "private",
        }
    }

    /// The variant a wire tag stands for.
    pub fn from_wire(s: &str) -> (r: Option<SubredditType>)
        ensures
            r == spec_subreddit_type_of(s@),
    {
        if str_eq(s, "public") {
            Some(SubredditType::Public)
        } else if str_eq(s, "private") {
            Some(SubredditType::Private)
        } else {
            None
        }
    }
}

/// Every wire tag decodes back to the variant it was written from.
pub proof fn lemma_subreddit_type_round_trip(t: SubredditType)
    ensures
        spec_subreddit_type_of(spec_subreddit_type_str(t)) == Some(t),
{
    reveal_strlit("public");
    reveal_strlit("private");
    assert("public"@.len() == 6);
    assert("private"@.len() == 7);
}

/// How comments under a link are ranked.
#[derive(Clone, Copy, Debug, PartialEq, Eq, Structural)]
pub enum CommentSort {
    /// Absolute (total karma) ranking.
    Top,
    /// Relative (percentage-based) ranking.
    Best,
    /// Controversial comments first.
    Controversial,
    /// Newest comments first.
    New,
}

pub open spec fn spec_comment_sort_str(t: CommentSort) -> Seq<char> {
    match t {
        CommentSort::Top => "top"@,
        CommentSort::Best => "best"@,
        CommentSort::Controversial => "controversial"@,
        CommentSort::New => "new"@,
    }
}

pub open spec fn spec_comment_sort_of(s: Seq<char>) -> Option<CommentSort> {
    if s == "top"@ {
        Some(CommentSort::Top)
    } else if s == "best"@ {
        Some(CommentSort::Best)
    } else if s == "controversial"@ {
        Some(CommentSort::Controversial)
    } else if s == "new"@ {
        Some(CommentSort::New)
    } else {
        None
    }
}

impl CommentSort {
    /// The tag this variant carries on the wire.
    pub fn wire_str(&self) -> (r: &'static str)
        ensures
            r@ == spec_comment_sort_str(*self),
    {
        match self {
            CommentSort::Top => "top",
            CommentSort::Best => "best",
            CommentSort::Controversial => "controversial",
            CommentSort::New => "new",
        }
    }

    /// The variant a wire tag stands for.
    pub fn from_wire(s: &str) -> (r: Option<CommentSort>)
        ensures
            r == spec_comment_sort_of(s@),
    {
        if str_eq(s, "top") {
            Some(CommentSort::Top)
        } else if str_eq(s, "best") {
            Some(CommentSort::Best)
        } else if str_eq(s, "controversial") {
            Some(CommentSort::Controversial)
        } else if str_eq(s, "new") {
            Some(CommentSort::New)
        } else {
            None
        }
    }
}

/// Every wire tag decodes back to the variant it was written from.
pub proof fn lemma_comment_sort_round_trip(t: CommentSort)
    ensures
        spec_comment_sort_of(spec_comment_sort_str(t)) == Some(t),
{
    reveal_strlit("top");
    reveal_strlit("best");
    reveal_strlit("controversial");
    reveal_strlit("new");
    assert("top"@.len() == 3);
    assert("best"@.len() == 4);
    assert("controversial"@.len() == 13);
    assert("new"@.len() == 3);
    assert(("top"@)[0] != ("new"@)[0]);
}

/// What kinds of submission a subreddit allows.
#[derive(Clone, Copy, Debug, PartialEq, Eq, Structural)]
pub enum SubmissionType {
    /// All submissions allowed.
    Any,
    /// Only link submissions allowed.
    Link,
    /// Only text posts allowed.
    Text,
}

pub open spec fn spec_submission_type_str(t: SubmissionType) -> Seq<char> {
    match t {
        SubmissionType::Any => "any"@,
        SubmissionType::Link => "link"@,
        SubmissionType::Text => "text"@,
    }
}

pub open spec fn spec_submission_type_of(s: Seq<char>) -> Option<SubmissionType> {
    if s == "any"@ {
        Some(SubmissionType::Any)
    } else if s == "link"@ {
        Some(SubmissionType::Link)
    } else if s == "text"@ {
        Some(SubmissionType::Text)
    } else {
        None
    }
}

impl SubmissionType {
    /// The tag this variant carries on the wire.
    pub fn wire_str(&self) -> (r: &'static str)
        ensures
            r@ == spec_submission_type_str(*self),
    {
        match self {
            SubmissionType::Any => "any",
            SubmissionType::Link => "link",
            SubmissionType::Text => "text",
        }
    }

    /// The variant a wire tag stands for.
    pub fn from_wire(s: &str) -> (r: Option<SubmissionType>)
        ensures
            r == spec_submission_type_of(s@),
    {
        if str_eq(s, "any") {
            Some(SubmissionType::Any)
        } else if str_eq(s, "link") {
            Some(SubmissionType::Link)
        } else if str_eq(s, "text") {
            Some(SubmissionType::Text)
        } else {
            None
        }
    }
}

/// Every wire tag decodes back to the variant it was written from.
pub proof fn lemma_submission_type_round_trip(t: SubmissionType)
    ensures
        spec_submission_type_of(spec_submission_type_str(t)) == Some(t),
{
    reveal_strlit("any");
    reveal_strlit("link");
    reveal_strlit("text");
    assert(("link"@)[0] != ("text"@)[0]);
}

/// The time window links are ranked over.
#[derive(Clone, Copy, Debug, PartialEq, Eq, Structural)]
pub enum LinkSort {
    /// Posts made in the past hour.
    Hour,
    /// Posts made in the past day.
    Day,
    /// Posts made in the past week.
    Week,
    /// Posts made in the past month.
    Month,
    /// Posts made in the past year.
    Year,
    /// All posts.
    All,
}

pub open spec fn spec_link_sort_str(t: LinkSort) -> Seq<char> {
    match t {
        LinkSort::Hour => "hour"@,
        LinkSort::Day => "day"@,
        LinkSort::Week => "week"@,
        LinkSort::Month => "month"@,
        LinkSort::Year => "year"@,
        LinkSort::All => "all"@,
    }
}

pub open spec fn spec_link_sort_of(s: Seq<char>) -> Option<LinkSort> {
    if s == "hour"@ {
        Some(LinkSort::Hour)
    } else if s == "day"@ {
        Some(LinkSort::Day)
    } else if s == "week"@ {
        Some(LinkSort::Week)
    } else if s == "month"@ {
        Some(LinkSort::Month)
    } else if s == "year"@ {
        Some(LinkSort::Year)
    } else if s == "all"@ {
        Some(LinkSort::All)
    } else {
        None
    }
}

impl LinkSort {
    /// The tag this variant carries on the wire.
    pub fn wire_str(&self) -> (r: &'static str)
        ensures
            r@ == spec_link_sort_str(*self),
    {
        match self {
            LinkSort::Hour => "hour",
            LinkSort::Day => "day",
            LinkSort::Week => "week",
            LinkSort::Month => "month",
            LinkSort::Year => "year",
            LinkSort::All => "all",
        }
    }

    /// The variant a wire tag stands for.
    pub fn from_wire(s: &str) -> (r: Option<LinkSort>)
        ensures
            r == spec_link_sort_of(s@),
    {
        if str_eq(s, "hour") {
            Some(LinkSort::Hour)
        } else if str_eq(s, "day") {
            Some(LinkSort::Day)
        } else if str_eq(s, "week") {
            Some(LinkSort::Week)
        } else if str_eq(s, "month") {
            Some(LinkSort::Month)
        } else if str_eq(s, "year") {
            Some(LinkSort::Year)
        } else if str_eq(s, "all") {
            Some(LinkSort::All)
        } else {
            None
        }
    }
}

/// Every wire tag decodes back to the variant it was written from.
pub proof fn lemma_link_sort_round_trip(t: LinkSort)
    ensures
        spec_link_sort_of(spec_link_sort_str(t)) == Some(t),
{
    reveal_strlit("hour");
    reveal_strlit("day");
    reveal_strlit("week");
    reveal_strlit("month");
    reveal_strlit("year");
    reveal_strlit("all");
    assert("hour"@.len() == 4);
    assert("day"@.len() == 3);
    assert("week"@.len() == 4);
    assert("month"@.len() == 5);
    assert("year"@.len() == 4);
    assert("all"@.len() == 3);
    assert(("hour"@)[0] != ("week"@)[0]);
    assert(("hour"@)[0] != ("year"@)[0]);
    assert(("week"@)[0] != ("year"@)[0]);
    assert(("all"@)[0] != ("day"@)[0]);
}

/// The permissions a quarantined subreddit retains.
#[derive(Clone, Copy, Debug, PartialEq, Eq, Structural)]
pub struct QuarantinePermissions {
    /// Whether styles are allowed.
    pub styles: bool,
    /// Whether sharing is allowed.
    pub sharing: bool,
    /// Whether subreddit images are allowed.
    pub sr_images: bool,
    /// Whether the subscriber count is visible.
    pub subscriber_count: bool,
    /// Whether media is allowed.
    pub media: bool,
    /// Whether polls are allowed.
    pub polls: bool,
    /// Whether videos are allowed.
    pub videos: bool,
    /// Whether images are allowed.
    pub images: bool,
    /// Whether crossposts are allowed.
    pub crossposts: bool,
}

pub open spec fn spec_decode_qp(pairs: Seq<(Seq<char>, JsonV)>) -> Option<QuarantinePermissions> {
    match (
        crate::codec::spec_bool_field(pairs, "styles"@),
        crate::codec::spec_bool_field(pairs, "sharing"@),
        crate::codec::spec_bool_field(pairs, "sr_images"@),
        crate::codec::spec_bool_field(pairs, "subscriber_count"@),
        crate::codec::spec_bool_field(pairs, "media"@),
        crate::codec::spec_bool_field(pairs, "polls"@),
        crate::codec::spec_bool_field(pairs, "videos"@),
        crate::codec::spec_bool_field(pairs, "images"@),
        crate::codec::spec_bool_field(pairs, "crossposts"@),
    ) {
        (
            Some(styles),
            Some(sharing),
            Some(sr_images),
            Some(subscriber_count),
            Some(media),
            Some(polls),
            Some(videos),
            Some(images),
            Some(crossposts),
        ) => Some(
            QuarantinePermissions {
                styles,
                sharing,
                sr_images,
                subscriber_count,
                media,
                polls,
                videos,
                images,
                crossposts,
            },
        ),
        _ => None,
    }
}

pub open spec fn spec_encode_qp(q: QuarantinePermissions) -> Seq<(Seq<char>, JsonV)> {
    seq![
        ("styles"@, JsonV::Bool(q.styles)),
        ("sharing"@, JsonV::Bool(q.sharing)),
        ("sr_images"@, JsonV::Bool(q.sr_images)),
        ("subscriber_count"@, JsonV::Bool(q.subscriber_count)),
        ("media"@, JsonV::Bool(q.media)),
        ("polls"@, JsonV::Bool(q.polls)),
        ("videos"@, JsonV::Bool(q.videos)),
        ("images"@, JsonV::Bool(q.images)),
        ("crossposts"@, JsonV::Bool(q.crossposts)),
    ]
}

impl QuarantinePermissions {
    /// Reads the permission set out of a decoded JSON object's fields.
    pub fn decode(fields: &Vec<(String, JsonValue)>) -> (r: Option<QuarantinePermissions>)
        ensures
            r == spec_decode_qp(pairs_view(*fields, 0)),
    {
        let styles = crate::codec::bool_field(fields, "styles");
        let sharing = crate::codec::bool_field(fields, "sharing");
        let sr_images = crate::codec::bool_field(fields, "sr_images");
        let subscriber_count = crate::codec::bool_field(fields, "subscriber_count");
        let media = crate::codec::bool_field(fields, "media");
        let polls = crate::codec::bool_field(fields, "polls");
        let videos = crate::codec::bool_field(fields, "videos");
        let images = crate::codec::bool_field(fields, "images");
        let crossposts = crate::codec::bool_field(fields, "crossposts");
        match (
            styles,
            sharing,
            sr_images,
            subscriber_count,
            media,
            polls,
            videos,
            images,
            crossposts,
        ) {
            (
                Some(styles),
                Some(sharing),
                Some(sr_images),
                Some(subscriber_count),
                Some(media),
                Some(polls),
                Some(videos),
                Some(images),
                Some(crossposts),
            ) => Some(
                QuarantinePermissions {
                    styles,
                    sharing,
                    sr_images,
                    subscriber_count,
                    media,
                    polls,
                    videos,
                    images,
                    crossposts,
                },
            ),
            _ => None,
        }
    }

    /// Writes the permission set as JSON object fields.
    pub fn encode(&self) -> (r: Vec<(String, JsonValue)>)
        ensures
            pairs_view(r, 0) == spec_encode_qp(*self),
    {
        let mut v: Vec<(String, JsonValue)> = Vec::new();
        v.push(("styles".to_owned(), JsonValue::Bool(self.styles)));
        v.push(("sharing".to_owned(), JsonValue::Bool(self.sharing)));
        v.push(("sr_images".to_owned(), JsonValue::Bool(self.sr_images)));
        v.push(("subscriber_count".to_owned(), JsonValue::Bool(self.subscriber_count)));
        v.push(("media".to_owned(), JsonValue::Bool(self.media)));
        v.push(("polls".to_owned(), JsonValue::Bool(self.polls)));
        v.push(("videos".to_owned(), JsonValue::Bool(self.videos)));
        v.push(("images".to_owned(), JsonValue::Bool(self.images)));
        v.push(("crossposts".to_owned(), JsonValue::Bool(self.crossposts)));
        proof {
            crate::json::lemma_pairs_view(v, 0);
            assert(pairs_view(v, 0) =~= spec_encode_qp(*self));
        }
        v
    }
}

/// A permission set decodes back from its own encoding.
pub proof fn lemma_qp_round_trip(q: QuarantinePermissions)
    ensures
        spec_decode_qp(spec_encode_qp(q)) == Some(q),
{
    reveal_strlit("styles");
    reveal_strlit("sharing");
    reveal_strlit("sr_images");
    reveal_strlit("subscriber_count");
    reveal_strlit("media");
    reveal_strlit("polls");
    reveal_strlit("videos");
    reveal_strlit("images");
    reveal_strlit("crossposts");
    reveal_with_fuel(crate::json::spec_obj_get, 11);
    assert("styles"@.len() == 6);
    assert("sharing"@.len() == 7);
    assert("sr_images"@.len() == 9);
    assert("subscriber_count"@.len() == 16);
    assert("media"@.len() == 5);
    assert("polls"@.len() == 5);
    assert("videos"@.len() == 6);
    assert("images"@.len() == 6);
    assert("crossposts"@.len() == 10);
    assert(("media"@)[0] != ("polls"@)[0]);
    assert(("styles"@)[0] != ("videos"@)[0]);
    assert(("styles"@)[0] != ("images"@)[0]);
    assert(("videos"@)[0] != ("images"@)[0]);
}

/// A width and height pair for sized content.
#[derive(Clone, Copy, Debug, PartialEq, Eq, Structural)]
pub struct Size(pub u64, pub u64);

} // verus!
