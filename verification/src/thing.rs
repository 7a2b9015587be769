//! The response envelope: the tagged union of every payload the wire's
//! `{kind, data}` wrapper can carry, with its decoder and encoder.

use vstd::prelude::*;

use crate::award::Award;
use crate::codec::schema_err;
use crate::error::{res_view, DecodeError, DecodeErrorV, Kind, TypeMismatch};
use crate::fullname::{fullname_wf, Fullname};
use crate::link::Link;
use crate::message::Message;
use crate::more::More;
use crate::subreddit::Subreddit;
use crate::user::User;
use crate::json::{lemma_pairs_view, obj_get, pairs_view, spec_obj_get, str_eq, JsonV, JsonValue};

verus! {

broadcast use vstd::string::group_string_axioms, vstd::std_specs::vec::axiom_vec_index_decreases;

/// A comment in a thread, wire tag `t1`.
#[derive(Debug)]
pub struct Comment {
    /// The username of the comment's author.
    pub author: String,
    /// The identifier of the link this comment belongs to.
    pub link_id: Fullname,
    /// The identifier of the subreddit this comment belongs to.
    pub subreddit_id: Fullname,
    /// The identifier of the parent: another comment, or the link itself.
    pub parent_id: Fullname,
    /// The identifier of this comment.
    pub name: Fullname,
    /// The envelope of replies under this comment, if any.
    pub replies: Option<Box<Thing>>,
}

/// A pagination container: an ordered slice of envelopes with cursors.
#[derive(Debug)]
pub struct Listing {
    /// Legacy way to authenticate mod actions.
    pub modhash: Option<String>,
    /// The number of things in `children`.
    pub dist: Option<u64>,
    /// The envelopes of this slice, in server order.
    pub children: Vec<Thing>,
    /// The cursor after this slice.
    pub after: Option<Fullname>,
    /// The cursor before this slice.
    pub before: Option<Fullname>,
    /// The greatest number of items this slice was asked for.
    pub limit: Option<u64>,
    /// The number of items already seen before this slice.
    pub count: Option<u64>,
    /// An override of what is shown.
    pub show: Option<String>,
}

/// A decoded response envelope.
#[derive(Debug)]
pub enum Thing {
    /// A comment, wire tag `t1`.
    Comment(Comment),
    /// A user account, wire tag `t2`.
    Account(User),
    /// A submitted link, wire tag `t3`.
    Link(Link),
    /// A private message, wire tag `t4`.
    Message(Message),
    /// A subreddit, wire tag `t5`.
    Subreddit(Subreddit),
    /// An award, wire tag `t6`.
    Award(Award),
    /// A pagination container, wire tag `Listing`.
    Listing(Listing),
    /// A collapsed tail of comments, wire tag `more`.
    More(More),
}

/// The mathematical mirror of [`Comment`].
#[verifier::ext_equal]
pub struct CommentV {
    /// The username of the comment's author.
    pub author: Seq<char>,
    /// The identifier of the link this comment belongs to.
    pub link_id: Seq<char>,
    /// The identifier of the subreddit this comment belongs to.
    pub subreddit_id: Seq<char>,
    /// The identifier of the parent: another comment, or the link itself.
    pub parent_id: Seq<char>,
    /// The identifier of this comment.
    pub name: Seq<char>,
    /// The envelope of replies under this comment, if any.
    pub replies: Option<Box<ThingV>>,
}

/// The mathematical mirror of [`Listing`].
#[verifier::ext_equal]
pub struct ListingV {
    /// Legacy way to authenticate mod actions.
    pub modhash: Option<Seq<char>>,
    /// The number of things in `children`.
    pub dist: Option<u64>,
    /// The envelopes of this slice, in server order.
    pub children: Seq<ThingV>,
    /// The cursor after this slice.
    pub after: Option<Seq<char>>,
    /// The cursor before this slice.
    pub before: Option<Seq<char>>,
    /// The greatest number of items this slice was asked for.
    pub limit: Option<u64>,
    /// The number of items already seen before this slice.
    pub count: Option<u64>,
    /// An override of what is shown.
    pub show: Option<Seq<char>>,
}

/// The mathematical mirror of [`Thing`].
#[verifier::ext_equal]
pub enum ThingV {
    /// A comment, wire tag `t1`.
    Comment(CommentV),
    /// A user account, wire tag `t2`.
    Account(crate::user::UserV),
    /// A submitted link, wire tag `t3`.
    Link(crate::link::LinkV),
    /// A private message, wire tag `t4`.
    Message(Message),
    /// A subreddit, wire tag `t5`.
    Subreddit(crate::subreddit::SubredditV),
    /// An award, wire tag `t6`.
    Award(crate::award::AwardV),
    /// A pagination container, wire tag `Listing`.
    Listing(ListingV),
    /// A collapsed tail of comments, wire tag `more`.
    More(crate::more::MoreV),
}

pub open spec fn thing_view(t: Thing) -> ThingV
    decreases t, 0int,
{
    match t {
        Thing::Comment(c) => ThingV::Comment(comment_view(c)),
        Thing::Account(u) => ThingV::Account(u@),
        Thing::Link(l) => ThingV::Link(l@),
        Thing::Message(m) => ThingV::Message(m),
        Thing::Subreddit(s) => ThingV::Subreddit(s@),
        Thing::Award(a) => ThingV::Award(a@),
        Thing::Listing(l) => ThingV::Listing(listing_view(l)),
        Thing::More(m) => ThingV::More(m@),
    }
}

pub open spec fn comment_view(c: Comment) -> CommentV
    decreases c, 0int,
{
    CommentV {
        author: c.author@,
        link_id: c.link_id@,
        subreddit_id: c.subreddit_id@,
        parent_id: c.parent_id@,
        name: c.name@,
        replies: match c.replies {
            Some(b) => Some(Box::new(thing_view(*b))),
            None => None,
        },
    }
}

pub open spec fn listing_view(l: Listing) -> ListingV
    decreases l, 0int,
{
    ListingV {
        modhash: match l.modhash {
            Some(s) => Some(s@),
            None => None,
        },
        dist: l.dist,
        children: things_view(l.children, 0),
        after: match l.after {
            Some(f) => Some(f@),
            None => None,
        },
        before: match l.before {
            Some(f) => Some(f@),
            None => None,
        },
        limit: l.limit,
        count: l.count,
        show: match l.show {
            Some(s) => Some(s@),
            None => None,
        },
    }
}

pub open spec fn things_view(v: Vec<Thing>, i: int) -> Seq<ThingV>
    decreases v, v@.len() - i,
{
    if i < 0 || i >= v@.len() {
        Seq::empty()
    } else {
        seq![thing_view(v@[i])] + things_view(v, i + 1)
    }
}

pub proof fn lemma_things_view(v: Vec<Thing>, i: int)
    requires
        0 <= i <= v@.len(),
    ensures
        things_view(v, i).len() == v@.len() - i,
        forall|k: int| 0 <= k < v@.len() - i ==> things_view(v, i)[k] == thing_view(v@[i + k]),
    decreases v@.len() - i,
{
    if i < v@.len() {
        lemma_things_view(v, i + 1);
    }
}

impl View for Thing {
    type V = ThingV;

    open spec fn view(&self) -> ThingV {
        thing_view(*self)
    }
}

impl View for Comment {
    type V = CommentV;

    open spec fn view(&self) -> CommentV {
        comment_view(*self)
    }
}

impl Default for Listing {
    /// The empty listing: no cursors, no children.
    fn default() -> (r: Listing)
        ensures
            r@ == (ListingV {
                modhash: None,
                dist: None,
                children: Seq::empty(),
                after: None,
                before: None,
                limit: None,
                count: None,
                show: None,
            }),
    {
        let r = Listing {
            modhash: None,
            dist: None,
            children: Vec::new(),
            after: None,
            before: None,
            limit: None,
            count: None,
            show: None,
        };
        proof {
            assert(things_view(r.children, 0) =~= Seq::<ThingV>::empty());
        }
        r
    }
}

impl View for Listing {
    type V = ListingV;

    open spec fn view(&self) -> ListingV {
        listing_view(*self)
    }
}

/// A comment payload is well formed when its identifiers are, recursively
/// through its replies.
pub open spec fn comment_wf(c: CommentV) -> bool
    decreases c, 0int,
{
    &&& fullname_wf(c.link_id)
    &&& fullname_wf(c.subreddit_id)
    &&& fullname_wf(c.parent_id)
    &&& fullname_wf(c.name)
    &&& match c.replies {
        Some(b) => thing_wf(*b),
        None => true,
    }
}

/// A listing payload is well formed when its cursors and children are.
pub open spec fn listing_wf(l: ListingV) -> bool
    decreases l, 0int,
{
    &&& match l.after {
        Some(f) => fullname_wf(f),
        None => true,
    }
    &&& match l.before {
        Some(f) => fullname_wf(f),
        None => true,
    }
    &&& things_wf(l.children)
}

pub open spec fn things_wf(s: Seq<ThingV>) -> bool
    decreases s, 1int,
{
    if s.len() == 0 {
        true
    } else {
        thing_wf(s[0]) && things_wf(s.drop_first())
    }
}

/// An envelope payload is well formed when the identifiers it carries are.
pub open spec fn thing_wf(t: ThingV) -> bool
    decreases t, 2int,
{
    match t {
        ThingV::Comment(c) => comment_wf(c),
        ThingV::Account(u) => crate::user::user_wf(u),
        ThingV::Link(l) => crate::link::link_wf(l),
        ThingV::Message(_) => true,
        ThingV::Subreddit(s) => crate::subreddit::subreddit_wf(s),
        ThingV::Award(_) => true,
        ThingV::Listing(l) => listing_wf(l),
        ThingV::More(m) => crate::more::more_wf(m),
    }
}


/// The wire tag each kind carries.
pub open spec fn spec_kind_tag(k: Kind) -> Seq<char> {
    match k {
        Kind::Comment => "t1"@,
        Kind::Account => "t2"@,
        Kind::Link => "t3"@,
        Kind::Message => "t4"@,
        Kind::Subreddit => "t5"@,
        Kind::Award => "t6"@,
        Kind::Listing => "Listing"@,
        Kind::More => "more"@,
    }
}

/// The kind of a decoded envelope.
pub open spec fn spec_thing_kind(t: ThingV) -> Kind {
    match t {
        ThingV::Comment(_) => Kind::Comment,
        ThingV::Account(_) => Kind::Account,
        ThingV::Link(_) => Kind::Link,
        ThingV::Message(_) => Kind::Message,
        ThingV::Subreddit(_) => Kind::Subreddit,
        ThingV::Award(_) => Kind::Award,
        ThingV::Listing(_) => Kind::Listing,
        ThingV::More(_) => Kind::More,
    }
}

pub open spec fn spec_decode_thing(j: JsonV) -> Result<ThingV, DecodeErrorV>
    decreases j, 3int,
{
    match j {
        JsonV::Obj(pairs) => match spec_obj_get(pairs, "kind"@) {
            Some(JsonV::Str(kind)) => match spec_obj_get(pairs, "data"@) {
                Some(d) => {
                    proof {
                        crate::json::lemma_obj_get_decreases(pairs, "data"@);
                    }
                    if kind == "t1"@ {
                        match d {
                            JsonV::Obj(dp) => match spec_decode_comment(dp) {
                                Ok(c) => Ok(ThingV::Comment(c)),
                                Err(e) => Err(e),
                            },
                            _ => Err(
                                DecodeErrorV::SchemaMismatch {
                                    kind: Kind::Comment,
                                    field: "data"@,
                                },
                            ),
                        }
                    } else if kind == "t2"@ {
                        match d {
                            JsonV::Obj(dp) => match crate::user::spec_decode_user(dp) {
                                Ok(u) => Ok(ThingV::Account(u)),
                                Err(e) => Err(e),
                            },
                            _ => Err(
                                DecodeErrorV::SchemaMismatch {
                                    kind: Kind::Account,
                                    field: "data"@,
                                },
                            ),
                        }
                    } else if kind == "t3"@ {
                        match d {
                            JsonV::Obj(dp) => match crate::link::spec_decode_link(dp) {
                                Ok(l) => Ok(ThingV::Link(l)),
                                Err(e) => Err(e),
                            },
                            _ => Err(
                                DecodeErrorV::SchemaMismatch {
                                    kind: Kind::Link,
                                    field: "data"@,
                                },
                            ),
                        }
                    } else if kind == "t4"@ {
                        match d {
                            JsonV::Obj(dp) => match crate::message::spec_decode_message(dp) {
                                Ok(m) => Ok(ThingV::Message(m)),
                                Err(e) => Err(e),
                            },
                            _ => Err(
                                DecodeErrorV::SchemaMismatch {
                                    kind: Kind::Message,
                                    field: "data"@,
                                },
                            ),
                        }
                    } else if kind == "t5"@ {
                        match d {
                            JsonV::Obj(dp) => match crate::subreddit::spec_decode_subreddit(dp) {
                                Ok(s) => Ok(ThingV::Subreddit(s)),
                                Err(e) => Err(e),
                            },
                            _ => Err(
                                DecodeErrorV::SchemaMismatch {
                                    kind: Kind::Subreddit,
                                    field: "data"@,
                                },
                            ),
                        }
                    } else if kind == "t6"@ {
                        match d {
                            JsonV::Obj(dp) => match crate::award::spec_decode_award(dp) {
                                Ok(a) => Ok(ThingV::Award(a)),
                                Err(e) => Err(e),
                            },
                            _ => Err(
                                DecodeErrorV::SchemaMismatch {
                                    kind: Kind::Award,
                                    field: "data"@,
                                },
                            ),
                        }
                    } else if kind == "Listing"@ {
                        match d {
                            JsonV::Obj(dp) => match spec_decode_listing(dp) {
                                Ok(l) => Ok(ThingV::Listing(l)),
                                Err(e) => Err(e),
                            },
                            _ => Err(
                                DecodeErrorV::SchemaMismatch {
                                    kind: Kind::Listing,
                                    field: "data"@,
                                },
                            ),
                        }
                    } else if kind == "more"@ {
                        match d {
                            JsonV::Obj(dp) => match crate::more::spec_decode_more(dp) {
                                Ok(m) => Ok(ThingV::More(m)),
                                Err(e) => Err(e),
                            },
                            _ => Err(
                                DecodeErrorV::SchemaMismatch {
                                    kind: Kind::More,
                                    field: "data"@,
                                },
                            ),
                        }
                    } else {
                        Err(DecodeErrorV::UnknownKind(kind))
                    }
                },
                None => Err(DecodeErrorV::MissingPayload),
            },
            _ => Err(DecodeErrorV::MissingDiscriminant),
        },
        _ => Err(DecodeErrorV::MissingDiscriminant),
    }
}

/// The `replies` field of a comment: `null` and the empty-string sentinel
/// both mean "no replies"; an envelope is decoded recursively.
pub open spec fn spec_comment_replies(pairs: Seq<(Seq<char>, JsonV)>) -> Result<
    Option<Box<ThingV>>,
    DecodeErrorV,
>
    decreases pairs, 1int,
{
    match spec_obj_get(pairs, "replies"@) {
        None => Err(DecodeErrorV::SchemaMismatch { kind: Kind::Comment, field: "replies"@ }),
        Some(JsonV::Null) => Ok(None),
        Some(JsonV::Str(s)) => if s.len() == 0 {
            Ok(None)
        } else {
            Err(DecodeErrorV::SchemaMismatch { kind: Kind::Comment, field: "replies"@ })
        },
        Some(rv) => {
            proof {
                crate::json::lemma_obj_get_decreases(pairs, "replies"@);
            }
            match spec_decode_thing(rv) {
                Ok(t) => Ok(Some(Box::new(t))),
                Err(e) => Err(e),
            }
        },
    }
}

pub open spec fn spec_decode_comment(pairs: Seq<(Seq<char>, JsonV)>) -> Result<
    CommentV,
    DecodeErrorV,
>
    decreases pairs, 2int,
{
    if crate::codec::spec_str_field(pairs, "author"@) is None {
        Err(DecodeErrorV::SchemaMismatch { kind: Kind::Comment, field: "author"@ })
    } else if crate::codec::spec_fullname_field(pairs, "link_id"@) is None {
        Err(DecodeErrorV::SchemaMismatch { kind: Kind::Comment, field: "link_id"@ })
    } else if crate::codec::spec_fullname_field(pairs, "subreddit_id"@) is None {
        Err(DecodeErrorV::SchemaMismatch { kind: Kind::Comment, field: "subreddit_id"@ })
    } else if crate::codec::spec_fullname_field(pairs, "parent_id"@) is None {
        Err(DecodeErrorV::SchemaMismatch { kind: Kind::Comment, field: "parent_id"@ })
    } else if crate::codec::spec_fullname_field(pairs, "name"@) is None {
        Err(DecodeErrorV::SchemaMismatch { kind: Kind::Comment, field: "name"@ })
    } else {
        match spec_comment_replies(pairs) {
            Ok(replies) => Ok(
                CommentV {
                    author: crate::codec::spec_str_field(pairs, "author"@)->Some_0,
                    link_id: crate::codec::spec_fullname_field(pairs, "link_id"@)->Some_0,
                    subreddit_id: crate::codec::spec_fullname_field(
                        pairs,
                        "subreddit_id"@,
                    )->Some_0,
                    parent_id: crate::codec::spec_fullname_field(pairs, "parent_id"@)->Some_0,
                    name: crate::codec::spec_fullname_field(pairs, "name"@)->Some_0,
                    replies,
                },
            ),
            Err(e) => Err(e),
        }
    }
}

pub open spec fn spec_decode_things(s: Seq<JsonV>) -> Result<Seq<ThingV>, DecodeErrorV>
    decreases s, 1int,
{
    if s.len() == 0 {
        Ok(Seq::empty())
    } else {
        match spec_decode_thing(s[0]) {
            Err(e) => Err(e),
            Ok(t) => match spec_decode_things(s.drop_first()) {
                Err(e) => Err(e),
                Ok(rest) => Ok(seq![t] + rest),
            },
        }
    }
}

pub open spec fn spec_decode_listing(pairs: Seq<(Seq<char>, JsonV)>) -> Result<
    ListingV,
    DecodeErrorV,
>
    decreases pairs, 2int,
{
    if crate::codec::spec_nullable_str_field(pairs, "modhash"@) is None {
        Err(DecodeErrorV::SchemaMismatch { kind: Kind::Listing, field: "modhash"@ })
    } else if crate::codec::spec_nullable_u64_field(pairs, "dist"@) is None {
        Err(DecodeErrorV::SchemaMismatch { kind: Kind::Listing, field: "dist"@ })
    } else if crate::codec::spec_nullable_fullname_field(pairs, "after"@) is None {
        Err(DecodeErrorV::SchemaMismatch { kind: Kind::Listing, field: "after"@ })
    } else if crate::codec::spec_nullable_fullname_field(pairs, "before"@) is None {
        Err(DecodeErrorV::SchemaMismatch { kind: Kind::Listing, field: "before"@ })
    } else if crate::codec::spec_defaulted_u64_field(pairs, "limit"@) is None {
        Err(DecodeErrorV::SchemaMismatch { kind: Kind::Listing, field: "limit"@ })
    } else if crate::codec::spec_defaulted_u64_field(pairs, "count"@) is None {
        Err(DecodeErrorV::SchemaMismatch { kind: Kind::Listing, field: "count"@ })
    } else if crate::codec::spec_defaulted_str_field(pairs, "show"@) is None {
        Err(DecodeErrorV::SchemaMismatch { kind: Kind::Listing, field: "show"@ })
    } else {
        match spec_obj_get(pairs, "children"@) {
            Some(JsonV::Arr(elems)) => {
                proof {
                    crate::json::lemma_obj_get_decreases(pairs, "children"@);
                }
                match spec_decode_things(elems) {
                    Ok(children) => Ok(
                        ListingV {
                            modhash: crate::codec::spec_nullable_str_field(
                                pairs,
                                "modhash"@,
                            )->Some_0,
                            dist: crate::codec::spec_nullable_u64_field(pairs, "dist"@)->Some_0,
                            children,
                            after: crate::codec::spec_nullable_fullname_field(
                                pairs,
                                "after"@,
                            )->Some_0,
                            before: crate::codec::spec_nullable_fullname_field(
                                pairs,
                                "before"@,
                            )->Some_0,
                            limit: crate::codec::spec_defaulted_u64_field(
                                pairs,
                                "limit"@,
                            )->Some_0,
                            count: crate::codec::spec_defaulted_u64_field(
                                pairs,
                                "count"@,
                            )->Some_0,
                            show: crate::codec::spec_defaulted_str_field(
                                pairs,
                                "show"@,
                            )->Some_0,
                        },
                    ),
                    Err(e) => Err(e),
                }
            },
            _ => Err(DecodeErrorV::SchemaMismatch { kind: Kind::Listing, field: "children"@ }),
        }
    }
}

pub open spec fn spec_encode_thing(t: ThingV) -> JsonV
    decreases t, 2int,
{
    match t {
        ThingV::Comment(c) => JsonV::Obj(
            seq![
                ("kind"@, JsonV::Str("t1"@)),
                ("data"@, JsonV::Obj(spec_encode_comment(c))),
            ],
        ),
        ThingV::Account(u) => JsonV::Obj(
            seq![
                ("kind"@, JsonV::Str("t2"@)),
                ("data"@, JsonV::Obj(crate::user::spec_encode_user(u))),
            ],
        ),
        ThingV::Link(l) => JsonV::Obj(
            seq![
                ("kind"@, JsonV::Str("t3"@)),
                ("data"@, JsonV::Obj(crate::link::spec_encode_link(l))),
            ],
        ),
        ThingV::Message(m) => JsonV::Obj(
            seq![
                ("kind"@, JsonV::Str("t4"@)),
                ("data"@, JsonV::Obj(crate::message::spec_encode_message(m))),
            ],
        ),
        ThingV::Subreddit(s) => JsonV::Obj(
            seq![
                ("kind"@, JsonV::Str("t5"@)),
                ("data"@, JsonV::Obj(crate::subreddit::spec_encode_subreddit(s))),
            ],
        ),
        ThingV::Award(a) => JsonV::Obj(
            seq![
                ("kind"@, JsonV::Str("t6"@)),
                ("data"@, JsonV::Obj(crate::award::spec_encode_award(a))),
            ],
        ),
        ThingV::Listing(l) => JsonV::Obj(
            seq![
                ("kind"@, JsonV::Str("Listing"@)),
                ("data"@, JsonV::Obj(spec_encode_listing(l))),
            ],
        ),
        ThingV::More(m) => JsonV::Obj(
            seq![
                ("kind"@, JsonV::Str("more"@)),
                ("data"@, JsonV::Obj(crate::more::spec_encode_more(m))),
            ],
        ),
    }
}

pub open spec fn spec_encode_comment(c: CommentV) -> Seq<(Seq<char>, JsonV)>
    decreases c, 1int,
{
    seq![
        ("author"@, JsonV::Str(c.author)),
        ("link_id"@, JsonV::Str(c.link_id)),
        ("subreddit_id"@, JsonV::Str(c.subreddit_id)),
        ("parent_id"@, JsonV::Str(c.parent_id)),
        ("name"@, JsonV::Str(c.name)),
        ("replies"@, match c.replies {
            None => JsonV::Null,
            Some(b) => spec_encode_thing(*b),
        }),
    ]
}

pub open spec fn spec_encode_things(s: Seq<ThingV>) -> Seq<JsonV>
    decreases s, 0int,
{
    if s.len() == 0 {
        Seq::empty()
    } else {
        seq![spec_encode_thing(s[0])] + spec_encode_things(s.drop_first())
    }
}

pub open spec fn spec_encode_listing(l: ListingV) -> Seq<(Seq<char>, JsonV)>
    decreases l, 1int,
{
    seq![
        ("modhash"@, match l.modhash {
            Some(s) => JsonV::Str(s),
            None => JsonV::Null,
        }),
        ("dist"@, match l.dist {
            Some(u) => JsonV::UInt(u),
            None => JsonV::Null,
        }),
        ("after"@, match l.after {
            Some(f) => JsonV::Str(f),
            None => JsonV::Null,
        }),
        ("before"@, match l.before {
            Some(f) => JsonV::Str(f),
            None => JsonV::Null,
        }),
        ("limit"@, match l.limit {
            Some(u) => JsonV::UInt(u),
            None => JsonV::Null,
        }),
        ("count"@, match l.count {
            Some(u) => JsonV::UInt(u),
            None => JsonV::Null,
        }),
        ("show"@, match l.show {
            Some(s) => JsonV::Str(s),
            None => JsonV::Null,
        }),
        ("children"@, JsonV::Arr(spec_encode_things(l.children))),
    ]
}


impl Thing {
    /// The kind of this envelope.
    pub fn kind(&self) -> (k: Kind)
        ensures
            k == spec_thing_kind(self@),
    {
        match self {
            Thing::Comment(_) => Kind::Comment,
            Thing::Account(_) => Kind::Account,
            Thing::Link(_) => Kind::Link,
            Thing::Message(_) => Kind::Message,
            Thing::Subreddit(_) => Kind::Subreddit,
            Thing::Award(_) => Kind::Award,
            Thing::Listing(_) => Kind::Listing,
            Thing::More(_) => Kind::More,
        }
    }

    /// Decodes a response envelope from a JSON value: reads `kind`,
    /// reads `data`, and decodes the payload the tag calls for. An
    /// unrecognized tag is reported, never treated as unreachable.
    pub fn decode(j: &JsonValue) -> (r: Result<Thing, DecodeError>)
        ensures
            res_view(r) == spec_decode_thing(j@),
        decreases j, 3int,
    {
        let fields = match j {
            JsonValue::Obj(fields) => fields,
            _ => {
                return Err(DecodeError::MissingDiscriminant);
            },
        };
        let ghost pairs = pairs_view(*fields, 0);
        proof {
            assert(j@ == JsonV::Obj(pairs));
        }
        let kind = match obj_get(fields, "kind") {
            Some(JsonValue::Str(k)) => k.clone(),
            _ => {
                return Err(DecodeError::MissingDiscriminant);
            },
        };
        let d = match obj_get(fields, "data") {
            Some(d) => d,
            None => {
                return Err(DecodeError::MissingPayload);
            },
        };
        proof {
            let i = choose|i: int| 0 <= i < fields@.len() && *d == #[trigger] fields@[i].1;
            assert(decreases_to!(*fields => fields@[i].1));
            assert(decreases_to!(*j => *d));
        }
        if str_eq(kind.as_str(), "t1") {
            match d {
                JsonValue::Obj(dp) => match Comment::decode(dp) {
                    Ok(c) => Ok(Thing::Comment(c)),
                    Err(e) => Err(e),
                },
                _ => Err(schema_err(Kind::Comment, "data")),
            }
        } else if str_eq(kind.as_str(), "t2") {
            match d {
                JsonValue::Obj(dp) => match User::decode(dp) {
                    Ok(u) => Ok(Thing::Account(u)),
                    Err(e) => Err(e),
                },
                _ => Err(schema_err(Kind::Account, "data")),
            }
        } else if str_eq(kind.as_str(), "t3") {
            match d {
                JsonValue::Obj(dp) => match Link::decode(dp) {
                    Ok(l) => Ok(Thing::Link(l)),
                    Err(e) => Err(e),
                },
                _ => Err(schema_err(Kind::Link, "data")),
            }
        } else if str_eq(kind.as_str(), "t4") {
            match d {
                JsonValue::Obj(dp) => match Message::decode(dp) {
                    Ok(m) => Ok(Thing::Message(m)),
                    Err(e) => Err(e),
                },
                _ => Err(schema_err(Kind::Message, "data")),
            }
        } else if str_eq(kind.as_str(), "t5") {
            match d {
                JsonValue::Obj(dp) => match Subreddit::decode(dp) {
                    Ok(s) => Ok(Thing::Subreddit(s)),
                    Err(e) => Err(e),
                },
                _ => Err(schema_err(Kind::Subreddit, "data")),
            }
        } else if str_eq(kind.as_str(), "t6") {
            match d {
                JsonValue::Obj(dp) => match Award::decode(dp) {
                    Ok(a) => Ok(Thing::Award(a)),
                    Err(e) => Err(e),
                },
                _ => Err(schema_err(Kind::Award, "data")),
            }
        } else if str_eq(kind.as_str(), "Listing") {
            match d {
                JsonValue::Obj(dp) => match Listing::decode(dp) {
                    Ok(l) => Ok(Thing::Listing(l)),
                    Err(e) => Err(e),
                },
                _ => Err(schema_err(Kind::Listing, "data")),
            }
        } else if str_eq(kind.as_str(), "more") {
            match d {
                JsonValue::Obj(dp) => match More::decode(dp) {
                    Ok(m) => Ok(Thing::More(m)),
                    Err(e) => Err(e),
                },
                _ => Err(schema_err(Kind::More, "data")),
            }
        } else {
            Err(DecodeError::UnknownKind(kind))
        }
    }

    /// Encodes the envelope back into a JSON value: the payload's fields
    /// under `data`, its tag under `kind`.
    pub fn encode(&self) -> (r: JsonValue)
        ensures
            r@ == spec_encode_thing(self@),
        decreases self, 2int,
    {
        let (tag, data): (&str, Vec<(String, JsonValue)>) = match self {
            Thing::Comment(c) => ("t1", Comment::encode(c)),
            Thing::Account(u) => ("t2", u.encode()),
            Thing::Link(l) => ("t3", l.encode()),
            Thing::Message(m) => ("t4", m.encode()),
            Thing::Subreddit(s) => ("t5", s.encode()),
            Thing::Award(a) => ("t6", a.encode()),
            Thing::Listing(l) => ("Listing", Listing::encode(l)),
            Thing::More(m) => ("more", m.encode()),
        };
        let mut fields: Vec<(String, JsonValue)> = Vec::new();
        fields.push(("kind".to_owned(), JsonValue::Str(tag.to_owned())));
        fields.push(("data".to_owned(), JsonValue::Obj(data)));
        let r = JsonValue::Obj(fields);
        proof {
            lemma_pairs_view(fields, 0);
            assert(pairs_view(fields, 0) =~= seq![
                ("kind"@, JsonV::Str(tag@)),
                ("data"@, JsonV::Obj(pairs_view(data, 0))),
            ]);
            assert(r@ =~~= spec_encode_thing(self@));
        }
        r
    }

    /// Hands back the comment this envelope carries, or reports which kind
    /// it carries instead.
    pub fn into_comment(self) -> (r: Result<Comment, TypeMismatch>)
        ensures
            res_view(r) == spec_coerce_comment(self@),
    {
        match self {
            Thing::Comment(c) => Ok(c),
            t => Err(TypeMismatch { expected: Kind::Comment, actual: t.kind() }),
        }
    }

    /// Hands back the user account this envelope carries, or reports which
    /// kind it carries instead.
    pub fn into_user(self) -> (r: Result<User, TypeMismatch>)
        ensures
            res_view(r) == spec_coerce_user(self@),
    {
        match self {
            Thing::Account(u) => Ok(u),
            t => Err(TypeMismatch { expected: Kind::Account, actual: t.kind() }),
        }
    }

    /// Hands back the link this envelope carries, or reports which kind it
    /// carries instead.
    pub fn into_link(self) -> (r: Result<Link, TypeMismatch>)
        ensures
            res_view(r) == spec_coerce_link(self@),
    {
        match self {
            Thing::Link(l) => Ok(l),
            t => Err(TypeMismatch { expected: Kind::Link, actual: t.kind() }),
        }
    }

    /// Hands back the subreddit this envelope carries, or reports which
    /// kind it carries instead.
    pub fn into_subreddit(self) -> (r: Result<Subreddit, TypeMismatch>)
        ensures
            res_view(r) == spec_coerce_subreddit(self@),
    {
        match self {
            Thing::Subreddit(s) => Ok(s),
            t => Err(TypeMismatch { expected: Kind::Subreddit, actual: t.kind() }),
        }
    }

    /// Hands back the listing this envelope carries, or reports which kind
    /// it carries instead.
    pub fn into_listing(self) -> (r: Result<Listing, TypeMismatch>)
        ensures
            res_view(r) == spec_coerce_listing(self@),
    {
        match self {
            Thing::Listing(l) => Ok(l),
            t => Err(TypeMismatch { expected: Kind::Listing, actual: t.kind() }),
        }
    }

    /// Hands back the placeholder this envelope carries, or reports which
    /// kind it carries instead.
    pub fn into_more(self) -> (r: Result<More, TypeMismatch>)
        ensures
            res_view(r) == spec_coerce_more(self@),
    {
        match self {
            Thing::More(m) => Ok(m),
            t => Err(TypeMismatch { expected: Kind::More, actual: t.kind() }),
        }
    }
}

/// Coercion to a comment: succeeds exactly on the comment variant.
pub open spec fn spec_coerce_comment(t: ThingV) -> Result<CommentV, TypeMismatch> {
    match t {
        ThingV::Comment(c) => Ok(c),
        _ => Err(TypeMismatch { expected: Kind::Comment, actual: spec_thing_kind(t) }),
    }
}

/// Coercion to a user account: succeeds exactly on the account variant.
pub open spec fn spec_coerce_user(t: ThingV) -> Result<crate::user::UserV, TypeMismatch> {
    match t {
        ThingV::Account(u) => Ok(u),
        _ => Err(TypeMismatch { expected: Kind::Account, actual: spec_thing_kind(t) }),
    }
}

/// Coercion to a link: succeeds exactly on the link variant.
pub open spec fn spec_coerce_link(t: ThingV) -> Result<crate::link::LinkV, TypeMismatch> {
    match t {
        ThingV::Link(l) => Ok(l),
        _ => Err(TypeMismatch { expected: Kind::Link, actual: spec_thing_kind(t) }),
    }
}

/// Coercion to a subreddit: succeeds exactly on the subreddit variant.
pub open spec fn spec_coerce_subreddit(t: ThingV) -> Result<
    crate::subreddit::SubredditV,
    TypeMismatch,
> {
    match t {
        ThingV::Subreddit(s) => Ok(s),
        _ => Err(TypeMismatch { expected: Kind::Subreddit, actual: spec_thing_kind(t) }),
    }
}

/// Coercion to a listing: succeeds exactly on the listing variant.
pub open spec fn spec_coerce_listing(t: ThingV) -> Result<ListingV, TypeMismatch> {
    match t {
        ThingV::Listing(l) => Ok(l),
        _ => Err(TypeMismatch { expected: Kind::Listing, actual: spec_thing_kind(t) }),
    }
}

/// Coercion to a placeholder: succeeds exactly on the `more` variant.
pub open spec fn spec_coerce_more(t: ThingV) -> Result<crate::more::MoreV, TypeMismatch> {
    match t {
        ThingV::More(m) => Ok(m),
        _ => Err(TypeMismatch { expected: Kind::More, actual: spec_thing_kind(t) }),
    }
}


/// Once the first `i` children are known to decode, the whole sequence's
/// decoding is the rest's, with the decoded prefix in front.
pub proof fn lemma_decode_things_skip(s: Seq<JsonV>, i: int)
    requires
        0 <= i <= s.len(),
        forall|k: int| 0 <= k < i ==> (#[trigger] spec_decode_thing(s[k])) is Ok,
    ensures
        spec_decode_things(s) == match spec_decode_things(s.skip(i)) {
            Ok(rest) => Ok(
                Seq::new(i as nat, |k: int| spec_decode_thing(s[k])->Ok_0) + rest,
            ),
            Err(e) => Err::<Seq<ThingV>, DecodeErrorV>(e),
        },
    decreases i,
{
    let pre = |n: int| Seq::new(n as nat, |k: int| spec_decode_thing(s[k])->Ok_0);
    if i == 0 {
        assert(s.skip(0) =~= s);
        match spec_decode_things(s) {
            Ok(rest) => {
                assert(pre(0) + rest =~= rest);
            },
            Err(_) => {},
        }
    } else {
        lemma_decode_things_skip(s, i - 1);
        assert(s.skip(i - 1).len() > 0);
        assert(s.skip(i - 1)[0] == s[i - 1]);
        assert(s.skip(i - 1).drop_first() =~= s.skip(i));
        assert(spec_decode_thing(s[i - 1]) is Ok);
        match spec_decode_things(s.skip(i)) {
            Ok(rest) => {
                assert(spec_decode_things(s.skip(i - 1)) == Ok::<Seq<ThingV>, DecodeErrorV>(
                    seq![spec_decode_thing(s[i - 1])->Ok_0] + rest,
                ));
                assert(pre(i - 1) + (seq![spec_decode_thing(s[i - 1])->Ok_0] + rest) =~= pre(i)
                    + rest);
            },
            Err(e) => {
                assert(spec_decode_things(s.skip(i - 1)) == Err::<Seq<ThingV>, DecodeErrorV>(e));
            },
        }
    }
}

/// The encoded children, element for element.
pub proof fn lemma_encode_things(s: Seq<ThingV>)
    ensures
        spec_encode_things(s).len() == s.len(),
        forall|k: int| 0 <= k < s.len() ==> spec_encode_things(s)[k] == spec_encode_thing(s[k]),
    decreases s.len(),
{
    if s.len() > 0 {
        lemma_encode_things(s.drop_first());
    }
}

impl Comment {
    /// Decodes a comment out of the fields of an envelope's `data` object.
    /// A `replies` field holding the empty-string sentinel is read as "no
    /// replies", since the wire format overloads it.
    pub fn decode(fields: &Vec<(String, JsonValue)>) -> (r: Result<Comment, DecodeError>)
        ensures
            res_view(r) == spec_decode_comment(pairs_view(*fields, 0)),
        decreases fields, 2int,
    {
        let author = match crate::codec::str_field(fields, "author") {
            Some(v) => v,
            None => {
                return Err(schema_err(Kind::Comment, "author"));
            },
        };
        let link_id = match crate::codec::fullname_field(fields, "link_id") {
            Some(v) => v,
            None => {
                return Err(schema_err(Kind::Comment, "link_id"));
            },
        };
        let subreddit_id = match crate::codec::fullname_field(fields, "subreddit_id") {
            Some(v) => v,
            None => {
                return Err(schema_err(Kind::Comment, "subreddit_id"));
            },
        };
        let parent_id = match crate::codec::fullname_field(fields, "parent_id") {
            Some(v) => v,
            None => {
                return Err(schema_err(Kind::Comment, "parent_id"));
            },
        };
        let name = match crate::codec::fullname_field(fields, "name") {
            Some(v) => v,
            None => {
                return Err(schema_err(Kind::Comment, "name"));
            },
        };
        let replies: Option<Box<Thing>> = match obj_get(fields, "replies") {
            None => {
                return Err(schema_err(Kind::Comment, "replies"));
            },
            Some(JsonValue::Null) => None,
            Some(JsonValue::Str(s)) => {
                if s.as_str().is_empty() {
                    None
                } else {
                    return Err(schema_err(Kind::Comment, "replies"));
                }
            },
            Some(rv) => {
                proof {
                    let i = choose|i: int|
                        0 <= i < fields@.len() && *rv == #[trigger] fields@[i].1;
                    assert(decreases_to!(*fields => fields@[i].1));
                }
                match Thing::decode(rv) {
                    Ok(t) => Some(Box::new(t)),
                    Err(e) => {
                        return Err(e);
                    },
                }
            },
        };
        Ok(Comment { author, link_id, subreddit_id, parent_id, name, replies })
    }

    /// Encodes the comment as the fields of an envelope's `data` object.
    pub fn encode(&self) -> (r: Vec<(String, JsonValue)>)
        ensures
            pairs_view(r, 0) == spec_encode_comment(self@),
        decreases self, 1int,
    {
        let mut v: Vec<(String, JsonValue)> = Vec::new();
        v.push(("author".to_owned(), JsonValue::Str(self.author.clone())));
        v.push(("link_id".to_owned(), JsonValue::Str(self.link_id.as_str().to_owned())));
        v.push((
            "subreddit_id".to_owned(),
            JsonValue::Str(self.subreddit_id.as_str().to_owned()),
        ));
        v.push(("parent_id".to_owned(), JsonValue::Str(self.parent_id.as_str().to_owned())));
        v.push(("name".to_owned(), JsonValue::Str(self.name.as_str().to_owned())));
        v.push((
            "replies".to_owned(),
            match &self.replies {
                None => JsonValue::Null,
                Some(b) => Thing::encode(b),
            },
        ));
        proof {
            lemma_pairs_view(v, 0);
            assert(pairs_view(v, 0) =~= spec_encode_comment(self@));
        }
        v
    }
}

impl Listing {
    /// Decodes a listing out of the fields of an envelope's `data` object,
    /// each child envelope in turn, fail-fast.
    #[verifier::loop_isolation(false)]
    pub fn decode(fields: &Vec<(String, JsonValue)>) -> (r: Result<Listing, DecodeError>)
        ensures
            res_view(r) == spec_decode_listing(pairs_view(*fields, 0)),
        decreases fields, 2int,
    {
        let modhash = match crate::codec::nullable_str_field(fields, "modhash") {
            Some(v) => v,
            None => {
                return Err(schema_err(Kind::Listing, "modhash"));
            },
        };
        let dist = match crate::codec::nullable_u64_field(fields, "dist") {
            Some(v) => v,
            None => {
                return Err(schema_err(Kind::Listing, "dist"));
            },
        };
        let after = match crate::codec::nullable_fullname_field(fields, "after") {
            Some(v) => v,
            None => {
                return Err(schema_err(Kind::Listing, "after"));
            },
        };
        let before = match crate::codec::nullable_fullname_field(fields, "before") {
            Some(v) => v,
            None => {
                return Err(schema_err(Kind::Listing, "before"));
            },
        };
        let limit = match crate::codec::defaulted_u64_field(fields, "limit") {
            Some(v) => v,
            None => {
                return Err(schema_err(Kind::Listing, "limit"));
            },
        };
        let count = match crate::codec::defaulted_u64_field(fields, "count") {
            Some(v) => v,
            None => {
                return Err(schema_err(Kind::Listing, "count"));
            },
        };
        let show = match crate::codec::defaulted_str_field(fields, "show") {
            Some(v) => v,
            None => {
                return Err(schema_err(Kind::Listing, "show"));
            },
        };
        let elems = match obj_get(fields, "children") {
            Some(JsonValue::Arr(elems)) => elems,
            _ => {
                return Err(schema_err(Kind::Listing, "children"));
            },
        };
        let ghost es = crate::json::arr_view(*elems, 0);
        proof {
            crate::json::lemma_arr_view(*elems, 0);
            assert(spec_obj_get(pairs_view(*fields, 0), "children"@) == Some(JsonV::Arr(es)));
            let iw = choose|iw: int|
                0 <= iw < fields@.len() && JsonValue::Arr(*elems) == #[trigger] fields@[iw].1;
            assert(decreases_to!(*fields => fields@[iw].1));
            assert(decreases_to!(*fields => *elems));
        }
        let mut children: Vec<Thing> = Vec::new();
        let mut i: usize = 0;
        while i < elems.len()
            invariant
                0 <= i <= elems@.len(),
                forall|k: int| 0 <= k < i ==> (#[trigger] spec_decode_thing(es[k])) is Ok,
                things_view(children, 0) =~= Seq::new(
                    i as nat,
                    |k: int| spec_decode_thing(es[k])->Ok_0,
                ),
            decreases elems@.len() - i,
        {
            let ghost prev_seq = children@;
            let ghost prev_view = things_view(children, 0);
            proof {
                lemma_things_view(children, 0);
                assert(decreases_to!(*elems => elems@[i as int]));
            }
            match Thing::decode(&elems[i]) {
                Ok(t) => {
                    proof {
                        assert(spec_decode_thing(es[i as int]) == Ok::<ThingV, DecodeErrorV>(
                            t@,
                        ));
                    }
                    children.push(t);
                    proof {
                        lemma_things_view(children, 0);
                        let target = Seq::new(
                            (i + 1) as nat,
                            |k: int| spec_decode_thing(es[k])->Ok_0,
                        );
                        assert(children@ == prev_seq.push(children@[i as int]));
                        assert forall|k: int| 0 <= k < i + 1 implies things_view(children, 0)[k]
                            == target[k] by {
                            assert(target[k] == spec_decode_thing(es[k])->Ok_0);
                            assert(things_view(children, 0)[k] == thing_view(children@[k]));
                            if k < i {
                                assert(children@[k] == prev_seq[k]);
                                assert(prev_view[k] == thing_view(prev_seq[k]));
                                assert(prev_view[k] == spec_decode_thing(es[k])->Ok_0);
                            }
                        }
                        assert(things_view(children, 0) =~= target);
                    }
                },
                Err(e) => {
                    proof {
                        lemma_decode_things_skip(es, i as int);
                        assert(es.skip(i as int).len() > 0);
                        assert(es.skip(i as int)[0] == es[i as int]);
                        assert(spec_decode_things(es) == Err::<Seq<ThingV>, DecodeErrorV>(e@));
                    }
                    return Err(e);
                },
            }
            i += 1;
        }
        proof {
            lemma_decode_things_skip(es, es.len() as int);
            assert(es.skip(es.len() as int).len() == 0);
            assert(spec_decode_things(es) == Ok::<Seq<ThingV>, DecodeErrorV>(
                Seq::new(es.len(), |k: int| spec_decode_thing(es[k])->Ok_0) + Seq::empty(),
            ));
            assert(Seq::new(es.len(), |k: int| spec_decode_thing(es[k])->Ok_0) + Seq::empty()
                =~= things_view(children, 0));
        }
        Ok(Listing { modhash, dist, children, after, before, limit, count, show })
    }

    /// Encodes the listing as the fields of an envelope's `data` object.
    #[verifier::loop_isolation(false)]
    pub fn encode(&self) -> (r: Vec<(String, JsonValue)>)
        ensures
            pairs_view(r, 0) == spec_encode_listing(self@),
        decreases self, 1int,
    {
        let mut elems: Vec<JsonValue> = Vec::new();
        let mut i: usize = 0;
        while i < self.children.len()
            invariant
                0 <= i <= self.children@.len(),
                elems@.len() == i,
                forall|k: int| 0 <= k < i ==> crate::json::json_view(#[trigger] elems@[k])
                    == spec_encode_thing(thing_view(self.children@[k])),
            decreases self.children@.len() - i,
        {
            proof {
                assert(decreases_to!(self.children => self.children@[i as int]));
            }
            elems.push(Thing::encode(&self.children[i]));
            i += 1;
        }
        proof {
            crate::json::lemma_arr_view(elems, 0);
            lemma_things_view(self.children, 0);
            lemma_encode_things(things_view(self.children, 0));
            assert(crate::json::arr_view(elems, 0) =~= spec_encode_things(
                things_view(self.children, 0),
            ));
        }
        let mut v: Vec<(String, JsonValue)> = Vec::new();
        v.push((
            "modhash".to_owned(),
            match &self.modhash {
                Some(s) => JsonValue::Str(s.clone()),
                None => JsonValue::Null,
            },
        ));
        v.push((
            "dist".to_owned(),
            match self.dist {
                Some(u) => JsonValue::UInt(u),
                None => JsonValue::Null,
            },
        ));
        v.push((
            "after".to_owned(),
            match &self.after {
                Some(f) => JsonValue::Str(f.as_str().to_owned()),
                None => JsonValue::Null,
            },
        ));
        v.push((
            "before".to_owned(),
            match &self.before {
                Some(f) => JsonValue::Str(f.as_str().to_owned()),
                None => JsonValue::Null,
            },
        ));
        v.push((
            "limit".to_owned(),
            match self.limit {
                Some(u) => JsonValue::UInt(u),
                None => JsonValue::Null,
            },
        ));
        v.push((
            "count".to_owned(),
            match self.count {
                Some(u) => JsonValue::UInt(u),
                None => JsonValue::Null,
            },
        ));
        v.push((
            "show".to_owned(),
            match &self.show {
                Some(s) => JsonValue::Str(s.clone()),
                None => JsonValue::Null,
            },
        ));
        v.push(("children".to_owned(), JsonValue::Arr(elems)));
        proof {
            lemma_pairs_view(v, 0);
            assert(pairs_view(v, 0) =~= spec_encode_listing(self@));
        }
        v
    }
}


/// Every envelope is written under its own kind's wire tag, as the first
/// field of the encoded object.
pub proof fn lemma_encoded_kind_tag(t: ThingV)
    ensures
        spec_encode_thing(t) matches JsonV::Obj(pairs) && pairs[0] == (
            "kind"@,
            JsonV::Str(spec_kind_tag(spec_thing_kind(t))),
        ),
{
}

/// For every envelope kind, decoding an encoded payload yields the payload
/// back, field for field; the payload's identifiers must be well formed.
pub proof fn lemma_thing_round_trip(t: ThingV)
    requires
        thing_wf(t),
    ensures
        spec_decode_thing(spec_encode_thing(t)) == Ok::<ThingV, DecodeErrorV>(t),
    decreases t, 2int,
{
    reveal_strlit("kind");
    reveal_strlit("data");
    reveal_strlit("t1");
    reveal_strlit("t2");
    reveal_strlit("t3");
    reveal_strlit("t4");
    reveal_strlit("t5");
    reveal_strlit("t6");
    reveal_strlit("Listing");
    reveal_strlit("more");
    reveal_with_fuel(crate::json::spec_obj_get, 4);
    assert("kind"@.len() == 4);
    assert("data"@.len() == 4);
    assert(("kind"@)[0] != ("data"@)[0]);
    assert("t1"@.len() == 2);
    assert("t2"@.len() == 2);
    assert("t3"@.len() == 2);
    assert("t4"@.len() == 2);
    assert("t5"@.len() == 2);
    assert("t6"@.len() == 2);
    assert("Listing"@.len() == 7);
    assert("more"@.len() == 4);
    assert(("t1"@)[1] != ("t2"@)[1]);
    assert(("t1"@)[1] != ("t3"@)[1]);
    assert(("t1"@)[1] != ("t4"@)[1]);
    assert(("t1"@)[1] != ("t5"@)[1]);
    assert(("t1"@)[1] != ("t6"@)[1]);
    assert(("t2"@)[1] != ("t3"@)[1]);
    assert(("t2"@)[1] != ("t4"@)[1]);
    assert(("t2"@)[1] != ("t5"@)[1]);
    assert(("t2"@)[1] != ("t6"@)[1]);
    assert(("t3"@)[1] != ("t4"@)[1]);
    assert(("t3"@)[1] != ("t5"@)[1]);
    assert(("t3"@)[1] != ("t6"@)[1]);
    assert(("t4"@)[1] != ("t5"@)[1]);
    assert(("t4"@)[1] != ("t6"@)[1]);
    assert(("t5"@)[1] != ("t6"@)[1]);
    match t {
        ThingV::Comment(c) => {
            lemma_comment_round_trip(c);
        },
        ThingV::Account(u) => {
            crate::user::lemma_user_round_trip(u);
        },
        ThingV::Link(l) => {
            crate::link::lemma_link_round_trip(l);
        },
        ThingV::Message(m) => {
            crate::message::lemma_message_round_trip(m);
        },
        ThingV::Subreddit(s) => {
            crate::subreddit::lemma_subreddit_round_trip(s);
        },
        ThingV::Award(a) => {
            crate::award::lemma_award_round_trip(a);
        },
        ThingV::Listing(l) => {
            lemma_listing_round_trip(l);
        },
        ThingV::More(m) => {
            crate::more::lemma_more_round_trip(m);
        },
    }
}

/// A comment payload decodes back from its own encoding, replies included.
pub proof fn lemma_comment_round_trip(c: CommentV)
    requires
        comment_wf(c),
    ensures
        spec_decode_comment(spec_encode_comment(c)) == Ok::<CommentV, DecodeErrorV>(c),
    decreases c, 1int,
{
    reveal_strlit("author");
    reveal_strlit("link_id");
    reveal_strlit("subreddit_id");
    reveal_strlit("parent_id");
    reveal_strlit("name");
    reveal_strlit("replies");
    reveal_with_fuel(crate::json::spec_obj_get, 8);
    assert("author"@.len() == 6);
    assert("link_id"@.len() == 7);
    assert("subreddit_id"@.len() == 12);
    assert("parent_id"@.len() == 9);
    assert("name"@.len() == 4);
    assert("replies"@.len() == 7);
    assert(("link_id"@)[0] != ("replies"@)[0]);
    let pairs = spec_encode_comment(c);
    match c.replies {
        Some(b) => {
            assert(thing_wf(*b));
            lemma_thing_round_trip(*b);
            assert(spec_encode_thing(*b) is Obj);
            assert(spec_comment_replies(pairs) == Ok::<Option<Box<ThingV>>, DecodeErrorV>(
                Some(Box::new(*b)),
            ));
        },
        None => {
            assert(spec_comment_replies(pairs) == Ok::<Option<Box<ThingV>>, DecodeErrorV>(
                None,
            ));
        },
    }
    assert(spec_decode_comment(spec_encode_comment(c)) =~~= Ok::<CommentV, DecodeErrorV>(c));
}

/// A listing payload decodes back from its own encoding, children included.
pub proof fn lemma_listing_round_trip(l: ListingV)
    requires
        listing_wf(l),
    ensures
        spec_decode_listing(spec_encode_listing(l)) == Ok::<ListingV, DecodeErrorV>(l),
    decreases l, 1int,
{
    reveal_strlit("modhash");
    reveal_strlit("dist");
    reveal_strlit("after");
    reveal_strlit("before");
    reveal_strlit("limit");
    reveal_strlit("count");
    reveal_strlit("show");
    reveal_strlit("children");
    reveal_with_fuel(crate::json::spec_obj_get, 10);
    assert("modhash"@.len() == 7);
    assert("dist"@.len() == 4);
    assert("after"@.len() == 5);
    assert("before"@.len() == 6);
    assert("limit"@.len() == 5);
    assert("count"@.len() == 5);
    assert("show"@.len() == 4);
    assert("children"@.len() == 8);
    assert(("dist"@)[0] != ("show"@)[0]);
    assert(("after"@)[0] != ("limit"@)[0]);
    assert(("after"@)[0] != ("count"@)[0]);
    assert(("limit"@)[0] != ("count"@)[0]);
    lemma_things_round_trip(l.children);
    assert(spec_decode_listing(spec_encode_listing(l)) =~~= Ok::<ListingV, DecodeErrorV>(l));
}

/// A sequence of child envelopes decodes back from its own encoding.
pub proof fn lemma_things_round_trip(s: Seq<ThingV>)
    requires
        things_wf(s),
    ensures
        spec_decode_things(spec_encode_things(s)) == Ok::<Seq<ThingV>, DecodeErrorV>(s),
    decreases s, 0int,
{
    if s.len() == 0 {
        assert(spec_encode_things(s).len() == 0);
        assert(Seq::<ThingV>::empty() =~= s);
    } else {
        lemma_thing_round_trip(s[0]);
        lemma_things_round_trip(s.drop_first());
        let encoded = spec_encode_things(s);
        assert(encoded[0] == spec_encode_thing(s[0]));
        assert(encoded.drop_first() =~= spec_encode_things(s.drop_first()));
        assert(spec_decode_things(encoded.drop_first()) == Ok::<Seq<ThingV>, DecodeErrorV>(
            s.drop_first(),
        ));
        assert(seq![s[0]] + s.drop_first() =~= s);
    }
}

} // verus!
