//! The user account model, wire tag `t2`.

use vstd::prelude::*;

use crate::codec::{
    bool_field, fullname_field, i64_field, schema_err, spec_bool_field, spec_fullname_field,
    spec_i64_field, spec_str_field, str_field,
};
use crate::error::{res_view, DecodeError, DecodeErrorV, Kind};
use crate::fullname::{fullname_wf, Fullname};
use crate::json::{lemma_pairs_view, obj_get, pairs_view, spec_obj_get, JsonV, JsonValue};

verus! {

broadcast use vstd::string::group_string_axioms;

/// The subreddit that is part of a user's profile.
#[derive(Debug, Clone)]
pub struct UserSubreddit {
    /// The description of the subreddit.
    pub description: String,
}

/// The mathematical mirror of [`UserSubreddit`].
#[verifier::ext_equal]
pub struct UserSubredditV {
    /// The description of the subreddit.
    pub description: Seq<char>,
}

impl View for UserSubreddit {
    type V = UserSubredditV;

    open spec fn view(&self) -> UserSubredditV {
        UserSubredditV { description: self.description@ }
    }
}

/// A user account.
#[derive(Debug, Clone)]
pub struct User {
    /// The comment karma of the user.
    pub comment_karma: i64,
    /// The link karma of the user.
    pub link_karma: i64,
    /// The name of the user.
    pub name: String,
    /// The identifier of the user.
    pub id: Fullname,
    /// Whether the user is verified.
    pub verified: bool,
    /// Whether the user is a global moderator.
    pub is_mod: bool,
    /// The user's own subreddit.
    pub subreddit: UserSubreddit,
}

/// The mathematical mirror of [`User`].
#[verifier::ext_equal]
pub struct UserV {
    /// The comment karma of the user.
    pub comment_karma: i64,
    /// The link karma of the user.
    pub link_karma: i64,
    /// The name of the user.
    pub name: Seq<char>,
    /// The identifier of the user.
    pub id: Seq<char>,
    /// Whether the user is verified.
    pub verified: bool,
    /// Whether the user is a global moderator.
    pub is_mod: bool,
    /// The user's own subreddit.
    pub subreddit: UserSubredditV,
}

impl View for User {
    type V = UserV;

    open spec fn view(&self) -> UserV {
        UserV {
            comment_karma: self.comment_karma,
            link_karma: self.link_karma,
            name: self.name@,
            id: self.id@,
            verified: self.verified,
            is_mod: self.is_mod,
            subreddit: self.subreddit@,
        }
    }
}

/// A user payload is well formed when its identifier is.
pub open spec fn user_wf(u: UserV) -> bool {
    fullname_wf(u.id)
}

pub open spec fn spec_decode_user(pairs: Seq<(Seq<char>, JsonV)>) -> Result<
    UserV,
    DecodeErrorV,
> {
    if spec_i64_field(pairs, "comment_karma"@) is None {
        Err(DecodeErrorV::SchemaMismatch { kind: Kind::Account, field: "comment_karma"@ })
    } else if spec_i64_field(pairs, "link_karma"@) is None {
        Err(DecodeErrorV::SchemaMismatch { kind: Kind::Account, field: "link_karma"@ })
    } else if spec_str_field(pairs, "name"@) is None {
        Err(DecodeErrorV::SchemaMismatch { kind: Kind::Account, field: "name"@ })
    } else if spec_fullname_field(pairs, "id"@) is None {
        Err(DecodeErrorV::SchemaMismatch { kind: Kind::Account, field: "id"@ })
    } else if spec_bool_field(pairs, "verified"@) is None {
        Err(DecodeErrorV::SchemaMismatch { kind: Kind::Account, field: "verified"@ })
    } else if spec_bool_field(pairs, "is_mod"@) is None {
        Err(DecodeErrorV::SchemaMismatch { kind: Kind::Account, field: "is_mod"@ })
    } else {
        match spec_obj_get(pairs, "subreddit"@) {
            Some(JsonV::Obj(sub_pairs)) => match spec_str_field(sub_pairs, "description"@) {
                Some(description) => Ok(
                    UserV {
                        comment_karma: spec_i64_field(pairs, "comment_karma"@)->Some_0,
                        link_karma: spec_i64_field(pairs, "link_karma"@)->Some_0,
                        name: spec_str_field(pairs, "name"@)->Some_0,
                        id: spec_fullname_field(pairs, "id"@)->Some_0,
                        verified: spec_bool_field(pairs, "verified"@)->Some_0,
                        is_mod: spec_bool_field(pairs, "is_mod"@)->Some_0,
                        subreddit: UserSubredditV { description },
                    },
                ),
                None => Err(
                    DecodeErrorV::SchemaMismatch { kind: Kind::Account, field: "subreddit"@ },
                ),
            },
            _ => Err(DecodeErrorV::SchemaMismatch { kind: Kind::Account, field: "subreddit"@ }),
        }
    }
}

pub open spec fn spec_encode_user(u: UserV) -> Seq<(Seq<char>, JsonV)> {
    seq![
        ("comment_karma"@, if u.comment_karma >= 0 {
            JsonV::UInt(u.comment_karma as u64)
        } else {
            JsonV::Int(u.comment_karma)
        }),
        ("link_karma"@, if u.link_karma >= 0 {
            JsonV::UInt(u.link_karma as u64)
        } else {
            JsonV::Int(u.link_karma)
        }),
        ("name"@, JsonV::Str(u.name)),
        ("id"@, JsonV::Str(u.id)),
        ("verified"@, JsonV::Bool(u.verified)),
        ("is_mod"@, JsonV::Bool(u.is_mod)),
        ("subreddit"@, JsonV::Obj(seq![("description"@, JsonV::Str(u.subreddit.description))])),
    ]
}

impl User {
    /// Decodes a user out of the fields of an envelope's `data` object.
    pub fn decode(fields: &Vec<(String, JsonValue)>) -> (r: Result<User, DecodeError>)
        ensures
            res_view(r) == spec_decode_user(pairs_view(*fields, 0)),
    {
        let comment_karma = match i64_field(fields, "comment_karma") {
            Some(v) => v,
            None => return Err(schema_err(Kind::Account, "comment_karma")),
        };
        let link_karma = match i64_field(fields, "link_karma") {
            Some(v) => v,
            None => return Err(schema_err(Kind::Account, "link_karma")),
        };
        let name = match str_field(fields, "name") {
            Some(v) => v,
            None => return Err(schema_err(Kind::Account, "name")),
        };
        let id = match fullname_field(fields, "id") {
            Some(v) => v,
            None => return Err(schema_err(Kind::Account, "id")),
        };
        let verified = match bool_field(fields, "verified") {
            Some(v) => v,
            None => return Err(schema_err(Kind::Account, "verified")),
        };
        let is_mod = match bool_field(fields, "is_mod") {
            Some(v) => v,
            None => return Err(schema_err(Kind::Account, "is_mod")),
        };
        let subreddit = match obj_get(fields, "subreddit") {
            Some(JsonValue::Obj(sub_fields)) => match str_field(sub_fields, "description") {
                Some(description) => UserSubreddit { description },
                None => return Err(schema_err(Kind::Account, "subreddit")),
            },
            _ => return Err(schema_err(Kind::Account, "subreddit")),
        };
        Ok(User { comment_karma, link_karma, name, id, verified, is_mod, subreddit })
    }

    /// Encodes the user as the fields of an envelope's `data` object.
    pub fn encode(&self) -> (r: Vec<(String, JsonValue)>)
        ensures
            pairs_view(r, 0) == spec_encode_user(self@),
    {
        let mut v: Vec<(String, JsonValue)> = Vec::new();
        v.push((
            "comment_karma".to_owned(),
            if self.comment_karma >= 0 {
                JsonValue::UInt(self.comment_karma as u64)
            } else {
                JsonValue::Int(self.comment_karma)
            },
        ));
        v.push((
            "link_karma".to_owned(),
            if self.link_karma >= 0 {
                JsonValue::UInt(self.link_karma as u64)
            } else {
                JsonValue::Int(self.link_karma)
            },
        ));
        v.push(("name".to_owned(), JsonValue::Str(self.name.clone())));
        v.push(("id".to_owned(), JsonValue::Str(self.id.as_str().to_owned())));
        v.push(("verified".to_owned(), JsonValue::Bool(self.verified)));
        v.push(("is_mod".to_owned(), JsonValue::Bool(self.is_mod)));
        let mut sub: Vec<(String, JsonValue)> = Vec::new();
        sub.push(("description".to_owned(), JsonValue::Str(self.subreddit.description.clone())));
        v.push(("subreddit".to_owned(), JsonValue::Obj(sub)));
        proof {
            lemma_pairs_view(sub, 0);
            lemma_pairs_view(v, 0);
            assert(pairs_view(sub, 0) =~= seq![
                ("description"@, JsonV::Str(self.subreddit.description@)),
            ]);
            assert(pairs_view(v, 0) =~= spec_encode_user(self@));
        }
        v
    }
}

/// A user payload decodes back from its own encoding.
pub proof fn lemma_user_round_trip(u: UserV)
    requires
        user_wf(u),
    ensures
        spec_decode_user(spec_encode_user(u)) == Ok::<UserV, DecodeErrorV>(u),
{
    reveal_strlit("comment_karma");
    reveal_strlit("link_karma");
    reveal_strlit("name");
    reveal_strlit("id");
    reveal_strlit("verified");
    reveal_strlit("is_mod");
    reveal_strlit("subreddit");
    reveal_strlit("description");
    reveal_with_fuel(crate::json::spec_obj_get, 9);
    assert("comment_karma"@.len() == 13);
    assert("link_karma"@.len() == 10);
    assert("name"@.len() == 4);
    assert("id"@.len() == 2);
    assert("verified"@.len() == 8);
    assert("is_mod"@.len() == 6);
    assert("subreddit"@.len() == 9);
    assert("description"@.len() == 11);
    assert(("is_mod"@)[0] != ("verified"@)[0]);
    assert(spec_decode_user(spec_encode_user(u)) =~~= Ok::<UserV, DecodeErrorV>(u));
}

} // verus!
