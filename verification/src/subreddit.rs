//! The subreddit model, wire tag `t5`.

use vstd::prelude::*;

use crate::codec::{
    bool_field, fullname_field, schema_err, spec_bool_field, spec_fullname_field,
    spec_str_field, spec_u64_field, str_field, u64_field,
};
use crate::error::{res_view, DecodeError, DecodeErrorV, Kind};
use crate::fullname::{fullname_wf, Fullname};
use crate::json::{lemma_pairs_view, obj_get, pairs_view, spec_obj_get, JsonV, JsonValue};
use crate::misc::{
    lemma_comment_sort_round_trip, lemma_qp_round_trip, lemma_submission_type_round_trip,
    lemma_subreddit_type_round_trip, spec_comment_sort_of, spec_comment_sort_str,
    spec_decode_qp, spec_encode_qp, spec_submission_type_of, spec_submission_type_str,
    spec_subreddit_type_of, spec_subreddit_type_str, CommentSort, QuarantinePermissions,
    SubmissionType, SubredditType,
};

verus! {

broadcast use vstd::string::group_string_axioms;

/// A subreddit.
#[derive(Debug, Clone)]
pub struct Subreddit {
    /// The description of the subreddit.
    pub description: String,
    /// The display name of the subreddit.
    pub display_name: String,
    /// The display name prefixed with `r/`.
    pub display_name_prefixed: String,
    /// The number of subscribed users.
    pub subscribers: u64,
    /// The title shown in the browser tab.
    pub title: String,
    /// The bare ID of the subreddit.
    pub id: String,
    /// The identifier of the subreddit.
    pub name: Fullname,
    /// Who may post here.
    pub subreddit_type: SubredditType,
    /// Whether the subreddit is quarantined.
    pub quarantine: bool,
    /// The permissions it keeps if quarantined.
    pub quarantine_permissions: Option<QuarantinePermissions>,
    /// Whether the subreddit is marked adult-only.
    pub over18: bool,
    /// The suggested comment ordering, if any.
    pub suggested_comment_sort: Option<CommentSort>,
    /// The kinds of submission allowed.
    pub submission_type: SubmissionType,
}

/// The mathematical mirror of [`Subreddit`].
#[verifier::ext_equal]
pub struct SubredditV {
    /// The description of the subreddit.
    pub description: Seq<char>,
    /// The display name of the subreddit.
    pub display_name: Seq<char>,
    /// The display name prefixed with `r/`.
    pub display_name_prefixed: Seq<char>,
    /// The number of subscribed users.
    pub subscribers: u64,
    /// The title shown in the browser tab.
    pub title: Seq<char>,
    /// The bare ID of the subreddit.
    pub id: Seq<char>,
    /// The identifier of the subreddit.
    pub name: Seq<char>,
    /// Who may post here.
    pub subreddit_type: SubredditType,
    /// Whether the subreddit is quarantined.
    pub quarantine: bool,
    /// The permissions it keeps if quarantined.
    pub quarantine_permissions: Option<QuarantinePermissions>,
    /// Whether the subreddit is marked adult-only.
    pub over18: bool,
    /// The suggested comment ordering, if any.
    pub suggested_comment_sort: Option<CommentSort>,
    /// The kinds of submission allowed.
    pub submission_type: SubmissionType,
}

impl View for Subreddit {
    type V = SubredditV;

    open spec fn view(&self) -> SubredditV {
        SubredditV {
            description: self.description@,
            display_name: self.display_name@,
            display_name_prefixed: self.display_name_prefixed@,
            subscribers: self.subscribers,
            title: self.title@,
            id: self.id@,
            name: self.name@,
            subreddit_type: self.subreddit_type,
            quarantine: self.quarantine,
            quarantine_permissions: self.quarantine_permissions,
            over18: self.over18,
            suggested_comment_sort: self.suggested_comment_sort,
            submission_type: self.submission_type,
        }
    }
}

/// A subreddit payload is well formed when its identifier is.
pub open spec fn subreddit_wf(s: SubredditV) -> bool {
    fullname_wf(s.name)
}

pub open spec fn spec_decode_subreddit(pairs: Seq<(Seq<char>, JsonV)>) -> Result<
    SubredditV,
    DecodeErrorV,
> {
    if spec_str_field(pairs, "description"@) is None {
        Err(DecodeErrorV::SchemaMismatch { kind: Kind::Subreddit, field: "description"@ })
    } else if spec_str_field(pairs, "display_name"@) is None {
        Err(DecodeErrorV::SchemaMismatch { kind: Kind::Subreddit, field: "display_name"@ })
    } else if spec_str_field(pairs, "display_name_prefixed"@) is None {
        Err(
            DecodeErrorV::SchemaMismatch {
                kind: Kind::Subreddit,
                field: "display_name_prefixed"@,
            },
        )
    } else if spec_u64_field(pairs, "subscribers"@) is None {
        Err(DecodeErrorV::SchemaMismatch { kind: Kind::Subreddit, field: "subscribers"@ })
    } else if spec_str_field(pairs, "title"@) is None {
        Err(DecodeErrorV::SchemaMismatch { kind: Kind::Subreddit, field: "title"@ })
    } else if spec_str_field(pairs, "id"@) is None {
        Err(DecodeErrorV::SchemaMismatch { kind: Kind::Subreddit, field: "id"@ })
    } else if spec_fullname_field(pairs, "name"@) is None {
        Err(DecodeErrorV::SchemaMismatch { kind: Kind::Subreddit, field: "name"@ })
    } else if spec_subreddit_type_field(pairs) is None {
        Err(DecodeErrorV::SchemaMismatch { kind: Kind::Subreddit, field: "subreddit_type"@ })
    } else if spec_bool_field(pairs, "quarantine"@) is None {
        Err(DecodeErrorV::SchemaMismatch { kind: Kind::Subreddit, field: "quarantine"@ })
    } else if spec_qp_field(pairs) is None {
        Err(
            DecodeErrorV::SchemaMismatch {
                kind: Kind::Subreddit,
                field: "quarantine_permissions"@,
            },
        )
    } else if spec_bool_field(pairs, "over18"@) is None {
        Err(DecodeErrorV::SchemaMismatch { kind: Kind::Subreddit, field: "over18"@ })
    } else if spec_comment_sort_field(pairs) is None {
        Err(
            DecodeErrorV::SchemaMismatch {
                kind: Kind::Subreddit,
                field: "suggested_comment_sort"@,
            },
        )
    } else if spec_submission_type_field(pairs) is None {
        Err(DecodeErrorV::SchemaMismatch { kind: Kind::Subreddit, field: "submission_type"@ })
    } else {
        Ok(
            SubredditV {
                description: spec_str_field(pairs, "description"@)->Some_0,
                display_name: spec_str_field(pairs, "display_name"@)->Some_0,
                display_name_prefixed: spec_str_field(pairs, "display_name_prefixed"@)->Some_0,
                subscribers: spec_u64_field(pairs, "subscribers"@)->Some_0,
                title: spec_str_field(pairs, "title"@)->Some_0,
                id: spec_str_field(pairs, "id"@)->Some_0,
                name: spec_fullname_field(pairs, "name"@)->Some_0,
                subreddit_type: spec_subreddit_type_field(pairs)->Some_0,
                quarantine: spec_bool_field(pairs, "quarantine"@)->Some_0,
                quarantine_permissions: spec_qp_field(pairs)->Some_0,
                over18: spec_bool_field(pairs, "over18"@)->Some_0,
                suggested_comment_sort: spec_comment_sort_field(pairs)->Some_0,
                submission_type: spec_submission_type_field(pairs)->Some_0,
            },
        )
    }
}

/// The `subreddit_type` field: a string carrying a recognized tag.
pub open spec fn spec_subreddit_type_field(pairs: Seq<(Seq<char>, JsonV)>) -> Option<
    SubredditType,
> {
    match spec_str_field(pairs, "subreddit_type"@) {
        Some(s) => spec_subreddit_type_of(s),
        None => None,
    }
}

/// The `submission_type` field: a string carrying a recognized tag.
pub open spec fn spec_submission_type_field(pairs: Seq<(Seq<char>, JsonV)>) -> Option<
    SubmissionType,
> {
    match spec_str_field(pairs, "submission_type"@) {
        Some(s) => spec_submission_type_of(s),
        None => None,
    }
}

/// The `suggested_comment_sort` field: `null` or a recognized tag.
pub open spec fn spec_comment_sort_field(pairs: Seq<(Seq<char>, JsonV)>) -> Option<
    Option<CommentSort>,
> {
    match spec_obj_get(pairs, "suggested_comment_sort"@) {
        Some(JsonV::Null) => Some(None),
        Some(JsonV::Str(s)) => match spec_comment_sort_of(s) {
            Some(c) => Some(Some(c)),
            None => None,
        },
        _ => None,
    }
}

/// The `quarantine_permissions` field: `null` or a permission object.
pub open spec fn spec_qp_field(pairs: Seq<(Seq<char>, JsonV)>) -> Option<
    Option<QuarantinePermissions>,
> {
    match spec_obj_get(pairs, "quarantine_permissions"@) {
        Some(JsonV::Null) => Some(None),
        Some(JsonV::Obj(qp_pairs)) => match spec_decode_qp(qp_pairs) {
            Some(q) => Some(Some(q)),
            None => None,
        },
        _ => None,
    }
}

pub open spec fn spec_encode_subreddit(s: SubredditV) -> Seq<(Seq<char>, JsonV)> {
    seq![
        ("description"@, JsonV::Str(s.description)),
        ("display_name"@, JsonV::Str(s.display_name)),
        ("display_name_prefixed"@, JsonV::Str(s.display_name_prefixed)),
        ("subscribers"@, JsonV::UInt(s.subscribers)),
        ("title"@, JsonV::Str(s.title)),
        ("id"@, JsonV::Str(s.id)),
        ("name"@, JsonV::Str(s.name)),
        ("subreddit_type"@, JsonV::Str(spec_subreddit_type_str(s.subreddit_type))),
        ("quarantine"@, JsonV::Bool(s.quarantine)),
        ("quarantine_permissions"@, match s.quarantine_permissions {
            Some(q) => JsonV::Obj(spec_encode_qp(q)),
            None => JsonV::Null,
        }),
        ("over18"@, JsonV::Bool(s.over18)),
        ("suggested_comment_sort"@, match s.suggested_comment_sort {
            Some(c) => JsonV::Str(spec_comment_sort_str(c)),
            None => JsonV::Null,
        }),
        ("submission_type"@, JsonV::Str(spec_submission_type_str(s.submission_type))),
    ]
}

impl Subreddit {
    /// Decodes a subreddit out of the fields of an envelope's `data` object.
    pub fn decode(fields: &Vec<(String, JsonValue)>) -> (r: Result<Subreddit, DecodeError>)
        ensures
            res_view(r) == spec_decode_subreddit(pairs_view(*fields, 0)),
    {
        let description = match str_field(fields, "description") {
            Some(v) => v,
            None => return Err(schema_err(Kind::Subreddit, "description")),
        };
        let display_name = match str_field(fields, "display_name") {
            Some(v) => v,
            None => return Err(schema_err(Kind::Subreddit, "display_name")),
        };
        let display_name_prefixed = match str_field(fields, "display_name_prefixed") {
            Some(v) => v,
            None => return Err(schema_err(Kind::Subreddit, "display_name_prefixed")),
        };
        let subscribers = match u64_field(fields, "subscribers") {
            Some(v) => v,
            None => return Err(schema_err(Kind::Subreddit, "subscribers")),
        };
        let title = match str_field(fields, "title") {
            Some(v) => v,
            None => return Err(schema_err(Kind::Subreddit, "title")),
        };
        let id = match str_field(fields, "id") {
            Some(v) => v,
            None => return Err(schema_err(Kind::Subreddit, "id")),
        };
        let name = match fullname_field(fields, "name") {
            Some(v) => v,
            None => return Err(schema_err(Kind::Subreddit, "name")),
        };
        let subreddit_type = match str_field(fields, "subreddit_type") {
            Some(v) => match SubredditType::from_wire(v.as_str()) {
                Some(t) => t,
                None => return Err(schema_err(Kind::Subreddit, "subreddit_type")),
            },
            None => return Err(schema_err(Kind::Subreddit, "subreddit_type")),
        };
        let quarantine = match bool_field(fields, "quarantine") {
            Some(v) => v,
            None => return Err(schema_err(Kind::Subreddit, "quarantine")),
        };
        let quarantine_permissions = match obj_get(fields, "quarantine_permissions") {
            Some(JsonValue::Null) => None,
            Some(JsonValue::Obj(qp_fields)) => match QuarantinePermissions::decode(qp_fields) {
                Some(q) => Some(q),
                None => return Err(schema_err(Kind::Subreddit, "quarantine_permissions")),
            },
            _ => return Err(schema_err(Kind::Subreddit, "quarantine_permissions")),
        };
        let over18 = match bool_field(fields, "over18") {
            Some(v) => v,
            None => return Err(schema_err(Kind::Subreddit, "over18")),
        };
        let suggested_comment_sort = match obj_get(fields, "suggested_comment_sort") {
            Some(JsonValue::Null) => None,
            Some(JsonValue::Str(s)) => match CommentSort::from_wire(s.as_str()) {
                Some(c) => Some(c),
                None => return Err(schema_err(Kind::Subreddit, "suggested_comment_sort")),
            },
            _ => return Err(schema_err(Kind::Subreddit, "suggested_comment_sort")),
        };
        let submission_type = match str_field(fields, "submission_type") {
            Some(v) => match SubmissionType::from_wire(v.as_str()) {
                Some(t) => t,
                None => return Err(schema_err(Kind::Subreddit, "submission_type")),
            },
            None => return Err(schema_err(Kind::Subreddit, "submission_type")),
        };
        Ok(
            Subreddit {
                description,
                display_name,
                display_name_prefixed,
                subscribers,
                title,
                id,
                name,
                subreddit_type,
                quarantine,
                quarantine_permissions,
                over18,
                suggested_comment_sort,
                submission_type,
            },
        )
    }

    /// Encodes the subreddit as the fields of an envelope's `data` object.
    pub fn encode(&self) -> (r: Vec<(String, JsonValue)>)
        ensures
            pairs_view(r, 0) == spec_encode_subreddit(self@),
    {
        let mut v: Vec<(String, JsonValue)> = Vec::new();
        v.push(("description".to_owned(), JsonValue::Str(self.description.clone())));
        v.push(("display_name".to_owned(), JsonValue::Str(self.display_name.clone())));
        v.push((
            "display_name_prefixed".to_owned(),
            JsonValue::Str(self.display_name_prefixed.clone()),
        ));
        v.push(("subscribers".to_owned(), JsonValue::UInt(self.subscribers)));
        v.push(("title".to_owned(), JsonValue::Str(self.title.clone())));
        v.push(("id".to_owned(), JsonValue::Str(self.id.clone())));
        v.push(("name".to_owned(), JsonValue::Str(self.name.as_str().to_owned())));
        v.push((
            "subreddit_type".to_owned(),
            JsonValue::Str(self.subreddit_type.wire_str().to_owned()),
        ));
        v.push(("quarantine".to_owned(), JsonValue::Bool(self.quarantine)));
        v.push((
            "quarantine_permissions".to_owned(),
            match &self.quarantine_permissions {
                Some(q) => JsonValue::Obj(q.encode()),
                None => JsonValue::Null,
            },
        ));
        v.push(("over18".to_owned(), JsonValue::Bool(self.over18)));
        v.push((
            "suggested_comment_sort".to_owned(),
            match &self.suggested_comment_sort {
                Some(c) => JsonValue::Str(c.wire_str().to_owned()),
                None => JsonValue::Null,
            },
        ));
        v.push((
            "submission_type".to_owned(),
            JsonValue::Str(self.submission_type.wire_str().to_owned()),
        ));
        proof {
            lemma_pairs_view(v, 0);
            assert(pairs_view(v, 0) =~= spec_encode_subreddit(self@));
        }
        v
    }
}

/// A subreddit payload decodes back from its own encoding.
pub proof fn lemma_subreddit_round_trip(s: SubredditV)
    requires
        subreddit_wf(s),
    ensures
        spec_decode_subreddit(spec_encode_subreddit(s)) == Ok::<SubredditV, DecodeErrorV>(s),
{
    reveal_strlit("description");
    reveal_strlit("display_name");
    reveal_strlit("display_name_prefixed");
    reveal_strlit("subscribers");
    reveal_strlit("title");
    reveal_strlit("id");
    reveal_strlit("name");
    reveal_strlit("subreddit_type");
    reveal_strlit("quarantine");
    reveal_strlit("quarantine_permissions");
    reveal_strlit("over18");
    reveal_strlit("suggested_comment_sort");
    reveal_strlit("submission_type");
    reveal_with_fuel(crate::json::spec_obj_get, 15);
    assert("description"@.len() == 11);
    assert("display_name"@.len() == 12);
    assert("display_name_prefixed"@.len() == 21);
    assert("subscribers"@.len() == 11);
    assert("title"@.len() == 5);
    assert("id"@.len() == 2);
    assert("name"@.len() == 4);
    assert("subreddit_type"@.len() == 14);
    assert("quarantine"@.len() == 10);
    assert("quarantine_permissions"@.len() == 22);
    assert("over18"@.len() == 6);
    assert("suggested_comment_sort"@.len() == 22);
    assert("submission_type"@.len() == 15);
    assert(("description"@)[0] != ("subscribers"@)[0]);
    assert(("quarantine_permissions"@)[0] != ("suggested_comment_sort"@)[0]);
    lemma_subreddit_type_round_trip(s.subreddit_type);
    lemma_submission_type_round_trip(s.submission_type);
    match s.suggested_comment_sort {
        Some(c) => lemma_comment_sort_round_trip(c),
        None => (),
    }
    match s.quarantine_permissions {
        Some(q) => lemma_qp_round_trip(q),
        None => (),
    }
    assert(spec_decode_subreddit(spec_encode_subreddit(s)) =~~= Ok::<SubredditV, DecodeErrorV>(
        s,
    ));
}

} // verus!
