//! The award model, wire tag `t6`.

use vstd::prelude::*;

use crate::codec::{
    bool_field, nullable_str_field, schema_err, spec_bool_field, spec_nullable_str_field,
    spec_str_field, spec_u64_field, str_field, u64_field,
};
use crate::error::{res_view, DecodeError, DecodeErrorV, Kind};
use crate::json::{lemma_pairs_view, pairs_view, JsonV, JsonValue};

verus! {

broadcast use vstd::string::group_string_axioms;

/// An award attached to a thing.
#[derive(Debug, Clone)]
pub struct Award {
    /// The ID of the award.
    pub id: String,
    /// If not global, which subreddit it belongs to.
    pub subreddit_id: Option<String>,
    /// How expensive the award is.
    pub coin_price: u64,
    /// The URL for the icon.
    pub icon_url: String,
    /// How many days of premium it gives.
    pub days_of_premium: u64,
    /// Whether the award is currently enabled.
    pub is_enabled: bool,
    /// The description of the award.
    pub description: String,
    /// How many times this award was used on the thing.
    pub count: u64,
    /// The name of the award.
    pub name: String,
}

/// The mathematical mirror of [`Award`].
#[verifier::ext_equal]
pub struct AwardV {
    /// The ID of the award.
    pub id: Seq<char>,
    /// If not global, which subreddit it belongs to.
    pub subreddit_id: Option<Seq<char>>,
    /// How expensive the award is.
    pub coin_price: u64,
    /// The URL for the icon.
    pub icon_url: Seq<char>,
    /// How many days of premium it gives.
    pub days_of_premium: u64,
    /// Whether the award is currently enabled.
    pub is_enabled: bool,
    /// The description of the award.
    pub description: Seq<char>,
    /// How many times this award was used on the thing.
    pub count: u64,
    /// The name of the award.
    pub name: Seq<char>,
}

impl View for Award {
    type V = AwardV;

    open spec fn view(&self) -> AwardV {
        AwardV {
            id: self.id@,
            subreddit_id: match self.subreddit_id {
                Some(s) => Some(s@),
                None => None,
            },
            coin_price: self.coin_price,
            icon_url: self.icon_url@,
            days_of_premium: self.days_of_premium,
            is_enabled: self.is_enabled,
            description: self.description@,
            count: self.count,
            name: self.name@,
        }
    }
}

pub open spec fn spec_decode_award(pairs: Seq<(Seq<char>, JsonV)>) -> Result<
    AwardV,
    DecodeErrorV,
> {
    if spec_str_field(pairs, "id"@) is None {
        Err(DecodeErrorV::SchemaMismatch { kind: Kind::Award, field: "id"@ })
    } else if spec_nullable_str_field(pairs, "subreddit_id"@) is None {
        Err(DecodeErrorV::SchemaMismatch { kind: Kind::Award, field: "subreddit_id"@ })
    } else if spec_u64_field(pairs, "coin_price"@) is None {
        Err(DecodeErrorV::SchemaMismatch { kind: Kind::Award, field: "coin_price"@ })
    } else if spec_str_field(pairs, "icon_url"@) is None {
        Err(DecodeErrorV::SchemaMismatch { kind: Kind::Award, field: "icon_url"@ })
    } else if spec_u64_field(pairs, "days_of_premium"@) is None {
        Err(DecodeErrorV::SchemaMismatch { kind: Kind::Award, field: "days_of_premium"@ })
    } else if spec_bool_field(pairs, "is_enabled"@) is None {
        Err(DecodeErrorV::SchemaMismatch { kind: Kind::Award, field: "is_enabled"@ })
    } else if spec_str_field(pairs, "description"@) is None {
        Err(DecodeErrorV::SchemaMismatch { kind: Kind::Award, field: "description"@ })
    } else if spec_u64_field(pairs, "count"@) is None {
        Err(DecodeErrorV::SchemaMismatch { kind: Kind::Award, field: "count"@ })
    } else if spec_str_field(pairs, "name"@) is None {
        Err(DecodeErrorV::SchemaMismatch { kind: Kind::Award, field: "name"@ })
    } else {
        Ok(
            AwardV {
                id: spec_str_field(pairs, "id"@)->Some_0,
                subreddit_id: spec_nullable_str_field(pairs, "subreddit_id"@)->Some_0,
                coin_price: spec_u64_field(pairs, "coin_price"@)->Some_0,
                icon_url: spec_str_field(pairs, "icon_url"@)->Some_0,
                days_of_premium: spec_u64_field(pairs, "days_of_premium"@)->Some_0,
                is_enabled: spec_bool_field(pairs, "is_enabled"@)->Some_0,
                description: spec_str_field(pairs, "description"@)->Some_0,
                count: spec_u64_field(pairs, "count"@)->Some_0,
                name: spec_str_field(pairs, "name"@)->Some_0,
            },
        )
    }
}

pub open spec fn spec_encode_award(a: AwardV) -> Seq<(Seq<char>, JsonV)> {
    seq![
        ("id"@, JsonV::Str(a.id)),
        ("subreddit_id"@, match a.subreddit_id {
            Some(s) => JsonV::Str(s),
            None => JsonV::Null,
        }),
        ("coin_price"@, JsonV::UInt(a.coin_price)),
        ("icon_url"@, JsonV::Str(a.icon_url)),
        ("days_of_premium"@, JsonV::UInt(a.days_of_premium)),
        ("is_enabled"@, JsonV::Bool(a.is_enabled)),
        ("description"@, JsonV::Str(a.description)),
        ("count"@, JsonV::UInt(a.count)),
        ("name"@, JsonV::Str(a.name)),
    ]
}

impl Award {
    /// Decodes an award out of the fields of an envelope's `data` object.
    pub fn decode(fields: &Vec<(String, JsonValue)>) -> (r: Result<Award, DecodeError>)
        ensures
            res_view(r) == spec_decode_award(pairs_view(*fields, 0)),
    {
        let id = match str_field(fields, "id") {
            Some(v) => v,
            None => return Err(schema_err(Kind::Award, "id")),
        };
        let subreddit_id = match nullable_str_field(fields, "subreddit_id") {
            Some(v) => v,
            None => return Err(schema_err(Kind::Award, "subreddit_id")),
        };
        let coin_price = match u64_field(fields, "coin_price") {
            Some(v) => v,
            None => return Err(schema_err(Kind::Award, "coin_price")),
        };
        let icon_url = match str_field(fields, "icon_url") {
            Some(v) => v,
            None => return Err(schema_err(Kind::Award, "icon_url")),
        };
        let days_of_premium = match u64_field(fields, "days_of_premium") {
            Some(v) => v,
            None => return Err(schema_err(Kind::Award, "days_of_premium")),
        };
        let is_enabled = match bool_field(fields, "is_enabled") {
            Some(v) => v,
            None => return Err(schema_err(Kind::Award, "is_enabled")),
        };
        let description = match str_field(fields, "description") {
            Some(v) => v,
            None => return Err(schema_err(Kind::Award, "description")),
        };
        let count = match u64_field(fields, "count") {
            Some(v) => v,
            None => return Err(schema_err(Kind::Award, "count")),
        };
        let name = match str_field(fields, "name") {
            Some(v) => v,
            None => return Err(schema_err(Kind::Award, "name")),
        };
        Ok(
            Award {
                id,
                subreddit_id,
                coin_price,
                icon_url,
                days_of_premium,
                is_enabled,
                description,
                count,
                name,
            },
        )
    }

    /// Encodes the award as the fields of an envelope's `data` object.
    pub fn encode(&self) -> (r: Vec<(String, JsonValue)>)
        ensures
            pairs_view(r, 0) == spec_encode_award(self@),
    {
        let mut v: Vec<(String, JsonValue)> = Vec::new();
        v.push(("id".to_owned(), JsonValue::Str(self.id.clone())));
        v.push((
            "subreddit_id".to_owned(),
            match &self.subreddit_id {
                Some(s) => JsonValue::Str(s.clone()),
                None => JsonValue::Null,
            },
        ));
        v.push(("coin_price".to_owned(), JsonValue::UInt(self.coin_price)));
        v.push(("icon_url".to_owned(), JsonValue::Str(self.icon_url.clone())));
        v.push(("days_of_premium".to_owned(), JsonValue::UInt(self.days_of_premium)));
        v.push(("is_enabled".to_owned(), JsonValue::Bool(self.is_enabled)));
        v.push(("description".to_owned(), JsonValue::Str(self.description.clone())));
        v.push(("count".to_owned(), JsonValue::UInt(self.count)));
        v.push(("name".to_owned(), JsonValue::Str(self.name.clone())));
        proof {
            lemma_pairs_view(v, 0);
            assert(pairs_view(v, 0) =~= spec_encode_award(self@));
        }
        v
    }
}

/// An award payload decodes back from its own encoding.
pub proof fn lemma_award_round_trip(a: AwardV)
    ensures
        spec_decode_award(spec_encode_award(a)) == Ok::<AwardV, DecodeErrorV>(a),
{
    reveal_strlit("id");
    reveal_strlit("subreddit_id");
    reveal_strlit("coin_price");
    reveal_strlit("icon_url");
    reveal_strlit("days_of_premium");
    reveal_strlit("is_enabled");
    reveal_strlit("description");
    reveal_strlit("count");
    reveal_strlit("name");
    reveal_with_fuel(crate::json::spec_obj_get, 11);
    assert("id"@.len() == 2);
    assert("subreddit_id"@.len() == 12);
    assert("coin_price"@.len() == 10);
    assert("icon_url"@.len() == 8);
    assert("days_of_premium"@.len() == 15);
    assert("is_enabled"@.len() == 10);
    assert("description"@.len() == 11);
    assert("count"@.len() == 5);
    assert("name"@.len() == 4);
    assert(("coin_price"@)[0] != ("is_enabled"@)[0]);
    assert(spec_decode_award(spec_encode_award(a)) =~~= Ok::<AwardV, DecodeErrorV>(a));
}

} // verus!
