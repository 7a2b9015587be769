//! The collapsed-comments placeholder model, wire tag `more`. It is a
//! recognized discriminant whose full-fetch behavior is intentionally left
//! open.

use vstd::prelude::*;

use crate::codec::{
    fullname_field, lemma_map_fail_fast_skip, nullable_str_field, schema_err,
    spec_fullname_field, spec_map_fail_fast, spec_nullable_str_field, spec_str_field,
    spec_u64_field, str_field, u64_field, vec_view,
};
use crate::error::{res_view, DecodeError, DecodeErrorV, Kind};
use crate::fullname::{fullname_wf, Fullname};
use crate::json::{
    arr_view, lemma_arr_view, lemma_pairs_view, obj_get, pairs_view, spec_obj_get, JsonV,
    JsonValue,
};

verus! {

broadcast use vstd::string::group_string_axioms;

/// A collapsed tail of comments: the identifiers of comments that were not
/// expanded in a thread.
#[derive(Debug, Clone)]
pub struct More {
    /// How many comments are collapsed here.
    pub count: u64,
    /// The identifier of this placeholder.
    pub name: Fullname,
    /// The bare ID of this placeholder.
    pub id: String,
    /// The identifier of the parent comment or link.
    pub parent_id: Fullname,
    /// How deep in the thread the placeholder sits.
    pub depth: u64,
    /// The bare IDs of the collapsed comments.
    pub children: Vec<String>,
    /// The cursor after this slice, if any.
    pub after: Option<String>,
    /// The cursor before this slice, if any.
    pub before: Option<String>,
}

/// The mathematical mirror of [`More`].
#[verifier::ext_equal]
pub struct MoreV {
    /// How many comments are collapsed here.
    pub count: u64,
    /// The identifier of this placeholder.
    pub name: Seq<char>,
    /// The bare ID of this placeholder.
    pub id: Seq<char>,
    /// The identifier of the parent comment or link.
    pub parent_id: Seq<char>,
    /// How deep in the thread the placeholder sits.
    pub depth: u64,
    /// The bare IDs of the collapsed comments.
    pub children: Seq<Seq<char>>,
    /// The cursor after this slice, if any.
    pub after: Option<Seq<char>>,
    /// The cursor before this slice, if any.
    pub before: Option<Seq<char>>,
}

impl View for More {
    type V = MoreV;

    open spec fn view(&self) -> MoreV {
        MoreV {
            count: self.count,
            name: self.name@,
            id: self.id@,
            parent_id: self.parent_id@,
            depth: self.depth,
            children: vec_view(self.children),
            after: match self.after {
                Some(s) => Some(s@),
                None => None,
            },
            before: match self.before {
                Some(s) => Some(s@),
                None => None,
            },
        }
    }
}

/// A placeholder payload is well formed when its identifiers are.
pub open spec fn more_wf(m: MoreV) -> bool {
    fullname_wf(m.name) && fullname_wf(m.parent_id)
}

/// How one element of the `children` array decodes: it must be a string.
pub open spec fn more_child_fn() -> spec_fn(JsonV) -> Result<Seq<char>, DecodeErrorV> {
    |j: JsonV|
        match j {
            JsonV::Str(s) => Ok(s),
            _ => Err(DecodeErrorV::SchemaMismatch { kind: Kind::More, field: "children"@ }),
        }
}

pub open spec fn spec_decode_more(pairs: Seq<(Seq<char>, JsonV)>) -> Result<
    MoreV,
    DecodeErrorV,
> {
    if spec_u64_field(pairs, "count"@) is None {
        Err(DecodeErrorV::SchemaMismatch { kind: Kind::More, field: "count"@ })
    } else if spec_fullname_field(pairs, "name"@) is None {
        Err(DecodeErrorV::SchemaMismatch { kind: Kind::More, field: "name"@ })
    } else if spec_str_field(pairs, "id"@) is None {
        Err(DecodeErrorV::SchemaMismatch { kind: Kind::More, field: "id"@ })
    } else if spec_fullname_field(pairs, "parent_id"@) is None {
        Err(DecodeErrorV::SchemaMismatch { kind: Kind::More, field: "parent_id"@ })
    } else if spec_u64_field(pairs, "depth"@) is None {
        Err(DecodeErrorV::SchemaMismatch { kind: Kind::More, field: "depth"@ })
    } else if spec_nullable_str_field(pairs, "after"@) is None {
        Err(DecodeErrorV::SchemaMismatch { kind: Kind::More, field: "after"@ })
    } else if spec_nullable_str_field(pairs, "before"@) is None {
        Err(DecodeErrorV::SchemaMismatch { kind: Kind::More, field: "before"@ })
    } else {
        match spec_obj_get(pairs, "children"@) {
            Some(JsonV::Arr(elems)) => match spec_map_fail_fast(elems, more_child_fn()) {
                Ok(children) => Ok(
                    MoreV {
                        count: spec_u64_field(pairs, "count"@)->Some_0,
                        name: spec_fullname_field(pairs, "name"@)->Some_0,
                        id: spec_str_field(pairs, "id"@)->Some_0,
                        parent_id: spec_fullname_field(pairs, "parent_id"@)->Some_0,
                        depth: spec_u64_field(pairs, "depth"@)->Some_0,
                        children,
                        after: spec_nullable_str_field(pairs, "after"@)->Some_0,
                        before: spec_nullable_str_field(pairs, "before"@)->Some_0,
                    },
                ),
                Err(e) => Err(e),
            },
            _ => Err(DecodeErrorV::SchemaMismatch { kind: Kind::More, field: "children"@ }),
        }
    }
}

pub open spec fn spec_encode_more(m: MoreV) -> Seq<(Seq<char>, JsonV)> {
    seq![
        ("count"@, JsonV::UInt(m.count)),
        ("name"@, JsonV::Str(m.name)),
        ("id"@, JsonV::Str(m.id)),
        ("parent_id"@, JsonV::Str(m.parent_id)),
        ("depth"@, JsonV::UInt(m.depth)),
        ("after"@, match m.after {
            Some(s) => JsonV::Str(s),
            None => JsonV::Null,
        }),
        ("before"@, match m.before {
            Some(s) => JsonV::Str(s),
            None => JsonV::Null,
        }),
        ("children"@, JsonV::Arr(m.children.map(|i: int, s: Seq<char>| JsonV::Str(s)))),
    ]
}

impl More {
    /// Decodes a placeholder out of the fields of an envelope's `data`
    /// object.
    #[verifier::loop_isolation(false)]
    pub fn decode(fields: &Vec<(String, JsonValue)>) -> (r: Result<More, DecodeError>)
        ensures
            res_view(r) == spec_decode_more(pairs_view(*fields, 0)),
    {
        let count = match u64_field(fields, "count") {
            Some(v) => v,
            None => return Err(schema_err(Kind::More, "count")),
        };
        let name = match fullname_field(fields, "name") {
            Some(v) => v,
            None => return Err(schema_err(Kind::More, "name")),
        };
        let id = match str_field(fields, "id") {
            Some(v) => v,
            None => return Err(schema_err(Kind::More, "id")),
        };
        let parent_id = match fullname_field(fields, "parent_id") {
            Some(v) => v,
            None => return Err(schema_err(Kind::More, "parent_id")),
        };
        let depth = match u64_field(fields, "depth") {
            Some(v) => v,
            None => return Err(schema_err(Kind::More, "depth")),
        };
        let after = match nullable_str_field(fields, "after") {
            Some(v) => v,
            None => return Err(schema_err(Kind::More, "after")),
        };
        let before = match nullable_str_field(fields, "before") {
            Some(v) => v,
            None => return Err(schema_err(Kind::More, "before")),
        };
        let elems = match obj_get(fields, "children") {
            Some(JsonValue::Arr(elems)) => elems,
            _ => return Err(schema_err(Kind::More, "children")),
        };
        let ghost es = arr_view(*elems, 0);
        let ghost cf = more_child_fn();
        proof {
            lemma_arr_view(*elems, 0);
            assert(spec_obj_get(pairs_view(*fields, 0), "children"@) == Some(JsonV::Arr(es)));
        }
        let mut children: Vec<String> = Vec::new();
        let mut i: usize = 0;
        while i < elems.len()
            invariant
                0 <= i <= elems@.len(),
                es == arr_view(*elems, 0),
                cf == more_child_fn(),
                es.len() == elems@.len(),
                forall|k: int| 0 <= k < elems@.len() ==> es[k] == crate::json::json_view(
                    elems@[k],
                ),
                forall|k: int| 0 <= k < i ==> (#[trigger] cf(es[k])) is Ok,
                vec_view(children) =~= Seq::new(i as nat, |k: int| cf(es[k])->Ok_0),
            decreases elems@.len() - i,
        {
            let ghost prev_seq = children@;
            let ghost prev_view = vec_view(children);
            proof {
                assert(prev_view.len() == i);
                assert(prev_seq.len() == i);
            }
            match &elems[i] {
                JsonValue::Str(s) => {
                    proof {
                        assert(es[i as int] == JsonV::Str(s@));
                        assert(cf(es[i as int]) == Ok::<Seq<char>, DecodeErrorV>(s@));
                    }
                    children.push(s.clone());
                    proof {
                        let target = Seq::new((i + 1) as nat, |k: int| cf(es[k])->Ok_0);
                        assert(children@ == prev_seq.push(children@[i as int]));
                        assert(children@[i as int]@ == s@);
                        assert forall|k: int| 0 <= k < i + 1 implies vec_view(children)[k]
                            == target[k] by {
                            assert(target[k] == cf(es[k])->Ok_0);
                            assert(vec_view(children)[k] == children@[k]@);
                            if k < i {
                                assert(children@[k] == prev_seq[k]);
                                assert(prev_view[k] == prev_seq[k]@);
                                assert(prev_view[k] == cf(es[k])->Ok_0);
                            }
                        }
                        assert(vec_view(children) =~= target);
                    }
                },
                _ => {
                    proof {
                        assert(!(es[i as int] is Str));
                        let e = DecodeErrorV::SchemaMismatch { kind: Kind::More, field: "children"@ };
                        assert(cf(es[i as int]) == Err::<Seq<char>, DecodeErrorV>(e));
                        lemma_map_fail_fast_skip(es, cf, i as int);
                        assert(es.skip(i as int).len() > 0);
                        assert(es.skip(i as int)[0] == es[i as int]);
                        assert(spec_map_fail_fast(es.skip(i as int), cf) == Err::<
                            Seq<Seq<char>>,
                            DecodeErrorV,
                        >(e));
                        assert(spec_map_fail_fast(es, cf) == Err::<Seq<Seq<char>>, DecodeErrorV>(
                            e,
                        ));
                        assert(spec_decode_more(pairs_view(*fields, 0)) == Err::<
                            MoreV,
                            DecodeErrorV,
                        >(e));
                    }
                    return Err(schema_err(Kind::More, "children"));
                },
            }
            i += 1;
        }
        proof {
            lemma_map_fail_fast_skip(es, cf, es.len() as int);
            assert(es.skip(es.len() as int).len() == 0);
            assert(spec_map_fail_fast(es, cf) == Ok::<Seq<Seq<char>>, DecodeErrorV>(
                Seq::new(es.len(), |k: int| cf(es[k])->Ok_0) + Seq::empty(),
            ));
            assert(Seq::new(es.len(), |k: int| cf(es[k])->Ok_0) + Seq::empty() =~= vec_view(
                children,
            ));
        }
        Ok(More { count, name, id, parent_id, depth, children, after, before })
    }

    /// Encodes the placeholder as the fields of an envelope's `data` object.
    pub fn encode(&self) -> (r: Vec<(String, JsonValue)>)
        ensures
            pairs_view(r, 0) == spec_encode_more(self@),
    {
        let mut elems: Vec<JsonValue> = Vec::new();
        let mut i: usize = 0;
        while i < self.children.len()
            invariant
                0 <= i <= self.children@.len(),
                elems@.len() == i,
                forall|k: int| 0 <= k < i ==> elems@[k] == JsonValue::Str(self.children@[k]),
            decreases self.children@.len() - i,
        {
            elems.push(JsonValue::Str(self.children[i].clone()));
            i += 1;
        }
        proof {
            lemma_arr_view(elems, 0);
            assert(arr_view(elems, 0) =~= vec_view(self.children).map(
                |i: int, s: Seq<char>| JsonV::Str(s),
            ));
        }
        let mut v: Vec<(String, JsonValue)> = Vec::new();
        v.push(("count".to_owned(), JsonValue::UInt(self.count)));
        v.push(("name".to_owned(), JsonValue::Str(self.name.as_str().to_owned())));
        v.push(("id".to_owned(), JsonValue::Str(self.id.clone())));
        v.push(("parent_id".to_owned(), JsonValue::Str(self.parent_id.as_str().to_owned())));
        v.push(("depth".to_owned(), JsonValue::UInt(self.depth)));
        v.push((
            "after".to_owned(),
            match &self.after {
                Some(s) => JsonValue::Str(s.clone()),
                None => JsonValue::Null,
            },
        ));
        v.push((
            "before".to_owned(),
            match &self.before {
                Some(s) => JsonValue::Str(s.clone()),
                None => JsonValue::Null,
            },
        ));
        v.push(("children".to_owned(), JsonValue::Arr(elems)));
        proof {
            lemma_pairs_view(v, 0);
            assert(pairs_view(v, 0) =~= spec_encode_more(self@));
        }
        v
    }
}

/// A placeholder payload decodes back from its own encoding.
pub proof fn lemma_more_round_trip(m: MoreV)
    requires
        more_wf(m),
    ensures
        spec_decode_more(spec_encode_more(m)) == Ok::<MoreV, DecodeErrorV>(m),
{
    reveal_strlit("count");
    reveal_strlit("name");
    reveal_strlit("id");
    reveal_strlit("parent_id");
    reveal_strlit("depth");
    reveal_strlit("after");
    reveal_strlit("before");
    reveal_strlit("children");
    reveal_with_fuel(crate::json::spec_obj_get, 10);
    assert("count"@.len() == 5);
    assert("name"@.len() == 4);
    assert("id"@.len() == 2);
    assert("parent_id"@.len() == 9);
    assert("depth"@.len() == 5);
    assert("after"@.len() == 5);
    assert("before"@.len() == 6);
    assert("children"@.len() == 8);
    assert(("count"@)[0] != ("depth"@)[0]);
    assert(("count"@)[0] != ("after"@)[0]);
    assert(("depth"@)[0] != ("after"@)[0]);
    let encoded = spec_encode_more(m);
    let elems = m.children.map(|i: int, s: Seq<char>| JsonV::Str(s));
    let cf = more_child_fn();
    assert(forall|k: int| 0 <= k < elems.len() ==> (#[trigger] cf(elems[k])) is Ok);
    lemma_map_fail_fast_skip(elems, cf, elems.len() as int);
    assert(elems.skip(elems.len() as int).len() == 0);
    assert(spec_map_fail_fast(elems, cf) == Ok::<Seq<Seq<char>>, DecodeErrorV>(
        Seq::new(elems.len(), |k: int| cf(elems[k])->Ok_0) + Seq::empty(),
    ));
    assert(Seq::new(elems.len(), |k: int| cf(elems[k])->Ok_0) + Seq::empty() =~= m.children);
    assert(spec_decode_more(spec_encode_more(m)) =~~= Ok::<MoreV, DecodeErrorV>(m));
}

} // verus!
