//! The submitted-link model, wire tag `t3`.

use vstd::prelude::*;

use crate::award::{spec_decode_award, spec_encode_award, Award, AwardV};
use crate::codec::{
    fullname_field, i64_field, lemma_map_fail_fast_skip, schema_err, spec_fullname_field,
    spec_i64_field, spec_map_fail_fast, spec_str_field, spec_u64_field, str_field, u64_field,
    vec_view,
};
use crate::error::{res_view, DecodeError, DecodeErrorV, Kind};
use crate::fullname::{fullname_wf, Fullname};
use crate::json::{
    arr_view, lemma_arr_view, lemma_pairs_view, obj_get, pairs_view, spec_obj_get, JsonV,
    JsonValue,
};

verus! {

broadcast use vstd::string::group_string_axioms;

/// A post submitted to a subreddit.
#[derive(Debug, Clone)]
pub struct Link {
    /// The title of the link.
    pub title: String,
    /// The username of the author who submitted the link.
    pub author: String,
    /// The score of this post.
    pub score: i64,
    /// The number of comments.
    pub num_comments: u64,
    /// The name of the subreddit it was posted in.
    pub subreddit: String,
    /// The identifier of this link.
    pub name: Fullname,
    /// All awards given to this link.
    pub all_awardings: Vec<Award>,
}

/// The mathematical mirror of [`Link`].
#[verifier::ext_equal]
pub struct LinkV {
    /// The title of the link.
    pub title: Seq<char>,
    /// The username of the author who submitted the link.
    pub author: Seq<char>,
    /// The score of this post.
    pub score: i64,
    /// The number of comments.
    pub num_comments: u64,
    /// The name of the subreddit it was posted in.
    pub subreddit: Seq<char>,
    /// The identifier of this link.
    pub name: Seq<char>,
    /// All awards given to this link.
    pub all_awardings: Seq<AwardV>,
}

impl View for Link {
    type V = LinkV;

    open spec fn view(&self) -> LinkV {
        LinkV {
            title: self.title@,
            author: self.author@,
            score: self.score,
            num_comments: self.num_comments,
            subreddit: self.subreddit@,
            name: self.name@,
            all_awardings: vec_view(self.all_awardings),
        }
    }
}

/// A link payload is well formed when its identifier is.
pub open spec fn link_wf(l: LinkV) -> bool {
    fullname_wf(l.name)
}

/// How one element of the `all_awardings` array decodes: it must be an
/// object holding an award.
pub open spec fn link_award_fn() -> spec_fn(JsonV) -> Result<AwardV, DecodeErrorV> {
    |j: JsonV|
        match j {
            JsonV::Obj(p) => spec_decode_award(p),
            _ => Err(
                DecodeErrorV::SchemaMismatch { kind: Kind::Link, field: "all_awardings"@ },
            ),
        }
}

pub open spec fn spec_decode_link(pairs: Seq<(Seq<char>, JsonV)>) -> Result<
    LinkV,
    DecodeErrorV,
> {
    if spec_str_field(pairs, "title"@) is None {
        Err(DecodeErrorV::SchemaMismatch { kind: Kind::Link, field: "title"@ })
    } else if spec_str_field(pairs, "author"@) is None {
        Err(DecodeErrorV::SchemaMismatch { kind: Kind::Link, field: "author"@ })
    } else if spec_i64_field(pairs, "score"@) is None {
        Err(DecodeErrorV::SchemaMismatch { kind: Kind::Link, field: "score"@ })
    } else if spec_u64_field(pairs, "num_comments"@) is None {
        Err(DecodeErrorV::SchemaMismatch { kind: Kind::Link, field: "num_comments"@ })
    } else if spec_str_field(pairs, "subreddit"@) is None {
        Err(DecodeErrorV::SchemaMismatch { kind: Kind::Link, field: "subreddit"@ })
    } else if spec_fullname_field(pairs, "name"@) is None {
        Err(DecodeErrorV::SchemaMismatch { kind: Kind::Link, field: "name"@ })
    } else {
        match spec_obj_get(pairs, "all_awardings"@) {
            Some(JsonV::Arr(elems)) => match spec_map_fail_fast(elems, link_award_fn()) {
                Ok(all_awardings) => Ok(
                    LinkV {
                        title: spec_str_field(pairs, "title"@)->Some_0,
                        author: spec_str_field(pairs, "author"@)->Some_0,
                        score: spec_i64_field(pairs, "score"@)->Some_0,
                        num_comments: spec_u64_field(pairs, "num_comments"@)->Some_0,
                        subreddit: spec_str_field(pairs, "subreddit"@)->Some_0,
                        name: spec_fullname_field(pairs, "name"@)->Some_0,
                        all_awardings,
                    },
                ),
                Err(e) => Err(e),
            },
            _ => Err(DecodeErrorV::SchemaMismatch { kind: Kind::Link, field: "all_awardings"@ }),
        }
    }
}

pub open spec fn spec_encode_link(l: LinkV) -> Seq<(Seq<char>, JsonV)> {
    seq![
        ("title"@, JsonV::Str(l.title)),
        ("author"@, JsonV::Str(l.author)),
        ("score"@, if l.score >= 0 {
            JsonV::UInt(l.score as u64)
        } else {
            JsonV::Int(l.score)
        }),
        ("num_comments"@, JsonV::UInt(l.num_comments)),
        ("subreddit"@, JsonV::Str(l.subreddit)),
        ("name"@, JsonV::Str(l.name)),
        ("all_awardings"@, JsonV::Arr(
            l.all_awardings.map(|i: int, a: AwardV| JsonV::Obj(spec_encode_award(a))),
        )),
    ]
}

impl Link {
    /// Decodes a link out of the fields of an envelope's `data` object.
    #[verifier::loop_isolation(false)]
    pub fn decode(fields: &Vec<(String, JsonValue)>) -> (r: Result<Link, DecodeError>)
        ensures
            res_view(r) == spec_decode_link(pairs_view(*fields, 0)),
    {
        let title = match str_field(fields, "title") {
            Some(v) => v,
            None => return Err(schema_err(Kind::Link, "title")),
        };
        let author = match str_field(fields, "author") {
            Some(v) => v,
            None => return Err(schema_err(Kind::Link, "author")),
        };
        let score = match i64_field(fields, "score") {
            Some(v) => v,
            None => return Err(schema_err(Kind::Link, "score")),
        };
        let num_comments = match u64_field(fields, "num_comments") {
            Some(v) => v,
            None => return Err(schema_err(Kind::Link, "num_comments")),
        };
        let subreddit = match str_field(fields, "subreddit") {
            Some(v) => v,
            None => return Err(schema_err(Kind::Link, "subreddit")),
        };
        let name = match fullname_field(fields, "name") {
            Some(v) => v,
            None => return Err(schema_err(Kind::Link, "name")),
        };
        let elems = match obj_get(fields, "all_awardings") {
            Some(JsonValue::Arr(elems)) => elems,
            _ => return Err(schema_err(Kind::Link, "all_awardings")),
        };
        let ghost es = arr_view(*elems, 0);
        let ghost af = link_award_fn();
        proof {
            lemma_arr_view(*elems, 0);
            assert(spec_obj_get(pairs_view(*fields, 0), "all_awardings"@) == Some(
                JsonV::Arr(es),
            ));
        }
        let mut all_awardings: Vec<Award> = Vec::new();
        let mut i: usize = 0;
        while i < elems.len()
            invariant
                0 <= i <= elems@.len(),
                forall|k: int| 0 <= k < i ==> (#[trigger] af(es[k])) is Ok,
                vec_view(all_awardings) =~= Seq::new(i as nat, |k: int| af(es[k])->Ok_0),
            decreases elems@.len() - i,
        {
            let ghost prev_seq = all_awardings@;
            let ghost prev_view = vec_view(all_awardings);
            match &elems[i] {
                JsonValue::Obj(award_fields) => {
                    proof {
                        assert(es[i as int] == JsonV::Obj(pairs_view(*award_fields, 0)));
                    }
                    match Award::decode(award_fields) {
                        Ok(a) => {
                            proof {
                                assert(af(es[i as int]) == Ok::<AwardV, DecodeErrorV>(a@));
                            }
                            all_awardings.push(a);
                            proof {
                                let target = Seq::new(
                                    (i + 1) as nat,
                                    |k: int| af(es[k])->Ok_0,
                                );
                                assert(all_awardings@ == prev_seq.push(
                                    all_awardings@[i as int],
                                ));
                                assert forall|k: int| 0 <= k < i + 1 implies vec_view(
                                    all_awardings,
                                )[k] == target[k] by {
                                    assert(target[k] == af(es[k])->Ok_0);
                                    assert(vec_view(all_awardings)[k] == all_awardings@[k]@);
                                    if k < i {
                                        assert(all_awardings@[k] == prev_seq[k]);
                                        assert(prev_view[k] == prev_seq[k]@);
                                        assert(prev_view[k] == af(es[k])->Ok_0);
                                    }
                                }
                                assert(vec_view(all_awardings) =~= target);
                            }
                        },
                        Err(e) => {
                            proof {
                                assert(af(es[i as int]) == Err::<AwardV, DecodeErrorV>(e@));
                                lemma_map_fail_fast_skip(es, af, i as int);
                                assert(es.skip(i as int).len() > 0);
                                assert(es.skip(i as int)[0] == es[i as int]);
                                assert(spec_map_fail_fast(es, af) == Err::<
                                    Seq<AwardV>,
                                    DecodeErrorV,
                                >(e@));
                            }
                            return Err(e);
                        },
                    }
                },
                _ => {
                    proof {
                        assert(!(es[i as int] is Obj));
                        let e = DecodeErrorV::SchemaMismatch {
                            kind: Kind::Link,
                            field: "all_awardings"@,
                        };
                        assert(af(es[i as int]) == Err::<AwardV, DecodeErrorV>(e));
                        lemma_map_fail_fast_skip(es, af, i as int);
                        assert(es.skip(i as int).len() > 0);
                        assert(es.skip(i as int)[0] == es[i as int]);
                        assert(spec_map_fail_fast(es, af) == Err::<Seq<AwardV>, DecodeErrorV>(e));
                    }
                    return Err(schema_err(Kind::Link, "all_awardings"));
                },
            }
            i += 1;
        }
        proof {
            lemma_map_fail_fast_skip(es, af, es.len() as int);
            assert(es.skip(es.len() as int).len() == 0);
            assert(spec_map_fail_fast(es, af) == Ok::<Seq<AwardV>, DecodeErrorV>(
                Seq::new(es.len(), |k: int| af(es[k])->Ok_0) + Seq::empty(),
            ));
            assert(Seq::new(es.len(), |k: int| af(es[k])->Ok_0) + Seq::empty() =~= vec_view(
                all_awardings,
            ));
        }
        Ok(Link { title, author, score, num_comments, subreddit, name, all_awardings })
    }

    /// Encodes the link as the fields of an envelope's `data` object.
    #[verifier::loop_isolation(false)]
    pub fn encode(&self) -> (r: Vec<(String, JsonValue)>)
        ensures
            pairs_view(r, 0) == spec_encode_link(self@),
    {
        let mut elems: Vec<JsonValue> = Vec::new();
        let mut i: usize = 0;
        while i < self.all_awardings.len()
            invariant
                0 <= i <= self.all_awardings@.len(),
                elems@.len() == i,
                forall|k: int| 0 <= k < i ==> crate::json::json_view(#[trigger] elems@[k])
                    == JsonV::Obj(spec_encode_award(self.all_awardings@[k]@)),
            decreases self.all_awardings@.len() - i,
        {
            let award_fields = self.all_awardings[i].encode();
            elems.push(JsonValue::Obj(award_fields));
            i += 1;
        }
        proof {
            lemma_arr_view(elems, 0);
            assert(arr_view(elems, 0) =~= vec_view(self.all_awardings).map(
                |i: int, a: AwardV| JsonV::Obj(spec_encode_award(a)),
            ));
        }
        let mut v: Vec<(String, JsonValue)> = Vec::new();
        v.push(("title".to_owned(), JsonValue::Str(self.title.clone())));
        v.push(("author".to_owned(), JsonValue::Str(self.author.clone())));
        v.push((
            "score".to_owned(),
            if self.score >= 0 {
                JsonValue::UInt(self.score as u64)
            } else {
                JsonValue::Int(self.score)
            },
        ));
        v.push(("num_comments".to_owned(), JsonValue::UInt(self.num_comments)));
        v.push(("subreddit".to_owned(), JsonValue::Str(self.subreddit.clone())));
        v.push(("name".to_owned(), JsonValue::Str(self.name.as_str().to_owned())));
        v.push(("all_awardings".to_owned(), JsonValue::Arr(elems)));
        proof {
            lemma_pairs_view(v, 0);
            assert(pairs_view(v, 0) =~= spec_encode_link(self@));
        }
        v
    }
}

/// A link payload decodes back from its own encoding.
pub proof fn lemma_link_round_trip(l: LinkV)
    requires
        link_wf(l),
    ensures
        spec_decode_link(spec_encode_link(l)) == Ok::<LinkV, DecodeErrorV>(l),
{
    reveal_strlit("title");
    reveal_strlit("author");
    reveal_strlit("score");
    reveal_strlit("num_comments");
    reveal_strlit("subreddit");
    reveal_strlit("name");
    reveal_strlit("all_awardings");
    reveal_with_fuel(crate::json::spec_obj_get, 9);
    assert("title"@.len() == 5);
    assert("author"@.len() == 6);
    assert("score"@.len() == 5);
    assert("num_comments"@.len() == 12);
    assert("subreddit"@.len() == 9);
    assert("name"@.len() == 4);
    assert("all_awardings"@.len() == 13);
    assert(("title"@)[0] != ("score"@)[0]);
    let elems = l.all_awardings.map(|i: int, a: AwardV| JsonV::Obj(spec_encode_award(a)));
    let af = link_award_fn();
    assert forall|k: int| 0 <= k < elems.len() implies (#[trigger] af(elems[k])) is Ok && af(
        elems[k],
    )->Ok_0 == l.all_awardings[k] by {
        crate::award::lemma_award_round_trip(l.all_awardings[k]);
    }
    lemma_map_fail_fast_skip(elems, af, elems.len() as int);
    assert(elems.skip(elems.len() as int).len() == 0);
    assert(spec_map_fail_fast(elems, af) == Ok::<Seq<AwardV>, DecodeErrorV>(
        Seq::new(elems.len(), |k: int| af(elems[k])->Ok_0) + Seq::empty(),
    ));
    assert(Seq::new(elems.len(), |k: int| af(elems[k])->Ok_0) + Seq::empty()
        =~= l.all_awardings);
    assert(spec_decode_link(spec_encode_link(l)) =~~= Ok::<LinkV, DecodeErrorV>(l));
}

} // verus!
