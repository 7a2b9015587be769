//! The compute half of the transport: turning response bodies into typed
//! results, one function per endpoint shape. The I/O half — sending the
//! requests — lives outside the library and hands the bodies in as text.

use vstd::prelude::*;

use crate::codec::vec_view;
use crate::error::{res_view, ApiError, ApiErrorV, Error, ErrorV};
use crate::json::{
    arr_view, json_of_text, lemma_arr_view, parse_json, spec_obj_get, JsonV, JsonValue,
};
use crate::link::{Link, LinkV};
use crate::listing::{spec_project_comments, spec_project_links, spec_thread_replies};
use crate::subreddit::{Subreddit, SubredditV};
use crate::thing::{
    lemma_decode_things_skip, spec_coerce_listing, spec_coerce_subreddit, spec_coerce_user,
    spec_decode_thing, spec_decode_things, thing_view, Comment, CommentV, Thing, ThingV,
};
use crate::user::{User, UserV};

verus! {

broadcast use vstd::string::group_string_axioms;

/// What a response body decodes to: not JSON, an undecodable envelope, or
/// the envelope it carries.
pub open spec fn spec_body_thing(s: Seq<char>) -> Result<ThingV, ErrorV> {
    match json_of_text(s) {
        None => Err(ErrorV::JsonSyntax),
        Some(j) => match spec_decode_thing(j) {
            Ok(t) => Ok(t),
            Err(e) => Err(ErrorV::Decode(e)),
        },
    }
}

/// Decodes a response body holding one envelope.
pub fn body_thing(s: &str) -> (r: Result<Thing, Error>)
    ensures
        res_view(r) == spec_body_thing(s@),
{
    match parse_json(s) {
        None => Err(Error::JsonSyntax),
        Some(j) => match Thing::decode(&j) {
            Ok(t) => Ok(t),
            Err(e) => Err(Error::Decode(e)),
        },
    }
}

/// What a response body holding an array of envelopes decodes to.
pub open spec fn spec_body_things(s: Seq<char>) -> Result<Seq<ThingV>, ErrorV> {
    match json_of_text(s) {
        None => Err(ErrorV::JsonSyntax),
        Some(JsonV::Arr(elems)) => match spec_decode_things(elems) {
            Ok(ts) => Ok(ts),
            Err(e) => Err(ErrorV::Decode(e)),
        },
        Some(_) => Err(ErrorV::Custom("expected an array"@)),
    }
}

/// Decodes a response body holding a top-level array of envelopes,
/// fail-fast.
#[verifier::loop_isolation(false)]
pub fn body_things(s: &str) -> (r: Result<Vec<Thing>, Error>)
    ensures
        match r {
            Ok(ts) => spec_body_things(s@) == Ok::<Seq<ThingV>, ErrorV>(vec_view(ts)),
            Err(e) => spec_body_things(s@) == Err::<Seq<ThingV>, ErrorV>(e@),
        },
{
    let j = match parse_json(s) {
        None => {
            return Err(Error::JsonSyntax);
        },
        Some(j) => j,
    };
    let elems = match j {
        JsonValue::Arr(elems) => elems,
        _ => {
            return Err(Error::Custom("expected an array".to_owned()));
        },
    };
    let ghost es = arr_view(elems, 0);
    proof {
        lemma_arr_view(elems, 0);
    }
    let mut out: Vec<Thing> = Vec::new();
    let mut i: usize = 0;
    while i < elems.len()
        invariant
            0 <= i <= elems@.len(),
            forall|k: int| 0 <= k < i ==> (#[trigger] spec_decode_thing(es[k])) is Ok,
            crate::thing::things_view(out, 0) =~= Seq::new(
                i as nat,
                |k: int| spec_decode_thing(es[k])->Ok_0,
            ),
        decreases elems@.len() - i,
    {
        let ghost prev_seq = out@;
        let ghost prev_view = crate::thing::things_view(out, 0);
        proof {
            crate::thing::lemma_things_view(out, 0);
        }
        match Thing::decode(&elems[i]) {
            Ok(t) => {
                proof {
                    assert(spec_decode_thing(es[i as int]) == Ok::<
                        ThingV,
                        crate::error::DecodeErrorV,
                    >(t@));
                }
                out.push(t);
                proof {
                    crate::thing::lemma_things_view(out, 0);
                    let target = Seq::new(
                        (i + 1) as nat,
                        |k: int| spec_decode_thing(es[k])->Ok_0,
                    );
                    assert(out@ == prev_seq.push(out@[i as int]));
                    assert forall|k: int| 0 <= k < i + 1 implies crate::thing::things_view(
                        out,
                        0,
                    )[k] == target[k] by {
                        assert(target[k] == spec_decode_thing(es[k])->Ok_0);
                        assert(crate::thing::things_view(out, 0)[k] == thing_view(out@[k]));
                        if k < i {
                            assert(out@[k] == prev_seq[k]);
                            assert(prev_view[k] == thing_view(prev_seq[k]));
                            assert(prev_view[k] == spec_decode_thing(es[k])->Ok_0);
                        }
                    }
                    assert(crate::thing::things_view(out, 0) =~= target);
                }
            },
            Err(e) => {
                proof {
                    lemma_decode_things_skip(es, i as int);
                    assert(es.skip(i as int).len() > 0);
                    assert(es.skip(i as int)[0] == es[i as int]);
                    assert(spec_decode_things(es) == Err::<
                        Seq<ThingV>,
                        crate::error::DecodeErrorV,
                    >(e@));
                }
                return Err(Error::Decode(e));
            },
        }
        i += 1;
    }
    proof {
        lemma_decode_things_skip(es, es.len() as int);
        assert(es.skip(es.len() as int).len() == 0);
        assert(spec_decode_things(es) == Ok::<Seq<ThingV>, crate::error::DecodeErrorV>(
            Seq::new(es.len(), |k: int| spec_decode_thing(es[k])->Ok_0) + Seq::empty(),
        ));
        assert(Seq::new(es.len(), |k: int| spec_decode_thing(es[k])->Ok_0) + Seq::empty()
            =~= crate::thing::things_view(out, 0));
        crate::thing::lemma_things_view(out, 0);
        assert(crate::thing::things_view(out, 0) =~= vec_view(out));
    }
    Ok(out)
}

/// What the user-about endpoint's body means.
pub open spec fn spec_user_from_body(s: Seq<char>) -> Result<UserV, ErrorV> {
    match spec_body_thing(s) {
        Err(e) => Err(e),
        Ok(t) => match spec_coerce_user(t) {
            Err(m) => Err(ErrorV::Convert(m)),
            Ok(u) => Ok(u),
        },
    }
}

/// Reads the user the user-about endpoint answered with.
pub fn user_from_body(s: &str) -> (r: Result<User, Error>)
    ensures
        res_view(r) == spec_user_from_body(s@),
{
    match body_thing(s) {
        Err(e) => Err(e),
        Ok(t) => match t.into_user() {
            Err(m) => Err(Error::Convert(m)),
            Ok(u) => Ok(u),
        },
    }
}

/// What the subreddit-about endpoint's body means.
pub open spec fn spec_subreddit_from_body(s: Seq<char>) -> Result<SubredditV, ErrorV> {
    match spec_body_thing(s) {
        Err(e) => Err(e),
        Ok(t) => match spec_coerce_subreddit(t) {
            Err(m) => Err(ErrorV::Convert(m)),
            Ok(u) => Ok(u),
        },
    }
}

/// Reads the subreddit the subreddit-about endpoint answered with.
pub fn subreddit_from_body(s: &str) -> (r: Result<Subreddit, Error>)
    ensures
        res_view(r) == spec_subreddit_from_body(s@),
{
    match body_thing(s) {
        Err(e) => Err(e),
        Ok(t) => match t.into_subreddit() {
            Err(m) => Err(Error::Convert(m)),
            Ok(u) => Ok(u),
        },
    }
}

/// What the info endpoint's body means when one comment is asked for: a
/// listing of comments, whose first element is the answer.
pub open spec fn spec_comment_from_body(s: Seq<char>) -> Result<CommentV, ErrorV> {
    match spec_body_thing(s) {
        Err(e) => Err(e),
        Ok(t) => match spec_coerce_listing(t) {
            Err(m) => Err(ErrorV::Convert(m)),
            Ok(l) => match spec_project_comments(l.children) {
                Err(m) => Err(ErrorV::Convert(m)),
                Ok(cs) => if cs.len() == 0 {
                    Err(ErrorV::Custom("empty listing"@))
                } else {
                    Ok(cs[0])
                },
            },
        },
    }
}

/// Reads the first comment of the listing the info endpoint answered with.
pub fn comment_from_body(s: &str) -> (r: Result<Comment, Error>)
    ensures
        res_view(r) == spec_comment_from_body(s@),
{
    let t = match body_thing(s) {
        Err(e) => {
            return Err(e);
        },
        Ok(t) => t,
    };
    let l = match t.into_listing() {
        Err(m) => {
            return Err(Error::Convert(m));
        },
        Ok(l) => l,
    };
    let mut cs = match l.into_comments() {
        Err(m) => {
            return Err(Error::Convert(m));
        },
        Ok(cs) => cs,
    };
    if cs.len() == 0 {
        return Err(Error::Custom("empty listing".to_owned()));
    }
    Ok(cs.remove(0))
}

/// What the info endpoint's body means when one link is asked for.
pub open spec fn spec_link_from_body(s: Seq<char>) -> Result<LinkV, ErrorV> {
    match spec_body_thing(s) {
        Err(e) => Err(e),
        Ok(t) => match spec_coerce_listing(t) {
            Err(m) => Err(ErrorV::Convert(m)),
            Ok(l) => match spec_project_links(l.children) {
                Err(m) => Err(ErrorV::Convert(m)),
                Ok(ls) => if ls.len() == 0 {
                    Err(ErrorV::Custom("empty listing"@))
                } else {
                    Ok(ls[0])
                },
            },
        },
    }
}

/// Reads the first link of the listing the info endpoint answered with.
pub fn link_from_body(s: &str) -> (r: Result<Link, Error>)
    ensures
        res_view(r) == spec_link_from_body(s@),
{
    let t = match body_thing(s) {
        Err(e) => {
            return Err(e);
        },
        Ok(t) => t,
    };
    let l = match t.into_listing() {
        Err(m) => {
            return Err(Error::Convert(m));
        },
        Ok(l) => l,
    };
    let mut ls = match l.into_links() {
        Err(m) => {
            return Err(Error::Convert(m));
        },
        Ok(ls) => ls,
    };
    if ls.len() == 0 {
        return Err(Error::Custom("empty listing".to_owned()));
    }
    Ok(ls.remove(0))
}

/// What a posts-listing body means: every child a link, in server order.
pub open spec fn spec_posts_from_body(s: Seq<char>) -> Result<Seq<LinkV>, ErrorV> {
    match spec_body_thing(s) {
        Err(e) => Err(e),
        Ok(t) => match spec_coerce_listing(t) {
            Err(m) => Err(ErrorV::Convert(m)),
            Ok(l) => match spec_project_links(l.children) {
                Err(m) => Err(ErrorV::Convert(m)),
                Ok(ls) => Ok(ls),
            },
        },
    }
}

/// Reads the links of the listing a posts endpoint answered with.
pub fn posts_from_body(s: &str) -> (r: Result<Vec<Link>, Error>)
    ensures
        match r {
            Ok(ls) => spec_posts_from_body(s@) == Ok::<Seq<LinkV>, ErrorV>(vec_view(ls)),
            Err(e) => spec_posts_from_body(s@) == Err::<Seq<LinkV>, ErrorV>(e@),
        },
{
    let t = match body_thing(s) {
        Err(e) => {
            return Err(e);
        },
        Ok(t) => t,
    };
    let l = match t.into_listing() {
        Err(m) => {
            return Err(Error::Convert(m));
        },
        Ok(l) => l,
    };
    match l.into_links() {
        Err(m) => Err(Error::Convert(m)),
        Ok(ls) => Ok(ls),
    }
}

/// What the username-availability endpoint's body means: a bare boolean.
pub open spec fn spec_available_from_body(s: Seq<char>) -> Result<bool, ErrorV> {
    match json_of_text(s) {
        None => Err(ErrorV::JsonSyntax),
        Some(JsonV::Bool(b)) => Ok(b),
        Some(_) => Err(ErrorV::Custom("expected a boolean"@)),
    }
}

/// Reads the username-availability endpoint's boolean answer.
pub fn available_from_body(s: &str) -> (r: Result<bool, Error>)
    ensures
        match r {
            Ok(b) => spec_available_from_body(s@) == Ok::<bool, ErrorV>(b),
            Err(e) => spec_available_from_body(s@) == Err::<bool, ErrorV>(e@),
        },
{
    match parse_json(s) {
        None => Err(Error::JsonSyntax),
        Some(JsonValue::Bool(b)) => Ok(b),
        Some(_) => Err(Error::Custom("expected a boolean".to_owned())),
    }
}

/// What the comment-thread endpoint's body means: its two envelopes,
/// handed to the reply-tree extraction.
pub open spec fn spec_replies_from_body(s: Seq<char>) -> Result<Option<Seq<CommentV>>, ErrorV> {
    match spec_body_things(s) {
        Err(e) => Err(e),
        Ok(ts) => spec_thread_replies(ts),
    }
}

/// Reads the direct replies of a thread's root comment out of the
/// comment-thread endpoint's body; an absent reply tree is an explicit
/// "no replies".
pub fn replies_from_body(s: &str) -> (r: Result<Option<Vec<Comment>>, Error>)
    ensures
        match r {
            Ok(Some(cs)) => spec_replies_from_body(s@) == Ok::<Option<Seq<CommentV>>, ErrorV>(
                Some(vec_view(cs)),
            ),
            Ok(None) => spec_replies_from_body(s@) == Ok::<Option<Seq<CommentV>>, ErrorV>(None),
            Err(e) => spec_replies_from_body(s@) == Err::<Option<Seq<CommentV>>, ErrorV>(e@),
        },
{
    match body_things(s) {
        Err(e) => Err(e),
        Ok(ts) => crate::listing::thread_replies(ts),
    }
}

/// What the comment-submission endpoint's body means: under `json`, an
/// `errors` array; empty is success, else the first entry's leading string
/// names the provider's error. The endpoint reports no numeric code, so
/// the code is zero.
pub open spec fn spec_submit_check(s: Seq<char>) -> Result<(), ErrorV> {
    match json_of_text(s) {
        None => Err(ErrorV::JsonSyntax),
        Some(JsonV::Obj(pairs)) => match spec_obj_get(pairs, "json"@) {
            Some(JsonV::Obj(jp)) => match spec_obj_get(jp, "errors"@) {
                Some(JsonV::Arr(errs)) => if errs.len() == 0 {
                    Ok(())
                } else {
                    Err(
                        ErrorV::Api(
                            ApiErrorV { code: 0, message: spec_first_error_text(errs) },
                        ),
                    )
                },
                _ => Err(ErrorV::Custom("malformed submit response"@)),
            },
            _ => Err(ErrorV::Custom("malformed submit response"@)),
        },
        Some(_) => Err(ErrorV::Custom("malformed submit response"@)),
    }
}

/// The leading string of the first error entry, or nothing readable.
pub open spec fn spec_first_error_text(errs: Seq<JsonV>) -> Seq<char> {
    match errs[0] {
        JsonV::Arr(parts) => if parts.len() > 0 && parts[0] is Str {
            parts[0]->Str_0
        } else {
            Seq::empty()
        },
        _ => Seq::empty(),
    }
}

/// Checks the comment-submission endpoint's answer: success exactly when
/// its `errors` array is empty, else the provider's error.
pub fn submit_check(s: &str) -> (r: Result<(), Error>)
    ensures
        match r {
            Ok(_) => spec_submit_check(s@) == Ok::<(), ErrorV>(()),
            Err(e) => spec_submit_check(s@) == Err::<(), ErrorV>(e@),
        },
{
    let j = match parse_json(s) {
        None => {
            return Err(Error::JsonSyntax);
        },
        Some(j) => j,
    };
    let fields = match &j {
        JsonValue::Obj(fields) => fields,
        _ => {
            return Err(Error::Custom("malformed submit response".to_owned()));
        },
    };
    let jp = match crate::json::obj_get(fields, "json") {
        Some(JsonValue::Obj(jp)) => jp,
        _ => {
            return Err(Error::Custom("malformed submit response".to_owned()));
        },
    };
    let errs = match crate::json::obj_get(jp, "errors") {
        Some(JsonValue::Arr(errs)) => errs,
        _ => {
            return Err(Error::Custom("malformed submit response".to_owned()));
        },
    };
    if errs.len() == 0 {
        return Ok(());
    }
    proof {
        lemma_arr_view(*errs, 0);
    }
    let message: String = match &errs[0] {
        JsonValue::Arr(parts) => {
            proof {
                lemma_arr_view(*parts, 0);
            }
            if parts.len() > 0 {
                match &parts[0] {
                    JsonValue::Str(m) => m.clone(),
                    _ => String::new(),
                }
            } else {
                String::new()
            }
        },
        _ => String::new(),
    };
    Err(Error::Api(ApiError { code: 0, message }))
}

} // verus!
