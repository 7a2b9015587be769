//! The collection converter: projecting a listing's children into one
//! payload type, fail-fast, and extracting the reply tree of a comment
//! thread.

use vstd::prelude::*;

use crate::codec::{lemma_map_fail_fast_skip, spec_map_fail_fast, vec_view};
use crate::error::{Error, ErrorV, TypeMismatch};
use crate::link::{Link, LinkV};
use crate::thing::{
    spec_coerce_comment, spec_coerce_link, spec_coerce_listing, thing_view, Comment, CommentV,
    Listing, Thing, ThingV,
};

verus! {

/// Coercion of one child to a comment, as a function value.
pub open spec fn comment_coerce_fn() -> spec_fn(ThingV) -> Result<CommentV, TypeMismatch> {
    |t: ThingV| spec_coerce_comment(t)
}

/// Coercion of one child to a link, as a function value.
pub open spec fn link_coerce_fn() -> spec_fn(ThingV) -> Result<LinkV, TypeMismatch> {
    |t: ThingV| spec_coerce_link(t)
}

/// Projection of a listing's children to comments: every child must be a
/// comment, else the first mismatch aborts the whole projection.
pub open spec fn spec_project_comments(children: Seq<ThingV>) -> Result<
    Seq<CommentV>,
    TypeMismatch,
> {
    spec_map_fail_fast(children, comment_coerce_fn())
}

/// Projection of a listing's children to links, fail-fast as well.
pub open spec fn spec_project_links(children: Seq<ThingV>) -> Result<Seq<LinkV>, TypeMismatch> {
    spec_map_fail_fast(children, link_coerce_fn())
}

impl Listing {
    /// Projects every child to a comment, in order, fail-fast: the first
    /// child of another kind aborts with its mismatch, and no comments are
    /// handed back.
    #[verifier::loop_isolation(false)]
    pub fn into_comments(self) -> (r: Result<Vec<Comment>, TypeMismatch>)
        ensures
            match r {
                Ok(cs) => spec_project_comments(self@.children) == Ok::<
                    Seq<CommentV>,
                    TypeMismatch,
                >(vec_view(cs)),
                Err(e) => spec_project_comments(self@.children) == Err::<
                    Seq<CommentV>,
                    TypeMismatch,
                >(e),
            },
    {
        let ghost cs0 = self@.children;
        let ghost cf = comment_coerce_fn();
        let mut children = self.children;
        proof {
            crate::thing::lemma_things_view(children, 0);
        }
        let mut out: Vec<Comment> = Vec::new();
        let ghost mut i: int = 0;
        while children.len() > 0
            invariant
                0 <= i,
                i + children@.len() == cs0.len(),
                forall|k: int| 0 <= k < children@.len() ==> thing_view(#[trigger] children@[k])
                    == cs0[i + k],
                forall|k: int| 0 <= k < i ==> (#[trigger] cf(cs0[k])) is Ok,
                vec_view(out) =~= Seq::new(i as nat, |k: int| cf(cs0[k])->Ok_0),
            decreases children@.len(),
        {
            let ghost prev_out = out@;
            let ghost prev_view = vec_view(out);
            let t = children.remove(0);
            proof {
                assert(thing_view(t) == cs0[i]);
            }
            match t.into_comment() {
                Ok(c) => {
                    proof {
                        assert(cf(cs0[i]) == Ok::<CommentV, TypeMismatch>(c@));
                    }
                    out.push(c);
                    proof {
                        let target = Seq::new((i + 1) as nat, |k: int| cf(cs0[k])->Ok_0);
                        assert(out@ == prev_out.push(out@[i]));
                        assert forall|k: int| 0 <= k < i + 1 implies vec_view(out)[k]
                            == target[k] by {
                            assert(target[k] == cf(cs0[k])->Ok_0);
                            assert(vec_view(out)[k] == out@[k]@);
                            if k < i {
                                assert(out@[k] == prev_out[k]);
                                assert(prev_view[k] == prev_out[k]@);
                                assert(prev_view[k] == cf(cs0[k])->Ok_0);
                            }
                        }
                        assert(vec_view(out) =~= target);
                    }
                },
                Err(e) => {
                    proof {
                        assert(cf(cs0[i]) == Err::<CommentV, TypeMismatch>(e));
                        lemma_map_fail_fast_skip(cs0, cf, i);
                        assert(cs0.skip(i).len() > 0);
                        assert(cs0.skip(i)[0] == cs0[i]);
                        assert(spec_map_fail_fast(cs0, cf) == Err::<Seq<CommentV>, TypeMismatch>(
                            e,
                        ));
                    }
                    return Err(e);
                },
            }
            proof {
                i = i + 1;
            }
        }
        proof {
            lemma_map_fail_fast_skip(cs0, cf, i);
            assert(cs0.skip(i).len() == 0);
            assert(spec_map_fail_fast(cs0, cf) == Ok::<Seq<CommentV>, TypeMismatch>(
                Seq::new(i as nat, |k: int| cf(cs0[k])->Ok_0) + Seq::empty(),
            ));
            assert(Seq::new(i as nat, |k: int| cf(cs0[k])->Ok_0) + Seq::empty() =~= vec_view(
                out,
            ));
        }
        Ok(out)
    }

    /// Projects every child to a link, in order, fail-fast.
    #[verifier::loop_isolation(false)]
    pub fn into_links(self) -> (r: Result<Vec<Link>, TypeMismatch>)
        ensures
            match r {
                Ok(ls) => spec_project_links(self@.children) == Ok::<Seq<LinkV>, TypeMismatch>(
                    vec_view(ls),
                ),
                Err(e) => spec_project_links(self@.children) == Err::<Seq<LinkV>, TypeMismatch>(
                    e,
                ),
            },
    {
        let ghost cs0 = self@.children;
        let ghost cf = link_coerce_fn();
        let mut children = self.children;
        proof {
            crate::thing::lemma_things_view(children, 0);
        }
        let mut out: Vec<Link> = Vec::new();
        let ghost mut i: int = 0;
        while children.len() > 0
            invariant
                0 <= i,
                i + children@.len() == cs0.len(),
                forall|k: int| 0 <= k < children@.len() ==> thing_view(#[trigger] children@[k])
                    == cs0[i + k],
                forall|k: int| 0 <= k < i ==> (#[trigger] cf(cs0[k])) is Ok,
                vec_view(out) =~= Seq::new(i as nat, |k: int| cf(cs0[k])->Ok_0),
            decreases children@.len(),
        {
            let ghost prev_out = out@;
            let ghost prev_view = vec_view(out);
            let t = children.remove(0);
            proof {
                assert(thing_view(t) == cs0[i]);
            }
            match t.into_link() {
                Ok(l) => {
                    proof {
                        assert(cf(cs0[i]) == Ok::<LinkV, TypeMismatch>(l@));
                    }
                    out.push(l);
                    proof {
                        let target = Seq::new((i + 1) as nat, |k: int| cf(cs0[k])->Ok_0);
                        assert(out@ == prev_out.push(out@[i]));
                        assert forall|k: int| 0 <= k < i + 1 implies vec_view(out)[k]
                            == target[k] by {
                            assert(target[k] == cf(cs0[k])->Ok_0);
                            assert(vec_view(out)[k] == out@[k]@);
                            if k < i {
                                assert(out@[k] == prev_out[k]);
                                assert(prev_view[k] == prev_out[k]@);
                                assert(prev_view[k] == cf(cs0[k])->Ok_0);
                            }
                        }
                        assert(vec_view(out) =~= target);
                    }
                },
                Err(e) => {
                    proof {
                        assert(cf(cs0[i]) == Err::<LinkV, TypeMismatch>(e));
                        lemma_map_fail_fast_skip(cs0, cf, i);
                        assert(cs0.skip(i).len() > 0);
                        assert(cs0.skip(i)[0] == cs0[i]);
                        assert(spec_map_fail_fast(cs0, cf) == Err::<Seq<LinkV>, TypeMismatch>(
                            e,
                        ));
                    }
                    return Err(e);
                },
            }
            proof {
                i = i + 1;
            }
        }
        proof {
            lemma_map_fail_fast_skip(cs0, cf, i);
            assert(cs0.skip(i).len() == 0);
            assert(spec_map_fail_fast(cs0, cf) == Ok::<Seq<LinkV>, TypeMismatch>(
                Seq::new(i as nat, |k: int| cf(cs0[k])->Ok_0) + Seq::empty(),
            ));
            assert(Seq::new(i as nat, |k: int| cf(cs0[k])->Ok_0) + Seq::empty() =~= vec_view(
                out,
            ));
        }
        Ok(out)
    }
}

impl Comment {
    /// Whether this comment has a real parent comment: a top-level
    /// comment's parent is its subreddit, which marks "no parent".
    pub fn has_parent(&self) -> (r: bool)
        ensures
            r == (self@.parent_id != self@.subreddit_id),
    {
        !(self.parent_id == self.subreddit_id)
    }

    /// Projects the replies carried inside this comment, if any: the nested
    /// envelope must be a listing of comments. An absent `replies` field is
    /// an explicit "no replies", not an error.
    pub fn local_replies(self) -> (r: Result<Option<Vec<Comment>>, TypeMismatch>)
        ensures
            match r {
                Ok(Some(cs)) => spec_local_replies(self@) == Ok::<
                    Option<Seq<CommentV>>,
                    TypeMismatch,
                >(Some(vec_view(cs))),
                Ok(None) => spec_local_replies(self@) == Ok::<
                    Option<Seq<CommentV>>,
                    TypeMismatch,
                >(None),
                Err(e) => spec_local_replies(self@) == Err::<
                    Option<Seq<CommentV>>,
                    TypeMismatch,
                >(e),
            },
    {
        match self.replies {
            None => Ok(None),
            Some(b) => match (*b).into_listing() {
                Err(e) => Err(e),
                Ok(l) => match l.into_comments() {
                    Err(e) => Err(e),
                    Ok(cs) => Ok(Some(cs)),
                },
            },
        }
    }
}

/// What projecting a comment's own replies yields: nothing where the field
/// was absent, else the nested listing's children as comments.
pub open spec fn spec_local_replies(c: CommentV) -> Result<Option<Seq<CommentV>>, TypeMismatch> {
    match c.replies {
        None => Ok(None),
        Some(b) => match spec_coerce_listing(*b) {
            Err(e) => Err(e),
            Ok(l) => match spec_project_comments(l.children) {
                Err(e) => Err(e),
                Ok(cs) => Ok(Some(cs)),
            },
        },
    }
}

/// What extracting the reply tree from a comment-thread response yields:
/// of the two envelopes the endpoint returns, the second is the root
/// comment listing; its first comment's replies, projected to comments, are
/// the result, and an absent reply tree is an explicit "no replies".
pub open spec fn spec_thread_replies(things: Seq<ThingV>) -> Result<
    Option<Seq<CommentV>>,
    ErrorV,
> {
    if things.len() < 2 {
        Err(ErrorV::Custom("expected two listings"@))
    } else {
        match spec_coerce_listing(things[1]) {
            Err(m) => Err(ErrorV::Convert(m)),
            Ok(l) => match spec_project_comments(l.children) {
                Err(m) => Err(ErrorV::Convert(m)),
                Ok(cs) => if cs.len() == 0 {
                    Err(ErrorV::Custom("no comments"@))
                } else {
                    match spec_local_replies(cs[0]) {
                        Err(m) => Err(ErrorV::Convert(m)),
                        Ok(rs) => Ok(rs),
                    }
                },
            },
        }
    }
}

/// Extracts the reply tree from the two-envelope response of a
/// comment-thread endpoint: selects the second envelope, projects it to
/// comments, takes the first, and projects its nested replies.
pub fn thread_replies(things: Vec<Thing>) -> (r: Result<Option<Vec<Comment>>, Error>)
    ensures
        match r {
            Ok(Some(cs)) => spec_thread_replies(vec_view(things)) == Ok::<
                Option<Seq<CommentV>>,
                ErrorV,
            >(Some(vec_view(cs))),
            Ok(None) => spec_thread_replies(vec_view(things)) == Ok::<
                Option<Seq<CommentV>>,
                ErrorV,
            >(None),
            Err(e) => spec_thread_replies(vec_view(things)) == Err::<
                Option<Seq<CommentV>>,
                ErrorV,
            >(e@),
        },
{
    let ghost ts0 = vec_view(things);
    let mut ts = things;
    if ts.len() < 2 {
        return Err(Error::Custom("expected two listings".to_owned()));
    }
    let second = ts.remove(1);
    proof {
        assert(second@ == ts0[1]);
    }
    let listing = match second.into_listing() {
        Err(m) => {
            return Err(Error::Convert(m));
        },
        Ok(l) => l,
    };
    let mut comments = match listing.into_comments() {
        Err(m) => {
            return Err(Error::Convert(m));
        },
        Ok(cs) => cs,
    };
    if comments.len() == 0 {
        return Err(Error::Custom("no comments".to_owned()));
    }
    let first = comments.remove(0);
    match first.local_replies() {
        Err(m) => Err(Error::Convert(m)),
        Ok(rs) => Ok(rs),
    }
}


/// Fail-fast, stated in full: where the first `i` children are comments
/// and the next one is not, the projection yields exactly that child's
/// mismatch — no comments, not even the matching prefix.
pub proof fn lemma_projection_fail_fast(children: Seq<ThingV>, i: int)
    requires
        0 <= i < children.len(),
        forall|k: int| 0 <= k < i ==> (#[trigger] children[k]) is Comment,
        !(children[i] is Comment),
    ensures
        spec_project_comments(children) == Err::<Seq<CommentV>, TypeMismatch>(
            TypeMismatch {
                expected: crate::error::Kind::Comment,
                actual: crate::thing::spec_thing_kind(children[i]),
            },
        ),
{
    let cf = comment_coerce_fn();
    assert forall|k: int| 0 <= k < i implies (#[trigger] cf(children[k])) is Ok by {
        assert(children[k] is Comment);
    }
    lemma_map_fail_fast_skip(children, cf, i);
    assert(children.skip(i).len() > 0);
    assert(children.skip(i)[0] == children[i]);
    assert(cf(children[i]) == Err::<CommentV, TypeMismatch>(
        TypeMismatch {
            expected: crate::error::Kind::Comment,
            actual: crate::thing::spec_thing_kind(children[i]),
        },
    ));
}

/// The projection in full where every child is a comment: exactly those
/// payloads, in order.
pub proof fn lemma_projection_total(children: Seq<ThingV>)
    requires
        forall|k: int| 0 <= k < children.len() ==> (#[trigger] children[k]) is Comment,
    ensures
        spec_project_comments(children) == Ok::<Seq<CommentV>, TypeMismatch>(
            Seq::new(children.len(), |k: int| children[k]->Comment_0),
        ),
{
    let cf = comment_coerce_fn();
    assert forall|k: int| 0 <= k < children.len() implies (#[trigger] cf(children[k])) is Ok
        && cf(children[k])->Ok_0 == children[k]->Comment_0 by {
        assert(children[k] is Comment);
    }
    lemma_map_fail_fast_skip(children, cf, children.len() as int);
    assert(children.skip(children.len() as int).len() == 0);
    assert(spec_map_fail_fast(children, cf) == Ok::<Seq<CommentV>, TypeMismatch>(
        Seq::new(children.len(), |k: int| cf(children[k])->Ok_0) + Seq::empty(),
    ));
    assert(Seq::new(children.len(), |k: int| cf(children[k])->Ok_0) + Seq::empty() =~= Seq::new(
        children.len(),
        |k: int| children[k]->Comment_0,
    ));
}

} // verus!
