//! The two-part identifier `<prefix>_<id36>` that entities use to reference
//! one another.

use vstd::prelude::*;

verus! {

/// What a well-formed identifier looks like: a kind prefix `t1` through
/// `t6`, one underscore, and an id36 tail free of underscores.
pub open spec fn fullname_wf(s: Seq<char>) -> bool {
    &&& s.len() >= 3
    &&& s[0] == 't'
    &&& '1' <= s[1] <= '6'
    &&& s[2] == '_'
    &&& forall|j: int| 3 <= j < s.len() ==> s[j] != '_'
}

/// The unique identifier of a thing, including its type prefix, such as
/// `t3_abc123`.
#[derive(Debug, Clone)]
pub struct Fullname {
    s: String,
}

impl View for Fullname {
    type V = Seq<char>;

    closed spec fn view(&self) -> Seq<char> {
        self.s@
    }
}

impl PartialEq for Fullname {
    fn eq(&self, other: &Fullname) -> (r: bool) {
        self.s == other.s
    }
}

impl vstd::std_specs::cmp::PartialEqSpecImpl for Fullname {
    open spec fn obeys_eq_spec() -> bool {
        true
    }

    open spec fn eq_spec(&self, other: &Fullname) -> bool {
        self@ == other@
    }
}

/// Whether a string is a well-formed identifier.
pub fn fullname_check(s: &str) -> (r: bool)
    ensures
        r == fullname_wf(s@),
{
    let n = s.unicode_len();
    if n < 3 {
        return false;
    }
    if s.get_char(0) != 't' {
        return false;
    }
    let d = s.get_char(1);
    if !('1' <= d && d <= '6') {
        return false;
    }
    if s.get_char(2) != '_' {
        return false;
    }
    let mut j: usize = 3;
    while j < n
        invariant
            3 <= j <= n,
            n == s@.len(),
            forall|k: int| 3 <= k < j ==> s@[k] != '_',
        decreases n - j,
    {
        if s.get_char(j) == '_' {
            return false;
        }
        j += 1;
    }
    true
}

impl Fullname {
    /// Wraps a well-formed identifier string.
    pub fn new(s: String) -> (r: Fullname)
        requires
            fullname_wf(s@),
        ensures
            r@ == s@,
    {
        Fullname { s }
    }

    /// The identifier as a string slice.
    pub fn as_str(&self) -> (r: &str)
        ensures
            r@ == self@,
    {
        self.s.as_str()
    }

    /// The type prefix, `t1` through `t6`.
    pub fn prefix(&self) -> (r: String)
        requires
            fullname_wf(self@),
        ensures
            r@ == self@.subrange(0, 2),
    {
        self.s.as_str().substring_char(0, 2).to_owned()
    }

    /// The id36 portion, after the underscore.
    pub fn name(&self) -> (r: String)
        requires
            fullname_wf(self@),
        ensures
            r@ == self@.subrange(3, self@.len() as int),
    {
        let n = self.s.as_str().unicode_len();
        self.s.as_str().substring_char(3, n).to_owned()
    }
}

} // verus!
