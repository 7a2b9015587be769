//! The rate-limit logic: reading the three quota headers and deciding
//! whether, and for how long, a call must pause.

use vstd::prelude::*;

use crate::error::{Error, ErrorV};

verus! {

broadcast use vstd::string::group_string_axioms;

/// Whether every character of `s` is a decimal digit.
pub open spec fn is_dec_digits(s: Seq<char>) -> bool {
    forall|i: int| 0 <= i < s.len() ==> '0' <= #[trigger] s[i] <= '9'
}

/// The number a string of decimal digits denotes, most significant first.
pub open spec fn dec_val(s: Seq<char>) -> int
    decreases s.len(),
{
    if s.len() == 0 {
        0
    } else {
        dec_val(s.drop_last()) * 10 + (s.last() as int - '0' as int)
    }
}

proof fn lemma_dec_val_take_step(s: Seq<char>, i: int)
    requires
        0 <= i < s.len(),
    ensures
        dec_val(s.take(i + 1)) == dec_val(s.take(i)) * 10 + (s[i] as int - '0' as int),
{
    assert(s.take(i + 1).drop_last() =~= s.take(i));
    assert(s.take(i + 1).last() == s[i]);
}

proof fn lemma_dec_val_nonneg(s: Seq<char>)
    requires
        is_dec_digits(s),
    ensures
        dec_val(s) >= 0,
    decreases s.len(),
{
    if s.len() > 0 {
        assert(is_dec_digits(s.drop_last()));
        lemma_dec_val_nonneg(s.drop_last());
    }
}

proof fn lemma_dec_val_take_monotone(s: Seq<char>, i: int)
    requires
        0 <= i <= s.len(),
        is_dec_digits(s),
    ensures
        dec_val(s.take(i)) <= dec_val(s),
    decreases s.len() - i,
{
    if i == s.len() {
        assert(s.take(i) =~= s);
    } else {
        assert(is_dec_digits(s.take(i)));
        lemma_dec_val_nonneg(s.take(i));
        lemma_dec_val_take_step(s, i);
        lemma_dec_val_take_monotone(s, i + 1);
    }
}

/// Whether the string is all decimal digits.
pub fn dec_digits_check(s: &str) -> (r: bool)
    ensures
        r == is_dec_digits(s@),
{
    let n = s.unicode_len();
    let mut i: usize = 0;
    while i < n
        invariant
            0 <= i <= n,
            n == s@.len(),
            forall|k: int| 0 <= k < i ==> '0' <= #[trigger] s@[k] <= '9',
        decreases n - i,
    {
        let c = s.get_char(i);
        if !('0' <= c && c <= '9') {
            return false;
        }
        i += 1;
    }
    true
}

/// Parses a decimal number: succeeds exactly on a non-empty all-digit
/// string whose value fits in `u64`.
#[verifier::loop_isolation(false)]
pub fn parse_u64_dec(s: &str) -> (r: Option<u64>)
    ensures
        r is Some <==> (s@.len() > 0 && is_dec_digits(s@) && dec_val(s@) <= u64::MAX),
        r is Some ==> r->Some_0 == dec_val(s@),
{
    let n = s.unicode_len();
    if n == 0 {
        return None;
    }
    let mut acc: u64 = 0;
    let mut i: usize = 0;
    while i < n
        invariant
            0 <= i <= n,
            forall|k: int| 0 <= k < i ==> '0' <= #[trigger] s@[k] <= '9',
            acc == dec_val(s@.take(i as int)),
        decreases n - i,
    {
        let c = s.get_char(i);
        if !('0' <= c && c <= '9') {
            return None;
        }
        let d: u64 = (c as u32 as u64) - ('0' as u32 as u64);
        proof {
            assert(d == c as int - '0' as int);
        }
        let next = match acc.checked_mul(10) {
            Some(m) => match m.checked_add(d) {
                Some(a) => a,
                None => {
                    proof {
                        lemma_dec_val_take_step(s@, i as int);
                        assert(dec_val(s@.take(i + 1)) > u64::MAX);
                        if is_dec_digits(s@) {
                            lemma_dec_val_take_monotone(s@, i + 1);
                        }
                    }
                    return None;
                },
            },
            None => {
                proof {
                    lemma_dec_val_take_step(s@, i as int);
                    assert(dec_val(s@.take(i + 1)) > u64::MAX);
                    if is_dec_digits(s@) {
                        lemma_dec_val_take_monotone(s@, i + 1);
                    }
                }
                return None;
            },
        };
        proof {
            lemma_dec_val_take_step(s@, i as int);
        }
        acc = next;
        i += 1;
    }
    proof {
        assert(s@.take(n as int) =~= s@);
    }
    Some(acc)
}

/// The first index of a dot in `s`, or its length where there is none.
pub open spec fn first_dot(s: Seq<char>) -> int
    decreases s.len(),
{
    if s.len() == 0 {
        0
    } else if s[0] == '.' {
        0
    } else {
        1 + first_dot(s.drop_first())
    }
}

proof fn lemma_first_dot(s: Seq<char>)
    ensures
        0 <= first_dot(s) <= s.len(),
        forall|k: int| 0 <= k < first_dot(s) ==> #[trigger] s[k] != '.',
        first_dot(s) < s.len() ==> s[first_dot(s)] == '.',
    decreases s.len(),
{
    if s.len() > 0 && s[0] != '.' {
        lemma_first_dot(s.drop_first());
        assert forall|k: int| 0 <= k < first_dot(s) implies #[trigger] s[k] != '.' by {
            if k > 0 {
                assert(s.drop_first()[k - 1] == s[k]);
            }
        }
        if first_dot(s) < s.len() {
            assert(s.drop_first()[first_dot(s) - 1] == s[first_dot(s)]);
        }
    }
}

/// The whole part of a decimal quota value `digits` or `digits.digits`,
/// where both digit runs are non-empty and the whole part fits in `u64`.
pub open spec fn spec_remaining_whole(s: Seq<char>) -> Option<u64> {
    let d = first_dot(s);
    let whole = s.take(d);
    let frac = s.skip(d + 1);
    if d == s.len() {
        if s.len() > 0 && is_dec_digits(s) && dec_val(s) <= u64::MAX {
            Some(dec_val(s) as u64)
        } else {
            None
        }
    } else {
        if whole.len() > 0 && is_dec_digits(whole) && frac.len() > 0 && is_dec_digits(frac)
            && dec_val(whole) <= u64::MAX {
            Some(dec_val(whole) as u64)
        } else {
            None
        }
    }
}

/// Parses the `remaining` quota header, which may be fractional: hands
/// back the whole part of `digits` or `digits.digits`.
#[verifier::loop_isolation(false)]
pub fn parse_remaining(s: &str) -> (r: Option<u64>)
    ensures
        r == spec_remaining_whole(s@),
{
    let n = s.unicode_len();
    let mut dot: usize = n;
    let mut i: usize = 0;
    while dot == n && i < n
        invariant
            0 <= i <= n,
            n == s@.len(),
            dot == n || (dot == i && i < n && s@[dot as int] == '.'),
            forall|k: int| 0 <= k < i ==> #[trigger] s@[k] != '.',
        decreases n - i + (if dot == n {
            1int
        } else {
            0int
        }),
    {
        if s.get_char(i) == '.' {
            dot = i;
        } else {
            i += 1;
        }
    }
    proof {
        lemma_first_dot(s@);
        assert(first_dot(s@) == dot);
    }
    if dot == n {
        parse_u64_dec(s)
    } else {
        let whole = s.substring_char(0, dot);
        let frac = s.substring_char(dot + 1, n);
        proof {
            assert(whole@ =~= s@.take(dot as int));
            assert(frac@ =~= s@.skip(dot as int + 1));
        }
        let w = parse_u64_dec(whole);
        if frac.is_empty() {
            return None;
        }
        if !dec_digits_check(frac) {
            return None;
        }
        match w {
            Some(w) => Some(w),
            None => None,
        }
    }
}

/// The three quota figures the server reports after each call.
#[derive(Clone, Copy, Debug, PartialEq, Eq, Structural)]
pub struct RateLimit {
    /// How much of the quota is used.
    pub used: u64,
    /// The whole part of how much is left.
    pub remaining: u64,
    /// Seconds until the quota resets.
    pub reset: u64,
}

/// What the three quota headers mean: each must be present and numeric, in
/// the order used, remaining, reset; `remaining` may be fractional.
pub open spec fn spec_read_headers(
    used: Option<Seq<char>>,
    remaining: Option<Seq<char>>,
    reset: Option<Seq<char>>,
) -> Result<RateLimit, ErrorV> {
    match used {
        None => Err(ErrorV::MissingHeader("x-ratelimit-used"@)),
        Some(u) => if !(u.len() > 0 && is_dec_digits(u) && dec_val(u) <= u64::MAX) {
            Err(ErrorV::HeaderParse("x-ratelimit-used"@))
        } else {
            match remaining {
                None => Err(ErrorV::MissingHeader("x-ratelimit-remaining"@)),
                Some(rem) => if spec_remaining_whole(rem) is None {
                    Err(ErrorV::HeaderParse("x-ratelimit-remaining"@))
                } else {
                    match reset {
                        None => Err(ErrorV::MissingHeader("x-ratelimit-reset"@)),
                        Some(rs) => if !(rs.len() > 0 && is_dec_digits(rs) && dec_val(rs)
                            <= u64::MAX) {
                            Err(ErrorV::HeaderParse("x-ratelimit-reset"@))
                        } else {
                            Ok(
                                RateLimit {
                                    used: dec_val(u) as u64,
                                    remaining: spec_remaining_whole(rem)->Some_0,
                                    reset: dec_val(rs) as u64,
                                },
                            )
                        },
                    }
                },
            }
        },
    }
}

/// Reads the three quota headers as handed over by the transport; a
/// missing one, or an unparsable one, names itself in the error.
pub fn read_rate_headers(
    used: Option<&str>,
    remaining: Option<&str>,
    reset: Option<&str>,
) -> (r: Result<RateLimit, Error>)
    ensures
        match r {
            Ok(rl) => spec_read_headers(
                match used {
                    Some(u) => Some(u@),
                    None => None,
                },
                match remaining {
                    Some(m) => Some(m@),
                    None => None,
                },
                match reset {
                    Some(t) => Some(t@),
                    None => None,
                },
            ) == Ok::<RateLimit, ErrorV>(rl),
            Err(e) => spec_read_headers(
                match used {
                    Some(u) => Some(u@),
                    None => None,
                },
                match remaining {
                    Some(m) => Some(m@),
                    None => None,
                },
                match reset {
                    Some(t) => Some(t@),
                    None => None,
                },
            ) == Err::<RateLimit, ErrorV>(e@),
        },
{
    let used = match used {
        None => {
            return Err(Error::MissingHeader("x-ratelimit-used".to_owned()));
        },
        Some(u) => match parse_u64_dec(u) {
            None => {
                return Err(Error::HeaderParse("x-ratelimit-used".to_owned()));
            },
            Some(v) => v,
        },
    };
    let remaining = match remaining {
        None => {
            return Err(Error::MissingHeader("x-ratelimit-remaining".to_owned()));
        },
        Some(m) => match parse_remaining(m) {
            None => {
                return Err(Error::HeaderParse("x-ratelimit-remaining".to_owned()));
            },
            Some(v) => v,
        },
    };
    let reset = match reset {
        None => {
            return Err(Error::MissingHeader("x-ratelimit-reset".to_owned()));
        },
        Some(t) => match parse_u64_dec(t) {
            None => {
                return Err(Error::HeaderParse("x-ratelimit-reset".to_owned()));
            },
            Some(v) => v,
        },
    };
    Ok(RateLimit { used, remaining, reset })
}

/// How long a call must pause after its response: the full reset window
/// when less than one call is left in the quota, else not at all.
pub fn pause_secs(rl: &RateLimit) -> (r: u64)
    ensures
        r == (if rl.remaining < 1 {
            rl.reset as int
        } else {
            0
        }),
        rl.remaining == 0 ==> r == rl.reset,
        rl.remaining >= 1 ==> r == 0,
{
    if rl.remaining < 1 {
        rl.reset
    } else {
        0
    }
}

} // verus!
