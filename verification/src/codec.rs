//! Typed access to the fields of a decoded JSON object: each helper reads
//! one field under the conventions of the wire format (required, nullable,
//! or defaulted) and mirrors a specification function exactly.

use vstd::prelude::*;

use crate::error::{DecodeError, DecodeErrorV, Kind};
use crate::fullname::{fullname_check, fullname_wf, Fullname};
use crate::json::{obj_get, pairs_view, spec_obj_get, JsonV, JsonValue};

verus! {

/// A required string field.
pub open spec fn spec_str_field(pairs: Seq<(Seq<char>, JsonV)>, key: Seq<char>) -> Option<
    Seq<char>,
> {
    match spec_obj_get(pairs, key) {
        Some(JsonV::Str(s)) => Some(s),
        _ => None,
    }
}

/// A required non-negative integer field.
pub open spec fn spec_u64_field(pairs: Seq<(Seq<char>, JsonV)>, key: Seq<char>) -> Option<u64> {
    match spec_obj_get(pairs, key) {
        Some(JsonV::UInt(u)) => Some(u),
        _ => None,
    }
}

/// A required signed integer field.
pub open spec fn spec_i64_field(pairs: Seq<(Seq<char>, JsonV)>, key: Seq<char>) -> Option<i64> {
    match spec_obj_get(pairs, key) {
        Some(JsonV::UInt(u)) => if u <= i64::MAX as u64 {
            Some(u as i64)
        } else {
            None
        },
        Some(JsonV::Int(i)) => Some(i),
        _ => None,
    }
}

/// A required boolean field.
pub open spec fn spec_bool_field(pairs: Seq<(Seq<char>, JsonV)>, key: Seq<char>) -> Option<bool> {
    match spec_obj_get(pairs, key) {
        Some(JsonV::Bool(b)) => Some(b),
        _ => None,
    }
}

/// A required field that is either a string or `null`.
pub open spec fn spec_nullable_str_field(pairs: Seq<(Seq<char>, JsonV)>, key: Seq<char>) -> Option<
    Option<Seq<char>>,
> {
    match spec_obj_get(pairs, key) {
        Some(JsonV::Str(s)) => Some(Some(s)),
        Some(JsonV::Null) => Some(None),
        _ => None,
    }
}

/// A required field that is either a non-negative integer or `null`.
pub open spec fn spec_nullable_u64_field(pairs: Seq<(Seq<char>, JsonV)>, key: Seq<char>) -> Option<
    Option<u64>,
> {
    match spec_obj_get(pairs, key) {
        Some(JsonV::UInt(u)) => Some(Some(u)),
        Some(JsonV::Null) => Some(None),
        _ => None,
    }
}

/// An optional field: absent or `null` both mean "no value".
pub open spec fn spec_defaulted_str_field(
    pairs: Seq<(Seq<char>, JsonV)>,
    key: Seq<char>,
) -> Option<Option<Seq<char>>> {
    match spec_obj_get(pairs, key) {
        Some(JsonV::Str(s)) => Some(Some(s)),
        Some(JsonV::Null) => Some(None),
        None => Some(None),
        _ => None,
    }
}

/// An optional non-negative integer field: absent or `null` both mean "no
/// value".
pub open spec fn spec_defaulted_u64_field(
    pairs: Seq<(Seq<char>, JsonV)>,
    key: Seq<char>,
) -> Option<Option<u64>> {
    match spec_obj_get(pairs, key) {
        Some(JsonV::UInt(u)) => Some(Some(u)),
        Some(JsonV::Null) => Some(None),
        None => Some(None),
        _ => None,
    }
}

/// A required identifier field: a string that is a well-formed fullname.
pub open spec fn spec_fullname_field(pairs: Seq<(Seq<char>, JsonV)>, key: Seq<char>) -> Option<
    Seq<char>,
> {
    match spec_obj_get(pairs, key) {
        Some(JsonV::Str(s)) => if fullname_wf(s) {
            Some(s)
        } else {
            None
        },
        _ => None,
    }
}

/// A required field that is either a well-formed fullname or `null`.
pub open spec fn spec_nullable_fullname_field(
    pairs: Seq<(Seq<char>, JsonV)>,
    key: Seq<char>,
) -> Option<Option<Seq<char>>> {
    match spec_obj_get(pairs, key) {
        Some(JsonV::Str(s)) => if fullname_wf(s) {
            Some(Some(s))
        } else {
            None
        },
        Some(JsonV::Null) => Some(None),
        _ => None,
    }
}

/// Reads a required string field.
pub fn str_field(fields: &Vec<(String, JsonValue)>, key: &str) -> (r: Option<String>)
    ensures
        match r {
            Some(s) => spec_str_field(pairs_view(*fields, 0), key@) == Some(s@),
            None => spec_str_field(pairs_view(*fields, 0), key@) is None,
        },
{
    match obj_get(fields, key) {
        Some(JsonValue::Str(s)) => Some(s.clone()),
        _ => None,
    }
}

/// Reads a required non-negative integer field.
pub fn u64_field(fields: &Vec<(String, JsonValue)>, key: &str) -> (r: Option<u64>)
    ensures
        r == spec_u64_field(pairs_view(*fields, 0), key@),
{
    match obj_get(fields, key) {
        Some(JsonValue::UInt(u)) => Some(*u),
        _ => None,
    }
}

/// Reads a required signed integer field.
pub fn i64_field(fields: &Vec<(String, JsonValue)>, key: &str) -> (r: Option<i64>)
    ensures
        r == spec_i64_field(pairs_view(*fields, 0), key@),
{
    match obj_get(fields, key) {
        Some(JsonValue::UInt(u)) => if *u <= i64::MAX as u64 {
            Some(*u as i64)
        } else {
            None
        },
        Some(JsonValue::Int(i)) => Some(*i),
        _ => None,
    }
}

/// Reads a required boolean field.
pub fn bool_field(fields: &Vec<(String, JsonValue)>, key: &str) -> (r: Option<bool>)
    ensures
        r == spec_bool_field(pairs_view(*fields, 0), key@),
{
    match obj_get(fields, key) {
        Some(JsonValue::Bool(b)) => Some(*b),
        _ => None,
    }
}

/// Reads a required string-or-`null` field.
pub fn nullable_str_field(fields: &Vec<(String, JsonValue)>, key: &str) -> (r: Option<
    Option<String>,
>)
    ensures
        match r {
            Some(Some(s)) => spec_nullable_str_field(pairs_view(*fields, 0), key@) == Some(
                Some(s@),
            ),
            Some(None) => spec_nullable_str_field(pairs_view(*fields, 0), key@) == Some(
                None::<Seq<char>>,
            ),
            None => spec_nullable_str_field(pairs_view(*fields, 0), key@) is None,
        },
{
    match obj_get(fields, key) {
        Some(JsonValue::Str(s)) => Some(Some(s.clone())),
        Some(JsonValue::Null) => Some(None),
        _ => None,
    }
}

/// Reads a required integer-or-`null` field.
pub fn nullable_u64_field(fields: &Vec<(String, JsonValue)>, key: &str) -> (r: Option<
    Option<u64>,
>)
    ensures
        r == spec_nullable_u64_field(pairs_view(*fields, 0), key@),
{
    match obj_get(fields, key) {
        Some(JsonValue::UInt(u)) => Some(Some(*u)),
        Some(JsonValue::Null) => Some(None),
        _ => None,
    }
}

/// Reads an optional string field: absent and `null` both yield no value.
pub fn defaulted_str_field(fields: &Vec<(String, JsonValue)>, key: &str) -> (r: Option<
    Option<String>,
>)
    ensures
        match r {
            Some(Some(s)) => spec_defaulted_str_field(pairs_view(*fields, 0), key@) == Some(
                Some(s@),
            ),
            Some(None) => spec_defaulted_str_field(pairs_view(*fields, 0), key@) == Some(
                None::<Seq<char>>,
            ),
            None => spec_defaulted_str_field(pairs_view(*fields, 0), key@) is None,
        },
{
    match obj_get(fields, key) {
        Some(JsonValue::Str(s)) => Some(Some(s.clone())),
        Some(JsonValue::Null) => Some(None),
        None => Some(None),
        _ => None,
    }
}

/// Reads an optional non-negative integer field: absent and `null` both
/// yield no value.
pub fn defaulted_u64_field(fields: &Vec<(String, JsonValue)>, key: &str) -> (r: Option<
    Option<u64>,
>)
    ensures
        r == spec_defaulted_u64_field(pairs_view(*fields, 0), key@),
{
    match obj_get(fields, key) {
        Some(JsonValue::UInt(u)) => Some(Some(*u)),
        Some(JsonValue::Null) => Some(None),
        None => Some(None),
        _ => None,
    }
}

/// Reads a required identifier field.
pub fn fullname_field(fields: &Vec<(String, JsonValue)>, key: &str) -> (r: Option<Fullname>)
    ensures
        match r {
            Some(f) => spec_fullname_field(pairs_view(*fields, 0), key@) == Some(f@)
                && fullname_wf(f@),
            None => spec_fullname_field(pairs_view(*fields, 0), key@) is None,
        },
{
    match obj_get(fields, key) {
        Some(JsonValue::Str(s)) => if fullname_check(s.as_str()) {
            Some(Fullname::new(s.clone()))
        } else {
            None
        },
        _ => None,
    }
}

/// Reads a required identifier-or-`null` field.
pub fn nullable_fullname_field(fields: &Vec<(String, JsonValue)>, key: &str) -> (r: Option<
    Option<Fullname>,
>)
    ensures
        match r {
            Some(Some(f)) => spec_nullable_fullname_field(pairs_view(*fields, 0), key@) == Some(
                Some(f@),
            ) && fullname_wf(f@),
            Some(None) => spec_nullable_fullname_field(pairs_view(*fields, 0), key@) == Some(
                None::<Seq<char>>,
            ),
            None => spec_nullable_fullname_field(pairs_view(*fields, 0), key@) is None,
        },
{
    match obj_get(fields, key) {
        Some(JsonValue::Str(s)) => if fullname_check(s.as_str()) {
            Some(Some(Fullname::new(s.clone())))
        } else {
            None
        },
        Some(JsonValue::Null) => Some(None),
        _ => None,
    }
}

/// The element views of a vector whose elements have views.
pub open spec fn vec_view<T: View>(v: Vec<T>) -> Seq<T::V> {
    Seq::new(v@.len(), |i: int| v@[i]@)
}

/// Maps every element through `f`, fail-fast: the first element `f` rejects
/// aborts the whole result with that element's error.
pub open spec fn spec_map_fail_fast<A, T, E>(s: Seq<A>, f: spec_fn(A) -> Result<T, E>) -> Result<
    Seq<T>,
    E,
>
    decreases s.len(),
{
    if s.len() == 0 {
        Ok(Seq::empty())
    } else {
        match f(s[0]) {
            Err(e) => Err(e),
            Ok(t) => match spec_map_fail_fast(s.drop_first(), f) {
                Err(e) => Err(e),
                Ok(rest) => Ok(seq![t] + rest),
            },
        }
    }
}

/// Once the first `i` elements are known to pass, the whole mapping is the
/// mapping of the rest, with the passed prefix in front.
pub proof fn lemma_map_fail_fast_skip<A, T, E>(
    s: Seq<A>,
    f: spec_fn(A) -> Result<T, E>,
    i: int,
)
    requires
        0 <= i <= s.len(),
        forall|k: int| 0 <= k < i ==> (#[trigger] f(s[k])) is Ok,
    ensures
        spec_map_fail_fast(s, f) == match spec_map_fail_fast(s.skip(i), f) {
            Ok(rest) => Ok(Seq::new(i as nat, |k: int| f(s[k])->Ok_0) + rest),
            Err(e) => Err::<Seq<T>, E>(e),
        },
    decreases i,
{
    let pre = |n: int| Seq::new(n as nat, |k: int| f(s[k])->Ok_0);
    if i == 0 {
        assert(s.skip(0) =~= s);
        match spec_map_fail_fast(s, f) {
            Ok(rest) => {
                assert(pre(0) + rest =~= rest);
            },
            Err(_) => {},
        }
    } else {
        lemma_map_fail_fast_skip(s, f, i - 1);
        assert(s.skip(i - 1).len() > 0);
        assert(s.skip(i - 1)[0] == s[i - 1]);
        assert(s.skip(i - 1).drop_first() =~= s.skip(i));
        assert(f(s[i - 1]) is Ok);
        match spec_map_fail_fast(s.skip(i), f) {
            Ok(rest) => {
                assert(spec_map_fail_fast(s.skip(i - 1), f) == Ok::<Seq<T>, E>(
                    seq![f(s[i - 1])->Ok_0] + rest,
                ));
                assert(pre(i - 1) + (seq![f(s[i - 1])->Ok_0] + rest) =~= pre(i) + rest);
            },
            Err(e) => {
                assert(spec_map_fail_fast(s.skip(i - 1), f) == Err::<Seq<T>, E>(e));
            },
        }
    }
}

/// Builds the error for a `data` field that is missing or ill-typed.
pub fn schema_err(kind: Kind, field: &str) -> (e: DecodeError)
    ensures
        e@ == (DecodeErrorV::SchemaMismatch { kind, field: field@ }),
{
    DecodeError::SchemaMismatch { kind, field: field.to_owned() }
}

} // verus!
