//! A JSON tree as plain values, with a mathematical mirror for
//! specifications, and the trusted boundary that parses text into it.

use vstd::prelude::*;

verus! {

broadcast use vstd::std_specs::vec::axiom_vec_index_decreases;

/// A JSON value, held entirely as plain data.
///
/// Numbers are kept as integers: a JSON number that fits in `u64` becomes
/// `UInt`, a negative one that fits in `i64` becomes `Int`, and any other
/// number (a fractional one, for instance) becomes `NonInteger`, which the
/// decoders reject wherever an integer is expected.
#[derive(Debug)]
pub enum JsonValue {
    /// The JSON `null`.
    Null,
    /// A JSON boolean.
    Bool(bool),
    /// A non-negative JSON integer.
    UInt(u64),
    /// A negative JSON integer.
    Int(i64),
    /// A JSON number that is not representable as an integer.
    NonInteger,
    /// A JSON string.
    Str(String),
    /// A JSON array, in order.
    Arr(Vec<JsonValue>),
    /// A JSON object: its fields as key/value pairs, in order.
    Obj(Vec<(String, JsonValue)>),
}

/// The mathematical mirror of [`JsonValue`]: strings are `Seq<char>`,
/// collections are `Seq`.
#[verifier::ext_equal]
pub enum JsonV {
    /// The JSON `null`.
    Null,
    /// A JSON boolean.
    Bool(bool),
    /// A non-negative JSON integer.
    UInt(u64),
    /// A negative JSON integer.
    Int(i64),
    /// A JSON number that is not representable as an integer.
    NonInteger,
    /// A JSON string.
    Str(Seq<char>),
    /// A JSON array.
    Arr(Seq<JsonV>),
    /// A JSON object.
    Obj(Seq<(Seq<char>, JsonV)>),
}

pub open spec fn json_view(j: JsonValue) -> JsonV
    decreases j, 0int,
{
    match j {
        JsonValue::Null => JsonV::Null,
        JsonValue::Bool(b) => JsonV::Bool(b),
        JsonValue::UInt(u) => JsonV::UInt(u),
        JsonValue::Int(i) => JsonV::Int(i),
        JsonValue::NonInteger => JsonV::NonInteger,
        JsonValue::Str(s) => JsonV::Str(s@),
        JsonValue::Arr(a) => JsonV::Arr(arr_view(a, 0)),
        JsonValue::Obj(o) => JsonV::Obj(pairs_view(o, 0)),
    }
}

pub open spec fn arr_view(a: Vec<JsonValue>, i: int) -> Seq<JsonV>
    decreases a, a@.len() - i,
{
    if i < 0 || i >= a@.len() {
        Seq::empty()
    } else {
        seq![json_view(a@[i])] + arr_view(a, i + 1)
    }
}

pub open spec fn pairs_view(o: Vec<(String, JsonValue)>, i: int) -> Seq<(Seq<char>, JsonV)>
    decreases o, o@.len() - i,
{
    if i < 0 || i >= o@.len() {
        Seq::empty()
    } else {
        seq![(o@[i].0@, json_view(o@[i].1))] + pairs_view(o, i + 1)
    }
}

impl View for JsonValue {
    type V = JsonV;

    open spec fn view(&self) -> JsonV {
        json_view(*self)
    }
}

pub proof fn lemma_arr_view(a: Vec<JsonValue>, i: int)
    requires
        0 <= i <= a@.len(),
    ensures
        arr_view(a, i).len() == a@.len() - i,
        forall|k: int| 0 <= k < a@.len() - i ==> arr_view(a, i)[k] == json_view(a@[i + k]),
    decreases a@.len() - i,
{
    if i < a@.len() {
        lemma_arr_view(a, i + 1);
    }
}

pub proof fn lemma_pairs_view(o: Vec<(String, JsonValue)>, i: int)
    requires
        0 <= i <= o@.len(),
    ensures
        pairs_view(o, i).len() == o@.len() - i,
        forall|k: int| 0 <= k < o@.len() - i
            ==> pairs_view(o, i)[k] == (o@[i + k].0@, json_view(o@[i + k].1)),
    decreases o@.len() - i,
{
    if i < o@.len() {
        lemma_pairs_view(o, i + 1);
    }
}

/// Compares two string slices character for character.
pub fn str_eq(a: &str, b: &str) -> (r: bool)
    ensures
        r == (a@ == b@),
{
    let alen = a.unicode_len();
    let blen = b.unicode_len();
    if alen != blen {
        proof {
            assert(a@ != b@);
        }
        return false;
    }
    let mut i: usize = 0;
    while i < alen
        invariant
            0 <= i <= alen,
            alen == a@.len(),
            alen == b@.len(),
            forall|k: int| 0 <= k < i ==> a@[k] == b@[k],
        decreases alen - i,
    {
        if a.get_char(i) != b.get_char(i) {
            proof {
                assert(a@[i as int] != b@[i as int]);
            }
            return false;
        }
        i += 1;
    }
    proof {
        assert(a@ =~= b@);
    }
    true
}

/// The value of the first field named `key`, if any.
pub open spec fn spec_obj_get(pairs: Seq<(Seq<char>, JsonV)>, key: Seq<char>) -> Option<JsonV>
    decreases pairs.len(),
{
    if pairs.len() == 0 {
        None
    } else if pairs[0].0 == key {
        Some(pairs[0].1)
    } else {
        spec_obj_get(pairs.drop_first(), key)
    }
}

proof fn lemma_obj_get_skip(pairs: Seq<(Seq<char>, JsonV)>, key: Seq<char>, i: int)
    requires
        0 <= i <= pairs.len(),
        forall|j: int| 0 <= j < i ==> pairs[j].0 != key,
    ensures
        spec_obj_get(pairs, key) == spec_obj_get(pairs.skip(i), key),
    decreases i,
{
    if i > 0 {
        lemma_obj_get_skip(pairs, key, i - 1);
        assert(pairs.skip(i - 1).len() > 0);
        assert(pairs.skip(i - 1)[0] == pairs[i - 1]);
        assert(pairs.skip(i - 1).drop_first() =~= pairs.skip(i));
        assert(spec_obj_get(pairs.skip(i - 1), key) == spec_obj_get(
            pairs.skip(i - 1).drop_first(),
            key,
        ));
    } else {
        assert(pairs.skip(0) =~= pairs);
    }
}

/// A field's value stands below its object in the structural order, so a
/// decoder may recurse into it.
pub proof fn lemma_obj_get_decreases(pairs: Seq<(Seq<char>, JsonV)>, key: Seq<char>)
    requires
        spec_obj_get(pairs, key) is Some,
    ensures
        decreases_to!(pairs => spec_obj_get(pairs, key)->Some_0),
    decreases pairs.len(),
{
    if pairs.len() > 0 {
        if pairs[0].0 == key {
            vstd::seq::axiom_seq_index_decreases(pairs, 0);
        } else {
            lemma_obj_get_decreases(pairs.drop_first(), key);
        }
    }
}

/// Looks up the first field named `key` in an object's field list.
pub fn obj_get<'a>(fields: &'a Vec<(String, JsonValue)>, key: &str) -> (r: Option<
    &'a JsonValue,
>)
    ensures
        match r {
            Some(v) => spec_obj_get(pairs_view(*fields, 0), key@) == Some(v@) && exists|i: int|
                0 <= i < fields@.len() && *v == #[trigger] fields@[i].1,
            None => spec_obj_get(pairs_view(*fields, 0), key@) is None,
        },
{
    proof {
        lemma_pairs_view(*fields, 0);
    }
    let ghost pairs = pairs_view(*fields, 0);
    let mut i: usize = 0;
    while i < fields.len()
        invariant
            0 <= i <= fields@.len(),
            pairs == pairs_view(*fields, 0),
            pairs.len() == fields@.len(),
            forall|k: int| 0 <= k < fields@.len()
                ==> pairs[k] == (fields@[k].0@, json_view(fields@[k].1)),
            forall|j: int| 0 <= j < i ==> pairs[j].0 != key@,
        decreases fields@.len() - i,
    {
        if str_eq(fields[i].0.as_str(), key) {
            proof {
                lemma_obj_get_skip(pairs, key@, i as int);
                assert(pairs.skip(i as int)[0] == pairs[i as int]);
            }
            return Some(&fields[i].1);
        }
        i += 1;
    }
    proof {
        lemma_obj_get_skip(pairs, key@, fields@.len() as int);
        assert(pairs.skip(fields@.len() as int).len() == 0);
    }
    None
}

#[verifier::external_type_specification]
#[verifier::external_body]
pub struct ExValue(serde_json::Value);

/// Converts serde_json's tree into the library's own, variant for variant;
/// relies on serde_json::Value only for its shape.
#[verifier::external_body]
fn json_of_value(v: serde_json::Value) -> JsonValue {
    match v {
        serde_json::Value::Null => JsonValue::Null,
        serde_json::Value::Bool(b) => JsonValue::Bool(b),
        serde_json::Value::Number(n) => match (n.as_u64(), n.as_i64()) {
            (Some(u), _) => JsonValue::UInt(u),
            (None, Some(i)) => JsonValue::Int(i),
            (None, None) => JsonValue::NonInteger,
        },
        serde_json::Value::String(s) => JsonValue::Str(s),
        serde_json::Value::Array(a) => JsonValue::Arr(a.into_iter().map(json_of_value).collect()),
        serde_json::Value::Object(o) => JsonValue::Obj(
            o.into_iter().map(|(k, x)| (k, json_of_value(x))).collect(),
        ),
    }
}

/// The JSON tree that a piece of text parses to, or `None` where the
/// parser rejects the text; the result depends on the text alone.
pub uninterp spec fn json_of_text(s: Seq<char>) -> Option<JsonV>;

/// Relies on serde_json::from_str: whether it accepts a piece of text, and
/// the tree it then returns, are functions of the text alone, here named
/// [`json_of_text`].
#[verifier::external_body]
pub fn parse_json(s: &str) -> (r: Option<JsonValue>)
    ensures
        match r {
            Some(j) => json_of_text(s@) == Some(j@),
            None => json_of_text(s@) is None,
        },
{
    match serde_json::from_str::<serde_json::Value>(s) {
        Ok(v) => Some(json_of_value(v)),
        Err(_) => None,
    }
}

} // verus!
