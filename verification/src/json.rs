//! The JSON value tree the engine's result payloads are decoded from.
//!
//! Parsing JSON text is a trusted library capability: the text is handed to
//! `serde_json` and its value tree is converted, node for node, into
//! [`JsonValue`], a tree of plain values this crate's verified code can
//! take apart.  Everything after the parse — field lookup, the structural
//! schema selection, defaulting — is verified logic on `JsonValue`.
//!
//! Numbers are carried as their decimal text, untouched: the wrapper layer
//! performs no arithmetic on the engine's confidences and times, so nothing
//! is gained and precision would be lost by reinterpreting them.  The one
//! number the schema itself consumes (a frame count) is parsed from its
//! digits by verified code here.
use vstd::prelude::*;
use vstd::string::StrSliceExecFns;

verus! {

/// One node of a parsed JSON document.
///
/// Object members are kept as a list of key-value pairs; lookup takes the
/// first member with a matching key, so documents with duplicate keys (the
/// parser never produces them) still have a determined meaning.
#[derive(Debug, PartialEq)]
pub enum JsonValue {
    /// The JSON `null` value.
    Null,
    /// A JSON boolean.
    Bool(bool),
    /// A JSON number, as its decimal text.
    Number(String),
    /// A JSON string.
    Text(String),
    /// A JSON array.
    Array(Vec<JsonValue>),
    /// A JSON object.
    Object(Vec<(String, JsonValue)>),
}

/// What parsing JSON text yields: the value tree for well-formed text,
/// nothing otherwise.
pub uninterp spec fn parsed_json(text: Seq<char>) -> Option<JsonValue>;

#[verifier::external_type_specification]
#[verifier::external_body]
pub struct ExValue(serde_json::Value);

/// Relies on serde_json::from_str: parses JSON text into a value tree, or
/// fails on text that is not well-formed JSON.  The parsed tree is handed
/// back converted into [`JsonValue`].
#[verifier::external_body]
pub(crate) fn parse_json(text: &str) -> (r: Option<JsonValue>)
    ensures
        r == parsed_json(text@),
{
    serde_json::from_str::<serde_json::Value>(text).ok().map(convert_value)
}

/// The conversion half of [`parse_json`]: relies on the public shape of
/// serde_json::Value, carrying each node over variant for variant, with
/// numbers rendered to their decimal text by serde_json's own formatting.
#[verifier::external_body]
fn convert_value(v: serde_json::Value) -> JsonValue {
    match v {
        serde_json::Value::Null => JsonValue::Null,
        serde_json::Value::Bool(b) => JsonValue::Bool(b),
        serde_json::Value::Number(n) => JsonValue::Number(format!("{}", n)),
        serde_json::Value::String(s) => JsonValue::Text(s),
        serde_json::Value::Array(a) => JsonValue::Array(a.into_iter().map(convert_value).collect()),
        serde_json::Value::Object(m) => JsonValue::Object(
            m.into_iter().map(|(k, w)| (k, convert_value(w))).collect(),
        ),
    }
}

/// The first member of `fields` whose key reads `key`, if any.
pub open spec fn spec_field(fields: Seq<(String, JsonValue)>, key: Seq<char>) -> Option<JsonValue>
    decreases fields.len(),
{
    if fields.len() == 0 {
        None
    } else if fields.first().0@ == key {
        Some(fields.first().1)
    } else {
        spec_field(fields.drop_first(), key)
    }
}

/// Character-for-character string equality.
pub fn str_eq(a: &str, b: &str) -> (r: bool)
    ensures
        r == (a@ == b@),
{
    let na: usize = a.unicode_len();
    let nb: usize = b.unicode_len();
    if na != nb {
        return false;
    }
    let mut i: usize = 0;
    while i < na
        invariant
            na == a@.len(),
            na == b@.len(),
            0 <= i <= na,
            forall|j: int| 0 <= j < i ==> a@[j] == b@[j],
        decreases na - i,
    {
        if a.get_char(i) != b.get_char(i) {
            return false;
        }
        i += 1;
    }
    proof {
        assert(a@ =~= b@);
    }
    true
}

/// Looks `key` up among an object's members, returning the first member
/// with that key.
pub fn get_field<'a>(fields: &'a Vec<(String, JsonValue)>, key: &str) -> (r: Option<
    &'a JsonValue,
>)
    ensures
        match r {
            Some(v) => spec_field(fields@, key@) == Some(*v),
            None => spec_field(fields@, key@) is None,
        },
{
    let n = fields.len();
    proof {
        assert(fields@.skip(0) =~= fields@);
    }
    let mut i: usize = 0;
    while i < n
        invariant
            n == fields@.len(),
            0 <= i <= n,
            spec_field(fields@, key@) == spec_field(fields@.skip(i as int), key@),
        decreases n - i,
    {
        proof {
            assert(fields@.skip(i as int).first() == fields@[i as int]);
            assert(fields@.skip(i as int).drop_first() =~= fields@.skip(i as int + 1));
        }
        if str_eq(fields[i].0.as_str(), key) {
            return Some(&fields[i].1);
        }
        i += 1;
    }
    proof {
        assert(fields@.skip(n as int) =~= Seq::<(String, JsonValue)>::empty());
    }
    None
}

/// Whether `c` is a decimal digit.
pub open spec fn spec_is_digit(c: char) -> bool {
    '0' as int <= c as int <= '9' as int
}

/// Whether `s` is a plain decimal integer: one or more digits, nothing
/// else.  This is exactly the shape in which the parser renders a
/// non-negative integer number.
pub open spec fn spec_is_digits(s: Seq<char>) -> bool {
    s.len() > 0 && (forall|i: int| 0 <= i < s.len() ==> spec_is_digit(s[i]))
}

/// The value of a digit string, most significant digit first.
pub open spec fn spec_digits_val(s: Seq<char>) -> int
    decreases s.len(),
{
    if s.len() == 0 {
        0
    } else {
        spec_digits_val(s.drop_last()) * 10 + (s.last() as int - '0' as int)
    }
}

/// The 16-bit value a number's decimal text denotes: defined exactly for a
/// plain digit string whose value fits.
pub open spec fn spec_u16_of_digits(s: Seq<char>) -> Option<u16> {
    if spec_is_digits(s) && spec_digits_val(s) <= 0xFFFF {
        Some(spec_digits_val(s) as u16)
    } else {
        None
    }
}

proof fn lemma_digits_val_nonneg(s: Seq<char>)
    requires
        forall|i: int| 0 <= i < s.len() ==> spec_is_digit(s[i]),
    ensures
        spec_digits_val(s) >= 0,
    decreases s.len(),
{
    if s.len() > 0 {
        lemma_digits_val_nonneg(s.drop_last());
    }
}

proof fn lemma_digits_val_prefix_le(s: Seq<char>, i: int, j: int)
    requires
        0 <= i <= j <= s.len(),
        forall|k: int| 0 <= k < s.len() ==> spec_is_digit(s[k]),
    ensures
        spec_digits_val(s.take(i)) <= spec_digits_val(s.take(j)),
    decreases j - i,
{
    if i < j {
        lemma_digits_val_prefix_le(s, i, j - 1);
        assert(s.take(j).drop_last() =~= s.take(j - 1));
        assert(forall|k: int| 0 <= k < s.take(j - 1).len() ==> #[trigger] spec_is_digit(
            s.take(j - 1)[k],
        ));
        lemma_digits_val_nonneg(s.take(j - 1));
    }
}

/// Parses the decimal text of a non-negative integer number into a 16-bit
/// value: succeeds exactly on a plain digit string whose value fits.
pub fn parse_u16(text: &str) -> (r: Option<u16>)
    ensures
        r == spec_u16_of_digits(text@),
{
    let n: usize = text.unicode_len();
    if n == 0 {
        return None;
    }
    let mut acc: u32 = 0;
    let mut i: usize = 0;
    while i < n
        invariant
            n == text@.len(),
            n > 0,
            0 <= i <= n,
            forall|j: int| 0 <= j < i ==> spec_is_digit(text@[j]),
            acc == spec_digits_val(text@.take(i as int)),
            acc <= 0xFFFF,
        decreases n - i,
    {
        let c = text.get_char(i);
        let cu = c as u32;
        if cu < 48 || cu > 57 {
            return None;
        }
        let d: u32 = cu - 48;
        let next: u32 = acc * 10 + d;
        proof {
            assert(text@.take(i as int + 1).drop_last() =~= text@.take(i as int));
            assert(text@.take(i as int + 1).last() == text@[i as int]);
        }
        if next > 0xFFFF {
            proof {
                if spec_is_digits(text@) {
                    lemma_digits_val_prefix_le(text@, i as int + 1, n as int);
                    assert(text@.take(n as int) =~= text@);
                }
            }
            return None;
        }
        acc = next;
        i += 1;
    }
    proof {
        assert(text@.take(n as int) =~= text@);
    }
    Some(acc as u16)
}

} // verus!
