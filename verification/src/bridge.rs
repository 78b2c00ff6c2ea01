//! The trusted boundary around the outside crates: the TOML parse, the
//! variant-by-variant conversion of a parsed value, and text equality.

use crate::value::NativeValue;
use vstd::prelude::*;

verus! {

#[verifier::external_type_specification]
#[verifier::external_body]
pub struct ExTomlValue(toml::Value);

/// What `str::parse::<toml::Table>` yields on a given text: the document's
/// top-level entries, in the order the table hands them out, or nothing when
/// the text is not well-formed TOML. The parse reads the text alone, so the
/// outcome is a function of the text.
pub uninterp spec fn parsed_toml(s: Seq<char>) -> Option<Seq<(String, toml::Value)>>;

/// What a parsed TOML value becomes on the host side. The conversion is
/// structural, so the outcome is a function of the value alone.
pub uninterp spec fn native_of(v: toml::Value) -> NativeValue;

/// Relies on `str::parse::<toml::Table>` (crate `toml`): it parses the whole
/// text as a TOML document and returns its top-level table; a table holds each
/// key at most once, and parsing is deterministic.
#[verifier::external_body]
pub(crate) fn parse_entries(text: &str) -> (r: Option<Vec<(String, toml::Value)>>)
    ensures
        r is Some <==> parsed_toml(text@) is Some,
        r matches Some(es) ==> parsed_toml(text@) == Some(es@),
        r matches Some(es) ==> forall|i: int, j: int|
            0 <= i < j < es@.len() ==> es@[i].0@ != es@[j].0@,
{
    match text.parse::<toml::Table>() {
        Ok(t) => Some(t.into_iter().collect()),
        Err(_) => None,
    }
}

/// Relies on the variants of `toml::Value` (crate `toml`): a parsed value is a
/// string, integer, float, boolean, datetime, array, or table, and each variant
/// carries the parsed content. The conversion below is structural — a float
/// becomes its bit pattern, a datetime its text — so the result is a function
/// of the value alone.
#[verifier::external_body]
pub(crate) fn convert_value(v: &toml::Value) -> (r: NativeValue)
    ensures
        r == native_of(*v),
{
    match v {
        toml::Value::String(s) => NativeValue::Text(s.clone()),
        toml::Value::Integer(i) => NativeValue::Int(*i),
        toml::Value::Float(x) => NativeValue::FloatBits(x.to_bits()),
        toml::Value::Boolean(b) => NativeValue::Bool(*b),
        toml::Value::Datetime(d) => NativeValue::Datetime(d.to_string()),
        toml::Value::Array(a) => NativeValue::Array(a.iter().map(convert_value).collect()),
        toml::Value::Table(t) => NativeValue::Table(
            t.iter().map(|(k, w)| (k.clone(), convert_value(w))).collect(),
        ),
    }
}

/// Relies on `<str as PartialEq>::eq` (std): whether the two texts are equal.
#[verifier::external_body]
pub(crate) fn str_eq(a: &str, b: &str) -> (r: bool)
    ensures
        r == (a@ == b@),
{
    a == b
}

} // verus!
