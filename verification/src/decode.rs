//! The decoder itself: a TOML text becomes a [`Mapping`], and a malformed
//! text becomes the empty mapping.

use crate::bridge::convert_value;
use crate::bridge::native_of;
use crate::bridge::parse_entries;
use crate::bridge::parsed_toml;
use crate::value::Mapping;
use crate::value::NativeValue;
use vstd::prelude::*;

verus! {

/// The host-side entries that a sequence of parsed top-level entries becomes:
/// every key is kept, in order, and every value is converted.
pub open spec fn converted(es: Seq<(String, toml::Value)>) -> Seq<(String, NativeValue)>
    decreases es.len(),
{
    if es.len() == 0 {
        Seq::empty()
    } else {
        converted(es.drop_last()).push((es.last().0, native_of(es.last().1)))
    }
}

/// What a decode of a given text yields: the converted top-level entries of
/// the parsed document, or the empty sequence when the text is not
/// well-formed TOML.
pub open spec fn decode_model(s: Seq<char>) -> Seq<(String, NativeValue)> {
    match parsed_toml(s) {
        Some(es) => converted(es),
        None => Seq::<(String, NativeValue)>::empty(),
    }
}

/// Conversion keeps the length, every key, and the order of the entries.
pub proof fn lemma_converted_entries(es: Seq<(String, toml::Value)>)
    ensures
        converted(es).len() == es.len(),
        forall|i: int| 0 <= i < es.len() ==>
            #[trigger] converted(es)[i] == (es[i].0, native_of(es[i].1)),
    decreases es.len(),
{
    if es.len() > 0 {
        lemma_converted_entries(es.drop_last());
        assert forall|i: int| 0 <= i < es.len() implies
            #[trigger] converted(es)[i] == (es[i].0, native_of(es[i].1)) by {
            if i < es.len() - 1 {
                assert(es.drop_last()[i] == es[i]);
            }
        }
    }
}

/// Decode a TOML text into a host-side mapping.
///
/// A well-formed text yields its converted top-level entries; a malformed one
/// yields the empty mapping rather than an error.
pub fn decode_str(text: &str) -> (r: Mapping)
    ensures
        r@ == decode_model(text@),
        r.wf(),
        parsed_toml(text@) is None ==> r@ == Seq::<(String, NativeValue)>::empty(),
{
    match parse_entries(text) {
        None => Mapping::empty(),
        Some(entries) => {
            let n = entries.len();
            let mut out: Vec<(String, NativeValue)> = Vec::new();
            let mut i: usize = 0;
            while i < n
                invariant
                    n == entries@.len(),
                    i <= n,
                    out@ == converted(entries@.take(i as int)),
                decreases n - i,
            {
                let p = &entries[i];
                let k = p.0.clone();
                let v = convert_value(&p.1);
                out.push((k, v));
                proof {
                    let taken = entries@.take(i as int + 1);
                    assert(taken.drop_last() =~= entries@.take(i as int));
                    assert(taken.last() == entries@[i as int]);
                }
                i += 1;
            }
            proof {
                assert(entries@.take(n as int) =~= entries@);
                lemma_converted_entries(entries@);
            }
            Mapping::from_entries(out)
        },
    }
}

/// Decoding is deterministic: two mappings obtained from the same text are
/// structurally equal.
pub proof fn lemma_decode_deterministic(s: Seq<char>, m1: Mapping, m2: Mapping)
    requires
        m1@ == decode_model(s),
        m2@ == decode_model(s),
    ensures
        m1@ == m2@,
{
}

/// The decoded mapping's top-level keys are exactly the parsed document's
/// top-level keys, in order: none is filtered and none renamed.
pub proof fn lemma_keys_preserved(s: Seq<char>)
    ensures
        parsed_toml(s) matches Some(es) ==> decode_model(s).len() == es.len(),
        parsed_toml(s) matches Some(es) ==> forall|i: int| 0 <= i < es.len() ==>
            #[trigger] decode_model(s)[i].0 == es[i].0,
{
    match parsed_toml(s) {
        Some(es) => lemma_converted_entries(es),
        None => (),
    }
}

} // verus!

