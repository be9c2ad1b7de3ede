//! Shared machinery for the decoders: lookup in a sequence of key/value
//! pairs (JSON object fields, XML attributes), and element-wise decoding of
//! a sequence where any failing element fails the whole sequence.

use vstd::prelude::*;
use vstd::string::*;

verus! {

/// Relies on `<str as PartialEq>::eq`: two string slices are equal exactly
/// when their characters are.
pub assume_specification[ <str as PartialEq>::eq ](a: &str, b: &str) -> (r: bool)
    ensures
        r == (a@ == b@),
;

/// A decode failure's cause text for a field that is missing or not of the
/// schema's type.
pub fn field_err(key: &str) -> (r: String)
    ensures
        r@ == "missing or mistyped field: "@ + key@,
{
    String::from_str("missing or mistyped field: ").concat(key)
}

/// The value under the first pair whose key reads `key`, if any.
pub open spec fn lookup_pairs<V>(s: Seq<(String, V)>, key: Seq<char>) -> Option<V>
    decreases s.len(),
{
    if s.len() == 0 {
        None
    } else if s[0].0@ == key {
        Some(s[0].1)
    } else {
        lookup_pairs(s.skip(1), key)
    }
}

/// Looking a key up in a sequence whose first `i` pairs do not carry it is
/// looking it up past them.
pub proof fn lemma_lookup_pairs_skip<V>(s: Seq<(String, V)>, key: Seq<char>, i: int)
    requires
        0 <= i <= s.len(),
        forall|j: int| 0 <= j < i ==> s[j].0@ != key,
    ensures
        lookup_pairs(s, key) == lookup_pairs(s.skip(i), key),
    decreases i,
{
    if i > 0 {
        assert(s[0].0@ != key);
        assert(forall|j: int| 0 <= j < i - 1 ==> s.skip(1)[j].0@ != key);
        lemma_lookup_pairs_skip(s.skip(1), key, i - 1);
        assert(s.skip(1).skip(i - 1) =~= s.skip(i));
    } else {
        assert(s.skip(0) =~= s);
    }
}

/// Looking a key up finds the value at the first index that carries it.
pub proof fn lemma_lookup_pairs_index<V>(s: Seq<(String, V)>, key: Seq<char>, i: int)
    requires
        0 <= i < s.len(),
        forall|j: int| 0 <= j < i ==> s[j].0@ != key,
        s[i].0@ == key,
    ensures
        lookup_pairs(s, key) == Some(s[i].1),
{
    lemma_lookup_pairs_skip(s, key, i);
    assert(s.skip(i)[0] == s[i]);
    assert(s.skip(i).len() > 0);
}

/// Decode each element of `s` with `f`: the sequence of all results when
/// every element decodes, and nothing when any element fails.
pub open spec fn seq_decode<A, B>(s: Seq<A>, f: spec_fn(A) -> Option<B>) -> Option<Seq<B>>
    decreases s.len(),
{
    if s.len() == 0 {
        Some(Seq::empty())
    } else {
        match (seq_decode(s.drop_last(), f), f(s.last())) {
            (Some(rest), Some(b)) => Some(rest.push(b)),
            _ => None,
        }
    }
}

/// One failing element fails the whole sequence.
pub proof fn lemma_seq_decode_none<A, B>(s: Seq<A>, f: spec_fn(A) -> Option<B>, j: int)
    requires
        0 <= j < s.len(),
        f(s[j]) is None,
    ensures
        seq_decode(s, f) is None,
    decreases s.len(),
{
    if j < s.len() - 1 {
        assert(s.drop_last()[j] == s[j]);
        lemma_seq_decode_none(s.drop_last(), f, j);
    }
}

} // verus!
