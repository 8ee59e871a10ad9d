//! The byte layout of an encoded sequence of values.
//!
//! Both frameworks lay a dynamically-sized sequence out the same way: an
//! 8-byte little-endian element count followed by each element's encoding
//! in order, with no separators.  [`sequence_layout`] is that layout as a
//! function of the per-element encodings, and [`encode_parts`] produces
//! it the way the streaming encoder does: it reserves a zeroed count
//! slot, appends the elements as they arrive, and back-patches the true
//! count once the input is exhausted.

use vstd::bytes::{
    lemma_auto_spec_u64_to_from_le_bytes, spec_u64_from_le_bytes, spec_u64_to_le_bytes,
    u64_to_le_bytes,
};
use vstd::prelude::*;
use vstd::std_specs::vec::vec_index_mut;

verus! {

/// The concatenation of a sequence of byte strings, in order.
pub open spec fn concat_of(parts: Seq<Seq<u8>>) -> Seq<u8>
    decreases parts.len(),
{
    if parts.len() == 0 {
        Seq::empty()
    } else {
        concat_of(parts.drop_last()) + parts.last()
    }
}

/// The wire layout of a sequence: an 8-byte little-endian count of the
/// elements, then their encodings concatenated in order.
pub open spec fn sequence_layout(parts: Seq<Seq<u8>>) -> Seq<u8> {
    spec_u64_to_le_bytes(parts.len() as u64) + concat_of(parts)
}

/// The number of bytes in the count-prefixed encoding of a sequence of
/// `n` elements of `elem` bytes each.
pub open spec fn seq_encoded_len(n: nat, elem: nat) -> nat {
    8 + n * elem
}

/// Law: the count slot of an encoded sequence holds exactly the
/// little-endian count of its elements, so a decoder reading the first
/// eight bytes back recovers the element count that was encoded.
pub proof fn lemma_sequence_count_round_trip(parts: Seq<Seq<u8>>)
    requires
        parts.len() <= u64::MAX,
    ensures
        sequence_layout(parts).subrange(0, 8) == spec_u64_to_le_bytes(parts.len() as u64),
        spec_u64_from_le_bytes(sequence_layout(parts).subrange(0, 8)) == parts.len(),
{
    lemma_auto_spec_u64_to_from_le_bytes();
    assert(sequence_layout(parts).subrange(0, 8) =~= spec_u64_to_le_bytes(parts.len() as u64));
}

/// The length of a concatenation is the sum of the parts' lengths; in
/// particular, when every part has the same length `k`, the
/// concatenation has length `k` times the number of parts.
pub proof fn lemma_concat_uniform_len(parts: Seq<Seq<u8>>, k: nat)
    requires
        forall|i: int| 0 <= i < parts.len() ==> (#[trigger] parts[i]).len() == k,
    ensures
        concat_of(parts).len() == parts.len() * k,
    decreases parts.len(),
{
    if parts.len() == 0 {
    } else {
        lemma_concat_uniform_len(parts.drop_last(), k);
        assert((parts.len() - 1) * k + k == parts.len() * k) by (nonlinear_arith);
    }
}

/// Appends a copy of `part` to `out`.
pub(crate) fn push_all(out: &mut Vec<u8>, part: &Vec<u8>)
    ensures
        final(out)@ == old(out)@ + part@,
{
    let mut j: usize = 0;
    while j < part.len()
        invariant
            j <= part.len(),
            out@ == old(out)@ + part@.subrange(0, j as int),
        decreases part.len() - j,
    {
        out.push(part[j]);
        proof {
            assert(part@.subrange(0, j + 1) =~= part@.subrange(0, j as int).push(part@[j as int]));
        }
        j += 1;
    }
    proof {
        assert(part@.subrange(0, part@.len() as int) =~= part@);
    }
}

/// Encodes a sequence of already-encoded elements in the layout of
/// [`sequence_layout`], one pass over the input: the count slot is
/// reserved as eight zero bytes, each element's bytes are appended in
/// order, and the true count observed while streaming is patched into
/// the slot at the end.
pub fn encode_parts(parts: &Vec<Vec<u8>>) -> (r: Vec<u8>)
    ensures
        r@ == sequence_layout(parts.deep_view()),
{
    let mut out: Vec<u8> = Vec::new();
    let mut z: usize = 0;
    while z < 8
        invariant
            z <= 8,
            out@.len() == z,
            forall|k: int| 0 <= k < z ==> out@[k] == 0u8,
        decreases 8 - z,
    {
        out.push(0u8);
        z += 1;
    }
    let ghost slot: Seq<u8> = out@;
    let mut i: usize = 0;
    while i < parts.len()
        invariant
            i <= parts.len(),
            out@ == slot + concat_of(parts.deep_view().subrange(0, i as int)),
        decreases parts.len() - i,
    {
        push_all(&mut out, &parts[i]);
        proof {
            let views = parts.deep_view();
            assert(views.subrange(0, i + 1).drop_last() =~= views.subrange(0, i as int));
            assert(views.subrange(0, i + 1).last() == views[i as int]);
            assert(parts@[i as int]@ == views[i as int]);
        }
        i += 1;
    }
    proof {
        assert(parts.deep_view().subrange(0, parts.deep_view().len() as int) =~= parts.deep_view());
        lemma_auto_spec_u64_to_from_le_bytes();
    }
    let count: u64 = parts.len() as u64;
    let prefix = u64_to_le_bytes(count);
    let ghost unpatched: Seq<u8> = out@;
    let mut j: usize = 0;
    while j < 8
        invariant
            j <= 8,
            prefix@ == spec_u64_to_le_bytes(count),
            prefix@.len() == 8,
            out@.len() == unpatched.len(),
            unpatched.len() >= 8,
            forall|k: int| 0 <= k < j ==> out@[k] == prefix@[k],
            forall|k: int| j <= k < unpatched.len() ==> out@[k] == unpatched[k],
        decreases 8 - j,
    {
        let b = prefix[j];
        *vec_index_mut(&mut out, j) = b;
        j += 1;
    }
    proof {
        lemma_auto_spec_u64_to_from_le_bytes();
        let views = parts.deep_view();
        let expected = sequence_layout(views);
        assert(unpatched == slot + concat_of(views));
        assert(out@.len() == expected.len());
        assert forall|k: int| 0 <= k < out@.len() implies out@[k] == expected[k] by {
            if 8 <= k {
                assert(out@[k] == unpatched[k]);
                assert(unpatched[k] == concat_of(views)[k - 8]);
            }
        }
        assert(out@ =~= expected);
    }
    out
}

} // verus!
