//! The wrapper types that carry a value through codec B.
//!
//! [`ArkScale`] owns the value it wraps; [`ArkScaleRef`] borrows one
//! owned elsewhere and can therefore only encode.  Each carries the
//! packed (compression, validation) policy as a const parameter, so the
//! encode and decode behavior of a wrapper is fixed by its type alone.
//! The wrapper adds no framing of its own: a wrapped element encodes as
//! exactly its canonical arkworks encoding under the derived mode
//! (`fr_bytes_of` and its siblings), a wrapped sequence as the
//! count-prefixed layout over the elements' encodings (`fr_seq_bytes`
//! and siblings), and decoding succeeds exactly when arkworks' parse
//! does and returns what it parsed.  In particular, decoding what a
//! wrapper encoded yields the wrapped elements back — for points, under
//! the validity the canonical format can promise it for.

use vstd::bytes::{
    lemma_auto_spec_u64_to_from_le_bytes, spec_u64_from_le_bytes, spec_u64_to_le_bytes,
};
use vstd::prelude::*;

use crate::arkworks::{
    ed_bytes_of, ed_deserialize, ed_encoded_len, ed_parse, ed_seq_bytes, ed_serialize,
    ed_serialized_size, ed_valid, ed_vec_deserialize, ed_vec_parse, ed_vec_serialize,
    fr_bytes_of, fr_deserialize, fr_encoded_len, fr_parse, fr_seq_bytes, fr_serialize,
    fr_serialized_size, fr_vec_deserialize, fr_vec_parse, fr_vec_serialize, g1_bytes_of,
    g1_deserialize, g1_encoded_len, g1_parse, g1_seq_bytes, g1_serialize, g1_serialized_size,
    g1_valid, g1_vec_deserialize, g1_vec_parse, g1_vec_serialize, EdElement, FrElement, G1Element,
};
use crate::errors::{ark_error_to_scale_error, ArkError, ScaleError};
use crate::frame::{encode_parts, lemma_concat_uniform_len, push_all, seq_encoded_len};
use crate::usage::{compress_of, is_compressed, is_validated, validate_of, Compress, Validate};

verus! {

/// Encodes every element's canonical form under `compress`, in order,
/// in the count-prefixed sequence layout: the streaming path to
/// [`fr_seq_bytes`].
fn fr_encode_all(elems: &Vec<FrElement>, compress: Compress) -> (r: Vec<u8>)
    ensures
        r@ == fr_seq_bytes(elems@, compress),
        r@.len() == seq_encoded_len(elems@.len(), fr_encoded_len(compress)),
        r@.subrange(0, 8) == spec_u64_to_le_bytes(elems@.len() as u64),
{
    let mut parts: Vec<Vec<u8>> = Vec::new();
    let mut i: usize = 0;
    while i < elems.len()
        invariant
            i <= elems@.len(),
            parts@.len() == i,
            forall|k: int| 0 <= k < i ==> (#[trigger] parts@[k])@ == fr_bytes_of(
                elems@[k],
                compress,
            ),
            forall|k: int| 0 <= k < i ==> (#[trigger] parts@[k])@.len() == fr_encoded_len(
                compress,
            ),
        decreases elems@.len() - i,
    {
        let bytes = fr_serialize(&elems[i], compress);
        parts.push(bytes);
        i += 1;
    }
    let r = encode_parts(&parts);
    proof {
        let views = parts.deep_view();
        let expected = Seq::new(elems@.len(), |k: int| fr_bytes_of(elems@[k], compress));
        assert(views.len() == elems@.len());
        assert forall|k: int| 0 <= k < views.len() implies #[trigger] views[k] == expected[k] by {
            assert(views[k] == parts@[k]@);
        }
        assert(views =~= expected);
        assert forall|k: int| 0 <= k < views.len() implies (#[trigger] views[k]).len()
            == fr_encoded_len(compress) by {
            assert(views[k] == parts@[k]@);
        }
        lemma_concat_uniform_len(views, fr_encoded_len(compress));
        lemma_auto_spec_u64_to_from_le_bytes();
        assert(r@.subrange(0, 8) =~= spec_u64_to_le_bytes(elems@.len() as u64));
    }
    r
}

/// Encodes every point's canonical form under `compress`, in order, in
/// the count-prefixed sequence layout: the streaming path to
/// [`g1_seq_bytes`].
fn g1_encode_all(points: &Vec<G1Element>, compress: Compress) -> (r: Vec<u8>)
    ensures
        r@ == g1_seq_bytes(points@, compress),
        r@.len() == seq_encoded_len(points@.len(), g1_encoded_len(compress)),
        r@.subrange(0, 8) == spec_u64_to_le_bytes(points@.len() as u64),
{
    let mut parts: Vec<Vec<u8>> = Vec::new();
    let mut i: usize = 0;
    while i < points.len()
        invariant
            i <= points@.len(),
            parts@.len() == i,
            forall|k: int| 0 <= k < i ==> (#[trigger] parts@[k])@ == g1_bytes_of(
                points@[k],
                compress,
            ),
            forall|k: int| 0 <= k < i ==> (#[trigger] parts@[k])@.len() == g1_encoded_len(
                compress,
            ),
        decreases points@.len() - i,
    {
        let bytes = g1_serialize(&points[i], compress);
        parts.push(bytes);
        i += 1;
    }
    let r = encode_parts(&parts);
    proof {
        let views = parts.deep_view();
        let expected = Seq::new(points@.len(), |k: int| g1_bytes_of(points@[k], compress));
        assert(views.len() == points@.len());
        assert forall|k: int| 0 <= k < views.len() implies #[trigger] views[k] == expected[k] by {
            assert(views[k] == parts@[k]@);
        }
        assert(views =~= expected);
        assert forall|k: int| 0 <= k < views.len() implies (#[trigger] views[k]).len()
            == g1_encoded_len(compress) by {
            assert(views[k] == parts@[k]@);
        }
        lemma_concat_uniform_len(views, g1_encoded_len(compress));
        lemma_auto_spec_u64_to_from_le_bytes();
        assert(r@.subrange(0, 8) =~= spec_u64_to_le_bytes(points@.len() as u64));
    }
    r
}

/// Encodes every point's canonical form under `compress`, in order, in
/// the count-prefixed sequence layout: the streaming path to
/// [`ed_seq_bytes`].
fn ed_encode_all(points: &Vec<EdElement>, compress: Compress) -> (r: Vec<u8>)
    ensures
        r@ == ed_seq_bytes(points@, compress),
        r@.len() == seq_encoded_len(points@.len(), ed_encoded_len(compress)),
        r@.subrange(0, 8) == spec_u64_to_le_bytes(points@.len() as u64),
{
    let mut parts: Vec<Vec<u8>> = Vec::new();
    let mut i: usize = 0;
    while i < points.len()
        invariant
            i <= points@.len(),
            parts@.len() == i,
            forall|k: int| 0 <= k < i ==> (#[trigger] parts@[k])@ == ed_bytes_of(
                points@[k],
                compress,
            ),
            forall|k: int| 0 <= k < i ==> (#[trigger] parts@[k])@.len() == ed_encoded_len(
                compress,
            ),
        decreases points@.len() - i,
    {
        let bytes = ed_serialize(&points[i], compress);
        parts.push(bytes);
        i += 1;
    }
    let r = encode_parts(&parts);
    proof {
        let views = parts.deep_view();
        let expected = Seq::new(points@.len(), |k: int| ed_bytes_of(points@[k], compress));
        assert(views.len() == points@.len());
        assert forall|k: int| 0 <= k < views.len() implies #[trigger] views[k] == expected[k] by {
            assert(views[k] == parts@[k]@);
        }
        assert(views =~= expected);
        assert forall|k: int| 0 <= k < views.len() implies (#[trigger] views[k]).len()
            == ed_encoded_len(compress) by {
            assert(views[k] == parts@[k]@);
        }
        lemma_concat_uniform_len(views, ed_encoded_len(compress));
        lemma_auto_spec_u64_to_from_le_bytes();
        assert(r@.subrange(0, 8) =~= spec_u64_to_le_bytes(points@.len() as u64));
    }
    r
}

/// A value wrapped for passage through codec B: owns exactly the wrapped
/// value, with the packed policy `U` as a static parameter.
pub struct ArkScale<T, const U: u8>(pub T);

impl<T, const U: u8> core::convert::From<T> for ArkScale<T, U> {
    fn from(t: T) -> ArkScale<T, U> {
        ArkScale(t)
    }
}

impl<T, const U: u8> vstd::std_specs::convert::FromSpecImpl<T> for ArkScale<T, U> {
    open spec fn obeys_from_spec() -> bool {
        true
    }

    open spec fn from_spec(t: T) -> ArkScale<T, U> {
        ArkScale(t)
    }
}

/// An encode-only wrapper around a borrowed value, for encoding a large
/// value without first copying it; otherwise exactly [`ArkScale`].
pub struct ArkScaleRef<'a, T, const U: u8>(pub &'a T);

impl<'a, T, const U: u8> core::convert::From<&'a T> for ArkScaleRef<'a, T, U> {
    fn from(t: &'a T) -> ArkScaleRef<'a, T, U> {
        ArkScaleRef(t)
    }
}

impl<'a, T, const U: u8> vstd::std_specs::convert::FromSpecImpl<&'a T> for ArkScaleRef<'a, T, U> {
    open spec fn obeys_from_spec() -> bool {
        true
    }

    open spec fn from_spec(t: &'a T) -> ArkScaleRef<'a, T, U> {
        ArkScaleRef(t)
    }
}

impl<const U: u8> ArkScale<FrElement, U> {
    /// The number of bytes [`Self::encode`] will produce.
    pub fn size_hint(&self) -> (r: usize)
        requires
            U < 4,
        ensures
            r == fr_encoded_len(compress_of(U)),
    {
        fr_serialized_size(&self.0, is_compressed(U))
    }

    /// The number of bytes [`Self::encode`] will produce.
    pub fn encoded_size(&self) -> (r: usize)
        requires
            U < 4,
        ensures
            r == fr_encoded_len(compress_of(U)),
    {
        fr_serialized_size(&self.0, is_compressed(U))
    }

    /// Appends exactly the wrapped element's canonical encoding under
    /// the policy's compression mode to `dest`.
    pub fn encode_to(&self, dest: &mut Vec<u8>)
        requires
            U < 4,
        ensures
            final(dest)@ == old(dest)@ + fr_bytes_of(self.0, compress_of(U)),
            final(dest)@.len() == old(dest)@.len() + fr_encoded_len(compress_of(U)),
    {
        let bytes = fr_serialize(&self.0, is_compressed(U));
        push_all(dest, &bytes);
    }

    /// The wrapped element's canonical encoding under the policy's
    /// compression mode, and nothing else; decoding it under any
    /// validation mode yields the element back.
    pub fn encode(&self) -> (r: Vec<u8>)
        requires
            U < 4,
        ensures
            r@ == fr_bytes_of(self.0, compress_of(U)),
            r@.len() == fr_encoded_len(compress_of(U)),
            forall|val: Validate| #[trigger] fr_parse(r@, compress_of(U), val) == Some(self.0),
    {
        fr_serialize(&self.0, is_compressed(U))
    }

    /// Decodes one wrapped element from the front of `input` under the
    /// policy's modes: the result is arkworks' parse, wrapped, and an
    /// input shorter than the element's fixed encoding is rejected with
    /// a translated error, never a panic.
    pub fn decode(input: &[u8]) -> (r: Result<ArkScale<FrElement, U>, ScaleError>)
        requires
            U < 4,
        ensures
            input@.len() < fr_encoded_len(compress_of(U)) ==> r is Err,
            r is Ok <==> fr_parse(input@, compress_of(U), validate_of(U)) is Some,
            r matches Ok(w) ==> fr_parse(input@, compress_of(U), validate_of(U)) == Some(w.0),
    {
        match fr_deserialize(input, is_compressed(U), is_validated(U)) {
            Ok(v) => Ok(ArkScale(v)),
            Err(e) => Err(ark_error_to_scale_error(e)),
        }
    }
}

impl<const U: u8> ArkScale<G1Element, U> {
    /// The number of bytes [`Self::encode`] will produce.
    pub fn size_hint(&self) -> (r: usize)
        requires
            U < 4,
        ensures
            r == g1_encoded_len(compress_of(U)),
    {
        g1_serialized_size(&self.0, is_compressed(U))
    }

    /// The number of bytes [`Self::encode`] will produce.
    pub fn encoded_size(&self) -> (r: usize)
        requires
            U < 4,
        ensures
            r == g1_encoded_len(compress_of(U)),
    {
        g1_serialized_size(&self.0, is_compressed(U))
    }

    /// Appends exactly the wrapped point's canonical encoding under the
    /// policy's compression mode to `dest`.
    pub fn encode_to(&self, dest: &mut Vec<u8>)
        requires
            U < 4,
        ensures
            final(dest)@ == old(dest)@ + g1_bytes_of(self.0, compress_of(U)),
            final(dest)@.len() == old(dest)@.len() + g1_encoded_len(compress_of(U)),
    {
        let bytes = g1_serialize(&self.0, is_compressed(U));
        push_all(dest, &bytes);
    }

    /// The wrapped point's canonical encoding under the policy's
    /// compression mode, and nothing else; for a canonical, valid point
    /// decoding it under any validation mode yields the point back.
    pub fn encode(&self) -> (r: Vec<u8>)
        requires
            U < 4,
        ensures
            r@ == g1_bytes_of(self.0, compress_of(U)),
            r@.len() == g1_encoded_len(compress_of(U)),
            g1_valid(self.0) ==> forall|val: Validate| #[trigger] g1_parse(
                r@,
                compress_of(U),
                val,
            ) == Some(self.0),
    {
        g1_serialize(&self.0, is_compressed(U))
    }

    /// Decodes one wrapped point from the front of `input` under the
    /// policy's modes: the result is arkworks' parse, wrapped, and an
    /// input shorter than the point's fixed encoding is rejected with a
    /// translated error, never a panic.
    pub fn decode(input: &[u8]) -> (r: Result<ArkScale<G1Element, U>, ScaleError>)
        requires
            U < 4,
        ensures
            input@.len() < g1_encoded_len(compress_of(U)) ==> r is Err,
            r is Ok <==> g1_parse(input@, compress_of(U), validate_of(U)) is Some,
            r matches Ok(w) ==> g1_parse(input@, compress_of(U), validate_of(U)) == Some(w.0),
    {
        match g1_deserialize(input, is_compressed(U), is_validated(U)) {
            Ok(p) => Ok(ArkScale(p)),
            Err(e) => Err(ark_error_to_scale_error(e)),
        }
    }
}

impl<const U: u8> ArkScale<EdElement, U> {
    /// The number of bytes [`Self::encode`] will produce.
    pub fn size_hint(&self) -> (r: usize)
        requires
            U < 4,
        ensures
            r == ed_encoded_len(compress_of(U)),
    {
        ed_serialized_size(&self.0, is_compressed(U))
    }

    /// The number of bytes [`Self::encode`] will produce.
    pub fn encoded_size(&self) -> (r: usize)
        requires
            U < 4,
        ensures
            r == ed_encoded_len(compress_of(U)),
    {
        ed_serialized_size(&self.0, is_compressed(U))
    }

    /// Appends exactly the wrapped point's canonical encoding under the
    /// policy's compression mode to `dest`.
    pub fn encode_to(&self, dest: &mut Vec<u8>)
        requires
            U < 4,
        ensures
            final(dest)@ == old(dest)@ + ed_bytes_of(self.0, compress_of(U)),
            final(dest)@.len() == old(dest)@.len() + ed_encoded_len(compress_of(U)),
    {
        let bytes = ed_serialize(&self.0, is_compressed(U));
        push_all(dest, &bytes);
    }

    /// The wrapped point's canonical encoding under the policy's
    /// compression mode, and nothing else; for a valid point decoding
    /// it under any validation mode yields the point back.
    pub fn encode(&self) -> (r: Vec<u8>)
        requires
            U < 4,
        ensures
            r@ == ed_bytes_of(self.0, compress_of(U)),
            r@.len() == ed_encoded_len(compress_of(U)),
            ed_valid(self.0) ==> forall|val: Validate| #[trigger] ed_parse(
                r@,
                compress_of(U),
                val,
            ) == Some(self.0),
    {
        ed_serialize(&self.0, is_compressed(U))
    }

    /// Decodes one wrapped point from the front of `input` under the
    /// policy's modes: the result is arkworks' parse, wrapped, and an
    /// input shorter than the point's fixed encoding is rejected with a
    /// translated error, never a panic.
    pub fn decode(input: &[u8]) -> (r: Result<ArkScale<EdElement, U>, ScaleError>)
        requires
            U < 4,
        ensures
            input@.len() < ed_encoded_len(compress_of(U)) ==> r is Err,
            r is Ok <==> ed_parse(input@, compress_of(U), validate_of(U)) is Some,
            r matches Ok(w) ==> ed_parse(input@, compress_of(U), validate_of(U)) == Some(w.0),
    {
        match ed_deserialize(input, is_compressed(U), is_validated(U)) {
            Ok(p) => Ok(ArkScale(p)),
            Err(e) => Err(ark_error_to_scale_error(e)),
        }
    }
}

impl<const U: u8> ArkScale<Vec<FrElement>, U> {
    /// The number of bytes [`Self::encode`] will produce: the count
    /// prefix plus one fixed-size encoding per element.
    pub fn size_hint(&self) -> (r: usize)
        requires
            U < 4,
            seq_encoded_len(self.0@.len(), fr_encoded_len(compress_of(U))) <= usize::MAX,
        ensures
            r == seq_encoded_len(self.0@.len(), fr_encoded_len(compress_of(U))),
    {
        self.encoded_size()
    }

    /// The number of bytes [`Self::encode`] will produce: the count
    /// prefix plus one fixed-size encoding per element.
    pub fn encoded_size(&self) -> (r: usize)
        requires
            U < 4,
            seq_encoded_len(self.0@.len(), fr_encoded_len(compress_of(U))) <= usize::MAX,
        ensures
            r == seq_encoded_len(self.0@.len(), fr_encoded_len(compress_of(U))),
    {
        let ghost elem: nat = fr_encoded_len(compress_of(U));
        let mut total: usize = 8;
        let mut i: usize = 0;
        while i < self.0.len()
            invariant
                U < 4,
                i <= self.0@.len(),
                total == 8 + i * elem,
                elem == fr_encoded_len(compress_of(U)),
                8 + self.0@.len() * elem <= usize::MAX,
            decreases self.0@.len() - i,
        {
            proof {
                assert((i + 1) * elem == i * elem + elem) by (nonlinear_arith);
                assert((i + 1) * elem <= self.0@.len() * elem) by (nonlinear_arith)
                    requires
                        i + 1 <= self.0@.len(),
                        elem >= 0,
                ;
            }
            total = total + fr_serialized_size(&self.0[i], is_compressed(U));
            i += 1;
        }
        total
    }

    /// Appends exactly the sequence's count-prefixed encoding to
    /// `dest`.
    pub fn encode_to(&self, dest: &mut Vec<u8>)
        requires
            U < 4,
        ensures
            final(dest)@ == old(dest)@ + fr_seq_bytes(self.0@, compress_of(U)),
            final(dest)@.len() == old(dest)@.len() + seq_encoded_len(
                self.0@.len(),
                fr_encoded_len(compress_of(U)),
            ),
    {
        let bytes = fr_vec_serialize(&self.0, is_compressed(U));
        push_all(dest, &bytes);
    }

    /// The sequence's encoding, exactly as the canonical framework
    /// writes the equivalent container: an 8-byte little-endian element
    /// count, then each element's canonical encoding in order.
    pub fn encode(&self) -> (r: Vec<u8>)
        requires
            U < 4,
        ensures
            r@ == fr_seq_bytes(self.0@, compress_of(U)),
            r@.len() == seq_encoded_len(self.0@.len(), fr_encoded_len(compress_of(U))),
            r@.subrange(0, 8) == spec_u64_to_le_bytes(self.0@.len() as u64),
    {
        let r = fr_vec_serialize(&self.0, is_compressed(U));
        proof {
            lemma_auto_spec_u64_to_from_le_bytes();
            assert(r@.subrange(0, 8) =~= spec_u64_to_le_bytes(self.0@.len() as u64));
        }
        r
    }

    /// Decodes a wrapped sequence from `input` under the policy's
    /// modes: the result is arkworks' parse, wrapped.  An input without
    /// a whole count prefix, or too short for the elements its prefix
    /// counts, is rejected with a translated error; the canonical
    /// encoding of any sequence of elements decodes to exactly that
    /// sequence.
    pub fn decode(input: &[u8]) -> (r: Result<ArkScale<Vec<FrElement>, U>, ScaleError>)
        requires
            U < 4,
        ensures
            input@.len() < 8 ==> r is Err,
            r is Ok <==> fr_vec_parse(input@, compress_of(U), validate_of(U)) is Some,
            r matches Ok(w) ==> fr_vec_parse(input@, compress_of(U), validate_of(U)) == Some(
                w.0@,
            ),
            r matches Ok(w) ==> input@.len() >= 8 && w.0@.len() == spec_u64_from_le_bytes(
                input@.subrange(0, 8),
            ),
            r matches Ok(w) ==> input@.len() >= 8 + w.0@.len() * fr_encoded_len(compress_of(U)),
            forall|elems: Seq<FrElement>|
                input@ == #[trigger] fr_seq_bytes(elems, compress_of(U)) ==> (r matches Ok(w)
                    && w.0@ == elems),
    {
        match fr_vec_deserialize(input, is_compressed(U), is_validated(U)) {
            Ok(elems) => Ok(ArkScale(elems)),
            Err(e) => Err(ark_error_to_scale_error(e)),
        }
    }
}

impl<const U: u8> ArkScale<Vec<G1Element>, U> {
    /// The number of bytes [`Self::encode`] will produce: the count
    /// prefix plus one fixed-size encoding per point.
    pub fn size_hint(&self) -> (r: usize)
        requires
            U < 4,
            seq_encoded_len(self.0@.len(), g1_encoded_len(compress_of(U))) <= usize::MAX,
        ensures
            r == seq_encoded_len(self.0@.len(), g1_encoded_len(compress_of(U))),
    {
        self.encoded_size()
    }

    /// The number of bytes [`Self::encode`] will produce: the count
    /// prefix plus one fixed-size encoding per point.
    pub fn encoded_size(&self) -> (r: usize)
        requires
            U < 4,
            seq_encoded_len(self.0@.len(), g1_encoded_len(compress_of(U))) <= usize::MAX,
        ensures
            r == seq_encoded_len(self.0@.len(), g1_encoded_len(compress_of(U))),
    {
        let ghost elem: nat = g1_encoded_len(compress_of(U));
        let mut total: usize = 8;
        let mut i: usize = 0;
        while i < self.0.len()
            invariant
                U < 4,
                i <= self.0@.len(),
                total == 8 + i * elem,
                elem == g1_encoded_len(compress_of(U)),
                8 + self.0@.len() * elem <= usize::MAX,
            decreases self.0@.len() - i,
        {
            proof {
                assert((i + 1) * elem == i * elem + elem) by (nonlinear_arith);
                assert((i + 1) * elem <= self.0@.len() * elem) by (nonlinear_arith)
                    requires
                        i + 1 <= self.0@.len(),
                        elem >= 0,
                ;
            }
            total = total + g1_serialized_size(&self.0[i], is_compressed(U));
            i += 1;
        }
        total
    }

    /// Appends exactly the sequence's count-prefixed encoding to
    /// `dest`.
    pub fn encode_to(&self, dest: &mut Vec<u8>)
        requires
            U < 4,
        ensures
            final(dest)@ == old(dest)@ + g1_seq_bytes(self.0@, compress_of(U)),
            final(dest)@.len() == old(dest)@.len() + seq_encoded_len(
                self.0@.len(),
                g1_encoded_len(compress_of(U)),
            ),
    {
        let bytes = g1_vec_serialize(&self.0, is_compressed(U));
        push_all(dest, &bytes);
    }

    /// The sequence's encoding, exactly as the canonical framework
    /// writes the equivalent container: an 8-byte little-endian element
    /// count, then each point's canonical encoding in order.
    pub fn encode(&self) -> (r: Vec<u8>)
        requires
            U < 4,
        ensures
            r@ == g1_seq_bytes(self.0@, compress_of(U)),
            r@.len() == seq_encoded_len(self.0@.len(), g1_encoded_len(compress_of(U))),
            r@.subrange(0, 8) == spec_u64_to_le_bytes(self.0@.len() as u64),
    {
        let r = g1_vec_serialize(&self.0, is_compressed(U));
        proof {
            lemma_auto_spec_u64_to_from_le_bytes();
            assert(r@.subrange(0, 8) =~= spec_u64_to_le_bytes(self.0@.len() as u64));
        }
        r
    }

    /// Decodes a wrapped sequence from `input` under the policy's
    /// modes: the result is arkworks' parse, wrapped.  An input without
    /// a whole count prefix, or too short for the points its prefix
    /// counts, is rejected with a translated error; the canonical
    /// encoding of any sequence of canonical, valid points decodes to
    /// exactly that sequence.
    pub fn decode(input: &[u8]) -> (r: Result<ArkScale<Vec<G1Element>, U>, ScaleError>)
        requires
            U < 4,
        ensures
            input@.len() < 8 ==> r is Err,
            r is Ok <==> g1_vec_parse(input@, compress_of(U), validate_of(U)) is Some,
            r matches Ok(w) ==> g1_vec_parse(input@, compress_of(U), validate_of(U)) == Some(
                w.0@,
            ),
            r matches Ok(w) ==> input@.len() >= 8 && w.0@.len() == spec_u64_from_le_bytes(
                input@.subrange(0, 8),
            ),
            r matches Ok(w) ==> input@.len() >= 8 + w.0@.len() * g1_encoded_len(compress_of(U)),
            forall|points: Seq<G1Element>|
                (input@ == #[trigger] g1_seq_bytes(points, compress_of(U)) && (forall|i: int|
                    0 <= i < points.len() ==> g1_valid(#[trigger] points[i]))) ==> (r matches Ok(w)
                    && w.0@ == points),
    {
        match g1_vec_deserialize(input, is_compressed(U), is_validated(U)) {
            Ok(points) => Ok(ArkScale(points)),
            Err(e) => Err(ark_error_to_scale_error(e)),
        }
    }
}

impl<const U: u8> ArkScale<Vec<EdElement>, U> {
    /// The number of bytes [`Self::encode`] will produce: the count
    /// prefix plus one fixed-size encoding per point.
    pub fn size_hint(&self) -> (r: usize)
        requires
            U < 4,
            seq_encoded_len(self.0@.len(), ed_encoded_len(compress_of(U))) <= usize::MAX,
        ensures
            r == seq_encoded_len(self.0@.len(), ed_encoded_len(compress_of(U))),
    {
        self.encoded_size()
    }

    /// The number of bytes [`Self::encode`] will produce: the count
    /// prefix plus one fixed-size encoding per point.
    pub fn encoded_size(&self) -> (r: usize)
        requires
            U < 4,
            seq_encoded_len(self.0@.len(), ed_encoded_len(compress_of(U))) <= usize::MAX,
        ensures
            r == seq_encoded_len(self.0@.len(), ed_encoded_len(compress_of(U))),
    {
        let ghost elem: nat = ed_encoded_len(compress_of(U));
        let mut total: usize = 8;
        let mut i: usize = 0;
        while i < self.0.len()
            invariant
                U < 4,
                i <= self.0@.len(),
                total == 8 + i * elem,
                elem == ed_encoded_len(compress_of(U)),
                8 + self.0@.len() * elem <= usize::MAX,
            decreases self.0@.len() - i,
        {
            proof {
                assert((i + 1) * elem == i * elem + elem) by (nonlinear_arith);
                assert((i + 1) * elem <= self.0@.len() * elem) by (nonlinear_arith)
                    requires
                        i + 1 <= self.0@.len(),
                        elem >= 0,
                ;
            }
            total = total + ed_serialized_size(&self.0[i], is_compressed(U));
            i += 1;
        }
        total
    }

    /// Appends exactly the sequence's count-prefixed encoding to
    /// `dest`.
    pub fn encode_to(&self, dest: &mut Vec<u8>)
        requires
            U < 4,
        ensures
            final(dest)@ == old(dest)@ + ed_seq_bytes(self.0@, compress_of(U)),
            final(dest)@.len() == old(dest)@.len() + seq_encoded_len(
                self.0@.len(),
                ed_encoded_len(compress_of(U)),
            ),
    {
        let bytes = ed_vec_serialize(&self.0, is_compressed(U));
        push_all(dest, &bytes);
    }

    /// The sequence's encoding, exactly as the canonical framework
    /// writes the equivalent container: an 8-byte little-endian element
    /// count, then each point's canonical encoding in order.
    pub fn encode(&self) -> (r: Vec<u8>)
        requires
            U < 4,
        ensures
            r@ == ed_seq_bytes(self.0@, compress_of(U)),
            r@.len() == seq_encoded_len(self.0@.len(), ed_encoded_len(compress_of(U))),
            r@.subrange(0, 8) == spec_u64_to_le_bytes(self.0@.len() as u64),
    {
        let r = ed_vec_serialize(&self.0, is_compressed(U));
        proof {
            lemma_auto_spec_u64_to_from_le_bytes();
            assert(r@.subrange(0, 8) =~= spec_u64_to_le_bytes(self.0@.len() as u64));
        }
        r
    }

    /// Decodes a wrapped sequence from `input` under the policy's
    /// modes: the result is arkworks' parse, wrapped.  An input without
    /// a whole count prefix, or too short for the points its prefix
    /// counts, is rejected with a translated error; the canonical
    /// encoding of any sequence of valid points decodes to exactly that
    /// sequence.
    pub fn decode(input: &[u8]) -> (r: Result<ArkScale<Vec<EdElement>, U>, ScaleError>)
        requires
            U < 4,
        ensures
            input@.len() < 8 ==> r is Err,
            r is Ok <==> ed_vec_parse(input@, compress_of(U), validate_of(U)) is Some,
            r matches Ok(w) ==> ed_vec_parse(input@, compress_of(U), validate_of(U)) == Some(
                w.0@,
            ),
            r matches Ok(w) ==> input@.len() >= 8 && w.0@.len() == spec_u64_from_le_bytes(
                input@.subrange(0, 8),
            ),
            r matches Ok(w) ==> input@.len() >= 8 + w.0@.len() * ed_encoded_len(compress_of(U)),
            forall|points: Seq<EdElement>|
                (input@ == #[trigger] ed_seq_bytes(points, compress_of(U)) && (forall|i: int|
                    0 <= i < points.len() ==> ed_valid(#[trigger] points[i]))) ==> (r matches Ok(w)
                    && w.0@ == points),
    {
        match ed_vec_deserialize(input, is_compressed(U), is_validated(U)) {
            Ok(points) => Ok(ArkScale(points)),
            Err(e) => Err(ark_error_to_scale_error(e)),
        }
    }
}

impl<'a, const U: u8> ArkScaleRef<'a, FrElement, U> {
    /// The number of bytes [`Self::encode`] will produce.
    pub fn size_hint(&self) -> (r: usize)
        requires
            U < 4,
        ensures
            r == fr_encoded_len(compress_of(U)),
    {
        fr_serialized_size(self.0, is_compressed(U))
    }

    /// The number of bytes [`Self::encode`] will produce.
    pub fn encoded_size(&self) -> (r: usize)
        requires
            U < 4,
        ensures
            r == fr_encoded_len(compress_of(U)),
    {
        fr_serialized_size(self.0, is_compressed(U))
    }

    /// Appends exactly the borrowed element's canonical encoding under
    /// the policy's compression mode to `dest`.
    pub fn encode_to(&self, dest: &mut Vec<u8>)
        requires
            U < 4,
        ensures
            final(dest)@ == old(dest)@ + fr_bytes_of(*self.0, compress_of(U)),
            final(dest)@.len() == old(dest)@.len() + fr_encoded_len(compress_of(U)),
    {
        let bytes = fr_serialize(self.0, is_compressed(U));
        push_all(dest, &bytes);
    }

    /// The borrowed element's canonical encoding under the policy's
    /// compression mode — the same bytes the owning wrapper produces.
    pub fn encode(&self) -> (r: Vec<u8>)
        requires
            U < 4,
        ensures
            r@ == fr_bytes_of(*self.0, compress_of(U)),
            r@.len() == fr_encoded_len(compress_of(U)),
    {
        fr_serialize(self.0, is_compressed(U))
    }
}

impl<'a, const U: u8> ArkScaleRef<'a, G1Element, U> {
    /// The number of bytes [`Self::encode`] will produce.
    pub fn size_hint(&self) -> (r: usize)
        requires
            U < 4,
        ensures
            r == g1_encoded_len(compress_of(U)),
    {
        g1_serialized_size(self.0, is_compressed(U))
    }

    /// The number of bytes [`Self::encode`] will produce.
    pub fn encoded_size(&self) -> (r: usize)
        requires
            U < 4,
        ensures
            r == g1_encoded_len(compress_of(U)),
    {
        g1_serialized_size(self.0, is_compressed(U))
    }

    /// Appends exactly the borrowed point's canonical encoding under
    /// the policy's compression mode to `dest`.
    pub fn encode_to(&self, dest: &mut Vec<u8>)
        requires
            U < 4,
        ensures
            final(dest)@ == old(dest)@ + g1_bytes_of(*self.0, compress_of(U)),
            final(dest)@.len() == old(dest)@.len() + g1_encoded_len(compress_of(U)),
    {
        let bytes = g1_serialize(self.0, is_compressed(U));
        push_all(dest, &bytes);
    }

    /// The borrowed point's canonical encoding under the policy's
    /// compression mode — the same bytes the owning wrapper produces.
    pub fn encode(&self) -> (r: Vec<u8>)
        requires
            U < 4,
        ensures
            r@ == g1_bytes_of(*self.0, compress_of(U)),
            r@.len() == g1_encoded_len(compress_of(U)),
    {
        g1_serialize(self.0, is_compressed(U))
    }
}

impl<'a, const U: u8> ArkScaleRef<'a, EdElement, U> {
    /// The number of bytes [`Self::encode`] will produce.
    pub fn size_hint(&self) -> (r: usize)
        requires
            U < 4,
        ensures
            r == ed_encoded_len(compress_of(U)),
    {
        ed_serialized_size(self.0, is_compressed(U))
    }

    /// The number of bytes [`Self::encode`] will produce.
    pub fn encoded_size(&self) -> (r: usize)
        requires
            U < 4,
        ensures
            r == ed_encoded_len(compress_of(U)),
    {
        ed_serialized_size(self.0, is_compressed(U))
    }

    /// Appends exactly the borrowed point's canonical encoding under
    /// the policy's compression mode to `dest`.
    pub fn encode_to(&self, dest: &mut Vec<u8>)
        requires
            U < 4,
        ensures
            final(dest)@ == old(dest)@ + ed_bytes_of(*self.0, compress_of(U)),
            final(dest)@.len() == old(dest)@.len() + ed_encoded_len(compress_of(U)),
    {
        let bytes = ed_serialize(self.0, is_compressed(U));
        push_all(dest, &bytes);
    }

    /// The borrowed point's canonical encoding under the policy's
    /// compression mode — the same bytes the owning wrapper produces.
    pub fn encode(&self) -> (r: Vec<u8>)
        requires
            U < 4,
        ensures
            r@ == ed_bytes_of(*self.0, compress_of(U)),
            r@.len() == ed_encoded_len(compress_of(U)),
    {
        ed_serialize(self.0, is_compressed(U))
    }
}

impl<'a, const U: u8> ArkScaleRef<'a, Vec<FrElement>, U> {
    /// The number of bytes [`Self::encode`] will produce: the count
    /// prefix plus one fixed-size encoding per element.
    pub fn size_hint(&self) -> (r: usize)
        requires
            U < 4,
            seq_encoded_len(self.0@.len(), fr_encoded_len(compress_of(U))) <= usize::MAX,
        ensures
            r == seq_encoded_len(self.0@.len(), fr_encoded_len(compress_of(U))),
    {
        self.encoded_size()
    }

    /// The number of bytes [`Self::encode`] will produce: the count
    /// prefix plus one fixed-size encoding per element.
    pub fn encoded_size(&self) -> (r: usize)
        requires
            U < 4,
            seq_encoded_len(self.0@.len(), fr_encoded_len(compress_of(U))) <= usize::MAX,
        ensures
            r == seq_encoded_len(self.0@.len(), fr_encoded_len(compress_of(U))),
    {
        let ghost elem: nat = fr_encoded_len(compress_of(U));
        let mut total: usize = 8;
        let mut i: usize = 0;
        while i < self.0.len()
            invariant
                U < 4,
                i <= self.0@.len(),
                total == 8 + i * elem,
                elem == fr_encoded_len(compress_of(U)),
                8 + self.0@.len() * elem <= usize::MAX,
            decreases self.0@.len() - i,
        {
            proof {
                assert((i + 1) * elem == i * elem + elem) by (nonlinear_arith);
                assert((i + 1) * elem <= self.0@.len() * elem) by (nonlinear_arith)
                    requires
                        i + 1 <= self.0@.len(),
                        elem >= 0,
                ;
            }
            total = total + fr_serialized_size(&self.0[i], is_compressed(U));
            i += 1;
        }
        total
    }

    /// The borrowed sequence's count-prefixed encoding — the same bytes
    /// the owning wrapper produces.
    pub fn encode(&self) -> (r: Vec<u8>)
        requires
            U < 4,
        ensures
            r@ == fr_seq_bytes(self.0@, compress_of(U)),
            r@.len() == seq_encoded_len(self.0@.len(), fr_encoded_len(compress_of(U))),
            r@.subrange(0, 8) == spec_u64_to_le_bytes(self.0@.len() as u64),
    {
        fr_encode_all(self.0, is_compressed(U))
    }

    /// Appends exactly the borrowed sequence's count-prefixed encoding
    /// to `dest`.
    pub fn encode_to(&self, dest: &mut Vec<u8>)
        requires
            U < 4,
        ensures
            final(dest)@ == old(dest)@ + fr_seq_bytes(self.0@, compress_of(U)),
            final(dest)@.len() == old(dest)@.len() + seq_encoded_len(
                self.0@.len(),
                fr_encoded_len(compress_of(U)),
            ),
    {
        let bytes = fr_encode_all(self.0, is_compressed(U));
        push_all(dest, &bytes);
    }
}

impl<'a, const U: u8> ArkScaleRef<'a, Vec<G1Element>, U> {
    /// The number of bytes [`Self::encode`] will produce: the count
    /// prefix plus one fixed-size encoding per point.
    pub fn size_hint(&self) -> (r: usize)
        requires
            U < 4,
            seq_encoded_len(self.0@.len(), g1_encoded_len(compress_of(U))) <= usize::MAX,
        ensures
            r == seq_encoded_len(self.0@.len(), g1_encoded_len(compress_of(U))),
    {
        self.encoded_size()
    }

    /// The number of bytes [`Self::encode`] will produce: the count
    /// prefix plus one fixed-size encoding per point.
    pub fn encoded_size(&self) -> (r: usize)
        requires
            U < 4,
            seq_encoded_len(self.0@.len(), g1_encoded_len(compress_of(U))) <= usize::MAX,
        ensures
            r == seq_encoded_len(self.0@.len(), g1_encoded_len(compress_of(U))),
    {
        let ghost elem: nat = g1_encoded_len(compress_of(U));
        let mut total: usize = 8;
        let mut i: usize = 0;
        while i < self.0.len()
            invariant
                U < 4,
                i <= self.0@.len(),
                total == 8 + i * elem,
                elem == g1_encoded_len(compress_of(U)),
                8 + self.0@.len() * elem <= usize::MAX,
            decreases self.0@.len() - i,
        {
            proof {
                assert((i + 1) * elem == i * elem + elem) by (nonlinear_arith);
                assert((i + 1) * elem <= self.0@.len() * elem) by (nonlinear_arith)
                    requires
                        i + 1 <= self.0@.len(),
                        elem >= 0,
                ;
            }
            total = total + g1_serialized_size(&self.0[i], is_compressed(U));
            i += 1;
        }
        total
    }

    /// The borrowed sequence's count-prefixed encoding — the same bytes
    /// the owning wrapper produces.
    pub fn encode(&self) -> (r: Vec<u8>)
        requires
            U < 4,
        ensures
            r@ == g1_seq_bytes(self.0@, compress_of(U)),
            r@.len() == seq_encoded_len(self.0@.len(), g1_encoded_len(compress_of(U))),
            r@.subrange(0, 8) == spec_u64_to_le_bytes(self.0@.len() as u64),
    {
        g1_encode_all(self.0, is_compressed(U))
    }

    /// Appends exactly the borrowed sequence's count-prefixed encoding
    /// to `dest`.
    pub fn encode_to(&self, dest: &mut Vec<u8>)
        requires
            U < 4,
        ensures
            final(dest)@ == old(dest)@ + g1_seq_bytes(self.0@, compress_of(U)),
            final(dest)@.len() == old(dest)@.len() + seq_encoded_len(
                self.0@.len(),
                g1_encoded_len(compress_of(U)),
            ),
    {
        let bytes = g1_encode_all(self.0, is_compressed(U));
        push_all(dest, &bytes);
    }
}

impl<'a, const U: u8> ArkScaleRef<'a, Vec<EdElement>, U> {
    /// The number of bytes [`Self::encode`] will produce: the count
    /// prefix plus one fixed-size encoding per point.
    pub fn size_hint(&self) -> (r: usize)
        requires
            U < 4,
            seq_encoded_len(self.0@.len(), ed_encoded_len(compress_of(U))) <= usize::MAX,
        ensures
            r == seq_encoded_len(self.0@.len(), ed_encoded_len(compress_of(U))),
    {
        self.encoded_size()
    }

    /// The number of bytes [`Self::encode`] will produce: the count
    /// prefix plus one fixed-size encoding per point.
    pub fn encoded_size(&self) -> (r: usize)
        requires
            U < 4,
            seq_encoded_len(self.0@.len(), ed_encoded_len(compress_of(U))) <= usize::MAX,
        ensures
            r == seq_encoded_len(self.0@.len(), ed_encoded_len(compress_of(U))),
    {
        let ghost elem: nat = ed_encoded_len(compress_of(U));
        let mut total: usize = 8;
        let mut i: usize = 0;
        while i < self.0.len()
            invariant
                U < 4,
                i <= self.0@.len(),
                total == 8 + i * elem,
                elem == ed_encoded_len(compress_of(U)),
                8 + self.0@.len() * elem <= usize::MAX,
            decreases self.0@.len() - i,
        {
            proof {
                assert((i + 1) * elem == i * elem + elem) by (nonlinear_arith);
                assert((i + 1) * elem <= self.0@.len() * elem) by (nonlinear_arith)
                    requires
                        i + 1 <= self.0@.len(),
                        elem >= 0,
                ;
            }
            total = total + ed_serialized_size(&self.0[i], is_compressed(U));
            i += 1;
        }
        total
    }

    /// The borrowed sequence's count-prefixed encoding — the same bytes
    /// the owning wrapper produces.
    pub fn encode(&self) -> (r: Vec<u8>)
        requires
            U < 4,
        ensures
            r@ == ed_seq_bytes(self.0@, compress_of(U)),
            r@.len() == seq_encoded_len(self.0@.len(), ed_encoded_len(compress_of(U))),
            r@.subrange(0, 8) == spec_u64_to_le_bytes(self.0@.len() as u64),
    {
        ed_encode_all(self.0, is_compressed(U))
    }

    /// Appends exactly the borrowed sequence's count-prefixed encoding
    /// to `dest`.
    pub fn encode_to(&self, dest: &mut Vec<u8>)
        requires
            U < 4,
        ensures
            final(dest)@ == old(dest)@ + ed_seq_bytes(self.0@, compress_of(U)),
            final(dest)@.len() == old(dest)@.len() + seq_encoded_len(
                self.0@.len(),
                ed_encoded_len(compress_of(U)),
            ),
    {
        let bytes = ed_encode_all(self.0, is_compressed(U));
        push_all(dest, &bytes);
    }
}

/// Serializes a sequence of field elements exactly as the canonical
/// framework encodes the equivalent sequence container
/// ([`fr_seq_bytes`]), by the streaming layout of
/// [`crate::frame::sequence_layout`].  Element serialization to an
/// in-memory buffer cannot fail, so the result is always `Ok`; the
/// error type is kept for parity with the framework's contract.
pub fn iter_ark_to_ark_bytes_fr(elems: &Vec<FrElement>, usage: u8) -> (r: Result<
    Vec<u8>,
    ArkError,
>)
    requires
        usage < 4,
    ensures
        r is Ok,
        r matches Ok(bytes) ==> bytes@ == fr_seq_bytes(elems@, compress_of(usage)),
        r matches Ok(bytes) ==> bytes@.len() == seq_encoded_len(
            elems@.len(),
            fr_encoded_len(compress_of(usage)),
        ),
        r matches Ok(bytes) ==> bytes@.subrange(0, 8) == spec_u64_to_le_bytes(
            elems@.len() as u64,
        ),
{
    Ok(fr_encode_all(elems, is_compressed(usage)))
}

/// As [`iter_ark_to_ark_bytes_fr`], with any failure translated to a
/// codec-B error.
pub fn iter_ark_to_scale_bytes_fr(elems: &Vec<FrElement>, usage: u8) -> (r: Result<
    Vec<u8>,
    ScaleError,
>)
    requires
        usage < 4,
    ensures
        r is Ok,
        r matches Ok(bytes) ==> bytes@ == fr_seq_bytes(elems@, compress_of(usage)),
        r matches Ok(bytes) ==> bytes@.len() == seq_encoded_len(
            elems@.len(),
            fr_encoded_len(compress_of(usage)),
        ),
        r matches Ok(bytes) ==> bytes@.subrange(0, 8) == spec_u64_to_le_bytes(
            elems@.len() as u64,
        ),
{
    match iter_ark_to_ark_bytes_fr(elems, usage) {
        Ok(bytes) => Ok(bytes),
        Err(e) => Err(ark_error_to_scale_error(e)),
    }
}

/// Serializes a sequence of points exactly as the canonical framework
/// encodes the equivalent sequence container ([`g1_seq_bytes`]), by the
/// streaming layout of [`crate::frame::sequence_layout`].  Element
/// serialization to an in-memory buffer cannot fail, so the result is
/// always `Ok`; the error type is kept for parity with the framework's
/// contract.
pub fn iter_ark_to_ark_bytes_g1(points: &Vec<G1Element>, usage: u8) -> (r: Result<
    Vec<u8>,
    ArkError,
>)
    requires
        usage < 4,
    ensures
        r is Ok,
        r matches Ok(bytes) ==> bytes@ == g1_seq_bytes(points@, compress_of(usage)),
        r matches Ok(bytes) ==> bytes@.len() == seq_encoded_len(
            points@.len(),
            g1_encoded_len(compress_of(usage)),
        ),
        r matches Ok(bytes) ==> bytes@.subrange(0, 8) == spec_u64_to_le_bytes(
            points@.len() as u64,
        ),
{
    Ok(g1_encode_all(points, is_compressed(usage)))
}

/// As [`iter_ark_to_ark_bytes_g1`], with any failure translated to a
/// codec-B error.
pub fn iter_ark_to_scale_bytes_g1(points: &Vec<G1Element>, usage: u8) -> (r: Result<
    Vec<u8>,
    ScaleError,
>)
    requires
        usage < 4,
    ensures
        r is Ok,
        r matches Ok(bytes) ==> bytes@ == g1_seq_bytes(points@, compress_of(usage)),
        r matches Ok(bytes) ==> bytes@.len() == seq_encoded_len(
            points@.len(),
            g1_encoded_len(compress_of(usage)),
        ),
        r matches Ok(bytes) ==> bytes@.subrange(0, 8) == spec_u64_to_le_bytes(
            points@.len() as u64,
        ),
{
    match iter_ark_to_ark_bytes_g1(points, usage) {
        Ok(bytes) => Ok(bytes),
        Err(e) => Err(ark_error_to_scale_error(e)),
    }
}

/// Serializes a sequence of ed25519 points exactly as the canonical
/// framework encodes the equivalent sequence container
/// ([`ed_seq_bytes`]), by the streaming layout of
/// [`crate::frame::sequence_layout`].  Element serialization to an
/// in-memory buffer cannot fail, so the result is always `Ok`; the
/// error type is kept for parity with the framework's contract.
pub fn iter_ark_to_ark_bytes_ed(points: &Vec<EdElement>, usage: u8) -> (r: Result<
    Vec<u8>,
    ArkError,
>)
    requires
        usage < 4,
    ensures
        r is Ok,
        r matches Ok(bytes) ==> bytes@ == ed_seq_bytes(points@, compress_of(usage)),
        r matches Ok(bytes) ==> bytes@.len() == seq_encoded_len(
            points@.len(),
            ed_encoded_len(compress_of(usage)),
        ),
        r matches Ok(bytes) ==> bytes@.subrange(0, 8) == spec_u64_to_le_bytes(
            points@.len() as u64,
        ),
{
    Ok(ed_encode_all(points, is_compressed(usage)))
}

/// As [`iter_ark_to_ark_bytes_ed`], with any failure translated to a
/// codec-B error.
pub fn iter_ark_to_scale_bytes_ed(points: &Vec<EdElement>, usage: u8) -> (r: Result<
    Vec<u8>,
    ScaleError,
>)
    requires
        usage < 4,
    ensures
        r is Ok,
        r matches Ok(bytes) ==> bytes@ == ed_seq_bytes(points@, compress_of(usage)),
        r matches Ok(bytes) ==> bytes@.len() == seq_encoded_len(
            points@.len(),
            ed_encoded_len(compress_of(usage)),
        ),
        r matches Ok(bytes) ==> bytes@.subrange(0, 8) == spec_u64_to_le_bytes(
            points@.len() as u64,
        ),
{
    match iter_ark_to_ark_bytes_ed(points, usage) {
        Ok(bytes) => Ok(bytes),
        Err(e) => Err(ark_error_to_scale_error(e)),
    }
}

} // verus!
