//! The trusted boundary to arkworks' canonical serialization.
//!
//! Everything the bridge takes from arkworks crosses through this module:
//! the element types it carries, and one small wrapper per serialization
//! call, whose contract states what the called code plainly does.  The
//! element types hold their arkworks value in a field the verifier never
//! looks into; the bridge moves them, it does not compute with them.
//! The supported element types are the bls12-381 scalar field, its G1
//! group in affine form, and ed25519 points in affine form.
//!
//! Canonical serialization is deterministic — the bytes depend on the
//! element and the compression mode alone, and the parse result on the
//! input and the two modes alone — so each call's result carries a name
//! (`fr_bytes_of`, `fr_parse`, and their siblings), and the wrappers'
//! contracts pin their results to those names.  The names make the
//! bridge's functional properties statable: what a wrapper writes is
//! exactly the element's canonical encoding, parsing succeeds exactly
//! when arkworks' parse does, and parsing canonical bytes yields the
//! encoded elements back.

use vstd::bytes::spec_u64_from_le_bytes;
use vstd::prelude::*;

use crate::errors::{ArkError, IoCause};
use crate::frame::{seq_encoded_len, sequence_layout};
use crate::usage::{Compress, Validate};

verus! {

/// A bls12-381 scalar field element, held for the bridge; opaque to the
/// verifier.
#[verifier::external_body]
pub struct FrElement(pub ark_bls12_381::Fr);

/// A bls12-381 G1 point in affine form, held for the bridge; opaque to
/// the verifier.
#[verifier::external_body]
pub struct G1Element(pub ark_bls12_381::G1Affine);

/// An ed25519 point in twisted Edwards affine form, held for the
/// bridge; opaque to the verifier.
#[verifier::external_body]
pub struct EdElement(pub ark_ed25519::EdwardsAffine);

/// Arkworks' structured serialization error, converted on arrival into
/// the bridge's model of it.
#[verifier::external_type_specification]
#[verifier::external_body]
pub struct ExSerializationError(ark_serialize::SerializationError);

/// The number of bytes in the canonical encoding of a bls12-381 scalar
/// field element: the 255-bit modulus rounded up to whole bytes, under
/// either compression mode.
pub open spec fn fr_encoded_len(compress: Compress) -> nat {
    32
}

/// The number of bytes in the canonical encoding of a bls12-381 G1
/// affine point: one 48-byte coordinate when compressed, two when not.
pub open spec fn g1_encoded_len(compress: Compress) -> nat {
    match compress {
        Compress::Yes => 48nat,
        Compress::No => 96nat,
    }
}

/// The number of bytes in the canonical encoding of an ed25519 point:
/// the y coordinate with a sign flag when compressed, both 32-byte
/// coordinates when not.
pub open spec fn ed_encoded_len(compress: Compress) -> nat {
    match compress {
        Compress::Yes => 32nat,
        Compress::No => 64nat,
    }
}

/// What `CanonicalSerialize::serialize_with_mode` writes for a scalar
/// field element under a compression mode.
pub uninterp spec fn fr_bytes_of(v: FrElement, compress: Compress) -> Seq<u8>;

/// What `CanonicalDeserialize::deserialize_with_mode` makes of an input
/// for the scalar field: the decoded element, or `None` where arkworks
/// reports an error.
pub uninterp spec fn fr_parse(bytes: Seq<u8>, compress: Compress, validate: Validate) -> Option<
    FrElement,
>;

/// As [`fr_parse`], for `Vec` of scalar field elements: the decoded
/// sequence, or `None` where arkworks reports an error.
pub uninterp spec fn fr_vec_parse(bytes: Seq<u8>, compress: Compress, validate: Validate) -> Option<
    Seq<FrElement>,
>;

/// What `SWCurveConfig::serialize_with_mode` writes for a G1 point
/// under a compression mode.
pub uninterp spec fn g1_bytes_of(p: G1Element, compress: Compress) -> Seq<u8>;

/// What `SWCurveConfig::deserialize_with_mode` makes of an input for
/// G1: the decoded point, or `None` where arkworks reports an error.
pub uninterp spec fn g1_parse(bytes: Seq<u8>, compress: Compress, validate: Validate) -> Option<
    G1Element,
>;

/// As [`g1_parse`], for `Vec` of G1 points.
pub uninterp spec fn g1_vec_parse(bytes: Seq<u8>, compress: Compress, validate: Validate) -> Option<
    Seq<G1Element>,
>;

/// Whether a G1 point is in canonical affine form and passes arkworks'
/// `Valid::check` — on the curve and in the right subgroup, and not a
/// tampered representation of the point at infinity, which serialization
/// would normalize.  Every honestly constructed or deserialized point
/// qualifies.  The bridge states its round-trip guarantees for such
/// points only; nothing here claims the property of any particular
/// point.
pub uninterp spec fn g1_valid(p: G1Element) -> bool;

/// What `TECurveConfig::serialize_with_mode` writes for an ed25519
/// point under a compression mode.
pub uninterp spec fn ed_bytes_of(p: EdElement, compress: Compress) -> Seq<u8>;

/// What `TECurveConfig::deserialize_with_mode` makes of an input for
/// ed25519: the decoded point, or `None` where arkworks reports an
/// error.
pub uninterp spec fn ed_parse(bytes: Seq<u8>, compress: Compress, validate: Validate) -> Option<
    EdElement,
>;

/// As [`ed_parse`], for `Vec` of ed25519 points.
pub uninterp spec fn ed_vec_parse(bytes: Seq<u8>, compress: Compress, validate: Validate) -> Option<
    Seq<EdElement>,
>;

/// Whether an ed25519 point passes arkworks' `Valid::check`: on the
/// curve and in the right subgroup.  As with [`g1_valid`], the bridge
/// states its round-trip guarantees for such points only.
pub uninterp spec fn ed_valid(p: EdElement) -> bool;

/// The canonical encoding of a sequence of scalar field elements: the
/// count-prefixed layout over each element's canonical bytes.  This is
/// both what framework A writes for the equivalent `Vec` container and
/// what the bridge's streaming encoder produces.
pub open spec fn fr_seq_bytes(elems: Seq<FrElement>, compress: Compress) -> Seq<u8> {
    sequence_layout(Seq::new(elems.len(), |i: int| fr_bytes_of(elems[i], compress)))
}

/// As [`fr_seq_bytes`], for G1 points.
pub open spec fn g1_seq_bytes(points: Seq<G1Element>, compress: Compress) -> Seq<u8> {
    sequence_layout(Seq::new(points.len(), |i: int| g1_bytes_of(points[i], compress)))
}

/// As [`fr_seq_bytes`], for ed25519 points.
pub open spec fn ed_seq_bytes(points: Seq<EdElement>, compress: Compress) -> Seq<u8> {
    sequence_layout(Seq::new(points.len(), |i: int| ed_bytes_of(points[i], compress)))
}

/// Reads `ark_serialize::SerializationError`'s variants into the
/// bridge's model.  The readers this module hands to arkworks are plain
/// byte slices, so an I/O failure here can only come from running out of
/// input; its rendering is kept as the cause.
#[verifier::external_body]
fn ark_error_from(e: ark_serialize::SerializationError) -> ArkError {
    match e {
        ark_serialize::SerializationError::NotEnoughSpace => ArkError::NotEnoughSpace,
        ark_serialize::SerializationError::InvalidData => ArkError::InvalidData,
        ark_serialize::SerializationError::UnexpectedFlags => ArkError::UnexpectedFlags,
        ark_serialize::SerializationError::IoError(cause) => ArkError::Io(
            IoCause::Other(format!("{}", cause)),
        ),
    }
}

/// Relies on `CanonicalSerialize::serialize_with_mode` for
/// `ark_bls12_381::Fr`: it writes the element's fixed-size canonical
/// encoding ([`fr_bytes_of`]) and nothing else, cannot fail when the
/// sink is a byte vector, and the matching deserialize parses those
/// bytes back to the same element under either validation mode (the
/// field has no validity check and every element's value lies under the
/// modulus).
#[verifier::external_body]
pub(crate) fn fr_serialize(v: &FrElement, compress: Compress) -> (r: Vec<u8>)
    ensures
        r@ == fr_bytes_of(*v, compress),
        r@.len() == fr_encoded_len(compress),
        forall|val: Validate| #[trigger] fr_parse(r@, compress, val) == Some(*v),
{
    let mode = match compress {
        Compress::Yes => ark_serialize::Compress::Yes,
        Compress::No => ark_serialize::Compress::No,
    };
    let mut out = Vec::new();
    ark_serialize::CanonicalSerialize::serialize_with_mode(&v.0, &mut out, mode)
        .expect("writing to a byte vector cannot fail");
    out
}

/// Relies on `CanonicalSerialize::serialized_size` for
/// `ark_bls12_381::Fr`: the size is the field's fixed byte size.
#[verifier::external_body]
pub(crate) fn fr_serialized_size(v: &FrElement, compress: Compress) -> (r: usize)
    ensures
        r == fr_encoded_len(compress),
{
    let mode = match compress {
        Compress::Yes => ark_serialize::Compress::Yes,
        Compress::No => ark_serialize::Compress::No,
    };
    ark_serialize::CanonicalSerialize::serialized_size(&v.0, mode)
}

/// Relies on `CanonicalDeserialize::deserialize_with_mode` for
/// `ark_bls12_381::Fr`: it reads the element's fixed-size encoding from
/// the front of the input, so a shorter input fails; it returns the
/// parsed element exactly when arkworks parses one ([`fr_parse`]),
/// rejecting bytes at or beyond the modulus as invalid data.
#[verifier::external_body]
pub(crate) fn fr_deserialize(bytes: &[u8], compress: Compress, validate: Validate) -> (r: Result<
    FrElement,
    ArkError,
>)
    ensures
        bytes@.len() < fr_encoded_len(compress) ==> r is Err,
        r is Ok <==> fr_parse(bytes@, compress, validate) is Some,
        r matches Ok(v) ==> fr_parse(bytes@, compress, validate) == Some(v),
{
    let cmode = match compress {
        Compress::Yes => ark_serialize::Compress::Yes,
        Compress::No => ark_serialize::Compress::No,
    };
    let vmode = match validate {
        Validate::Yes => ark_serialize::Validate::Yes,
        Validate::No => ark_serialize::Validate::No,
    };
    match ark_serialize::CanonicalDeserialize::deserialize_with_mode(bytes, cmode, vmode) {
        Ok(v) => Ok(FrElement(v)),
        Err(e) => Err(ark_error_from(e)),
    }
}

/// Relies on `SWCurveConfig::serialize_with_mode` for bls12-381 G1: it
/// writes the point's fixed-size canonical encoding ([`g1_bytes_of`])
/// and nothing else, cannot fail when the sink is a byte vector, and,
/// for a point that is canonical and valid ([`g1_valid`]), the matching
/// deserialize parses those bytes back to the same point under either
/// validation mode.
#[verifier::external_body]
pub(crate) fn g1_serialize(p: &G1Element, compress: Compress) -> (r: Vec<u8>)
    ensures
        r@ == g1_bytes_of(*p, compress),
        r@.len() == g1_encoded_len(compress),
        g1_valid(*p) ==> forall|val: Validate| #[trigger] g1_parse(r@, compress, val) == Some(*p),
{
    let mode = match compress {
        Compress::Yes => ark_serialize::Compress::Yes,
        Compress::No => ark_serialize::Compress::No,
    };
    let mut out = Vec::new();
    ark_serialize::CanonicalSerialize::serialize_with_mode(&p.0, &mut out, mode)
        .expect("writing to a byte vector cannot fail");
    out
}

/// Relies on `SWCurveConfig::serialized_size` for bls12-381 G1: the size
/// is fixed by the compression mode alone.
#[verifier::external_body]
pub(crate) fn g1_serialized_size(p: &G1Element, compress: Compress) -> (r: usize)
    ensures
        r == g1_encoded_len(compress),
{
    let mode = match compress {
        Compress::Yes => ark_serialize::Compress::Yes,
        Compress::No => ark_serialize::Compress::No,
    };
    ark_serialize::CanonicalSerialize::serialized_size(&p.0, mode)
}

/// Relies on `SWCurveConfig::deserialize_with_mode` for bls12-381 G1: it
/// reads the point's fixed-size encoding from the front of the input, so
/// a shorter input fails; it returns the parsed point exactly when
/// arkworks parses one ([`g1_parse`]), rejecting bytes that name no
/// curve point and, when validation is on, points outside the right
/// subgroup.
#[verifier::external_body]
pub(crate) fn g1_deserialize(bytes: &[u8], compress: Compress, validate: Validate) -> (r: Result<
    G1Element,
    ArkError,
>)
    ensures
        bytes@.len() < g1_encoded_len(compress) ==> r is Err,
        r is Ok <==> g1_parse(bytes@, compress, validate) is Some,
        r matches Ok(p) ==> g1_parse(bytes@, compress, validate) == Some(p),
{
    let cmode = match compress {
        Compress::Yes => ark_serialize::Compress::Yes,
        Compress::No => ark_serialize::Compress::No,
    };
    let vmode = match validate {
        Validate::Yes => ark_serialize::Validate::Yes,
        Validate::No => ark_serialize::Validate::No,
    };
    match ark_serialize::CanonicalDeserialize::deserialize_with_mode(bytes, cmode, vmode) {
        Ok(p) => Ok(G1Element(p)),
        Err(e) => Err(ark_error_from(e)),
    }
}

/// Relies on `TECurveConfig::serialize_with_mode` for ed25519: it
/// writes the point's fixed-size canonical encoding ([`ed_bytes_of`])
/// and nothing else, cannot fail when the sink is a byte vector, and,
/// for a valid point ([`ed_valid`]), the matching deserialize parses
/// those bytes back to the same point under either validation mode.
#[verifier::external_body]
pub(crate) fn ed_serialize(p: &EdElement, compress: Compress) -> (r: Vec<u8>)
    ensures
        r@ == ed_bytes_of(*p, compress),
        r@.len() == ed_encoded_len(compress),
        ed_valid(*p) ==> forall|val: Validate| #[trigger] ed_parse(r@, compress, val) == Some(*p),
{
    let mode = match compress {
        Compress::Yes => ark_serialize::Compress::Yes,
        Compress::No => ark_serialize::Compress::No,
    };
    let mut out = Vec::new();
    ark_serialize::CanonicalSerialize::serialize_with_mode(&p.0, &mut out, mode)
        .expect("writing to a byte vector cannot fail");
    out
}

/// Relies on `TECurveConfig::serialized_size` for ed25519: the size is
/// fixed by the compression mode alone.
#[verifier::external_body]
pub(crate) fn ed_serialized_size(p: &EdElement, compress: Compress) -> (r: usize)
    ensures
        r == ed_encoded_len(compress),
{
    let mode = match compress {
        Compress::Yes => ark_serialize::Compress::Yes,
        Compress::No => ark_serialize::Compress::No,
    };
    ark_serialize::CanonicalSerialize::serialized_size(&p.0, mode)
}

/// Relies on `TECurveConfig::deserialize_with_mode` for ed25519: it
/// reads the point's fixed-size encoding from the front of the input,
/// so a shorter input fails; it returns the parsed point exactly when
/// arkworks parses one ([`ed_parse`]), rejecting bytes that name no
/// curve point and, when validation is on, points outside the right
/// subgroup.
#[verifier::external_body]
pub(crate) fn ed_deserialize(bytes: &[u8], compress: Compress, validate: Validate) -> (r: Result<
    EdElement,
    ArkError,
>)
    ensures
        bytes@.len() < ed_encoded_len(compress) ==> r is Err,
        r is Ok <==> ed_parse(bytes@, compress, validate) is Some,
        r matches Ok(p) ==> ed_parse(bytes@, compress, validate) == Some(p),
{
    let cmode = match compress {
        Compress::Yes => ark_serialize::Compress::Yes,
        Compress::No => ark_serialize::Compress::No,
    };
    let vmode = match validate {
        Validate::Yes => ark_serialize::Validate::Yes,
        Validate::No => ark_serialize::Validate::No,
    };
    match ark_serialize::CanonicalDeserialize::deserialize_with_mode(bytes, cmode, vmode) {
        Ok(p) => Ok(EdElement(p)),
        Err(e) => Err(ark_error_from(e)),
    }
}

/// Relies on `CanonicalSerialize::serialize_with_mode` for `Vec<Fr>`:
/// framework A's own container encoding is exactly the count-prefixed
/// layout over the elements' canonical bytes ([`fr_seq_bytes`] — an
/// 8-byte little-endian length, then each element in order), and
/// writing it to a byte vector cannot fail.
#[verifier::external_body]
pub(crate) fn fr_vec_serialize(elems: &Vec<FrElement>, compress: Compress) -> (r: Vec<u8>)
    ensures
        r@ == fr_seq_bytes(elems@, compress),
        r@.len() == seq_encoded_len(elems@.len(), fr_encoded_len(compress)),
{
    let mode = match compress {
        Compress::Yes => ark_serialize::Compress::Yes,
        Compress::No => ark_serialize::Compress::No,
    };
    let plain: Vec<ark_bls12_381::Fr> = elems.iter().map(|e| e.0).collect();
    let mut out = Vec::new();
    ark_serialize::CanonicalSerialize::serialize_with_mode(&plain, &mut out, mode)
        .expect("writing to a byte vector cannot fail");
    out
}

/// Relies on `CanonicalSerialize::serialize_with_mode` for
/// `Vec<G1Affine>`, as [`fr_vec_serialize`] does for the scalar field:
/// the container encoding is [`g1_seq_bytes`].
#[verifier::external_body]
pub(crate) fn g1_vec_serialize(points: &Vec<G1Element>, compress: Compress) -> (r: Vec<u8>)
    ensures
        r@ == g1_seq_bytes(points@, compress),
        r@.len() == seq_encoded_len(points@.len(), g1_encoded_len(compress)),
{
    let mode = match compress {
        Compress::Yes => ark_serialize::Compress::Yes,
        Compress::No => ark_serialize::Compress::No,
    };
    let plain: Vec<ark_bls12_381::G1Affine> = points.iter().map(|p| p.0).collect();
    let mut out = Vec::new();
    ark_serialize::CanonicalSerialize::serialize_with_mode(&plain, &mut out, mode)
        .expect("writing to a byte vector cannot fail");
    out
}

/// Relies on `CanonicalSerialize::serialize_with_mode` for
/// `Vec<EdwardsAffine>`, as [`fr_vec_serialize`] does for the scalar
/// field: the container encoding is [`ed_seq_bytes`].
#[verifier::external_body]
pub(crate) fn ed_vec_serialize(points: &Vec<EdElement>, compress: Compress) -> (r: Vec<u8>)
    ensures
        r@ == ed_seq_bytes(points@, compress),
        r@.len() == seq_encoded_len(points@.len(), ed_encoded_len(compress)),
{
    let mode = match compress {
        Compress::Yes => ark_serialize::Compress::Yes,
        Compress::No => ark_serialize::Compress::No,
    };
    let plain: Vec<ark_ed25519::EdwardsAffine> = points.iter().map(|p| p.0).collect();
    let mut out = Vec::new();
    ark_serialize::CanonicalSerialize::serialize_with_mode(&plain, &mut out, mode)
        .expect("writing to a byte vector cannot fail");
    out
}

/// Relies on `CanonicalDeserialize::deserialize_with_mode` for
/// `Vec<Fr>`: it reads an 8-byte little-endian element count and then
/// exactly that many fixed-size element encodings.  So an input shorter
/// than the count prefix fails; a successful result holds exactly the
/// counted number of elements, which the input was long enough to
/// provide; success and the decoded sequence are those of arkworks'
/// parse ([`fr_vec_parse`]); and an input that is the canonical
/// encoding of a sequence of elements decodes to exactly that sequence.
#[verifier::external_body]
pub(crate) fn fr_vec_deserialize(bytes: &[u8], compress: Compress, validate: Validate) -> (r:
    Result<Vec<FrElement>, ArkError>)
    ensures
        bytes@.len() < 8 ==> r is Err,
        r is Ok <==> fr_vec_parse(bytes@, compress, validate) is Some,
        r matches Ok(elems) ==> fr_vec_parse(bytes@, compress, validate) == Some(elems@),
        r matches Ok(elems) ==> bytes@.len() >= 8 && elems@.len() == spec_u64_from_le_bytes(
            bytes@.subrange(0, 8),
        ),
        r matches Ok(elems) ==> bytes@.len() >= 8 + elems@.len() * fr_encoded_len(compress),
        r matches Ok(out) ==> forall|elems: Seq<FrElement>|
            bytes@ == #[trigger] fr_seq_bytes(elems, compress) ==> out@ == elems,
        r is Err ==> forall|elems: Seq<FrElement>|
            bytes@ != #[trigger] fr_seq_bytes(elems, compress),
{
    let cmode = match compress {
        Compress::Yes => ark_serialize::Compress::Yes,
        Compress::No => ark_serialize::Compress::No,
    };
    let vmode = match validate {
        Validate::Yes => ark_serialize::Validate::Yes,
        Validate::No => ark_serialize::Validate::No,
    };
    let decoded: Result<Vec<ark_bls12_381::Fr>, _> =
        ark_serialize::CanonicalDeserialize::deserialize_with_mode(bytes, cmode, vmode);
    match decoded {
        Ok(elems) => Ok(elems.into_iter().map(FrElement).collect()),
        Err(e) => Err(ark_error_from(e)),
    }
}

/// Relies on `CanonicalDeserialize::deserialize_with_mode` for
/// `Vec<G1Affine>`, as [`fr_vec_deserialize`] does for the scalar
/// field.  The canonical-input clause asks every encoded point to be
/// canonical and valid ([`g1_valid`]): decoding parses each fixed-size
/// chunk and, when validation is on, checks every point.
#[verifier::external_body]
pub(crate) fn g1_vec_deserialize(bytes: &[u8], compress: Compress, validate: Validate) -> (r:
    Result<Vec<G1Element>, ArkError>)
    ensures
        bytes@.len() < 8 ==> r is Err,
        r is Ok <==> g1_vec_parse(bytes@, compress, validate) is Some,
        r matches Ok(points) ==> g1_vec_parse(bytes@, compress, validate) == Some(points@),
        r matches Ok(points) ==> bytes@.len() >= 8 && points@.len() == spec_u64_from_le_bytes(
            bytes@.subrange(0, 8),
        ),
        r matches Ok(points) ==> bytes@.len() >= 8 + points@.len() * g1_encoded_len(compress),
        r matches Ok(out) ==> forall|points: Seq<G1Element>|
            (bytes@ == #[trigger] g1_seq_bytes(points, compress) && (forall|i: int|
                0 <= i < points.len() ==> g1_valid(#[trigger] points[i]))) ==> out@ == points,
        r is Err ==> forall|points: Seq<G1Element>|
            (forall|i: int| 0 <= i < points.len() ==> g1_valid(#[trigger] points[i]))
                ==> bytes@ != #[trigger] g1_seq_bytes(points, compress),
{
    let cmode = match compress {
        Compress::Yes => ark_serialize::Compress::Yes,
        Compress::No => ark_serialize::Compress::No,
    };
    let vmode = match validate {
        Validate::Yes => ark_serialize::Validate::Yes,
        Validate::No => ark_serialize::Validate::No,
    };
    let decoded: Result<Vec<ark_bls12_381::G1Affine>, _> =
        ark_serialize::CanonicalDeserialize::deserialize_with_mode(bytes, cmode, vmode);
    match decoded {
        Ok(points) => Ok(points.into_iter().map(G1Element).collect()),
        Err(e) => Err(ark_error_from(e)),
    }
}

/// Relies on `CanonicalDeserialize::deserialize_with_mode` for
/// `Vec<EdwardsAffine>`, as [`g1_vec_deserialize`] does for G1, with
/// validity per [`ed_valid`].
#[verifier::external_body]
pub(crate) fn ed_vec_deserialize(bytes: &[u8], compress: Compress, validate: Validate) -> (r:
    Result<Vec<EdElement>, ArkError>)
    ensures
        bytes@.len() < 8 ==> r is Err,
        r is Ok <==> ed_vec_parse(bytes@, compress, validate) is Some,
        r matches Ok(points) ==> ed_vec_parse(bytes@, compress, validate) == Some(points@),
        r matches Ok(points) ==> bytes@.len() >= 8 && points@.len() == spec_u64_from_le_bytes(
            bytes@.subrange(0, 8),
        ),
        r matches Ok(points) ==> bytes@.len() >= 8 + points@.len() * ed_encoded_len(compress),
        r matches Ok(out) ==> forall|points: Seq<EdElement>|
            (bytes@ == #[trigger] ed_seq_bytes(points, compress) && (forall|i: int|
                0 <= i < points.len() ==> ed_valid(#[trigger] points[i]))) ==> out@ == points,
        r is Err ==> forall|points: Seq<EdElement>|
            (forall|i: int| 0 <= i < points.len() ==> ed_valid(#[trigger] points[i]))
                ==> bytes@ != #[trigger] ed_seq_bytes(points, compress),
{
    let cmode = match compress {
        Compress::Yes => ark_serialize::Compress::Yes,
        Compress::No => ark_serialize::Compress::No,
    };
    let vmode = match validate {
        Validate::Yes => ark_serialize::Validate::Yes,
        Validate::No => ark_serialize::Validate::No,
    };
    let decoded: Result<Vec<ark_ed25519::EdwardsAffine>, _> =
        ark_serialize::CanonicalDeserialize::deserialize_with_mode(bytes, cmode, vmode);
    match decoded {
        Ok(points) => Ok(points.into_iter().map(EdElement).collect()),
        Err(e) => Err(ark_error_from(e)),
    }
}

} // verus!
