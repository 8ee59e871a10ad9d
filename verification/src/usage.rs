//! The packed (compression, validation) policy that selects a
//! serialization mode.
//!
//! Arkworks parameterizes its canonical serialization by two independent
//! choices: whether points are written in their short, compressed form,
//! and whether deserialization checks semantic validity of the decoded
//! value.  The bridge packs the two choices into one small integer so a
//! wrapper type can carry the whole policy as a single static parameter:
//! bit 0 set means compression is off, bit 1 set means validation is off.

use vstd::prelude::*;

verus! {

/// Whether a value is written in its short, compressed form (`Yes`) or in
/// its larger, directly readable form (`No`).
#[derive(Clone, Copy, Debug, PartialEq, Eq, Structural)]
pub enum Compress {
    Yes,
    No,
}

/// Whether deserialization additionally checks that the decoded value is
/// semantically legal (`Yes`), e.g. that a point lies on the curve and in
/// the right subgroup, or accepts any structurally valid bytes (`No`).
#[derive(Clone, Copy, Debug, PartialEq, Eq, Structural)]
pub enum Validate {
    Yes,
    No,
}

/// A (compression, validation) pair packed into one small integer.
/// Only the values `0..=3` are meaningful; every function taking a
/// `Usage` insists on that range.
pub type Usage = u8;

/// Usage for data crossing an untrusted boundary, such as wire formats:
/// compressed and validated.  Always safe.
pub const WIRE: Usage = 0;

/// Usage for data that a trusted producer has already validated and
/// already emits in uncompressed canonical form, such as values crossing
/// a host-call boundary: neither compressed nor validated.
pub const HOST_CALL: Usage = 3;

/// The packing of the two policy axes: bit 0 records "compression off",
/// bit 1 records "validation off".
pub open spec fn usage_of(compress: Compress, validate: Validate) -> Usage {
    match (compress, validate) {
        (Compress::Yes, Validate::Yes) => 0u8,
        (Compress::No, Validate::Yes) => 1u8,
        (Compress::Yes, Validate::No) => 2u8,
        (Compress::No, Validate::No) => 3u8,
    }
}

/// The compression choice recorded in a packed usage.
pub open spec fn compress_of(u: Usage) -> Compress {
    if u % 2 == 1 {
        Compress::No
    } else {
        Compress::Yes
    }
}

/// The validation choice recorded in a packed usage.
pub open spec fn validate_of(u: Usage) -> Validate {
    if u / 2 % 2 == 1 {
        Validate::No
    } else {
        Validate::Yes
    }
}

/// Packs the two policy choices into a usage value.
pub fn make_usage(compress: Compress, validate: Validate) -> (u: Usage)
    ensures
        u == usage_of(compress, validate),
        u < 4,
{
    let c: u8 = match compress {
        Compress::Yes => 0,
        Compress::No => 1,
    };
    let v: u8 = match validate {
        Validate::Yes => 0,
        Validate::No => 2,
    };
    proof {
        assert(c | v == c + v) by (bit_vector)
            requires
                c == 0 || c == 1,
                v == 0 || v == 2,
        ;
    }
    c | v
}

/// Unpacks the compression choice.  Out-of-range usages are a
/// configuration bug, not bad input data, so they are ruled out here
/// rather than reported at run time.
pub fn is_compressed(u: Usage) -> (c: Compress)
    requires
        u < 4,
    ensures
        c == compress_of(u),
{
    proof {
        assert((u & 1 == 1) == (u % 2 == 1)) by (bit_vector);
    }
    if u & 1 == 1 {
        Compress::No
    } else {
        Compress::Yes
    }
}

/// Unpacks the validation choice, under the same range insistence as
/// [`is_compressed`].
pub fn is_validated(u: Usage) -> (v: Validate)
    requires
        u < 4,
    ensures
        v == validate_of(u),
{
    proof {
        assert((u & 2 == 2) == (u / 2 % 2 == 1)) by (bit_vector);
    }
    if u & 2 == 2 {
        Validate::No
    } else {
        Validate::Yes
    }
}

/// Law: packing the two axes unpacked from any valid usage yields that
/// same usage, so the four usage values are exactly the four policy
/// pairs.
pub proof fn lemma_usage_pack_unpack(u: Usage)
    requires
        u < 4,
    ensures
        usage_of(compress_of(u), validate_of(u)) == u,
{
}

/// Law: unpacking a freshly packed usage recovers both choices, so each
/// axis is read back independently of the other.
pub proof fn lemma_usage_unpack_pack(compress: Compress, validate: Validate)
    ensures
        compress_of(usage_of(compress, validate)) == compress,
        validate_of(usage_of(compress, validate)) == validate,
{
}

} // verus!
