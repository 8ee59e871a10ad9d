//! Translation between the two frameworks' error values.
//!
//! Framework A (arkworks' canonical serialization) reports failures as a
//! structured enum; codec B (SCALE) reports them as a description with an
//! optional chained cause.  The bridge carries each side's errors into the
//! other without losing the original diagnosis.  The types here model the
//! two error values as the bridge observes them: the codec error keeps a
//! tag naming the framework-A kind that minted it, so that an error which
//! crosses to framework A's I/O variant and back is recovered unchanged
//! instead of being wrapped a second time.

use vstd::prelude::*;

verus! {

/// Model of a codec-B error value as the bridge creates or receives it.
///
/// The first three variants are the descriptive errors the bridge mints
/// for the matching framework-A failure; `Io` is minted from a
/// framework-A I/O failure that the bridge did not itself cause, keeping
/// that failure's rendering; `Other` is any codec-B error the bridge
/// received from elsewhere, carrying its description.
#[derive(Clone, Debug, PartialEq, Eq)]
pub enum ScaleError {
    NotEnoughSpace,
    InvalidData,
    UnexpectedFlags,
    Io(String),
    Other(String),
}

/// Model of the I/O failure carried by [`ArkError::Io`]: either a codec-B
/// error that this bridge wrapped on its way into framework A, which must
/// be recoverable unchanged, or any other stream failure, rendered as
/// text.
#[derive(Clone, Debug, PartialEq, Eq)]
pub enum IoCause {
    Bridged(ScaleError),
    Other(String),
}

/// Model of framework A's structured serialization error.
#[derive(Clone, Debug, PartialEq, Eq)]
pub enum ArkError {
    /// The output had no room for a fixed-size encoding.
    NotEnoughSpace,
    /// The bytes do not decode to a valid value, or validation rejected
    /// the decoded value.
    InvalidData,
    /// Reserved flag bits were set that the format does not permit.
    UnexpectedFlags,
    /// The underlying stream itself failed.
    Io(IoCause),
}

/// What the bridge hands codec B for each framework-A failure: the three
/// classified kinds become the matching tagged error; an I/O failure
/// caused by a codec-B error that the bridge wrapped earlier is returned
/// unchanged, and any other I/O failure keeps its rendering.
pub open spec fn scale_error_of(e: ArkError) -> ScaleError {
    match e {
        ArkError::NotEnoughSpace => ScaleError::NotEnoughSpace,
        ArkError::InvalidData => ScaleError::InvalidData,
        ArkError::UnexpectedFlags => ScaleError::UnexpectedFlags,
        ArkError::Io(IoCause::Bridged(inner)) => inner,
        ArkError::Io(IoCause::Other(text)) => ScaleError::Io(text),
    }
}

/// What the bridge hands framework A for a codec-B failure: the error is
/// wrapped as an I/O failure whose cause is the original error itself, so
/// that [`scale_error_of`] can later recover it unchanged.
pub open spec fn ark_error_of(e: ScaleError) -> ArkError {
    ArkError::Io(IoCause::Bridged(e))
}

/// Translates a framework-A error into a codec-B error.
pub fn ark_error_to_scale_error(e: ArkError) -> (r: ScaleError)
    ensures
        r == scale_error_of(e),
{
    match e {
        ArkError::NotEnoughSpace => ScaleError::NotEnoughSpace,
        ArkError::InvalidData => ScaleError::InvalidData,
        ArkError::UnexpectedFlags => ScaleError::UnexpectedFlags,
        ArkError::Io(IoCause::Bridged(inner)) => inner,
        ArkError::Io(IoCause::Other(text)) => ScaleError::Io(text),
    }
}

/// Translates a codec-B error into a framework-A error, attaching the
/// original error as the chained cause rather than flattening it.
pub fn scale_error_to_ark_error(e: ScaleError) -> (r: ArkError)
    ensures
        r == ark_error_of(e),
{
    ArkError::Io(IoCause::Bridged(e))
}

/// Law: a codec-B error that round-trips through framework A's I/O
/// variant comes back unchanged; the bridge never wraps its own work a
/// second time.
pub proof fn lemma_error_round_trip(e: ScaleError)
    ensures
        scale_error_of(ark_error_of(e)) == e,
{
}

/// Law: a classified framework-A failure keeps its classification across
/// the bridge and back.  Translating such a failure to codec B and
/// returning it yields a framework-A error whose cause is exactly the
/// tagged codec error, and a second crossing to codec B reproduces that
/// tag; in particular an `InvalidData` failure is still recognizable as
/// `InvalidData`.
pub proof fn lemma_error_fidelity(e: ArkError)
    requires
        e == ArkError::NotEnoughSpace || e == ArkError::InvalidData || e
            == ArkError::UnexpectedFlags,
    ensures
        ark_error_of(scale_error_of(e)) == ArkError::Io(IoCause::Bridged(scale_error_of(e))),
        scale_error_of(ark_error_of(scale_error_of(e))) == scale_error_of(e),
        e == ArkError::InvalidData <==> scale_error_of(ark_error_of(scale_error_of(e)))
            == ScaleError::InvalidData,
{
}

} // verus!
