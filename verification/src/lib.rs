//! A bridge between arkworks' canonical serialization contract and the
//! SCALE codec's wire format.
//!
//! The bridge lets values that arkworks knows how to serialize travel
//! through SCALE's byte-oriented encode/decode contract: a packed
//! (compression, validation) policy selects arkworks' serialization mode,
//! a pair of translators carries each framework's errors into the other,
//! and a streaming encoder reproduces, byte for byte, the length-prefixed
//! layout that SCALE produces for a sequence of such values.

pub mod arkworks;
pub mod errors;
pub mod frame;
pub mod usage;
pub mod wrappers;

pub use arkworks::{EdElement, FrElement, G1Element};
pub use errors::{
    ark_error_to_scale_error, scale_error_to_ark_error, ArkError, IoCause, ScaleError,
};
pub use usage::{
    is_compressed, is_validated, make_usage, Compress, Usage, Validate, HOST_CALL, WIRE,
};
pub use wrappers::{
    iter_ark_to_ark_bytes_ed, iter_ark_to_ark_bytes_fr, iter_ark_to_ark_bytes_g1,
    iter_ark_to_scale_bytes_ed, iter_ark_to_scale_bytes_fr, iter_ark_to_scale_bytes_g1, ArkScale,
    ArkScaleRef,
};
