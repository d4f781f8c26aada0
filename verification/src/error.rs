use vstd::prelude::*;

verus! {

/// Errors surfaced by the synthesizer.
///
/// `DeviceError` wraps any failure reported by the external audio driver
/// (device enumeration, format negotiation, opening or starting the
/// transport); the shell around this crate maps driver failures into it.
/// `EngineError` is reserved for internal invariant violations; the engine
/// currently raises none.
#[derive(Debug)]
pub enum Error {
    DeviceError(String),
    EngineError(String),
}

impl Error {
    /// True exactly for the `DeviceError` variant.
    pub fn is_device_error(&self) -> (r: bool)
        ensures
            r == self is DeviceError,
    {
        match self {
            Error::DeviceError(_) => true,
            Error::EngineError(_) => false,
        }
    }
}

} // verus!
