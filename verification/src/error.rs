use vstd::prelude::*;

verus! {

/// Failure of the underlying control link while transmitting a frame.
///
/// The link is write-only and offers no diagnosis, so the fault carries no
/// detail; it is propagated to the caller of the operation that observed it
/// and is never retried internally.
#[derive(Clone, Copy, Debug, PartialEq, Eq, Structural)]
pub struct TransportFault;

/// The two error kinds a driver operation can report.
#[derive(Clone, Copy, Debug, PartialEq, Eq, Structural)]
pub enum CodecError {
    /// The control link failed while a frame was being transmitted.
    Transport(TransportFault),
    /// A caller-supplied value exceeds the bit width of its target field.
    ValueOutOfRange,
}

} // verus!
