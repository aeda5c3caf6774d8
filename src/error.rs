use vstd::prelude::*;

verus! {

/// The errors a device can report. The tracer adds none of its own: it hands
/// on whatever the device below it reported.
#[derive(Debug, Clone, Copy, PartialEq, Eq, Structural)]
pub enum Error {
    /// No buffer was available: nothing to receive, or no room to transmit.
    Exhausted,
    /// An operation was not possible in the current state.
    Illegal,
    /// The destination could not be reached.
    Unaddressable,
    /// A frame was shorter than its headers claim.
    Truncated,
    /// A frame failed its checksum.
    Checksum,
    /// A frame was well-formed but of an unknown kind.
    Unrecognized,
    /// A frame arrived as a fragment that cannot be reassembled.
    Fragmented,
    /// A frame's contents contradict each other.
    Malformed,
    /// A frame was dropped by the device.
    Dropped,
}

} // verus!
