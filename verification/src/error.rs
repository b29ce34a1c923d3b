//! The ways in which an update can fail.
use vstd::prelude::*;

verus! {

/// A failure of one component of the update.
#[derive(Clone, Copy, Debug, PartialEq, Eq)]
pub enum UpdateError {
    /// The channel or the board reported an error; `code` is the cause as the
    /// driver reported it.
    IoFailure { code: i32 },
    /// The monitor banner was still absent after the hardware sequence.
    ModeEntryTimeout,
    /// A reply had another length or content than the protocol allows.
    ProtocolDesync,
    /// The device was not ready for the transfer, or the retry budget of a
    /// block ran out.
    TransferAbort,
    /// The flash controller did not report completion in time.
    FlashTimeout,
    /// The image does not fit into the flash of the device.
    ImageTooLarge,
}

} // verus!
