//! Firmware update over a ROM-resident serial monitor.
//!
//! The crate holds the decisions of a device firmware update and none of its
//! input or output. Every component is a small machine: it names the next
//! [`link::Effect`] that a driver has to perform on the device, and takes the
//! [`link::Outcome`] of that effect to decide what follows. A driver owns the
//! byte channel and the hardware lines; the machines own the protocol.
//!
//! * [`link`]: effects, outcomes and steps.
//! * [`error`]: the ways in which an update can fail.
//! * [`image`]: the firmware image and the flash that it is meant for.
//! * [`hex`]: the hexadecimal fields of the monitor's frames.
//! * [`monitor`]: the textual command set of the monitor.
//! * [`mode`]: entering and leaving the monitor.
//! * [`transfer`]: the bulk copy of an image in acknowledged blocks.
//! * [`eefc`]: the command word of the flash controller.
//! * [`sequencer`]: the execution of one flash controller command.
//! * [`session`]: one update from start to end, with recovery on failure.
//! * [`simulator`]: a model of the monitor's memory commands.
pub mod eefc;
pub mod error;
pub mod hex;
pub mod image;
pub mod link;
pub mod mode;
pub mod monitor;
pub mod sequencer;
pub mod session;
pub mod simulator;
pub mod transfer;
