//! The vocabulary between the machines of this crate and the driver that
//! performs their effects on the device.
use vstd::prelude::*;
use crate::error::UpdateError;

verus! {

/// One action on the board that carries the device.
#[derive(Clone, Copy, Debug, PartialEq, Eq)]
pub enum BoardAction {
    /// One device-wide line write: the bits of `set` are driven high and the
    /// bits of `clear` are driven low. Other lines are left alone.
    Drive { set: u32, clear: u32 },
    /// A blocking wait of `millis` milliseconds, never cut short.
    Hold { millis: u32 },
}

/// What the driver has to do next.
#[derive(Clone, Debug, PartialEq, Eq)]
pub enum Effect {
    /// Write `frame` to the channel in one piece. Where `reply_width` is not
    /// zero, then make exactly one read of at most `reply_width` bytes, bounded
    /// by `timeout_ms`, and hand back what it returned.
    Exchange { frame: Vec<u8>, reply_width: usize, timeout_ms: u32 },
    /// Drive the lines of the board, or hold still.
    Board(BoardAction),
    /// Check that the device talks its normal protocol again.
    ConfirmNormal,
}

/// The mathematical value of an [`Effect`].
pub enum EffectView {
    Exchange { frame: Seq<u8>, reply_width: usize, timeout_ms: u32 },
    Board(BoardAction),
    ConfirmNormal,
}

impl View for Effect {
    type V = EffectView;

    open spec fn view(&self) -> EffectView {
        match *self {
            Effect::Exchange { frame, reply_width, timeout_ms } => EffectView::Exchange {
                frame: frame@,
                reply_width,
                timeout_ms,
            },
            Effect::Board(action) => EffectView::Board(action),
            Effect::ConfirmNormal => EffectView::ConfirmNormal,
        }
    }
}

/// What came of the effect that the driver performed.
#[derive(Clone, Debug, PartialEq, Eq)]
pub enum Outcome {
    /// The effect was carried out and has nothing to report.
    Completed,
    /// The bytes that the single read of an exchange returned: fewer than asked
    /// for, or none, where the device was silent until the timeout.
    Reply(Vec<u8>),
    /// The channel or the board failed with this cause.
    Failed(i32),
}

/// The mathematical value of an [`Outcome`].
pub enum OutcomeView {
    Completed,
    Reply(Seq<u8>),
    Failed(i32),
}

impl View for Outcome {
    type V = OutcomeView;

    open spec fn view(&self) -> OutcomeView {
        match *self {
            Outcome::Completed => OutcomeView::Completed,
            Outcome::Reply(bytes) => OutcomeView::Reply(bytes@),
            Outcome::Failed(code) => OutcomeView::Failed(code),
        }
    }
}

/// The answer of a component to an outcome: the next effect, or its result.
#[derive(Debug, PartialEq, Eq)]
pub enum Step {
    Perform(Effect),
    Finished(Result<(), UpdateError>),
}

/// The mathematical value of a [`Step`].
pub enum StepView {
    Perform(EffectView),
    Finished(Result<(), UpdateError>),
}

impl View for Step {
    type V = StepView;

    open spec fn view(&self) -> StepView {
        match *self {
            Step::Perform(effect) => StepView::Perform(effect@),
            Step::Finished(result) => StepView::Finished(result),
        }
    }
}

} // verus!
