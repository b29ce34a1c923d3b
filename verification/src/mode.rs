//! Entering and leaving the monitor.
//!
//! The device enters its monitor when it is reset with erased flash. Two
//! lines of the board do that: ERASE, which is active high, and RESET, which is
//! active low. A device that already runs the monitor answers a single wake
//! byte with a fixed banner, and is then left alone.
use vstd::prelude::*;
use crate::error::UpdateError;
use crate::link::Effect;
use crate::link::EffectView;
use crate::link::BoardAction;
use crate::link::Outcome;
use crate::link::OutcomeView;
use crate::link::Step;
use crate::link::StepView;
use crate::monitor::MonitorCommand;
use crate::monitor::SamBa;
use crate::monitor::done_of;

verus! {

/// Position of the ERASE line in a line write.
pub const SAM_ERASE_PIN: u32 = 0x06;

/// Position of the RESET line in a line write.
pub const SAM_RESET_PIN: u32 = 0x05;

/// The ERASE line as a mask.
pub const ERASE_LINE: u32 = 0x40;

/// The RESET line as a mask.
pub const RESET_LINE: u32 = 0x20;

/// The shortest time for which ERASE has to be held to clear the flash.
pub const MIN_ERASE_HOLD_MS: u32 = 5000;

/// The shortest reset pulse that the device takes notice of.
pub const MIN_RESET_PULSE_MS: u32 = 10;

/// The byte that wakes the monitor.
pub const WAKE: u8 = 0x23;

/// The number of bytes in the banner.
pub const BANNER_WIDTH: usize = 3;

/// The banner with which the monitor answers the wake byte: line feed,
/// carriage return and a prompt.
pub open spec fn banner() -> Seq<u8> {
    seq![0x0Au8, 0x0Du8, 0x3Eu8]
}

/// The times that the mode controller works with.
#[derive(Clone, Copy, Debug, PartialEq, Eq)]
pub struct ModeTiming {
    /// How long ERASE is held, in milliseconds. A value below
    /// [`MIN_ERASE_HOLD_MS`] is raised to it.
    pub erase_hold_ms: u32,
    /// How long RESET is held in a pulse, in milliseconds. A value below
    /// [`MIN_RESET_PULSE_MS`] is raised to it.
    pub reset_pulse_ms: u32,
    /// The bound on the wait for the banner, in milliseconds.
    pub probe_timeout_ms: u32,
}

impl ModeTiming {
    /// The time for which ERASE is held: never less than the hardware asks for.
    pub open spec fn erase_hold(self) -> u32 {
        if self.erase_hold_ms < MIN_ERASE_HOLD_MS {
            MIN_ERASE_HOLD_MS
        } else {
            self.erase_hold_ms
        }
    }

    /// The width of a reset pulse: never less than the hardware asks for.
    pub open spec fn reset_pulse(self) -> u32 {
        if self.reset_pulse_ms < MIN_RESET_PULSE_MS {
            MIN_RESET_PULSE_MS
        } else {
            self.reset_pulse_ms
        }
    }

    /// The shortest times that the hardware allows, and `probe_timeout_ms`
    /// for the banner.
    pub fn new(probe_timeout_ms: u32) -> (timing: ModeTiming)
        ensures
            timing == (ModeTiming {
                erase_hold_ms: MIN_ERASE_HOLD_MS,
                reset_pulse_ms: MIN_RESET_PULSE_MS,
                probe_timeout_ms,
            }),
    {
        ModeTiming {
            erase_hold_ms: MIN_ERASE_HOLD_MS,
            reset_pulse_ms: MIN_RESET_PULSE_MS,
            probe_timeout_ms,
        }
    }
}

/// The exchange that probes for the monitor: the wake byte, and one read of
/// the banner's width.
pub open spec fn wake_exchange(timing: ModeTiming) -> EffectView {
    EffectView::Exchange {
        frame: seq![WAKE],
        reply_width: BANNER_WIDTH,
        timeout_ms: timing.probe_timeout_ms,
    }
}

/// The line actions of one reset pulse: assert RESET, hold, release RESET.
pub open spec fn reset_pulse_actions(timing: ModeTiming) -> Seq<BoardAction> {
    seq![
        BoardAction::Drive { set: 0, clear: RESET_LINE },
        BoardAction::Hold { millis: timing.reset_pulse() },
        BoardAction::Drive { set: RESET_LINE, clear: 0 },
    ]
}

/// The line actions that bring the device into its monitor: assert ERASE
/// together with RESET, hold, release RESET while ERASE stays asserted, then
/// one reset pulse.
pub open spec fn entry_actions(timing: ModeTiming) -> Seq<BoardAction> {
    seq![
        BoardAction::Drive { set: ERASE_LINE, clear: RESET_LINE },
        BoardAction::Hold { millis: timing.erase_hold() },
        BoardAction::Drive { set: RESET_LINE, clear: 0 },
    ] + reset_pulse_actions(timing)
}

/// Whether the device answered the wake byte with the banner, which it does
/// only while the monitor runs.
pub fn probe_monitor(outcome: &Outcome) -> (found: bool)
    ensures
        found <==> outcome@ == OutcomeView::Reply(banner()),
{
    match outcome {
        Outcome::Reply(bytes) => {
            let found = bytes.len() == 3 && bytes[0] == 0x0A && bytes[1] == 0x0D && bytes[2]
                == 0x3E;
            proof {
                if found {
                    assert(bytes@ =~= banner());
                } else {
                    assert(banner().len() == 3);
                    assert(banner()[0] == 0x0A && banner()[1] == 0x0D && banner()[2] == 0x3E);
                }
            }
            found
        },
        _ => false,
    }
}

/// The exchange that probes for the monitor.
pub fn wake(timing: &ModeTiming) -> (effect: Effect)
    ensures
        effect@ == wake_exchange(*timing),
{
    let mut frame: Vec<u8> = Vec::new();
    frame.push(WAKE);
    assert(frame@ =~= seq![WAKE]);
    Effect::Exchange { frame, reply_width: BANNER_WIDTH, timeout_ms: timing.probe_timeout_ms }
}

/// The line actions of one reset pulse. The pulse is never shorter than
/// [`MIN_RESET_PULSE_MS`].
pub fn sam_reset(timing: &ModeTiming) -> (actions: Vec<BoardAction>)
    ensures
        actions@ == reset_pulse_actions(*timing),
        actions@[1] matches BoardAction::Hold { millis } && millis >= MIN_RESET_PULSE_MS,
{
    let pulse: u32 = if timing.reset_pulse_ms < MIN_RESET_PULSE_MS {
        MIN_RESET_PULSE_MS
    } else {
        timing.reset_pulse_ms
    };
    let mut actions: Vec<BoardAction> = Vec::new();
    actions.push(BoardAction::Drive { set: 0, clear: RESET_LINE });
    actions.push(BoardAction::Hold { millis: pulse });
    actions.push(BoardAction::Drive { set: RESET_LINE, clear: 0 });
    assert(actions@ =~= reset_pulse_actions(*timing));
    actions
}

/// The line actions that bring the device into its monitor. ERASE is never
/// held for less than [`MIN_ERASE_HOLD_MS`].
pub fn sam_enter_dfu(timing: &ModeTiming) -> (actions: Vec<BoardAction>)
    ensures
        actions@ == entry_actions(*timing),
        actions@.len() == 6,
        actions@[1] matches BoardAction::Hold { millis } && millis >= MIN_ERASE_HOLD_MS,
        actions@[4] matches BoardAction::Hold { millis } && millis >= MIN_RESET_PULSE_MS,
{
    let hold: u32 = if timing.erase_hold_ms < MIN_ERASE_HOLD_MS {
        MIN_ERASE_HOLD_MS
    } else {
        timing.erase_hold_ms
    };
    let mut actions: Vec<BoardAction> = Vec::new();
    actions.push(BoardAction::Drive { set: ERASE_LINE, clear: RESET_LINE });
    actions.push(BoardAction::Hold { millis: hold });
    actions.push(BoardAction::Drive { set: RESET_LINE, clear: 0 });
    let mut pulse = sam_reset(timing);
    actions.append(&mut pulse);
    assert(actions@ =~= entry_actions(*timing));
    actions
}

/// Where the entry into the monitor stands.
#[derive(Clone, Copy, Debug, PartialEq, Eq)]
pub enum EntryStage {
    /// The first probe is out.
    Probing,
    /// The line action at `index` of the entry sequence is out.
    Sequencing { index: usize },
    /// The probe after the entry sequence is out.
    Reprobing,
    /// Nothing is out: the entry has ended.
    Finished,
}

/// What the entry into the monitor does with the outcome of its last effect.
///
/// A banner on the first probe ends the entry at once, with no line touched.
/// Any other reply starts the entry sequence, one action after the other, and
/// a second probe after the last. A second probe without a banner is a
/// timeout of the entry. A failed effect ends the entry with its cause. An
/// outcome that cannot be that of the effect that is out is a loss of
/// synchronisation, and so is any outcome after the entry has ended.
pub open spec fn entry_next(stage: EntryStage, timing: ModeTiming, outcome: OutcomeView) -> (
    EntryStage,
    StepView,
) {
    let failed = |error: UpdateError| (EntryStage::Finished, StepView::Finished(Err(error)));
    match stage {
        EntryStage::Probing => match outcome {
            OutcomeView::Reply(bytes) => if bytes == banner() {
                (EntryStage::Finished, StepView::Finished(Ok(())))
            } else {
                (
                    EntryStage::Sequencing { index: 0 },
                    StepView::Perform(EffectView::Board(entry_actions(timing)[0])),
                )
            },
            OutcomeView::Failed(code) => failed(UpdateError::IoFailure { code }),
            OutcomeView::Completed => failed(UpdateError::ProtocolDesync),
        },
        EntryStage::Sequencing { index } => match outcome {
            OutcomeView::Completed => if index + 1 < entry_actions(timing).len() {
                (
                    EntryStage::Sequencing { index: (index + 1) as usize },
                    StepView::Perform(EffectView::Board(entry_actions(timing)[index + 1])),
                )
            } else {
                (EntryStage::Reprobing, StepView::Perform(wake_exchange(timing)))
            },
            OutcomeView::Failed(code) => failed(UpdateError::IoFailure { code }),
            OutcomeView::Reply(_) => failed(UpdateError::ProtocolDesync),
        },
        EntryStage::Reprobing => match outcome {
            OutcomeView::Reply(bytes) => if bytes == banner() {
                (EntryStage::Finished, StepView::Finished(Ok(())))
            } else {
                failed(UpdateError::ModeEntryTimeout)
            },
            OutcomeView::Failed(code) => failed(UpdateError::IoFailure { code }),
            OutcomeView::Completed => failed(UpdateError::ProtocolDesync),
        },
        EntryStage::Finished => failed(UpdateError::ProtocolDesync),
    }
}

/// Starts the entry into the monitor: the first effect is the probe.
pub fn enter_bootloader(timing: &ModeTiming) -> (start: (EntryStage, Effect))
    ensures
        start.0 == EntryStage::Probing,
        start.1@ == wake_exchange(*timing),
{
    (EntryStage::Probing, wake(timing))
}

impl EntryStage {
    /// Takes the outcome of the effect that is out and says what follows.
    pub fn advance(self, timing: &ModeTiming, outcome: &Outcome) -> (next: (EntryStage, Step))
        ensures
            (next.0, next.1@) == entry_next(self, *timing, outcome@),
    {
        match self {
            EntryStage::Probing => match outcome {
                Outcome::Reply(_) => {
                    if probe_monitor(outcome) {
                        (EntryStage::Finished, Step::Finished(Ok(())))
                    } else {
                        let actions = sam_enter_dfu(timing);
                        (EntryStage::Sequencing { index: 0 }, Step::Perform(Effect::Board(actions[0])))
                    }
                },
                Outcome::Failed(code) => (
                    EntryStage::Finished,
                    Step::Finished(Err(UpdateError::IoFailure { code: *code })),
                ),
                Outcome::Completed => (
                    EntryStage::Finished,
                    Step::Finished(Err(UpdateError::ProtocolDesync)),
                ),
            },
            EntryStage::Sequencing { index } => match outcome {
                Outcome::Completed => {
                    let actions = sam_enter_dfu(timing);
                    if index < actions.len() - 1 {
                        (
                            EntryStage::Sequencing { index: index + 1 },
                            Step::Perform(Effect::Board(actions[index + 1])),
                        )
                    } else {
                        (EntryStage::Reprobing, Step::Perform(wake(timing)))
                    }
                },
                Outcome::Failed(code) => (
                    EntryStage::Finished,
                    Step::Finished(Err(UpdateError::IoFailure { code: *code })),
                ),
                Outcome::Reply(_) => (
                    EntryStage::Finished,
                    Step::Finished(Err(UpdateError::ProtocolDesync)),
                ),
            },
            EntryStage::Reprobing => match outcome {
                Outcome::Reply(_) => {
                    if probe_monitor(outcome) {
                        (EntryStage::Finished, Step::Finished(Ok(())))
                    } else {
                        (EntryStage::Finished, Step::Finished(Err(UpdateError::ModeEntryTimeout)))
                    }
                },
                Outcome::Failed(code) => (
                    EntryStage::Finished,
                    Step::Finished(Err(UpdateError::IoFailure { code: *code })),
                ),
                Outcome::Completed => (
                    EntryStage::Finished,
                    Step::Finished(Err(UpdateError::ProtocolDesync)),
                ),
            },
            EntryStage::Finished => (
                EntryStage::Finished,
                Step::Finished(Err(UpdateError::ProtocolDesync)),
            ),
        }
    }
}

/// Where the return to normal operation stands.
#[derive(Clone, Copy, Debug, PartialEq, Eq)]
pub enum ExitStage {
    /// The jump to the application is out.
    Jumping,
    /// The check for normal communication is out.
    Confirming,
    /// Nothing is out: the return has ended.
    Finished,
}

/// What the return to normal operation does with the outcome of its last
/// effect: after the jump it has the driver confirm normal communication, and
/// it ends when that is confirmed. A failed effect ends it with its cause. An
/// outcome that cannot be that of the effect that is out is a loss of
/// synchronisation, and so is any outcome after the return has ended.
pub open spec fn exit_next(stage: ExitStage, outcome: OutcomeView) -> (ExitStage, StepView) {
    match stage {
        ExitStage::Jumping => match done_of(outcome) {
            Ok(_) => (ExitStage::Confirming, StepView::Perform(EffectView::ConfirmNormal)),
            Err(error) => (ExitStage::Finished, StepView::Finished(Err(error))),
        },
        ExitStage::Confirming => (ExitStage::Finished, StepView::Finished(done_of(outcome))),
        ExitStage::Finished => (
            ExitStage::Finished,
            StepView::Finished(Err(UpdateError::ProtocolDesync)),
        ),
    }
}

/// Starts the return to normal operation: the first effect is the monitor's
/// jump to the entry point of the application.
pub fn exit_bootloader(monitor: &SamBa, application_entry: u32) -> (start: (ExitStage, Effect))
    ensures
        start.0 == ExitStage::Jumping,
        start.1@ == monitor.exchange(MonitorCommand::Jump { address: application_entry }),
{
    (ExitStage::Jumping, monitor.jump(application_entry))
}

impl ExitStage {
    /// Takes the outcome of the effect that is out and says what follows.
    pub fn advance(self, outcome: &Outcome) -> (next: (ExitStage, Step))
        ensures
            (next.0, next.1@) == exit_next(self, outcome@),
    {
        match self {
            ExitStage::Jumping => match SamBa::done_reply(outcome) {
                Ok(_) => (ExitStage::Confirming, Step::Perform(Effect::ConfirmNormal)),
                Err(error) => (ExitStage::Finished, Step::Finished(Err(error))),
            },
            ExitStage::Confirming => (
                ExitStage::Finished,
                Step::Finished(SamBa::done_reply(outcome)),
            ),
            ExitStage::Finished => (
                ExitStage::Finished,
                Step::Finished(Err(UpdateError::ProtocolDesync)),
            ),
        }
    }
}

/// The effects that the entry performs from `stage` on, when the driver
/// answers them with `outcomes` in turn.
pub open spec fn entry_effects_from(
    stage: EntryStage,
    timing: ModeTiming,
    outcomes: Seq<OutcomeView>,
) -> Seq<EffectView>
    decreases outcomes.len(),
{
    if outcomes.len() == 0 {
        Seq::empty()
    } else {
        let (next, step) = entry_next(stage, timing, outcomes[0]);
        match step {
            StepView::Perform(effect) => seq![effect] + entry_effects_from(
                next,
                timing,
                outcomes.skip(1),
            ),
            StepView::Finished(_) => Seq::empty(),
        }
    }
}

/// All effects of an entry into the monitor, from its first probe on, when
/// the driver answers them with `outcomes` in turn.
pub open spec fn entry_effects(timing: ModeTiming, outcomes: Seq<OutcomeView>) -> Seq<EffectView> {
    seq![wake_exchange(timing)] + entry_effects_from(EntryStage::Probing, timing, outcomes)
}

/// Detection is idempotent: where the device answers the first wake byte with
/// the banner, the entry succeeds at once, and the probe is the only effect
/// that it ever asks for, whatever the driver hands it afterwards. Neither
/// line is touched, and nothing is waited for.
pub proof fn lemma_banner_leaves_lines_alone(timing: ModeTiming, outcomes: Seq<OutcomeView>)
    requires
        outcomes.len() > 0,
        outcomes[0] == OutcomeView::Reply(banner()),
    ensures
        entry_next(EntryStage::Probing, timing, outcomes[0]) == (
            EntryStage::Finished,
            StepView::Finished(Ok(())),
        ),
        entry_effects(timing, outcomes) == seq![wake_exchange(timing)],
        forall|i: int|
            0 <= i < entry_effects(timing, outcomes).len() ==> !(#[trigger] entry_effects(
                timing,
                outcomes,
            )[i] is Board),
{
    assert(entry_effects_from(EntryStage::Probing, timing, outcomes) =~= Seq::empty());
    assert(entry_effects(timing, outcomes) =~= seq![wake_exchange(timing)]);
}

/// A device that does not answer the first probe with the banner, and whose
/// lines and channel work, goes through the whole entry sequence exactly once,
/// in order, between two probes: ERASE is held for at least
/// [`MIN_ERASE_HOLD_MS`] and the reset pulse lasts at least
/// [`MIN_RESET_PULSE_MS`].
pub proof fn lemma_entry_sequence_in_full(timing: ModeTiming, silence: Seq<u8>, last: OutcomeView)
    requires
        silence != banner(),
    ensures
        entry_effects(
            timing,
            seq![OutcomeView::Reply(silence)] + Seq::new(6, |i: int| OutcomeView::Completed)
                + seq![last],
        ) == seq![wake_exchange(timing)] + entry_actions(timing).map_values(
            |action: BoardAction| EffectView::Board(action),
        ) + seq![wake_exchange(timing)],
        entry_actions(timing)[1] == (BoardAction::Hold { millis: timing.erase_hold() }),
        timing.erase_hold() >= MIN_ERASE_HOLD_MS,
        entry_actions(timing)[4] == (BoardAction::Hold { millis: timing.reset_pulse() }),
        timing.reset_pulse() >= MIN_RESET_PULSE_MS,
{
    let outcomes = seq![OutcomeView::Reply(silence)] + Seq::new(6, |i: int| OutcomeView::Completed)
        + seq![last];
    let actions = entry_actions(timing);
    assert(actions.len() == 6);
    let o1 = outcomes.skip(1);
    let o2 = o1.skip(1);
    let o3 = o2.skip(1);
    let o4 = o3.skip(1);
    let o5 = o4.skip(1);
    let o6 = o5.skip(1);
    let o7 = o6.skip(1);
    assert(outcomes[0] == OutcomeView::Reply(silence));
    assert(o1[0] == OutcomeView::Completed);
    assert(o2[0] == OutcomeView::Completed);
    assert(o3[0] == OutcomeView::Completed);
    assert(o4[0] == OutcomeView::Completed);
    assert(o5[0] == OutcomeView::Completed);
    assert(o6[0] == OutcomeView::Completed);
    assert(o7.len() == 1);
    assert(o7.skip(1).len() == 0);
    reveal_with_fuel(entry_effects_from, 9);
    let line = |action: BoardAction| EffectView::Board(action);
    assert(entry_effects_from(EntryStage::Reprobing, timing, o7) =~= Seq::empty());
    assert(entry_effects_from(EntryStage::Sequencing { index: 5 }, timing, o6) =~= seq![
        wake_exchange(timing),
    ]);
    assert(entry_effects_from(EntryStage::Probing, timing, outcomes) =~= actions.map_values(line)
        + seq![wake_exchange(timing)]);
    assert(entry_effects(timing, outcomes) =~= seq![wake_exchange(timing)] + actions.map_values(
        line,
    ) + seq![wake_exchange(timing)]);
}

} // verus!
