//! The execution of one flash controller command.
//!
//! A command is handed to the controller with a single word write to its
//! command register. The controller then works on its own, and a bit of its
//! status register tells when it is ready again. The sequencer reads the
//! status at a fixed interval until the bit is set or the time is up. A
//! command that timed out is not tried again: the page may be half written.
use vstd::prelude::*;
use crate::eefc::EEFC_FCR;
use crate::eefc::EEFC_FSR;
use crate::eefc::EEFC_FSR_FRDY;
use crate::eefc::FlashCommand;
use crate::error::UpdateError;
use crate::link::BoardAction;
use crate::link::Effect;
use crate::link::EffectView;
use crate::link::Outcome;
use crate::link::OutcomeView;
use crate::link::Step;
use crate::link::StepView;
use crate::monitor::MonitorCommand;
use crate::monitor::SamBa;
use crate::monitor::be_word;
use crate::monitor::done_of;
use crate::monitor::word_of;

verus! {

/// Where and how often the sequencer looks for the end of a command.
#[derive(Clone, Copy, Debug, PartialEq, Eq)]
pub struct FlashTiming {
    /// The address of the status register.
    pub status_register: u32,
    /// The bits of the status register of which one is set while the
    /// controller is ready.
    pub ready_mask: u32,
    /// The time between two looks at the status, in milliseconds. Zero counts
    /// as one.
    pub poll_interval_ms: u32,
    /// The time after which a command that is not done has failed, in
    /// milliseconds.
    pub timeout_ms: u32,
}

impl FlashTiming {
    /// The time between two looks at the status: at least one millisecond.
    pub open spec fn interval(self) -> u32 {
        if self.poll_interval_ms == 0 {
            1
        } else {
            self.poll_interval_ms
        }
    }

    /// The status register and the ready bit of the flash controller, with the
    /// given interval and timeout.
    pub fn new(poll_interval_ms: u32, timeout_ms: u32) -> (timing: FlashTiming)
        ensures
            timing == (FlashTiming {
                status_register: EEFC_FSR,
                ready_mask: EEFC_FSR_FRDY,
                poll_interval_ms,
                timeout_ms,
            }),
    {
        FlashTiming {
            status_register: EEFC_FSR,
            ready_mask: EEFC_FSR_FRDY,
            poll_interval_ms,
            timeout_ms,
        }
    }
}

/// Where the execution of a command stands.
#[derive(Clone, Copy, Debug, PartialEq, Eq)]
pub enum FlashStage {
    /// The write of the command word is out.
    Issuing,
    /// A read of the status is out, after `waited_ms` of waiting in all.
    Polling { waited_ms: u32 },
    /// A wait is out, which brings the waiting to `waited_ms` in all.
    Resting { waited_ms: u32 },
    /// Nothing is out: the execution has ended.
    Finished,
}

/// The exchange that hands `command` to the flash controller.
pub open spec fn command_exchange(monitor: SamBa, command: FlashCommand) -> EffectView {
    monitor.exchange(MonitorCommand::WriteWord { address: EEFC_FCR, word: command.word_spec() })
}

/// The exchange that reads the status of the flash controller.
pub open spec fn status_exchange(monitor: SamBa, timing: FlashTiming) -> EffectView {
    monitor.exchange(MonitorCommand::ReadWord { address: timing.status_register })
}

/// What the execution of a command does with the outcome of its last effect.
///
/// Once the command word is written, the status is read. A status with a
/// ready bit set ends the execution with success. Otherwise the sequencer
/// waits for one interval and reads again, unless that wait would take the
/// waiting past the timeout: then the command has timed out. A failed effect
/// ends the execution with its cause, and a status of another width than
/// four bytes is a loss of synchronisation, as is any outcome after the
/// execution has ended.
pub open spec fn flash_next(
    stage: FlashStage,
    monitor: SamBa,
    timing: FlashTiming,
    outcome: OutcomeView,
) -> (FlashStage, StepView) {
    let ended = |result: Result<(), UpdateError>| (FlashStage::Finished, StepView::Finished(result));
    match stage {
        FlashStage::Issuing => match done_of(outcome) {
            Ok(_) => (
                FlashStage::Polling { waited_ms: 0 },
                StepView::Perform(status_exchange(monitor, timing)),
            ),
            Err(error) => ended(Err(error)),
        },
        FlashStage::Polling { waited_ms } => match word_of(outcome) {
            Ok(status) => if status & timing.ready_mask != 0 {
                ended(Ok(()))
            } else if waited_ms + timing.interval() > timing.timeout_ms {
                ended(Err(UpdateError::FlashTimeout))
            } else {
                (
                    FlashStage::Resting { waited_ms: (waited_ms + timing.interval()) as u32 },
                    StepView::Perform(
                        EffectView::Board(BoardAction::Hold { millis: timing.interval() }),
                    ),
                )
            },
            Err(error) => ended(Err(error)),
        },
        FlashStage::Resting { waited_ms } => match done_of(outcome) {
            Ok(_) => (
                FlashStage::Polling { waited_ms },
                StepView::Perform(status_exchange(monitor, timing)),
            ),
            Err(error) => ended(Err(error)),
        },
        FlashStage::Finished => ended(Err(UpdateError::ProtocolDesync)),
    }
}

/// Starts the execution of `command`: the first effect is the single word
/// write that hands the composed command word to the command register.
pub fn execute(monitor: &SamBa, command: FlashCommand) -> (start: (FlashStage, Effect))
    ensures
        start.0 == FlashStage::Issuing,
        start.1@ == command_exchange(*monitor, command),
{
    (FlashStage::Issuing, monitor.write_efc_fcr(command.opcode(), command.page() as u32))
}

impl FlashStage {
    /// Takes the outcome of the effect that is out and says what follows.
    pub fn advance(self, monitor: &SamBa, timing: &FlashTiming, outcome: &Outcome) -> (next: (
        FlashStage,
        Step,
    ))
        ensures
            (next.0, next.1@) == flash_next(self, *monitor, *timing, outcome@),
    {
        match self {
            FlashStage::Issuing => match SamBa::done_reply(outcome) {
                Ok(_) => (
                    FlashStage::Polling { waited_ms: 0 },
                    Step::Perform(monitor.read_word(timing.status_register)),
                ),
                Err(error) => (FlashStage::Finished, Step::Finished(Err(error))),
            },
            FlashStage::Polling { waited_ms } => match SamBa::word_reply(outcome) {
                Ok(status) => {
                    let interval: u32 = if timing.poll_interval_ms == 0 {
                        1
                    } else {
                        timing.poll_interval_ms
                    };
                    if status & timing.ready_mask != 0 {
                        (FlashStage::Finished, Step::Finished(Ok(())))
                    } else if waited_ms as u64 + interval as u64 > timing.timeout_ms as u64 {
                        (FlashStage::Finished, Step::Finished(Err(UpdateError::FlashTimeout)))
                    } else {
                        (
                            FlashStage::Resting { waited_ms: waited_ms + interval },
                            Step::Perform(Effect::Board(BoardAction::Hold { millis: interval })),
                        )
                    }
                },
                Err(error) => (FlashStage::Finished, Step::Finished(Err(error))),
            },
            FlashStage::Resting { waited_ms } => match SamBa::done_reply(outcome) {
                Ok(_) => (
                    FlashStage::Polling { waited_ms },
                    Step::Perform(monitor.read_word(timing.status_register)),
                ),
                Err(error) => (FlashStage::Finished, Step::Finished(Err(error))),
            },
            FlashStage::Finished => (
                FlashStage::Finished,
                Step::Finished(Err(UpdateError::ProtocolDesync)),
            ),
        }
    }
}

/// How a run of a flash command went.
pub struct FlashRun {
    /// The stage after the last outcome.
    pub stage: FlashStage,
    /// The effects that the sequencer asked for, in order.
    pub asked: Seq<EffectView>,
    /// The result of the command, if its execution has ended.
    pub result: Option<Result<(), UpdateError>>,
}

/// The run of a flash command from `stage` on, when the driver answers the
/// effects of the sequencer with `outcomes` in turn.
pub open spec fn flash_run(
    stage: FlashStage,
    monitor: SamBa,
    timing: FlashTiming,
    outcomes: Seq<OutcomeView>,
) -> FlashRun
    decreases outcomes.len(),
{
    if outcomes.len() == 0 {
        FlashRun { stage, asked: Seq::empty(), result: None }
    } else {
        let (next, step) = flash_next(stage, monitor, timing, outcomes[0]);
        match step {
            StepView::Finished(result) => FlashRun {
                stage: next,
                asked: Seq::empty(),
                result: Some(result),
            },
            StepView::Perform(effect) => {
                let rest = flash_run(next, monitor, timing, outcomes.skip(1));
                FlashRun { stage: rest.stage, asked: seq![effect] + rest.asked, result: rest.result }
            },
        }
    }
}

/// What a controller that stays busy hands back: the same `status` at every
/// look, `rests` times with a completed wait behind it and once more at the
/// end.
pub open spec fn busy_outcomes(status: Seq<u8>, rests: nat) -> Seq<OutcomeView>
    decreases rests,
{
    if rests == 0 {
        seq![OutcomeView::Reply(status)]
    } else {
        seq![OutcomeView::Reply(status), OutcomeView::Completed] + busy_outcomes(
            status,
            (rests - 1) as nat,
        )
    }
}

/// A wait of one interval and a look at the status, `rests` times over.
pub open spec fn rests_and_looks(monitor: SamBa, timing: FlashTiming, rests: nat) -> Seq<EffectView>
    decreases rests,
{
    if rests == 0 {
        Seq::empty()
    } else {
        seq![
            EffectView::Board(BoardAction::Hold { millis: timing.interval() }),
            status_exchange(monitor, timing),
        ] + rests_and_looks(monitor, timing, (rests - 1) as nat)
    }
}

/// From a look at the status after `waited_ms`, a controller that stays busy
/// is waited for and looked at as often as whole intervals fit into the rest
/// of the time, and then the command has timed out.
proof fn lemma_busy_from(
    monitor: SamBa,
    timing: FlashTiming,
    status: Seq<u8>,
    waited_ms: u32,
    rests: nat,
)
    requires
        status.len() == 4,
        be_word(status) & timing.ready_mask == 0,
        waited_ms + rests * timing.interval() <= timing.timeout_ms,
        waited_ms + (rests + 1) * timing.interval() > timing.timeout_ms,
    ensures
        ({
            let run = flash_run(
                FlashStage::Polling { waited_ms },
                monitor,
                timing,
                busy_outcomes(status, rests),
            );
            &&& run.result == Some(Err::<(), UpdateError>(UpdateError::FlashTimeout))
            &&& run.asked == rests_and_looks(monitor, timing, rests)
        }),
    decreases rests,
{
    let interval = timing.interval() as int;
    let outcomes = busy_outcomes(status, rests);
    let run = flash_run(FlashStage::Polling { waited_ms }, monitor, timing, outcomes);
    assert(outcomes[0] == OutcomeView::Reply(status));
    assert(word_of(outcomes[0]) == Ok::<u32, UpdateError>(be_word(status)));
    if rests == 0 {
        assert((rests + 1) * interval == interval) by (nonlinear_arith)
            requires
                rests == 0,
        ;
        assert(run.asked =~= rests_and_looks(monitor, timing, rests));
    } else {
        assert(rests * interval == (rests - 1) * interval + interval) by (nonlinear_arith);
        assert((rests + 1) * interval == rests * interval + interval) by (nonlinear_arith);
        assert((rests - 1) * interval >= 0) by (nonlinear_arith)
            requires
                rests >= 1,
                interval >= 0,
        ;
        let rested = (waited_ms + interval) as u32;
        let later = outcomes.skip(1);
        assert(later[0] == OutcomeView::Completed);
        assert(later.skip(1) =~= busy_outcomes(status, (rests - 1) as nat));
        lemma_busy_from(monitor, timing, status, rested, (rests - 1) as nat);
        let resting = flash_run(FlashStage::Resting { waited_ms: rested }, monitor, timing, later);
        let polling = flash_run(
            FlashStage::Polling { waited_ms: rested },
            monitor,
            timing,
            later.skip(1),
        );
        assert(resting.asked == seq![status_exchange(monitor, timing)] + polling.asked);
        assert(run.asked == seq![
            EffectView::Board(BoardAction::Hold { millis: timing.interval() }),
        ] + resting.asked);
        assert(run.asked =~= rests_and_looks(monitor, timing, rests));
    }
}

/// A controller that never becomes ready makes its command time out, and the
/// sequencer never waits for longer than the timeout.
///
/// Where the write of the command word succeeds and every look at the status
/// shows no ready bit, the sequencer looks once at once and then once after
/// each wait of one interval, for as many whole intervals as fit into the
/// timeout. With the look after the last of them the execution ends with a
/// timeout, and the command is not issued a second time.
pub proof fn lemma_busy_controller_times_out(monitor: SamBa, timing: FlashTiming, status: Seq<u8>)
    requires
        status.len() == 4,
        be_word(status) & timing.ready_mask == 0,
    ensures
        ({
            let rests = (timing.timeout_ms / timing.interval()) as nat;
            let run = flash_run(
                FlashStage::Issuing,
                monitor,
                timing,
                seq![OutcomeView::Completed] + busy_outcomes(status, rests),
            );
            &&& rests * timing.interval() <= timing.timeout_ms
            &&& run.result == Some(Err::<(), UpdateError>(UpdateError::FlashTimeout))
            &&& run.asked == seq![status_exchange(monitor, timing)] + rests_and_looks(
                monitor,
                timing,
                rests,
            )
        }),
{
    let interval = timing.interval() as int;
    let timeout = timing.timeout_ms as int;
    let rests = (timing.timeout_ms / timing.interval()) as nat;
    assert(rests * interval <= timeout && timeout < (rests + 1) * interval) by (nonlinear_arith)
        requires
            interval > 0,
            timeout >= 0,
            rests == timeout / interval,
    ;
    let outcomes = seq![OutcomeView::Completed] + busy_outcomes(status, rests);
    assert(outcomes[0] == OutcomeView::Completed);
    assert(outcomes.skip(1) =~= busy_outcomes(status, rests));
    lemma_busy_from(monitor, timing, status, 0, rests);
    let run = flash_run(FlashStage::Issuing, monitor, timing, outcomes);
    let polling = flash_run(
        FlashStage::Polling { waited_ms: 0 },
        monitor,
        timing,
        busy_outcomes(status, rests),
    );
    assert(run.asked == seq![status_exchange(monitor, timing)] + polling.asked);
}

} // verus!
