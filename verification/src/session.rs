//! One update of a device, from start to end.
//!
//! A session goes through its phases in one order: it enters the monitor,
//! announces the image, copies it, programs the flash page by page, leaves the
//! monitor, and is complete. No phase begins before the one in front of it has
//! succeeded, and none is entered twice. Whatever fails, the session makes one
//! attempt to bring the device back to normal operation, and then reports the
//! failure together with what came of that attempt.
use vstd::prelude::*;
use crate::eefc::FlashCommand;
use crate::error::UpdateError;
use crate::image::FirmwareImage;
use crate::link::Effect;
use crate::link::EffectView;
use crate::link::Outcome;
use crate::link::OutcomeView;
use crate::link::Step;
use crate::link::StepView;
use crate::mode::EntryStage;
use crate::mode::ExitStage;
use crate::mode::ModeTiming;
use crate::mode::entry_next;
use crate::mode::exit_bootloader;
use crate::mode::exit_next;
use crate::mode::wake;
use crate::mode::wake_exchange;
use crate::monitor::MonitorCommand;
use crate::monitor::SamBa;
use crate::sequencer::FlashStage;
use crate::sequencer::FlashTiming;
use crate::sequencer::command_exchange;
use crate::sequencer::execute;
use crate::sequencer::flash_next;
use crate::transfer::TransferConfig;
use crate::transfer::TransferStage;
use crate::transfer::transfer;
use crate::transfer::transfer_next;

verus! {

/// Everything that an update is configured with.
#[derive(Clone, Copy, Debug, PartialEq, Eq)]
pub struct UpdateConfig {
    /// The monitor client, with its bound on the wait for a reply.
    pub monitor: SamBa,
    /// The times of the mode controller.
    pub mode: ModeTiming,
    /// The limits and the framing of the transfer.
    pub transfer: TransferConfig,
    /// The polling of the flash controller.
    pub flash: FlashTiming,
    /// The address at which the application starts.
    pub application_entry: u32,
}

/// The phases of a session, in their order.
#[derive(Clone, Copy, Debug, PartialEq, Eq)]
pub enum Phase {
    Idle,
    EnteringBootloader,
    Handshaking,
    Transferring,
    Programming,
    ExitingBootloader,
    Complete,
    Failed,
}

impl Phase {
    /// The place of the phase in the order of phases. A failure ends a session
    /// from anywhere, so it comes last.
    pub open spec fn rank(self) -> nat {
        match self {
            Phase::Idle => 0,
            Phase::EnteringBootloader => 1,
            Phase::Handshaking => 2,
            Phase::Transferring => 3,
            Phase::Programming => 4,
            Phase::ExitingBootloader => 5,
            Phase::Complete => 6,
            Phase::Failed => 7,
        }
    }
}

/// What came of the attempt to bring the device back to normal operation.
#[derive(Clone, Copy, Debug, PartialEq, Eq)]
pub enum Recovery {
    /// The device runs its application again.
    Restored,
    /// The attempt failed as well, with this error.
    Failed(UpdateError),
}

/// The report of a failed session.
#[derive(Clone, Copy, Debug, PartialEq, Eq)]
pub struct Failure {
    /// The phase in which the session failed.
    pub phase: Phase,
    /// The error that ended the session.
    pub error: UpdateError,
    /// What came of the one attempt at recovery.
    pub recovery: Recovery,
}

/// What a session is doing.
#[derive(Clone, Copy, Debug, PartialEq, Eq)]
pub enum Activity {
    /// Nothing yet.
    Idle,
    /// Entering the monitor.
    Entering(EntryStage),
    /// Announcing and copying the image.
    Copying(TransferStage),
    /// Writing the flash page at `page`.
    Programming { page: u16, stage: FlashStage },
    /// Leaving the monitor.
    Exiting(ExitStage),
    /// Bringing the device back to normal operation after `error` in `phase`.
    Recovering { phase: Phase, error: UpdateError, exit: ExitStage },
    /// The update is done.
    Complete,
    /// The update has failed.
    Failed(Failure),
}

impl Activity {
    /// The phase that the activity belongs to. A session that recovers has
    /// failed already.
    pub open spec fn phase_spec(self) -> Phase {
        match self {
            Activity::Idle => Phase::Idle,
            Activity::Entering(_) => Phase::EnteringBootloader,
            Activity::Copying(stage) => if stage is Handshaking {
                Phase::Handshaking
            } else {
                Phase::Transferring
            },
            Activity::Programming { .. } => Phase::Programming,
            Activity::Exiting(_) => Phase::ExitingBootloader,
            Activity::Recovering { .. } => Phase::Failed,
            Activity::Complete => Phase::Complete,
            Activity::Failed(_) => Phase::Failed,
        }
    }

    /// The phase that the activity belongs to.
    #[verifier::when_used_as_spec(phase_spec)]
    pub fn phase(self) -> (phase: Phase)
        ensures
            phase == self.phase_spec(),
    {
        match self {
            Activity::Idle => Phase::Idle,
            Activity::Entering(_) => Phase::EnteringBootloader,
            Activity::Copying(stage) => match stage {
                TransferStage::Handshaking => Phase::Handshaking,
                _ => Phase::Transferring,
            },
            Activity::Programming { .. } => Phase::Programming,
            Activity::Exiting(_) => Phase::ExitingBootloader,
            Activity::Recovering { .. } => Phase::Failed,
            Activity::Complete => Phase::Complete,
            Activity::Failed(_) => Phase::Failed,
        }
    }
}

/// The answer of a session to an outcome.
#[derive(Debug, PartialEq, Eq)]
pub enum Progress {
    /// The driver has to perform this effect next.
    Perform(Effect),
    /// The update is done.
    Complete,
    /// The update has failed, and recovery has been attempted.
    Failed(Failure),
}

/// The mathematical value of a [`Progress`].
pub enum ProgressView {
    Perform(EffectView),
    Complete,
    Failed(Failure),
}

impl View for Progress {
    type V = ProgressView;

    open spec fn view(&self) -> ProgressView {
        match *self {
            Progress::Perform(effect) => ProgressView::Perform(effect@),
            Progress::Complete => ProgressView::Complete,
            Progress::Failed(failure) => ProgressView::Failed(failure),
        }
    }
}

/// The jump to the application.
pub open spec fn jump_exchange(config: UpdateConfig) -> EffectView {
    config.monitor.exchange(MonitorCommand::Jump { address: config.application_entry })
}

/// The announcement of the image.
pub open spec fn announcement(image: FirmwareImage, config: UpdateConfig) -> EffectView {
    config.monitor.exchange(
        MonitorCommand::BulkCopy { address: image.load_address_spec(), length: image@.len() as u32 },
    )
}

/// The number of flash pages that the image takes up.
pub open spec fn page_total(image: FirmwareImage) -> nat {
    image.geometry_spec().pages_for(image@.len())
}

/// The begin of the one attempt at recovery after `error` in `phase`.
pub open spec fn recover(phase: Phase, error: UpdateError, config: UpdateConfig) -> (
    Activity,
    ProgressView,
) {
    (
        Activity::Recovering { phase, error, exit: ExitStage::Jumping },
        ProgressView::Perform(jump_exchange(config)),
    )
}

/// The begin of the copy.
pub open spec fn copy(image: FirmwareImage, config: UpdateConfig) -> (Activity, ProgressView) {
    (Activity::Copying(TransferStage::Handshaking), ProgressView::Perform(announcement(image, config)))
}

/// The begin of the work on the flash page at `page`: the page is written.
pub open spec fn program(page: u16, config: UpdateConfig) -> (Activity, ProgressView) {
    (
        Activity::Programming { page, stage: FlashStage::Issuing },
        ProgressView::Perform(command_exchange(config.monitor, FlashCommand::WritePage(page))),
    )
}

/// The begin of the return to the application.
pub open spec fn leave(config: UpdateConfig) -> (Activity, ProgressView) {
    (Activity::Exiting(ExitStage::Jumping), ProgressView::Perform(jump_exchange(config)))
}

/// What a session does with the outcome of its last effect.
///
/// An idle session begins with the entry into the monitor, whatever it is
/// handed. A phase that goes on asks for its next effect. A phase that has
/// succeeded is followed by the next phase: the entry by the copy, the copy by
/// the first page of the image, a page by the next page, the last page by the
/// return to the application, and that by completion. A phase that has failed
/// is followed by the one attempt at recovery, and the end of that attempt by
/// the report of the failure. A session that is complete or has failed stays
/// as it is.
pub open spec fn session_next(
    activity: Activity,
    image: FirmwareImage,
    config: UpdateConfig,
    outcome: OutcomeView,
) -> (Activity, ProgressView) {
    match activity {
        Activity::Idle => (
            Activity::Entering(EntryStage::Probing),
            ProgressView::Perform(wake_exchange(config.mode)),
        ),
        Activity::Entering(stage) => {
            let (next, step) = entry_next(stage, config.mode, outcome);
            match step {
                StepView::Perform(effect) => (
                    Activity::Entering(next),
                    ProgressView::Perform(effect),
                ),
                StepView::Finished(Ok(_)) => copy(image, config),
                StepView::Finished(Err(error)) => recover(activity.phase_spec(), error, config),
            }
        },
        Activity::Copying(stage) => {
            let (next, step) = transfer_next(stage, image@, config.transfer, outcome);
            match step {
                StepView::Perform(effect) => (Activity::Copying(next), ProgressView::Perform(effect)),
                StepView::Finished(Ok(_)) => if page_total(image) == 0 {
                    leave(config)
                } else {
                    program(0, config)
                },
                StepView::Finished(Err(error)) => recover(activity.phase_spec(), error, config),
            }
        },
        Activity::Programming { page, stage } => {
            let (next, step) = flash_next(stage, config.monitor, config.flash, outcome);
            match step {
                StepView::Perform(effect) => (
                    Activity::Programming { page, stage: next },
                    ProgressView::Perform(effect),
                ),
                StepView::Finished(Ok(_)) => if page + 1 < page_total(image) {
                    program((page + 1) as u16, config)
                } else {
                    leave(config)
                },
                StepView::Finished(Err(error)) => recover(activity.phase_spec(), error, config),
            }
        },
        Activity::Exiting(stage) => {
            let (next, step) = exit_next(stage, outcome);
            match step {
                StepView::Perform(effect) => (Activity::Exiting(next), ProgressView::Perform(effect)),
                StepView::Finished(Ok(_)) => (Activity::Complete, ProgressView::Complete),
                StepView::Finished(Err(error)) => recover(activity.phase_spec(), error, config),
            }
        },
        Activity::Recovering { phase, error, exit } => {
            let (next, step) = exit_next(exit, outcome);
            match step {
                StepView::Perform(effect) => (
                    Activity::Recovering { phase, error, exit: next },
                    ProgressView::Perform(effect),
                ),
                StepView::Finished(Ok(_)) => {
                    let failure = Failure { phase, error, recovery: Recovery::Restored };
                    (Activity::Failed(failure), ProgressView::Failed(failure))
                },
                StepView::Finished(Err(second)) => {
                    let failure = Failure { phase, error, recovery: Recovery::Failed(second) };
                    (Activity::Failed(failure), ProgressView::Failed(failure))
                },
            }
        },
        Activity::Complete => (Activity::Complete, ProgressView::Complete),
        Activity::Failed(failure) => (Activity::Failed(failure), ProgressView::Failed(failure)),
    }
}

/// One update of a device with one image.
#[derive(Debug)]
pub struct UpdateSession<'a> {
    /// The image that the session brings onto the device.
    pub image: &'a FirmwareImage,
    /// The configuration of the session.
    pub config: UpdateConfig,
    /// What the session is doing.
    pub activity: Activity,
}

/// A session that is about to bring `image` onto a device. Nothing has
/// happened yet: the first call of [`UpdateSession::advance`] begins the
/// update.
pub fn flash<'a>(image: &'a FirmwareImage, config: UpdateConfig) -> (session: UpdateSession<'a>)
    ensures
        session.activity == Activity::Idle,
        session.image == image,
        session.config == config,
{
    UpdateSession { image, config, activity: Activity::Idle }
}

impl<'a> UpdateSession<'a> {
    /// The begin of the one attempt at recovery.
    fn recover(&self, phase: Phase, error: UpdateError) -> (next: (Activity, Progress))
        ensures
            (next.0, next.1@) == recover(phase, error, self.config),
    {
        let start = exit_bootloader(&self.config.monitor, self.config.application_entry);
        (Activity::Recovering { phase, error, exit: start.0 }, Progress::Perform(start.1))
    }

    /// The begin of the copy.
    fn copy(&self) -> (next: (Activity, Progress))
        ensures
            (next.0, next.1@) == copy(*self.image, self.config),
    {
        let start = transfer(&self.config.monitor, self.image);
        (Activity::Copying(start.0), Progress::Perform(start.1))
    }

    /// The begin of the work on the flash page at `page`.
    fn program(&self, page: u16) -> (next: (Activity, Progress))
        ensures
            (next.0, next.1@) == program(page, self.config),
    {
        let start = execute(&self.config.monitor, FlashCommand::WritePage(page));
        (Activity::Programming { page, stage: start.0 }, Progress::Perform(start.1))
    }

    /// The begin of the return to the application.
    fn leave(&self) -> (next: (Activity, Progress))
        ensures
            (next.0, next.1@) == leave(self.config),
    {
        let start = exit_bootloader(&self.config.monitor, self.config.application_entry);
        (Activity::Exiting(start.0), Progress::Perform(start.1))
    }

    /// The phase that the session is in.
    pub fn phase(&self) -> (phase: Phase)
        ensures
            phase == self.activity.phase_spec(),
    {
        self.activity.phase()
    }

    /// Takes the outcome of the effect that is out and says what follows.
    /// The phase of the session never moves backwards.
    pub fn advance(&mut self, outcome: &Outcome) -> (progress: Progress)
        ensures
            (final(self).activity, progress@) == session_next(
                old(self).activity,
                *old(self).image,
                old(self).config,
                outcome@,
            ),
            final(self).image == old(self).image,
            final(self).config == old(self).config,
            final(self).activity.phase_spec().rank() >= old(self).activity.phase_spec().rank(),
    {
        let activity = self.activity;
        let phase = activity.phase();
        proof {
            lemma_phases_move_forward(activity, *self.image, self.config, outcome@);
        }
        let next: (Activity, Progress) = match activity {
            Activity::Idle => (Activity::Entering(EntryStage::Probing), Progress::Perform(wake(&self.config.mode))),
            Activity::Entering(stage) => {
                let inner = stage.advance(&self.config.mode, outcome);
                match inner.1 {
                    Step::Perform(effect) => (Activity::Entering(inner.0), Progress::Perform(effect)),
                    Step::Finished(Ok(_)) => self.copy(),
                    Step::Finished(Err(error)) => self.recover(phase, error),
                }
            },
            Activity::Copying(stage) => {
                let inner = stage.advance(self.image, &self.config.transfer, outcome);
                match inner.1 {
                    Step::Perform(effect) => (Activity::Copying(inner.0), Progress::Perform(effect)),
                    Step::Finished(Ok(_)) => {
                        if self.image.pages() == 0 {
                            self.leave()
                        } else {
                            self.program(0)
                        }
                    },
                    Step::Finished(Err(error)) => self.recover(phase, error),
                }
            },
            Activity::Programming { page, stage } => {
                let inner = stage.advance(&self.config.monitor, &self.config.flash, outcome);
                match inner.1 {
                    Step::Perform(effect) => (
                        Activity::Programming { page, stage: inner.0 },
                        Progress::Perform(effect),
                    ),
                    Step::Finished(Ok(_)) => {
                        let total: u16 = self.image.pages();
                        if page < total && page + 1 < total {
                            self.program(page + 1)
                        } else {
                            self.leave()
                        }
                    },
                    Step::Finished(Err(error)) => self.recover(phase, error),
                }
            },
            Activity::Exiting(stage) => {
                let inner = stage.advance(outcome);
                match inner.1 {
                    Step::Perform(effect) => (Activity::Exiting(inner.0), Progress::Perform(effect)),
                    Step::Finished(Ok(_)) => (Activity::Complete, Progress::Complete),
                    Step::Finished(Err(error)) => self.recover(phase, error),
                }
            },
            Activity::Recovering { phase, error, exit } => {
                let inner = exit.advance(outcome);
                match inner.1 {
                    Step::Perform(effect) => (
                        Activity::Recovering { phase, error, exit: inner.0 },
                        Progress::Perform(effect),
                    ),
                    Step::Finished(Ok(_)) => {
                        let failure = Failure { phase, error, recovery: Recovery::Restored };
                        (Activity::Failed(failure), Progress::Failed(failure))
                    },
                    Step::Finished(Err(second)) => {
                        let failure = Failure { phase, error, recovery: Recovery::Failed(second) };
                        (Activity::Failed(failure), Progress::Failed(failure))
                    },
                }
            },
            Activity::Complete => (Activity::Complete, Progress::Complete),
            Activity::Failed(failure) => (Activity::Failed(failure), Progress::Failed(failure)),
        };
        self.activity = next.0;
        next.1
    }
}

/// The phases of a session only move forward: whatever a session is handed,
/// the phase that it is in afterwards comes no earlier in the order of phases
/// than the phase that it was in. A session that is complete or has failed
/// stays so.
pub proof fn lemma_phases_move_forward(
    activity: Activity,
    image: FirmwareImage,
    config: UpdateConfig,
    outcome: OutcomeView,
)
    ensures
        session_next(activity, image, config, outcome).0.phase_spec().rank()
            >= activity.phase_spec().rank(),
        activity is Complete ==> session_next(activity, image, config, outcome).0 is Complete,
        activity.phase_spec() is Failed ==> session_next(
            activity,
            image,
            config,
            outcome,
        ).0.phase_spec() is Failed,
{
}

/// The effects that a session asks for from `activity` on, when the driver
/// answers with `outcomes` in turn.
pub open spec fn session_effects(
    activity: Activity,
    image: FirmwareImage,
    config: UpdateConfig,
    outcomes: Seq<OutcomeView>,
) -> Seq<EffectView>
    decreases outcomes.len(),
{
    if outcomes.len() == 0 {
        Seq::empty()
    } else {
        let (next, progress) = session_next(activity, image, config, outcomes[0]);
        let rest = session_effects(next, image, config, outcomes.skip(1));
        match progress {
            ProgressView::Perform(effect) => seq![effect] + rest,
            _ => rest,
        }
    }
}

/// What a session is doing after the driver has answered with `outcomes` in
/// turn, from `activity` on.
pub open spec fn session_after(
    activity: Activity,
    image: FirmwareImage,
    config: UpdateConfig,
    outcomes: Seq<OutcomeView>,
) -> Activity
    decreases outcomes.len(),
{
    if outcomes.len() == 0 {
        activity
    } else {
        session_after(
            session_next(activity, image, config, outcomes[0]).0,
            image,
            config,
            outcomes.skip(1),
        )
    }
}

/// A session that has failed stays as it is and asks for nothing more,
/// whatever it is handed.
pub proof fn lemma_failed_is_final(
    failure: Failure,
    image: FirmwareImage,
    config: UpdateConfig,
    outcomes: Seq<OutcomeView>,
)
    ensures
        session_after(Activity::Failed(failure), image, config, outcomes) == Activity::Failed(
            failure,
        ),
        session_effects(Activity::Failed(failure), image, config, outcomes) == Seq::<
            EffectView,
        >::empty(),
    decreases outcomes.len(),
{
    if outcomes.len() > 0 {
        lemma_failed_is_final(failure, image, config, outcomes.skip(1));
    }
}

/// Recovery is attempted once and never replaces the failure that led to it.
///
/// From the moment at which a session has begun its recovery after `error` in
/// `phase`, and whatever the driver hands it from then on: the session asks
/// for nothing but, at most once, the confirmation of normal operation, so no
/// second jump is ever sent; and it is either still recovering from that
/// error, or it has failed with that error and that phase in its report, also
/// where the recovery itself has failed.
pub proof fn lemma_recovery_once(
    phase: Phase,
    error: UpdateError,
    image: FirmwareImage,
    config: UpdateConfig,
    outcomes: Seq<OutcomeView>,
)
    ensures
        ({
            let begun = Activity::Recovering { phase, error, exit: ExitStage::Jumping };
            let effects = session_effects(begun, image, config, outcomes);
            let after = session_after(begun, image, config, outcomes);
            &&& effects == Seq::<EffectView>::empty() || effects == seq![EffectView::ConfirmNormal]
            &&& match after {
                Activity::Recovering { phase: p, error: e, .. } => p == phase && e == error,
                Activity::Failed(failure) => failure.phase == phase && failure.error == error,
                _ => false,
            }
        }),
{
    let begun = Activity::Recovering { phase, error, exit: ExitStage::Jumping };
    if outcomes.len() > 0 {
        let (first, progress) = session_next(begun, image, config, outcomes[0]);
        let rest = outcomes.skip(1);
        match first {
            Activity::Failed(failure) => {
                lemma_failed_is_final(failure, image, config, rest);
                assert(session_effects(begun, image, config, outcomes) =~= Seq::empty());
            },
            _ => {
                assert(first == Activity::Recovering { phase, error, exit: ExitStage::Confirming });
                assert(progress == ProgressView::Perform(EffectView::ConfirmNormal));
                if rest.len() > 0 {
                    let (second, report) = session_next(first, image, config, rest[0]);
                    assert(second is Failed);
                    assert(report is Failed);
                    lemma_failed_is_final(second->Failed_0, image, config, rest.skip(1));
                }
                let later = session_effects(first, image, config, rest);
                assert(later =~= Seq::empty());
                assert(session_effects(begun, image, config, outcomes) == seq![
                    EffectView::ConfirmNormal,
                ] + later);
                assert(seq![EffectView::ConfirmNormal] + later =~= seq![EffectView::ConfirmNormal]);
            },
        }
    }
}

/// A phase that fails hands over to recovery, and to nothing else: where a
/// session that was at work in one of its phases is recovering after an
/// outcome, it asks for the jump to the application, and it remembers the
/// phase that it was in.
pub proof fn lemma_failure_begins_recovery(
    activity: Activity,
    image: FirmwareImage,
    config: UpdateConfig,
    outcome: OutcomeView,
)
    requires
        !(activity is Recovering),
        session_next(activity, image, config, outcome).0 is Recovering,
    ensures
        ({
            let (next, progress) = session_next(activity, image, config, outcome);
            &&& progress == ProgressView::Perform(jump_exchange(config))
            &&& next matches Activity::Recovering { phase, exit, .. } && phase
                == activity.phase_spec() && exit == ExitStage::Jumping
            &&& activity.phase_spec() != Phase::Idle
            &&& activity.phase_spec() != Phase::Complete
            &&& activity.phase_spec() != Phase::Failed
        }),
{
}

/// A flash command that times out while a page is programmed leads to exactly
/// one attempt at recovery, and the session reports the timeout.
///
/// Where the status that the device sends shows no ready bit and the time of
/// the command is up, the session begins its recovery with the jump to the
/// application. From then on it sends no second jump, and what it reports in
/// the end is the timeout in the programming phase, whatever came of the
/// recovery.
pub proof fn lemma_flash_timeout_is_reported(
    image: FirmwareImage,
    config: UpdateConfig,
    page: u16,
    waited_ms: u32,
    status: Seq<u8>,
    outcomes: Seq<OutcomeView>,
)
    requires
        status.len() == 4,
        crate::monitor::be_word(status) & config.flash.ready_mask == 0,
        waited_ms + config.flash.interval() > config.flash.timeout_ms,
    ensures
        ({
            let polling = Activity::Programming { page, stage: FlashStage::Polling { waited_ms } };
            let begun = Activity::Recovering {
                phase: Phase::Programming,
                error: UpdateError::FlashTimeout,
                exit: ExitStage::Jumping,
            };
            let effects = session_effects(begun, image, config, outcomes);
            let after = session_after(begun, image, config, outcomes);
            &&& session_next(polling, image, config, OutcomeView::Reply(status)) == (
                begun,
                ProgressView::Perform(jump_exchange(config)),
            )
            &&& effects == Seq::<EffectView>::empty() || effects == seq![EffectView::ConfirmNormal]
            &&& match after {
                Activity::Recovering { phase, error, .. } => phase == Phase::Programming && error
                    == UpdateError::FlashTimeout,
                Activity::Failed(failure) => failure.phase == Phase::Programming && failure.error
                    == UpdateError::FlashTimeout,
                _ => false,
            }
        }),
{
    lemma_recovery_once(Phase::Programming, UpdateError::FlashTimeout, image, config, outcomes);
}

} // verus!
