use fdfu::error::UpdateError;
use fdfu::link::BoardAction;
use fdfu::link::Effect;
use fdfu::link::Outcome;
use fdfu::link::Step;
use fdfu::mode::enter_bootloader;
use fdfu::mode::exit_bootloader;
use fdfu::mode::probe_monitor;
use fdfu::mode::sam_enter_dfu;
use fdfu::mode::sam_reset;
use fdfu::mode::wake;
use fdfu::mode::EntryStage;
use fdfu::mode::ExitStage;
use fdfu::mode::ModeTiming;
use fdfu::mode::ERASE_LINE;
use fdfu::mode::RESET_LINE;
use fdfu::mode::SAM_ERASE_PIN;
use fdfu::mode::SAM_RESET_PIN;
use fdfu::monitor::SamBa;

fn banner() -> Vec<u8> {
    vec![b'\n', b'\r', b'>']
}

fn probe(timeout_ms: u32) -> Effect {
    Effect::Exchange { frame: vec![b'#'], reply_width: 3, timeout_ms }
}

/// Runs an entry against a device that answers the probes with `replies` in
/// turn and carries out every board action. Returns the result and all
/// effects that were asked for.
fn run_entry(timing: &ModeTiming, replies: Vec<Outcome>) -> (Result<(), UpdateError>, Vec<Effect>) {
    let mut replies = replies.into_iter();
    let (mut stage, mut effect) = enter_bootloader(timing);
    let mut log: Vec<Effect> = Vec::new();
    loop {
        let outcome = match &effect {
            Effect::Exchange { .. } => replies.next().unwrap(),
            _ => Outcome::Completed,
        };
        log.push(effect);
        let (next, step) = stage.advance(timing, &outcome);
        stage = next;
        match step {
            Step::Perform(following) => effect = following,
            Step::Finished(result) => {
                assert_eq!(stage, EntryStage::Finished);
                return (result, log);
            },
        }
    }
}

#[test]
fn lines_are_where_the_board_has_them() {
    assert_eq!(ERASE_LINE, 1 << SAM_ERASE_PIN);
    assert_eq!(RESET_LINE, 1 << SAM_RESET_PIN);
}

#[test]
fn probe_is_one_wake_byte_and_one_read_of_three() {
    let timing = ModeTiming::new(40);
    assert_eq!(wake(&timing), probe(40));
    assert_eq!(enter_bootloader(&timing), (EntryStage::Probing, probe(40)));
}

#[test]
fn only_the_exact_banner_counts() {
    assert!(probe_monitor(&Outcome::Reply(banner())));
    assert!(!probe_monitor(&Outcome::Reply(vec![b'\n', b'\r'])));
    assert!(!probe_monitor(&Outcome::Reply(vec![b'\n', b'\r', b'>', b'>'])));
    assert!(!probe_monitor(&Outcome::Reply(vec![b'\r', b'\n', b'>'])));
    assert!(!probe_monitor(&Outcome::Reply(vec![])));
    assert!(!probe_monitor(&Outcome::Completed));
    assert!(!probe_monitor(&Outcome::Failed(0)));
}

#[test]
fn reset_pulse_is_assert_hold_release() {
    let timing = ModeTiming::new(40);
    assert_eq!(
        sam_reset(&timing),
        vec![
            BoardAction::Drive { set: 0, clear: 0x20 },
            BoardAction::Hold { millis: 10 },
            BoardAction::Drive { set: 0x20, clear: 0 },
        ]
    );
}

#[test]
fn entry_sequence_keeps_erase_asserted_through_the_pulse() {
    let timing = ModeTiming::new(40);
    assert_eq!(
        sam_enter_dfu(&timing),
        vec![
            BoardAction::Drive { set: 0x40, clear: 0x20 },
            BoardAction::Hold { millis: 5000 },
            BoardAction::Drive { set: 0x20, clear: 0 },
            BoardAction::Drive { set: 0, clear: 0x20 },
            BoardAction::Hold { millis: 10 },
            BoardAction::Drive { set: 0x20, clear: 0 },
        ]
    );
}

#[test]
fn holds_are_never_shortened() {
    let hasty = ModeTiming { erase_hold_ms: 100, reset_pulse_ms: 0, probe_timeout_ms: 40 };
    let actions = sam_enter_dfu(&hasty);
    assert_eq!(actions[1], BoardAction::Hold { millis: 5000 });
    assert_eq!(actions[4], BoardAction::Hold { millis: 10 });
    assert_eq!(sam_reset(&hasty)[1], BoardAction::Hold { millis: 10 });
    let patient = ModeTiming { erase_hold_ms: 8000, reset_pulse_ms: 25, probe_timeout_ms: 40 };
    let actions = sam_enter_dfu(&patient);
    assert_eq!(actions[1], BoardAction::Hold { millis: 8000 });
    assert_eq!(actions[4], BoardAction::Hold { millis: 25 });
}

#[test]
fn banner_on_first_probe_touches_no_line() {
    let timing = ModeTiming::new(40);
    let (result, log) = run_entry(&timing, vec![Outcome::Reply(banner())]);
    assert_eq!(result, Ok(()));
    assert_eq!(log, vec![probe(40)]);
    for effect in &log {
        assert!(!matches!(effect, Effect::Board(_)));
    }
}

#[test]
fn silent_device_is_taken_through_the_sequence() {
    let timing = ModeTiming::new(40);
    let (result, log) = run_entry(&timing, vec![Outcome::Reply(vec![]), Outcome::Reply(banner())]);
    assert_eq!(result, Ok(()));
    let mut expected: Vec<Effect> = vec![probe(40)];
    for action in sam_enter_dfu(&timing) {
        expected.push(Effect::Board(action));
    }
    expected.push(probe(40));
    assert_eq!(log, expected);
}

#[test]
fn missing_banner_after_the_sequence_is_a_timeout() {
    let timing = ModeTiming::new(40);
    let (result, log) =
        run_entry(&timing, vec![Outcome::Reply(vec![b'?']), Outcome::Reply(vec![b'\n', b'\r'])]);
    assert_eq!(result, Err(UpdateError::ModeEntryTimeout));
    assert_eq!(log.len(), 8);
}

#[test]
fn failing_channel_ends_the_entry() {
    let timing = ModeTiming::new(40);
    let (result, log) = run_entry(&timing, vec![Outcome::Failed(5)]);
    assert_eq!(result, Err(UpdateError::IoFailure { code: 5 }));
    assert_eq!(log.len(), 1);
    let (result, log) = run_entry(&timing, vec![Outcome::Reply(vec![]), Outcome::Failed(6)]);
    assert_eq!(result, Err(UpdateError::IoFailure { code: 6 }));
    assert_eq!(log.len(), 8);
}

#[test]
fn failing_board_ends_the_entry() {
    let timing = ModeTiming::new(40);
    let (stage, step) = EntryStage::Sequencing { index: 2 }.advance(&timing, &Outcome::Failed(3));
    assert_eq!(stage, EntryStage::Finished);
    assert_eq!(step, Step::Finished(Err(UpdateError::IoFailure { code: 3 })));
    let (stage, step) =
        EntryStage::Sequencing { index: 2 }.advance(&timing, &Outcome::Reply(vec![1]));
    assert_eq!(stage, EntryStage::Finished);
    assert_eq!(step, Step::Finished(Err(UpdateError::ProtocolDesync)));
}

#[test]
fn entry_takes_no_outcome_that_answers_nothing() {
    let timing = ModeTiming::new(40);
    let (_, step) = EntryStage::Probing.advance(&timing, &Outcome::Completed);
    assert_eq!(step, Step::Finished(Err(UpdateError::ProtocolDesync)));
    let (stage, step) = EntryStage::Finished.advance(&timing, &Outcome::Completed);
    assert_eq!(stage, EntryStage::Finished);
    assert_eq!(step, Step::Finished(Err(UpdateError::ProtocolDesync)));
    let (stage, step) =
        EntryStage::Sequencing { index: usize::MAX }.advance(&timing, &Outcome::Completed);
    assert_eq!(stage, EntryStage::Reprobing);
    assert_eq!(step, Step::Perform(probe(40)));
}

#[test]
fn exit_jumps_and_has_normal_operation_confirmed() {
    let client = SamBa::new(70);
    let (stage, effect) = exit_bootloader(&client, 0x0040_0000);
    assert_eq!(stage, ExitStage::Jumping);
    assert_eq!(
        effect,
        Effect::Exchange { frame: b"G00400000#".to_vec(), reply_width: 0, timeout_ms: 70 }
    );
    let (stage, step) = stage.advance(&Outcome::Completed);
    assert_eq!(stage, ExitStage::Confirming);
    assert_eq!(step, Step::Perform(Effect::ConfirmNormal));
    let (stage, step) = stage.advance(&Outcome::Completed);
    assert_eq!(stage, ExitStage::Finished);
    assert_eq!(step, Step::Finished(Ok(())));
}

#[test]
fn exit_reports_what_fails() {
    let (stage, step) = ExitStage::Jumping.advance(&Outcome::Failed(11));
    assert_eq!(stage, ExitStage::Finished);
    assert_eq!(step, Step::Finished(Err(UpdateError::IoFailure { code: 11 })));
    let (_, step) = ExitStage::Confirming.advance(&Outcome::Failed(12));
    assert_eq!(step, Step::Finished(Err(UpdateError::IoFailure { code: 12 })));
    let (_, step) = ExitStage::Confirming.advance(&Outcome::Reply(vec![]));
    assert_eq!(step, Step::Finished(Err(UpdateError::ProtocolDesync)));
    let (_, step) = ExitStage::Finished.advance(&Outcome::Completed);
    assert_eq!(step, Step::Finished(Err(UpdateError::ProtocolDesync)));
}
