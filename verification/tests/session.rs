use fdfu::error::UpdateError;
use fdfu::image::FirmwareImage;
use fdfu::image::FlashGeometry;
use fdfu::link::Effect;
use fdfu::link::Outcome;
use fdfu::mode::ModeTiming;
use fdfu::monitor::SamBa;
use fdfu::sequencer::FlashTiming;
use fdfu::session::flash;
use fdfu::session::Activity;
use fdfu::session::Failure;
use fdfu::session::Phase;
use fdfu::session::Progress;
use fdfu::session::Recovery;
use fdfu::session::UpdateConfig;
use fdfu::transfer::Trailer;
use fdfu::transfer::TransferConfig;

fn image_of(length: usize) -> FirmwareImage {
    let bytes: Vec<u8> = (0..length).map(|i| (i % 251) as u8).collect();
    FirmwareImage::new(bytes, 0x2000_1000, FlashGeometry { page_size: 128, page_count: 16 }).unwrap()
}

fn config() -> UpdateConfig {
    UpdateConfig {
        monitor: SamBa::new(50),
        mode: ModeTiming::new(40),
        transfer: TransferConfig {
            block_attempts: 4,
            nak_limit: 3,
            trailer: Trailer::Crc16,
            reply_timeout_ms: 90,
        },
        flash: FlashTiming::new(3, 10),
        application_entry: 0x0040_0000,
    }
}

/// A device as a test sees it: how it answers each kind of effect.
struct Device {
    in_monitor: bool,
    block_reply: u8,
    status: u32,
    jump: Outcome,
    confirm: Outcome,
}

impl Device {
    fn healthy() -> Device {
        Device {
            in_monitor: true,
            block_reply: 0x06,
            status: 1,
            jump: Outcome::Completed,
            confirm: Outcome::Completed,
        }
    }

    fn answer(&mut self, effect: &Effect) -> Outcome {
        match effect {
            Effect::Exchange { frame, .. } => match frame[0] {
                b'#' => {
                    if self.in_monitor {
                        Outcome::Reply(vec![b'\n', b'\r', b'>'])
                    } else {
                        Outcome::Reply(vec![])
                    }
                },
                b'S' => Outcome::Reply(vec![0x43]),
                0x01 => Outcome::Reply(vec![self.block_reply]),
                b'W' => Outcome::Completed,
                b'w' => Outcome::Reply(self.status.to_be_bytes().to_vec()),
                b'G' => self.jump.clone(),
                other => panic!("no such frame: {}", other),
            },
            Effect::Board(_) => Outcome::Completed,
            Effect::ConfirmNormal => self.confirm.clone(),
        }
    }
}

/// Runs a session to its end. Returns the last answer of the session, its
/// effects and the phases that it went through.
fn run(image: &FirmwareImage, device: &mut Device) -> (Progress, Vec<Effect>, Vec<Phase>) {
    let mut session = flash(image, config());
    assert_eq!(session.phase(), Phase::Idle);
    let mut log: Vec<Effect> = Vec::new();
    let mut phases: Vec<Phase> = vec![session.phase()];
    let mut progress = session.advance(&Outcome::Completed);
    loop {
        if *phases.last().unwrap() != session.phase() {
            phases.push(session.phase());
        }
        match progress {
            Progress::Perform(effect) => {
                let outcome = device.answer(&effect);
                log.push(effect);
                progress = session.advance(&outcome);
            },
            last => {
                let again = session.advance(&Outcome::Completed);
                assert_eq!(again, last);
                return (last, log, phases);
            },
        }
    }
}

fn jumps(log: &[Effect]) -> usize {
    log.iter()
        .filter(|effect| matches!(effect, Effect::Exchange { frame, .. } if frame[0] == b'G'))
        .count()
}

#[test]
fn session_starts_idle() {
    let image = image_of(300);
    let session = flash(&image, config());
    assert_eq!(session.activity, Activity::Idle);
    assert_eq!(session.phase(), Phase::Idle);
    assert_eq!(session.config, config());
    assert_eq!(session.image.size(), 300);
}

#[test]
fn healthy_device_is_updated() {
    let image = image_of(300);
    let (last, log, phases) = run(&image, &mut Device::healthy());
    assert_eq!(last, Progress::Complete);
    assert_eq!(
        phases,
        vec![
            Phase::Idle,
            Phase::EnteringBootloader,
            Phase::Handshaking,
            Phase::Transferring,
            Phase::Programming,
            Phase::ExitingBootloader,
            Phase::Complete,
        ]
    );
    let letters: Vec<u8> = log
        .iter()
        .map(|effect| match effect {
            Effect::Exchange { frame, .. } => frame[0],
            Effect::Board(_) => b'b',
            Effect::ConfirmNormal => b'c',
        })
        .collect();
    assert_eq!(letters, b"#S\x01\x01\x01WwWwWwGc".to_vec());
    let words: Vec<Vec<u8>> = log
        .iter()
        .filter_map(|effect| match effect {
            Effect::Exchange { frame, .. } if frame[0] == b'W' => Some(frame.clone()),
            _ => None,
        })
        .collect();
    assert_eq!(
        words,
        vec![
            b"W400e0a04,5a000001#".to_vec(),
            b"W400e0a04,5a000101#".to_vec(),
            b"W400e0a04,5a000201#".to_vec(),
        ]
    );
    assert_eq!(
        log[log.len() - 2],
        Effect::Exchange { frame: b"G00400000#".to_vec(), reply_width: 0, timeout_ms: 50 }
    );
}

#[test]
fn device_outside_the_monitor_is_brought_in_first() {
    let image = image_of(10);
    let mut device = Device::healthy();
    device.in_monitor = false;
    let mut session = flash(&image, config());
    let mut progress = session.advance(&Outcome::Completed);
    let mut boards = 0;
    let mut probes = 0;
    loop {
        match progress {
            Progress::Perform(effect) => {
                if matches!(effect, Effect::Board(_)) {
                    boards += 1;
                }
                if matches!(&effect, Effect::Exchange { frame, .. } if frame[0] == b'#') {
                    probes += 1;
                    if probes == 2 {
                        device.in_monitor = true;
                    }
                }
                let outcome = device.answer(&effect);
                progress = session.advance(&outcome);
            },
            last => {
                assert_eq!(last, Progress::Complete);
                break;
            },
        }
    }
    assert_eq!(boards, 6);
    assert_eq!(probes, 2);
}

#[test]
fn empty_image_programs_no_page() {
    let image = image_of(0);
    let (last, log, phases) = run(&image, &mut Device::healthy());
    assert_eq!(last, Progress::Complete);
    assert_eq!(log.len(), 4);
    assert!(!phases.contains(&Phase::Programming));
}

#[test]
fn flash_timeout_is_reported_after_one_recovery() {
    let image = image_of(300);
    let mut device = Device::healthy();
    device.status = 0;
    let (last, log, phases) = run(&image, &mut device);
    assert_eq!(
        last,
        Progress::Failed(Failure {
            phase: Phase::Programming,
            error: UpdateError::FlashTimeout,
            recovery: Recovery::Restored,
        })
    );
    assert_eq!(jumps(&log), 1);
    assert_eq!(log[log.len() - 1], Effect::ConfirmNormal);
    assert_eq!(*phases.last().unwrap(), Phase::Failed);
    assert!(!phases.contains(&Phase::ExitingBootloader));
}

#[test]
fn failed_recovery_does_not_replace_the_failure() {
    let image = image_of(300);
    let mut device = Device::healthy();
    device.status = 0;
    device.jump = Outcome::Failed(9);
    let (last, log, _) = run(&image, &mut device);
    assert_eq!(
        last,
        Progress::Failed(Failure {
            phase: Phase::Programming,
            error: UpdateError::FlashTimeout,
            recovery: Recovery::Failed(UpdateError::IoFailure { code: 9 }),
        })
    );
    assert_eq!(jumps(&log), 1);
    let mut device = Device::healthy();
    device.status = 0;
    device.confirm = Outcome::Failed(10);
    let (last, log, _) = run(&image, &mut device);
    assert_eq!(
        last,
        Progress::Failed(Failure {
            phase: Phase::Programming,
            error: UpdateError::FlashTimeout,
            recovery: Recovery::Failed(UpdateError::IoFailure { code: 10 }),
        })
    );
    assert_eq!(jumps(&log), 1);
}

#[test]
fn aborted_transfer_is_reported_after_one_recovery() {
    let image = image_of(300);
    let mut device = Device::healthy();
    device.block_reply = 0x15;
    let (last, log, phases) = run(&image, &mut device);
    assert_eq!(
        last,
        Progress::Failed(Failure {
            phase: Phase::Transferring,
            error: UpdateError::TransferAbort,
            recovery: Recovery::Restored,
        })
    );
    assert_eq!(jumps(&log), 1);
    let blocks = log
        .iter()
        .filter(|effect| matches!(effect, Effect::Exchange { frame, .. } if frame[0] == 0x01))
        .count();
    assert_eq!(blocks, 3);
    assert!(!phases.contains(&Phase::Programming));
}

#[test]
fn failed_exit_is_followed_by_one_recovery() {
    let image = image_of(300);
    let mut device = Device::healthy();
    device.confirm = Outcome::Failed(21);
    let (last, log, _) = run(&image, &mut device);
    assert_eq!(
        last,
        Progress::Failed(Failure {
            phase: Phase::ExitingBootloader,
            error: UpdateError::IoFailure { code: 21 },
            recovery: Recovery::Failed(UpdateError::IoFailure { code: 21 }),
        })
    );
    assert_eq!(jumps(&log), 2);
}

#[test]
fn failure_in_each_phase_names_the_phase() {
    let image = image_of(300);
    let mut session = flash(&image, config());
    session.advance(&Outcome::Completed);
    let progress = session.advance(&Outcome::Failed(1));
    assert!(matches!(progress, Progress::Perform(Effect::Exchange { .. })));
    assert_eq!(
        session.activity,
        Activity::Recovering {
            phase: Phase::EnteringBootloader,
            error: UpdateError::IoFailure { code: 1 },
            exit: fdfu::mode::ExitStage::Jumping,
        }
    );
    assert_eq!(session.phase(), Phase::Failed);
    let mut session = flash(&image, config());
    session.advance(&Outcome::Completed);
    session.advance(&Outcome::Reply(vec![b'\n', b'\r', b'>']));
    assert_eq!(session.phase(), Phase::Handshaking);
    session.advance(&Outcome::Reply(vec![0x00]));
    assert_eq!(
        session.activity,
        Activity::Recovering {
            phase: Phase::Handshaking,
            error: UpdateError::TransferAbort,
            exit: fdfu::mode::ExitStage::Jumping,
        }
    );
}

#[test]
fn finished_session_stays_finished() {
    let image = image_of(10);
    let mut session = flash(&image, config());
    session.activity = Activity::Complete;
    assert_eq!(session.advance(&Outcome::Failed(3)), Progress::Complete);
    assert_eq!(session.activity, Activity::Complete);
    let failure = Failure {
        phase: Phase::Programming,
        error: UpdateError::FlashTimeout,
        recovery: Recovery::Restored,
    };
    session.activity = Activity::Failed(failure);
    assert_eq!(session.advance(&Outcome::Completed), Progress::Failed(failure));
    assert_eq!(session.activity, Activity::Failed(failure));
}
