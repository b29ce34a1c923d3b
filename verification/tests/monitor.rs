use fdfu::error::UpdateError;
use fdfu::link::Effect;
use fdfu::link::Outcome;
use fdfu::monitor::MonitorCommand;
use fdfu::monitor::SamBa;
use fdfu::simulator::decode;
use fdfu::simulator::SimulatedMonitor;

fn exchange(effect: Effect) -> (Vec<u8>, usize, u32) {
    match effect {
        Effect::Exchange { frame, reply_width, timeout_ms } => (frame, reply_width, timeout_ms),
        other => panic!("no exchange: {:?}", other),
    }
}

#[test]
fn write_word_is_framed_exactly() {
    let client = SamBa::new(250);
    let (frame, width, timeout) = exchange(client.write_word(0x400E_0A04, 0x5A00_0001));
    assert_eq!(frame, b"W400e0a04,5a000001#".to_vec());
    assert_eq!(width, 0);
    assert_eq!(timeout, 250);
}

#[test]
fn every_command_has_its_frame() {
    let client = SamBa::new(100);
    assert_eq!(exchange(client.jump(0x0040_0000)), (b"G00400000#".to_vec(), 0, 100));
    assert_eq!(exchange(client.write_byte(0x2000_00AB, 0x0C)), (b"O200000ab,0c#".to_vec(), 0, 100));
    assert_eq!(
        exchange(client.write_word(0xDEAD_BEEF, 0x0000_00FF)),
        (b"Wdeadbeef,000000ff#".to_vec(), 0, 100)
    );
    assert_eq!(exchange(client.read_byte(0x2000_00AB)), (b"o200000ab,#".to_vec(), 1, 100));
    assert_eq!(exchange(client.read_word(0xFFFF_FFFC)), (b"wfffffffc,#".to_vec(), 4, 100));
    assert_eq!(
        exchange(client.issue(MonitorCommand::BulkCopy { address: 0x2000_ABCD, length: 0x12C })),
        (b"S2000ABCD,0000012C#".to_vec(), 1, 100)
    );
    assert_eq!(
        MonitorCommand::BulkCopy { address: 0x2000_abcd, length: 300 }.encode(),
        b"S2000ABCD,0000012C#".to_vec()
    );
    assert_eq!(MonitorCommand::ReadWord { address: 0 }.expected_width(), 4);
    assert_eq!(MonitorCommand::ReadByte { address: 0 }.expected_width(), 1);
    assert_eq!(MonitorCommand::Jump { address: 0 }.expected_width(), 0);
}

#[test]
fn flash_command_goes_to_the_command_register() {
    let client = SamBa::new(100);
    assert_eq!(exchange(client.write_efc_fcr(0x01, 0)), (b"W400e0a04,5a000001#".to_vec(), 0, 100));
    assert_eq!(
        exchange(client.write_efc_fcr(0x07, 0x0123)),
        (b"W400e0a04,5a012307#".to_vec(), 0, 100)
    );
}

#[test]
fn word_reply_is_read_most_significant_byte_first() {
    assert_eq!(SamBa::word_reply(&Outcome::Reply(vec![0x12, 0x34, 0x56, 0x78])), Ok(0x1234_5678));
    assert_eq!(SamBa::word_reply(&Outcome::Reply(vec![0, 0, 0, 1])), Ok(1));
    assert_eq!(SamBa::word_reply(&Outcome::Reply(vec![0xFF, 0, 0, 0])), Ok(0xFF00_0000));
}

#[test]
fn reply_of_wrong_width_is_a_desync() {
    assert_eq!(SamBa::word_reply(&Outcome::Reply(vec![])), Err(UpdateError::ProtocolDesync));
    assert_eq!(SamBa::word_reply(&Outcome::Reply(vec![1, 2, 3])), Err(UpdateError::ProtocolDesync));
    assert_eq!(
        SamBa::word_reply(&Outcome::Reply(vec![1, 2, 3, 4, 5])),
        Err(UpdateError::ProtocolDesync)
    );
    assert_eq!(SamBa::word_reply(&Outcome::Completed), Err(UpdateError::ProtocolDesync));
    assert_eq!(SamBa::byte_reply(&Outcome::Reply(vec![])), Err(UpdateError::ProtocolDesync));
    assert_eq!(SamBa::byte_reply(&Outcome::Reply(vec![1, 2])), Err(UpdateError::ProtocolDesync));
    assert_eq!(SamBa::byte_reply(&Outcome::Completed), Err(UpdateError::ProtocolDesync));
    assert_eq!(SamBa::done_reply(&Outcome::Reply(vec![])), Err(UpdateError::ProtocolDesync));
}

#[test]
fn failed_exchange_is_an_io_failure() {
    assert_eq!(SamBa::word_reply(&Outcome::Failed(5)), Err(UpdateError::IoFailure { code: 5 }));
    assert_eq!(SamBa::byte_reply(&Outcome::Failed(-1)), Err(UpdateError::IoFailure { code: -1 }));
    assert_eq!(SamBa::done_reply(&Outcome::Failed(32)), Err(UpdateError::IoFailure { code: 32 }));
}

#[test]
fn byte_reply_and_done_reply() {
    assert_eq!(SamBa::byte_reply(&Outcome::Reply(vec![0xA5])), Ok(0xA5));
    assert_eq!(SamBa::done_reply(&Outcome::Completed), Ok(()));
}

fn word_round_trip(address: u32, word: u32) {
    let client = SamBa::new(100);
    let mut device = SimulatedMonitor::new();
    let (frame, width, _) = exchange(client.write_word(address, word));
    assert_eq!(width, 0);
    assert!(device.serve(&frame).is_empty());
    let (frame, width, _) = exchange(client.read_word(address));
    let reply = device.serve(&frame);
    assert_eq!(reply.len(), width);
    assert_eq!(SamBa::word_reply(&Outcome::Reply(reply)), Ok(word));
}

#[test]
fn written_word_is_read_back() {
    let addresses: [u32; 6] = [0, 1, 0x2000_0000, 0x400E_0A04, 0xFFFF_FFFC, 0xFFFF_FFFE];
    let words: [u32; 6] = [0, 1, 0x5A00_0001, 0x1234_5678, 0x8000_0000, 0xFFFF_FFFF];
    for address in addresses {
        for word in words {
            word_round_trip(address, word);
        }
    }
}

#[test]
fn written_byte_is_read_back() {
    let client = SamBa::new(100);
    let mut device = SimulatedMonitor::new();
    for (address, byte) in [(0u32, 0u8), (7, 0xFF), (0xFFFF_FFFF, 0x5A), (7, 0x01)] {
        let (frame, _, _) = exchange(client.write_byte(address, byte));
        assert!(device.serve(&frame).is_empty());
        let (frame, _, _) = exchange(client.read_byte(address));
        let reply = device.serve(&frame);
        assert_eq!(SamBa::byte_reply(&Outcome::Reply(reply)), Ok(byte));
    }
}

#[test]
fn simulated_memory_holds_words_big_endian_and_wraps() {
    let client = SamBa::new(100);
    let mut device = SimulatedMonitor::new();
    let (frame, _, _) = exchange(client.write_word(0xFFFF_FFFE, 0x1122_3344));
    device.serve(&frame);
    assert_eq!(device.peek(0xFFFF_FFFE), 0x11);
    assert_eq!(device.peek(0xFFFF_FFFF), 0x22);
    assert_eq!(device.peek(0), 0x33);
    assert_eq!(device.peek(1), 0x44);
    assert_eq!(device.peek(2), 0);
    device.poke(0, 0x99);
    let (frame, _, _) = exchange(client.read_word(0xFFFF_FFFE));
    assert_eq!(device.serve(&frame), vec![0x11, 0x22, 0x99, 0x44]);
}

#[test]
fn simulated_monitor_answers_wake_and_announcement() {
    let mut device = SimulatedMonitor::new();
    assert_eq!(device.serve(b"#"), vec![0x0A, 0x0D, 0x3E]);
    assert_eq!(device.serve(b"S20001000,00000100#"), vec![0x43]);
    assert!(device.serve(b"G00400000#").is_empty());
    assert!(device.serve(b"W0000000G,00000000#").is_empty());
    assert!(device.serve(b"hello").is_empty());
    assert!(device.serve(b"").is_empty());
}

#[test]
fn frames_are_decoded_as_they_were_encoded() {
    let commands = [
        MonitorCommand::Jump { address: 0x0040_0000 },
        MonitorCommand::WriteByte { address: 0x2000_0001, byte: 0xEE },
        MonitorCommand::WriteWord { address: 0x400E_0A04, word: 0x5A00_0001 },
        MonitorCommand::ReadByte { address: 0xFFFF_FFFF },
        MonitorCommand::ReadWord { address: 0 },
        MonitorCommand::BulkCopy { address: 0x2000_ABCD, length: 0xFEDC },
    ];
    for command in commands {
        assert_eq!(decode(&command.encode()), Some(command));
    }
    assert_eq!(decode(b"W400E0A04,5A000001#"), None);
    assert_eq!(decode(b"S2000abcd,0000012c#"), None);
    assert_eq!(decode(b"w00000000,"), None);
    assert_eq!(decode(b"#"), None);
}
