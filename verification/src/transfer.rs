//! The bulk copy of an image into the memory of the device.
//!
//! A bulk copy is announced to the monitor with the destination and the length
//! of the data. The monitor answers with one byte. If that byte says that it is
//! ready, the data follows in blocks of 128 bytes, the last one padded. Each
//! block carries its number and a trailer over its payload, and the device
//! accepts or refuses it with one byte. A refused block is sent again, within
//! limits. Nothing is rolled back when a transfer ends early.
use vstd::prelude::*;
use crate::error::UpdateError;
use crate::image::FirmwareImage;
use crate::link::Effect;
use crate::link::EffectView;
use crate::link::Outcome;
use crate::link::OutcomeView;
use crate::link::Step;
use crate::link::StepView;
use crate::monitor::MonitorCommand;
use crate::monitor::SamBa;
use crate::monitor::byte_of;

verus! {

/// The number of payload bytes in a block.
pub const BLOCK_SIZE: usize = 128;

/// The byte that opens a block.
pub const SOH: u8 = 0x01;

/// The byte with which the device accepts a block.
pub const ACK: u8 = 0x06;

/// The byte with which the device refuses a block.
pub const NAK: u8 = 0x15;

/// The byte with which the monitor says that it is ready for the blocks.
pub const READY: u8 = 0x43;

/// The byte that fills up the last block.
pub const PAD: u8 = 0x1A;

/// The kind of trailer that closes a block.
#[derive(Clone, Copy, Debug, PartialEq, Eq)]
pub enum Trailer {
    /// One byte: the sum of the payload bytes, modulo 256.
    Checksum,
    /// Two bytes: the CRC-16 of the payload, most significant byte first.
    Crc16,
}

/// The limits and the framing of a transfer.
#[derive(Clone, Copy, Debug, PartialEq, Eq)]
pub struct TransferConfig {
    /// How often one block may be put on the wire, the first time included.
    pub block_attempts: u32,
    /// How many refusals in a row end the transfer.
    pub nak_limit: u32,
    /// The trailer that the device expects.
    pub trailer: Trailer,
    /// The bound on the wait for the answer to a block, in milliseconds.
    pub reply_timeout_ms: u32,
}

/// The number of blocks that `length` bytes take up.
pub open spec fn block_count(length: nat) -> nat {
    (length + 127) / 128
}

/// The payload of the block at `block`, counted from zero: its part of the
/// data, filled up with [`PAD`] where the data ends.
pub open spec fn block_payload(data: Seq<u8>, block: nat) -> Seq<u8> {
    Seq::new(
        128,
        |i: int|
            if block * 128 + i < data.len() {
                data[block * 128 + i]
            } else {
                PAD
            },
    )
}

/// The number that the block at `block` carries: blocks are numbered from one,
/// modulo 256.
pub open spec fn sequence_number(block: nat) -> u8 {
    ((block + 1) % 256) as u8
}

/// The sum of the bytes of `data`, modulo 256.
pub open spec fn checksum(data: Seq<u8>) -> u8
    decreases data.len(),
{
    if data.len() == 0 {
        0
    } else {
        ((checksum(data.drop_last()) + data.last()) % 256) as u8
    }
}

/// The CRC-16 of `data` in the XMODEM variant: polynomial 0x1021, initial
/// value zero, nothing reflected.
pub uninterp spec fn crc16_xmodem(data: Seq<u8>) -> u16;

/// The two bytes of a CRC, most significant first.
pub open spec fn crc_bytes(crc: u16) -> Seq<u8> {
    seq![(crc / 256) as u8, (crc % 256) as u8]
}

/// The trailer of the given kind over `payload`.
pub open spec fn trailer_of(trailer: Trailer, payload: Seq<u8>) -> Seq<u8> {
    match trailer {
        Trailer::Checksum => seq![checksum(payload)],
        Trailer::Crc16 => crc_bytes(crc16_xmodem(payload)),
    }
}

/// A block on the wire: the opening byte, the number of the block, the
/// complement of that number, the payload and the trailer.
pub open spec fn framed(sequence: u8, payload: Seq<u8>, trailer: Seq<u8>) -> Seq<u8> {
    seq![SOH, sequence, (255 - sequence) as u8] + payload + trailer
}

/// The block at `block` of `data` on the wire.
pub open spec fn block_frame(data: Seq<u8>, block: nat, trailer: Trailer) -> Seq<u8> {
    framed(
        sequence_number(block),
        block_payload(data, block),
        trailer_of(trailer, block_payload(data, block)),
    )
}

/// The exchange that carries the block at `block`: its frame, and one read of
/// the single byte with which the device answers.
pub open spec fn block_exchange(data: Seq<u8>, block: nat, config: TransferConfig) -> EffectView {
    EffectView::Exchange {
        frame: block_frame(data, block, config.trailer),
        reply_width: 1,
        timeout_ms: config.reply_timeout_ms,
    }
}

/// The sum of the bytes of `data`, modulo 256.
pub fn arithmetic_checksum(data: &[u8]) -> (sum: u8)
    ensures
        sum == checksum(data@),
{
    let mut sum: u8 = 0;
    let mut i: usize = 0;
    while i < data.len()
        invariant
            i <= data@.len(),
            sum == checksum(data@.take(i as int)),
        decreases data@.len() - i,
    {
        proof {
            assert(data@.take(i as int + 1).drop_last() =~= data@.take(i as int));
            assert(data@.take(i as int + 1).last() == data@[i as int]);
        }
        sum = ((sum as u16 + data[i] as u16) % 256) as u8;
        i = i + 1;
    }
    assert(data@.take(i as int) =~= data@);
    sum
}

/// Calls `crc16::State::<crc16::XMODEM>::calculate`, which computes the
/// CRC-16 of a message in the XMODEM variant. The result depends on the bytes
/// of the message alone.
#[verifier::external_body]
fn crc16_of(data: &[u8]) -> (crc: u16)
    ensures
        crc == crc16_xmodem(data@),
{
    crc16::State::<crc16::XMODEM>::calculate(data)
}

/// The two bytes of a CRC, most significant first.
pub fn crc_trailer(crc: u16) -> (bytes: Vec<u8>)
    ensures
        bytes@ == crc_bytes(crc),
{
    let mut bytes: Vec<u8> = Vec::new();
    bytes.push((crc / 256) as u8);
    bytes.push((crc % 256) as u8);
    assert(bytes@ =~= crc_bytes(crc));
    bytes
}

/// The trailer of the given kind over `payload`.
pub fn trailer_for(trailer: Trailer, payload: &[u8]) -> (bytes: Vec<u8>)
    ensures
        bytes@ == trailer_of(trailer, payload@),
{
    match trailer {
        Trailer::Checksum => {
            let mut bytes: Vec<u8> = Vec::new();
            bytes.push(arithmetic_checksum(payload));
            assert(bytes@ =~= seq![checksum(payload@)]);
            bytes
        },
        Trailer::Crc16 => crc_trailer(crc16_of(payload)),
    }
}

/// The payload of the block at `block` of `data`.
pub fn payload_of(data: &[u8], block: u32) -> (payload: Vec<u8>)
    ensures
        payload@ == block_payload(data@, block as nat),
{
    let base: u64 = block as u64 * 128;
    let mut payload: Vec<u8> = Vec::new();
    let mut i: usize = 0;
    while i < BLOCK_SIZE
        invariant
            i <= 128,
            base == block * 128,
            payload@.len() == i,
            forall|j: int| 0 <= j < i ==> payload@[j] == block_payload(data@, block as nat)[j],
        decreases 128 - i,
    {
        let offset: u64 = base + i as u64;
        let byte: u8 = if offset < data.len() as u64 {
            data[offset as usize]
        } else {
            PAD
        };
        payload.push(byte);
        i = i + 1;
    }
    assert(payload@ =~= block_payload(data@, block as nat));
    payload
}

/// Puts a block together from its number, its payload and its trailer.
pub fn assemble_block(sequence: u8, payload: &[u8], trailer: &[u8]) -> (frame: Vec<u8>)
    ensures
        frame@ == framed(sequence, payload@, trailer@),
{
    let mut frame: Vec<u8> = Vec::new();
    frame.push(SOH);
    frame.push(sequence);
    frame.push(255 - sequence);
    let mut i: usize = 0;
    while i < payload.len()
        invariant
            i <= payload@.len(),
            frame@ == seq![SOH, sequence, (255 - sequence) as u8] + payload@.take(i as int),
        decreases payload@.len() - i,
    {
        frame.push(payload[i]);
        assert(payload@.take(i as int + 1) =~= payload@.take(i as int).push(payload@[i as int]));
        i = i + 1;
    }
    assert(payload@.take(i as int) =~= payload@);
    let mut k: usize = 0;
    while k < trailer.len()
        invariant
            k <= trailer@.len(),
            frame@ == seq![SOH, sequence, (255 - sequence) as u8] + payload@ + trailer@.take(
                k as int,
            ),
        decreases trailer@.len() - k,
    {
        frame.push(trailer[k]);
        assert(trailer@.take(k as int + 1) =~= trailer@.take(k as int).push(trailer@[k as int]));
        k = k + 1;
    }
    assert(trailer@.take(k as int) =~= trailer@);
    frame
}

/// The block at `block` of `data` on the wire.
pub fn encode_block(data: &[u8], block: u32, trailer: Trailer) -> (frame: Vec<u8>)
    ensures
        frame@ == block_frame(data@, block as nat, trailer),
{
    let sequence: u8 = ((block as u64 + 1) % 256) as u8;
    let payload = payload_of(data, block);
    let closing = trailer_for(trailer, payload.as_slice());
    assemble_block(sequence, payload.as_slice(), closing.as_slice())
}

/// The exchange that announces a bulk copy of `data` to `address`.
pub fn sam_ba_copy(monitor: &SamBa, address: u32, data: &[u8]) -> (effect: Effect)
    requires
        data@.len() <= u32::MAX,
    ensures
        effect@ == monitor.exchange(
            MonitorCommand::BulkCopy { address, length: data@.len() as u32 },
        ),
{
    monitor.issue(MonitorCommand::BulkCopy { address, length: data.len() as u32 })
}

/// Where a transfer stands.
#[derive(Clone, Copy, Debug, PartialEq, Eq)]
pub enum TransferStage {
    /// The announcement is out.
    Handshaking,
    /// The block at `block` is out for the `attempts`-th time, after `naks`
    /// refusals in a row.
    Sending { block: u32, attempts: u32, naks: u32 },
    /// Nothing is out: the transfer has ended.
    Finished,
}

/// What a transfer of `data` does with the outcome of its last effect.
///
/// An answer to the announcement other than [`READY`] aborts the transfer
/// before any block is sent. An accepted block is followed by the next one,
/// and the transfer succeeds with the last. A refused block is sent again,
/// unless that was the last refusal in a row that the configuration allows or
/// the block has been sent as often as it may: then the transfer is aborted.
/// A reply of another width, silence included, or another byte is a loss of
/// synchronisation, and a failed exchange an I/O failure. Any outcome after
/// the transfer has ended is a loss of synchronisation too.
pub open spec fn transfer_next(
    stage: TransferStage,
    data: Seq<u8>,
    config: TransferConfig,
    outcome: OutcomeView,
) -> (TransferStage, StepView) {
    let ended = |result: Result<(), UpdateError>| (
        TransferStage::Finished,
        StepView::Finished(result),
    );
    match stage {
        TransferStage::Handshaking => match byte_of(outcome) {
            Err(error) => ended(Err(error)),
            Ok(answer) => if answer != READY {
                ended(Err(UpdateError::TransferAbort))
            } else if block_count(data.len()) == 0 {
                ended(Ok(()))
            } else {
                (
                    TransferStage::Sending { block: 0, attempts: 1, naks: 0 },
                    StepView::Perform(block_exchange(data, 0, config)),
                )
            },
        },
        TransferStage::Sending { block, attempts, naks } => match byte_of(outcome) {
            Err(error) => ended(Err(error)),
            Ok(answer) => if answer == ACK {
                if block + 1 >= block_count(data.len()) {
                    ended(Ok(()))
                } else {
                    (
                        TransferStage::Sending { block: (block + 1) as u32, attempts: 1, naks: 0 },
                        StepView::Perform(block_exchange(data, (block + 1) as nat, config)),
                    )
                }
            } else if answer == NAK {
                if naks + 1 >= config.nak_limit || attempts >= config.block_attempts {
                    ended(Err(UpdateError::TransferAbort))
                } else {
                    (
                        TransferStage::Sending {
                            block,
                            attempts: (attempts + 1) as u32,
                            naks: (naks + 1) as u32,
                        },
                        StepView::Perform(block_exchange(data, block as nat, config)),
                    )
                }
            } else {
                ended(Err(UpdateError::ProtocolDesync))
            },
        },
        TransferStage::Finished => ended(Err(UpdateError::ProtocolDesync)),
    }
}

/// Starts the transfer of `image`: the first effect announces the bulk copy
/// with the load address and the length of the image.
pub fn transfer(monitor: &SamBa, image: &FirmwareImage) -> (start: (TransferStage, Effect))
    ensures
        start.0 == TransferStage::Handshaking,
        start.1@ == monitor.exchange(
            MonitorCommand::BulkCopy {
                address: image.load_address_spec(),
                length: image@.len() as u32,
            },
        ),
        image@.len() <= u32::MAX,
{
    let data = image.bytes();
    (TransferStage::Handshaking, sam_ba_copy(monitor, image.load_address(), data))
}

impl TransferStage {
    /// The exchange that carries the block at `block` of `data`.
    fn send(data: &[u8], block: u32, config: &TransferConfig) -> (effect: Effect)
        ensures
            effect@ == block_exchange(data@, block as nat, *config),
    {
        Effect::Exchange {
            frame: encode_block(data, block, config.trailer),
            reply_width: 1,
            timeout_ms: config.reply_timeout_ms,
        }
    }

    /// Takes the outcome of the effect that is out and says what follows.
    pub fn advance(self, image: &FirmwareImage, config: &TransferConfig, outcome: &Outcome) -> (next:
        (TransferStage, Step))
        ensures
            (next.0, next.1@) == transfer_next(self, image@, *config, outcome@),
    {
        let data = image.bytes();
        let blocks: u64 = (data.len() as u64 + 127) / 128;
        match self {
            TransferStage::Handshaking => match SamBa::byte_reply(outcome) {
                Err(error) => (TransferStage::Finished, Step::Finished(Err(error))),
                Ok(answer) => {
                    if answer != READY {
                        (TransferStage::Finished, Step::Finished(Err(UpdateError::TransferAbort)))
                    } else if blocks == 0 {
                        (TransferStage::Finished, Step::Finished(Ok(())))
                    } else {
                        (
                            TransferStage::Sending { block: 0, attempts: 1, naks: 0 },
                            Step::Perform(Self::send(data, 0, config)),
                        )
                    }
                },
            },
            TransferStage::Sending { block, attempts, naks } => match SamBa::byte_reply(outcome) {
                Err(error) => (TransferStage::Finished, Step::Finished(Err(error))),
                Ok(answer) => {
                    if answer == ACK {
                        if block as u64 + 1 >= blocks {
                            (TransferStage::Finished, Step::Finished(Ok(())))
                        } else {
                            (
                                TransferStage::Sending { block: block + 1, attempts: 1, naks: 0 },
                                Step::Perform(Self::send(data, block + 1, config)),
                            )
                        }
                    } else if answer == NAK {
                        if naks as u64 + 1 >= config.nak_limit as u64 || attempts
                            >= config.block_attempts {
                            (
                                TransferStage::Finished,
                                Step::Finished(Err(UpdateError::TransferAbort)),
                            )
                        } else {
                            (
                                TransferStage::Sending {
                                    block,
                                    attempts: attempts + 1,
                                    naks: naks + 1,
                                },
                                Step::Perform(Self::send(data, block, config)),
                            )
                        }
                    } else {
                        (
                            TransferStage::Finished,
                            Step::Finished(Err(UpdateError::ProtocolDesync)),
                        )
                    }
                },
            },
            TransferStage::Finished => (
                TransferStage::Finished,
                Step::Finished(Err(UpdateError::ProtocolDesync)),
            ),
        }
    }
}

/// How a run of a transfer went.
pub struct TransferRun {
    /// The stage after the last outcome.
    pub stage: TransferStage,
    /// The effects that the transfer asked for, in order.
    pub sent: Seq<EffectView>,
    /// The result of the transfer, if it has ended.
    pub result: Option<Result<(), UpdateError>>,
}

/// The run of a transfer of `data` from `stage` on, when the driver answers
/// its effects with `outcomes` in turn.
pub open spec fn transfer_run(
    stage: TransferStage,
    data: Seq<u8>,
    config: TransferConfig,
    outcomes: Seq<OutcomeView>,
) -> TransferRun
    decreases outcomes.len(),
{
    if outcomes.len() == 0 {
        TransferRun { stage, sent: Seq::empty(), result: None }
    } else {
        let (next, step) = transfer_next(stage, data, config, outcomes[0]);
        match step {
            StepView::Finished(result) => TransferRun {
                stage: next,
                sent: Seq::empty(),
                result: Some(result),
            },
            StepView::Perform(effect) => {
                let rest = transfer_run(next, data, config, outcomes.skip(1));
                TransferRun { stage: rest.stage, sent: seq![effect] + rest.sent, result: rest.result }
            },
        }
    }
}

/// `count` refusals, one after the other.
pub open spec fn refusals(count: nat) -> Seq<OutcomeView> {
    Seq::new(count, |i: int| OutcomeView::Reply(seq![NAK]))
}

/// While block `block` is out for the `attempts`-th time after `naks`
/// refusals in a row, and the limit of refusals comes no later than the end
/// of the block's attempts, `more` further refusals have the block sent again
/// each time. One that reaches the limit of refusals ends the transfer.
proof fn lemma_refused_again(
    data: Seq<u8>,
    config: TransferConfig,
    block: u32,
    attempts: u32,
    naks: u32,
    more: nat,
)
    requires
        naks + more <= config.nak_limit,
        attempts + (config.nak_limit - naks) <= config.block_attempts + 1,
    ensures
        ({
            let run = transfer_run(
                TransferStage::Sending { block, attempts, naks },
                data,
                config,
                refusals(more),
            );
            let again = block_exchange(data, block as nat, config);
            if more > 0 && naks + more == config.nak_limit {
                &&& run.result == Some(Err::<(), UpdateError>(UpdateError::TransferAbort))
                &&& run.sent == Seq::new((more - 1) as nat, |i: int| again)
                &&& run.stage == TransferStage::Finished
            } else {
                &&& run.result is None
                &&& run.sent == Seq::new(more, |i: int| again)
                &&& run.stage == (TransferStage::Sending {
                    block,
                    attempts: (attempts + more) as u32,
                    naks: (naks + more) as u32,
                })
            }
        }),
    decreases more,
{
    let stage = TransferStage::Sending { block, attempts, naks };
    let again = block_exchange(data, block as nat, config);
    let run = transfer_run(stage, data, config, refusals(more));
    if more == 0 {
        assert(run.sent =~= Seq::new(0, |i: int| again));
    } else {
        assert(refusals(more)[0] == OutcomeView::Reply(seq![NAK]));
        assert(seq![NAK].len() == 1 && seq![NAK][0] == NAK);
        assert(byte_of(refusals(more)[0]) == Ok::<u8, UpdateError>(NAK));
        assert(refusals(more).skip(1) =~= refusals((more - 1) as nat));
        if naks + 1 >= config.nak_limit {
            assert(more == 1);
            assert(run.sent =~= Seq::new(0, |i: int| again));
        } else {
            lemma_refused_again(
                data,
                config,
                block,
                (attempts + 1) as u32,
                (naks + 1) as u32,
                (more - 1) as nat,
            );
            let rest = transfer_run(
                TransferStage::Sending {
                    block,
                    attempts: (attempts + 1) as u32,
                    naks: (naks + 1) as u32,
                },
                data,
                config,
                refusals((more - 1) as nat),
            );
            assert(run.sent == seq![again] + rest.sent);
            if naks + more == config.nak_limit {
                assert(run.sent =~= Seq::new((more - 1) as nat, |i: int| again));
            } else {
                assert(run.sent =~= Seq::new(more, |i: int| again));
            }
        }
    }
}

/// A device that takes the announcement and then refuses every block ends the
/// transfer with an abort at exactly the refusal that reaches the limit of
/// refusals in a row, and not before. By then the first block has been sent
/// once for each refusal, which is no more often than a block may be sent, and
/// no other block has been sent at all.
///
/// This holds of every configuration whose limit of refusals is at least one
/// and no greater than the number of attempts that a block has.
pub proof fn lemma_refusals_abort(data: Seq<u8>, config: TransferConfig, count: nat)
    requires
        data.len() > 0,
        1 <= config.nak_limit <= config.block_attempts,
        count <= config.nak_limit,
    ensures
        ({
            let run = transfer_run(
                TransferStage::Handshaking,
                data,
                config,
                seq![OutcomeView::Reply(seq![READY])] + refusals(count),
            );
            let first = block_exchange(data, 0, config);
            if count == config.nak_limit {
                &&& run.result == Some(Err::<(), UpdateError>(UpdateError::TransferAbort))
                &&& run.sent == Seq::new(count, |i: int| first)
                &&& run.sent.len() <= config.block_attempts
            } else {
                &&& run.result is None
                &&& run.sent == Seq::new(count + 1, |i: int| first)
                &&& run.sent.len() <= config.block_attempts
            }
        }),
{
    let outcomes = seq![OutcomeView::Reply(seq![READY])] + refusals(count);
    let first = block_exchange(data, 0, config);
    let run = transfer_run(TransferStage::Handshaking, data, config, outcomes);
    assert(outcomes[0] == OutcomeView::Reply(seq![READY]));
    assert(seq![READY].len() == 1 && seq![READY][0] == READY);
    assert(byte_of(outcomes[0]) == Ok::<u8, UpdateError>(READY));
    assert(outcomes.skip(1) =~= refusals(count));
    assert(block_count(data.len()) > 0);
    lemma_refused_again(data, config, 0, 1, 0, count);
    let rest = transfer_run(
        TransferStage::Sending { block: 0, attempts: 1, naks: 0 },
        data,
        config,
        refusals(count),
    );
    assert(run.sent == seq![first] + rest.sent);
    if count == config.nak_limit {
        assert(run.sent =~= Seq::new(count, |i: int| first));
    } else {
        assert(run.sent =~= Seq::new(count + 1, |i: int| first));
    }
}

} // verus!
