//! The reader of the side channel: a stream of framed messages, of which
//! only the one that reports the process's end is understood.
//!
//! The stream is described twice. [`exit_code_of`] says, message by
//! message, what a whole stream yields. [`Interop`] reads a stream as it
//! arrives, in pieces of any size; [`run`] is its model. The two agree, and
//! how the stream is cut into pieces makes no difference.
use crate::messages::{LX_INIT_PROCESS_EXIT_STATUS, MESSAGE_HEADER};
use vstd::prelude::*;

verus! {

/// The size of a message header on the wire.
pub const MESSAGE_HEADER_SIZE: usize = 8;

/// The size of an exit-status payload on the wire.
pub const EXIT_STATUS_SIZE: usize = 4;

/// The longest payload of a message of another type that the reader skips.
pub const SCRATCH_SIZE: usize = 1024;

/// The order in which the bytes of a number stand on the wire.
#[derive(Clone, Copy, Debug, PartialEq, Eq, Hash, Structural)]
pub enum ByteOrder {
    LittleEndian,
    BigEndian,
}

/// What the two ends of the side channel have agreed on.
#[derive(Clone, Copy, Debug, PartialEq, Eq, Structural)]
pub struct FrameFormat {
    /// The byte order of every field; the channel uses that of the machine.
    pub byte_order: ByteOrder,
    /// The tag of the message that reports a process's end.
    pub exit_status_type: u32,
}

/// The number that four bytes spell in a byte order.
pub open spec fn u32_of(b0: u8, b1: u8, b2: u8, b3: u8, order: ByteOrder) -> u32 {
    match order {
        ByteOrder::LittleEndian => (b0 + b1 * 0x100 + b2 * 0x1_0000 + b3 * 0x100_0000) as u32,
        ByteOrder::BigEndian => (b3 + b2 * 0x100 + b1 * 0x1_0000 + b0 * 0x100_0000) as u32,
    }
}

/// The number in the four bytes of `bytes` that start at `at`.
pub open spec fn u32_at(bytes: Seq<u8>, at: int, order: ByteOrder) -> u32
    recommends
        0 <= at,
        at + 4 <= bytes.len(),
{
    u32_of(bytes[at], bytes[at + 1], bytes[at + 2], bytes[at + 3], order)
}

/// The header in the first eight bytes of `bytes`.
pub open spec fn header_of(bytes: Seq<u8>, order: ByteOrder) -> MESSAGE_HEADER
    recommends
        bytes.len() >= MESSAGE_HEADER_SIZE,
{
    MESSAGE_HEADER { MessageType: u32_at(bytes, 0, order), MessageSize: u32_at(bytes, 4, order) }
}

/// The exit-status payload in the first four bytes of `bytes`.
pub open spec fn exit_status_of(bytes: Seq<u8>, order: ByteOrder) -> LX_INIT_PROCESS_EXIT_STATUS
    recommends
        bytes.len() >= EXIT_STATUS_SIZE,
{
    LX_INIT_PROCESS_EXIT_STATUS { ExitCode: u32_at(bytes, 0, order) }
}

/// How many bytes the reader discards after the header of a message that
/// it does not understand, given the size that the header declares: what
/// remains of the message, if that is more than nothing and fits the
/// scratch buffer; else nothing.
pub open spec fn skipped_payload(message_size: u32) -> nat {
    if MESSAGE_HEADER_SIZE < message_size <= MESSAGE_HEADER_SIZE + SCRATCH_SIZE {
        (message_size - MESSAGE_HEADER_SIZE) as nat
    } else {
        0
    }
}

/// The shorter of two lengths.
pub open spec fn at_most(wanted: nat, available: nat) -> nat {
    if wanted <= available {
        wanted
    } else {
        available
    }
}

/// The exit code that a stream reports, where `stream` is all that arrives
/// before the channel closes.
///
/// Message by message: a stream too short for a header reports nothing. An
/// exit-status message reports its code, if its payload arrived whole, and
/// nothing that follows it is read. After the header of any other message
/// the reader discards [`skipped_payload`] bytes, or what there is, and goes
/// on with the next message.
pub open spec fn exit_code_of(stream: Seq<u8>, format: FrameFormat) -> Option<u32>
    decreases stream.len(),
{
    if stream.len() < MESSAGE_HEADER_SIZE {
        None
    } else {
        let header = header_of(stream, format.byte_order);
        let rest = stream.skip(MESSAGE_HEADER_SIZE as int);
        if header.MessageType == format.exit_status_type {
            if rest.len() < EXIT_STATUS_SIZE {
                None
            } else {
                Some(exit_status_of(rest, format.byte_order).ExitCode)
            }
        } else {
            exit_code_of(
                rest.skip(at_most(skipped_payload(header.MessageSize), rest.len()) as int),
                format,
            )
        }
    }
}

/// What the reader is waiting for.
pub enum Phase {
    /// The header of the next message.
    Header,
    /// The payload of an exit-status message.
    ExitStatus,
    /// The end of a payload that it discards; so many bytes are still to
    /// come.
    Skipping(nat),
    /// Nothing: the process's end was reported, with this code.
    Finished(u32),
}

/// The reader between two pieces of the stream.
pub struct ReaderModel {
    /// What the reader and its peer have agreed on.
    pub format: FrameFormat,
    pub phase: Phase,
    /// The bytes that arrived for what the reader waits for, too few yet to
    /// use.
    pub pending: Seq<u8>,
}

/// The exit code that a reader in `phase` has.
pub open spec fn outcome(phase: Phase) -> Option<u32> {
    match phase {
        Phase::Finished(code) => Some(code),
        _ => None,
    }
}

/// What the reader waits for after a header.
pub open spec fn after_header(header: MESSAGE_HEADER, format: FrameFormat) -> Phase {
    if header.MessageType == format.exit_status_type {
        Phase::ExitStatus
    } else if skipped_payload(header.MessageSize) > 0 {
        Phase::Skipping(skipped_payload(header.MessageSize))
    } else {
        Phase::Header
    }
}

/// The reader after it has taken from `input` all that it can use,
/// starting in `phase` with nothing pending.
pub open spec fn run(phase: Phase, input: Seq<u8>, format: FrameFormat) -> ReaderModel
    decreases input.len(), (if phase is Skipping { 1nat } else { 0nat }),
{
    match phase {
        Phase::Finished(_) => ReaderModel { format, phase, pending: Seq::empty() },
        Phase::Header => {
            if input.len() < MESSAGE_HEADER_SIZE {
                ReaderModel { format, phase, pending: input }
            } else {
                run(
                    after_header(header_of(input, format.byte_order), format),
                    input.skip(MESSAGE_HEADER_SIZE as int),
                    format,
                )
            }
        },
        Phase::ExitStatus => {
            if input.len() < EXIT_STATUS_SIZE {
                ReaderModel { format, phase, pending: input }
            } else {
                ReaderModel {
                    format,
                    phase: Phase::Finished(exit_status_of(input, format.byte_order).ExitCode),
                    pending: Seq::empty(),
                }
            }
        },
        Phase::Skipping(left) => {
            if left == 0 {
                run(Phase::Header, input, format)
            } else if input.len() < left {
                if input.len() == 0 {
                    ReaderModel { format, phase, pending: Seq::empty() }
                } else {
                    ReaderModel {
                        format,
                        phase: Phase::Skipping((left - input.len()) as nat),
                        pending: Seq::empty(),
                    }
                }
            } else {
                run(Phase::Header, input.skip(left as int), format)
            }
        },
    }
}

/// The reader `model` after the piece `chunk` has arrived.
pub open spec fn feed(model: ReaderModel, chunk: Seq<u8>) -> ReaderModel {
    run(model.phase, model.pending + chunk, model.format)
}

/// A reader that has just been connected.
pub open spec fn fresh(format: FrameFormat) -> ReaderModel {
    ReaderModel { format, phase: Phase::Header, pending: Seq::empty() }
}

/// Whether a reader has used all it could of what it holds.
pub open spec fn settled(model: ReaderModel) -> bool {
    match model.phase {
        Phase::Header => model.pending.len() < MESSAGE_HEADER_SIZE,
        Phase::ExitStatus => model.pending.len() < EXIT_STATUS_SIZE,
        Phase::Skipping(left) => 0 < left <= SCRATCH_SIZE && model.pending.len() == 0,
        Phase::Finished(_) => model.pending.len() == 0,
    }
}

/// A number from four bytes in a byte order.
pub fn u32_from_bytes(b0: u8, b1: u8, b2: u8, b3: u8, order: ByteOrder) -> (value: u32)
    ensures
        value == u32_of(b0, b1, b2, b3, order),
{
    match order {
        ByteOrder::LittleEndian => {
            b0 as u32 + b1 as u32 * 0x100 + b2 as u32 * 0x1_0000 + b3 as u32 * 0x100_0000
        },
        ByteOrder::BigEndian => {
            b3 as u32 + b2 as u32 * 0x100 + b1 as u32 * 0x1_0000 + b0 as u32 * 0x100_0000
        },
    }
}

/// The number in the four bytes of `bytes` that start at `at`.
pub fn read_u32(bytes: &[u8], at: usize, order: ByteOrder) -> (value: u32)
    requires
        at + 4 <= bytes@.len(),
    ensures
        value == u32_at(bytes@, at as int, order),
{
    u32_from_bytes(bytes[at], bytes[at + 1], bytes[at + 2], bytes[at + 3], order)
}

/// Decodes the header in the first eight bytes of `bytes`; nothing where
/// there are fewer.
pub fn read_header(bytes: &[u8], order: ByteOrder) -> (header: Option<MESSAGE_HEADER>)
    ensures
        header == (if bytes@.len() >= MESSAGE_HEADER_SIZE {
            Some(header_of(bytes@, order))
        } else {
            None::<MESSAGE_HEADER>
        }),
{
    if bytes.len() < MESSAGE_HEADER_SIZE {
        None
    } else {
        Some(
            MESSAGE_HEADER {
                MessageType: read_u32(bytes, 0, order),
                MessageSize: read_u32(bytes, 4, order),
            },
        )
    }
}

/// Decodes the exit-status payload in the first four bytes of `bytes`;
/// nothing where there are fewer.
pub fn read_exit_status(bytes: &[u8], order: ByteOrder) -> (status: Option<
    LX_INIT_PROCESS_EXIT_STATUS,
>)
    ensures
        status == (if bytes@.len() >= EXIT_STATUS_SIZE {
            Some(exit_status_of(bytes@, order))
        } else {
            None::<LX_INIT_PROCESS_EXIT_STATUS>
        }),
{
    if bytes.len() < EXIT_STATUS_SIZE {
        None
    } else {
        Some(LX_INIT_PROCESS_EXIT_STATUS { ExitCode: read_u32(bytes, 0, order) })
    }
}

/// How many bytes to discard after the header of a message that is not
/// understood.
pub fn payload_to_skip(message_size: u32) -> (count: usize)
    ensures
        count == skipped_payload(message_size),
        count <= SCRATCH_SIZE,
{
    if message_size > 8 && message_size <= 8 + 1024 {
        (message_size - 8) as usize
    } else {
        0
    }
}

#[derive(Clone, Copy, Debug)]
enum ReaderState {
    Header,
    ExitStatus,
    Skipping(usize),
    Finished(u32),
}

/// The reader of one side channel.
#[derive(Debug)]
pub struct Interop {
    format: FrameFormat,
    pending: Vec<u8>,
    state: ReaderState,
}

impl Interop {
    /// The reader between two pieces of the stream.
    pub closed spec fn view(&self) -> ReaderModel {
        ReaderModel {
            format: self.format,
            phase: match self.state {
                ReaderState::Header => Phase::Header,
                ReaderState::ExitStatus => Phase::ExitStatus,
                ReaderState::Skipping(left) => Phase::Skipping(left as nat),
                ReaderState::Finished(code) => Phase::Finished(code),
            },
            pending: self.pending@,
        }
    }

    /// Whether the reader is in a state that its own operations leave it in.
    pub open spec fn wf(&self) -> bool {
        settled(self@)
    }

    /// A reader for a channel that has just been connected.
    pub fn new(format: FrameFormat) -> (reader: Interop)
        ensures
            reader.wf(),
            reader@ == fresh(format),
    {
        Interop { format, pending: Vec::new(), state: ReaderState::Header }
    }

    /// Takes the next piece of the stream, of any length, and uses of it
    /// what it can. Once an exit status has been read, whatever arrives is
    /// ignored.
    pub fn process_messages(&mut self, data: &[u8])
        requires
            old(self).wf(),
        ensures
            final(self).wf(),
            final(self)@ == feed(old(self)@, data@),
    {
        let mut pos: usize = 0;
        assert(data@.skip(0) =~= data@);
        while pos < data.len()
            invariant
                pos <= data@.len(),
                self.wf(),
                feed(self@, data@.skip(pos as int)) == feed(old(self)@, data@),
            decreases data@.len() - pos,
        {
            pos = self.step(data, pos);
        }
        proof {
            assert(data@.skip(pos as int) =~= Seq::<u8>::empty());
            lemma_feed_nothing(self@);
        }
    }

    /// Uses one or more of the bytes of `data` from `pos` on, and says
    /// where it stopped.
    fn step(&mut self, data: &[u8], pos: usize) -> (next: usize)
        requires
            old(self).wf(),
            pos < data@.len(),
        ensures
            final(self).wf(),
            pos < next <= data@.len(),
            feed(final(self)@, data@.skip(next as int)) == feed(old(self)@, data@.skip(pos as int)),
    {
        let ghost rest = data@.skip(pos as int);
        let ghost after = data@.skip(pos + 1);
        let ghost pending = self.pending@;
        let order = self.format.byte_order;
        match self.state {
            ReaderState::Finished(_) => {
                proof {
                    lemma_finished_is_final(self@, rest);
                    lemma_finished_is_final(self@, data@.skip(data@.len() as int));
                }
                data.len()
            },
            ReaderState::Header => {
                self.pending.push(data[pos]);
                assert(pending.push(data@[pos as int]) + after =~= pending + rest);
                if let Some(header) = read_header(self.pending.as_slice(), order) {
                    proof {
                        lemma_header_arrived(self.pending@, after, self.format);
                    }
                    self.pending.clear();
                    if header.MessageType == self.format.exit_status_type {
                        self.state = ReaderState::ExitStatus;
                    } else {
                        let count = payload_to_skip(header.MessageSize);
                        if count > 0 {
                            self.state = ReaderState::Skipping(count);
                        } else {
                            self.state = ReaderState::Header;
                        }
                    }
                    assert(self.pending@ + after =~= after);
                }
                pos + 1
            },
            ReaderState::ExitStatus => {
                self.pending.push(data[pos]);
                assert(pending.push(data@[pos as int]) + after =~= pending + rest);
                if let Some(status) = read_exit_status(self.pending.as_slice(), order) {
                    proof {
                        lemma_exit_status_arrived(self.pending@, after, self.format);
                    }
                    self.pending.clear();
                    self.state = ReaderState::Finished(status.ExitCode);
                }
                pos + 1
            },
            ReaderState::Skipping(left) => {
                let available = data.len() - pos;
                assert(pending + rest =~= rest);
                if available < left {
                    self.state = ReaderState::Skipping(left - available);
                    proof {
                        lemma_skipped(left as nat, rest, self.format);
                        lemma_feed_nothing(self@);
                        assert(data@.skip(data@.len() as int) =~= Seq::<u8>::empty());
                    }
                    data.len()
                } else {
                    self.state = ReaderState::Header;
                    proof {
                        lemma_skipped(left as nat, rest, self.format);
                        assert(self.pending@ + data@.skip(pos + left) =~= rest.skip(left as int));
                    }
                    pos + left
                }
            },
        }
    }

    /// The exit code of the process, once the stream has reported it.
    pub fn recv_exit_code(&self) -> (code: Option<u32>)
        ensures
            code == outcome(self@.phase),
    {
        match self.state {
            ReaderState::Finished(code) => Some(code),
            _ => None,
        }
    }
}

/// Cutting a stream into pieces makes no difference: a reader that takes
/// `first` and then `second` ends where a reader ends that takes both at
/// once.
pub proof fn lemma_feed_twice(model: ReaderModel, first: Seq<u8>, second: Seq<u8>)
    requires
        settled(model),
    ensures
        feed(feed(model, first), second) == feed(model, first + second),
        settled(feed(model, first)),
{
    lemma_run_concat(model.phase, model.pending + first, second, model.format);
    assert((model.pending + first) + second =~= model.pending + (first + second));
    lemma_run_settles(model.phase, model.pending + first, model.format);
}

/// A reader that started fresh and took a whole stream, in pieces of any
/// size, has the exit code that the stream reports.
pub proof fn lemma_reader_reports_stream(stream: Seq<u8>, format: FrameFormat)
    ensures
        outcome(feed(fresh(format), stream).phase) == exit_code_of(stream, format),
{
    assert(fresh(format).pending + stream =~= stream);
    lemma_run_matches_stream(stream, format);
}

/// A settled reader that takes nothing stays as it is.
pub proof fn lemma_feed_nothing(model: ReaderModel)
    requires
        settled(model),
    ensures
        feed(model, Seq::empty()) == model,
{
    assert(model.pending + Seq::<u8>::empty() =~= model.pending);
    assert(run(model.phase, model.pending, model.format).pending =~= model.pending);
}

/// Once the exit code is known, nothing that arrives changes it.
pub proof fn lemma_finished_is_final(model: ReaderModel, chunk: Seq<u8>)
    requires
        settled(model),
        model.phase is Finished,
    ensures
        feed(model, chunk) == model,
{
    assert(model.pending =~= Seq::<u8>::empty());
}

/// What a reader that waits for a header does once the header is whole.
proof fn lemma_header_arrived(header_bytes: Seq<u8>, rest: Seq<u8>, format: FrameFormat)
    requires
        header_bytes.len() == MESSAGE_HEADER_SIZE,
    ensures
        run(Phase::Header, header_bytes + rest, format) == run(
            after_header(header_of(header_bytes, format.byte_order), format),
            rest,
            format,
        ),
{
    let whole = header_bytes + rest;
    assert(header_of(whole, format.byte_order) == header_of(header_bytes, format.byte_order));
    assert(whole.skip(MESSAGE_HEADER_SIZE as int) =~= rest);
}

/// What a reader that waits for an exit status does once it is whole.
proof fn lemma_exit_status_arrived(payload: Seq<u8>, rest: Seq<u8>, format: FrameFormat)
    requires
        payload.len() == EXIT_STATUS_SIZE,
    ensures
        run(Phase::ExitStatus, payload + rest, format) == (ReaderModel {
            format,
            phase: Phase::Finished(exit_status_of(payload, format.byte_order).ExitCode),
            pending: Seq::empty(),
        }),
        run(
            Phase::Finished(exit_status_of(payload, format.byte_order).ExitCode),
            rest,
            format,
        ) == run(Phase::ExitStatus, payload + rest, format),
{
    let whole = payload + rest;
    assert(exit_status_of(whole, format.byte_order) == exit_status_of(
        payload,
        format.byte_order,
    ));
}

/// What a reader that discards a payload does with what arrives.
proof fn lemma_skipped(left: nat, input: Seq<u8>, format: FrameFormat)
    requires
        left > 0,
    ensures
        input.len() < left ==> run(Phase::Skipping(left), input, format) == (ReaderModel {
            format,
            phase: Phase::Skipping((left - input.len()) as nat),
            pending: Seq::empty(),
        }),
        input.len() >= left ==> run(Phase::Skipping(left), input, format) == run(
            Phase::Header,
            input.skip(left as int),
            format,
        ),
{
}

proof fn lemma_run_settles(phase: Phase, input: Seq<u8>, format: FrameFormat)
    requires
        phase matches Phase::Skipping(left) ==> left <= SCRATCH_SIZE,
    ensures
        settled(run(phase, input, format)),
    decreases input.len(), (if phase is Skipping { 1nat } else { 0nat }),
{
    match phase {
        Phase::Finished(_) => {},
        Phase::Header => {
            if input.len() >= MESSAGE_HEADER_SIZE {
                lemma_run_settles(
                    after_header(header_of(input, format.byte_order), format),
                    input.skip(MESSAGE_HEADER_SIZE as int),
                    format,
                );
            }
        },
        Phase::ExitStatus => {},
        Phase::Skipping(left) => {
            if left == 0 {
                lemma_run_settles(Phase::Header, input, format);
            } else if input.len() >= left {
                lemma_run_settles(Phase::Header, input.skip(left as int), format);
            }
        },
    }
}

proof fn lemma_run_concat(phase: Phase, first: Seq<u8>, second: Seq<u8>, format: FrameFormat)
    ensures
        feed(run(phase, first, format), second) == run(phase, first + second, format),
    decreases first.len(), (if phase is Skipping { 1nat } else { 0nat }),
{
    let both = first + second;
    let nothing = Seq::<u8>::empty();
    match phase {
        Phase::Finished(_) => {
            assert(nothing + second =~= second);
        },
        Phase::Header => {
            if first.len() >= MESSAGE_HEADER_SIZE {
                assert(header_of(both, format.byte_order) == header_of(
                    first,
                    format.byte_order,
                ));
                assert(both.skip(MESSAGE_HEADER_SIZE as int) =~= first.skip(
                    MESSAGE_HEADER_SIZE as int,
                ) + second);
                lemma_run_concat(
                    after_header(header_of(first, format.byte_order), format),
                    first.skip(MESSAGE_HEADER_SIZE as int),
                    second,
                    format,
                );
            }
        },
        Phase::ExitStatus => {
            if first.len() >= EXIT_STATUS_SIZE {
                assert(exit_status_of(both, format.byte_order) == exit_status_of(
                    first,
                    format.byte_order,
                ));
                assert(nothing + second =~= second);
            }
        },
        Phase::Skipping(left) => {
            if left == 0 {
                lemma_run_concat(Phase::Header, first, second, format);
            } else if first.len() < left {
                assert(nothing + second =~= second);
                if first.len() == 0 {
                    assert(second =~= both);
                } else {
                    let still = (left - first.len()) as nat;
                    lemma_skipped(still, second, format);
                    lemma_skipped(left, both, format);
                    if second.len() >= still {
                        assert(both.skip(left as int) =~= second.skip(still as int));
                    }
                }
            } else {
                assert(both.skip(left as int) =~= first.skip(left as int) + second);
                lemma_run_concat(Phase::Header, first.skip(left as int), second, format);
            }
        },
    }
}

proof fn lemma_run_matches_stream(stream: Seq<u8>, format: FrameFormat)
    ensures
        outcome(run(Phase::Header, stream, format).phase) == exit_code_of(stream, format),
    decreases stream.len(),
{
    if stream.len() >= MESSAGE_HEADER_SIZE {
        let header = header_of(stream, format.byte_order);
        let rest = stream.skip(MESSAGE_HEADER_SIZE as int);
        let next = after_header(header, format);
        assert(run(Phase::Header, stream, format) == run(next, rest, format));
        if header.MessageType != format.exit_status_type {
            let payload = skipped_payload(header.MessageSize);
            if payload == 0 {
                assert(rest.skip(0) =~= rest);
                lemma_run_matches_stream(rest, format);
            } else {
                lemma_skipped(payload, rest, format);
                if rest.len() < payload {
                    assert(rest.skip(rest.len() as int) =~= Seq::<u8>::empty());
                    assert(exit_code_of(Seq::<u8>::empty(), format) is None);
                } else {
                    lemma_run_matches_stream(rest.skip(payload as int), format);
                }
            }
        } else {
            assert(run(Phase::ExitStatus, rest, format).phase == (if rest.len()
                < EXIT_STATUS_SIZE {
                Phase::ExitStatus
            } else {
                Phase::Finished(exit_status_of(rest, format.byte_order).ExitCode)
            }));
        }
    }
}

/// The four bytes that spell `value` in a byte order.
pub open spec fn u32_bytes(value: u32, order: ByteOrder) -> Seq<u8> {
    let b0 = (value % 0x100) as u8;
    let b1 = (value / 0x100 % 0x100) as u8;
    let b2 = (value / 0x1_0000 % 0x100) as u8;
    let b3 = (value / 0x100_0000) as u8;
    match order {
        ByteOrder::LittleEndian => seq![b0, b1, b2, b3],
        ByteOrder::BigEndian => seq![b3, b2, b1, b0],
    }
}

/// The eight bytes of a header on the wire.
pub open spec fn header_bytes(header: MESSAGE_HEADER, order: ByteOrder) -> Seq<u8> {
    u32_bytes(header.MessageType, order) + u32_bytes(header.MessageSize, order)
}

/// Reading gives back what was spelt, whatever follows it.
pub proof fn lemma_u32_round_trip(value: u32, order: ByteOrder, rest: Seq<u8>)
    ensures
        u32_bytes(value, order).len() == 4,
        u32_at(u32_bytes(value, order) + rest, 0, order) == value,
{
}

/// A header is read back as it was written, whatever follows it.
pub proof fn lemma_header_round_trip(header: MESSAGE_HEADER, order: ByteOrder, rest: Seq<u8>)
    ensures
        header_bytes(header, order).len() == MESSAGE_HEADER_SIZE,
        header_of(header_bytes(header, order) + rest, order) == header,
{
    let kind = u32_bytes(header.MessageType, order);
    let size = u32_bytes(header.MessageSize, order);
    let whole = header_bytes(header, order) + rest;
    lemma_u32_round_trip(header.MessageType, order, size + rest);
    lemma_u32_round_trip(header.MessageSize, order, rest);
    assert(whole =~= kind + (size + rest));
    assert(u32_at(whole, 4, order) == u32_at(size + rest, 0, order));
}

/// The header of an exit-status message that declares the size `size`.
pub open spec fn exit_header(format: FrameFormat, size: u32) -> MESSAGE_HEADER {
    MESSAGE_HEADER { MessageType: format.exit_status_type, MessageSize: size }
}

/// A message that the reader does not understand, of a declared size that
/// it can skip, followed at once by an exit-status message: the reader
/// skips exactly the declared size and reports the exit code. The
/// exit-status message may declare any size, and anything may follow it.
pub proof fn lemma_unknown_then_exit(
    unknown: MESSAGE_HEADER,
    payload: Seq<u8>,
    exit_size: u32,
    code: u32,
    tail: Seq<u8>,
    format: FrameFormat,
)
    requires
        unknown.MessageType != format.exit_status_type,
        MESSAGE_HEADER_SIZE <= unknown.MessageSize <= MESSAGE_HEADER_SIZE + SCRATCH_SIZE,
        payload.len() == unknown.MessageSize - MESSAGE_HEADER_SIZE,
    ensures
        exit_code_of(
            header_bytes(unknown, format.byte_order) + payload + header_bytes(
                exit_header(format, exit_size),
                format.byte_order,
            ) + u32_bytes(code, format.byte_order) + tail,
            format,
        ) == Some(code),
{
    let order = format.byte_order;
    let exit = exit_header(format, exit_size);
    let second = header_bytes(exit, order) + u32_bytes(code, order) + tail;
    let stream = header_bytes(unknown, order) + payload + header_bytes(exit, order) + u32_bytes(
        code,
        order,
    ) + tail;
    lemma_exit_message(exit_size, code, tail, format);
    lemma_header_round_trip(unknown, order, payload + second);
    assert(stream =~= header_bytes(unknown, order) + (payload + second));
    let rest = stream.skip(MESSAGE_HEADER_SIZE as int);
    assert(rest =~= payload + second);
    assert(rest.skip(payload.len() as int) =~= second);
    if payload.len() == 0 {
        assert(skipped_payload(unknown.MessageSize) == 0);
    }
}

/// An exit-status message at the head of a stream reports its code,
/// whatever size it declares and whatever follows it.
pub proof fn lemma_exit_message(exit_size: u32, code: u32, tail: Seq<u8>, format: FrameFormat)
    ensures
        exit_code_of(
            header_bytes(exit_header(format, exit_size), format.byte_order) + u32_bytes(
                code,
                format.byte_order,
            ) + tail,
            format,
        ) == Some(code),
{
    let order = format.byte_order;
    let exit = exit_header(format, exit_size);
    let stream = header_bytes(exit, order) + u32_bytes(code, order) + tail;
    lemma_header_round_trip(exit, order, u32_bytes(code, order) + tail);
    lemma_u32_round_trip(code, order, tail);
    assert(stream =~= header_bytes(exit, order) + (u32_bytes(code, order) + tail));
    assert(stream.skip(MESSAGE_HEADER_SIZE as int) =~= u32_bytes(code, order) + tail);
}

/// A channel that closes before a whole header has arrived reports
/// nothing: not read at once, and not by a reader that took the bytes in
/// any pieces.
pub proof fn lemma_short_stream_reports_nothing(stream: Seq<u8>, format: FrameFormat)
    requires
        stream.len() < MESSAGE_HEADER_SIZE,
    ensures
        exit_code_of(stream, format) is None,
        outcome(fresh(format).phase) is None,
        outcome(feed(fresh(format), stream).phase) is None,
{
    lemma_reader_reports_stream(stream, format);
}

/// Reads a whole stream at once: the exit code that it reports, if it
/// reports one before it ends.
pub fn read_exit_code(stream: &[u8], format: FrameFormat) -> (code: Option<u32>)
    ensures
        code == exit_code_of(stream@, format),
{
    let mut reader = Interop::new(format);
    reader.process_messages(stream);
    proof {
        lemma_reader_reports_stream(stream@, format);
    }
    reader.recv_exit_code()
}

} // verus!
