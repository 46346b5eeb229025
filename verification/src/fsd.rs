//! Block storage: reading and writing disk sectors through a block-device
//! server, by messages over its capability.
//!
//! A transfer alternates between this module, which decides, and its
//! caller, which talks to the kernel. `read` and `write` open a transfer
//! and say what to do first; after each send or receive the caller reports
//! what happened to `step`, which says what to do next, until the transfer
//! is done.

use crate::capability::Capability;
use crate::syscalls::spec_dealloc_pages;
use crate::syscalls::Message;
use crate::syscalls::MessageType;
use crate::syscalls::SendError;
use crate::syscalls::Syscall;
use vstd::prelude::*;

verus! {

/// Signature of a partition-table header: the text "EFI PART".
pub const GPT_SIGNATURE: u64 = 0x5452415020494645;

/// Header of a GUID partition table, field by field as it lies on disk.
#[derive(Debug, Clone, Copy)]
pub struct GptHeader {
    pub signature: u64,
    pub revision: u32,
    pub header_size: u32,
    pub header_crc32: u32,
    reserved: u32,
    pub current_lba: u64,
    pub backup_lba: u64,
    pub first_usable_lba: u64,
    pub last_usable_lba: u64,
    pub disk_guid: [u64; 2],
    pub entries_lba: u64,
    pub entry_count: u32,
    pub entry_size: u32,
    pub entry_crc32: u32,
}

/// One page that holds the content of a disk sector. Only a read that
/// succeeded makes one, and the page is the holder's until `discard`.
#[must_use]
#[derive(Debug)]
pub struct Sector(u64);

impl View for Sector {
    type V = u64;

    /// The address of the page.
    closed spec fn view(&self) -> u64 {
        self.0
    }
}

/// The sector buffer that owns the page at `addr`.
pub closed spec fn sector_at(addr: u64) -> Sector {
    Sector(addr)
}

/// A sector buffer is its page and nothing else.
pub broadcast proof fn lemma_sector_at(addr: u64)
    ensures
        (#[trigger] sector_at(addr))@ == addr,
{
}

impl Sector {
    /// Address of the sector's content.
    pub fn get(&self) -> (addr: u64)
        ensures
            addr == self@,
    {
        self.0
    }

    /// Gives the buffer up: the result is the call that returns its page
    /// to the kernel, to be made by the caller.
    #[must_use]
    pub fn discard(self) -> (call: Syscall)
        ensures
            call == spec_dealloc_pages(self@, 1),
    {
        crate::syscalls::dealloc_page(self.0, 1)
    }
}

/// What the caller of a transfer does next.
#[derive(Debug, Clone, Copy)]
pub enum Request {
    /// Send this message on the channel, waiting for room if `block` is
    /// set, and report the outcome as `Event::Sent`.
    Send { block: bool, channel: Capability, type_: MessageType, data: u64, metadata: u64 },
    /// Take the next message from the channel, waiting for one if `block`
    /// is set, and report it as `Event::Received`.
    Recv { block: bool, channel: Capability },
}

/// What happened to the last request.
#[derive(Debug)]
pub enum Event {
    Sent(Result<(), SendError>),
    Received(Option<Message>),
}

impl Event {
    /// The page release owed for the message that the event carries, if
    /// it carries one that owns pages.
    pub open spec fn owed(self) -> Option<Syscall> {
        match self {
            Event::Received(Some(message)) => message.owed(),
            _ => None,
        }
    }

    /// Gives up whatever the event carries.
    fn discard(self) -> (call: Option<Syscall>)
        ensures
            call == self.owed(),
    {
        match self {
            Event::Received(Some(message)) => message.discard(),
            _ => None,
        }
    }
}

/// Where a transfer stands after a step.
#[derive(Debug)]
pub enum Next<T> {
    /// The transfer goes on with this request.
    Ask(Request),
    /// The transfer is over, with this result.
    Done(T),
}

/// Answer to one event: how the transfer goes on, and the page release
/// that the caller makes first, where the step gave up a message that
/// owned pages.
#[must_use]
#[derive(Debug)]
pub struct Step<T> {
    pub release: Option<Syscall>,
    pub next: Next<T>,
}

/// Whether a reply is the server's confirmation of operation `op`: a
/// signal that echoes the operation in `data` and reports status 0 in
/// `metadata`.
pub open spec fn confirms(reply: Option<Message>, op: u64) -> bool {
    reply matches Some(m) && m.type_ == MessageType::Signal && m.data == op && m.metadata == 0
}

/// Whether `reply` confirms operation `op`.
fn is_confirmation(reply: &Option<Message>, op: u64) -> (yes: bool)
    ensures
        yes == confirms(*reply, op),
{
    match reply {
        Some(m) => m.type_ == MessageType::Signal && m.data == op && m.metadata == 0,
        None => false,
    }
}

/// The number that marks a read in a request and in its confirmation.
pub const OP_READ: u64 = 0;

/// The number that marks a write in a request and in its confirmation.
pub const OP_WRITE: u64 = 1;

/// How far a read has come.
#[derive(Debug, Clone, Copy, PartialEq, Eq, Structural)]
pub enum ReadStage {
    /// The request is on its way; its outcome is awaited.
    Request,
    /// The request was sent; the server's confirmation is awaited.
    Status,
    /// The server confirmed; the sector's page is awaited.
    Payload,
    /// The read is over.
    Finished,
}

/// A read in progress.
#[derive(Debug, Clone, Copy)]
pub struct Read {
    pub channel: Capability,
    pub stage: ReadStage,
}

/// Opens a read of sector number `sector` from the device behind `block`.
/// The first request is a blocking send of a signal that marks a read in
/// `data` and names the sector in `metadata`.
pub fn read(block: Capability, sector: u64) -> (r: (Read, Request))
    ensures
        r.0 == (Read { channel: block, stage: ReadStage::Request }),
        r.1 == (Request::Send {
            block: true,
            channel: block,
            type_: MessageType::Signal,
            data: OP_READ,
            metadata: sector,
        }),
{
    (
        Read { channel: block, stage: ReadStage::Request },
        Request::Send {
            block: true,
            channel: block,
            type_: MessageType::Signal,
            data: OP_READ,
            metadata: sector,
        },
    )
}

impl Read {
    /// The read after `event`, and the answer to the event.
    ///
    /// A failed send ends the read with nothing. After the request the
    /// read waits for the confirmation, and after the confirmation for a
    /// `Data` message, whose page becomes the sector. Any other reply, or
    /// none, ends the read with nothing, and so does an event that does
    /// not answer the pending request. A message that does not become the
    /// sector is given up and its pages are released.
    pub open spec fn spec_step(self, event: Event) -> (Read, Step<Option<Sector>>) {
        let over = Read { channel: self.channel, stage: ReadStage::Finished };
        let wait = Request::Recv { block: true, channel: self.channel };
        let fail = Step { release: event.owed(), next: Next::Done(None::<Sector>) };
        match (self.stage, event) {
            (ReadStage::Request, Event::Sent(Ok(()))) => (
                Read { channel: self.channel, stage: ReadStage::Status },
                Step { release: None, next: Next::Ask(wait) },
            ),
            (ReadStage::Status, Event::Received(reply)) => if confirms(reply, OP_READ) {
                (
                    Read { channel: self.channel, stage: ReadStage::Payload },
                    Step { release: None, next: Next::Ask(wait) },
                )
            } else {
                (over, fail)
            },
            (ReadStage::Payload, Event::Received(Some(m))) => if m.type_ == MessageType::Data {
                (over, Step { release: None, next: Next::Done(Some(sector_at(m.data))) })
            } else {
                (over, fail)
            },
            _ => (over, fail),
        }
    }

    /// Takes the read one step further: `event` is what happened to the
    /// request that was pending.
    pub fn step(&mut self, event: Event) -> (step: Step<Option<Sector>>)
        ensures
            (*final(self), step) == old(self).spec_step(event),
    {
        let stage = self.stage;
        self.stage = ReadStage::Finished;
        let wait = Request::Recv { block: true, channel: self.channel };
        match (stage, event) {
            (ReadStage::Request, Event::Sent(Ok(()))) => {
                self.stage = ReadStage::Status;
                Step { release: None, next: Next::Ask(wait) }
            },
            (ReadStage::Status, Event::Received(reply)) => {
                if is_confirmation(&reply, OP_READ) {
                    self.stage = ReadStage::Payload;
                    Step { release: None, next: Next::Ask(wait) }
                } else {
                    Step { release: Event::Received(reply).discard(), next: Next::Done(None) }
                }
            },
            (ReadStage::Payload, Event::Received(Some(m))) => {
                if m.type_ == MessageType::Data {
                    let fields = m.into_raw();
                    Step { release: None, next: Next::Done(Some(Sector(fields.0))) }
                } else {
                    Step { release: m.discard(), next: Next::Done(None) }
                }
            },
            (_, event) => Step { release: event.discard(), next: Next::Done(None) },
        }
    }
}

/// The sector that a read ends with, by what the caller saw happen: the
/// outcome of sending the request, then the first and the second reply.
/// There is one only where the request went out, the first reply
/// confirmed the read, and the second was a `Data` message.
pub open spec fn read_outcome(
    sent: Result<(), SendError>,
    first: Option<Message>,
    second: Option<Message>,
) -> Option<Sector> {
    match second {
        Some(m) => if sent is Ok && confirms(first, OP_READ) && m.type_ == MessageType::Data {
            Some(sector_at(m.data))
        } else {
            None
        },
        None => None,
    }
}

/// A read runs as follows. The request is a blocking send of
/// `Signal(0, sector)`. If that fails the read is over at once. Else the
/// read asks for a reply; unless that reply confirms the read it is over,
/// and the reply's pages are released. Else it asks for a second reply and
/// is over in any case: with the page of a `Data` message as the sector,
/// or with nothing, the reply's pages released. However it ends, the
/// result is `read_outcome`, and no message is both kept and released.
pub proof fn lemma_read(
    block: Capability,
    sector: u64,
    sent: Result<(), SendError>,
    first: Option<Message>,
    second: Option<Message>,
)
    ensures
        ({
            let start = Read { channel: block, stage: ReadStage::Request };
            let wait = Request::Recv { block: true, channel: block };
            let (r1, s1) = start.spec_step(Event::Sent(sent));
            let (r2, s2) = r1.spec_step(Event::Received(first));
            let (r3, s3) = r2.spec_step(Event::Received(second));
            &&& s1.release is None
            &&& sent is Err ==> s1.next == Next::Done(None::<Sector>)
            &&& sent is Ok ==> s1.next == Next::<Option<Sector>>::Ask(wait)
            &&& sent is Ok && !confirms(first, OP_READ) ==> s2.next == Next::Done(None::<Sector>)
                && s2.release == Event::Received(first).owed()
            &&& sent is Ok && confirms(first, OP_READ) ==> {
                &&& s2.next == Next::<Option<Sector>>::Ask(wait)
                &&& s2.release is None
                &&& Event::Received(first).owed() is None
                &&& s3.next == Next::Done(read_outcome(sent, first, second))
                &&& read_outcome(sent, first, second) is Some ==> s3.release is None
                &&& read_outcome(sent, first, second) is None ==> s3.release == Event::Received(
                    second,
                ).owed()
            }
        }),
{
}

/// Why a write failed.
#[derive(Debug, Clone, Copy, PartialEq, Eq, Structural)]
pub enum WriteError {
    /// A message of the request could not be sent.
    SendError(SendError),
    /// The server did not confirm the write.
    WriteError,
}

impl From<SendError> for WriteError {
    fn from(e: SendError) -> (r: WriteError) {
        WriteError::SendError(e)
    }
}

impl vstd::std_specs::convert::FromSpecImpl<SendError> for WriteError {
    open spec fn obeys_from_spec() -> bool {
        true
    }

    open spec fn from_spec(e: SendError) -> WriteError {
        WriteError::SendError(e)
    }
}

/// How far a write has come.
#[derive(Debug, Clone, Copy, PartialEq, Eq, Structural)]
pub enum WriteStage {
    /// The request is on its way; its outcome is awaited.
    Request,
    /// The request was sent and the buffer is on its way.
    Payload,
    /// Both messages were sent; the server's confirmation is awaited.
    Reply,
    /// The write is over.
    Finished,
}

/// A write in progress: the channel, and the buffer that is written.
#[derive(Debug, Clone, Copy)]
pub struct Write {
    pub channel: Capability,
    pub data: u64,
    pub len: usize,
    pub stage: WriteStage,
}

/// Opens a write of the `len` bytes at address `data` to sector number
/// `sector` of the device behind `block`. The first request is a blocking
/// send of a signal that marks a write in `data` and names the sector in
/// `metadata`.
pub fn write(block: Capability, sector: u64, data: u64, len: usize) -> (r: (Write, Request))
    ensures
        r.0 == (Write { channel: block, data, len, stage: WriteStage::Request }),
        r.1 == (Request::Send {
            block: true,
            channel: block,
            type_: MessageType::Signal,
            data: OP_WRITE,
            metadata: sector,
        }),
{
    (
        Write { channel: block, data, len, stage: WriteStage::Request },
        Request::Send {
            block: true,
            channel: block,
            type_: MessageType::Signal,
            data: OP_WRITE,
            metadata: sector,
        },
    )
}

impl Write {
    /// The write after `event`, and the answer to the event.
    ///
    /// After the request goes the buffer, as a `Data` message with its
    /// address and length, and after the buffer the write waits for one
    /// reply. A send that fails ends the write with that error. The reply
    /// is given up in any case and its pages are released: the write
    /// succeeded if it was the confirmation and failed if not. An event
    /// that does not answer the pending request fails the write.
    pub open spec fn spec_step(self, event: Event) -> (Write, Step<Result<(), WriteError>>) {
        let over = Write { stage: WriteStage::Finished, ..self };
        let fail = Step {
            release: event.owed(),
            next: Next::Done(Err::<(), WriteError>(WriteError::WriteError)),
        };
        match (self.stage, event) {
            (WriteStage::Request, Event::Sent(Ok(()))) => (
                Write { stage: WriteStage::Payload, ..self },
                Step {
                    release: None,
                    next: Next::Ask(
                        Request::Send {
                            block: true,
                            channel: self.channel,
                            type_: MessageType::Data,
                            data: self.data,
                            metadata: self.len as u64,
                        },
                    ),
                },
            ),
            (WriteStage::Payload, Event::Sent(Ok(()))) => (
                Write { stage: WriteStage::Reply, ..self },
                Step {
                    release: None,
                    next: Next::Ask(Request::Recv { block: true, channel: self.channel }),
                },
            ),
            (WriteStage::Request, Event::Sent(Err(e))) | (WriteStage::Payload, Event::Sent(Err(e))) => (
                over,
                Step { release: None, next: Next::Done(Err(WriteError::SendError(e))) },
            ),
            (WriteStage::Reply, Event::Received(reply)) => if confirms(reply, OP_WRITE) {
                (over, Step { release: event.owed(), next: Next::Done(Ok(())) })
            } else {
                (over, fail)
            },
            _ => (over, fail),
        }
    }

    /// Takes the write one step further: `event` is what happened to the
    /// request that was pending.
    pub fn step(&mut self, event: Event) -> (step: Step<Result<(), WriteError>>)
        ensures
            (*final(self), step) == old(self).spec_step(event),
    {
        let stage = self.stage;
        self.stage = WriteStage::Finished;
        match (stage, event) {
            (WriteStage::Request, Event::Sent(Ok(()))) => {
                self.stage = WriteStage::Payload;
                Step {
                    release: None,
                    next: Next::Ask(
                        Request::Send {
                            block: true,
                            channel: self.channel,
                            type_: MessageType::Data,
                            data: self.data,
                            metadata: self.len as u64,
                        },
                    ),
                }
            },
            (WriteStage::Payload, Event::Sent(Ok(()))) => {
                self.stage = WriteStage::Reply;
                Step {
                    release: None,
                    next: Next::Ask(Request::Recv { block: true, channel: self.channel }),
                }
            },
            (WriteStage::Request, Event::Sent(Err(e))) | (WriteStage::Payload, Event::Sent(Err(e))) => {
                Step { release: None, next: Next::Done(Err(WriteError::from(e))) }
            },
            (WriteStage::Reply, Event::Received(reply)) => {
                let confirmed = is_confirmation(&reply, OP_WRITE);
                let release = Event::Received(reply).discard();
                if confirmed {
                    Step { release, next: Next::Done(Ok(())) }
                } else {
                    Step { release, next: Next::Done(Err(WriteError::WriteError)) }
                }
            },
            (_, event) => Step {
                release: event.discard(),
                next: Next::Done(Err(WriteError::WriteError)),
            },
        }
    }
}

/// The result that a write ends with, by what the caller saw happen: the
/// outcomes of the two sends and the reply. It is success only where both
/// went out and the reply confirmed the write; a failed send is reported
/// as it is, the first before the second.
pub open spec fn write_outcome(
    first: Result<(), SendError>,
    second: Result<(), SendError>,
    reply: Option<Message>,
) -> Result<(), WriteError> {
    match (first, second) {
        (Err(e), _) => Err(WriteError::SendError(e)),
        (Ok(()), Err(e)) => Err(WriteError::SendError(e)),
        (Ok(()), Ok(())) => if confirms(reply, OP_WRITE) {
            Ok(())
        } else {
            Err(WriteError::WriteError)
        },
    }
}

/// A write runs as follows. The request is a blocking send of
/// `Signal(1, sector)`, followed by a blocking send of
/// `Data(address, length)`; a send that fails ends the write. Then the
/// write asks for one reply and is over, whatever the reply is: its pages
/// are released, and there is no second attempt. However the write ends,
/// the result is `write_outcome`.
pub proof fn lemma_write(
    block: Capability,
    sector: u64,
    data: u64,
    len: usize,
    first: Result<(), SendError>,
    second: Result<(), SendError>,
    reply: Option<Message>,
)
    ensures
        ({
            let start = Write { channel: block, data, len, stage: WriteStage::Request };
            let (w1, s1) = start.spec_step(Event::Sent(first));
            let (w2, s2) = w1.spec_step(Event::Sent(second));
            let (w3, s3) = w2.spec_step(Event::Received(reply));
            let done = Next::Done(write_outcome(first, second, reply));
            &&& s1.release is None
            &&& first is Err ==> s1.next == done
            &&& first is Ok ==> s1.next == Next::<Result<(), WriteError>>::Ask(
                Request::Send {
                    block: true,
                    channel: block,
                    type_: MessageType::Data,
                    data,
                    metadata: len as u64,
                },
            )
            &&& first is Ok ==> s2.release is None
            &&& first is Ok && second is Err ==> s2.next == done
            &&& first is Ok && second is Ok ==> {
                &&& s2.next == Next::<Result<(), WriteError>>::Ask(
                    Request::Recv { block: true, channel: block },
                )
                &&& s3.next == done
                &&& s3.release == Event::Received(reply).owed()
                &&& w3.stage == WriteStage::Finished
            }
        }),
{
}

} // verus!
