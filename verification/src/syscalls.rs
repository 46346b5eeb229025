//! The user-kernel calling convention: one function per operation to fill
//! the registers, and one to read what came back.

use crate::capability::Capability;
use core::sync::atomic::AtomicI16;
use core::sync::atomic::AtomicI32;
use core::sync::atomic::AtomicI64;
use core::sync::atomic::AtomicI8;
use core::sync::atomic::AtomicU16;
use core::sync::atomic::AtomicU32;
use core::sync::atomic::AtomicU64;
use core::sync::atomic::AtomicU8;
use core::sync::atomic::Ordering;
use vstd::multiset::Multiset;
use vstd::prelude::*;

verus! {

/// Size in bytes of one page of memory.
pub const PAGE_SIZE: usize = 4096;

/// One call into the kernel: the number of the operation and the seven
/// argument registers that follow it.
#[derive(Clone, Copy, Debug, PartialEq, Eq, Structural)]
pub struct Syscall {
    pub id: u64,
    pub a1: u64,
    pub a2: u64,
    pub a3: u64,
    pub a4: u64,
    pub a5: u64,
    pub a6: u64,
    pub a7: u64,
}

/// The registers of a call, by position.
pub open spec fn spec_syscall(
    id: u64,
    a1: u64,
    a2: u64,
    a3: u64,
    a4: u64,
    a5: u64,
    a6: u64,
    a7: u64,
) -> Syscall {
    Syscall { id, a1, a2, a3, a4, a5, a6, a7 }
}

/// Puts an operation number and its arguments into the registers in which
/// the kernel looks for them. Nothing is checked here.
pub fn syscall(
    id: u64,
    a1: u64,
    a2: u64,
    a3: u64,
    a4: u64,
    a5: u64,
    a6: u64,
    a7: u64,
) -> (call: Syscall)
    ensures
        call == spec_syscall(id, a1, a2, a3, a4, a5, a6, a7),
{
    Syscall { id, a1, a2, a3, a4, a5, a6, a7 }
}

/// Writer for the diagnostic console.
pub struct UartWrite;

impl UartWrite {
    /// The call that writes the `len` bytes of text at address `s`.
    pub fn write_str(&mut self, s: u64, len: usize) -> (call: Syscall)
        ensures
            call == spec_syscall(0, s, len as u64, 0, 0, 0, 0, 0),
    {
        uart_write(s, len)
    }
}

/// The call that writes the `len` bytes at address `data` to the diagnostic
/// console. The kernel reports nothing back.
pub fn uart_write(data: u64, len: usize) -> (call: Syscall)
    ensures
        call == spec_syscall(0, data, len as u64, 0, 0, 0, 0, 0),
{
    syscall(0, data, len as u64, 0, 0, 0, 0, 0)
}

/// What a process may do with a page.
#[derive(Debug, Clone, Copy, PartialEq, Eq, Structural)]
pub enum PagePermissions {
    Read,
    Write,
    Execute,
}

/// The permission bits of a list: 4 where it grants reading, 2 where it
/// grants writing, 1 where it grants execution.
pub open spec fn raw_perms(perms: Seq<PagePermissions>) -> u64 {
    ((if perms.contains(PagePermissions::Read) {
        4int
    } else {
        0int
    }) + (if perms.contains(PagePermissions::Write) {
        2int
    } else {
        0int
    }) + (if perms.contains(PagePermissions::Execute) {
        1int
    } else {
        0int
    })) as u64
}

/// Whether `perm` occurs in `perms`.
fn has_perm(perms: &[PagePermissions], perm: PagePermissions) -> (found: bool)
    ensures
        found == perms@.contains(perm),
{
    let mut i: usize = 0;
    while i < perms.len()
        invariant
            i <= perms@.len(),
            forall|j: int| 0 <= j < i ==> perms@[j] != perm,
        decreases perms@.len() - i,
    {
        if perms[i] == perm {
            return true;
        }
        i += 1;
    }
    false
}

/// Folds a list of permissions into the three bits the kernel reads.
/// Repetitions and order do not matter.
pub fn array_to_raw_perms(perms: &[PagePermissions]) -> (p: u64)
    ensures
        p == raw_perms(perms@),
        p <= 7,
{
    let mut p: u64 = 0;
    if has_perm(perms, PagePermissions::Read) {
        p |= 0b100;
        assert(0u64 | 0b100 == 4) by (bit_vector);
    }
    if has_perm(perms, PagePermissions::Write) {
        let ghost before = p;
        p |= 0b010;
        assert(before == 0 || before == 4 ==> before | 0b010 == before + 2) by (bit_vector);
    }
    if has_perm(perms, PagePermissions::Execute) {
        let ghost before = p;
        p |= 0b001;
        assert(before == 0 || before == 2 || before == 4 || before == 6 ==> before | 0b001
            == before + 1) by (bit_vector);
    }
    p
}

/// The number of whole pages that hold `len` bytes.
pub open spec fn pages_for(len: int) -> int {
    (len + PAGE_SIZE - 1) / (PAGE_SIZE as int)
}

/// Rounds a length in bytes up to whole pages.
pub fn page_count(len: u64) -> (pages: u64)
    ensures
        pages == pages_for(len as int),
{
    if len % 4096 == 0 {
        len / 4096
    } else {
        len / 4096 + 1
    }
}

/// The call that asks for `count` contiguous pages with the given
/// permissions.
pub fn alloc_page(count: usize, perms: &[PagePermissions]) -> (call: Syscall)
    ensures
        call == spec_syscall(1, count as u64, raw_perms(perms@), 0, 0, 0, 0, 0),
{
    syscall(1, count as u64, array_to_raw_perms(perms), 0, 0, 0, 0, 0)
}

/// Reads the first result word of a page request: the address of the first
/// page, or nothing where the kernel had no memory to give and answered
/// with the null address.
pub fn alloc_page_reply(addr: u64) -> (page: Option<u64>)
    ensures
        page == (if addr == 0 {
            None
        } else {
            Some(addr)
        }),
{
    if addr == 0 {
        None
    } else {
        Some(addr)
    }
}

/// Why the protection of a range of pages could not be changed.
#[derive(Debug, Clone, Copy, PartialEq, Eq, Structural)]
pub enum PagePermissionsError {
    NeverAllocated,
    InvalidPermissions,
}

/// The call that sets the permissions of the `count` pages at `addr`.
pub fn page_permissions(addr: u64, count: usize, perms: &[PagePermissions]) -> (call: Syscall)
    ensures
        call == spec_syscall(2, addr, count as u64, raw_perms(perms@), 0, 0, 0, 0),
{
    syscall(2, addr, count as u64, array_to_raw_perms(perms), 0, 0, 0, 0)
}

/// The outcome that a status word of the set-permissions operation stands
/// for.
pub open spec fn spec_page_permissions_reply(status: u64) -> Result<(), PagePermissionsError> {
    if status == 0 {
        Ok(())
    } else if status == 1 {
        Err(PagePermissionsError::NeverAllocated)
    } else {
        Err(PagePermissionsError::InvalidPermissions)
    }
}

/// Reads the status word of the set-permissions operation. The kernel
/// answers 0, 1 or 2 and nothing else.
pub fn page_permissions_reply(status: u64) -> (r: Result<(), PagePermissionsError>)
    requires
        status <= 2,
    ensures
        r == spec_page_permissions_reply(status),
{
    if status == 0 {
        Ok(())
    } else if status == 1 {
        Err(PagePermissionsError::NeverAllocated)
    } else {
        Err(PagePermissionsError::InvalidPermissions)
    }
}

/// Why pages could not be given back.
#[derive(Debug, Clone, Copy, PartialEq, Eq, Structural)]
pub enum DeallocPageError {
    NeverAllocated,
}

/// The call that returns `pages` pages starting at `addr`.
pub open spec fn spec_dealloc_pages(addr: u64, pages: u64) -> Syscall {
    spec_syscall(3, addr, pages, 0, 0, 0, 0, 0)
}

/// The call that returns `pages` pages starting at `addr`, for a count that
/// was computed in 64 bits.
pub(crate) fn dealloc_pages(addr: u64, pages: u64) -> (call: Syscall)
    ensures
        call == spec_dealloc_pages(addr, pages),
{
    syscall(3, addr, pages, 0, 0, 0, 0, 0)
}

/// The call that gives back the `count` pages at `addr`, which an earlier
/// page request obtained.
pub fn dealloc_page(addr: u64, count: usize) -> (call: Syscall)
    ensures
        call == spec_dealloc_pages(addr, count as u64),
{
    dealloc_pages(addr, count as u64)
}

/// Reads the status word of a page release: 0 is success, anything else
/// says that the pages were never allocated.
pub fn dealloc_page_reply(status: u64) -> (r: Result<(), DeallocPageError>)
    ensures
        r == (if status == 0 {
            Ok::<(), DeallocPageError>(())
        } else {
            Err(DeallocPageError::NeverAllocated)
        }),
{
    if status == 0 {
        Ok(())
    } else {
        Err(DeallocPageError::NeverAllocated)
    }
}

/// Identity of a process, as the kernel numbers it.
#[derive(Debug, Clone, Copy, PartialEq, Eq, Hash, Structural)]
pub struct Pid(pub u64);

/// The call that asks which process is running.
pub fn getpid() -> (call: Syscall)
    ensures
        call == spec_syscall(4, 0, 0, 0, 0, 0, 0, 0),
{
    syscall(4, 0, 0, 0, 0, 0, 0, 0)
}

/// Reads the answer to `getpid`: the first result word is the identity.
pub fn getpid_reply(word: u64) -> (pid: Pid)
    ensures
        pid == Pid(word),
{
    Pid(word)
}

/// Identity of the user that a process runs as.
#[derive(Debug, Clone, Copy, PartialEq, Eq, Hash, Structural)]
pub struct Uid(pub u64);

/// Why the user of a process could not be read.
#[derive(Debug, Clone, Copy, PartialEq, Eq, Structural)]
pub enum GetUidError {
    ProcessDoesNotExist,
}

/// The call that asks for the user of process `pid`.
pub fn getuid(pid: Pid) -> (call: Syscall)
    ensures
        call == spec_syscall(5, pid.0, 0, 0, 0, 0, 0, 0),
{
    syscall(5, pid.0, 0, 0, 0, 0, 0, 0)
}

/// Reads the answer to `getuid`: the all-ones word says that there is no
/// such process, any other word is the user.
pub fn getuid_reply(word: u64) -> (r: Result<Uid, GetUidError>)
    ensures
        r == (if word == u64::MAX {
            Err::<Uid, GetUidError>(GetUidError::ProcessDoesNotExist)
        } else {
            Ok(Uid(word))
        }),
{
    if word == u64::MAX {
        Err(GetUidError::ProcessDoesNotExist)
    } else {
        Ok(Uid(word))
    }
}

/// Why the user of a process could not be set.
#[derive(Debug, Clone, Copy, PartialEq, Eq, Structural)]
pub enum SetUidError {
    ProcessDoesNotExist,
    InsufficientPermissions,
}

/// The call that makes process `pid` run as user `uid`.
pub fn setuid(pid: Pid, uid: Uid) -> (call: Syscall)
    ensures
        call == spec_syscall(6, pid.0, uid.0, 0, 0, 0, 0, 0),
{
    syscall(6, pid.0, uid.0, 0, 0, 0, 0, 0)
}

/// The outcome that a status word of `setuid` stands for.
pub open spec fn spec_setuid_reply(status: u64) -> Result<(), SetUidError> {
    if status == 0 {
        Ok(())
    } else if status == 1 {
        Err(SetUidError::ProcessDoesNotExist)
    } else {
        Err(SetUidError::InsufficientPermissions)
    }
}

/// Reads the status word of `setuid`. The kernel answers 0, 1 or 2 and
/// nothing else.
pub fn setuid_reply(status: u64) -> (r: Result<(), SetUidError>)
    requires
        status <= 2,
    ensures
        r == spec_setuid_reply(status),
{
    if status == 0 {
        Ok(())
    } else if status == 1 {
        Err(SetUidError::ProcessDoesNotExist)
    } else {
        Err(SetUidError::InsufficientPermissions)
    }
}

/// A duration or a point in time: whole seconds and the microseconds
/// beyond them.
#[derive(Debug, Clone, Copy, PartialEq, Eq, Structural)]
pub struct Time {
    pub seconds: u64,
    pub micros: u64,
}

/// The call that suspends the calling thread for `interval`.
pub fn sleep(interval: Time) -> (call: Syscall)
    ensures
        call == spec_syscall(7, interval.seconds, interval.micros, 0, 0, 0, 0, 0),
{
    syscall(7, interval.seconds, interval.micros, 0, 0, 0, 0, 0)
}

/// Reads the answer to `sleep`: the first result word holds seconds, the
/// second microseconds.
pub fn sleep_reply(seconds: u64, micros: u64) -> (time: Time)
    ensures
        time == (Time { seconds, micros }),
{
    Time { seconds, micros }
}

/// The register that names an optional capability: its address, or zero
/// where there is none.
pub open spec fn capability_register(capability: Option<u64>) -> u64 {
    match capability {
        Some(addr) => addr,
        None => 0,
    }
}

/// The call that loads the program image of `exec_size` bytes at `exec` and
/// starts it as a new process with the `arg_size` bytes at `args` as its
/// arguments. `capability` is the address of a capability to hand to the
/// new process, if there is one.
pub fn spawn_process(
    exec: u64,
    exec_size: usize,
    args: u64,
    arg_size: usize,
    capability: Option<u64>,
) -> (call: Syscall)
    ensures
        call == spec_syscall(
            8,
            exec,
            exec_size as u64,
            args,
            arg_size as u64,
            capability_register(capability),
            0,
            0,
        ),
{
    let cap: u64 = match capability {
        Some(addr) => addr,
        None => 0,
    };
    syscall(8, exec, exec_size as u64, args, arg_size as u64, cap, 0, 0)
}

/// The process that a status word of a spawn stands for: the all-ones word
/// says that nothing was started.
pub open spec fn spec_spawn_reply(word: u64) -> Option<Pid> {
    if word == u64::MAX {
        None
    } else {
        Some(Pid(word))
    }
}

/// Reads the answer to `spawn_process`.
pub fn spawn_process_reply(word: u64) -> (pid: Option<Pid>)
    ensures
        pid == spec_spawn_reply(word),
{
    if word == u64::MAX {
        None
    } else {
        Some(Pid(word))
    }
}

/// Why a process could not be terminated.
#[derive(Debug, Clone, Copy, PartialEq, Eq, Structural)]
pub enum KillError {
    ProcessDoesNotExist,
    InsufficientPermissions,
}

/// The call that terminates process `pid`.
pub fn kill(pid: Pid) -> (call: Syscall)
    ensures
        call == spec_syscall(9, pid.0, 0, 0, 0, 0, 0, 0),
{
    syscall(9, pid.0, 0, 0, 0, 0, 0, 0)
}

/// The outcome that a status word of `kill` stands for.
pub open spec fn spec_kill_reply(status: u64) -> Result<(), KillError> {
    if status == 0 {
        Ok(())
    } else if status == 1 {
        Err(KillError::ProcessDoesNotExist)
    } else {
        Err(KillError::InsufficientPermissions)
    }
}

/// Reads the status word of `kill`. The kernel answers 0, 1 or 2 and
/// nothing else.
pub fn kill_reply(status: u64) -> (r: Result<(), KillError>)
    requires
        status <= 2,
    ensures
        r == spec_kill_reply(status),
{
    if status == 0 {
        Ok(())
    } else if status == 1 {
        Err(KillError::ProcessDoesNotExist)
    } else {
        Err(KillError::InsufficientPermissions)
    }
}

/// What the two 64-bit fields of a message mean.
#[derive(Debug, Clone, Copy, PartialEq, Eq, Structural)]
pub enum MessageType {
    /// Two plain integers; nothing is owned.
    Signal,
    /// The two halves of one 128-bit value, such as a capability; nothing
    /// is owned.
    Integer,
    /// `data` is the base of a region that the receiver now owns and
    /// `metadata` its length in bytes.
    Pointer,
    /// `data` is the base of one page that the receiver now owns.
    Data,
    /// Raised by the kernel for a hardware interrupt; never sent by a
    /// process.
    Interrupt,
}

impl MessageType {
    /// The number that stands for the type in a register.
    pub open spec fn tag(self) -> u64 {
        match self {
            MessageType::Signal => 0,
            MessageType::Integer => 1,
            MessageType::Pointer => 2,
            MessageType::Data => 3,
            MessageType::Interrupt => 4,
        }
    }

    /// The type that a number from 0 to 4 stands for.
    pub open spec fn from_tag(tag: u64) -> MessageType {
        if tag == 0 {
            MessageType::Signal
        } else if tag == 1 {
            MessageType::Integer
        } else if tag == 2 {
            MessageType::Pointer
        } else if tag == 3 {
            MessageType::Data
        } else {
            MessageType::Interrupt
        }
    }
}

/// Why a message was not sent.
#[derive(Debug, Clone, Copy, PartialEq, Eq, Structural)]
pub enum SendError {
    InvalidArguments,
    MessageQueueFull,
}

/// What `send` does with its arguments: the interrupt type is refused on
/// the spot, any other type becomes operation 10 with the blocking flag,
/// the channel, the type's number and the two fields.
pub open spec fn spec_send(
    block: bool,
    channel: u64,
    type_: MessageType,
    data: u64,
    metadata: u64,
) -> Result<Syscall, SendError> {
    if type_ == MessageType::Interrupt {
        Err(SendError::InvalidArguments)
    } else {
        Ok(
            spec_syscall(
                10,
                if block {
                    1
                } else {
                    0
                },
                channel,
                type_.tag(),
                data,
                metadata,
                0,
                0,
            ),
        )
    }
}

/// The call that sends one message on the channel whose capability lies at
/// address `channel`. With `block` set the kernel suspends the caller until
/// the channel's queue has room; without it a full queue is an error.
///
/// A message of type `Interrupt` is refused here, with no call to make.
pub fn send(block: bool, channel: u64, type_: MessageType, data: u64, metadata: u64) -> (r: Result<
    Syscall,
    SendError,
>)
    ensures
        r == spec_send(block, channel, type_, data, metadata),
{
    let tag: u64 = match type_ {
        MessageType::Signal => 0,
        MessageType::Integer => 1,
        MessageType::Pointer => 2,
        MessageType::Data => 3,
        MessageType::Interrupt => {
            return Err(SendError::InvalidArguments);
        },
    };
    let flag: u64 = if block {
        1
    } else {
        0
    };
    Ok(syscall(10, flag, channel, tag, data, metadata, 0, 0))
}

/// The outcome that a status word of `send` stands for.
pub open spec fn spec_send_reply(status: u64) -> Result<(), SendError> {
    if status == 0 {
        Ok(())
    } else if status == 1 {
        Err(SendError::InvalidArguments)
    } else {
        Err(SendError::MessageQueueFull)
    }
}

/// Reads the status word of `send`. The kernel answers 0, 1 or 2 and
/// nothing else.
pub fn send_reply(status: u64) -> (r: Result<(), SendError>)
    requires
        status <= 2,
    ensures
        r == spec_send_reply(status),
{
    if status == 0 {
        Ok(())
    } else if status == 1 {
        Err(SendError::InvalidArguments)
    } else {
        Err(SendError::MessageQueueFull)
    }
}

/// One received message: who sent it, its type and its two fields.
///
/// A message of type `Pointer` or `Data` owns the pages that `data` points
/// to, from the moment it is received until it is given up. Whoever holds
/// the value ends that in one of two ways: `discard` yields the call that
/// returns the pages to the kernel, and `into_raw` passes the pages on to
/// the caller. Both take the message by value, so neither can happen twice.
#[must_use]
#[derive(Debug)]
pub struct Message {
    pub pid: Pid,
    pub type_: MessageType,
    pub data: u64,
    pub metadata: u64,
}

impl Message {
    /// The page release that this message owes when it is discarded: one
    /// page at `data` for `Data`, the pages that hold `metadata` bytes at
    /// `data` for `Pointer`, none for the other types.
    pub open spec fn owed(&self) -> Option<Syscall> {
        match self.type_ {
            MessageType::Data => Some(spec_dealloc_pages(self.data, 1)),
            MessageType::Pointer => Some(
                spec_dealloc_pages(self.data, pages_for(self.metadata as int) as u64),
            ),
            _ => None,
        }
    }

    /// Gives the message up. The result is the call that returns its pages
    /// to the kernel, to be made by the caller, or nothing where the
    /// message owns no memory.
    #[must_use]
    pub fn discard(self) -> (call: Option<Syscall>)
        ensures
            call == self.owed(),
    {
        match self.type_ {
            MessageType::Signal | MessageType::Integer | MessageType::Interrupt => None,
            MessageType::Data => Some(dealloc_pages(self.data, 1)),
            MessageType::Pointer => Some(dealloc_pages(self.data, page_count(self.metadata))),
        }
    }

    /// Takes the two fields out of the message and with them whatever the
    /// message owned: no page is released, now or later, on its account.
    pub fn into_raw(self) -> (fields: (u64, u64))
        ensures
            fields == (self.data, self.metadata),
    {
        (self.data, self.metadata)
    }
}

/// The regions that a process holds because messages brought them, each
/// as its base address and its number of pages, after one more message
/// has arrived.
pub open spec fn after_receipt(held: Multiset<(u64, u64)>, message: Message) -> Multiset<
    (u64, u64),
> {
    match message.owed() {
        Some(call) => held.insert((call.a1, call.a2)),
        None => held,
    }
}

/// The regions that a process holds after it has made a page release, or
/// none.
pub open spec fn after_release(held: Multiset<(u64, u64)>, call: Option<Syscall>) -> Multiset<
    (u64, u64),
> {
    match call {
        Some(call) => if call.id == 3 {
            held.remove((call.a1, call.a2))
        } else {
            held
        },
        None => held,
    }
}

/// A message that is received and then discarded leaves the process
/// holding exactly what it held before: the one release that `discard`
/// yields returns the region that the message brought, no more and no
/// less. Messages of type `Data` and `Pointer` bring a region, the others
/// bring none and owe no release.
pub proof fn lemma_discard_balances(held: Multiset<(u64, u64)>, message: Message)
    ensures
        after_release(after_receipt(held, message), message.owed()) == held,
        message.owed() is Some <==> message.type_ == MessageType::Data || message.type_
            == MessageType::Pointer,
        message.type_ == MessageType::Data ==> after_receipt(held, message) == held.insert(
            (message.data, 1u64),
        ),
        message.type_ == MessageType::Pointer ==> after_receipt(held, message) == held.insert(
            (message.data, pages_for(message.metadata as int) as u64),
        ),
{
    broadcast use vstd::multiset::group_multiset_axioms;

    assert(after_release(after_receipt(held, message), message.owed()) =~= held);
}

/// The call that takes the next message from the channel whose capability
/// lies at address `channel`. The kernel writes the sender, the type's
/// number and the two fields to the four words at `pid`, `type_`, `data`
/// and `metadata`. With `block` set it suspends the caller until a message
/// is there.
pub fn recv(block: bool, channel: u64, pid: u64, type_: u64, data: u64, metadata: u64) -> (call:
    Syscall)
    ensures
        call == spec_syscall(
            11,
            if block {
                1
            } else {
                0
            },
            channel,
            pid,
            type_,
            data,
            metadata,
            0,
        ),
{
    let flag: u64 = if block {
        1
    } else {
        0
    };
    syscall(11, flag, channel, pid, type_, data, metadata, 0)
}

/// What `recv_reply` makes of the status word and of the four words that
/// the kernel wrote.
pub open spec fn spec_recv_reply(
    status: u64,
    pid: u64,
    type_: u64,
    data: u64,
    metadata: u64,
) -> Option<Message> {
    if status != 0 {
        None
    } else {
        Some(Message { pid: Pid(pid), type_: MessageType::from_tag(type_), data, metadata })
    }
}

/// Reads the answer to `recv`: a status other than 0 says that no message
/// was there; with status 0 the four words are the message, which from now
/// on owns the pages it carries. The kernel numbers the types 0 to 4.
pub fn recv_reply(status: u64, pid: u64, type_: u64, data: u64, metadata: u64) -> (message:
    Option<Message>)
    requires
        status == 0 ==> type_ <= 4,
    ensures
        message == spec_recv_reply(status, pid, type_, data, metadata),
{
    if status != 0 {
        return None;
    }
    let type_: MessageType = if type_ == 0 {
        MessageType::Signal
    } else if type_ == 1 {
        MessageType::Integer
    } else if type_ == 2 {
        MessageType::Pointer
    } else if type_ == 3 {
        MessageType::Data
    } else {
        MessageType::Interrupt
    };
    Some(Message { pid: Pid(pid), type_, data, metadata })
}

/// A message that is sent and then received arrives as it left: the
/// registers that `send` fills with the type and the two fields, read back
/// by `recv_reply` as the words that the kernel delivered, give a message
/// of the same type with the same `data` and `metadata`.
pub proof fn lemma_send_then_recv(
    block: bool,
    channel: u64,
    type_: MessageType,
    data: u64,
    metadata: u64,
    sender: u64,
)
    requires
        type_ != MessageType::Interrupt,
    ensures
        spec_send(block, channel, type_, data, metadata) matches Ok(call) && spec_recv_reply(
            0,
            sender,
            call.a3,
            call.a4,
            call.a5,
        ) == Some(Message { pid: Pid(sender), type_, data, metadata }),
{
}

/// Width of a word that the kernel can wait on.
#[derive(Debug, Clone, Copy, PartialEq, Eq, Structural)]
pub enum LockableSize {
    U8,
    U16,
    U32,
    U64,
}

/// The 64 bits that a signed value widens to: itself if it is not
/// negative, and the same bit pattern with the sign bit repeated to the
/// left if it is.
pub open spec fn sign_extended(value: int) -> u64 {
    if value >= 0 {
        value as u64
    } else {
        (value + 0x1_0000_0000_0000_0000) as u64
    }
}

/// Whether `word` is what some value from `min` to `max` widens to.
pub open spec fn widens_from(word: u64, min: int, max: int) -> bool {
    exists|value: int| min <= value <= max && word == #[trigger] sign_extended(value)
}

/// A value that can stand in a word on which threads wait: it has one of
/// four widths and widens to the 64 bits of a register.
pub trait Lockable: Sized {
    /// The width of the type.
    spec fn spec_size() -> LockableSize;

    /// Whether `into` is a function of the value alone. It is for the
    /// integer types. An atomic is read when it is handed over, and what
    /// the read gives is not known beforehand.
    spec fn plain() -> bool;

    /// The least and the greatest value that the type holds.
    spec fn range() -> (int, int);

    /// The register contents that a plain value widens to.
    spec fn spec_into(self) -> u64;

    fn size() -> (size: LockableSize)
        ensures
            size == Self::spec_size(),
    ;

    /// Widens the value to 64 bits. For an integer the result is
    /// `spec_into`. An atomic is read, and the result is what that read
    /// gave, widened: one of the values that the type holds.
    fn into(self) -> (word: u64)
        ensures
            Self::plain() ==> word == self.spec_into(),
            widens_from(word, Self::range().0, Self::range().1),
    ;
}

impl Lockable for u8 {
    open spec fn spec_size() -> LockableSize {
        LockableSize::U8
    }

    open spec fn plain() -> bool {
        true
    }

    open spec fn range() -> (int, int) {
        (0, 0xff)
    }

    open spec fn spec_into(self) -> u64 {
        self as u64
    }

    fn size() -> LockableSize {
        LockableSize::U8
    }

    fn into(self) -> u64 {
        assert(sign_extended(self as int) == self);
        self as u64
    }
}

impl Lockable for u16 {
    open spec fn spec_size() -> LockableSize {
        LockableSize::U16
    }

    open spec fn plain() -> bool {
        true
    }

    open spec fn range() -> (int, int) {
        (0, 0xffff)
    }

    open spec fn spec_into(self) -> u64 {
        self as u64
    }

    fn size() -> LockableSize {
        LockableSize::U16
    }

    fn into(self) -> u64 {
        assert(sign_extended(self as int) == self);
        self as u64
    }
}

impl Lockable for u32 {
    open spec fn spec_size() -> LockableSize {
        LockableSize::U32
    }

    open spec fn plain() -> bool {
        true
    }

    open spec fn range() -> (int, int) {
        (0, 0xffff_ffff)
    }

    open spec fn spec_into(self) -> u64 {
        self as u64
    }

    fn size() -> LockableSize {
        LockableSize::U32
    }

    fn into(self) -> u64 {
        assert(sign_extended(self as int) == self);
        self as u64
    }
}

impl Lockable for u64 {
    open spec fn spec_size() -> LockableSize {
        LockableSize::U64
    }

    open spec fn plain() -> bool {
        true
    }

    open spec fn range() -> (int, int) {
        (0, 0xffff_ffff_ffff_ffff)
    }

    open spec fn spec_into(self) -> u64 {
        self
    }

    fn size() -> LockableSize {
        LockableSize::U64
    }

    fn into(self) -> u64 {
        assert(sign_extended(self as int) == self);
        self
    }
}

impl Lockable for i8 {
    open spec fn spec_size() -> LockableSize {
        LockableSize::U8
    }

    open spec fn plain() -> bool {
        true
    }

    open spec fn range() -> (int, int) {
        (-0x80, 0x7f)
    }

    open spec fn spec_into(self) -> u64 {
        sign_extended(self as int)
    }

    fn size() -> LockableSize {
        LockableSize::U8
    }

    fn into(self) -> u64 {
        assert(self as u64 == (if self >= 0 {
            self as int
        } else {
            self + 0x1_0000_0000_0000_0000
        })) by (bit_vector);
        assert(self as u64 == sign_extended(self as int));
        self as u64
    }
}

impl Lockable for i16 {
    open spec fn spec_size() -> LockableSize {
        LockableSize::U16
    }

    open spec fn plain() -> bool {
        true
    }

    open spec fn range() -> (int, int) {
        (-0x8000, 0x7fff)
    }

    open spec fn spec_into(self) -> u64 {
        sign_extended(self as int)
    }

    fn size() -> LockableSize {
        LockableSize::U16
    }

    fn into(self) -> u64 {
        assert(self as u64 == (if self >= 0 {
            self as int
        } else {
            self + 0x1_0000_0000_0000_0000
        })) by (bit_vector);
        assert(self as u64 == sign_extended(self as int));
        self as u64
    }
}

impl Lockable for i32 {
    open spec fn spec_size() -> LockableSize {
        LockableSize::U32
    }

    open spec fn plain() -> bool {
        true
    }

    open spec fn range() -> (int, int) {
        (-0x8000_0000, 0x7fff_ffff)
    }

    open spec fn spec_into(self) -> u64 {
        sign_extended(self as int)
    }

    fn size() -> LockableSize {
        LockableSize::U32
    }

    fn into(self) -> u64 {
        assert(self as u64 == (if self >= 0 {
            self as int
        } else {
            self + 0x1_0000_0000_0000_0000
        })) by (bit_vector);
        assert(self as u64 == sign_extended(self as int));
        self as u64
    }
}

impl Lockable for i64 {
    open spec fn spec_size() -> LockableSize {
        LockableSize::U64
    }

    open spec fn plain() -> bool {
        true
    }

    open spec fn range() -> (int, int) {
        (-0x8000_0000_0000_0000, 0x7fff_ffff_ffff_ffff)
    }

    open spec fn spec_into(self) -> u64 {
        sign_extended(self as int)
    }

    fn size() -> LockableSize {
        LockableSize::U64
    }

    fn into(self) -> u64 {
        assert(self as u64 == (if self >= 0 {
            self as int
        } else {
            self + 0x1_0000_0000_0000_0000
        })) by (bit_vector);
        assert(self as u64 == sign_extended(self as int));
        self as u64
    }
}

impl Lockable for AtomicU8 {
    open spec fn spec_size() -> LockableSize {
        LockableSize::U8
    }

    open spec fn plain() -> bool {
        false
    }

    open spec fn range() -> (int, int) {
        (0, 0xff)
    }

    open spec fn spec_into(self) -> u64 {
        0
    }

    fn size() -> LockableSize {
        LockableSize::U8
    }

    fn into(self) -> u64 {
        let value: u8 = self.load(Ordering::Acquire);
        Lockable::into(value)
    }
}

impl Lockable for AtomicU16 {
    open spec fn spec_size() -> LockableSize {
        LockableSize::U16
    }

    open spec fn plain() -> bool {
        false
    }

    open spec fn range() -> (int, int) {
        (0, 0xffff)
    }

    open spec fn spec_into(self) -> u64 {
        0
    }

    fn size() -> LockableSize {
        LockableSize::U16
    }

    fn into(self) -> u64 {
        let value: u16 = self.load(Ordering::Acquire);
        Lockable::into(value)
    }
}

impl Lockable for AtomicU32 {
    open spec fn spec_size() -> LockableSize {
        LockableSize::U32
    }

    open spec fn plain() -> bool {
        false
    }

    open spec fn range() -> (int, int) {
        (0, 0xffff_ffff)
    }

    open spec fn spec_into(self) -> u64 {
        0
    }

    fn size() -> LockableSize {
        LockableSize::U32
    }

    fn into(self) -> u64 {
        let value: u32 = self.load(Ordering::Acquire);
        Lockable::into(value)
    }
}

impl Lockable for AtomicU64 {
    open spec fn spec_size() -> LockableSize {
        LockableSize::U64
    }

    open spec fn plain() -> bool {
        false
    }

    open spec fn range() -> (int, int) {
        (0, 0xffff_ffff_ffff_ffff)
    }

    open spec fn spec_into(self) -> u64 {
        0
    }

    fn size() -> LockableSize {
        LockableSize::U64
    }

    fn into(self) -> u64 {
        let value: u64 = self.load(Ordering::Acquire);
        Lockable::into(value)
    }
}

impl Lockable for AtomicI8 {
    open spec fn spec_size() -> LockableSize {
        LockableSize::U8
    }

    open spec fn plain() -> bool {
        false
    }

    open spec fn range() -> (int, int) {
        (-0x80, 0x7f)
    }

    open spec fn spec_into(self) -> u64 {
        0
    }

    fn size() -> LockableSize {
        LockableSize::U8
    }

    fn into(self) -> u64 {
        let value: i8 = self.load(Ordering::Acquire);
        Lockable::into(value)
    }
}

impl Lockable for AtomicI16 {
    open spec fn spec_size() -> LockableSize {
        LockableSize::U16
    }

    open spec fn plain() -> bool {
        false
    }

    open spec fn range() -> (int, int) {
        (-0x8000, 0x7fff)
    }

    open spec fn spec_into(self) -> u64 {
        0
    }

    fn size() -> LockableSize {
        LockableSize::U16
    }

    fn into(self) -> u64 {
        let value: i16 = self.load(Ordering::Acquire);
        Lockable::into(value)
    }
}

impl Lockable for AtomicI32 {
    open spec fn spec_size() -> LockableSize {
        LockableSize::U32
    }

    open spec fn plain() -> bool {
        false
    }

    open spec fn range() -> (int, int) {
        (-0x8000_0000, 0x7fff_ffff)
    }

    open spec fn spec_into(self) -> u64 {
        0
    }

    fn size() -> LockableSize {
        LockableSize::U32
    }

    fn into(self) -> u64 {
        let value: i32 = self.load(Ordering::Acquire);
        Lockable::into(value)
    }
}

impl Lockable for AtomicI64 {
    open spec fn spec_size() -> LockableSize {
        LockableSize::U64
    }

    open spec fn plain() -> bool {
        false
    }

    open spec fn range() -> (int, int) {
        (-0x8000_0000_0000_0000, 0x7fff_ffff_ffff_ffff)
    }

    open spec fn spec_into(self) -> u64 {
        0
    }

    fn size() -> LockableSize {
        LockableSize::U64
    }

    fn into(self) -> u64 {
        let value: i64 = self.load(Ordering::Acquire);
        Lockable::into(value)
    }
}

/// The two halves of the wait/wake operation.
#[derive(Debug, Copy, Clone, PartialEq, Eq, Structural)]
pub enum LockType {
    /// Suspend the caller until another thread wakes the word.
    Wait,
    /// Wake the threads that wait on the word.
    Wake,
}

/// The second register of the wait/wake operation: the width of the word
/// in bits 1 and 2, and bit 0 set for a wake.
pub open spec fn lock_flags(size: LockableSize, type_: LockType) -> u64 {
    ((match size {
        LockableSize::U8 => 0int,
        LockableSize::U16 => 2int,
        LockableSize::U32 => 4int,
        LockableSize::U64 => 6int,
    }) + (match type_ {
        LockType::Wait => 0int,
        LockType::Wake => 1int,
    })) as u64
}

/// The call that waits on, or wakes, the word at address `ref_`. `value`
/// goes to the kernel with it, widened to 64 bits.
pub fn lock<T>(ref_: u64, type_: LockType, value: T) -> (call: Syscall) where T: Lockable
    ensures
        call.id == 12,
        call.a1 == ref_,
        call.a2 == lock_flags(T::spec_size(), type_),
        T::plain() ==> call.a3 == value.spec_into(),
        widens_from(call.a3, T::range().0, T::range().1),
        call.a4 == 0 && call.a5 == 0 && call.a6 == 0 && call.a7 == 0,
{
    let width: u64 = match T::size() {
        LockableSize::U8 => 0,
        LockableSize::U16 => 2,
        LockableSize::U32 => 4,
        LockableSize::U64 => 6,
    };
    let half: u64 = match type_ {
        LockType::Wait => 0,
        LockType::Wake => 1,
    };
    assert((width == 0 || width == 2 || width == 4 || width == 6) && (half == 0 || half == 1)
        ==> width | half == width + half) by (bit_vector);
    syscall(12, ref_, width | half, Lockable::into(value), 0, 0, 0, 0)
}

/// The capability that a thread or a process finds in the two registers
/// it starts with: none where both are zero.
pub open spec fn spec_start_capability(cap_high: u64, cap_low: u64) -> Option<u128> {
    if cap_high != 0 || cap_low != 0 {
        Some(crate::capability::join_halves(cap_high, cap_low))
    } else {
        None
    }
}

/// First step of a new thread: reads the capability that its creator
/// handed over from the two registers it arrives in. Two zero halves mean
/// that none was handed over. The thread then runs its task with the
/// result and ends by killing itself.
pub fn thread_unpack_args(cap_high: u64, cap_low: u64) -> (cap: Option<Capability>)
    ensures
        cap.is_some() == spec_start_capability(cap_high, cap_low).is_some(),
        cap matches Some(c) ==> Some(c@) == spec_start_capability(cap_high, cap_low),
{
    if cap_high != 0 || cap_low != 0 {
        Some(Capability::from_halves(cap_high, cap_low))
    } else {
        None
    }
}

/// The call that starts a thread in the caller's address space. The thread
/// begins at the code at `entry` and is handed the task of `size` bytes at
/// `func`, which from then on belongs to it, and the capability at address
/// `capability`, if there is one.
pub fn spawn_thread(entry: u64, func: u64, size: usize, capability: Option<u64>) -> (call: Syscall)
    ensures
        call == spec_syscall(
            13,
            entry,
            func,
            size as u64,
            capability_register(capability),
            0,
            0,
            0,
        ),
{
    let cap: u64 = match capability {
        Some(addr) => addr,
        None => 0,
    };
    syscall(13, entry, func, size as u64, cap, 0, 0, 0)
}

/// Reads the answer to `spawn_thread`. Where no thread was started the
/// task has not changed hands: the caller still owns it and frees it.
pub fn spawn_thread_reply(word: u64) -> (pid: Option<Pid>)
    ensures
        pid == spec_spawn_reply(word),
{
    if word == u64::MAX {
        None
    } else {
        Some(Pid(word))
    }
}

/// The call that has hardware interrupt `id` delivered as messages on the
/// channel whose capability lies at address `capability`.
pub fn subscribe_to_interrupt(id: u32, capability: u64) -> (call: Syscall)
    ensures
        call == spec_syscall(14, id as u64, capability, 0, 0, 0, 0, 0),
{
    syscall(14, id as u64, capability, 0, 0, 0, 0, 0)
}

/// The call that maps `count` pages of chosen physical memory at address
/// `addr`, on the strength of the capability at address `capability`. The
/// kernel answers with the virtual address of the mapping in the first
/// result word and the physical address behind it in the second.
pub fn alloc_pages_physical(addr: u64, count: usize, perms: &[PagePermissions], capability: u64) -> (call:
    Syscall)
    ensures
        call == spec_syscall(15, addr, count as u64, raw_perms(perms@), capability, 0, 0, 0),
{
    syscall(15, addr, count as u64, array_to_raw_perms(perms), capability, 0, 0, 0)
}

/// Why a capability could not be handed to another process.
#[derive(Debug, Clone, Copy, PartialEq, Eq, Structural)]
pub enum TransferCapabilityError {
    ProcessDoesNotExist,
}

/// The call that moves the capability at address `cap` to process `pid`.
/// Once it succeeds the capability is no longer valid in the caller.
pub fn transfer_capability(cap: u64, pid: Pid) -> (call: Syscall)
    ensures
        call == spec_syscall(16, cap, pid.0, 0, 0, 0, 0, 0),
{
    syscall(16, cap, pid.0, 0, 0, 0, 0, 0)
}

/// Reads the status word of `transfer_capability`. The kernel answers 0 or
/// 1 and nothing else.
pub fn transfer_capability_reply(status: u64) -> (r: Result<(), TransferCapabilityError>)
    requires
        status <= 1,
    ensures
        r == (if status == 0 {
            Ok::<(), TransferCapabilityError>(())
        } else {
            Err(TransferCapabilityError::ProcessDoesNotExist)
        }),
{
    if status == 0 {
        Ok(())
    } else {
        Err(TransferCapabilityError::ProcessDoesNotExist)
    }
}

/// The call that makes a second reference to the object behind the
/// capability at address `source`. The kernel writes the new capability
/// to the 16 bytes at address `new`.
pub fn clone_capability(source: u64, new: u64) -> (call: Syscall)
    ensures
        call == spec_syscall(17, source, new, 0, 0, 0, 0, 0),
{
    syscall(17, source, new, 0, 0, 0, 0, 0)
}

/// The call that creates one kernel object and a capability for each of
/// its two ends. The kernel writes them to the 16 bytes at `first` and the
/// 16 bytes at `second`, which the caller has filled with the absent
/// capability.
pub fn create_capability(first: u64, second: u64) -> (call: Syscall)
    ensures
        call == spec_syscall(18, first, second, 0, 0, 0, 0, 0),
{
    syscall(18, first, second, 0, 0, 0, 0, 0)
}

} // verus!
