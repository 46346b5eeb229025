//! The filesystem daemon: which of its clients have announced a block
//! device, and what each message from a client asks for.
//!
//! A client first sends the signal 1 to announce that a capability
//! follows, and then the capability itself, as an `Integer` message with
//! the upper half in `metadata` and the lower half in `data`. For each
//! capability the daemon starts a worker that talks to the block device.

use crate::capability::join_halves;
use crate::capability::Capability;
use crate::fsd::Request;
use crate::syscalls::Message;
use crate::syscalls::MessageType;
use crate::syscalls::Pid;
use crate::syscalls::Syscall;
use crate::syscalls::TransferCapabilityError;
use vstd::prelude::*;

verus! {

/// The clients that have announced a capability and not sent it yet, by
/// process number, in a hash set of `hashbrown`.
#[verifier::external_body]
pub struct Announced {
    pids: hashbrown::HashSet<u64>,
}

/// The process numbers that a set holds.
pub uninterp spec fn announced(set: Announced) -> Set<u64>;

/// `hashbrown::HashSet::new`: a set that holds nothing.
#[verifier::external_body]
fn announced_new() -> (set: Announced)
    ensures
        announced(set) == Set::<u64>::empty(),
{
    Announced { pids: hashbrown::HashSet::new() }
}

/// `hashbrown::HashSet::contains`: whether the set holds the number of
/// `pid`.
#[verifier::external_body]
fn announced_contains(set: &Announced, pid: Pid) -> (found: bool)
    ensures
        found == announced(*set).contains(pid.0),
{
    set.pids.contains(&pid.0)
}

/// `hashbrown::HashSet::insert`: the set holds the number of `pid` and
/// what it held before; the result says whether the number is new.
#[verifier::external_body]
fn announced_insert(set: &mut Announced, pid: Pid) -> (added: bool)
    ensures
        announced(*final(set)) == announced(*old(set)).insert(pid.0),
        added == !announced(*old(set)).contains(pid.0),
{
    set.pids.insert(pid.0)
}

/// `hashbrown::HashSet::remove`: the set holds what it held before but
/// for the number of `pid`; the result says whether it held that number.
#[verifier::external_body]
fn announced_remove(set: &mut Announced, pid: Pid) -> (removed: bool)
    ensures
        announced(*final(set)) == announced(*old(set)).remove(pid.0),
        removed == announced(*old(set)).contains(pid.0),
{
    set.pids.remove(&pid.0)
}

/// What the daemon does about a message.
#[derive(Debug, Clone, Copy)]
pub enum Job {
    /// A client delivered the capability it had announced: start a worker
    /// for the block device behind `block` and transfer the capability to
    /// it, as `place` directs.
    Serve { block: Capability },
    /// A client that had announced a capability sent something else:
    /// report an invalid capability.
    InvalidCapability,
    /// The signal 0: the daemon is registered. Report it.
    Acquired,
    /// The signal 1: the sender has announced a capability. Nothing to
    /// do.
    Registered,
    /// A signal that means nothing to the daemon: report it.
    UnknownSignal { signal: u64 },
    /// Any other message from a client that has announced nothing.
    /// Nothing to do.
    Ignored,
}

/// The answer to one message: the page release that the caller makes
/// because the message was given up, and the job.
#[must_use]
#[derive(Debug, Clone, Copy)]
pub struct Handled {
    pub release: Option<Syscall>,
    pub job: Job,
}

/// The daemon's memory between messages.
pub struct Daemon {
    states: Announced,
}

impl Daemon {
    /// The clients that have announced a capability and not sent it yet.
    pub closed spec fn waiting(&self) -> Set<u64> {
        announced(self.states)
    }

    /// A daemon to which nothing has been announced.
    pub fn new() -> (daemon: Daemon)
        ensures
            daemon.waiting() == Set::<u64>::empty(),
    {
        Daemon { states: announced_new() }
    }

    /// The daemon's first request: a blocking send of the signal `(0, 1)`
    /// on the channel it was started with, to register with its creator.
    pub fn announce(channel: Capability) -> (request: Request)
        ensures
            request == (Request::Send {
                block: true,
                channel,
                type_: MessageType::Signal,
                data: 0,
                metadata: 1,
            }),
    {
        Request::Send { block: true, channel, type_: MessageType::Signal, data: 0, metadata: 1 }
    }

    /// The job that `message` asks for, given who has announced a
    /// capability.
    pub open spec fn spec_job(waiting: Set<u64>, message: Message) -> Job {
        if waiting.contains(message.pid.0) {
            if message.type_ == MessageType::Integer {
                Job::Serve { block: capability_in(message) }
            } else {
                Job::InvalidCapability
            }
        } else if message.type_ == MessageType::Signal {
            if message.data == 0 {
                Job::Acquired
            } else if message.data == 1 {
                Job::Registered
            } else {
                Job::UnknownSignal { signal: message.data }
            }
        } else {
            Job::Ignored
        }
    }

    /// Who has announced a capability once `message` is dealt with: the
    /// sender is struck off when it delivers, and entered when it
    /// announces.
    pub open spec fn spec_waiting(waiting: Set<u64>, message: Message) -> Set<u64> {
        match Self::spec_job(waiting, message) {
            Job::Serve { block } => waiting.remove(message.pid.0),
            Job::Registered => waiting.insert(message.pid.0),
            _ => waiting,
        }
    }

    /// Deals with one received message: decides the job, keeps track of
    /// who has announced a capability, and gives the message up.
    pub fn handle(&mut self, message: Message) -> (handled: Handled)
        ensures
            handled.job == Self::spec_job(old(self).waiting(), message),
            handled.release == message.owed(),
            final(self).waiting() == Self::spec_waiting(old(self).waiting(), message),
    {
        let job = if announced_contains(&self.states, message.pid) {
            if message.type_ == MessageType::Integer {
                let block = Capability::from_halves(message.metadata, message.data);
                announced_remove(&mut self.states, message.pid);
                Job::Serve { block }
            } else {
                Job::InvalidCapability
            }
        } else if message.type_ == MessageType::Signal {
            if message.data == 0 {
                Job::Acquired
            } else if message.data == 1 {
                announced_insert(&mut self.states, message.pid);
                Job::Registered
            } else {
                Job::UnknownSignal { signal: message.data }
            }
        } else {
            Job::Ignored
        };
        Handled { release: message.discard(), job }
    }
}

/// The capability that an `Integer` message carries: `metadata` is its
/// upper half and `data` its lower half.
pub open spec fn capability_in(message: Message) -> Capability {
    Capability::spec_new(join_halves(message.metadata, message.data))
}

/// What happened when the daemon tried to put a worker in place.
#[derive(Debug, Clone, Copy)]
pub enum Placing {
    /// The kernel was asked to start the worker, and this is the thread
    /// it started, if any.
    Spawned(Option<Pid>),
    /// The kernel was asked to transfer the capability to the worker, and
    /// this is how that went.
    Transferred(Result<(), TransferCapabilityError>),
}

/// What the daemon does next to put a worker in place.
#[derive(Debug, Clone, Copy, PartialEq, Eq, Structural)]
pub enum Place {
    /// Start a worker thread.
    Spawn,
    /// Transfer the capability to the worker that was started.
    Transfer { pid: Pid },
    /// The worker runs and has the capability.
    Placed,
}

/// Decides how placing a worker goes on. It begins with `Place::Spawn`.
/// A worker that was started is given the capability; if no worker was
/// started, or the transfer failed, the daemon starts another.
pub fn place(event: Placing) -> (next: Place)
    ensures
        next == (match event {
            Placing::Spawned(Some(pid)) => Place::Transfer { pid },
            Placing::Spawned(None) => Place::Spawn,
            Placing::Transferred(Ok(())) => Place::Placed,
            Placing::Transferred(Err(_)) => Place::Spawn,
        }),
{
    match event {
        Placing::Spawned(Some(pid)) => Place::Transfer { pid },
        Placing::Spawned(None) => Place::Spawn,
        Placing::Transferred(Ok(())) => Place::Placed,
        Placing::Transferred(Err(_)) => Place::Spawn,
    }
}

} // verus!
