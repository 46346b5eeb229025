//! Mutual exclusion over one byte of state: 0 when the lock is free, 1
//! when it is held.
//!
//! A thread acquires the lock by changing the byte from 0 to 1 in one
//! atomic step. It tries that a bounded number of times, telling the
//! processor between attempts that it is spinning, and then asks the
//! kernel to suspend it on the byte until another thread wakes waiters
//! there; after that it starts over. Releasing stores 0 and wakes nobody:
//! a thread that relies on waiters being woken makes the wake call itself.

use crate::syscalls::lock;
use crate::syscalls::LockType;
use crate::syscalls::Syscall;
use core::sync::atomic::AtomicU8;
use core::sync::atomic::Ordering;
use vstd::prelude::*;

verus! {

/// Attempts that a thread makes before it asks the kernel to suspend it.
pub const SPINS: u8 = 64;

/// The state byte of a free lock.
pub const UNLOCKED: u8 = 0;

/// The state byte of a held lock.
pub const LOCKED: u8 = 1;

/// What a thread that wants the lock does after an attempt.
#[derive(Debug, Clone, Copy, PartialEq, Eq, Structural)]
pub enum Attempt {
    /// The attempt changed the byte: the thread holds the lock.
    Acquired,
    /// Hint the processor that the thread spins, and try again.
    Spin,
    /// Hint the processor, wait in the kernel on the state byte, and try
    /// again with a fresh count of attempts.
    Wait,
}

/// The attempts of one thread at one lock, counted since it started or
/// last waited in the kernel.
#[derive(Debug, Clone, Copy, PartialEq, Eq, Structural)]
pub struct Acquire {
    pub failed: u8,
}

impl Acquire {
    /// The count after an attempt and what the thread does next: a
    /// failure short of the 64th means spinning on, the 64th means
    /// waiting, and the count starts over.
    pub open spec fn spec_step(self, won: bool) -> (Acquire, Attempt) {
        if won {
            (Acquire { failed: 0 }, Attempt::Acquired)
        } else if self.failed + 1 < SPINS {
            (Acquire { failed: (self.failed + 1) as u8 }, Attempt::Spin)
        } else {
            (Acquire { failed: 0 }, Attempt::Wait)
        }
    }

    /// A thread that has not tried yet.
    pub fn new() -> (acquire: Acquire)
        ensures
            acquire.failed == 0,
    {
        Acquire { failed: 0 }
    }

    /// Records the outcome of an attempt, `won` saying whether it changed
    /// the state byte from 0 to 1, and decides what the thread does next.
    pub fn step(&mut self, won: bool) -> (next: Attempt)
        ensures
            (*final(self), next) == old(self).spec_step(won),
    {
        if won {
            self.failed = 0;
            Attempt::Acquired
        } else if self.failed < SPINS - 1 {
            self.failed = self.failed + 1;
            Attempt::Spin
        } else {
            self.failed = 0;
            Attempt::Wait
        }
    }
}

/// A thread that never wins waits in the kernel after exactly 64 failed
/// attempts, having spun after each of the 63 before, and then counts
/// from zero again.
pub proof fn lemma_waits_after_spins(failures: nat)
    requires
        failures < SPINS,
    ensures
        after_failures(failures).failed == failures,
        failures + 1 < SPINS ==> after_failures(failures).spec_step(false).1 == Attempt::Spin,
        failures + 1 == SPINS ==> after_failures(failures).spec_step(false) == (
            Acquire { failed: 0 },
            Attempt::Wait,
        ),
    decreases failures,
{
    if failures > 0 {
        lemma_waits_after_spins((failures - 1) as nat);
    }
}

/// The count of a thread that started fresh and failed `failures` times in
/// a row.
pub open spec fn after_failures(failures: nat) -> Acquire
    decreases failures,
{
    if failures == 0 {
        Acquire { failed: 0 }
    } else {
        after_failures((failures - 1) as nat).spec_step(false).0
    }
}

/// The lock: one state byte.
///
/// The value that the lock protects lives with whoever wraps the lock;
/// holding a `MutexGuard` is the right to use it.
pub struct Mutex {
    lock: AtomicU8,
}

/// Proof of holding a `Mutex`, from `Mutex::lock` until `unlock`.
#[must_use]
pub struct MutexGuard<'a> {
    data: &'a Mutex,
}

impl Mutex {
    /// The atomic in which the lock keeps its state byte.
    pub closed spec fn state(&self) -> AtomicU8 {
        self.lock
    }

    /// A free lock.
    pub fn new() -> Mutex {
        Mutex { lock: AtomicU8::new(UNLOCKED) }
    }

    /// The state byte, for taking its address.
    pub fn word(&self) -> (word: &AtomicU8)
        ensures
            *word == self.state(),
    {
        &self.lock
    }

    /// One round of acquiring the lock: up to 64 attempts to change the
    /// state byte from 0 to 1, with a spin hint after each that fails.
    /// The result is the guard if an attempt succeeded, and the guard is
    /// that of this lock. If none did, the caller makes the kernel call
    /// that `wait` gives and calls `lock` again.
    pub fn lock(&self) -> (guard: Option<MutexGuard<'_>>)
        ensures
            guard matches Some(held) ==> held.mutex() == *self,
    {
        let mut acquire = Acquire::new();
        loop
            invariant
                acquire.failed < SPINS,
            decreases SPINS - acquire.failed,
        {
            let won = self.lock.compare_exchange_weak(
                UNLOCKED,
                LOCKED,
                Ordering::Acquire,
                Ordering::Relaxed,
            ).is_ok();
            match acquire.step(won) {
                Attempt::Acquired => {
                    return Some(MutexGuard { data: self });
                },
                Attempt::Spin => {
                    core::hint::spin_loop();
                },
                Attempt::Wait => {
                    core::hint::spin_loop();
                    return None;
                },
            }
        }
    }
}

/// The kernel call of a thread that found the lock held 64 times in a
/// row: it suspends the thread on the state byte, which lies at address
/// `word`, until another thread wakes the waiters there.
pub fn wait(word: u64) -> (call: Syscall)
    ensures
        call == crate::syscalls::spec_syscall(12, word, 0, 0, 0, 0, 0, 0),
{
    lock(word, LockType::Wait, UNLOCKED)
}

impl<'a> MutexGuard<'a> {
    /// The lock that the guard holds.
    pub closed spec fn mutex(&self) -> Mutex {
        *self.data
    }

    /// Gives the lock up: the state byte is 0 again. No waiter is woken.
    pub fn unlock(self) {
        self.data.lock.store(UNLOCKED, Ordering::Release);
    }
}

/// `core::hint::spin_loop`: tells the processor that the thread is in a
/// busy-wait loop. It computes nothing, and nothing is claimed of it.
pub assume_specification[ core::hint::spin_loop ]();

/// One atomic step of a thread that shares a lock and a counter with
/// others. Each thread is known by a number.
pub enum Move {
    /// The thread tries to change the state byte from 0 to 1.
    Attempt(int),
    /// The thread reads the counter, if it holds the lock.
    Read(int),
    /// The thread writes back what it read, plus one, if it holds the
    /// lock and has read.
    Write(int),
    /// The thread gives the lock up, if it holds it.
    Unlock(int),
}

/// Threads that contend for one lock to add to one counter: the state
/// byte, who holds a guard, the counter, what each thread has read and not
/// yet written back, and how many additions were completed.
pub struct Race {
    pub word: u8,
    pub holders: Set<int>,
    pub counter: int,
    pub seen: Map<int, int>,
    pub updates: int,
}

impl Race {
    /// A free lock and a counter at zero.
    pub open spec fn start() -> Race {
        Race { word: UNLOCKED, holders: Set::empty(), counter: 0, seen: Map::empty(), updates: 0 }
    }

    /// The race after one step. An attempt changes the state byte only if
    /// it is 0, and then the thread holds a guard. Reading, writing and
    /// unlocking take a guard; without one they do nothing.
    pub open spec fn step(self, m: Move) -> Race {
        match m {
            Move::Attempt(t) => if self.word == UNLOCKED {
                Race { word: LOCKED, holders: self.holders.insert(t), ..self }
            } else {
                self
            },
            Move::Read(t) => if self.holders.contains(t) {
                Race { seen: self.seen.insert(t, self.counter), ..self }
            } else {
                self
            },
            Move::Write(t) => if self.holders.contains(t) && self.seen.dom().contains(t) {
                Race {
                    counter: self.seen[t] + 1,
                    seen: self.seen.remove(t),
                    updates: self.updates + 1,
                    ..self
                }
            } else {
                self
            },
            Move::Unlock(t) => if self.holders.contains(t) {
                Race {
                    word: UNLOCKED,
                    holders: self.holders.remove(t),
                    seen: self.seen.remove(t),
                    ..self
                }
            } else {
                self
            },
        }
    }

    /// The race after the steps of `moves`, in order.
    pub open spec fn run(moves: Seq<Move>) -> Race
        decreases moves.len(),
    {
        if moves.len() == 0 {
            Race::start()
        } else {
            Race::run(moves.drop_last()).step(moves.last())
        }
    }

    /// What holds at every moment of a race: the state byte is 0 or 1,
    /// no thread holds a guard while it is 0 and exactly one while it is
    /// 1, what a thread has read is still the counter, and the counter is
    /// the number of completed additions.
    pub open spec fn fair(self) -> bool {
        &&& self.word == UNLOCKED || self.word == LOCKED
        &&& self.word == UNLOCKED ==> self.holders == Set::<int>::empty()
        &&& self.word == LOCKED ==> exists|t: int| self.holders == set![t]
        &&& forall|t: int| #[trigger]
            self.seen.dom().contains(t) ==> self.holders.contains(t) && self.seen[t]
                == self.counter
        &&& self.counter == self.updates
    }
}

/// One step keeps a race fair.
pub proof fn lemma_step_fair(race: Race, m: Move)
    requires
        race.fair(),
    ensures
        race.step(m).fair(),
{
    let after = race.step(m);
    match m {
        Move::Attempt(t) => {
            if race.word == UNLOCKED {
                assert(after.holders =~= set![t]);
            }
        },
        Move::Read(t) => {},
        Move::Write(t) => {
            if race.holders.contains(t) && race.seen.dom().contains(t) {
                let holder = choose|h: int| race.holders == set![h];
                assert forall|u: int| #[trigger] after.seen.dom().contains(u) implies false by {
                    assert(race.seen.dom().contains(u));
                    assert(race.holders.contains(u));
                    assert(u == holder && t == holder);
                }
            }
        },
        Move::Unlock(t) => {
            if race.holders.contains(t) {
                let holder = choose|h: int| race.holders == set![h];
                assert(t == holder);
                assert(after.holders =~= Set::<int>::empty());
                assert forall|u: int| #[trigger] after.seen.dom().contains(u) implies false by {
                    assert(race.seen.dom().contains(u));
                    assert(race.holders.contains(u));
                }
            }
        },
    }
}

/// Mutual exclusion, and no lost update. However the steps of any number
/// of threads interleave, at no moment do two threads hold a guard, and
/// the counter equals the number of additions that were completed: with
/// N threads that each complete M additions it ends at N times M.
pub proof fn lemma_no_lost_update(moves: Seq<Move>)
    ensures
        Race::run(moves).fair(),
        Race::run(moves).counter == Race::run(moves).updates,
        forall|a: int, b: int|
            Race::run(moves).holders.contains(a) && Race::run(moves).holders.contains(b) ==> a
                == b,
    decreases moves.len(),
{
    if moves.len() > 0 {
        lemma_no_lost_update(moves.drop_last());
        lemma_step_fair(Race::run(moves.drop_last()), moves.last());
    }
    let race = Race::run(moves);
    if race.word == LOCKED {
        let holder = choose|h: int| race.holders == set![h];
        assert forall|a: int, b: int| race.holders.contains(a) && race.holders.contains(b) implies a
            == b by {
            assert(a == holder && b == holder);
        }
    }
}

} // verus!
