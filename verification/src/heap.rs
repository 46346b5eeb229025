//! The heap: free lists by size class, filled from bulk page grants.
//!
//! A request for at most 65536 bytes, aligned to at most 16, is served from
//! one of seven classes. Each class keeps a list of free slots that is
//! threaded through the slots themselves: a slot starts with a 16-byte
//! header, whose first word holds the address of the next free slot of the
//! class or zero, and the block that a caller gets lies behind the header.
//! Any other request gets whole pages from the kernel and gives them back
//! when it is freed.
//!
//! The allocator holds the heads of the lists. Link words and granted
//! pages are memory, which the caller lends by reference; calls into the
//! kernel are handed back to the caller to make.

use crate::syscalls::alloc_page;
use crate::syscalls::dealloc_page;
use crate::syscalls::page_count;
use crate::syscalls::pages_for;
use crate::syscalls::spec_dealloc_pages;
use crate::syscalls::spec_syscall;
use crate::syscalls::PagePermissions;
use crate::syscalls::Syscall;
use vstd::prelude::*;

pub mod model;

verus! {

/// Number of size classes.
pub const BUCKETS: usize = 7;

/// Bytes in front of every block: the link word, padded so that the block
/// keeps the alignment of its slot.
pub const HEADER: u64 = 16;

/// Strictest alignment that the free lists serve.
pub const MAX_ALIGN: usize = 16;

/// Largest size that the free lists serve.
pub const MAX_SIZE: usize = 65536;

/// Pages that one grant for a free list holds.
pub const GRANT_PAGES: usize = 65;

/// Bytes that one grant for a free list holds.
pub const GRANT_BYTES: u64 = 266240;

/// 64-bit words that one grant for a free list holds.
pub const GRANT_WORDS: usize = 33280;

/// The class that serves requests of `size` bytes: the first whose blocks
/// are large enough, or none above the largest.
pub open spec fn bucket_of(size: int) -> Option<int> {
    if size <= 16 {
        Some(0)
    } else if size <= 64 {
        Some(1)
    } else if size <= 256 {
        Some(2)
    } else if size <= 1024 {
        Some(3)
    } else if size <= 4096 {
        Some(4)
    } else if size <= 16384 {
        Some(5)
    } else if size <= 65536 {
        Some(6)
    } else {
        None
    }
}

/// Size in bytes of the blocks of a class: 16, 64, 256, 1024, 4096, 16384
/// and 65536.
pub open spec fn bucket_size(class: int) -> int {
    if class == 0 {
        16
    } else if class == 1 {
        64
    } else if class == 2 {
        256
    } else if class == 3 {
        1024
    } else if class == 4 {
        4096
    } else if class == 5 {
        16384
    } else {
        65536
    }
}

/// Size in bytes of the slots of a class: the header and the block.
pub open spec fn slot_size(class: int) -> int {
    HEADER + bucket_size(class)
}

/// Number of whole slots of a class in one grant.
pub open spec fn slots(class: int) -> int {
    GRANT_BYTES as int / slot_size(class)
}

/// Number of 64-bit words in a slot of a class.
pub open spec fn slot_words(class: int) -> int {
    slot_size(class) / 8
}

/// The link word of slot number `index` of a grant at `base`, once every
/// slot of the grant points to the one behind it and the last to nothing.
pub open spec fn chained_link(base: u64, class: int, index: int) -> u64 {
    if index + 1 < slots(class) {
        (base + (index + 1) * slot_size(class)) as u64
    } else {
        0
    }
}

/// The words of a grant at `base` of which the first `done` slots are
/// chained, each header holding its link and a zero word of padding.
pub open spec fn chained(region: Seq<u64>, base: u64, class: int, done: int) -> Seq<u64> {
    Seq::new(
        region.len(),
        |w: int|
            {
                let index = w / slot_words(class);
                let word = w % slot_words(class);
                if index < done && word == 0 {
                    chained_link(base, class, index)
                } else if index < done && word == 1 {
                    0
                } else {
                    region[w]
                }
            },
    )
}

/// The words of a grant at `base` after `refill`: the grant is cut into
/// whole slots from its start, all slots are chained, and the first is
/// taken off the chain, its link cleared. Words outside the headers keep
/// what they held.
pub open spec fn carved(region: Seq<u64>, base: u64, class: int) -> Seq<u64> {
    chained(region, base, class, slots(class)).update(0, 0)
}

/// Whether a request bypasses the free lists.
pub open spec fn is_direct(size: int, align: int) -> bool {
    size > MAX_SIZE || align > MAX_ALIGN
}

/// The heads of the seven free lists, each the address of the first free
/// slot of its class, or zero where the class has none.
#[derive(Debug)]
pub struct Allocator {
    pub free_buckets: [u64; 7],
}

impl View for Allocator {
    type V = Seq<u64>;

    /// The seven heads, by class.
    open spec fn view(&self) -> Seq<u64> {
        self.free_buckets@
    }
}

/// The number of the class that serves `size` bytes, if one does.
pub fn size_to_bucket(size: usize) -> (class: Option<usize>)
    ensures
        class is Some == bucket_of(size as int) is Some,
        class matches Some(c) ==> bucket_of(size as int) == Some(c as int) && c < BUCKETS,
{
    if size <= 16 {
        Some(0)
    } else if size <= 64 {
        Some(1)
    } else if size <= 256 {
        Some(2)
    } else if size <= 1024 {
        Some(3)
    } else if size <= 4096 {
        Some(4)
    } else if size <= 16384 {
        Some(5)
    } else if size <= 65536 {
        Some(6)
    } else {
        None
    }
}

/// The block size of the class that serves `size` bytes.
pub fn size_to_bucket_size(size: usize) -> (bytes: usize)
    requires
        size <= MAX_SIZE,
    ensures
        bucket_of(size as int) matches Some(c) && bytes == bucket_size(c),
        size <= bytes,
{
    if size <= 16 {
        16
    } else if size <= 64 {
        64
    } else if size <= 256 {
        256
    } else if size <= 1024 {
        1024
    } else if size <= 4096 {
        4096
    } else if size <= 16384 {
        16384
    } else {
        65536
    }
}

/// The block size of a class.
fn class_size(class: usize) -> (bytes: u64)
    requires
        class < BUCKETS,
    ensures
        bytes == bucket_size(class as int),
{
    if class == 0 {
        16
    } else if class == 1 {
        64
    } else if class == 2 {
        256
    } else if class == 3 {
        1024
    } else if class == 4 {
        4096
    } else if class == 5 {
        16384
    } else {
        65536
    }
}

/// The call that asks the kernel for `count` pages to read and write.
pub open spec fn spec_grant(count: int) -> Syscall {
    spec_syscall(1, count as u64, 6, 0, 0, 0, 0, 0)
}

/// The call that asks the kernel for `count` pages to read and write.
fn grant(count: usize) -> (call: Syscall)
    ensures
        call == spec_grant(count as int),
{
    let perms: [PagePermissions; 2] = [PagePermissions::Read, PagePermissions::Write];
    proof {
        assert(perms@[0] == PagePermissions::Read);
        assert(perms@[1] == PagePermissions::Write);
        assert(perms@.contains(PagePermissions::Read));
        assert(perms@.contains(PagePermissions::Write));
        assert(!perms@.contains(PagePermissions::Execute));
    }
    alloc_page(count, perms.as_slice())
}

/// What an allocation needs next.
#[derive(Debug, Clone, Copy, PartialEq, Eq, Structural)]
pub enum Allocate {
    /// The list of `class` starts with `slot`: `take` it, lending the
    /// link word at that address.
    Take { class: usize, slot: u64 },
    /// The list of `class` is empty: make `call` and, if the kernel has
    /// pages to give, `refill` the list from them. If it has none, the
    /// allocation fails.
    Grow { class: usize, call: Syscall },
    /// The request bypasses the lists: make `call`. The pages it yields
    /// are the block, and if it yields none the allocation fails.
    Pages { call: Syscall },
}

/// What a release needs next.
#[derive(Debug, Clone, Copy, PartialEq, Eq, Structural)]
pub enum Release {
    /// The block goes back to the list of `class`: `give` the slot at
    /// `slot`, lending the link word at that address.
    Give { class: usize, slot: u64 },
    /// The block was whole pages: make `call` to return them.
    Pages { call: Syscall },
}

impl Allocator {
    /// An allocator whose lists are all empty.
    pub fn new_const() -> (allocator: Allocator)
        ensures
            allocator@ == Seq::new(7, |i: int| 0u64),
    {
        Allocator { free_buckets: [0, 0, 0, 0, 0, 0, 0] }
    }

    /// What `allocate` decides, given the heads of the lists.
    pub open spec fn spec_allocate(heads: Seq<u64>, size: int, align: int) -> Allocate {
        if is_direct(size, align) {
            Allocate::Pages { call: spec_grant(pages_for(size)) }
        } else {
            let class = bucket_of(size)->0;
            if heads[class] != 0 {
                Allocate::Take { class: class as usize, slot: heads[class] }
            } else {
                Allocate::Grow { class: class as usize, call: spec_grant(GRANT_PAGES as int) }
            }
        }
    }

    /// Decides how a request for `size` bytes aligned to `align` is
    /// served. A size above 65536 or an alignment above 16 gets whole
    /// pages, as many as hold `size` bytes. Any other request goes to the
    /// list of its class, whose blocks are at least `size` bytes long: it
    /// takes the first slot if there is one and asks for a grant of 65
    /// pages if there is none.
    pub fn allocate(&self, size: usize, align: usize) -> (next: Allocate)
        ensures
            next == Self::spec_allocate(self@, size as int, align as int),
            next matches Allocate::Take { class, slot } ==> class < BUCKETS && size <= bucket_size(
                class as int,
            ),
            next matches Allocate::Grow { class, call } ==> class < BUCKETS && size <= bucket_size(
                class as int,
            ),
    {
        if align > MAX_ALIGN {
            return Allocate::Pages { call: grant(page_count(size as u64) as usize) };
        }
        match size_to_bucket(size) {
            Some(class) => {
                let slot: u64 = self.free_buckets[class];
                if slot != 0 {
                    Allocate::Take { class, slot }
                } else {
                    Allocate::Grow { class, call: grant(GRANT_PAGES) }
                }
            },
            None => Allocate::Pages { call: grant(page_count(size as u64) as usize) },
        }
    }

    /// What `take` leaves behind, given the heads and the link word of
    /// the first slot of `class`: the heads, of which that of `class` is
    /// now what the link word held; the link word, now zero; and the
    /// address of the block, which lies behind the header of the slot.
    pub open spec fn spec_take(heads: Seq<u64>, class: int, link: u64) -> (Seq<u64>, u64, u64) {
        (heads.update(class, link), 0, (heads[class] + HEADER) as u64)
    }

    /// Takes the first slot off the list of `class`. `link` is the first
    /// word of that slot. The list now starts where the link word pointed,
    /// the link word is cleared, and the block, whose address is the
    /// result, lies behind the header of the slot.
    pub fn take(&mut self, class: usize, link: &mut u64) -> (block: u64)
        requires
            class < BUCKETS,
            old(self)@[class as int] != 0,
            old(self)@[class as int] + HEADER <= u64::MAX,
        ensures
            (final(self)@, *final(link), block) == Self::spec_take(
                old(self)@,
                class as int,
                *old(link),
            ),
    {
        let slot: u64 = self.free_buckets[class];
        self.free_buckets[class] = *link;
        *link = 0;
        slot + HEADER
    }

    /// What `release` decides.
    pub open spec fn spec_release(ptr: u64, size: int, align: int) -> Release {
        if is_direct(size, align) {
            Release::Pages { call: spec_dealloc_pages(ptr, pages_for(size) as u64) }
        } else {
            Release::Give { class: bucket_of(size)->0 as usize, slot: (ptr - HEADER) as u64 }
        }
    }

    /// Decides how the block at `ptr` is released, which was allocated
    /// with `size` and `align`. A block from a list goes back to the list
    /// of its class; pages go back to the kernel.
    pub fn release(&self, ptr: u64, size: usize, align: usize) -> (next: Release)
        requires
            !is_direct(size as int, align as int) ==> ptr >= HEADER,
        ensures
            next == Self::spec_release(ptr, size as int, align as int),
    {
        if align > MAX_ALIGN {
            return Release::Pages { call: dealloc_page(ptr, page_count(size as u64) as usize) };
        }
        match size_to_bucket(size) {
            Some(class) => Release::Give { class, slot: ptr - HEADER },
            None => Release::Pages { call: dealloc_page(ptr, page_count(size as u64) as usize) },
        }
    }

    /// What `give` leaves behind, given the heads: the heads, of which
    /// that of `class` is now `slot`; and the link word of the slot, which
    /// now holds what was the head of `class`.
    pub open spec fn spec_give(heads: Seq<u64>, class: int, slot: u64) -> (Seq<u64>, u64) {
        (heads.update(class, slot), heads[class])
    }

    /// Puts the slot at address `slot` in front of the list of `class`.
    /// `link` is the first word of that slot: it now points to what was
    /// the first slot of the class, and the list starts with `slot`.
    pub fn give(&mut self, class: usize, slot: u64, link: &mut u64)
        requires
            class < BUCKETS,
        ensures
            (final(self)@, *final(link)) == Self::spec_give(old(self)@, class as int, slot),
    {
        *link = self.free_buckets[class];
        self.free_buckets[class] = slot;
    }

    /// What `refill` leaves behind, given the heads and the words of the
    /// grant at `base`: the heads, of which that of `class` is now the
    /// grant's second slot; the words of the grant, carved; and the
    /// address of the block in the grant's first slot.
    pub open spec fn spec_refill(heads: Seq<u64>, class: int, base: u64, region: Seq<u64>) -> (
        Seq<u64>,
        Seq<u64>,
        u64,
    ) {
        (
            heads.update(class, (base + slot_size(class)) as u64),
            carved(region, base, class),
            (base + HEADER) as u64,
        )
    }

    /// Fills the empty list of `class` from a grant of 65 pages at address
    /// `base`, whose words are `region`, and takes the first slot for the
    /// request that asked for the grant. The grant is cut from its start
    /// into as many whole slots as fit. The result is the address of the
    /// block in the first slot; the list starts with the second.
    pub fn refill(&mut self, class: usize, base: u64, region: &mut [u64]) -> (block: u64)
        requires
            class < BUCKETS,
            old(self)@[class as int] == 0,
            old(region)@.len() == GRANT_WORDS,
            base + GRANT_BYTES <= u64::MAX,
        ensures
            (final(self)@, final(region)@, block) == Self::spec_refill(
                old(self)@,
                class as int,
                base,
                old(region)@,
            ),
    {
        let step: u64 = HEADER + class_size(class);
        let count: u64 = GRANT_BYTES / step;
        let words: usize = (step / 8) as usize;
        let ghost before = region@;
        let ghost cl = class as int;
        proof {
            assert(step == slot_size(cl) && count == slots(cl) && words == slot_words(cl));
            assert(count * step <= GRANT_BYTES && count * words <= GRANT_WORDS && 2 <= count
                && 4 <= words && step == 8 * words) by {
                lemma_slot_layout(cl);
            }
        }
        let mut i: u64 = 0;
        let mut at: usize = 0;
        let mut addr: u64 = base;
        while i < count
            invariant
                cl == class as int,
                class < BUCKETS,
                step == slot_size(cl),
                count == slots(cl),
                words == slot_words(cl),
                count * step <= GRANT_BYTES,
                count * words <= GRANT_WORDS,
                4 <= words,
                base + GRANT_BYTES <= u64::MAX,
                i <= count,
                at == i * words,
                addr == base + i * step,
                before.len() == GRANT_WORDS,
                region@ == chained(before, base, cl, i as int),
            decreases count - i,
        {
            proof {
                assert((i + 1) * words == i * words + words && (i + 1) * step == i * step + step)
                    by (nonlinear_arith);
                assert((i + 1) * words <= count * words && (i + 1) * step <= count * step)
                    by (nonlinear_arith)
                    requires
                        i + 1 <= count,
                        0 <= words,
                        0 <= step,
                ;
            }
            let next: u64 = if i + 1 < count {
                addr + step
            } else {
                0
            };
            region[at] = next;
            region[at + 1] = 0;
            proof {
                let target = chained(before, base, cl, i + 1);
                assert forall|w: int| 0 <= w < region@.len() implies region@[w] == target[w] by {
                    let q = w / (words as int);
                    let r = w % (words as int);
                    vstd::arithmetic::div_mod::lemma_fundamental_div_mod(w, words as int);
                    if at <= w < at + words {
                        vstd::arithmetic::div_mod::lemma_fundamental_div_mod_converse(
                            w,
                            words as int,
                            i as int,
                            w - at,
                        );
                    } else if w < at {
                        assert(q < i) by (nonlinear_arith)
                            requires
                                w == words * q + r,
                                0 <= r,
                                w < i * words,
                                0 < words,
                        ;
                    } else {
                        assert(q > i) by (nonlinear_arith)
                            requires
                                w == words * q + r,
                                r < words,
                                w >= i * words + words,
                                0 < words,
                        ;
                    }
                }
                assert(region@ =~= target);
            }
            i += 1;
            at += words;
            addr += step;
        }
        proof {
            vstd::arithmetic::div_mod::lemma_fundamental_div_mod_converse(0, words as int, 0, 0);
            assert(1 * step == step) by (nonlinear_arith);
        }
        self.free_buckets[class] = region[0];
        region[0] = 0;
        base + HEADER
    }
}

/// How the slots of a class lie in a grant: they fit, there are at least
/// two of them, and each is a whole number of words.
pub proof fn lemma_slot_layout(class: int)
    requires
        0 <= class < BUCKETS,
    ensures
        slots(class) * slot_size(class) <= GRANT_BYTES,
        slots(class) * slot_words(class) <= GRANT_WORDS,
        slot_size(class) == 8 * slot_words(class),
        2 <= slots(class),
        4 <= slot_words(class),
        slots(class) == (if class == 0 {
            8320int
        } else if class == 1 {
            3328
        } else if class == 2 {
            978
        } else if class == 3 {
            256
        } else if class == 4 {
            64
        } else if class == 5 {
            16
        } else {
            4
        }),
{
    let n = slots(class);
    let bytes = slot_size(class);
    let words = slot_words(class);
    if class == 0 {
        assert(bytes == 32 && 266240int / 32 == 8320);
    } else if class == 1 {
        assert(bytes == 80 && 266240int / 80 == 3328);
    } else if class == 2 {
        assert(bytes == 272 && 266240int / 272 == 978);
    } else if class == 3 {
        assert(bytes == 1040 && 266240int / 1040 == 256);
    } else if class == 4 {
        assert(bytes == 4112 && 266240int / 4112 == 64);
    } else if class == 5 {
        assert(bytes == 16400 && 266240int / 16400 == 16);
    } else {
        assert(bytes == 65552 && 266240int / 65552 == 4);
    }
    assert(n * bytes <= GRANT_BYTES && n * words <= GRANT_WORDS) by (nonlinear_arith)
        requires
            (n == 8320 && bytes == 32 && words == 4) || (n == 3328 && bytes == 80 && words == 10)
                || (n == 978 && bytes == 272 && words == 34) || (n == 256 && bytes == 1040
                && words == 130) || (n == 64 && bytes == 4112 && words == 514) || (n == 16
                && bytes == 16400 && words == 2050) || (n == 4 && bytes == 65552 && words
                == 8194),
    ;
}

} // verus!
