//! The heap together with the memory it works on.
//!
//! The allocator is lent its link words one call at a time and never sees
//! memory as a whole. Here the two are put side by side: a `Heap` is the
//! heads of the lists and the word at every address, and each function of
//! the allocator becomes a step from one heap to the next, in which the
//! link it is lent is the word that memory holds at the slot's address.
//! What is proved of these steps holds of the allocator as long as its
//! caller lends it the right words and nobody else writes to free slots.

use crate::heap::Allocate;
use crate::heap::Allocator;
use crate::heap::BUCKETS;
use crate::heap::GRANT_BYTES;
use crate::heap::GRANT_WORDS;
use crate::heap::HEADER;
use crate::heap::Release;
use crate::heap::bucket_size;
use crate::heap::carved;
use crate::heap::chained_link;
use crate::heap::is_direct;
use crate::heap::lemma_slot_layout;
use crate::heap::slot_size;
use crate::heap::slot_words;
use crate::heap::slots;
use vstd::prelude::*;

verus! {

/// The heads of the free lists and the 64-bit word at each address.
pub struct Heap {
    pub heads: Seq<u64>,
    pub memory: Map<u64, u64>,
}

/// The words of the grant at `base`, as memory holds them.
pub open spec fn region(memory: Map<u64, u64>, base: u64) -> Seq<u64> {
    Seq::new(GRANT_WORDS as nat, |w: int| memory[(base + 8 * w) as u64])
}

/// Whether address `addr` is a word of the grant at `base`.
pub open spec fn in_region(base: u64, addr: u64) -> bool {
    base <= addr < base + 8 * GRANT_WORDS && (addr - base) % 8 == 0
}

/// Memory in which the words of the grant at `base` are `words` and
/// every other word is what it was.
pub open spec fn with_region(memory: Map<u64, u64>, base: u64, words: Seq<u64>) -> Map<u64, u64> {
    Map::new(
        |addr: u64| memory.dom().contains(addr) || in_region(base, addr),
        |addr: u64|
            if in_region(base, addr) {
                words[(addr - base) / 8]
            } else {
                memory[addr]
            },
    )
}

impl Heap {
    /// The heap after `Allocator::take` on the list of `class`, lent the
    /// first word of the list's first slot, and the block that it returns.
    pub open spec fn take(self, class: int) -> (Heap, u64) {
        let slot = self.heads[class];
        let (heads, link, block) = Allocator::spec_take(self.heads, class, self.memory[slot]);
        (Heap { heads, memory: self.memory.insert(slot, link) }, block)
    }

    /// The heap after `Allocator::give` of the slot at `slot` to the list
    /// of `class`, lent the first word of that slot.
    pub open spec fn give(self, class: int, slot: u64) -> Heap {
        let (heads, link) = Allocator::spec_give(self.heads, class, slot);
        Heap { heads, memory: self.memory.insert(slot, link) }
    }

    /// The heap after `Allocator::refill` of the list of `class` from a
    /// grant at `base`, lent the words of the grant, and the block that it
    /// returns.
    pub open spec fn refill(self, class: int, base: u64) -> (Heap, u64) {
        let (heads, words, block) = Allocator::spec_refill(
            self.heads,
            class,
            base,
            region(self.memory, base),
        );
        (Heap { heads, memory: with_region(self.memory, base, words) }, block)
    }

    /// One whole allocation of `size` bytes aligned to `align`: the heap
    /// after it and the block, if there is one. `pages` is what the
    /// kernel answers if it is asked for pages.
    pub open spec fn allocate(self, size: int, align: int, pages: Option<u64>) -> (Heap, Option<u64>) {
        match Allocator::spec_allocate(self.heads, size, align) {
            Allocate::Take { class, slot } => {
                let (heap, block) = self.take(class as int);
                (heap, Some(block))
            },
            Allocate::Grow { class, call } => match pages {
                Some(base) => {
                    let (heap, block) = self.refill(class as int, base);
                    (heap, Some(block))
                },
                None => (self, None),
            },
            Allocate::Pages { call } => (self, pages),
        }
    }

    /// One whole release of the block at `ptr`, which was allocated with
    /// `size` and `align`: the heap after it.
    pub open spec fn release(self, ptr: u64, size: int, align: int) -> Heap {
        match Allocator::spec_release(ptr, size, align) {
            Release::Give { class, slot } => self.give(class as int, slot),
            Release::Pages { call } => self,
        }
    }
}

/// Whether the heads are seven addresses that leave room for a header
/// behind them.
pub open spec fn heads_fit(heads: Seq<u64>) -> bool {
    &&& heads.len() == BUCKETS
    &&& forall|class: int| 0 <= class < BUCKETS ==> #[trigger] heads[class] + HEADER <= u64::MAX
}

/// Whether `pages` can be what the kernel answers a request for a grant:
/// nothing, or the address of a page, other than zero, with the grant
/// behind it.
pub open spec fn grant_fits(pages: Option<u64>) -> bool {
    pages matches Some(base) ==> base != 0 && base % 4096 == 0 && base + GRANT_BYTES <= u64::MAX
}

/// Allocating, releasing and allocating again comes back to the same
/// slot. If a request that goes to the lists gets a block, and that block
/// is released and the same request made again, then the second
/// allocation returns the same block without asking the kernel for
/// anything, and leaves heads and memory exactly as the first one did.
pub proof fn lemma_round_trip(
    heap: Heap,
    size: int,
    align: int,
    pages: Option<u64>,
    again: Option<u64>,
)
    requires
        0 <= size,
        0 <= align,
        !is_direct(size, align),
        heads_fit(heap.heads),
        grant_fits(pages),
        heap.allocate(size, align, pages).1 is Some,
    ensures
        ({
            let (first, block) = heap.allocate(size, align, pages);
            let released = first.release(block->0, size, align);
            let (second, block_again) = released.allocate(size, align, again);
            &&& Allocator::spec_allocate(released.heads, size, align) is Take
            &&& block_again == block
            &&& second.heads == first.heads
            &&& second.memory == first.memory
        }),
{
    let class = crate::heap::bucket_of(size)->0;
    let (first, block) = heap.allocate(size, align, pages);
    let slot = (block->0 - HEADER) as u64;
    let released = first.release(block->0, size, align);
    let (second, block_again) = released.allocate(size, align, again);
    assert(heap.heads[class] + HEADER <= u64::MAX);
    if heap.heads[class] != 0 {
        assert(slot == heap.heads[class]);
    } else {
        let base = pages->0;
        assert(slot == base);
        crate::heap::lemma_slot_layout(class);
        vstd::arithmetic::div_mod::lemma_fundamental_div_mod_converse(
            0,
            crate::heap::slot_words(class),
            0,
            0,
        );
        assert(in_region(base, base));
        assert(first.memory[base] == 0);
    }
    assert(first.memory.dom().contains(slot) && first.memory[slot] == 0);
    assert(released.heads[class] == slot);
    assert(second.heads =~= first.heads);
    assert(second.memory =~= first.memory);
}

/// A slot: the address of its header and its class.
pub struct Slot {
    pub addr: u64,
    pub class: int,
}

/// Whether two slots share no byte.
pub open spec fn apart(a: Slot, b: Slot) -> bool {
    a.addr + slot_size(a.class) <= b.addr || b.addr + slot_size(b.class) <= a.addr
}

/// Whether `list` is what the links in memory spell out from `head`: the
/// head is the first slot, each slot's link word is the next, the last
/// one's is zero, and no slot is at address zero.
pub open spec fn linked(memory: Map<u64, u64>, head: u64, list: Seq<u64>) -> bool {
    &&& head == (if list.len() > 0 {
        list[0]
    } else {
        0
    })
    &&& forall|i: int|
        0 <= i < list.len() ==> {
            &&& #[trigger] list[i] != 0
            &&& memory.dom().contains(list[i])
            &&& memory[list[i]] == (if i + 1 < list.len() {
                list[i + 1]
            } else {
                0
            })
        }
}

/// What the heap has cut out of its grants: the free slots of each class,
/// in the order of its list, and every slot, free or handed out.
pub struct Books {
    pub free: Seq<Seq<u64>>,
    pub owned: Set<Slot>,
}

impl Books {
    /// Whether the block in `slot` is handed out: the slot was cut from a
    /// grant and is on no list.
    pub open spec fn live(self, slot: Slot) -> bool {
        self.owned.contains(slot) && !self.free[slot.class].contains(slot.addr)
    }

    /// The books of a heap that has not been used.
    pub open spec fn empty() -> Books {
        Books { free: Seq::new(BUCKETS as nat, |class: int| Seq::<u64>::empty()), owned: Set::empty() }
    }

    /// The books after one whole allocation.
    pub open spec fn allocate(self, heads: Seq<u64>, size: int, align: int, pages: Option<u64>) -> Books {
        match Allocator::spec_allocate(heads, size, align) {
            Allocate::Take { class, slot } => self.take(class as int),
            Allocate::Grow { class, call } => match pages {
                Some(base) => self.refill(class as int, base),
                None => self,
            },
            Allocate::Pages { call } => self,
        }
    }

    /// The books after one whole release.
    pub open spec fn release(self, ptr: u64, size: int, align: int) -> Books {
        match Allocator::spec_release(ptr, size, align) {
            Release::Give { class, slot } => self.give(class as int, slot),
            Release::Pages { call } => self,
        }
    }

    /// The books after the first slot of `class` was taken.
    pub open spec fn take(self, class: int) -> Books {
        Books { free: self.free.update(class, self.free[class].drop_first()), owned: self.owned }
    }

    /// The books after the slot at `slot` was given to `class`.
    pub open spec fn give(self, class: int, slot: u64) -> Books {
        Books { free: self.free.update(class, seq![slot] + self.free[class]), owned: self.owned }
    }

    /// The books after `class` was refilled from a grant at `base`: the
    /// grant's slots are owned, and all but the first are free.
    pub open spec fn refill(self, class: int, base: u64) -> Books {
        Books {
            free: self.free.update(
                class,
                Seq::new(
                    (slots(class) - 1) as nat,
                    |k: int| (base + (k + 1) * slot_size(class)) as u64,
                ),
            ),
            owned: self.owned.union(
                Set::new(
                    |slot: Slot|
                        slot.class == class && exists|i: int|
                            0 <= i < slots(class) && slot.addr == base + #[trigger] (i * slot_size(
                                class,
                            )),
                ),
            ),
        }
    }
}

/// Whether the books are true of the heap: each list in memory spells
/// out the free slots of its class, no slot is on a list twice, and the
/// owned slots are apart from each other, start on a multiple of 16 and
/// lie in the address space.
pub open spec fn consistent(heap: Heap, books: Books) -> bool {
    &&& heap.heads.len() == BUCKETS
    &&& books.free.len() == BUCKETS
    &&& forall|class: int|
        0 <= class < BUCKETS ==> linked(heap.memory, heap.heads[class], #[trigger] books.free[class])
            && books.free[class].no_duplicates()
    &&& forall|class: int, i: int|
        0 <= class < BUCKETS && 0 <= i < books.free[class].len() ==> books.owned.contains(
            Slot { addr: #[trigger] books.free[class][i], class },
        )
    &&& forall|a: Slot, b: Slot|
        books.owned.contains(a) && books.owned.contains(b) && a != b ==> #[trigger] apart(a, b)
    &&& forall|a: Slot| #[trigger]
        books.owned.contains(a) ==> 0 <= a.class < BUCKETS && a.addr != 0 && a.addr % 16 == 0
            && a.addr + slot_size(a.class) <= u64::MAX
}

/// Whether the grant at `base` shares no byte with any owned slot.
pub open spec fn fresh(books: Books, base: u64) -> bool {
    forall|slot: Slot| #[trigger]
        books.owned.contains(slot) ==> slot.addr + slot_size(slot.class) <= base || base
            + GRANT_BYTES <= slot.addr
}

/// An unused heap has nothing on its lists and nothing handed out.
pub proof fn lemma_empty_consistent(memory: Map<u64, u64>)
    ensures
        consistent(Heap { heads: Seq::new(BUCKETS as nat, |class: int| 0u64), memory }, Books::empty()),
{
}

/// Blocks that are handed out at the same time share no byte.
pub proof fn lemma_live_blocks_apart(heap: Heap, books: Books, a: Slot, b: Slot)
    requires
        consistent(heap, books),
        books.live(a),
        books.live(b),
        a != b,
    ensures
        a.addr + HEADER + bucket_size(a.class) <= b.addr + HEADER || b.addr + HEADER + bucket_size(
            b.class,
        ) <= a.addr + HEADER,
{
    assert(apart(a, b));
}

/// Taking the first slot of a list hands out a block that was not handed
/// out before, and changes nothing else about what is handed out.
pub proof fn lemma_take(heap: Heap, books: Books, class: int)
    requires
        consistent(heap, books),
        0 <= class < BUCKETS,
        heap.heads[class] != 0,
    ensures
        ({
            let slot = Slot { addr: heap.heads[class], class };
            let (after, block) = heap.take(class);
            &&& consistent(after, books.take(class))
            &&& block == slot.addr + HEADER
            &&& !books.live(slot)
            &&& books.take(class).live(slot)
            &&& forall|other: Slot|
                other != slot ==> books.take(class).live(other) == books.live(other)
        }),
{
    let slot = Slot { addr: heap.heads[class], class };
    let (after, block) = heap.take(class);
    let list = books.free[class];
    let rest = list.drop_first();
    let next = books.take(class);
    assert(linked(heap.memory, heap.heads[class], list));
    assert(list.len() > 0 && list[0] == slot.addr);
    assert(books.owned.contains(slot));
    assert(list.contains(slot.addr));
    assert(!rest.contains(slot.addr)) by {
        if rest.contains(slot.addr) {
            let j = choose|j: int| 0 <= j < rest.len() && rest[j] == slot.addr;
            assert(list[j + 1] == list[0]);
        }
    }
    assert forall|c: int| 0 <= c < BUCKETS implies linked(
        after.memory,
        after.heads[c],
        #[trigger] next.free[c],
    ) && next.free[c].no_duplicates() by {
        let l = next.free[c];
        assert(linked(heap.memory, heap.heads[c], books.free[c]));
        assert(books.free[c].no_duplicates());
        if c == class {
            assert forall|i: int| 0 <= i < l.len() implies #[trigger] l[i] != 0
                && after.memory.dom().contains(l[i]) && after.memory[l[i]] == (if i + 1 < l.len() {
                l[i + 1]
            } else {
                0
            }) by {
                assert(l[i] == list[i + 1]);
                assert(list[i + 1] != list[0]);
            }
        } else {
            assert forall|i: int| 0 <= i < l.len() implies #[trigger] l[i] != 0
                && after.memory.dom().contains(l[i]) && after.memory[l[i]] == (if i + 1 < l.len() {
                l[i + 1]
            } else {
                0
            }) by {
                let other = Slot { addr: books.free[c][i], class: c };
                assert(books.owned.contains(other));
                assert(apart(other, slot));
            }
        }
    }
    assert forall|c: int, i: int|
        0 <= c < BUCKETS && 0 <= i < next.free[c].len() implies next.owned.contains(
        Slot { addr: #[trigger] next.free[c][i], class: c },
    ) by {
        if c == class {
            assert(next.free[c][i] == list[i + 1]);
        }
    }
    assert forall|other: Slot| other != slot implies next.live(other) == books.live(other) by {
        if other.class == class {
            if list.contains(other.addr) {
                let j = choose|j: int| 0 <= j < list.len() && list[j] == other.addr;
                assert(j != 0);
                assert(rest[j - 1] == other.addr);
            }
            if rest.contains(other.addr) {
                let j = choose|j: int| 0 <= j < rest.len() && rest[j] == other.addr;
                assert(list[j + 1] == other.addr);
            }
        }
    }
}

/// Giving a handed-out block back to its list takes it out of what is
/// handed out, and changes nothing else about that.
pub proof fn lemma_give(heap: Heap, books: Books, slot: Slot)
    requires
        consistent(heap, books),
        books.live(slot),
    ensures
        ({
            let after = heap.give(slot.class, slot.addr);
            &&& consistent(after, books.give(slot.class, slot.addr))
            &&& !books.give(slot.class, slot.addr).live(slot)
            &&& forall|other: Slot|
                other != slot ==> books.give(slot.class, slot.addr).live(other) == books.live(
                    other,
                )
        }),
{
    let class = slot.class;
    let after = heap.give(class, slot.addr);
    let list = books.free[class];
    let next = books.give(class, slot.addr);
    let longer = seq![slot.addr] + list;
    assert(next.free[class] == longer);
    assert(longer[0] == slot.addr);
    assert(longer.contains(slot.addr));
    assert forall|c: int| 0 <= c < BUCKETS implies linked(
        after.memory,
        after.heads[c],
        #[trigger] next.free[c],
    ) && next.free[c].no_duplicates() by {
        let l = next.free[c];
        assert(linked(heap.memory, heap.heads[c], books.free[c]));
        assert(books.free[c].no_duplicates());
        if c == class {
            assert forall|i: int| 0 <= i < l.len() implies #[trigger] l[i] != 0
                && after.memory.dom().contains(l[i]) && after.memory[l[i]] == (if i + 1 < l.len() {
                l[i + 1]
            } else {
                0
            }) by {
                if i > 0 {
                    assert(l[i] == list[i - 1]);
                    assert(list.contains(list[i - 1]));
                    if i + 1 < l.len() {
                        assert(l[i + 1] == list[i]);
                    }
                } else {
                    if 1 < l.len() {
                        assert(l[1] == list[0]);
                    }
                }
            }
            assert forall|i: int, j: int| 0 <= i < l.len() && 0 <= j < l.len() && i != j implies l[i]
                != l[j] by {
                if i > 0 {
                    assert(l[i] == list[i - 1]);
                    assert(list.contains(list[i - 1]));
                }
                if j > 0 {
                    assert(l[j] == list[j - 1]);
                    assert(list.contains(list[j - 1]));
                }
            }
        } else {
            assert forall|i: int| 0 <= i < l.len() implies #[trigger] l[i] != 0
                && after.memory.dom().contains(l[i]) && after.memory[l[i]] == (if i + 1 < l.len() {
                l[i + 1]
            } else {
                0
            }) by {
                let other = Slot { addr: books.free[c][i], class: c };
                assert(books.owned.contains(other));
                assert(apart(other, slot));
            }
        }
    }
    assert forall|c: int, i: int|
        0 <= c < BUCKETS && 0 <= i < next.free[c].len() implies next.owned.contains(
        Slot { addr: #[trigger] next.free[c][i], class: c },
    ) by {
        if c == class {
            if i > 0 {
                assert(next.free[c][i] == list[i - 1]);
            }
        }
    }
    assert forall|other: Slot| other != slot implies next.live(other) == books.live(other) by {
        if other.class == class {
            if list.contains(other.addr) {
                let j = choose|j: int| 0 <= j < list.len() && list[j] == other.addr;
                assert(longer[j + 1] == other.addr);
            }
            if longer.contains(other.addr) {
                let j = choose|j: int| 0 <= j < longer.len() && longer[j] == other.addr;
                assert(j != 0);
                assert(list[j - 1] == other.addr);
            }
        }
    }
}

/// Where slot number `i` of a grant lies: inside the grant, on a word
/// boundary, at word `i` times the words of a slot.
proof fn lemma_slot_offset(class: int, i: int)
    requires
        0 <= class < BUCKETS,
        0 <= i < slots(class),
    ensures
        0 <= i * slot_size(class),
        i * slot_size(class) + slot_size(class) <= GRANT_BYTES,
        i * slot_size(class) == 8 * (i * slot_words(class)),
        (i * slot_size(class)) % 8 == 0,
        (i * slot_size(class)) / 8 == i * slot_words(class),
        0 <= i * slot_words(class) < GRANT_WORDS,
        (i * slot_words(class)) / slot_words(class) == i,
        (i * slot_words(class)) % slot_words(class) == 0,
        i == 0 <==> i * slot_words(class) == 0,
{
    lemma_slot_layout(class);
    let step = slot_size(class);
    let words = slot_words(class);
    let n = slots(class);
    assert(0 <= i * step && i * step + step <= n * step && i * step == 8 * (i * words) && 0 <= i
        * words && i * words + words <= n * words && (i == 0 <==> i * words == 0))
        by (nonlinear_arith)
        requires
            0 <= i < n,
            step == 8 * words,
            4 <= words,
    ;
    vstd::arithmetic::div_mod::lemma_fundamental_div_mod_converse(i * step, 8, i * words, 0);
    vstd::arithmetic::div_mod::lemma_fundamental_div_mod_converse(i * words, words, i, 0);
}

/// The link word that memory holds at slot number `i` of a grant once a
/// list was refilled from it.
proof fn lemma_refilled_link(heap: Heap, class: int, base: u64, i: int)
    requires
        0 <= class < BUCKETS,
        0 <= i < slots(class),
        base + GRANT_BYTES <= u64::MAX,
    ensures
        ({
            let addr = (base + i * slot_size(class)) as u64;
            let after = heap.refill(class, base).0;
            &&& addr == base + i * slot_size(class)
            &&& in_region(base, addr)
            &&& after.memory.dom().contains(addr)
            &&& after.memory[addr] == (if i == 0 {
                0
            } else {
                chained_link(base, class, i)
            })
        }),
{
    lemma_slot_offset(class, i);
    let addr = (base + i * slot_size(class)) as u64;
    let w = i * slot_words(class);
    assert((addr - base) / 8 == w);
    let before = region(heap.memory, base);
    let cut = carved(before, base, class);
    assert(heap.refill(class, base).0.memory[addr] == cut[w]);
}

/// The list of a refilled class: its entries are the grant's slots from
/// the second on.
proof fn lemma_refilled_list(books: Books, class: int, base: u64)
    requires
        books.free.len() == BUCKETS,
        0 <= class < BUCKETS,
        base + GRANT_BYTES <= u64::MAX,
    ensures
        ({
            let list = books.refill(class, base).free[class];
            &&& list.len() == slots(class) - 1
            &&& list.len() >= 1
            &&& forall|k: int|
                0 <= k < list.len() ==> #[trigger] list[k] == base + (k + 1) * slot_size(class)
                    && base < list[k] && list[k] + slot_size(class) <= base + GRANT_BYTES
        }),
{
    lemma_slot_layout(class);
    let step = slot_size(class);
    let list = books.refill(class, base).free[class];
    assert forall|k: int| 0 <= k < list.len() implies #[trigger] list[k] == base + (k + 1) * step
        && base < list[k] && list[k] + step <= base + GRANT_BYTES by {
        lemma_slot_offset(class, k + 1);
        assert((k + 1) * step >= step) by (nonlinear_arith)
            requires
                k >= 0,
                step >= 0,
        ;
    }
}

/// A word outside a grant is the same before and after a refill from it.
proof fn lemma_refill_frame(heap: Heap, class: int, base: u64, addr: u64)
    requires
        !in_region(base, addr),
        heap.memory.dom().contains(addr),
    ensures
        heap.refill(class, base).0.memory.dom().contains(addr),
        heap.refill(class, base).0.memory[addr] == heap.memory[addr],
{
}

/// A slot that shares no byte with a grant does not start on one of its
/// words.
proof fn lemma_outside(slot: Slot, base: u64)
    requires
        0 <= slot.class < BUCKETS,
        slot.addr + slot_size(slot.class) <= base || base + GRANT_BYTES <= slot.addr,
    ensures
        !in_region(base, slot.addr),
{
}

/// After a refill every list is still spelled out by memory.
proof fn lemma_refill_linked(heap: Heap, books: Books, class: int, base: u64, c: int)
    requires
        consistent(heap, books),
        0 <= class < BUCKETS,
        0 <= c < BUCKETS,
        heap.heads[class] == 0,
        base != 0,
        base + GRANT_BYTES <= u64::MAX,
        fresh(books, base),
    ensures
        linked(
            heap.refill(class, base).0.memory,
            heap.refill(class, base).0.heads[c],
            books.refill(class, base).free[c],
        ),
        books.refill(class, base).free[c].no_duplicates(),
{
    let after = heap.refill(class, base).0;
    let next = books.refill(class, base);
    let step = slot_size(class);
    let l = next.free[c];
    lemma_slot_layout(class);
    assert(linked(heap.memory, heap.heads[c], books.free[c]));
    assert(books.free[c].no_duplicates());
    if c == class {
        lemma_refilled_list(books, class, base);
        assert(1 * step == step) by (nonlinear_arith);
        assert(l[0] == base + (0 + 1) * step);
        assert forall|i: int| 0 <= i < l.len() implies #[trigger] l[i] != 0
            && after.memory.dom().contains(l[i]) && after.memory[l[i]] == (if i + 1 < l.len() {
            l[i + 1]
        } else {
            0
        }) by {
            lemma_refilled_link(heap, class, base, i + 1);
            assert(l[i] == base + (i + 1) * step);
            if i + 1 < l.len() {
                assert(l[i + 1] == base + (i + 1 + 1) * step);
            }
        }
        assert forall|i: int, j: int| 0 <= i < l.len() && 0 <= j < l.len() && i != j implies l[i]
            != l[j] by {
            assert(l[i] == base + (i + 1) * step);
            assert(l[j] == base + (j + 1) * step);
            assert((i + 1) * step != (j + 1) * step) by (nonlinear_arith)
                requires
                    i != j,
                    step > 0,
            ;
        }
    } else {
        assert forall|i: int| 0 <= i < l.len() implies #[trigger] l[i] != 0
            && after.memory.dom().contains(l[i]) && after.memory[l[i]] == (if i + 1 < l.len() {
            l[i + 1]
        } else {
            0
        }) by {
            let other = Slot { addr: books.free[c][i], class: c };
            assert(books.owned.contains(other));
            lemma_outside(other, base);
            lemma_refill_frame(heap, class, base, other.addr);
        }
    }
}

/// What a slot is that a refill added to the books: a slot of the grant.
proof fn lemma_refill_added(books: Books, class: int, base: u64, a: Slot) -> (i: int)
    requires
        0 <= class < BUCKETS,
        base + GRANT_BYTES <= u64::MAX,
        books.refill(class, base).owned.contains(a),
        !books.owned.contains(a),
    ensures
        0 <= i < slots(class),
        a.class == class,
        a.addr == base + i * slot_size(class),
        base <= a.addr,
        a.addr + slot_size(class) <= base + GRANT_BYTES,
{
    let i = choose|i: int| 0 <= i < slots(class) && a.addr == base + #[trigger] (i * slot_size(class));
    lemma_slot_offset(class, i);
    i
}

/// After a refill the owned slots are still apart and in the address
/// space.
proof fn lemma_refill_owned(heap: Heap, books: Books, class: int, base: u64)
    requires
        consistent(heap, books),
        0 <= class < BUCKETS,
        base != 0,
        base % 16 == 0,
        base + GRANT_BYTES <= u64::MAX,
        fresh(books, base),
    ensures
        forall|a: Slot, b: Slot|
            books.refill(class, base).owned.contains(a) && books.refill(class, base).owned.contains(
                b,
            ) && a != b ==> #[trigger] apart(a, b),
        forall|a: Slot| #[trigger]
            books.refill(class, base).owned.contains(a) ==> 0 <= a.class < BUCKETS && a.addr != 0
                && a.addr % 16 == 0 && a.addr + slot_size(a.class) <= u64::MAX,
{
    let next = books.refill(class, base);
    let step = slot_size(class);
    lemma_slot_layout(class);
    assert forall|a: Slot| #[trigger] next.owned.contains(a) implies 0 <= a.class < BUCKETS
        && a.addr != 0 && a.addr % 16 == 0 && a.addr + slot_size(a.class) <= u64::MAX by {
        if !books.owned.contains(a) {
            let i = lemma_refill_added(books, class, base, a);
            let sixteenths = step / 16;
            assert(step == 16 * sixteenths);
            assert(i * step == 16 * (i * sixteenths)) by (nonlinear_arith)
                requires
                    step == 16 * sixteenths,
            ;
        }
    }
    assert forall|a: Slot, b: Slot|
        next.owned.contains(a) && next.owned.contains(b) && a != b implies #[trigger] apart(
        a,
        b,
    ) by {
        if books.owned.contains(a) && books.owned.contains(b) {
            assert(apart(a, b));
        } else if books.owned.contains(a) {
            lemma_refill_added(books, class, base, b);
        } else if books.owned.contains(b) {
            lemma_refill_added(books, class, base, a);
        } else {
            let i = lemma_refill_added(books, class, base, a);
            let j = lemma_refill_added(books, class, base, b);
            assert(i != j);
            assert(i * step + step <= j * step || j * step + step <= i * step)
                by (nonlinear_arith)
                requires
                    i != j,
                    step > 0,
            ;
        }
    }
}

/// After a refill every list entry is an owned slot.
proof fn lemma_refill_listed(heap: Heap, books: Books, class: int, base: u64)
    requires
        consistent(heap, books),
        0 <= class < BUCKETS,
        base + GRANT_BYTES <= u64::MAX,
    ensures
        forall|c: int, i: int|
            0 <= c < BUCKETS && 0 <= i < books.refill(class, base).free[c].len() ==> books.refill(
                class,
                base,
            ).owned.contains(Slot { addr: #[trigger] books.refill(class, base).free[c][i], class: c }),
{
    let next = books.refill(class, base);
    let step = slot_size(class);
    lemma_refilled_list(books, class, base);
    assert forall|c: int, i: int|
        0 <= c < BUCKETS && 0 <= i < next.free[c].len() implies next.owned.contains(
        Slot { addr: #[trigger] next.free[c][i], class: c },
    ) by {
        if c == class {
            assert(next.free[c][i] == base + (i + 1) * step);
            assert(0 <= i + 1 < slots(class));
        } else {
            assert(books.owned.contains(Slot { addr: books.free[c][i], class: c }));
        }
    }
}

/// Refilling an empty list from a grant that shares no byte with what
/// the heap owns hands out the block of the grant's first slot, which
/// was not handed out before, and changes nothing else about what is
/// handed out.
pub proof fn lemma_refill(heap: Heap, books: Books, class: int, base: u64)
    requires
        consistent(heap, books),
        0 <= class < BUCKETS,
        heap.heads[class] == 0,
        base != 0,
        base % 16 == 0,
        base + GRANT_BYTES <= u64::MAX,
        fresh(books, base),
    ensures
        ({
            let slot = Slot { addr: base, class };
            let (after, block) = heap.refill(class, base);
            &&& consistent(after, books.refill(class, base))
            &&& block == base + HEADER
            &&& !books.live(slot)
            &&& books.refill(class, base).live(slot)
            &&& forall|other: Slot|
                other != slot ==> books.refill(class, base).live(other) == books.live(other)
        }),
{
    let slot = Slot { addr: base, class };
    let (after, block) = heap.refill(class, base);
    let next = books.refill(class, base);
    let step = slot_size(class);
    let n = slots(class);
    let list = next.free[class];
    lemma_slot_layout(class);
    lemma_refilled_list(books, class, base);
    lemma_refill_owned(heap, books, class, base);
    lemma_refill_listed(heap, books, class, base);
    assert forall|c: int| 0 <= c < BUCKETS implies linked(
        after.memory,
        after.heads[c],
        #[trigger] next.free[c],
    ) && next.free[c].no_duplicates() by {
        lemma_refill_linked(heap, books, class, base, c);
    }
    assert(linked(heap.memory, heap.heads[class], books.free[class]));
    assert(books.free[class].len() == 0);
    assert(!books.owned.contains(slot)) by {
        if books.owned.contains(slot) {
            assert(slot.addr + slot_size(slot.class) <= base || base + GRANT_BYTES <= slot.addr);
        }
    }
    assert(next.live(slot)) by {
        assert(0 * step == 0) by (nonlinear_arith);
        assert(0 <= 0 < n && slot.addr == base + 0 * step);
        if list.contains(base) {
            let k = choose|k: int| 0 <= k < list.len() && list[k] == base;
            assert(base < list[k]);
        }
    }
    assert forall|other: Slot| other != slot implies next.live(other) == books.live(other) by {
        if books.owned.contains(other) {
            if other.class == class {
                if list.contains(other.addr) {
                    let k = choose|k: int| 0 <= k < list.len() && list[k] == other.addr;
                    assert(base < list[k] && list[k] + step <= base + GRANT_BYTES);
                    assert(other.addr + slot_size(other.class) <= base || base + GRANT_BYTES
                        <= other.addr);
                }
            }
        } else if next.owned.contains(other) {
            let i = lemma_refill_added(books, class, base, other);
            assert(i != 0) by {
                if i == 0 {
                    assert(0 * step == 0) by (nonlinear_arith);
                }
            }
            assert(list[i - 1] == base + (i - 1 + 1) * step);
        }
    }
}

/// The slot of a block that the lists serve for `size` bytes.
pub open spec fn slot_of(block: u64, size: int) -> Slot {
    Slot { addr: (block - HEADER) as u64, class: crate::heap::bucket_of(size)->0 }
}

/// An allocation from the lists never hands out memory that is handed
/// out already. As long as the kernel grants pages that share no byte
/// with what the heap owns, an allocation that succeeds returns the
/// block of a slot of the request's class that was not handed out,
/// leaves every other block as it was, handed out or not, and keeps the
/// books true. The block is at least as large as the request and starts
/// on a multiple of 16. An allocation that fails changes nothing.
pub proof fn lemma_allocate(
    heap: Heap,
    books: Books,
    size: int,
    align: int,
    pages: Option<u64>,
)
    requires
        consistent(heap, books),
        0 <= size,
        0 <= align,
        !is_direct(size, align),
        grant_fits(pages),
        pages matches Some(base) ==> fresh(books, base),
    ensures
        ({
            let (after, block) = heap.allocate(size, align, pages);
            let next = books.allocate(heap.heads, size, align, pages);
            &&& consistent(after, next)
            &&& block is None ==> after == heap && next == books
            &&& block matches Some(b) ==> {
                &&& b >= HEADER
                &&& b % 16 == 0
                &&& size <= bucket_size(slot_of(b, size).class)
                &&& b + bucket_size(slot_of(b, size).class) <= u64::MAX
                &&& !books.live(slot_of(b, size))
                &&& next.live(slot_of(b, size))
                &&& forall|other: Slot|
                    other != slot_of(b, size) ==> next.live(other) == books.live(other)
            }
        }),
{
    let class = crate::heap::bucket_of(size)->0;
    assert(linked(heap.memory, heap.heads[class], books.free[class]));
    if heap.heads[class] != 0 {
        let slot = Slot { addr: heap.heads[class], class };
        assert(books.free[class][0] == slot.addr);
        assert(books.owned.contains(slot));
        lemma_take(heap, books, class);
    } else if pages is Some {
        lemma_refill(heap, books, class, pages->0);
    }
}

/// Releasing a block that is handed out takes it, and nothing else, out
/// of what is handed out, and keeps the books true.
pub proof fn lemma_release(heap: Heap, books: Books, ptr: u64, size: int, align: int)
    requires
        consistent(heap, books),
        0 <= size,
        0 <= align,
        !is_direct(size, align),
        ptr >= HEADER,
        books.live(slot_of(ptr, size)),
    ensures
        ({
            let after = heap.release(ptr, size, align);
            let next = books.release(ptr, size, align);
            &&& consistent(after, next)
            &&& !next.live(slot_of(ptr, size))
            &&& forall|other: Slot|
                other != slot_of(ptr, size) ==> next.live(other) == books.live(other)
        }),
{
    lemma_give(heap, books, slot_of(ptr, size));
}

} // verus!
