//! Reference-counted cells and the tagged handles that own references to
//! them.
//!
//! Cells live in an `ArcHeap`; the cell at index `i` has the address
//! `2 * i + 2`, which is never null and always has bit 0 free for the mark.
//! A handle (`AtomicMarkableArc`) is a packed word naming a cell, or null,
//! together with a mark, and owns one reference to its cell. Every operation
//! that creates, moves or destroys an owning reference updates the cell's
//! count, and a cell is freed by the release that takes its count to zero.
//! A reference that moves into a slot is the one the incoming handle already
//! owned, so a cell's count never drops while the cell is being installed.
use core::marker::PhantomData;
use vstd::prelude::*;
use vstd::std_specs::cmp::PartialEqSpec;

use crate::tagged::{
    address_of, lemma_even_aligned, lemma_null_preserved, lemma_pack_unpack_round_trip, mark_of,
    pack, unpack,
};

verus! {

/// What goes wrong when a cell is looked up.
pub enum PtrErrors {
    /// The address is null, or names no live cell.
    NullPtrError,
}

/// A heap cell: the payload and the number of live owning references to it.
pub struct ReferenceCounter<T> {
    pub data: T,
    pub counter: usize,
}

impl<T> ReferenceCounter<T> {
    /// The payload.
    pub fn data(&self) -> (r: &T)
        ensures
            *r == self.data,
    {
        &self.data
    }
}

/// The number of cells a heap can hold, so that every address fits a word.
pub const MAX_CELLS: usize = 0x3fff_ffff;

/// The address of the cell at index `i`.
pub open spec fn cell_address(i: int) -> int {
    2 * i + 2
}

/// The index of the cell at address `addr`.
pub open spec fn cell_index(addr: usize) -> int {
    addr as int / 2 - 1
}

/// The cells that handles refer to.
pub struct ArcHeap<T> {
    cells: Vec<Option<ReferenceCounter<T>>>,
}

impl<T> View for ArcHeap<T> {
    type V = Seq<Option<ReferenceCounter<T>>>;

    closed spec fn view(&self) -> Seq<Option<ReferenceCounter<T>>> {
        self.cells@
    }
}

/// `addr` names a live cell of `cells`.
pub open spec fn live_in<T>(cells: Seq<Option<ReferenceCounter<T>>>, addr: usize) -> bool {
    addr % 2 == 0 && addr >= 2 && cell_index(addr) < cells.len() && cells[cell_index(addr)] is Some
}

/// The count of the live cell at `addr`.
pub open spec fn count_in<T>(cells: Seq<Option<ReferenceCounter<T>>>, addr: usize) -> usize {
    cells[cell_index(addr)]->Some_0.counter
}

/// The payload of the live cell at `addr`.
pub open spec fn payload_in<T>(cells: Seq<Option<ReferenceCounter<T>>>, addr: usize) -> T {
    cells[cell_index(addr)]->Some_0.data
}

/// The cells after one owning reference to `addr` is given up: nothing where
/// no live cell has that address (null, or a cell already freed), else the
/// count lowered by one, or the cell freed when it held the last.
pub open spec fn released<T>(cells: Seq<Option<ReferenceCounter<T>>>, addr: usize) -> Seq<
    Option<ReferenceCounter<T>>,
> {
    if !live_in(cells, addr) {
        cells
    } else if count_in(cells, addr) == 1 {
        cells.update(cell_index(addr), None)
    } else {
        cells.update(
            cell_index(addr),
            Some(
                ReferenceCounter {
                    data: payload_in(cells, addr),
                    counter: (count_in(cells, addr) - 1) as usize,
                },
            ),
        )
    }
}

/// The cells after one more owning reference to `addr` is made: nothing where
/// no live cell has that address, else the count raised by one.
pub open spec fn retained<T>(cells: Seq<Option<ReferenceCounter<T>>>, addr: usize) -> Seq<
    Option<ReferenceCounter<T>>,
> {
    if !live_in(cells, addr) {
        cells
    } else {
        cells.update(
            cell_index(addr),
            Some(
                ReferenceCounter {
                    data: payload_in(cells, addr),
                    counter: (count_in(cells, addr) + 1) as usize,
                },
            ),
        )
    }
}

impl<T> ArcHeap<T> {
    /// Every cell the heap holds has an address that fits a word, and every
    /// live cell has at least one owner.
    pub open spec fn wf(&self) -> bool {
        &&& self@.len() <= MAX_CELLS
        &&& forall|i: int| 0 <= i < self@.len() && #[trigger] self@[i] is Some ==> self@[i]->Some_0.counter >= 1
    }

    /// An empty heap.
    pub fn new() -> (r: Self)
        ensures
            r.wf(),
            r@ == Seq::<Option<ReferenceCounter<T>>>::empty(),
    {
        ArcHeap { cells: Vec::new() }
    }

    /// The cell at `addr`, or `NullPtrError` where no live cell has that
    /// address.
    pub fn cell(&self, addr: usize) -> (r: Result<&ReferenceCounter<T>, PtrErrors>)
        ensures
            r is Ok <==> live_in(self@, addr),
            r matches Ok(c) ==> *c == self@[cell_index(addr)]->Some_0,
    {
        if addr == 0 || addr % 2 != 0 {
            return Err(PtrErrors::NullPtrError);
        }
        let i = addr / 2 - 1;
        if i >= self.cells.len() {
            return Err(PtrErrors::NullPtrError);
        }
        match &self.cells[i] {
            Some(c) => Ok(c),
            None => Err(PtrErrors::NullPtrError),
        }
    }

    /// Stores a new cell holding `data` with one owner; returns its address.
    fn allocate(&mut self, data: T) -> (r: usize)
        requires
            old(self).wf(),
            old(self)@.len() < MAX_CELLS,
        ensures
            final(self).wf(),
            final(self)@ == old(self)@.push(Some(ReferenceCounter { data, counter: 1 })),
            r == cell_address(old(self)@.len() as int),
            live_in(final(self)@, r),
    {
        let i = self.cells.len();
        self.cells.push(Some(ReferenceCounter { data, counter: 1 }));
        2 * i + 2
    }

    /// Records one more owner of the cell at `addr` (nothing for null).
    fn retain(&mut self, addr: usize)
        requires
            old(self).wf(),
            live_in(old(self)@, addr) ==> count_in(old(self)@, addr) < usize::MAX,
        ensures
            final(self).wf(),
            final(self)@ == retained(old(self)@, addr),
    {
        if addr == 0 || addr % 2 != 0 || addr / 2 - 1 >= self.cells.len() {
            return;
        }
        let i = addr / 2 - 1;
        let taken = self.cells[i].take();
        match taken {
            Some(c) => {
                let ReferenceCounter { data, counter } = c;
                self.cells.set(i, Some(ReferenceCounter { data, counter: counter + 1 }));
            },
            None => {},
        }
    }

    /// Gives up one owning reference to the cell at `addr` (nothing for
    /// null), freeing the cell when that was the last.
    fn release_ref(&mut self, addr: usize)
        requires
            old(self).wf(),
        ensures
            final(self).wf(),
            final(self)@ == released(old(self)@, addr),
    {
        if addr == 0 || addr % 2 != 0 || addr / 2 - 1 >= self.cells.len() {
            return;
        }
        let i = addr / 2 - 1;
        let taken = self.cells[i].take();
        match taken {
            Some(c) => {
                if c.counter > 1 {
                    let ReferenceCounter { data, counter } = c;
                    self.cells.set(i, Some(ReferenceCounter { data, counter: counter - 1 }));
                }
            },
            None => {},
        }
    }
}

/// A handle: a packed word naming a cell of an `ArcHeap` (or null) and a
/// mark. A handle that names a cell owns one reference to it.
pub struct AtomicMarkableArc<T> {
    word: usize,
    cell: PhantomData<T>,
}

impl<T> View for AtomicMarkableArc<T> {
    type V = usize;

    closed spec fn view(&self) -> usize {
        self.word
    }
}

impl<T> AtomicMarkableArc<T> {
    /// The address of the cell the handle names, or 0 for null.
    pub open spec fn address(&self) -> usize {
        address_of(self@)
    }

    /// The handle's mark.
    pub open spec fn marked(&self) -> bool {
        mark_of(self@)
    }

    /// A handle on a new cell holding `data`, with one owner, marked `mark`.
    pub fn new(heap: &mut ArcHeap<T>, data: T, mark: bool) -> (r: Self)
        requires
            old(heap).wf(),
            old(heap)@.len() < MAX_CELLS,
        ensures
            final(heap).wf(),
            final(heap)@ == old(heap)@.push(Some(ReferenceCounter { data, counter: 1 })),
            r.address() == cell_address(old(heap)@.len() as int),
            r.marked() == mark,
            live_in(final(heap)@, r.address()),
    {
        let addr = heap.allocate(data);
        proof {
            lemma_even_aligned(addr);
            lemma_pack_unpack_round_trip(addr, mark);
        }
        AtomicMarkableArc { word: pack(addr, mark), cell: PhantomData }
    }

    /// The null handle, unmarked; it owns nothing.
    pub fn null() -> (r: Self)
        ensures
            r@ == 0,
            r.address() == 0,
            !r.marked(),
    {
        proof {
            lemma_null_preserved(false);
        }
        AtomicMarkableArc { word: 0, cell: PhantomData }
    }

    /// The address of the cell the handle names (`None` for null) and its
    /// mark.
    pub fn load(&self) -> (r: (Option<usize>, bool))
        ensures
            r.0 is None <==> self.address() == 0,
            r.0 matches Some(a) ==> a == self.address(),
            r.1 == self.marked(),
    {
        let (addr, mark) = unpack(self.word);
        if addr == 0 {
            (None, mark)
        } else {
            (Some(addr), mark)
        }
    }

    /// The handle's mark.
    pub fn mark(&self) -> (r: bool)
        ensures
            r == self.marked(),
    {
        self.load().1
    }

    /// A second handle on the same cell with the same mark; the cell gains
    /// an owner.
    pub fn clone(&self, heap: &mut ArcHeap<T>) -> (r: Self)
        requires
            old(heap).wf(),
            live_in(old(heap)@, self.address()) ==> count_in(old(heap)@, self.address()) < usize::MAX,
        ensures
            final(heap).wf(),
            final(heap)@ == retained(old(heap)@, self.address()),
            r@ == self@,
    {
        let (addr, _) = unpack(self.word);
        heap.retain(addr);
        AtomicMarkableArc { word: self.word, cell: PhantomData }
    }

    /// Gives up the handle; its cell loses an owner and is freed when this
    /// was the last.
    pub fn release(self, heap: &mut ArcHeap<T>)
        requires
            old(heap).wf(),
        ensures
            final(heap).wf(),
            final(heap)@ == released(old(heap)@, self.address()),
    {
        let (addr, _) = unpack(self.word);
        heap.release_ref(addr);
    }

    /// Makes this handle name `new`'s cell, marked `mark`. The reference
    /// `new` owned moves into this handle, and the reference this handle
    /// owned is given up.
    pub fn store(&mut self, heap: &mut ArcHeap<T>, new: AtomicMarkableArc<T>, mark: bool)
        requires
            old(heap).wf(),
        ensures
            final(heap).wf(),
            final(heap)@ == released(old(heap)@, old(self).address()),
            final(self).address() == new.address(),
            final(self).marked() == mark,
    {
        let (old_addr, _) = unpack(self.word);
        let (new_addr, _) = unpack(new.word);
        proof {
            lemma_pack_unpack_round_trip(new_addr, mark);
        }
        self.word = pack(new_addr, mark);
        heap.release_ref(old_addr);
    }

    /// Replaces this handle's cell and mark with `new`'s cell marked
    /// `new_mark` if they are `curr`'s cell marked `curr_mark`. On success
    /// the reference `new` owned moves into this handle and the one this
    /// handle owned is given up; on failure `new` is given up. `curr` is
    /// given up either way. Returns the cell address (`None` for null) and
    /// mark this handle holds afterwards.
    pub fn compare_and_swap(
        &mut self,
        heap: &mut ArcHeap<T>,
        curr: AtomicMarkableArc<T>,
        curr_mark: bool,
        new: AtomicMarkableArc<T>,
        new_mark: bool,
    ) -> (r: (Option<usize>, bool))
        requires
            old(heap).wf(),
        ensures
            final(heap).wf(),
            ({
                let hit = old(self).address() == curr.address() && old(self).marked() == curr_mark;
                &&& hit ==> final(self).address() == new.address() && final(self).marked() == new_mark
                    && final(heap)@ == released(released(old(heap)@, old(self).address()), curr.address())
                &&& !hit ==> *final(self) == *old(self)
                    && final(heap)@ == released(released(old(heap)@, curr.address()), new.address())
            }),
            r.0 is None <==> final(self).address() == 0,
            r.0 matches Some(a) ==> a == final(self).address(),
            r.1 == final(self).marked(),
    {
        let (self_addr, self_mark) = unpack(self.word);
        let (curr_addr, _) = unpack(curr.word);
        let (new_addr, _) = unpack(new.word);
        if self_addr == curr_addr && self_mark == curr_mark {
            proof {
                lemma_pack_unpack_round_trip(new_addr, new_mark);
            }
            self.word = pack(new_addr, new_mark);
            heap.release_ref(self_addr);
            heap.release_ref(curr_addr);
        } else {
            heap.release_ref(curr_addr);
            heap.release_ref(new_addr);
        }
        self.load()
    }
}

/// Two handles are equal when they name the same cell, whatever the cells
/// hold and whatever their marks.
impl<T> PartialEq for AtomicMarkableArc<T> {
    fn eq(&self, other: &Self) -> (r: bool) {
        let (a, _) = unpack(self.word);
        let (b, _) = unpack(other.word);
        a == b
    }
}

impl<T> vstd::std_specs::cmp::PartialEqSpecImpl for AtomicMarkableArc<T> {
    open spec fn obeys_eq_spec() -> bool {
        true
    }

    open spec fn eq_spec(&self, other: &Self) -> bool {
        self.address() == other.address()
    }
}

/// Releasing the only reference to a cell frees it, and it stays freed: a
/// second release of that address changes nothing.
pub proof fn lemma_last_release_frees<T>(cells: Seq<Option<ReferenceCounter<T>>>, addr: usize)
    requires
        live_in(cells, addr),
        count_in(cells, addr) == 1,
    ensures
        !live_in(released(cells, addr), addr),
        released(released(cells, addr), addr) == released(cells, addr),
        released(cells, addr).len() == cells.len(),
        forall|i: int|
            0 <= i < cells.len() && i != cell_index(addr) ==> #[trigger] released(cells, addr)[i]
                == cells[i],
{
}

/// A cell that gained an owner by a clone outlives the release of the
/// reference it was cloned from: it stays live with the same payload and its
/// former count.
pub proof fn lemma_clone_outlives_release<T>(cells: Seq<Option<ReferenceCounter<T>>>, addr: usize)
    requires
        live_in(cells, addr),
        1 <= count_in(cells, addr) < usize::MAX,
    ensures
        live_in(released(retained(cells, addr), addr), addr),
        payload_in(released(retained(cells, addr), addr), addr) == payload_in(cells, addr),
        count_in(released(retained(cells, addr), addr), addr) == count_in(cells, addr),
{
    let once = retained(cells, addr);
    assert(count_in(once, addr) == count_in(cells, addr) + 1);
}

/// Handles made by two calls of `new` are unequal, even where the payloads
/// are equal: each names the cell `new` added to the heap it was given, and a
/// heap only grows. A handle is equal to its clone.
pub proof fn lemma_equality_is_identity<T>(
    heap_first: ArcHeap<T>,
    first: AtomicMarkableArc<T>,
    heap_second: ArcHeap<T>,
    second: AtomicMarkableArc<T>,
    copy: AtomicMarkableArc<T>,
)
    requires
        first.address() == cell_address(heap_first@.len() as int),
        second.address() == cell_address(heap_second@.len() as int),
        heap_second@.len() > heap_first@.len(),
        copy@ == first@,
    ensures
        !first.eq_spec(&second),
        copy.eq_spec(&first),
{
}

} // verus!
