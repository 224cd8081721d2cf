//! An atomic slot holding one packed word: an address and a mark that are
//! read and replaced together. The slot owns nothing; it may be shared
//! between threads, so what an operation finds in it is whatever the last
//! write left there, and the contracts below hold for every such word.
use core::marker::PhantomData;
use core::sync::atomic::AtomicUsize;
use core::sync::atomic::Ordering;
use vstd::prelude::*;

use crate::tagged::{aligned, cas_next, pack, pack_spec, unpack, unpack_spec};

verus! {

/// An ordering that a load accepts (std panics on `Release` and `AcqRel`).
pub open spec fn load_ordering(order: Ordering) -> bool {
    !(order is Release) && !(order is AcqRel)
}

/// An ordering that a store accepts (std panics on `Acquire` and `AcqRel`).
pub open spec fn store_ordering(order: Ordering) -> bool {
    !(order is Acquire) && !(order is AcqRel)
}

/// Some word unpacks to `r`: what an unpacking read may return.
pub open spec fn unpacks_some_word(r: (usize, bool)) -> bool {
    exists|w: usize| r == #[trigger] unpack_spec(w)
}

/// `r` is the word a slot holds after a compare-and-swap of `expected` for
/// `new`, for some word the operation found there.
pub open spec fn cas_reports(r: usize, expected: usize, new: usize) -> bool {
    exists|seen: usize| r == #[trigger] cas_next(seen, expected, new)
}

/// `r` is the address and mark of the word a slot holds after a
/// compare-and-swap of `expected` for `new`, for some word found there.
pub open spec fn cas_reports_unpacked(r: (usize, bool), expected: usize, new: usize) -> bool {
    exists|seen: usize| r == unpack_spec(#[trigger] cas_next(seen, expected, new))
}

/// The ordering used when a compare-and-swap fails: the load part of
/// `order`, as std requires of a failure ordering.
pub fn failure_ordering(order: Ordering) -> (r: Ordering)
    ensures
        load_ordering(r),
        order is Release ==> r is Relaxed,
        order is AcqRel ==> r is Acquire,
        load_ordering(order) ==> r == order,
{
    match order {
        Ordering::Release => Ordering::Relaxed,
        Ordering::AcqRel => Ordering::Acquire,
        Ordering::Relaxed => Ordering::Relaxed,
        Ordering::Acquire => Ordering::Acquire,
        _ => Ordering::SeqCst,
    }
}

/// Relies on AtomicUsize::compare_exchange: it writes `new` only when the
/// value found equals `current`; `Ok` then holds the previous value, equal to
/// `current`, and `Err` holds the value found, which differs from `current`.
/// It panics on a failure ordering of `Release` or `AcqRel`.
#[verifier::external_body]
fn compare_exchange_word(
    atom: &AtomicUsize,
    current: usize,
    new: usize,
    success: Ordering,
    failure: Ordering,
) -> (r: Result<usize, usize>)
    requires
        load_ordering(failure),
    ensures
        r matches Ok(v) ==> v == current,
        r matches Err(v) ==> v != current,
{
    atom.compare_exchange(current, new, success, failure)
}

/// Relies on AtomicUsize::into_inner, which consumes the atomic and returns
/// the value it holds.
#[verifier::external_body]
fn atomic_into_inner(atom: AtomicUsize) -> (r: usize) {
    atom.into_inner()
}

/// Relies on AtomicUsize::get_mut, which gives exclusive access to the value
/// the atomic holds.
#[verifier::external_body]
fn atomic_get_mut(atom: &mut AtomicUsize) -> (r: &mut usize) {
    atom.get_mut()
}

/// The word a slot holds after a compare-and-swap that installed `new`
/// (`Ok`) or found another word (`Err`).
pub fn word_after_cas(outcome: Result<usize, usize>, new: usize) -> (r: usize)
    ensures
        outcome matches Ok(_) ==> r == new,
        outcome matches Err(v) ==> r == v,
{
    match outcome {
        Ok(_) => new,
        Err(v) => v,
    }
}

/// An atomic slot holding an address of a `T` (or null) and a mark.
pub struct AtomicMarkablePtr<T> {
    ptr: AtomicUsize,
    pointee: PhantomData<T>,
}

impl<T> AtomicMarkablePtr<T> {
    /// A slot holding `addr` marked with `mark`.
    pub fn new(addr: usize, mark: bool) -> (r: Self) {
        Self::new_raw(pack(addr, mark))
    }

    /// A slot holding the packed word `word` as it is.
    pub fn new_raw(word: usize) -> (r: Self) {
        AtomicMarkablePtr { ptr: AtomicUsize::new(word), pointee: PhantomData }
    }

    /// Exclusive access to the packed word.
    pub fn get_mut(&mut self) -> (r: &mut usize) {
        atomic_get_mut(&mut self.ptr)
    }

    /// Consumes the slot and returns its address and mark, separated.
    pub fn into_inner(self) -> (r: (usize, bool))
        ensures
            unpacks_some_word(r),
            aligned(r.0),
    {
        let word = atomic_into_inner(self.ptr);
        let r = unpack(word);
        assert(r == unpack_spec(word));
        r
    }

    /// Consumes the slot and returns its packed word, mark included.
    pub fn into_inner_raw(self) -> (r: usize) {
        atomic_into_inner(self.ptr)
    }

    /// Reads the slot and returns its address and mark, separated.
    pub fn load(&self, order: Ordering) -> (r: (usize, bool))
        requires
            load_ordering(order),
        ensures
            unpacks_some_word(r),
            aligned(r.0),
    {
        let word = self.ptr.load(order);
        let r = unpack(word);
        assert(r == unpack_spec(word));
        r
    }

    /// Reads the slot's packed word, mark included.
    pub fn load_raw(&self, order: Ordering) -> (r: usize)
        requires
            load_ordering(order),
    {
        self.ptr.load(order)
    }

    /// Reads the slot's address, with the mark bit cleared.
    pub fn ptr(&self, order: Ordering) -> (r: usize)
        requires
            load_ordering(order),
        ensures
            aligned(r),
    {
        self.load(order).0
    }

    /// Reads the slot's mark.
    pub fn mark(&self, order: Ordering) -> (r: bool)
        requires
            load_ordering(order),
    {
        self.load(order).1
    }

    /// Writes `addr` marked with `mark` into the slot.
    pub fn store(&self, addr: usize, mark: bool, order: Ordering)
        requires
            store_ordering(order),
    {
        let word = pack(addr, mark);
        self.ptr.store(word, order);
    }

    /// Writes the packed word `word` into the slot as it is.
    pub fn store_raw(&self, word: usize, order: Ordering)
        requires
            store_ordering(order),
    {
        self.ptr.store(word, order);
    }

    /// Writes `addr` marked with `mark` and returns the previous address and
    /// mark, separated.
    pub fn swap(&self, addr: usize, mark: bool, order: Ordering) -> (r: (usize, bool))
        ensures
            unpacks_some_word(r),
            aligned(r.0),
    {
        let word = pack(addr, mark);
        let prev = self.ptr.swap(word, order);
        let r = unpack(prev);
        assert(r == unpack_spec(prev));
        r
    }

    /// Writes `addr` marked with `mark` and returns the previous packed word.
    pub fn swap_get_raw(&self, addr: usize, mark: bool, order: Ordering) -> (r: usize) {
        let word = pack(addr, mark);
        self.ptr.swap(word, order)
    }

    /// Writes the packed word `word` and returns the previous address and
    /// mark, separated.
    pub fn swap_raw(&self, word: usize, order: Ordering) -> (r: (usize, bool))
        ensures
            unpacks_some_word(r),
            aligned(r.0),
    {
        let prev = self.ptr.swap(word, order);
        let r = unpack(prev);
        assert(r == unpack_spec(prev));
        r
    }

    /// Writes the packed word `word` and returns the previous packed word.
    pub fn swap_raw_get_raw(&self, word: usize, order: Ordering) -> (r: usize) {
        self.ptr.swap(word, order)
    }

    /// The compare-and-swap on packed words that every variant below makes:
    /// returns the word the slot holds afterwards.
    fn cas_word(&self, expected: usize, new: usize, order: Ordering) -> (r: usize)
        ensures
            cas_reports(r, expected, new),
    {
        let failure = failure_ordering(order);
        let outcome = compare_exchange_word(&self.ptr, expected, new, order, failure);
        let r = word_after_cas(outcome, new);
        match outcome {
            Ok(v) => {
                assert(r == cas_next(v, expected, new));
            },
            Err(v) => {
                assert(r == cas_next(v, expected, new));
            },
        }
        r
    }

    /// Unpacks the result of `cas_word`.
    fn cas_unpacked(&self, expected: usize, new: usize, order: Ordering) -> (r: (usize, bool))
        ensures
            cas_reports_unpacked(r, expected, new),
            aligned(r.0),
    {
        let w = self.cas_word(expected, new, order);
        let r = unpack(w);
        proof {
            let seen = choose|seen: usize| w == #[trigger] cas_next(seen, expected, new);
            assert(r == unpack_spec(cas_next(seen, expected, new)));
        }
        r
    }

    /// Replaces `curr_addr` marked `curr_mark` with `new_addr` marked
    /// `new_mark` if that is what the slot holds. Returns the address and mark
    /// the slot holds afterwards: the new pair on success, the pair found on
    /// failure.
    pub fn compare_and_swap(
        &self,
        curr_addr: usize,
        curr_mark: bool,
        new_addr: usize,
        new_mark: bool,
        order: Ordering,
    ) -> (r: (usize, bool))
        ensures
            cas_reports_unpacked(r, pack_spec(curr_addr, curr_mark), pack_spec(new_addr, new_mark)),
    {
        let expected = pack(curr_addr, curr_mark);
        let new = pack(new_addr, new_mark);
        self.cas_unpacked(expected, new, order)
    }

    /// As `compare_and_swap`, returning the packed word the slot holds
    /// afterwards.
    pub fn compare_and_swap_get_raw(
        &self,
        curr_addr: usize,
        curr_mark: bool,
        new_addr: usize,
        new_mark: bool,
        order: Ordering,
    ) -> (r: usize)
        ensures
            cas_reports(r, pack_spec(curr_addr, curr_mark), pack_spec(new_addr, new_mark)),
    {
        let expected = pack(curr_addr, curr_mark);
        let new = pack(new_addr, new_mark);
        self.cas_word(expected, new, order)
    }

    /// As `compare_and_swap`, installing the packed word `new_word` as it is.
    pub fn compare_and_swap_raw(
        &self,
        curr_addr: usize,
        curr_mark: bool,
        new_word: usize,
        order: Ordering,
    ) -> (r: (usize, bool))
        ensures
            cas_reports_unpacked(r, pack_spec(curr_addr, curr_mark), new_word),
    {
        let expected = pack(curr_addr, curr_mark);
        self.cas_unpacked(expected, new_word, order)
    }

    /// As `compare_and_swap_raw`, returning the packed word the slot holds
    /// afterwards.
    pub fn compare_and_swap_raw_get_raw(
        &self,
        curr_addr: usize,
        curr_mark: bool,
        new_word: usize,
        order: Ordering,
    ) -> (r: usize)
        ensures
            cas_reports(r, pack_spec(curr_addr, curr_mark), new_word),
    {
        let expected = pack(curr_addr, curr_mark);
        self.cas_word(expected, new_word, order)
    }

    /// As `compare_and_swap`, expecting the packed word `curr_word` as it is.
    pub fn raw_compare_and_swap(
        &self,
        curr_word: usize,
        new_addr: usize,
        new_mark: bool,
        order: Ordering,
    ) -> (r: (usize, bool))
        ensures
            cas_reports_unpacked(r, curr_word, pack_spec(new_addr, new_mark)),
    {
        let new = pack(new_addr, new_mark);
        self.cas_unpacked(curr_word, new, order)
    }

    /// As `raw_compare_and_swap`, returning the packed word the slot holds
    /// afterwards.
    pub fn raw_compare_and_swap_get_raw(
        &self,
        curr_word: usize,
        new_addr: usize,
        new_mark: bool,
        order: Ordering,
    ) -> (r: usize)
        ensures
            cas_reports(r, curr_word, pack_spec(new_addr, new_mark)),
    {
        let new = pack(new_addr, new_mark);
        self.cas_word(curr_word, new, order)
    }

    /// Compare-and-swap on packed words given as they are; returns the address
    /// and mark the slot holds afterwards.
    pub fn raw_compare_and_swap_raw(&self, curr_word: usize, new_word: usize, order: Ordering) -> (r: (
        usize,
        bool,
    ))
        ensures
            cas_reports_unpacked(r, curr_word, new_word),
    {
        self.cas_unpacked(curr_word, new_word, order)
    }

    /// Compare-and-swap on packed words given as they are; returns the packed
    /// word the slot holds afterwards.
    pub fn raw_compare_and_swap_raw_get_raw(
        &self,
        curr_word: usize,
        new_word: usize,
        order: Ordering,
    ) -> (r: usize)
        ensures
            cas_reports(r, curr_word, new_word),
    {
        self.cas_word(curr_word, new_word, order)
    }

    /// Replaces `curr_addr` marked `curr_mark` with `new_addr` marked
    /// `new_mark` if that is what the slot holds, and says which happened:
    /// `Ok` with the pair replaced, or `Err` with the different pair found.
    pub fn compare_exchange(
        &self,
        curr_addr: usize,
        curr_mark: bool,
        new_addr: usize,
        new_mark: bool,
        order: Ordering,
    ) -> (r: Result<(usize, bool), (usize, bool)>)
        ensures
            r matches Ok(prev) ==> prev == unpack_spec(pack_spec(curr_addr, curr_mark)),
            r matches Err(found) ==> exists|w: usize|
                w != pack_spec(curr_addr, curr_mark) && found == #[trigger] unpack_spec(w),
    {
        let expected = pack(curr_addr, curr_mark);
        let new = pack(new_addr, new_mark);
        let failure = failure_ordering(order);
        match compare_exchange_word(&self.ptr, expected, new, order, failure) {
            Ok(prev) => Ok(unpack(prev)),
            Err(found) => {
                let r = unpack(found);
                assert(r == unpack_spec(found));
                Err(r)
            },
        }
    }
}

} // verus!
