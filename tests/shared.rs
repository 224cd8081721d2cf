use atomic_markable::{ArcHeap, AtomicMarkableArc, PtrErrors};
use std::cell::Cell;
use std::rc::Rc;

fn payload(heap: &ArcHeap<usize>, addr: usize) -> usize {
    match heap.cell(addr) {
        Ok(c) => *c.data(),
        Err(PtrErrors::NullPtrError) => panic!("no cell at {}", addr),
    }
}

fn count(heap: &ArcHeap<usize>, addr: usize) -> usize {
    heap.cell(addr).ok().unwrap().counter
}

#[test]
fn create_arcs() {
    let mut heap = ArcHeap::new();
    let mut ptr = AtomicMarkableArc::<usize>::null();
    assert_eq!(true, ptr.load().0.is_none());

    let new_ptr = AtomicMarkableArc::new(&mut heap, 5, true);
    let copy = new_ptr.clone(&mut heap);
    ptr.store(&mut heap, copy, false);
    let val = ptr.load();
    assert_eq!(true, val.0.is_some());
    assert_eq!(true, payload(&heap, val.0.unwrap()) == 5);

    let newer_ptr = AtomicMarkableArc::new(&mut heap, 20, true);
    ptr.compare_and_swap(&mut heap, new_ptr, false, newer_ptr, true);
    let val = ptr.load();
    assert_eq!(true, val.0.is_some());
    assert_eq!(true, payload(&heap, val.0.unwrap()) == 20);
}

#[test]
fn scenario_store_then_cas() {
    let mut heap = ArcHeap::new();
    let mut slot = AtomicMarkableArc::<usize>::null();
    assert_eq!((None, false), slot.load());

    let ten = AtomicMarkableArc::new(&mut heap, 10, false);
    slot.store(&mut heap, ten, false);
    let (cell, mark) = slot.load();
    let ten_addr = cell.unwrap();
    assert_eq!(10, payload(&heap, ten_addr));
    assert!(!mark);
    assert_eq!(1, count(&heap, ten_addr));

    let expected = slot.clone(&mut heap);
    assert_eq!(2, count(&heap, ten_addr));
    let twenty = AtomicMarkableArc::new(&mut heap, 20, true);
    let after = slot.compare_and_swap(&mut heap, expected, false, twenty, true);
    let twenty_addr = after.0.unwrap();
    assert_eq!(true, after.1);
    assert_ne!(ten_addr, twenty_addr);
    assert_eq!(20, payload(&heap, twenty_addr));
    assert_eq!((Some(twenty_addr), true), slot.load());
    assert!(slot.mark());
    // The ten cell lost both the slot's reference and the expected handle's.
    assert!(heap.cell(ten_addr).is_err());
    assert_eq!(1, count(&heap, twenty_addr));
}

#[test]
fn failed_cas_keeps_slot_and_releases_handles() {
    let mut heap = ArcHeap::new();
    let mut slot = AtomicMarkableArc::new(&mut heap, 1usize, false);
    let a = slot.load().0.unwrap();
    let expected = slot.clone(&mut heap);
    let new = AtomicMarkableArc::new(&mut heap, 2, false);
    let b = new.load().0.unwrap();
    // Right cell, wrong mark.
    assert_eq!((Some(a), false), slot.compare_and_swap(&mut heap, expected, true, new, false));
    assert_eq!(1, count(&heap, a));
    assert!(heap.cell(b).is_err());
}

struct Noisy {
    drops: Rc<Cell<usize>>,
}

impl Drop for Noisy {
    fn drop(&mut self) {
        self.drops.set(self.drops.get() + 1);
    }
}

#[test]
fn sole_handle_release_frees_once() {
    let drops = Rc::new(Cell::new(0));
    let mut heap = ArcHeap::new();
    let mut slot = AtomicMarkableArc::null();
    let fresh = AtomicMarkableArc::new(&mut heap, Noisy { drops: drops.clone() }, false);
    slot.store(&mut heap, fresh, false);
    let addr = slot.load().0.unwrap();
    assert_eq!(1, heap.cell(addr).ok().unwrap().counter);
    assert_eq!(0, drops.get());
    slot.release(&mut heap);
    assert_eq!(1, drops.get());
    assert!(heap.cell(addr).is_err());
}

#[test]
fn clone_survives_store_of_other_value() {
    let mut heap = ArcHeap::new();
    let mut slot = AtomicMarkableArc::new(&mut heap, 7usize, false);
    let kept = slot.clone(&mut heap);
    let addr = kept.load().0.unwrap();
    assert_eq!(2, count(&heap, addr));
    let other = AtomicMarkableArc::new(&mut heap, 9, true);
    slot.store(&mut heap, other, true);
    assert_eq!(1, count(&heap, addr));
    assert_eq!(7, payload(&heap, addr));
    assert_eq!(9, payload(&heap, slot.load().0.unwrap()));
    kept.release(&mut heap);
    assert!(heap.cell(addr).is_err());
}

#[test]
fn store_of_same_cell_keeps_one_reference() {
    let mut heap = ArcHeap::new();
    let mut slot = AtomicMarkableArc::new(&mut heap, 3usize, false);
    let addr = slot.load().0.unwrap();
    let same = slot.clone(&mut heap);
    slot.store(&mut heap, same, true);
    assert_eq!(1, count(&heap, addr));
    assert_eq!((Some(addr), true), slot.load());
}

#[test]
fn equality_is_identity() {
    let mut heap = ArcHeap::new();
    let a = AtomicMarkableArc::new(&mut heap, 5usize, false);
    let b = AtomicMarkableArc::new(&mut heap, 5usize, false);
    assert!(a != b);
    let c = a.clone(&mut heap);
    assert!(a == c);
    assert!(&a == &c);
    let marked = AtomicMarkableArc::new(&mut heap, 5usize, true);
    assert!(marked != a);
    assert!(AtomicMarkableArc::<usize>::null() == AtomicMarkableArc::<usize>::null());
}

#[test]
fn cell_lookup_errors() {
    let mut heap = ArcHeap::new();
    assert!(matches!(heap.cell(0), Err(PtrErrors::NullPtrError)));
    let a = AtomicMarkableArc::new(&mut heap, 4usize, true);
    let addr = a.load().0.unwrap();
    assert_eq!(2, addr);
    assert!(matches!(heap.cell(addr + 1), Err(PtrErrors::NullPtrError)));
    assert!(matches!(heap.cell(addr + 2), Err(PtrErrors::NullPtrError)));
    assert_eq!(4, payload(&heap, addr));
}
