//! The packed representation: bit 0 of the word is the mark, the remaining
//! bits are the address. Addresses handed in must have bit 0 clear, which is
//! what an alignment of at least two guarantees.
use vstd::prelude::*;

verus! {

/// The bit of a packed word that carries the mark.
pub const MARK_BIT: usize = 1;

/// The word that stands for `addr` marked with `mark`.
pub open spec fn pack_spec(addr: usize, mark: bool) -> usize {
    if mark {
        addr | 1
    } else {
        addr & !1usize
    }
}

/// The address part of a packed word.
pub open spec fn address_of(word: usize) -> usize {
    word & !1usize
}

/// The mark part of a packed word.
pub open spec fn mark_of(word: usize) -> bool {
    word & 1 == 1
}

/// The address and the mark that a packed word stands for.
pub open spec fn unpack_spec(word: usize) -> (usize, bool) {
    (address_of(word), mark_of(word))
}

/// The word a slot holds after a compare-and-swap that found `current`:
/// `new` where `current` is the expected word, `current` itself otherwise.
pub open spec fn cas_next(current: usize, expected: usize, new: usize) -> usize {
    if current == expected {
        new
    } else {
        current
    }
}

/// An address that can be packed without loss: bit 0 is free.
pub open spec fn aligned(addr: usize) -> bool {
    addr & 1 == 0
}

/// Packs an address and a mark into one word.
pub fn pack(addr: usize, mark: bool) -> (r: usize)
    ensures
        r == pack_spec(addr, mark),
{
    if mark {
        addr | MARK_BIT
    } else {
        addr & !MARK_BIT
    }
}

/// Splits a packed word into its address (mark bit cleared) and its mark.
pub fn unpack(word: usize) -> (r: (usize, bool))
    ensures
        r == unpack_spec(word),
        aligned(r.0),
{
    proof {
        lemma_address_aligned(word);
    }
    (word & !MARK_BIT, word & MARK_BIT == 1)
}

/// The address part of any word has bit 0 clear.
pub proof fn lemma_address_aligned(word: usize)
    ensures
        aligned(address_of(word)),
{
    assert((word & !1usize) & 1 == 0) by (bit_vector);
}

/// An even address has bit 0 free.
pub proof fn lemma_even_aligned(addr: usize)
    requires
        addr % 2 == 0,
    ensures
        aligned(addr),
{
    assert(addr % 2 == 0 ==> addr & 1 == 0) by (bit_vector);
}

/// Unpacking a packed word gives back the address and the mark, for every
/// address whose bit 0 is free.
pub proof fn lemma_pack_unpack_round_trip(addr: usize, mark: bool)
    requires
        aligned(addr),
    ensures
        address_of(pack_spec(addr, mark)) == addr,
        mark_of(pack_spec(addr, mark)) == mark,
{
    assert(addr & 1 == 0 ==> (addr | 1) & !1usize == addr) by (bit_vector);
    assert(addr & 1 == 0 ==> (addr & !1usize) & !1usize == addr) by (bit_vector);
    assert((addr | 1) & 1 == 1) by (bit_vector);
    assert((addr & !1usize) & 1 == 0) by (bit_vector);
}

/// A null address stays null whatever the mark: only bit 0 changes.
pub proof fn lemma_null_preserved(mark: bool)
    ensures
        address_of(pack_spec(0, mark)) == 0,
        pack_spec(0, false) == 0,
        pack_spec(0, true) == 1,
        address_of(0) == 0,
        !mark_of(0),
{
    assert(0usize & 1 == 0) by (bit_vector);
    assert((0usize | 1) & !1usize == 0) by (bit_vector);
    assert((0usize & !1usize) & !1usize == 0) by (bit_vector);
    assert(0usize & !1usize == 0) by (bit_vector);
    assert(0usize | 1 == 1) by (bit_vector);
}

/// A compare-and-swap on a slot holding `a` unmarked, expecting `a` unmarked
/// and installing `b` marked, leaves `b` marked and reports it; a second one
/// with the same expectation then finds `b` marked, fails, and leaves it.
pub proof fn lemma_cas_success(a: usize, b: usize)
    requires
        aligned(a),
        aligned(b),
    ensures
        cas_next(pack_spec(a, false), pack_spec(a, false), pack_spec(b, true)) == pack_spec(
            b,
            true,
        ),
        unpack_spec(cas_next(pack_spec(a, false), pack_spec(a, false), pack_spec(b, true))) == (
            b,
            true,
        ),
        cas_next(pack_spec(b, true), pack_spec(a, false), pack_spec(b, true)) == pack_spec(
            b,
            true,
        ),
{
    lemma_pack_unpack_round_trip(a, false);
    lemma_pack_unpack_round_trip(b, true);
}

/// A compare-and-swap whose expectation differs from what the slot holds
/// leaves the slot as it was and reports what it holds.
pub proof fn lemma_cas_failure(a: usize, x: usize, n: usize, n_mark: bool)
    requires
        aligned(a),
        aligned(x),
        x != a,
    ensures
        cas_next(pack_spec(a, false), pack_spec(x, true), pack_spec(n, n_mark)) == pack_spec(
            a,
            false,
        ),
        unpack_spec(cas_next(pack_spec(a, false), pack_spec(x, true), pack_spec(n, n_mark))) == (
            a,
            false,
        ),
{
    lemma_pack_unpack_round_trip(a, false);
    lemma_pack_unpack_round_trip(x, true);
}

} // verus!
