//! Sets of PCR slots as bit masks: bit `i` of a mask stands for the slot with the number `i`.
use vstd::prelude::*;
use crate::pcr::slot::{PcrSlot, PCR_SLOT_COUNT};

verus! {

/// Whether bit `index` of `mask` is set.
pub open spec fn has_bit(mask: u32, index: u32) -> bool {
    (mask >> index) & 1 == 1
}

/// Whether `mask` selects `slot`.
pub open spec fn selects(mask: u32, slot: PcrSlot) -> bool {
    has_bit(mask, slot.index() as u32)
}

/// The slots that `mask` selects.
pub open spec fn slots_of(mask: u32) -> Set<PcrSlot> {
    Set::new(|slot: PcrSlot| selects(mask, slot))
}

/// The mask of all the slots that a selection of `octets` octets can hold:
/// those with a number below `8 * octets`.
pub open spec fn width_mask(octets: nat) -> u32 {
    if octets == 0 {
        0
    } else if octets == 1 {
        0xFF
    } else if octets == 2 {
        0xFFFF
    } else {
        0xFF_FFFF
    }
}

/// Whether `mask` selects nothing but slots, and only slots that a selection
/// of `octets` octets can hold.
pub open spec fn fits_width(mask: u32, octets: nat) -> bool {
    mask & !width_mask(octets) == 0
}

/// Whether a selection of `octets` octets can hold `slot`.
pub open spec fn slot_fits(slot: PcrSlot, octets: nat) -> bool {
    slot.index() < 8 * octets
}

/// How the bits of a union, an intersection and a difference of masks come
/// from the bits of the masks.
pub proof fn lemma_bits_of_operations()
    ensures
        forall|a: u32, b: u32, i: u32|
            i < 32 ==> (#[trigger] has_bit(a | b, i) <==> has_bit(a, i) || has_bit(b, i)),
        forall|a: u32, b: u32, i: u32|
            i < 32 ==> (#[trigger] has_bit(a & b, i) <==> has_bit(a, i) && has_bit(b, i)),
        forall|a: u32, b: u32, i: u32|
            i < 32 ==> (#[trigger] has_bit(a & !b, i) <==> has_bit(a, i) && !has_bit(b, i)),
        forall|i: u32| i < 32 ==> !#[trigger] has_bit(0, i),
        forall|n: u32, i: u32| n < 32 && i < 32 ==> (#[trigger] has_bit(1u32 << n, i) <==> i == n),
{
    assert(forall|a: u32, b: u32, i: u32|
        i < 32 ==> ((((a | b) >> i) & 1 == 1) <==> ((a >> i) & 1 == 1) || ((b >> i) & 1 == 1)))
        by (bit_vector);
    assert(forall|a: u32, b: u32, i: u32|
        i < 32 ==> ((((a & b) >> i) & 1 == 1) <==> ((a >> i) & 1 == 1) && ((b >> i) & 1 == 1)))
        by (bit_vector);
    assert(forall|a: u32, b: u32, i: u32|
        i < 32 ==> ((((a & !b) >> i) & 1 == 1) <==> ((a >> i) & 1 == 1) && !((b >> i) & 1 == 1)))
        by (bit_vector);
    assert(forall|i: u32| i < 32 ==> !((0u32 >> i) & 1 == 1)) by (bit_vector);
    assert(forall|n: u32, i: u32|
        n < 32 && i < 32 ==> ((((1u32 << n) >> i) & 1 == 1) <==> i == n)) by (bit_vector);
}

/// Two masks with the same bits are the same mask.
pub proof fn lemma_masks_equal_by_bits(a: u32, b: u32)
    requires
        forall|i: u32| i < 32 ==> has_bit(a, i) == has_bit(b, i),
    ensures
        a == b,
{
    assert(has_bit(a, 0) == has_bit(b, 0));
    assert(has_bit(a, 1) == has_bit(b, 1));
    assert(has_bit(a, 2) == has_bit(b, 2));
    assert(has_bit(a, 3) == has_bit(b, 3));
    assert(has_bit(a, 4) == has_bit(b, 4));
    assert(has_bit(a, 5) == has_bit(b, 5));
    assert(has_bit(a, 6) == has_bit(b, 6));
    assert(has_bit(a, 7) == has_bit(b, 7));
    assert(has_bit(a, 8) == has_bit(b, 8));
    assert(has_bit(a, 9) == has_bit(b, 9));
    assert(has_bit(a, 10) == has_bit(b, 10));
    assert(has_bit(a, 11) == has_bit(b, 11));
    assert(has_bit(a, 12) == has_bit(b, 12));
    assert(has_bit(a, 13) == has_bit(b, 13));
    assert(has_bit(a, 14) == has_bit(b, 14));
    assert(has_bit(a, 15) == has_bit(b, 15));
    assert(has_bit(a, 16) == has_bit(b, 16));
    assert(has_bit(a, 17) == has_bit(b, 17));
    assert(has_bit(a, 18) == has_bit(b, 18));
    assert(has_bit(a, 19) == has_bit(b, 19));
    assert(has_bit(a, 20) == has_bit(b, 20));
    assert(has_bit(a, 21) == has_bit(b, 21));
    assert(has_bit(a, 22) == has_bit(b, 22));
    assert(has_bit(a, 23) == has_bit(b, 23));
    assert(has_bit(a, 24) == has_bit(b, 24));
    assert(has_bit(a, 25) == has_bit(b, 25));
    assert(has_bit(a, 26) == has_bit(b, 26));
    assert(has_bit(a, 27) == has_bit(b, 27));
    assert(has_bit(a, 28) == has_bit(b, 28));
    assert(has_bit(a, 29) == has_bit(b, 29));
    assert(has_bit(a, 30) == has_bit(b, 30));
    assert(has_bit(a, 31) == has_bit(b, 31));
    assert(a == b) by (bit_vector)
        requires
            ((a >> 0u32) & 1 == 1) == ((b >> 0u32) & 1 == 1),
            ((a >> 1u32) & 1 == 1) == ((b >> 1u32) & 1 == 1),
            ((a >> 2u32) & 1 == 1) == ((b >> 2u32) & 1 == 1),
            ((a >> 3u32) & 1 == 1) == ((b >> 3u32) & 1 == 1),
            ((a >> 4u32) & 1 == 1) == ((b >> 4u32) & 1 == 1),
            ((a >> 5u32) & 1 == 1) == ((b >> 5u32) & 1 == 1),
            ((a >> 6u32) & 1 == 1) == ((b >> 6u32) & 1 == 1),
            ((a >> 7u32) & 1 == 1) == ((b >> 7u32) & 1 == 1),
            ((a >> 8u32) & 1 == 1) == ((b >> 8u32) & 1 == 1),
            ((a >> 9u32) & 1 == 1) == ((b >> 9u32) & 1 == 1),
            ((a >> 10u32) & 1 == 1) == ((b >> 10u32) & 1 == 1),
            ((a >> 11u32) & 1 == 1) == ((b >> 11u32) & 1 == 1),
            ((a >> 12u32) & 1 == 1) == ((b >> 12u32) & 1 == 1),
            ((a >> 13u32) & 1 == 1) == ((b >> 13u32) & 1 == 1),
            ((a >> 14u32) & 1 == 1) == ((b >> 14u32) & 1 == 1),
            ((a >> 15u32) & 1 == 1) == ((b >> 15u32) & 1 == 1),
            ((a >> 16u32) & 1 == 1) == ((b >> 16u32) & 1 == 1),
            ((a >> 17u32) & 1 == 1) == ((b >> 17u32) & 1 == 1),
            ((a >> 18u32) & 1 == 1) == ((b >> 18u32) & 1 == 1),
            ((a >> 19u32) & 1 == 1) == ((b >> 19u32) & 1 == 1),
            ((a >> 20u32) & 1 == 1) == ((b >> 20u32) & 1 == 1),
            ((a >> 21u32) & 1 == 1) == ((b >> 21u32) & 1 == 1),
            ((a >> 22u32) & 1 == 1) == ((b >> 22u32) & 1 == 1),
            ((a >> 23u32) & 1 == 1) == ((b >> 23u32) & 1 == 1),
            ((a >> 24u32) & 1 == 1) == ((b >> 24u32) & 1 == 1),
            ((a >> 25u32) & 1 == 1) == ((b >> 25u32) & 1 == 1),
            ((a >> 26u32) & 1 == 1) == ((b >> 26u32) & 1 == 1),
            ((a >> 27u32) & 1 == 1) == ((b >> 27u32) & 1 == 1),
            ((a >> 28u32) & 1 == 1) == ((b >> 28u32) & 1 == 1),
            ((a >> 29u32) & 1 == 1) == ((b >> 29u32) & 1 == 1),
            ((a >> 30u32) & 1 == 1) == ((b >> 30u32) & 1 == 1),
            ((a >> 31u32) & 1 == 1) == ((b >> 31u32) & 1 == 1),
    ;
}

/// The bits of the mask of a width are the bits below `8 * octets`, and below 24.
pub proof fn lemma_bits_of_width_mask(octets: nat)
    ensures
        forall|i: u32|
            i < 32 ==> (#[trigger] has_bit(width_mask(octets), i) <==> i < 8 * octets && i
                < PCR_SLOT_COUNT),
{
    assert(forall|i: u32| i < 32 ==> !((0u32 >> i) & 1 == 1)) by (bit_vector);
    assert(forall|i: u32| i < 32 ==> (((0xFFu32 >> i) & 1 == 1) <==> i < 8)) by (bit_vector);
    assert(forall|i: u32| i < 32 ==> (((0xFFFFu32 >> i) & 1 == 1) <==> i < 16)) by (bit_vector);
    assert(forall|i: u32| i < 32 ==> (((0xFF_FFFFu32 >> i) & 1 == 1) <==> i < 24)) by (bit_vector);
}

/// A mask fits a width exactly when each of its bits is a bit of that width.
pub proof fn lemma_fits_width_by_bits(mask: u32, octets: nat)
    ensures
        fits_width(mask, octets) <==> (forall|i: u32|
            i < 32 && #[trigger] has_bit(mask, i) ==> i < 8 * octets && i < PCR_SLOT_COUNT),
{
    let w = width_mask(octets);
    lemma_bits_of_width_mask(octets);
    lemma_bits_of_operations();
    if fits_width(mask, octets) {
        assert forall|i: u32| i < 32 && #[trigger] has_bit(mask, i) implies i < 8 * octets && i
            < PCR_SLOT_COUNT by {
            if !has_bit(w, i) {
                assert(has_bit(mask & !w, i));
                assert(!has_bit(0, i));
            }
        }
    }
    if forall|i: u32|
        i < 32 && #[trigger] has_bit(mask, i) ==> i < 8 * octets && i < PCR_SLOT_COUNT {
        assert forall|i: u32| i < 32 implies has_bit(mask & !w, i) == has_bit(0u32, i) by {
            assert(has_bit(mask & !w, i) <==> has_bit(mask, i) && !has_bit(w, i));
            assert(!has_bit(0, i));
        }
        lemma_masks_equal_by_bits(mask & !w, 0);
    }
}

/// A mask that fits a width selects only slots that the width can hold, and
/// a mask that fits any width fits the widest.
pub proof fn lemma_fits_width_slots(mask: u32, octets: nat)
    requires
        fits_width(mask, octets),
    ensures
        forall|slot: PcrSlot| #[trigger] selects(mask, slot) ==> slot_fits(slot, octets),
        fits_width(mask, 3),
{
    lemma_fits_width_by_bits(mask, octets);
    lemma_fits_width_by_bits(mask, 3);
    PcrSlot::lemma_index_at();
    assert forall|slot: PcrSlot| #[trigger] selects(mask, slot) implies slot_fits(slot, octets) by {
        assert(has_bit(mask, slot.index() as u32));
    }
}

/// The union of two masks selects the union of their slots.
pub proof fn lemma_slots_of_union(a: u32, b: u32)
    ensures
        slots_of(a | b) == slots_of(a).union(slots_of(b)),
{
    lemma_bits_of_operations();
    PcrSlot::lemma_index_at();
    assert forall|slot: PcrSlot| selects(a | b, slot) == (selects(a, slot) || selects(b, slot)) by {
        assert(has_bit(a | b, slot.index() as u32) <==> has_bit(a, slot.index() as u32) || has_bit(
            b,
            slot.index() as u32,
        ));
    }
    assert(slots_of(a | b) =~= slots_of(a).union(slots_of(b)));
}

/// Clearing the bits of one mask in another selects the difference of their slots.
pub proof fn lemma_slots_of_difference(a: u32, b: u32)
    ensures
        slots_of(a & !b) == slots_of(a).difference(slots_of(b)),
{
    lemma_bits_of_operations();
    PcrSlot::lemma_index_at();
    assert forall|slot: PcrSlot|
        selects(a & !b, slot) == (selects(a, slot) && !selects(b, slot)) by {
        assert(has_bit(a & !b, slot.index() as u32) <==> has_bit(a, slot.index() as u32)
            && !has_bit(b, slot.index() as u32));
    }
    assert(slots_of(a & !b) =~= slots_of(a).difference(slots_of(b)));
}

/// Keeping the bits of one mask in another selects the intersection of their slots.
pub proof fn lemma_slots_of_intersection(a: u32, b: u32)
    ensures
        slots_of(a & b) == slots_of(a).intersect(slots_of(b)),
{
    lemma_bits_of_operations();
    PcrSlot::lemma_index_at();
    assert forall|slot: PcrSlot| selects(a & b, slot) == (selects(a, slot) && selects(b, slot)) by {
        assert(has_bit(a & b, slot.index() as u32) <==> has_bit(a, slot.index() as u32) && has_bit(
            b,
            slot.index() as u32,
        ));
    }
    assert(slots_of(a & b) =~= slots_of(a).intersect(slots_of(b)));
}

/// Among the masks that select nothing but slots, the slots determine the mask.
pub proof fn lemma_slots_determine_mask(a: u32, b: u32)
    requires
        fits_width(a, 3),
        fits_width(b, 3),
        slots_of(a) == slots_of(b),
    ensures
        a == b,
{
    lemma_fits_width_by_bits(a, 3);
    lemma_fits_width_by_bits(b, 3);
    PcrSlot::lemma_index_at();
    assert forall|i: u32| i < 32 implies has_bit(a, i) == has_bit(b, i) by {
        if i < PCR_SLOT_COUNT {
            let slot = PcrSlot::at(i as nat);
            assert(slot.index() == i as nat);
            assert(slots_of(a).contains(slot) == selects(a, slot));
            assert(slots_of(b).contains(slot) == selects(b, slot));
        } else {
            assert(!has_bit(a, i));
            assert(!has_bit(b, i));
        }
    }
    lemma_masks_equal_by_bits(a, b);
}

/// The mask zero, and among the masks that select nothing but slots only it,
/// selects no slot.
pub proof fn lemma_slots_of_zero(a: u32)
    ensures
        slots_of(0) == Set::<PcrSlot>::empty(),
        fits_width(0, 0),
        fits_width(a, 3) && slots_of(a) == Set::<PcrSlot>::empty() ==> a == 0,
{
    lemma_bits_of_operations();
    PcrSlot::lemma_index_at();
    assert(slots_of(0) =~= Set::<PcrSlot>::empty());
    lemma_fits_width_by_bits(0, 0);
    lemma_fits_width_by_bits(0, 3);
    if fits_width(a, 3) && slots_of(a) == Set::<PcrSlot>::empty() {
        lemma_slots_determine_mask(a, 0);
    }
}

/// One mask holds all the bits of another exactly when it selects all the
/// slots of the other, among the masks that select nothing but slots.
pub proof fn lemma_slots_subset(a: u32, b: u32)
    requires
        fits_width(a, 3),
        fits_width(b, 3),
    ensures
        a & b == b <==> slots_of(b).subset_of(slots_of(a)),
{
    lemma_slots_of_intersection(a, b);
    lemma_bits_of_operations();
    lemma_fits_width_by_bits(a & b, 3);
    lemma_fits_width_by_bits(b, 3);
    if slots_of(b).subset_of(slots_of(a)) {
        assert(slots_of(a).intersect(slots_of(b)) =~= slots_of(b));
        lemma_slots_determine_mask(a & b, b);
    }
    if a & b == b {
        assert(slots_of(b) =~= slots_of(a).intersect(slots_of(b)));
    }
}

/// The slots of any mask are finitely many.
pub proof fn lemma_slots_finite(mask: u32)
    ensures
        slots_of(mask).finite(),
        slots_of(mask).len() <= PCR_SLOT_COUNT,
{
    PcrSlot::lemma_index_at();
    let numbers = Set::new(|i: int| 0 <= i < 24);
    assert(numbers =~= vstd::set_lib::set_int_range(0, 24));
    vstd::set_lib::lemma_int_range(0, 24);
    let all = numbers.map(|i: int| PcrSlot::at(i as nat));
    numbers.lemma_map_finite(|i: int| PcrSlot::at(i as nat));
    vstd::set_lib::lemma_map_size_bound(numbers, all, |i: int| PcrSlot::at(i as nat));
    assert forall|slot: PcrSlot| slots_of(mask).contains(slot) implies all.contains(slot) by {
        assert(numbers.contains(slot.index() as int));
        assert(PcrSlot::at(slot.index()) == slot);
    }
    vstd::set_lib::lemma_len_subset(slots_of(mask), all);
}

/// Whether bit `index` is set in a mask that is spread over octets: bit
/// `index % 8` of the octet `index / 8`, the value `1 << (index % 8)`.
pub open spec fn octet_bit(octets: Seq<u8>, index: nat) -> bool {
    (octets[(index / 8) as int] >> ((index % 8) as u8)) & 1 == 1
}

/// The mask of a width.
pub(crate) fn width_mask_of(octets: u8) -> (mask: u32)
    ensures
        mask == width_mask(octets as nat),
{
    if octets == 0 {
        0
    } else if octets == 1 {
        0xFF
    } else if octets == 2 {
        0xFFFF
    } else {
        0xFF_FFFF
    }
}

/// The mask that selects exactly the slots of `slots`.
pub(crate) fn mask_of_slots(slots: &[PcrSlot]) -> (mask: u32)
    ensures
        slots_of(mask) == slots@.to_set(),
        fits_width(mask, 3),
{
    let mut mask: u32 = 0;
    let mut i: usize = 0;
    proof {
        lemma_slots_of_zero(0);
        lemma_fits_width_by_bits(0, 3);
        lemma_bits_of_operations();
        assert(slots@.take(0).to_set() =~= Set::<PcrSlot>::empty());
    }
    while i < slots.len()
        invariant
            i <= slots.len(),
            slots_of(mask) == slots@.take(i as int).to_set(),
            fits_width(mask, 3),
        decreases slots.len() - i,
    {
        let number = slots[i].number();
        let bit = 1u32 << number;
        proof {
            let slot = slots@[i as int];
            lemma_bits_of_operations();
            PcrSlot::lemma_index_at();
            lemma_slots_of_union(mask, bit);
            assert forall|other: PcrSlot| selects(bit, other) <==> other == slot by {
                assert(has_bit(1u32 << number, other.index() as u32) <==> other.index() as u32
                    == number);
                assert(PcrSlot::at(other.index()) == other);
                assert(PcrSlot::at(slot.index()) == slot);
            }
            assert(slots_of(bit) =~= set![slot]);
            assert(slots@.take(i + 1) =~= slots@.take(i as int).push(slot));
            let prefix = slots@.take(i as int);
            assert(prefix.push(slot).to_set() =~= prefix.to_set().insert(slot)) by {
                assert forall|x: PcrSlot| prefix.push(slot).to_set().contains(x)
                    <==> prefix.to_set().insert(slot).contains(x) by {
                    if prefix.push(slot).contains(x) {
                        let k = choose|k: int| 0 <= k < prefix.push(slot).len() && prefix.push(
                            slot,
                        )[k] == x;
                        if k < prefix.len() {
                            assert(prefix[k] == x);
                        }
                    }
                    if prefix.contains(x) {
                        let k = choose|k: int| 0 <= k < prefix.len() && prefix[k] == x;
                        assert(prefix.push(slot)[k] == x);
                    }
                    if x == slot {
                        assert(prefix.push(slot)[prefix.len() as int] == x);
                    }
                }
            }
            assert(slots_of(mask | bit) =~= slots@.take(i + 1).to_set());
            lemma_fits_width_by_bits(mask, 3);
            lemma_fits_width_by_bits(mask | bit, 3);
        }
        mask = mask | bit;
        i += 1;
    }
    assert(slots@.take(slots.len() as int) =~= slots@);
    mask
}

/// Spreads a mask over four octets.
pub(crate) fn octets_of(mask: u32) -> (octets: [u8; 4])
    ensures
        forall|index: nat|
            index < 32 ==> #[trigger] octet_bit(octets@, index) == has_bit(mask, index as u32),
{
    let octets = [
        (mask & 0xFF) as u8,
        ((mask >> 8) & 0xFF) as u8,
        ((mask >> 16) & 0xFF) as u8,
        ((mask >> 24) & 0xFF) as u8,
    ];
    proof {
        assert forall|index: nat| index < 32 implies #[trigger] octet_bit(octets@, index)
            == has_bit(mask, index as u32) by {
            let j = (index % 8) as u8;
            let k = index / 8;
            assert(index == 8 * k + j);
            if k == 0 {
                assert(((((mask & 0xFF) as u8) >> j) & 1 == 1) <==> ((mask >> (j as u32)) & 1 == 1))
                    by (bit_vector)
                    requires
                        j < 8,
                ;
            } else if k == 1 {
                assert((((((mask >> 8) & 0xFF) as u8) >> j) & 1 == 1) <==> ((mask >> ((8
                    + j) as u32)) & 1 == 1)) by (bit_vector)
                    requires
                        j < 8,
                ;
            } else if k == 2 {
                assert((((((mask >> 16) & 0xFF) as u8) >> j) & 1 == 1) <==> ((mask >> ((16
                    + j) as u32)) & 1 == 1)) by (bit_vector)
                    requires
                        j < 8,
                ;
            } else {
                assert((((((mask >> 24) & 0xFF) as u8) >> j) & 1 == 1) <==> ((mask >> ((24
                    + j) as u32)) & 1 == 1)) by (bit_vector)
                    requires
                        j < 8,
                ;
            }
        }
    }
    octets
}

/// Gathers a mask from the first `count` of four octets.
pub(crate) fn mask_from_octets(octets: &[u8; 4], count: u8) -> (mask: u32)
    requires
        count <= 4,
    ensures
        forall|index: nat|
            index < 32 ==> #[trigger] has_bit(mask, index as u32) == (index < 8 * count
                && octet_bit(octets@, index)),
{
    let b0: u8 = if count > 0 { octets[0] } else { 0 };
    let b1: u8 = if count > 1 { octets[1] } else { 0 };
    let b2: u8 = if count > 2 { octets[2] } else { 0 };
    let b3: u8 = if count > 3 { octets[3] } else { 0 };
    let mask = (b0 as u32) | ((b1 as u32) << 8) | ((b2 as u32) << 16) | ((b3 as u32) << 24);
    proof {
        assert forall|index: nat| index < 32 implies #[trigger] has_bit(mask, index as u32) == (
        index < 8 * count && octet_bit(octets@, index)) by {
            let j = (index % 8) as u8;
            let k = index / 8;
            assert(index == 8 * k + j);
            assert({
                let m = (b0 as u32) | ((b1 as u32) << 8) | ((b2 as u32) << 16) | ((b3 as u32)
                    << 24);
                &&& (((m >> (j as u32)) & 1 == 1) <==> ((b0 >> j) & 1 == 1))
                &&& (((m >> ((8 + j) as u32)) & 1 == 1) <==> ((b1 >> j) & 1 == 1))
                &&& (((m >> ((16 + j) as u32)) & 1 == 1) <==> ((b2 >> j) & 1 == 1))
                &&& (((m >> ((24 + j) as u32)) & 1 == 1) <==> ((b3 >> j) & 1 == 1))
            }) by (bit_vector)
                requires
                    j < 8,
            ;
            assert(!((0u8 >> j) & 1 == 1)) by (bit_vector)
                requires
                    j < 8,
            ;
        }
    }
    mask
}

} // verus!
