//! The controller flags: which of the four slots took part in a movie.

use vstd::prelude::*;
use bitvec::array::BitArray;
use bitvec::order::Lsb0;
use bitvec::view::BitViewSized;
use crate::error::M64Error;
use crate::layout::CONTROLLER_SLOTS;
use crate::movie::M64File;
use crate::wire::has_bit;

verus! {

/// The bits of one 32-bit word as bitvec's `BitArray<u32, Lsb0>`.  Verus
/// does not look inside; what it holds is known through `bits_held` alone.
#[verifier::external_body]
pub struct FlagBits {
    bits: BitArray<u32, Lsb0>,
}

/// The bits that a `FlagBits` holds, in the order in which it is indexed.
pub uninterp spec fn bits_held(bits: FlagBits) -> Seq<bool>;

/// Calls bitvec's `BitViewSized::into_bitarray` on a `u32`, with the order
/// `Lsb0`.  Taken on trust from bitvec: the array has 32 bits, and its bit
/// `i` is the one that `1 << i` selects in the word.
#[verifier::external_body]
fn word_bits(word: u32) -> (bits: FlagBits)
    ensures
        bits_held(bits).len() == 32,
        forall|i: int|
            0 <= i < 32 ==> #[trigger] bits_held(bits)[i] == (word & (1u32 << (i as u32)) != 0),
{
    FlagBits { bits: word.into_bitarray::<Lsb0>() }
}

/// Indexes bitvec's `BitArray` with a `usize`.  Taken on trust from bitvec:
/// it hands out the bit at that index, and panics only on an index that the
/// array does not have.
#[verifier::external_body]
fn bit_at(bits: &FlagBits, i: usize) -> (bit: bool)
    requires
        i < bits_held(*bits).len(),
    ensures
        bit == bits_held(*bits)[i as int],
{
    bits.bits[i]
}

/// Whether the flags name slot `slot` as active: bit `slot` is set.  Only
/// the four low bits name a slot.
pub open spec fn slot_active(flags: u32, slot: int) -> bool {
    if slot == 0 {
        has_bit(flags, 1)
    } else if slot == 1 {
        has_bit(flags, 2)
    } else if slot == 2 {
        has_bit(flags, 4)
    } else if slot == 3 {
        has_bit(flags, 8)
    } else {
        false
    }
}

/// `slot` alone if it is below `bound` and active, nothing otherwise.
pub open spec fn slot_if_active(flags: u32, slot: usize, bound: int) -> Seq<usize> {
    if slot < bound && slot_active(flags, slot as int) {
        seq![slot]
    } else {
        Seq::empty()
    }
}

/// The active slots below `bound`, in ascending order.
pub open spec fn active_slots_below(flags: u32, bound: int) -> Seq<usize> {
    slot_if_active(flags, 0, bound) + slot_if_active(flags, 1, bound) + slot_if_active(
        flags,
        2,
        bound,
    ) + slot_if_active(flags, 3, bound)
}

/// The active slots, in ascending order.
pub open spec fn active_slots(flags: u32) -> Seq<usize> {
    active_slots_below(flags, 4)
}

/// Whether `list` names slots only, each at most once, in ascending order.
pub open spec fn ascending_slots(list: Seq<usize>) -> bool {
    &&& forall|i: int| 0 <= i < list.len() ==> #[trigger] list[i] < 4
    &&& forall|i: int, j: int| 0 <= i < j < list.len() ==> list[i] < list[j]
}

/// The active slots are slots in ascending order, each named once; a slot is
/// among them exactly if its bit is set, and there is none exactly if the
/// four low bits are all clear.
pub proof fn lemma_active_slots(flags: u32)
    ensures
        ascending_slots(active_slots(flags)),
        active_slots(flags).len() <= 4,
        forall|slot: usize| #[trigger]
            active_slots(flags).contains(slot) <==> slot_active(flags, slot as int),
        active_slots(flags).len() == 0 <==> flags % 16 == 0,
{
    let list = active_slots(flags);
    let s0 = slot_if_active(flags, 0, 4);
    let s1 = slot_if_active(flags, 1, 4);
    let s2 = slot_if_active(flags, 2, 4);
    let s3 = slot_if_active(flags, 3, 4);
    assert forall|slot: usize| #[trigger] list.contains(slot) <==> slot_active(
        flags,
        slot as int,
    ) by {
        if slot_active(flags, slot as int) {
            let at = if slot == 0 {
                0
            } else if slot == 1 {
                s0.len() as int
            } else if slot == 2 {
                (s0 + s1).len() as int
            } else {
                (s0 + s1 + s2).len() as int
            };
            assert(list[at] == slot);
        }
    }
}

/// The bit that `1 << slot` selects is the bit of weight two to the `slot`.
proof fn lemma_selected_bit(flags: u32)
    by (bit_vector)
    ensures
        (flags & (1u32 << 0u32) != 0) == ((flags / 1) % 2 == 1),
        (flags & (1u32 << 1u32) != 0) == ((flags / 2) % 2 == 1),
        (flags & (1u32 << 2u32) != 0) == ((flags / 4) % 2 == 1),
        (flags & (1u32 << 3u32) != 0) == ((flags / 8) % 2 == 1),
{
}

impl M64File {
    /// The slots that `controller_flags` names as active, in ascending
    /// order; `NoActiveControllers` if it names none.
    pub fn active_controllers(controller_flags: u32) -> (res: Result<Vec<usize>, M64Error>)
        ensures
            match res {
                Ok(list) => list@ == active_slots(controller_flags) && list@.len() > 0
                    && ascending_slots(list@),
                Err(e) => e == M64Error::NoActiveControllers && active_slots(controller_flags).len()
                    == 0,
            },
    {
        let bits = word_bits(controller_flags);
        let mut active: Vec<usize> = Vec::new();
        let mut slot: usize = 0;
        while slot < CONTROLLER_SLOTS
            invariant
                slot <= CONTROLLER_SLOTS,
                bits_held(bits).len() == 32,
                forall|i: int|
                    0 <= i < 32 ==> #[trigger] bits_held(bits)[i] == (controller_flags & (1u32 << (
                    i as u32)) != 0),
                active@ == active_slots_below(controller_flags, slot as int),
            decreases CONTROLLER_SLOTS - slot,
        {
            proof {
                lemma_selected_bit(controller_flags);
            }
            if bit_at(&bits, slot) {
                active.push(slot);
            }
            slot = slot + 1;
        }
        proof {
            lemma_active_slots(controller_flags);
        }
        if active.is_empty() {
            Err(M64Error::NoActiveControllers)
        } else {
            Ok(active)
        }
    }
}

} // verus!
