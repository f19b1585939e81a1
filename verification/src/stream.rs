//! The stream of samples behind the header.  The active controllers take
//! turns in it: the record at position `p` belongs to the controller whose
//! turn `p` is, and the records of one controller keep their order.

use vstd::prelude::*;
use crate::error::M64Error;
use crate::input::Input;
use crate::layout::CONTROLLER_SLOTS;
use crate::layout::SAMPLE_SIZE;
use crate::movie::lanes;
use crate::movie::ByteVec;
use crate::movie::Controllers;
use crate::wire::le_byte;
use crate::wire::lemma_u32_read_back;
use crate::wire::read_u32;
use crate::wire::u32_at;
use crate::wire::u32_bytes;

verus! {

/// The records that `bytes` hold, one for every four bytes.
pub open spec fn samples(bytes: Seq<u8>) -> Seq<Input> {
    Seq::new(bytes.len() / 4, |p: int| Input::spec_from_word(u32_at(bytes, 4 * p)))
}

/// The bytes that hold `records`, four for each.
pub open spec fn sample_bytes(records: Seq<Input>) -> Seq<u8> {
    Seq::new(4 * records.len(), |b: int| le_byte(records[b / 4].spec_to_word(), b % 4))
}

/// Whether `active` can steer a stream: it names at least one slot, and
/// slots only.
pub open spec fn steers(active: Seq<usize>) -> bool {
    &&& active.len() > 0
    &&& forall|j: int| 0 <= j < active.len() ==> #[trigger] active[j] < 4
}

/// The slot whose turn it is at position `p` of the stream.
pub open spec fn turn(active: Seq<usize>, p: int) -> usize {
    active[p % (active.len() as int)]
}

/// The positions below `count` at which it is the turn of `slot`, ascending.
pub open spec fn turns_of(count: nat, active: Seq<usize>, slot: usize) -> Seq<int> {
    Seq::new(count, |p: int| p).filter(|p: int| turn(active, p) == slot)
}

/// The records at the given positions.
pub open spec fn picked(records: Seq<Input>, positions: Seq<int>) -> Seq<Input> {
    positions.map_values(|p: int| records[p])
}

/// The records of the stream that belong to `slot`, in the order of the
/// stream.
pub open spec fn lane(records: Seq<Input>, active: Seq<usize>, slot: usize) -> Seq<Input> {
    picked(records, turns_of(records.len(), active, slot))
}

/// The stream taken apart: for each of the four slots its records.
pub open spec fn demux(records: Seq<Input>, active: Seq<usize>) -> Seq<Seq<Input>> {
    Seq::new(4, |slot: int| lane(records, active, slot as usize))
}

/// The number of frames that the lanes hold: the length of the lane of the
/// first active slot.
pub open spec fn frame_count(lanes: Seq<Seq<Input>>, active: Seq<usize>) -> nat {
    lanes[active[0] as int].len()
}

/// Whether the lanes can be put together over `active`: every active slot
/// holds the same number of records and every other slot none.
pub open spec fn lanes_agree(lanes: Seq<Seq<Input>>, active: Seq<usize>) -> bool {
    forall|slot: int|
        0 <= slot < 4 ==> (#[trigger] lanes[slot]).len() == (if active.contains(slot as usize) {
            frame_count(lanes, active)
        } else {
            0
        })
}

/// The lanes put together: frame by frame, and within a frame in the order
/// of `active`.
pub open spec fn mux(lanes: Seq<Seq<Input>>, active: Seq<usize>) -> Seq<Input> {
    Seq::new(
        frame_count(lanes, active) * active.len(),
        |p: int| lanes[turn(active, p) as int][p / (active.len() as int)],
    )
}

/// One more position adds itself to the turns of the slot whose turn it is,
/// and to no other.
pub proof fn lemma_turns_step(count: nat, active: Seq<usize>, slot: usize)
    ensures
        turns_of(count + 1, active, slot) == (if turn(active, count as int) == slot {
            turns_of(count, active, slot).push(count as int)
        } else {
            turns_of(count, active, slot)
        }),
{
    let before = Seq::new(count, |p: int| p);
    let after = Seq::new(count + 1, |p: int| p);
    assert(after =~= before.push(count as int));
    before.lemma_filter_push(count as int, |p: int| turn(active, p) == slot);
}

/// How many of the positions below `count` are turn `j` of their frame,
/// where a frame has `turns` turns.
pub open spec fn stride_len(count: nat, turns: int, j: int) -> nat {
    (count as int / turns + (if j < count as int % turns {
        1int
    } else {
        0int
    })) as nat
}

/// A slot that `active` does not name has no turn.
pub proof fn lemma_idle_slot_has_no_turn(count: nat, active: Seq<usize>, slot: usize)
    requires
        active.len() > 0,
        !active.contains(slot),
    ensures
        turns_of(count, active, slot).len() == 0,
    decreases count,
{
    if count == 0 {
        Seq::new(0, |p: int| p).lemma_filter_len(|p: int| turn(active, p) == slot);
    } else {
        let last = (count - 1) as nat;
        lemma_idle_slot_has_no_turn(last, active, slot);
        lemma_turns_step(last, active, slot);
        assert(active.contains(turn(active, last as int)));
    }
}

/// Where `active` names no slot twice, the turns of the slot at place `j`
/// are every `active.len()`-th position from `j` on.
pub proof fn lemma_turns_stride(count: nat, active: Seq<usize>, j: int)
    requires
        0 <= j < active.len(),
        active.no_duplicates(),
    ensures
        turns_of(count, active, active[j]) == Seq::new(
            stride_len(count, active.len() as int, j),
            |f: int| f * active.len() + j,
        ),
    decreases count,
{
    let turns = active.len() as int;
    let slot = active[j];
    let strides = Seq::new(stride_len(count, turns, j), |f: int| f * turns + j);
    if count == 0 {
        Seq::new(0, |p: int| p).lemma_filter_len(|p: int| turn(active, p) == slot);
        vstd::arithmetic::div_mod::lemma_fundamental_div_mod_converse(0, turns, 0, 0);
        assert(turns_of(count, active, slot) =~= strides);
    } else {
        let last = (count - 1) as int;
        let q = last / turns;
        let r = last % turns;
        lemma_turns_stride(last as nat, active, j);
        lemma_turns_step(last as nat, active, slot);
        vstd::arithmetic::div_mod::lemma_fundamental_div_mod(last, turns);
        assert(turns * q == q * turns) by (nonlinear_arith);
        if r + 1 < turns {
            vstd::arithmetic::div_mod::lemma_fundamental_div_mod_converse(
                count as int,
                turns,
                q,
                r + 1,
            );
        } else {
            assert((q + 1) * turns == q * turns + turns) by (nonlinear_arith);
            vstd::arithmetic::div_mod::lemma_fundamental_div_mod_converse(
                count as int,
                turns,
                q + 1,
                0,
            );
        }
        assert(turns_of(count, active, slot) =~= strides);
    }
}

/// A slot that `active` does not name gets no record.
pub proof fn lemma_lane_of_idle_slot(records: Seq<Input>, active: Seq<usize>, slot: usize)
    requires
        active.len() > 0,
        !active.contains(slot),
    ensures
        lane(records, active, slot) == Seq::<Input>::empty(),
{
    lemma_idle_slot_has_no_turn(records.len(), active, slot);
    assert(lane(records, active, slot) =~= Seq::<Input>::empty());
}

/// Where `active` names no slot twice, the slot at place `j` gets every
/// `active.len()`-th record of the stream from record `j` on.
pub proof fn lemma_lane_is_stride(records: Seq<Input>, active: Seq<usize>, j: int)
    requires
        0 <= j < active.len(),
        active.no_duplicates(),
    ensures
        lane(records, active, active[j]) == Seq::new(
            stride_len(records.len(), active.len() as int, j),
            |f: int| records[f * active.len() + j],
        ),
{
    lemma_turns_stride(records.len(), active, j);
    assert(lane(records, active, active[j]) =~= Seq::new(
        stride_len(records.len(), active.len() as int, j),
        |f: int| records[f * active.len() + j],
    ));
}

/// The bytes of records hold those records.
pub proof fn lemma_samples_round_trip(records: Seq<Input>)
    ensures
        samples(sample_bytes(records)) == records,
{
    let bytes = sample_bytes(records);
    assert forall|p: int| 0 <= p < records.len() implies #[trigger] samples(bytes)[p]
        == records[p] by {
        let word = records[p].spec_to_word();
        lemma_u32_read_back(bytes, 4 * p, word);
        records[p].lemma_word_round_trip();
    }
    assert(samples(bytes) =~= records);
}

/// Taking apart what was put together gives the lanes back, where `active`
/// names no slot twice.
pub proof fn lemma_demux_mux(lanes: Seq<Seq<Input>>, active: Seq<usize>)
    requires
        lanes.len() == 4,
        steers(active),
        active.no_duplicates(),
        lanes_agree(lanes, active),
    ensures
        demux(mux(lanes, active), active) == lanes,
{
    let turns = active.len() as int;
    let count = frame_count(lanes, active);
    let records = mux(lanes, active);
    assert forall|slot: int| 0 <= slot < 4 implies lane(records, active, slot as usize)
        == #[trigger] lanes[slot] by {
        if active.contains(slot as usize) {
            let j = active.index_of(slot as usize);
            lemma_lane_is_stride(records, active, j);
            vstd::arithmetic::div_mod::lemma_fundamental_div_mod_converse(
                count * turns,
                turns,
                count as int,
                0,
            );
            assert forall|f: int| 0 <= f < count implies records[f * turns + j]
                == lanes[slot][f] by {
                lemma_position(f, turns, j);
                assert((f + 1) * turns <= count * turns) by (nonlinear_arith)
                    requires
                        f < count,
                        0 < turns,
                ;
            }
            assert(lane(records, active, slot as usize) =~= lanes[slot]);
        } else {
            lemma_lane_of_idle_slot(records, active, slot as usize);
            assert(lane(records, active, slot as usize) =~= lanes[slot]);
        }
    }
    assert(demux(records, active) =~= lanes);
}

/// Position `frame * turns + j` is turn `j` of frame `frame`.
pub proof fn lemma_position(frame: int, turns: int, j: int)
    requires
        0 <= frame,
        0 <= j < turns,
    ensures
        (frame * turns + j) / turns == frame,
        (frame * turns + j) % turns == j,
        0 <= frame * turns + j < (frame + 1) * turns,
{
    vstd::arithmetic::div_mod::lemma_fundamental_div_mod_converse(
        frame * turns + j,
        turns,
        frame,
        j,
    );
    assert((frame + 1) * turns == frame * turns + turns) by (nonlinear_arith);
    assert(0 <= frame * turns) by (nonlinear_arith)
        requires
            0 <= frame,
            0 < turns,
    ;
}

/// Tells whether `active` names `slot`.
fn names(active: &Vec<usize>, slot: usize) -> (found: bool)
    ensures
        found == active@.contains(slot),
{
    let mut j: usize = 0;
    while j < active.len()
        invariant
            j <= active.len(),
            forall|i: int| 0 <= i < j ==> active@[i] != slot,
        decreases active.len() - j,
    {
        if active[j] == slot {
            return true;
        }
        j = j + 1;
    }
    false
}

/// Tells whether the lanes can be put together over `active`.
fn agree(inputs: &Controllers, active: &Vec<usize>) -> (ok: bool)
    requires
        steers(active@),
    ensures
        ok == lanes_agree(lanes(*inputs), active@),
{
    let frames = inputs[active[0]].len();
    let mut slot: usize = 0;
    while slot < CONTROLLER_SLOTS
        invariant
            slot <= CONTROLLER_SLOTS,
            steers(active@),
            frames == frame_count(lanes(*inputs), active@),
            forall|s: int|
                0 <= s < slot ==> (#[trigger] lanes(*inputs)[s]).len() == (if active@.contains(
                    s as usize,
                ) {
                    frame_count(lanes(*inputs), active@)
                } else {
                    0
                }),
        decreases CONTROLLER_SLOTS - slot,
    {
        let expected = if names(active, slot) {
            frames
        } else {
            0
        };
        if inputs[slot].len() != expected {
            assert(lanes(*inputs)[slot as int].len() != expected);
            return false;
        }
        slot = slot + 1;
    }
    true
}

/// Appends the four little-endian bytes of `word` to `out`.
fn push_word(out: &mut Vec<u8>, word: u32)
    ensures
        final(out)@ == old(out)@ + u32_bytes(word),
{
    out.push((word % 0x100) as u8);
    out.push((word / 0x100 % 0x100) as u8);
    out.push((word / 0x1_0000 % 0x100) as u8);
    out.push((word / 0x100_0000) as u8);
}

impl Input {
    /// Puts the samples of the active controllers together into one stream:
    /// frame by frame, and within a frame in the order of
    /// `active_controllers`.  The result is `MismatchedControllerLengths`
    /// unless the active slots hold equally many samples and the others none.
    pub fn samples_to_bytes(inputs: &Controllers, active_controllers: &Vec<usize>) -> (res: Result<
        ByteVec,
        M64Error,
    >)
        requires
            steers(active_controllers@),
        ensures
            !lanes_agree(lanes(*inputs), active_controllers@) ==> res == Err::<ByteVec, M64Error>(
                M64Error::MismatchedControllerLengths,
            ),
            lanes_agree(lanes(*inputs), active_controllers@) ==> res is Ok && (res->Ok_0)@
                == sample_bytes(mux(lanes(*inputs), active_controllers@)),
    {
        if !agree(inputs, active_controllers) {
            return Err(M64Error::MismatchedControllerLengths);
        }
        let turns = active_controllers.len();
        let frames = inputs[active_controllers[0]].len();
        let ghost active = active_controllers@;
        let ghost records = mux(lanes(*inputs), active);
        let ghost whole = sample_bytes(records);
        let mut out: Vec<u8> = Vec::new();
        let mut frame: usize = 0;
        assert(0 * turns == 0);
        while frame < frames
            invariant
                frame <= frames,
                turns == active.len(),
                steers(active),
                active == active_controllers@,
                lanes_agree(lanes(*inputs), active),
                frames == frame_count(lanes(*inputs), active),
                records == mux(lanes(*inputs), active),
                whole == sample_bytes(records),
                out@ == whole.take(4 * (frame * turns)),
            decreases frames - frame,
        {
            let mut j: usize = 0;
            while j < turns
                invariant
                    j <= turns,
                    frame < frames,
                    turns == active.len(),
                    steers(active),
                    active == active_controllers@,
                    lanes_agree(lanes(*inputs), active),
                    frames == frame_count(lanes(*inputs), active),
                    records == mux(lanes(*inputs), active),
                    whole == sample_bytes(records),
                    out@ == whole.take(4 * (frame * turns + j)),
                decreases turns - j,
            {
                let slot = active_controllers[j];
                proof {
                    lemma_position(frame as int, turns as int, j as int);
                    assert((frame + 1) * turns <= frames * turns) by (nonlinear_arith)
                        requires
                            frame < frames,
                            0 < turns,
                    ;
                    assert(active.contains(slot));
                    assert(lanes(*inputs)[slot as int].len() == frames);
                }
                let word = inputs[slot][frame].to_word();
                let ghost p = frame * turns + j;
                push_word(&mut out, word);
                proof {
                    assert(records[p] == lanes(*inputs)[slot as int][frame as int]);
                    assert(out@ =~= whole.take(4 * (p + 1)));
                }
                j = j + 1;
            }
            proof {
                assert((frame + 1) * turns == frame * turns + turns) by (nonlinear_arith);
            }
            frame = frame + 1;
        }
        assert(out@ == whole);
        Ok(out)
    }

    /// Takes the sample stream apart.  `sample_bytes` are whole records of
    /// four bytes, else the result is `TruncatedSampleData`; the record at
    /// position `p` goes to the end of the samples of the slot whose turn
    /// `p` is.
    pub fn parse(sample_bytes: &[u8], active_controllers: &Vec<usize>) -> (res: Result<
        Controllers,
        M64Error,
    >)
        requires
            steers(active_controllers@),
        ensures
            sample_bytes.len() % 4 != 0 ==> res == Err::<Controllers, M64Error>(
                M64Error::TruncatedSampleData,
            ),
            sample_bytes.len() % 4 == 0 ==> res is Ok && lanes(res->Ok_0) == demux(
                samples(sample_bytes@),
                active_controllers@,
            ),
    {
        if sample_bytes.len() % SAMPLE_SIZE != 0 {
            return Err(M64Error::TruncatedSampleData);
        }
        let count = sample_bytes.len() / SAMPLE_SIZE;
        let turns = active_controllers.len();
        let ghost records = samples(sample_bytes@);
        let ghost active = active_controllers@;
        let mut inputs: Controllers = [Vec::new(), Vec::new(), Vec::new(), Vec::new()];
        let mut position: usize = 0;
        assert forall|slot: int| 0 <= slot < 4 implies #[trigger] lanes(inputs)[slot] == picked(
            records,
            turns_of(0, active, slot as usize),
        ) by {
            assert(Seq::new(0, |p: int| p) =~= Seq::<int>::empty());
            assert(turns_of(0, active, slot as usize).len() == 0) by {
                Seq::new(0, |p: int| p).lemma_filter_len(|p: int| turn(active, p) == slot as usize);
            }
        }
        while position < count
            invariant
                position <= count,
                count * 4 == sample_bytes.len(),
                turns == active_controllers.len(),
                steers(active_controllers@),
                records == samples(sample_bytes@),
                active == active_controllers@,
                forall|slot: int|
                    0 <= slot < 4 ==> #[trigger] lanes(inputs)[slot] == picked(
                        records,
                        turns_of(position as nat, active, slot as usize),
                    ),
            decreases count - position,
        {
            let word = read_u32(sample_bytes, position * SAMPLE_SIZE);
            let slot = active_controllers[position % turns];
            let ghost before = lanes(inputs);
            inputs[slot].push(Input::from_word(word));
            proof {
                assert forall|s: int| 0 <= s < 4 implies #[trigger] lanes(inputs)[s] == picked(
                    records,
                    turns_of((position + 1) as nat, active, s as usize),
                ) by {
                    lemma_turns_step(position as nat, active, s as usize);
                    let old_turns = turns_of(position as nat, active, s as usize);
                    if s == slot {
                        assert(lanes(inputs)[s] == before[s].push(records[position as int]));
                        assert(picked(records, old_turns.push(position as int)) =~= picked(
                            records,
                            old_turns,
                        ).push(records[position as int]));
                    } else {
                        assert(lanes(inputs)[s] == before[s]);
                    }
                }
            }
            position = position + 1;
        }
        Ok(inputs)
    }
}

} // verus!
