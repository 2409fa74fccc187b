//! Per-slot uniform storage: one byte buffer per concurrency slot, so
//! a frame's transform data can be rewritten without touching a slot
//! the device may still be reading.

use vstd::prelude::*;

verus! {

/// One equally sized byte buffer per frame slot. The renderer writes
/// fresh per-frame data into the active slot's buffer each cycle;
/// the other slots' bytes stay as they are.
pub struct UniformSlots {
    pub slots: Vec<Vec<u8>>,
    pub slot_size: usize,
}

impl View for UniformSlots {
    type V = Seq<Seq<u8>>;

    open spec fn view(&self) -> Seq<Seq<u8>> {
        Seq::new(self.slots@.len(), |i: int| self.slots@[i]@)
    }
}

impl UniformSlots {
    /// Every slot holds exactly `slot_size` bytes.
    pub open spec fn spec_well_formed(self) -> bool {
        forall|i: int| 0 <= i < self.slots@.len() ==> self.slots@[i]@.len() == self.slot_size
    }

    /// Builds `slot_count` zero-filled buffers of `slot_size` bytes.
    pub fn new(slot_count: usize, slot_size: usize) -> (s: Self)
        ensures
            s.spec_well_formed(),
            s.slot_size == slot_size,
            s@.len() == slot_count,
            forall|i: int, j: int| 0 <= i < slot_count && 0 <= j < slot_size ==> s@[i][j] == 0u8,
    {
        let mut slots: Vec<Vec<u8>> = Vec::new();
        let mut i: usize = 0;
        while i < slot_count
            invariant
                0 <= i <= slot_count,
                slots@.len() == i,
                forall|k: int| 0 <= k < i ==> slots@[k]@.len() == slot_size,
                forall|k: int, j: int| 0 <= k < i && 0 <= j < slot_size ==> slots@[k]@[j] == 0u8,
            decreases slot_count - i,
        {
            let mut buffer: Vec<u8> = Vec::new();
            let mut j: usize = 0;
            while j < slot_size
                invariant
                    0 <= j <= slot_size,
                    buffer@.len() == j,
                    forall|m: int| 0 <= m < j ==> buffer@[m] == 0u8,
                decreases slot_size - j,
            {
                buffer.push(0u8);
                j = j + 1;
            }

            slots.push(buffer);
            i = i + 1;
        }

        UniformSlots { slots, slot_size }
    }

    /// How many slots there are.
    pub fn slot_count(&self) -> (n: usize)
        ensures
            n == self@.len(),
    {
        self.slots.len()
    }

    /// Writes one cycle's data into the active slot's buffer, as the
    /// direct memory copy into the mapped buffer does: that slot
    /// holds exactly the bytes written, and no other slot changes.
    pub fn write_slot(&mut self, slot: usize, data: &Vec<u8>)
        requires
            old(self).spec_well_formed(),
            slot < old(self)@.len(),
            data@.len() == old(self).slot_size,
        ensures
            final(self).spec_well_formed(),
            final(self).slot_size == old(self).slot_size,
            final(self)@ == old(self)@.update(slot as int, data@),
            final(self)@[slot as int] == data@,
            forall|k: int| 0 <= k < old(self)@.len() && k != slot ==> final(self)@[k] == old(self)@[k],
    {
        let mut fresh: Vec<u8> = Vec::new();
        let mut j: usize = 0;
        while j < data.len()
            invariant
                0 <= j <= data@.len(),
                fresh@.len() == j,
                forall|m: int| 0 <= m < j ==> fresh@[m] == data@[m],
            decreases data@.len() - j,
        {
            fresh.push(data[j]);
            j = j + 1;
        }

        proof {
            assert(fresh@ =~= data@);
        }
        self.slots[slot] = fresh;
        proof {
            assert(self@ =~= old(self)@.update(slot as int, data@));
        }
    }

    /// The bytes currently held by one slot.
    pub fn read_slot(&self, slot: usize) -> (bytes: &Vec<u8>)
        requires
            slot < self@.len(),
        ensures
            bytes@ == self@[slot as int],
    {
        &self.slots[slot]
    }
}

/// The round trip of per-frame data: the bytes written into slot `k`
/// in one cycle are exactly the bytes that slot holds while the
/// device reads them, and the next cycle's write — which goes to a
/// different slot — leaves them untouched. Together with the fence
/// wait at the head of every cycle (a slot is rewritten only after
/// its own previous work is fenced), no slot is overwritten while
/// the device may still read it.
pub proof fn lemma_slot_round_trip(slots: Seq<Seq<u8>>, k: int, j: int, data: Seq<u8>, later: Seq<
    u8,
>)
    requires
        0 <= k < slots.len(),
        0 <= j < slots.len(),
        j != k,
    ensures
        slots.update(k, data)[k] == data,
        slots.update(k, data).update(j, later)[k] == data,
{
}

} // verus!
