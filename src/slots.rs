use vstd::prelude::*;

use crate::value::{GenericValue, ValueModel};

verus! {

/// Caller-owned storage for output parameters. A slot is handed to a call
/// as [`GenericValue::ByRef`] of its index; after the call the caller reads
/// the slot itself, never the reference.
pub struct OutSlots {
    slots: Vec<GenericValue>,
}

impl View for OutSlots {
    type V = Seq<ValueModel>;

    closed spec fn view(&self) -> Seq<ValueModel> {
        self.slots@.map_values(|v: GenericValue| v@)
    }
}

impl OutSlots {
    pub fn new() -> (r: OutSlots)
        ensures
            r@ == Seq::<ValueModel>::empty(),
    {
        OutSlots { slots: Vec::new() }
    }

    pub fn len(&self) -> (r: usize)
        ensures
            r == self@.len(),
    {
        self.slots.len()
    }

    /// Adds an empty slot and returns the reference to it.
    pub fn reserve(&mut self) -> (r: GenericValue)
        requires
            old(self)@.len() < usize::MAX,
        ensures
            final(self)@ == old(self)@.push(ValueModel::Empty),
            r@ == ValueModel::ByRef(old(self)@.len()),
    {
        let i = self.slots.len();
        self.slots.push(GenericValue::Empty);
        assert(self@ =~= old(self)@.push(ValueModel::Empty));
        GenericValue::ByRef(i)
    }

    /// Fills slot `index` with what the call wrote there.
    pub fn store(&mut self, index: usize, v: GenericValue)
        requires
            index < old(self)@.len(),
        ensures
            final(self)@ == old(self)@.update(index as int, v@),
    {
        let ghost m = v@;
        self.slots.set(index, v);
        assert(self@ =~= old(self)@.update(index as int, m));
    }

    pub fn get(&self, index: usize) -> (r: &GenericValue)
        requires
            index < self@.len(),
        ensures
            r@ == self@[index as int],
    {
        &self.slots[index]
    }
}

/// What is stored into an output slot is what the caller reads back from it,
/// and the other slots keep their values.
pub proof fn lemma_out_slot_round_trip(slots: Seq<ValueModel>, index: int, v: ValueModel, other: int)
    requires
        0 <= index < slots.len(),
        0 <= other < slots.len(),
        other != index,
    ensures
        slots.update(index, v)[index] == v,
        slots.update(index, v)[other] == slots[other],
        slots.update(index, v).len() == slots.len(),
{
}

} // verus!
