//! The four bookmark slots: independently programmable references to a
//! file, recallable without disturbing the browse cursor.

use vstd::prelude::*;

verus! {

/// Identity of one of the four bookmark slots. The slots are bound to the
/// keys z, x, c and v, in that fixed display order.
#[derive(Clone, Copy, PartialEq, Eq, Structural, Debug)]
pub enum SlotId {
    A,
    B,
    C,
    D,
}

/// The position of a slot in the fixed display order z, x, c, v.
pub open spec fn slot_pos(id: SlotId) -> int {
    match id {
        SlotId::A => 0,
        SlotId::B => 1,
        SlotId::C => 2,
        SlotId::D => 3,
    }
}

/// The key letter that names a slot.
pub open spec fn slot_letter(id: SlotId) -> char {
    match id {
        SlotId::A => 'z',
        SlotId::B => 'x',
        SlotId::C => 'c',
        SlotId::D => 'v',
    }
}

/// The position of a slot in the fixed display order z, x, c, v.
pub fn slot_index(id: SlotId) -> (r: usize)
    ensures
        r as int == slot_pos(id),
{
    match id {
        SlotId::A => 0,
        SlotId::B => 1,
        SlotId::C => 2,
        SlotId::D => 3,
    }
}

/// One bookmark slot: an optional target path, plus the display label
/// captured when the slot was last programmed. A program action overwrites
/// both fields; a recall action never mutates them.
pub struct Slot {
    pub target: Option<String>,
    pub label: String,
}

/// Mathematical value of a bookmark slot.
pub struct SlotV {
    pub target: Option<Seq<char>>,
    pub label: Seq<char>,
}

impl View for Slot {
    type V = SlotV;

    open spec fn view(&self) -> SlotV {
        SlotV {
            target: match self.target {
                Some(p) => Some(p@),
                None => None,
            },
            label: self.label@,
        }
    }
}

impl Slot {
    /// A slot that has never been programmed: no target, empty label.
    pub fn unset() -> (r: Slot)
        ensures
            r@.target is None,
            r@.label == Seq::<char>::empty(),
    {
        Slot { target: None, label: String::new() }
    }
}

} // verus!
