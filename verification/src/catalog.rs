//! The fixed tables of the game: statue colours, holder locations and the
//! ordered catalog of inventory items.

use vstd::prelude::*;

verus! {

/// Colour of a ball statue, of the poster that hints at it, and of the slot
/// it fills once placed.
#[derive(Clone, Copy, Debug, PartialEq, Eq, Structural)]
pub enum StatueColor {
    Red,
    Green,
    Blue,
}

/// One of the three statue holders.
#[derive(Clone, Copy, Debug, PartialEq, Eq, Structural)]
pub enum Location {
    Left,
    Middle,
    Right,
}

/// Number of catalog slots, the empty slot included.
pub const ITEM_COUNT: usize = 5;

/// Catalog slot that stands for "nothing in hand".
pub const EMPTY_SLOT: usize = 4;

/// Label of catalog slot `slot`. Slots 0 to 3 hold the four real items; every
/// other slot reads as the empty label.
pub open spec fn item_label(slot: int) -> Seq<char> {
    if slot == 0 {
        "InvBallStatueRed"@
    } else if slot == 1 {
        "InvBallStatueGreen"@
    } else if slot == 2 {
        "InvBallStatueBlue"@
    } else if slot == 3 {
        "InvBlacklightFlashlight"@
    } else {
        Seq::<char>::empty()
    }
}

/// Catalog slot of `label`: the first slot that carries exactly this label,
/// and the empty slot for every label the catalog does not know.
pub open spec fn slot_of_label(label: Seq<char>) -> int {
    if label == item_label(0) {
        0
    } else if label == item_label(1) {
        1
    } else if label == item_label(2) {
        2
    } else if label == item_label(3) {
        3
    } else {
        EMPTY_SLOT as int
    }
}

/// Inventory label of the statue of colour `color`.
pub open spec fn statue_label(color: StatueColor) -> Seq<char> {
    match color {
        StatueColor::Red => item_label(0),
        StatueColor::Green => item_label(1),
        StatueColor::Blue => item_label(2),
    }
}

/// Label of the flashlight in the inventory.
pub open spec fn flashlight_label() -> Seq<char> {
    item_label(3)
}

/// The colour whose statue carries inventory label `label`, if any.
pub open spec fn statue_color_of_label(label: Seq<char>) -> Option<StatueColor> {
    if label == statue_label(StatueColor::Blue) {
        Some(StatueColor::Blue)
    } else if label == statue_label(StatueColor::Green) {
        Some(StatueColor::Green)
    } else if label == statue_label(StatueColor::Red) {
        Some(StatueColor::Red)
    } else {
        None
    }
}

/// The four real labels have pairwise different lengths, and none is empty.
pub proof fn lemma_item_label_lengths()
    ensures
        item_label(0).len() == 16,
        item_label(1).len() == 18,
        item_label(2).len() == 17,
        item_label(3).len() == 23,
        item_label(4).len() == 0,
{
    reveal_strlit("InvBallStatueRed");
    reveal_strlit("InvBallStatueGreen");
    reveal_strlit("InvBallStatueBlue");
    reveal_strlit("InvBlacklightFlashlight");
}

/// Looking a catalog label up gives back the slot it was read from: no two
/// slots share a label.
pub proof fn lemma_slot_of_item_label(slot: int)
    requires
        0 <= slot < ITEM_COUNT,
    ensures
        slot_of_label(item_label(slot)) == slot,
{
    lemma_item_label_lengths();
}

/// A label that the catalog finds in a real slot is that slot's label.
pub proof fn lemma_item_label_of_slot(label: Seq<char>)
    ensures
        0 <= slot_of_label(label) < ITEM_COUNT,
        slot_of_label(label) != EMPTY_SLOT ==> item_label(slot_of_label(label)) == label,
{
}

/// Each statue colour has its own inventory label, and the label names the
/// colour again.
pub proof fn lemma_statue_color_of_statue_label(color: StatueColor)
    ensures
        statue_color_of_label(statue_label(color)) == Some(color),
        statue_label(color) != flashlight_label(),
        statue_label(color).len() > 0,
{
    lemma_item_label_lengths();
}

/// Label of catalog slot `slot`.
pub fn item_name(slot: usize) -> (name: &'static str)
    requires
        slot < ITEM_COUNT,
    ensures
        name@ == item_label(slot as int),
{
    if slot == 0 {
        "InvBallStatueRed"
    } else if slot == 1 {
        "InvBallStatueGreen"
    } else if slot == 2 {
        "InvBallStatueBlue"
    } else if slot == 3 {
        "InvBlacklightFlashlight"
    } else {
        proof {
            reveal_strlit("");
            assert(""@ =~= Seq::<char>::empty());
        }
        ""
    }
}

/// Inventory label of the statue of colour `color`.
pub fn statue_name_for_color(color: StatueColor) -> (name: &'static str)
    ensures
        name@ == statue_label(color),
{
    match color {
        StatueColor::Red => "InvBallStatueRed",
        StatueColor::Green => "InvBallStatueGreen",
        StatueColor::Blue => "InvBallStatueBlue",
    }
}

} // verus!
