//! The player: which items are owned, and which catalog slot the equip
//! cursor points at. The cursor moves over all slots, owned or not; what the
//! player holds in hand is the cursor's item only if it is owned.

use vstd::prelude::*;
use vstd::hash_set::StringHashSet;
use crate::catalog::{
    item_label, item_name, lemma_item_label_lengths, lemma_slot_of_item_label, slot_of_label,
    EMPTY_SLOT, ITEM_COUNT,
};
use crate::text::str_eq;

verus! {

/// Direction in which the equip cursor is moved.
#[derive(Clone, Copy, Debug, PartialEq, Eq, Structural)]
pub enum EquipDirection {
    /// Towards the previous catalog slot; from the first slot to the last.
    Up,
    /// Towards the next catalog slot; from the last slot to the first.
    Down,
}

/// Mathematical content of a [`Player`].
pub struct PlayerView {
    /// Catalog slot under the equip cursor.
    pub equipped: int,
    /// Labels of the items owned.
    pub inventory: Set<Seq<char>>,
}

impl PlayerView {
    /// The cursor points at a catalog slot.
    pub open spec fn wf(self) -> bool {
        0 <= self.equipped < ITEM_COUNT
    }

    /// The player at the start of the game: nothing owned, cursor on the
    /// empty slot.
    pub open spec fn start() -> PlayerView {
        PlayerView { equipped: EMPTY_SLOT as int, inventory: Set::empty() }
    }

    /// Label of the item in hand: the label under the cursor if that item is
    /// owned, and the empty label otherwise.
    pub open spec fn equipped_label(self) -> Seq<char> {
        if self.inventory.contains(item_label(self.equipped)) {
            item_label(self.equipped)
        } else {
            Seq::empty()
        }
    }

    /// The player after the cursor moved one slot in `direction`, wrapping
    /// around the catalog. Ownership plays no part.
    pub open spec fn cycle_equip(self, direction: EquipDirection) -> PlayerView {
        PlayerView {
            equipped: match direction {
                EquipDirection::Down => (self.equipped + 1) % (ITEM_COUNT as int),
                EquipDirection::Up => (self.equipped + ITEM_COUNT - 1) % (ITEM_COUNT as int),
            },
            inventory: self.inventory,
        }
    }

    /// The player after picking up the item labelled `label`: the item is
    /// owned and the cursor stands on its slot.
    pub open spec fn acquire(self, label: Seq<char>) -> PlayerView {
        PlayerView { equipped: slot_of_label(label), inventory: self.inventory.insert(label) }
    }

    /// The player after giving away the item labelled `label`.
    pub open spec fn relinquish(self, label: Seq<char>) -> PlayerView {
        PlayerView { equipped: self.equipped, inventory: self.inventory.remove(label) }
    }

    /// The player after getting back the item labelled `label`; the cursor
    /// stays where it is.
    pub open spec fn take_back(self, label: Seq<char>) -> PlayerView {
        PlayerView { equipped: self.equipped, inventory: self.inventory.insert(label) }
    }
}

/// The equip cursor: a catalog slot, always within the catalog.
pub struct EquipCursor {
    slot: usize,
}

impl View for EquipCursor {
    type V = int;

    closed spec fn view(&self) -> int {
        self.slot as int
    }
}

impl EquipCursor {
    #[verifier::type_invariant]
    spec fn in_catalog(&self) -> bool {
        self.slot < ITEM_COUNT
    }

    /// A cursor on the empty slot.
    pub fn new() -> (cursor: EquipCursor)
        ensures
            cursor@ == EMPTY_SLOT,
    {
        EquipCursor { slot: EMPTY_SLOT }
    }

    /// A cursor on catalog slot `slot`.
    fn at(slot: usize) -> (cursor: EquipCursor)
        requires
            slot < ITEM_COUNT,
        ensures
            cursor@ == slot,
    {
        EquipCursor { slot }
    }

    /// The slot under the cursor.
    pub fn slot(&self) -> (slot: usize)
        ensures
            slot == self@,
            slot < ITEM_COUNT,
    {
        proof {
            use_type_invariant(self);
        }
        self.slot
    }

    /// The cursor one slot further in `direction`, wrapping around the
    /// catalog.
    pub fn step(&self, direction: EquipDirection) -> (moved: EquipCursor)
        ensures
            0 <= self@ < ITEM_COUNT,
            moved@ == match direction {
                EquipDirection::Down => (self@ + 1) % (ITEM_COUNT as int),
                EquipDirection::Up => (self@ + ITEM_COUNT - 1) % (ITEM_COUNT as int),
            },
    {
        proof {
            use_type_invariant(self);
        }
        match direction {
            EquipDirection::Down => {
                if self.slot == EMPTY_SLOT {
                    EquipCursor { slot: 0 }
                } else {
                    EquipCursor { slot: self.slot + 1 }
                }
            },
            EquipDirection::Up => {
                if self.slot == 0 {
                    EquipCursor { slot: EMPTY_SLOT }
                } else {
                    EquipCursor { slot: self.slot - 1 }
                }
            },
        }
    }
}

/// The player's inventory and equip cursor.
pub struct Player {
    cursor: EquipCursor,
    inventory: StringHashSet,
}

impl View for Player {
    type V = PlayerView;

    closed spec fn view(&self) -> PlayerView {
        PlayerView { equipped: self.cursor@, inventory: self.inventory@ }
    }
}

impl Default for Player {
    fn default() -> (player: Player)
        ensures
            player@ == PlayerView::start(),
    {
        Player { cursor: EquipCursor::new(), inventory: StringHashSet::new() }
    }
}

impl Player {
    /// The catalog slot under the equip cursor.
    pub fn equipped(&self) -> (slot: usize)
        ensures
            slot == self@.equipped,
            self@.wf(),
    {
        self.cursor.slot()
    }

    /// Whether the item labelled `label` is owned.
    pub fn owns(&self, label: &str) -> (owned: bool)
        ensures
            owned == self@.inventory.contains(label@),
    {
        self.inventory.contains(label)
    }

    /// Label of the item in hand; empty when the item under the cursor is
    /// not owned.
    pub fn equipped_name(&self) -> (name: &'static str)
        ensures
            name@ == self@.equipped_label(),
            self@.wf(),
    {
        let name = item_name(self.cursor.slot());
        if self.inventory.contains(name) {
            name
        } else {
            proof {
                reveal_strlit("");
                assert(""@ =~= Seq::<char>::empty());
            }
            ""
        }
    }

    /// Catalog slot of `name`; the empty slot for a name the catalog lacks.
    pub fn item_index(name: &str) -> (slot: usize)
        ensures
            slot == slot_of_label(name@),
            slot < ITEM_COUNT,
    {
        let mut slot: usize = 0;
        while slot < EMPTY_SLOT
            invariant
                slot <= EMPTY_SLOT,
                forall|earlier: int| 0 <= earlier < slot ==> name@ != item_label(earlier),
            decreases EMPTY_SLOT - slot,
        {
            if str_eq(item_name(slot), name) {
                return slot;
            }
            slot = slot + 1;
        }
        slot
    }

    /// Moves the equip cursor one slot in `direction`, wrapping around the
    /// catalog.
    pub fn cycle_equip(&mut self, direction: EquipDirection)
        ensures
            final(self)@ == old(self)@.cycle_equip(direction),
            final(self)@.wf(),
    {
        self.cursor = self.cursor.step(direction);
    }

    /// Picks up the item labelled `label`: it becomes owned, and the cursor
    /// moves to its catalog slot (to the empty slot for a label the catalog
    /// lacks).
    pub fn acquire(&mut self, label: &str)
        ensures
            final(self)@ == old(self)@.acquire(label@),
            final(self)@.wf(),
    {
        self.inventory.insert(label.to_owned());
        self.cursor = EquipCursor::at(Self::item_index(label));
    }

    /// Gives away the item labelled `label`; nothing happens if it is not
    /// owned.
    pub fn relinquish(&mut self, label: &str)
        ensures
            final(self)@ == old(self)@.relinquish(label@),
            final(self)@.wf(),
    {
        proof {
            use_type_invariant(&self.cursor);
        }
        self.inventory.remove(label);
    }

    /// Gets back the item labelled `label` without touching the cursor.
    pub fn take_back(&mut self, label: &str)
        ensures
            final(self)@ == old(self)@.take_back(label@),
            final(self)@.wf(),
    {
        proof {
            use_type_invariant(&self.cursor);
        }
        self.inventory.insert(label.to_owned());
    }
}

/// The equip cursor wraps both ways: down from the last slot leads to the
/// first, up from the first to the last, and everywhere else one slot
/// further. Moving it changes nothing that is owned, and a step down undoes
/// a step up and the other way round.
pub proof fn lemma_cycle_equip_wraps(player: PlayerView)
    requires
        player.wf(),
    ensures
        player.cycle_equip(EquipDirection::Down).equipped == if player.equipped == ITEM_COUNT - 1 {
            0
        } else {
            player.equipped + 1
        },
        player.cycle_equip(EquipDirection::Up).equipped == if player.equipped == 0 {
            ITEM_COUNT - 1
        } else {
            player.equipped - 1
        },
        player.cycle_equip(EquipDirection::Down).wf(),
        player.cycle_equip(EquipDirection::Up).wf(),
        player.cycle_equip(EquipDirection::Down).inventory == player.inventory,
        player.cycle_equip(EquipDirection::Up).inventory == player.inventory,
        player.cycle_equip(EquipDirection::Down).cycle_equip(EquipDirection::Up) == player,
        player.cycle_equip(EquipDirection::Up).cycle_equip(EquipDirection::Down) == player,
{
}

/// The cursor is no ownership: while the item under the cursor is not
/// owned, the hand is empty, wherever the cursor stands; and giving away
/// the item in hand empties the hand without moving the cursor.
pub proof fn lemma_equip_is_not_ownership(player: PlayerView)
    requires
        player.wf(),
    ensures
        !player.inventory.contains(item_label(player.equipped)) ==> player.equipped_label()
            == Seq::<char>::empty(),
        player.inventory.contains(item_label(player.equipped)) ==> player.equipped_label()
            == item_label(player.equipped),
        player.relinquish(item_label(player.equipped)).equipped == player.equipped,
        player.relinquish(item_label(player.equipped)).equipped_label() == Seq::<char>::empty(),
{
}

/// Picking up a catalog item puts it in hand: it is owned, the cursor
/// stands on its slot, and what was owned before still is.
pub proof fn lemma_acquire_equips(player: PlayerView, slot: int)
    requires
        0 <= slot < ITEM_COUNT,
    ensures
        player.acquire(item_label(slot)).equipped == slot,
        player.acquire(item_label(slot)).equipped_label() == item_label(slot),
        player.acquire(item_label(slot)).wf(),
        player.inventory.subset_of(player.acquire(item_label(slot)).inventory),
        player.acquire(item_label(slot)).acquire(item_label(slot)) == player.acquire(
            item_label(slot),
        ),
{
    lemma_slot_of_item_label(slot);
    lemma_item_label_lengths();
    let once = player.acquire(item_label(slot));
    assert(once.acquire(item_label(slot)).inventory =~= once.inventory);
}

} // verus!
