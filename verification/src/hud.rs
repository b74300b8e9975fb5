//! The inventory display: which icon each catalog slot shows.

use vstd::prelude::*;
use crate::catalog::{item_label, item_name, lemma_item_label_lengths, ITEM_COUNT};
use crate::player::{Player, PlayerView};
use crate::text::str_eq;

verus! {

/// The textures of the user interface. Each has a number, counted from zero
/// in the order written here, under which the interface layer knows it.
#[derive(Clone, Copy, Debug, PartialEq, Eq, Structural)]
pub enum TextureIds {
    BlacklightFlashlightSelTextureId,
    BlacklightFlashlightTextureId,
    BluePosterTextureId,
    BluePosterUvTextureId,
    BlueStatueSelTextureId,
    BlueStatueTextureId,
    GreenPosterTextureId,
    GreenPosterUvTextureId,
    GreenStatueSelTextureId,
    GreenStatueTextureId,
    InventorySelTextureId,
    InventoryTextureId,
    RedPosterTextureId,
    RedPosterUvTextureId,
    RedStatueSelTextureId,
    RedStatueTextureId,
}

/// Number of a texture.
pub open spec fn texture_number(texture: TextureIds) -> u64 {
    match texture {
        TextureIds::BlacklightFlashlightSelTextureId => 0,
        TextureIds::BlacklightFlashlightTextureId => 1,
        TextureIds::BluePosterTextureId => 2,
        TextureIds::BluePosterUvTextureId => 3,
        TextureIds::BlueStatueSelTextureId => 4,
        TextureIds::BlueStatueTextureId => 5,
        TextureIds::GreenPosterTextureId => 6,
        TextureIds::GreenPosterUvTextureId => 7,
        TextureIds::GreenStatueSelTextureId => 8,
        TextureIds::GreenStatueTextureId => 9,
        TextureIds::InventorySelTextureId => 10,
        TextureIds::InventoryTextureId => 11,
        TextureIds::RedPosterTextureId => 12,
        TextureIds::RedPosterUvTextureId => 13,
        TextureIds::RedStatueSelTextureId => 14,
        TextureIds::RedStatueTextureId => 15,
    }
}

/// Icon of the real item in catalog slot `slot`, highlighted or plain.
pub open spec fn item_icon(slot: int, selected: bool) -> TextureIds {
    if slot == 0 {
        if selected {
            TextureIds::RedStatueSelTextureId
        } else {
            TextureIds::RedStatueTextureId
        }
    } else if slot == 1 {
        if selected {
            TextureIds::GreenStatueSelTextureId
        } else {
            TextureIds::GreenStatueTextureId
        }
    } else if slot == 2 {
        if selected {
            TextureIds::BlueStatueSelTextureId
        } else {
            TextureIds::BlueStatueTextureId
        }
    } else {
        if selected {
            TextureIds::BlacklightFlashlightSelTextureId
        } else {
            TextureIds::BlacklightFlashlightTextureId
        }
    }
}

/// Icon that catalog slot `slot` shows.
///
/// An owned item shows its own icon, highlighted while it is in hand. A
/// slot whose item is not owned shows the empty frame, highlighted while
/// the equip cursor stands on it. The empty slot never shows an item.
pub open spec fn slot_icon(player: PlayerView, slot: int) -> TextureIds {
    if player.inventory.contains(item_label(slot)) {
        if 0 <= slot < ITEM_COUNT - 1 {
            item_icon(slot, player.equipped_label() == item_label(slot))
        } else {
            TextureIds::InventoryTextureId
        }
    } else if slot == player.equipped {
        TextureIds::InventorySelTextureId
    } else {
        TextureIds::InventoryTextureId
    }
}

/// Numbers of the icons of all catalog slots, in catalog order.
pub open spec fn slot_icon_numbers(player: PlayerView) -> Seq<u64> {
    Seq::new(ITEM_COUNT as nat, |slot: int| texture_number(slot_icon(player, slot)))
}

impl TextureIds {
    /// Number of this texture.
    pub fn id(self) -> (number: u64)
        ensures
            number == texture_number(self),
    {
        match self {
            TextureIds::BlacklightFlashlightSelTextureId => 0,
            TextureIds::BlacklightFlashlightTextureId => 1,
            TextureIds::BluePosterTextureId => 2,
            TextureIds::BluePosterUvTextureId => 3,
            TextureIds::BlueStatueSelTextureId => 4,
            TextureIds::BlueStatueTextureId => 5,
            TextureIds::GreenPosterTextureId => 6,
            TextureIds::GreenPosterUvTextureId => 7,
            TextureIds::GreenStatueSelTextureId => 8,
            TextureIds::GreenStatueTextureId => 9,
            TextureIds::InventorySelTextureId => 10,
            TextureIds::InventoryTextureId => 11,
            TextureIds::RedPosterTextureId => 12,
            TextureIds::RedPosterUvTextureId => 13,
            TextureIds::RedStatueSelTextureId => 14,
            TextureIds::RedStatueTextureId => 15,
        }
    }
}

/// Number of `equipped_id` if `name` is the label in hand, of
/// `not_equipped_id` otherwise.
pub fn maybe_equipped(
    equipped: &str,
    name: &str,
    equipped_id: TextureIds,
    not_equipped_id: TextureIds,
) -> (number: u64)
    ensures
        number == texture_number(
            if equipped@ == name@ {
                equipped_id
            } else {
                not_equipped_id
            },
        ),
{
    if str_eq(equipped, name) {
        equipped_id.id()
    } else {
        not_equipped_id.id()
    }
}

/// Number of the icon that catalog slot `slot` shows.
pub fn slot_texture(player: &Player, slot: usize) -> (number: u64)
    requires
        slot < ITEM_COUNT,
    ensures
        number == texture_number(slot_icon(player@, slot as int)),
{
    let name = item_name(slot);
    if player.owns(name) {
        if slot == 0 {
            maybe_equipped(
                player.equipped_name(),
                name,
                TextureIds::RedStatueSelTextureId,
                TextureIds::RedStatueTextureId,
            )
        } else if slot == 1 {
            maybe_equipped(
                player.equipped_name(),
                name,
                TextureIds::GreenStatueSelTextureId,
                TextureIds::GreenStatueTextureId,
            )
        } else if slot == 2 {
            maybe_equipped(
                player.equipped_name(),
                name,
                TextureIds::BlueStatueSelTextureId,
                TextureIds::BlueStatueTextureId,
            )
        } else if slot == 3 {
            maybe_equipped(
                player.equipped_name(),
                name,
                TextureIds::BlacklightFlashlightSelTextureId,
                TextureIds::BlacklightFlashlightTextureId,
            )
        } else {
            TextureIds::InventoryTextureId.id()
        }
    } else if slot == player.equipped() {
        TextureIds::InventorySelTextureId.id()
    } else {
        TextureIds::InventoryTextureId.id()
    }
}

/// Numbers of the icons of all catalog slots, in catalog order.
pub fn inventory_textures(player: &Player) -> (numbers: Vec<u64>)
    ensures
        numbers@ == slot_icon_numbers(player@),
{
    let mut numbers: Vec<u64> = Vec::new();
    let mut slot: usize = 0;
    while slot < ITEM_COUNT
        invariant
            slot <= ITEM_COUNT,
            numbers@.len() == slot,
            forall|earlier: int|
                0 <= earlier < slot ==> numbers@[earlier] == texture_number(
                    slot_icon(player@, earlier),
                ),
        decreases ITEM_COUNT - slot,
    {
        numbers.push(slot_texture(player, slot));
        slot = slot + 1;
    }
    assert(numbers@ =~= slot_icon_numbers(player@));
    numbers
}

/// The icon of an owned item is highlighted exactly while the equip cursor
/// stands on its slot, and an owned item never shows the empty frame.
pub proof fn lemma_owned_icon_follows_cursor(player: PlayerView, slot: int)
    requires
        player.wf(),
        0 <= slot < ITEM_COUNT - 1,
        player.inventory.contains(item_label(slot)),
    ensures
        slot_icon(player, slot) == item_icon(slot, player.equipped == slot),
        slot_icon(player, slot) != TextureIds::InventoryTextureId,
        slot_icon(player, slot) != TextureIds::InventorySelTextureId,
{
    lemma_item_label_lengths();
}

/// Among the slots whose item is not owned, the one under the equip cursor
/// shows the highlighted frame and all others the plain frame.
pub proof fn lemma_empty_frame_follows_cursor(player: PlayerView, slot: int)
    requires
        !player.inventory.contains(item_label(slot)),
    ensures
        slot_icon(player, slot) == if slot == player.equipped {
            TextureIds::InventorySelTextureId
        } else {
            TextureIds::InventoryTextureId
        },
{
}

} // verus!
