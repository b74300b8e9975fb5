//! The visibility projector: which tagged entities are shown, as a function
//! of the state of the game alone.

use vstd::prelude::*;
use crate::catalog::{flashlight_label, item_label, Location, StatueColor};
use crate::holders::StatueHolders;
use crate::player::{Player, PlayerView};
use crate::target::{BlacklightTarget, NamedEntityView};
use crate::text::str_eq;

verus! {

/// The model of the inventory item labelled `label` is shown exactly when
/// the item is owned and in hand.
pub open spec fn equipped_mesh_shown(player: PlayerView, label: Seq<char>) -> bool {
    player.inventory.contains(label) && player.equipped_label() == label
}

/// The fixture of colour `color` at `location` is shown exactly when that
/// colour stands in that holder.
pub open spec fn placed_statue_shown(
    held: Map<Location, StatueColor>,
    color: StatueColor,
    location: Location,
) -> bool {
    held.contains_key(location) && held[location] == color
}

/// The poster labelled `label` is revealed exactly when the flashlight is
/// in hand and the blacklight target is this poster.
pub open spec fn poster_revealed(
    player: PlayerView,
    target: Option<NamedEntityView>,
    label: Seq<char>,
) -> bool {
    &&& player.equipped_label() == flashlight_label()
    &&& target is Some
    &&& target->0.name == label
}

/// Of a revealed poster the blacklight variant is shown and the everyday
/// variant hidden; of every other poster it is the other way round.
pub open spec fn poster_shown(
    player: PlayerView,
    target: Option<NamedEntityView>,
    label: Seq<char>,
    uv: bool,
) -> bool {
    uv == poster_revealed(player, target, label)
}

/// Whether to show the model of the inventory item labelled `label`.
pub fn show_equipped(player: &Player, label: &str) -> (visible: bool)
    ensures
        visible == equipped_mesh_shown(player@, label@),
{
    player.owns(label) && str_eq(player.equipped_name(), label)
}

/// Whether to show the fixture of colour `color` at `location`.
pub fn show_placed(statue_holders: &StatueHolders, color: StatueColor, location: Location) -> (visible:
    bool)
    ensures
        visible == placed_statue_shown(statue_holders@, color, location),
{
    match statue_holders.get(location) {
        Some(held) => held == color,
        None => false,
    }
}

/// Whether to show the variant `uv` of the poster labelled `label`.
pub fn update_posters(player: &Player, target: &BlacklightTarget, label: &str, uv: bool) -> (visible:
    bool)
    ensures
        visible == poster_shown(player@, target@, label@, uv),
{
    let blacklight_equipped = str_eq(player.equipped_name(), "InvBlacklightFlashlight");
    let revealed = match &target.0 {
        Some(poster) => blacklight_equipped && str_eq(poster.name.as_str(), label),
        None => false,
    };
    uv == revealed
}

/// At most one inventory model is shown at a time, and a model with a name
/// is shown only for the item under the equip cursor.
pub proof fn lemma_one_model_in_hand(player: PlayerView, label: Seq<char>, other: Seq<char>)
    ensures
        equipped_mesh_shown(player, label) && equipped_mesh_shown(player, other) ==> label
            == other,
        equipped_mesh_shown(player, label) && label.len() > 0 ==> label == item_label(
            player.equipped,
        ),
{
}

/// A holder shows at most one fixture, and an empty holder shows none.
pub proof fn lemma_one_fixture_per_holder(
    held: Map<Location, StatueColor>,
    color: StatueColor,
    other: StatueColor,
    location: Location,
)
    ensures
        placed_statue_shown(held, color, location) && placed_statue_shown(held, other, location)
            ==> color == other,
        !held.contains_key(location) ==> !placed_statue_shown(held, color, location),
{
}

/// Of every poster exactly one variant is shown, and at most one poster
/// label is revealed at a time.
pub proof fn lemma_one_poster_variant(
    player: PlayerView,
    target: Option<NamedEntityView>,
    label: Seq<char>,
    other: Seq<char>,
)
    ensures
        poster_shown(player, target, label, true) != poster_shown(player, target, label, false),
        poster_revealed(player, target, label) && poster_revealed(player, target, other) ==> label
            == other,
{
}

} // verus!
