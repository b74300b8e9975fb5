//! The input dispatcher: what the interact key and the two equip keys do to
//! the player, the holders and the pick target.

use vstd::prelude::*;
use bevy_ecs::entity::Entity;
use crate::catalog::{
    item_label, lemma_item_label_lengths, lemma_item_label_of_slot,
    lemma_statue_color_of_statue_label, statue_color_of_label, statue_label,
    statue_name_for_color, Location, StatueColor,
};
use crate::holders::{returned_to_player, StatueHolders};
use crate::player::{EquipDirection, Player, PlayerView};
use crate::registry::{
    holder_location, location_of_holder, parse_placed_statue, pickup_label, pickup_name,
    placed_statue_in_label, statue_color_for_name,
};
use crate::target::{NamedEntityView, PlaceTarget, Target};

verus! {

/// The keys that went down in this frame.
#[derive(Clone, Copy, Debug, PartialEq, Eq, Structural)]
pub struct KeyEdges {
    /// The interact key.
    pub interact: bool,
    /// The key that moves the equip cursor to the next slot.
    pub down: bool,
    /// The key that moves the equip cursor to the previous slot.
    pub up: bool,
}

impl Default for KeyEdges {
    fn default() -> (keys: KeyEdges)
        ensures
            keys == (KeyEdges { interact: false, down: false, up: false }),
    {
        KeyEdges { interact: false, down: false, up: false }
    }
}

/// State of the game after an input step, and the entity to remove from the
/// world, if any.
pub struct InputOutcome {
    pub target: Option<NamedEntityView>,
    pub player: PlayerView,
    pub holders: Map<Location, StatueColor>,
    pub despawn: Option<Entity>,
}

/// What the interact key does.
///
/// With a pick target: a collectible is picked up, which removes it from
/// the world and clears the target; the fixture of a placed statue empties
/// its holder and gives the statue back; any other label does nothing.
/// Without a pick target but with a place target: a statue in hand is given
/// away and placed in the targeted holder; with anything else in hand
/// nothing happens. Without either target nothing happens.
pub open spec fn interact_outcome(
    target: Option<NamedEntityView>,
    place_target: Option<NamedEntityView>,
    player: PlayerView,
    holders: Map<Location, StatueColor>,
) -> InputOutcome {
    let unchanged = InputOutcome { target, player, holders, despawn: None };
    match target {
        Some(picked) => match pickup_label(picked.name) {
            Some(label) => InputOutcome {
                target: None,
                player: player.acquire(label),
                holders,
                despawn: Some(picked.entity),
            },
            None => match placed_statue_in_label(picked.name) {
                Some((location, _)) => InputOutcome {
                    target,
                    player: returned_to_player(holders, location, player),
                    holders: holders.remove(location),
                    despawn: None,
                },
                None => unchanged,
            },
        },
        None => match place_target {
            Some(place) => match statue_color_of_label(player.equipped_label()) {
                Some(color) => {
                    let location = location_of_holder(place.name);
                    InputOutcome {
                        target,
                        player: returned_to_player(
                            holders,
                            location,
                            player.relinquish(statue_label(color)),
                        ),
                        holders: holders.insert(location, color),
                        despawn: None,
                    }
                },
                None => unchanged,
            },
            None => unchanged,
        },
    }
}

/// What the equip keys do to the player: the next-slot key wins over the
/// previous-slot key; without either the player stays as it is.
pub open spec fn equip_outcome(keys: KeyEdges, player: PlayerView) -> PlayerView {
    if keys.down {
        player.cycle_equip(EquipDirection::Down)
    } else if keys.up {
        player.cycle_equip(EquipDirection::Up)
    } else {
        player
    }
}

/// One frame of input: first the interact key, then the equip keys.
pub open spec fn input_outcome(
    keys: KeyEdges,
    target: Option<NamedEntityView>,
    place_target: Option<NamedEntityView>,
    player: PlayerView,
    holders: Map<Location, StatueColor>,
) -> InputOutcome {
    let interacted = if keys.interact {
        interact_outcome(target, place_target, player, holders)
    } else {
        InputOutcome { target, player, holders, despawn: None }
    };
    InputOutcome {
        target: interacted.target,
        player: equip_outcome(keys, interacted.player),
        holders: interacted.holders,
        despawn: interacted.despawn,
    }
}

/// Carries out the interact key. The result is the entity to remove from
/// the world: the collectible just picked up, if one was.
pub fn interact(
    target: &mut Target,
    place_target: &PlaceTarget,
    player: &mut Player,
    statue_holders: &mut StatueHolders,
) -> (despawn: Option<Entity>)
    ensures
        ({
            let outcome = interact_outcome(
                old(target)@,
                place_target@,
                old(player)@,
                old(statue_holders)@,
            );
            &&& final(target)@ == outcome.target
            &&& final(player)@ == outcome.player
            &&& final(statue_holders)@ == outcome.holders
            &&& despawn == outcome.despawn
        }),
{
    let mut despawn: Option<Entity> = None;
    if let Some(pick_target) = &target.0 {
        let name = pick_target.name.as_str();
        if let Some(label) = pickup_name(name) {
            player.acquire(label);
            despawn = Some(pick_target.entity);
        } else if let Some((location, _color)) = parse_placed_statue(name) {
            statue_holders.remove(player, location);
        }
    } else if let Some(place) = &place_target.0 {
        if let Some(color) = statue_color_for_name(player.equipped_name()) {
            player.relinquish(statue_name_for_color(color));
            statue_holders.place(player, holder_location(place.name.as_str()), color);
        }
    }
    if despawn.is_some() {
        target.0 = None;
    }
    despawn
}

/// Carries out one frame of input: the interact key first, then the equip
/// keys. The result is the entity to remove from the world, if any.
pub fn keyboard_input_system(
    keys: &KeyEdges,
    target: &mut Target,
    place_target: &PlaceTarget,
    player: &mut Player,
    statue_holders: &mut StatueHolders,
) -> (despawn: Option<Entity>)
    ensures
        ({
            let outcome = input_outcome(
                *keys,
                old(target)@,
                place_target@,
                old(player)@,
                old(statue_holders)@,
            );
            &&& final(target)@ == outcome.target
            &&& final(player)@ == outcome.player
            &&& final(statue_holders)@ == outcome.holders
            &&& despawn == outcome.despawn
        }),
{
    let despawn = if keys.interact {
        interact(target, place_target, player, statue_holders)
    } else {
        None
    };
    if keys.down {
        player.cycle_equip(EquipDirection::Down);
    } else if keys.up {
        player.cycle_equip(EquipDirection::Up);
    }
    despawn
}

/// Placing a statue in an occupied holder swaps: the statue that stood
/// there is owned again, the placed one stands in the holder, and unless
/// both have the same colour the placed one is no longer owned. The cursor
/// stays where it is and nothing leaves the world.
pub proof fn lemma_place_swaps_out(
    place: NamedEntityView,
    player: PlayerView,
    holders: Map<Location, StatueColor>,
    placed: StatueColor,
)
    requires
        player.wf(),
        player.equipped_label() == statue_label(placed),
        holders.contains_key(location_of_holder(place.name)),
    ensures
        ({
            let location = location_of_holder(place.name);
            let outcome = interact_outcome(None, Some(place), player, holders);
            &&& outcome.holders == holders.insert(location, placed)
            &&& outcome.holders[location] == placed
            &&& outcome.player.inventory.contains(statue_label(holders[location]))
            &&& holders[location] != placed ==> !outcome.player.inventory.contains(
                statue_label(placed),
            )
            &&& outcome.player.equipped == player.equipped
            &&& outcome.despawn is None
            &&& outcome.target is None
        }),
{
    lemma_statue_color_of_statue_label(placed);
    lemma_statue_color_of_statue_label(holders[location_of_holder(place.name)]);
}

/// Placing into an empty holder hands the statue over: it stands in the
/// holder and is no longer owned.
pub proof fn lemma_place_consumes(
    place: NamedEntityView,
    player: PlayerView,
    holders: Map<Location, StatueColor>,
    placed: StatueColor,
)
    requires
        player.wf(),
        player.equipped_label() == statue_label(placed),
        !holders.contains_key(location_of_holder(place.name)),
    ensures
        ({
            let outcome = interact_outcome(None, Some(place), player, holders);
            &&& outcome.holders == holders.insert(location_of_holder(place.name), placed)
            &&& outcome.player == player.relinquish(statue_label(placed))
            &&& !outcome.player.inventory.contains(statue_label(placed))
            &&& outcome.player.equipped_label() == Seq::<char>::empty()
        }),
{
    lemma_statue_color_of_statue_label(placed);
}

/// With anything but a statue in hand, the interact key leaves a place
/// target alone: nothing is placed, given away or removed.
pub proof fn lemma_place_needs_statue(
    place: Option<NamedEntityView>,
    player: PlayerView,
    holders: Map<Location, StatueColor>,
)
    requires
        statue_color_of_label(player.equipped_label()) is None,
    ensures
        interact_outcome(None, place, player, holders) == (InputOutcome {
            target: None,
            player,
            holders,
            despawn: None,
        }),
{
}

/// Picking up a collectible makes it owned and puts it in hand, removes its
/// world copy and clears the pick target; pressing interact again right
/// away removes nothing more from the world.
pub proof fn lemma_pickup_removes_world_copy(
    picked: NamedEntityView,
    place_target: Option<NamedEntityView>,
    player: PlayerView,
    holders: Map<Location, StatueColor>,
)
    requires
        pickup_label(picked.name) is Some,
    ensures
        ({
            let label = pickup_label(picked.name)->0;
            let outcome = interact_outcome(Some(picked), place_target, player, holders);
            let again = interact_outcome(
                outcome.target,
                place_target,
                outcome.player,
                outcome.holders,
            );
            &&& outcome.player.inventory.contains(label)
            &&& item_label(outcome.player.equipped) == label
            &&& outcome.player.equipped_label() == label
            &&& outcome.player.wf()
            &&& outcome.holders == holders
            &&& outcome.despawn == Some(picked.entity)
            &&& outcome.target is None
            &&& again.despawn is None
        }),
{
    lemma_item_label_lengths();
    lemma_item_label_of_slot(pickup_label(picked.name)->0);
}

/// A pick target whose label names neither a collectible nor a placed
/// statue is left alone: the interact key changes nothing, and the place
/// target is not acted on either.
pub proof fn lemma_unreadable_label_is_ignored(
    picked: NamedEntityView,
    place_target: Option<NamedEntityView>,
    player: PlayerView,
    holders: Map<Location, StatueColor>,
)
    requires
        pickup_label(picked.name) is None,
        placed_statue_in_label(picked.name) is None,
    ensures
        interact_outcome(Some(picked), place_target, player, holders) == (InputOutcome {
            target: Some(picked),
            player,
            holders,
            despawn: None,
        }),
{
}

/// Only a pick target ever removes anything from the world, and the equip
/// keys never do.
pub proof fn lemma_despawn_needs_pick_target(
    keys: KeyEdges,
    place_target: Option<NamedEntityView>,
    player: PlayerView,
    holders: Map<Location, StatueColor>,
)
    ensures
        input_outcome(keys, None, place_target, player, holders).despawn is None,
{
}

} // verus!
