use bevy_ecs::entity::Entity;
use escape_room::catalog::{Location, StatueColor};
use escape_room::holders::StatueHolders;
use escape_room::input::{interact, keyboard_input_system, KeyEdges};
use escape_room::player::{EquipDirection, Player};
use escape_room::target::{NamedEntity, PlaceTarget, Target};

fn named(name: &str, id: u32) -> Option<NamedEntity> {
    Some(NamedEntity { name: name.to_string(), entity: Entity::new(id) })
}

fn holding(color_label: &str) -> Player {
    let mut player = Player::default();
    player.acquire(color_label);
    player
}

const INTERACT: KeyEdges = KeyEdges { interact: true, down: false, up: false };

#[test]
fn no_keys_by_default() {
    assert_eq!(KeyEdges::default(), KeyEdges { interact: false, down: false, up: false });
}

#[test]
fn picking_up_a_statue_owns_equips_and_despawns_it() {
    let mut target = Target(named("BallStatueRed", 11));
    let place = PlaceTarget(None);
    let mut player = Player::default();
    let mut holders = StatueHolders::new();
    let despawn = interact(&mut target, &place, &mut player, &mut holders);
    assert_eq!(despawn, Some(Entity::new(11)));
    assert_eq!(target, Target(None));
    assert!(player.owns("InvBallStatueRed"));
    assert_eq!(player.equipped(), 0);
    assert_eq!(player.equipped_name(), "InvBallStatueRed");
    assert_eq!(holders, StatueHolders::new());
    let again = interact(&mut target, &place, &mut player, &mut holders);
    assert_eq!(again, None);
    assert!(player.owns("InvBallStatueRed"));
}

#[test]
fn picking_up_each_collectible_equips_its_slot() {
    let cases = [
        ("BallStatueRed", "InvBallStatueRed", 0),
        ("BallStatueGreen", "InvBallStatueGreen", 1),
        ("BallStatueBlue", "InvBallStatueBlue", 2),
        ("BlacklightFlashlight", "InvBlacklightFlashlight", 3),
    ];
    for (name, label, slot) in cases {
        let mut target = Target(named(name, 5));
        let mut player = Player::default();
        let mut holders = StatueHolders::new();
        let despawn = interact(&mut target, &PlaceTarget(None), &mut player, &mut holders);
        assert_eq!(despawn, Some(Entity::new(5)));
        assert!(player.owns(label));
        assert_eq!(player.equipped(), slot);
        assert_eq!(player.equipped_name(), label);
    }
}

#[test]
fn pick_target_wins_over_place_target() {
    let mut target = Target(named("BallStatueGreen", 1));
    let place = PlaceTarget(named("LeftStatueHolder", 2));
    let mut player = holding("InvBallStatueRed");
    let mut holders = StatueHolders::new();
    let despawn = interact(&mut target, &place, &mut player, &mut holders);
    assert_eq!(despawn, Some(Entity::new(1)));
    assert_eq!(holders.get(Location::Left), None);
    assert!(player.owns("InvBallStatueRed"));
    assert!(player.owns("InvBallStatueGreen"));
    assert_eq!(player.equipped(), 1);
}

#[test]
fn interacting_with_a_fixture_takes_the_statue_back() {
    let mut player = Player::default();
    let mut holders = StatueHolders::new();
    holders.place(&mut player, Location::Middle, StatueColor::Red);
    let mut target = Target(named("BallStatueRedPlacedMid", 8));
    let despawn = interact(&mut target, &PlaceTarget(None), &mut player, &mut holders);
    assert_eq!(despawn, None);
    assert_eq!(target, Target(named("BallStatueRedPlacedMid", 8)));
    assert_eq!(holders.get(Location::Middle), None);
    assert!(player.owns("InvBallStatueRed"));
    assert_eq!(player.equipped(), 4);
}

#[test]
fn fixture_label_decides_the_holder_not_the_colour() {
    let mut player = Player::default();
    let mut holders = StatueHolders::new();
    holders.place(&mut player, Location::Left, StatueColor::Green);
    let mut target = Target(named("BallStatueBluePlacedLeft", 8));
    interact(&mut target, &PlaceTarget(None), &mut player, &mut holders);
    assert_eq!(holders.get(Location::Left), None);
    assert!(player.owns("InvBallStatueGreen"));
    assert!(!player.owns("InvBallStatueBlue"));
}

#[test]
fn interacting_with_an_empty_fixture_changes_nothing() {
    let mut player = Player::default();
    let mut holders = StatueHolders::new();
    holders.place(&mut player, Location::Left, StatueColor::Blue);
    let mut target = Target(named("BallStatueRedPlacedRight", 8));
    let despawn = interact(&mut target, &PlaceTarget(None), &mut player, &mut holders);
    assert_eq!(despawn, None);
    assert_eq!(holders.get(Location::Left), Some(StatueColor::Blue));
    assert_eq!(holders.get(Location::Right), None);
    assert!(!player.owns("InvBallStatueRed"));
    assert!(!player.owns("InvBallStatueBlue"));
}

#[test]
fn unknown_pick_label_is_ignored_and_blocks_placing() {
    let mut target = Target(named("Teapot", 8));
    let place = PlaceTarget(named("LeftStatueHolder", 2));
    let mut player = holding("InvBallStatueRed");
    let mut holders = StatueHolders::new();
    let despawn = interact(&mut target, &place, &mut player, &mut holders);
    assert_eq!(despawn, None);
    assert_eq!(target, Target(named("Teapot", 8)));
    assert_eq!(holders, StatueHolders::new());
    assert!(player.owns("InvBallStatueRed"));
    assert_eq!(player.equipped(), 0);
}

#[test]
fn placing_into_an_empty_holder_consumes_the_statue() {
    let mut target = Target(None);
    let place = PlaceTarget(named("RightStatueHolder", 2));
    let mut player = holding("InvBallStatueGreen");
    let mut holders = StatueHolders::new();
    let despawn = interact(&mut target, &place, &mut player, &mut holders);
    assert_eq!(despawn, None);
    assert_eq!(holders.get(Location::Right), Some(StatueColor::Green));
    assert!(!player.owns("InvBallStatueGreen"));
    assert_eq!(player.equipped(), 1);
    assert_eq!(player.equipped_name(), "");
}

#[test]
fn placing_red_where_blue_stands_swaps_them() {
    let mut player = Player::default();
    let mut holders = StatueHolders::new();
    holders.place(&mut player, Location::Left, StatueColor::Blue);
    player.acquire("InvBallStatueRed");
    let mut target = Target(None);
    let place = PlaceTarget(named("LeftStatueHolder", 2));
    let despawn = interact(&mut target, &place, &mut player, &mut holders);
    assert_eq!(despawn, None);
    assert!(player.owns("InvBallStatueBlue"));
    assert!(!player.owns("InvBallStatueRed"));
    assert_eq!(holders.get(Location::Left), Some(StatueColor::Red));
    assert_eq!(player.equipped(), 0);
}

#[test]
fn placing_a_colour_onto_itself_keeps_one_copy_in_hand() {
    let mut player = Player::default();
    let mut holders = StatueHolders::new();
    holders.place(&mut player, Location::Left, StatueColor::Red);
    player.acquire("InvBallStatueRed");
    let mut target = Target(None);
    interact(&mut target, &PlaceTarget(named("LeftStatueHolder", 2)), &mut player, &mut holders);
    assert_eq!(holders.get(Location::Left), Some(StatueColor::Red));
    assert!(player.owns("InvBallStatueRed"));
}

#[test]
fn placing_reads_the_holder_from_the_target_name() {
    for (name, location) in [
        ("LeftStatueHolder", Location::Left),
        ("MiddleStatueHolder", Location::Middle),
        ("RightStatueHolder", Location::Right),
        ("SomethingElse", Location::Right),
    ] {
        let mut player = holding("InvBallStatueBlue");
        let mut holders = StatueHolders::new();
        let mut target = Target(None);
        interact(&mut target, &PlaceTarget(named(name, 2)), &mut player, &mut holders);
        assert_eq!(holders.get(location), Some(StatueColor::Blue));
    }
}

#[test]
fn placing_needs_a_statue_in_hand() {
    let place = PlaceTarget(named("LeftStatueHolder", 2));
    let mut holders = StatueHolders::new();
    let mut target = Target(None);

    let mut flashlight = holding("InvBlacklightFlashlight");
    assert_eq!(interact(&mut target, &place, &mut flashlight, &mut holders), None);
    assert_eq!(holders, StatueHolders::new());
    assert!(flashlight.owns("InvBlacklightFlashlight"));

    let mut empty_handed = Player::default();
    assert_eq!(interact(&mut target, &place, &mut empty_handed, &mut holders), None);
    assert_eq!(holders, StatueHolders::new());

    let mut not_in_hand = holding("InvBallStatueRed");
    not_in_hand.cycle_equip(EquipDirection::Down);
    assert_eq!(interact(&mut target, &place, &mut not_in_hand, &mut holders), None);
    assert_eq!(holders, StatueHolders::new());
    assert!(not_in_hand.owns("InvBallStatueRed"));
}

#[test]
fn interact_without_targets_does_nothing() {
    let mut target = Target(None);
    let mut player = holding("InvBallStatueRed");
    let mut holders = StatueHolders::new();
    assert_eq!(interact(&mut target, &PlaceTarget(None), &mut player, &mut holders), None);
    assert!(player.owns("InvBallStatueRed"));
    assert_eq!(player.equipped(), 0);
    assert_eq!(holders, StatueHolders::new());
}

#[test]
fn equip_keys_move_the_cursor_and_down_wins() {
    let mut target = Target(None);
    let place = PlaceTarget(None);
    let mut player = Player::default();
    let mut holders = StatueHolders::new();
    let down = KeyEdges { interact: false, down: true, up: false };
    let up = KeyEdges { interact: false, down: false, up: true };
    let both = KeyEdges { interact: false, down: true, up: true };
    keyboard_input_system(&down, &mut target, &place, &mut player, &mut holders);
    assert_eq!(player.equipped(), 0);
    keyboard_input_system(&both, &mut target, &place, &mut player, &mut holders);
    assert_eq!(player.equipped(), 1);
    keyboard_input_system(&up, &mut target, &place, &mut player, &mut holders);
    assert_eq!(player.equipped(), 0);
    keyboard_input_system(&up, &mut target, &place, &mut player, &mut holders);
    assert_eq!(player.equipped(), 4);
    keyboard_input_system(&KeyEdges::default(), &mut target, &place, &mut player, &mut holders);
    assert_eq!(player.equipped(), 4);
}

#[test]
fn without_the_interact_key_targets_are_left_alone() {
    let mut target = Target(named("BallStatueRed", 11));
    let place = PlaceTarget(named("LeftStatueHolder", 2));
    let mut player = Player::default();
    let mut holders = StatueHolders::new();
    let keys = KeyEdges { interact: false, down: true, up: false };
    assert_eq!(keyboard_input_system(&keys, &mut target, &place, &mut player, &mut holders), None);
    assert_eq!(target, Target(named("BallStatueRed", 11)));
    assert!(!player.owns("InvBallStatueRed"));
    assert_eq!(player.equipped(), 0);
}

#[test]
fn interact_runs_before_the_equip_keys() {
    let mut target = Target(named("BallStatueGreen", 11));
    let place = PlaceTarget(None);
    let mut player = Player::default();
    let mut holders = StatueHolders::new();
    let keys = KeyEdges { interact: true, down: true, up: false };
    let despawn = keyboard_input_system(&keys, &mut target, &place, &mut player, &mut holders);
    assert_eq!(despawn, Some(Entity::new(11)));
    assert!(player.owns("InvBallStatueGreen"));
    assert_eq!(player.equipped(), 2);
    assert_eq!(player.equipped_name(), "");
}

#[test]
fn interact_key_alone_dispatches_like_interact() {
    let mut target = Target(None);
    let place = PlaceTarget(named("MiddleStatueHolder", 2));
    let mut player = holding("InvBallStatueRed");
    let mut holders = StatueHolders::new();
    assert_eq!(keyboard_input_system(&INTERACT, &mut target, &place, &mut player, &mut holders), None);
    assert_eq!(holders.get(Location::Middle), Some(StatueColor::Red));
    assert!(!player.owns("InvBallStatueRed"));
    assert_eq!(player.equipped(), 0);
}

#[test]
fn fixture_label_without_colour_or_holder_is_ignored() {
    for label in ["PlacedFoo", "Placed", "RedPlaced", "PlacedRight", "BallStatuePlacedLeft"] {
        let mut player = Player::default();
        let mut holders = StatueHolders::new();
        holders.place(&mut player, Location::Left, StatueColor::Red);
        holders.place(&mut player, Location::Middle, StatueColor::Green);
        holders.place(&mut player, Location::Right, StatueColor::Blue);
        let before = holders;
        let mut target = Target(named(label, 8));
        let place = PlaceTarget(named("LeftStatueHolder", 2));
        let despawn = interact(&mut target, &place, &mut player, &mut holders);
        assert_eq!(despawn, None);
        assert_eq!(target, Target(named(label, 8)));
        assert_eq!(holders, before);
        assert_eq!(player.equipped(), 4);
        for owned in ["InvBallStatueRed", "InvBallStatueGreen", "InvBallStatueBlue"] {
            assert!(!player.owns(owned));
        }
    }
}
