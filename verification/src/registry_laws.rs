//! Laws of the naming registry: its names do not shadow each other, and the
//! labels that the binder hands out are read back correctly by the rules
//! that dispatch on them.

use vstd::prelude::*;
use crate::catalog::{
    flashlight_label, item_label, statue_label, Location, StatueColor, ITEM_COUNT,
};
use crate::registry::{
    ball_statue_name, flashlight_name, holder_name, inventory_prefix, light_marker_name,
    location_of_holder, pickup_label, placed_role_of_name, placed_statue_in_label,
    placed_statue_name, poster_name, role_of_name, uv_poster_name, SceneRole,
};
use crate::text::{has_prefix, has_substring, occurs_at};

verus! {

/// A needle of two or more characters is missing from a haystack in which
/// its first two characters nowhere follow each other.
proof fn lemma_missing(hay: Seq<char>, needle: Seq<char>)
    requires
        needle.len() >= 2,
        forall|at: int|
            0 <= at && at + 1 < hay.len() ==> !(#[trigger] hay[at] == needle[0] && hay[at + 1]
                == needle[1]),
    ensures
        !has_substring(hay, needle),
{
    assert forall|at: int| !occurs_at(hay, needle, at) by {
        if occurs_at(hay, needle, at) {
            let part = hay.subrange(at, at + needle.len());
            assert(part[0] == hay[at]);
            assert(part[1] == hay[at + 1]);
        }
    }
}

/// A needle is found in a haystack that spells it out from offset `at` on.
proof fn lemma_found(hay: Seq<char>, needle: Seq<char>, at: int)
    requires
        0 <= at,
        at + needle.len() <= hay.len(),
        forall|i: int| 0 <= i < needle.len() ==> hay[at + i] == #[trigger] needle[i],
    ensures
        has_substring(hay, needle),
{
    assert(hay.subrange(at, at + needle.len()) =~= needle);
    assert(occurs_at(hay, needle, at));
}

/// The words in the fixture name `BallStatueRedPlacedRight`.
proof fn lemma_fixture_red_right()
    ensures
        placed_statue_in_label(placed_statue_name(StatueColor::Red, Location::Right)) == Some(
            (Location::Right, StatueColor::Red),
        ),
{
    reveal_strlit("BallStatueRedPlacedRight");
    reveal_strlit("Placed");
    reveal_strlit("Blue");
    reveal_strlit("Red");
    reveal_strlit("Mid");
    reveal_strlit("Left");
    reveal_strlit("Right");
    let name = "BallStatueRedPlacedRight"@;
    lemma_found(name, "Placed"@, 13);
    lemma_missing(name, "Blue"@);
    lemma_found(name, "Red"@, 10);
    lemma_missing(name, "Mid"@);
    lemma_missing(name, "Left"@);
    lemma_found(name, "Right"@, 19);
}

/// The words in the fixture name `BallStatueRedPlacedMid`.
proof fn lemma_fixture_red_middle()
    ensures
        placed_statue_in_label(placed_statue_name(StatueColor::Red, Location::Middle)) == Some(
            (Location::Middle, StatueColor::Red),
        ),
{
    reveal_strlit("BallStatueRedPlacedMid");
    reveal_strlit("Placed");
    reveal_strlit("Blue");
    reveal_strlit("Red");
    reveal_strlit("Mid");
    reveal_strlit("Left");
    let name = "BallStatueRedPlacedMid"@;
    lemma_found(name, "Placed"@, 13);
    lemma_missing(name, "Blue"@);
    lemma_found(name, "Red"@, 10);
    lemma_found(name, "Mid"@, 19);
}

/// The words in the fixture name `BallStatueRedPlacedLeft`.
proof fn lemma_fixture_red_left()
    ensures
        placed_statue_in_label(placed_statue_name(StatueColor::Red, Location::Left)) == Some(
            (Location::Left, StatueColor::Red),
        ),
{
    reveal_strlit("BallStatueRedPlacedLeft");
    reveal_strlit("Placed");
    reveal_strlit("Blue");
    reveal_strlit("Red");
    reveal_strlit("Mid");
    reveal_strlit("Left");
    let name = "BallStatueRedPlacedLeft"@;
    lemma_found(name, "Placed"@, 13);
    lemma_missing(name, "Blue"@);
    lemma_found(name, "Red"@, 10);
    lemma_missing(name, "Mid"@);
    lemma_found(name, "Left"@, 19);
}

/// The words in the fixture name `BallStatueGreenPlacedRight`.
proof fn lemma_fixture_green_right()
    ensures
        placed_statue_in_label(placed_statue_name(StatueColor::Green, Location::Right)) == Some(
            (Location::Right, StatueColor::Green),
        ),
{
    reveal_strlit("BallStatueGreenPlacedRight");
    reveal_strlit("Placed");
    reveal_strlit("Blue");
    reveal_strlit("Red");
    reveal_strlit("Mid");
    reveal_strlit("Left");
    reveal_strlit("Green");
    reveal_strlit("Right");
    let name = "BallStatueGreenPlacedRight"@;
    lemma_found(name, "Placed"@, 15);
    lemma_missing(name, "Blue"@);
    lemma_missing(name, "Red"@);
    lemma_found(name, "Green"@, 10);
    lemma_missing(name, "Mid"@);
    lemma_missing(name, "Left"@);
    lemma_found(name, "Right"@, 21);
}

/// The words in the fixture name `BallStatueGreenPlacedMid`.
proof fn lemma_fixture_green_middle()
    ensures
        placed_statue_in_label(placed_statue_name(StatueColor::Green, Location::Middle)) == Some(
            (Location::Middle, StatueColor::Green),
        ),
{
    reveal_strlit("BallStatueGreenPlacedMid");
    reveal_strlit("Placed");
    reveal_strlit("Blue");
    reveal_strlit("Red");
    reveal_strlit("Mid");
    reveal_strlit("Left");
    reveal_strlit("Green");
    let name = "BallStatueGreenPlacedMid"@;
    lemma_found(name, "Placed"@, 15);
    lemma_missing(name, "Blue"@);
    lemma_missing(name, "Red"@);
    lemma_found(name, "Green"@, 10);
    lemma_found(name, "Mid"@, 21);
}

/// The words in the fixture name `BallStatueGreenPlacedLeft`.
proof fn lemma_fixture_green_left()
    ensures
        placed_statue_in_label(placed_statue_name(StatueColor::Green, Location::Left)) == Some(
            (Location::Left, StatueColor::Green),
        ),
{
    reveal_strlit("BallStatueGreenPlacedLeft");
    reveal_strlit("Placed");
    reveal_strlit("Blue");
    reveal_strlit("Red");
    reveal_strlit("Mid");
    reveal_strlit("Left");
    reveal_strlit("Green");
    let name = "BallStatueGreenPlacedLeft"@;
    lemma_found(name, "Placed"@, 15);
    lemma_missing(name, "Blue"@);
    lemma_missing(name, "Red"@);
    lemma_found(name, "Green"@, 10);
    lemma_missing(name, "Mid"@);
    lemma_found(name, "Left"@, 21);
}

/// The words in the fixture name `BallStatueBluePlacedRight`.
proof fn lemma_fixture_blue_right()
    ensures
        placed_statue_in_label(placed_statue_name(StatueColor::Blue, Location::Right)) == Some(
            (Location::Right, StatueColor::Blue),
        ),
{
    reveal_strlit("BallStatueBluePlacedRight");
    reveal_strlit("Placed");
    reveal_strlit("Blue");
    reveal_strlit("Red");
    reveal_strlit("Mid");
    reveal_strlit("Left");
    reveal_strlit("Right");
    let name = "BallStatueBluePlacedRight"@;
    lemma_found(name, "Placed"@, 14);
    lemma_found(name, "Blue"@, 10);
    lemma_missing(name, "Mid"@);
    lemma_missing(name, "Left"@);
    lemma_found(name, "Right"@, 20);
}

/// The words in the fixture name `BallStatueBluePlacedMid`.
proof fn lemma_fixture_blue_middle()
    ensures
        placed_statue_in_label(placed_statue_name(StatueColor::Blue, Location::Middle)) == Some(
            (Location::Middle, StatueColor::Blue),
        ),
{
    reveal_strlit("BallStatueBluePlacedMid");
    reveal_strlit("Placed");
    reveal_strlit("Blue");
    reveal_strlit("Red");
    reveal_strlit("Mid");
    reveal_strlit("Left");
    let name = "BallStatueBluePlacedMid"@;
    lemma_found(name, "Placed"@, 14);
    lemma_found(name, "Blue"@, 10);
    lemma_found(name, "Mid"@, 20);
}

/// The words in the fixture name `BallStatueBluePlacedLeft`.
proof fn lemma_fixture_blue_left()
    ensures
        placed_statue_in_label(placed_statue_name(StatueColor::Blue, Location::Left)) == Some(
            (Location::Left, StatueColor::Blue),
        ),
{
    reveal_strlit("BallStatueBluePlacedLeft");
    reveal_strlit("Placed");
    reveal_strlit("Blue");
    reveal_strlit("Red");
    reveal_strlit("Mid");
    reveal_strlit("Left");
    let name = "BallStatueBluePlacedLeft"@;
    lemma_found(name, "Placed"@, 14);
    lemma_found(name, "Blue"@, 10);
    lemma_missing(name, "Mid"@);
    lemma_found(name, "Left"@, 20);
}

/// The label that the binder gives to the fixture of a placed statue is
/// read back as that statue's holder and colour.
pub proof fn lemma_fixture_label_reads_back(color: StatueColor, location: Location)
    ensures
        placed_statue_in_label(placed_statue_name(color, location)) == Some((location, color)),
{
    match (color, location) {
        (StatueColor::Red, Location::Right) => lemma_fixture_red_right(),
        (StatueColor::Red, Location::Middle) => lemma_fixture_red_middle(),
        (StatueColor::Red, Location::Left) => lemma_fixture_red_left(),
        (StatueColor::Green, Location::Right) => lemma_fixture_green_right(),
        (StatueColor::Green, Location::Middle) => lemma_fixture_green_middle(),
        (StatueColor::Green, Location::Left) => lemma_fixture_green_left(),
        (StatueColor::Blue, Location::Right) => lemma_fixture_blue_right(),
        (StatueColor::Blue, Location::Middle) => lemma_fixture_blue_middle(),
        (StatueColor::Blue, Location::Left) => lemma_fixture_blue_left(),
    }
}

/// Length and telling characters of every name that the registry compares
/// as a whole, and of the catalog's labels: enough to tell any two apart.
proof fn lemma_name_shapes()
    ensures
        "BlacklightFlashlight"@.len() == 20 && "BlacklightFlashlight"@[0] == 'B' && "BlacklightFlashlight"@[1] == 'l' && "BlacklightFlashlight"@[10]
            == 'F',
        "BallStatueGreen"@.len() == 15 && "BallStatueGreen"@[0] == 'B' && "BallStatueGreen"@[1] == 'a' && "BallStatueGreen"@[10]
            == 'G',
        "BallStatueBlue"@.len() == 14 && "BallStatueBlue"@[0] == 'B' && "BallStatueBlue"@[1] == 'a' && "BallStatueBlue"@[10]
            == 'B',
        "BallStatueRed"@.len() == 13 && "BallStatueRed"@[0] == 'B' && "BallStatueRed"@[1] == 'a' && "BallStatueRed"@[10]
            == 'R',
        "LeftStatueHolder"@.len() == 16 && "LeftStatueHolder"@[0] == 'L' && "LeftStatueHolder"@[1] == 'e' && "LeftStatueHolder"@[10]
            == 'H',
        "MiddleStatueHolder"@.len() == 18 && "MiddleStatueHolder"@[0] == 'M' && "MiddleStatueHolder"@[1] == 'i' && "MiddleStatueHolder"@[10]
            == 'u',
        "RightStatueHolder"@.len() == 17 && "RightStatueHolder"@[0] == 'R' && "RightStatueHolder"@[1] == 'i' && "RightStatueHolder"@[10]
            == 'e',
        "BallStatueRedPlacedRight"@.len() == 24 && "BallStatueRedPlacedRight"@[0] == 'B' && "BallStatueRedPlacedRight"@[1] == 'a' && "BallStatueRedPlacedRight"@[10]
            == 'R',
        "BallStatueRedPlacedMid"@.len() == 22 && "BallStatueRedPlacedMid"@[0] == 'B' && "BallStatueRedPlacedMid"@[1] == 'a' && "BallStatueRedPlacedMid"@[10]
            == 'R',
        "BallStatueRedPlacedLeft"@.len() == 23 && "BallStatueRedPlacedLeft"@[0] == 'B' && "BallStatueRedPlacedLeft"@[1] == 'a' && "BallStatueRedPlacedLeft"@[10]
            == 'R',
        "BallStatueGreenPlacedRight"@.len() == 26 && "BallStatueGreenPlacedRight"@[0] == 'B' && "BallStatueGreenPlacedRight"@[1] == 'a' && "BallStatueGreenPlacedRight"@[10]
            == 'G',
        "BallStatueGreenPlacedMid"@.len() == 24 && "BallStatueGreenPlacedMid"@[0] == 'B' && "BallStatueGreenPlacedMid"@[1] == 'a' && "BallStatueGreenPlacedMid"@[10]
            == 'G',
        "BallStatueGreenPlacedLeft"@.len() == 25 && "BallStatueGreenPlacedLeft"@[0] == 'B' && "BallStatueGreenPlacedLeft"@[1] == 'a' && "BallStatueGreenPlacedLeft"@[10]
            == 'G',
        "BallStatueBluePlacedRight"@.len() == 25 && "BallStatueBluePlacedRight"@[0] == 'B' && "BallStatueBluePlacedRight"@[1] == 'a' && "BallStatueBluePlacedRight"@[10]
            == 'B',
        "BallStatueBluePlacedMid"@.len() == 23 && "BallStatueBluePlacedMid"@[0] == 'B' && "BallStatueBluePlacedMid"@[1] == 'a' && "BallStatueBluePlacedMid"@[10]
            == 'B',
        "BallStatueBluePlacedLeft"@.len() == 24 && "BallStatueBluePlacedLeft"@[0] == 'B' && "BallStatueBluePlacedLeft"@[1] == 'a' && "BallStatueBluePlacedLeft"@[10]
            == 'B',
        "RedPoster"@.len() == 9 && "RedPoster"@[0] == 'R' && "RedPoster"@[1] == 'e',
        "GreenPoster"@.len() == 11 && "GreenPoster"@[0] == 'G' && "GreenPoster"@[1] == 'r' && "GreenPoster"@[10]
            == 'r',
        "BluePoster"@.len() == 10 && "BluePoster"@[0] == 'B' && "BluePoster"@[1] == 'l',
        "RedPosterUV"@.len() == 11 && "RedPosterUV"@[0] == 'R' && "RedPosterUV"@[1] == 'e' && "RedPosterUV"@[10]
            == 'V',
        "GreenPosterUV"@.len() == 13 && "GreenPosterUV"@[0] == 'G' && "GreenPosterUV"@[1] == 'r' && "GreenPosterUV"@[10]
            == 'r',
        "BluePosterUV"@.len() == 12 && "BluePosterUV"@[0] == 'B' && "BluePosterUV"@[1] == 'l' && "BluePosterUV"@[10]
            == 'U',
        "BlacklightSpot"@.len() == 14 && "BlacklightSpot"@[0] == 'B' && "BlacklightSpot"@[1] == 'l' && "BlacklightSpot"@[10]
            == 'S',
        "InvBallStatueRed"@.len() == 16 && "InvBallStatueRed"@[0] == 'I' && "InvBallStatueRed"@[1] == 'n' && "InvBallStatueRed"@[10]
            == 't',
        "InvBallStatueGreen"@.len() == 18 && "InvBallStatueGreen"@[0] == 'I' && "InvBallStatueGreen"@[1] == 'n' && "InvBallStatueGreen"@[10]
            == 't',
        "InvBallStatueBlue"@.len() == 17 && "InvBallStatueBlue"@[0] == 'I' && "InvBallStatueBlue"@[1] == 'n' && "InvBallStatueBlue"@[10]
            == 't',
        "InvBlacklightFlashlight"@.len() == 23 && "InvBlacklightFlashlight"@[0] == 'I' && "InvBlacklightFlashlight"@[1] == 'n' && "InvBlacklightFlashlight"@[10]
            == 'g',
        inventory_prefix().len() == 3 && inventory_prefix()[0] == 'I',
{
    reveal_strlit("BlacklightFlashlight");
    reveal_strlit("BallStatueGreen");
    reveal_strlit("BallStatueBlue");
    reveal_strlit("BallStatueRed");
    reveal_strlit("LeftStatueHolder");
    reveal_strlit("MiddleStatueHolder");
    reveal_strlit("RightStatueHolder");
    reveal_strlit("BallStatueRedPlacedRight");
    reveal_strlit("BallStatueRedPlacedMid");
    reveal_strlit("BallStatueRedPlacedLeft");
    reveal_strlit("BallStatueGreenPlacedRight");
    reveal_strlit("BallStatueGreenPlacedMid");
    reveal_strlit("BallStatueGreenPlacedLeft");
    reveal_strlit("BallStatueBluePlacedRight");
    reveal_strlit("BallStatueBluePlacedMid");
    reveal_strlit("BallStatueBluePlacedLeft");
    reveal_strlit("RedPoster");
    reveal_strlit("GreenPoster");
    reveal_strlit("BluePoster");
    reveal_strlit("RedPosterUV");
    reveal_strlit("GreenPosterUV");
    reveal_strlit("BluePosterUV");
    reveal_strlit("BlacklightSpot");
    reveal_strlit("InvBallStatueRed");
    reveal_strlit("InvBallStatueGreen");
    reveal_strlit("InvBallStatueBlue");
    reveal_strlit("InvBlacklightFlashlight");
    reveal_strlit("Inv");
}

/// A name that begins like an inventory slot mesh begins with `I`.
proof fn lemma_inventory_names_start_alike(name: Seq<char>)
    requires
        has_prefix(name, inventory_prefix()),
    ensures
        name.len() >= 3,
        name[0] == 'I',
{
    lemma_name_shapes();
    assert(name.subrange(0, 3)[0] == name[0]);
}

/// The flashlight's world name is filed as the flashlight, and the light
/// marker's name as the light marker.
pub proof fn lemma_role_of_single_names()
    ensures
        role_of_name(flashlight_name()) == SceneRole::BlacklightFlashlight,
        role_of_name(light_marker_name()) == SceneRole::LightMarker,
{
    lemma_name_shapes();
    if has_prefix(light_marker_name(), inventory_prefix()) {
        lemma_inventory_names_start_alike(light_marker_name());
    }
}

/// The world name of each statue is filed as the statue of that colour.
pub proof fn lemma_role_of_ball_statue(color: StatueColor)
    ensures
        role_of_name(ball_statue_name(color)) == SceneRole::BallStatue(color),
{
    lemma_name_shapes();
}

/// The name of each holder is filed as the holder at that location, and a
/// place target of that name stands for that location.
pub proof fn lemma_role_of_holder(location: Location)
    ensures
        role_of_name(holder_name(location)) == SceneRole::StatueHolder(location),
        location_of_holder(holder_name(location)) == location,
{
    lemma_name_shapes();
}

/// The name of each fixture is filed as the placed statue of that colour at
/// that location.
pub proof fn lemma_role_of_fixture(color: StatueColor, location: Location)
    ensures
        role_of_name(placed_statue_name(color, location)) == SceneRole::PlacedStatue(
            color,
            location,
        ),
{
    lemma_name_shapes();
    assert(placed_role_of_name(placed_statue_name(color, location)) == Some(
        SceneRole::PlacedStatue(color, location),
    ));
}

/// The two names of each poster are filed as the two variants of the poster
/// of that colour.
pub proof fn lemma_role_of_poster(color: StatueColor)
    ensures
        role_of_name(poster_name(color)) == SceneRole::Poster(color, false),
        role_of_name(uv_poster_name(color)) == SceneRole::Poster(color, true),
{
    lemma_name_shapes();
    assert(placed_role_of_name(poster_name(color)) is None);
    assert(placed_role_of_name(uv_poster_name(color)) is None);
}

/// The label of every real catalog item is the name of an inventory slot
/// mesh.
pub proof fn lemma_role_of_item_label(slot: int)
    requires
        0 <= slot < ITEM_COUNT - 1,
    ensures
        role_of_name(item_label(slot)) == SceneRole::InventorySlot,
{
    lemma_name_shapes();
    reveal_strlit("InvBallStatueRed");
    reveal_strlit("InvBallStatueGreen");
    reveal_strlit("InvBallStatueBlue");
    reveal_strlit("InvBlacklightFlashlight");
    reveal_strlit("Inv");
    let label = item_label(slot);
    assert(placed_role_of_name(label) is None);
    assert(has_prefix(label, inventory_prefix())) by {
        assert(label.subrange(0, 3) =~= inventory_prefix());
    }
}

/// Picking up a collectible yields the inventory label of that very item,
/// and the fixture of a placed statue is no collectible.
pub proof fn lemma_pickup_label_of_names(color: StatueColor, location: Location)
    ensures
        pickup_label(ball_statue_name(color)) == Some(statue_label(color)),
        pickup_label(flashlight_name()) == Some(flashlight_label()),
        pickup_label(placed_statue_name(color, location)) is None,
{
    lemma_name_shapes();
}

/// The inventory label of a collectible is its world name with the
/// inventory prefix in front.
pub proof fn lemma_pickup_label_is_prefixed(name: Seq<char>)
    ensures
        pickup_label(name) matches Some(label) ==> label == inventory_prefix() + name,
{
    reveal_strlit("BlacklightFlashlight");
    reveal_strlit("BallStatueGreen");
    reveal_strlit("BallStatueBlue");
    reveal_strlit("BallStatueRed");
    reveal_strlit("InvBallStatueRed");
    reveal_strlit("InvBallStatueGreen");
    reveal_strlit("InvBallStatueBlue");
    reveal_strlit("InvBlacklightFlashlight");
    reveal_strlit("Inv");
    if pickup_label(name) is Some {
        assert(pickup_label(name)->0 =~= inventory_prefix() + name);
    }
}

} // verus!
