//! The naming registry: which scene-node names mean what to the game.
//!
//! Node names are matched as whole strings, with one exception: every name
//! that begins with `Inv` is an inventory slot mesh.

use vstd::prelude::*;
use crate::catalog::{
    flashlight_label, statue_color_of_label, statue_label, statue_name_for_color, Location,
    StatueColor,
};
use crate::text::{has_prefix, has_substring, str_contains, str_eq, str_starts_with};

verus! {

/// What a scene node is to the game, as far as its name tells.
#[derive(Clone, Copy, Debug, PartialEq, Eq, Structural)]
pub enum SceneRole {
    /// The flashlight lying in the world, to be picked up.
    BlacklightFlashlight,
    /// A ball statue lying in the world, to be picked up.
    BallStatue(StatueColor),
    /// A holder that takes a statue.
    StatueHolder(Location),
    /// The fixture that shows a statue of one colour standing in one holder.
    PlacedStatue(StatueColor, Location),
    /// A poster; the flag tells the variant that only the blacklight shows.
    Poster(StatueColor, bool),
    /// The model of an inventory item, shown while the item is in hand.
    InventorySlot,
    /// A marker where a light is to be spawned.
    LightMarker,
    /// Anything else.
    Ignored,
}

/// Name of the world node of the statue of colour `color`.
pub open spec fn ball_statue_name(color: StatueColor) -> Seq<char> {
    match color {
        StatueColor::Red => "BallStatueRed"@,
        StatueColor::Green => "BallStatueGreen"@,
        StatueColor::Blue => "BallStatueBlue"@,
    }
}

/// Name of the world node of the flashlight.
pub open spec fn flashlight_name() -> Seq<char> {
    "BlacklightFlashlight"@
}

/// Name of the holder node at `location`.
pub open spec fn holder_name(location: Location) -> Seq<char> {
    match location {
        Location::Left => "LeftStatueHolder"@,
        Location::Middle => "MiddleStatueHolder"@,
        Location::Right => "RightStatueHolder"@,
    }
}

/// Name of the fixture node that shows `color` standing at `location`.
pub open spec fn placed_statue_name(color: StatueColor, location: Location) -> Seq<char> {
    match (color, location) {
        (StatueColor::Red, Location::Right) => "BallStatueRedPlacedRight"@,
        (StatueColor::Green, Location::Right) => "BallStatueGreenPlacedRight"@,
        (StatueColor::Blue, Location::Right) => "BallStatueBluePlacedRight"@,
        (StatueColor::Red, Location::Middle) => "BallStatueRedPlacedMid"@,
        (StatueColor::Green, Location::Middle) => "BallStatueGreenPlacedMid"@,
        (StatueColor::Blue, Location::Middle) => "BallStatueBluePlacedMid"@,
        (StatueColor::Red, Location::Left) => "BallStatueRedPlacedLeft"@,
        (StatueColor::Green, Location::Left) => "BallStatueGreenPlacedLeft"@,
        (StatueColor::Blue, Location::Left) => "BallStatueBluePlacedLeft"@,
    }
}

/// Name of the poster node of colour `color` in its everyday variant. It is
/// also the label under which both variants of that poster are known.
pub open spec fn poster_name(color: StatueColor) -> Seq<char> {
    match color {
        StatueColor::Red => "RedPoster"@,
        StatueColor::Green => "GreenPoster"@,
        StatueColor::Blue => "BluePoster"@,
    }
}

/// Name of the poster node of colour `color` in its blacklight variant.
pub open spec fn uv_poster_name(color: StatueColor) -> Seq<char> {
    match color {
        StatueColor::Red => "RedPosterUV"@,
        StatueColor::Green => "GreenPosterUV"@,
        StatueColor::Blue => "BluePosterUV"@,
    }
}

/// Name of the node that marks where a light is to be spawned.
pub open spec fn light_marker_name() -> Seq<char> {
    "BlacklightSpot"@
}

/// Prefix shared by the names of all inventory slot meshes.
pub open spec fn inventory_prefix() -> Seq<char> {
    "Inv"@
}

/// The role of the statue fixtures among the names, decided by whole-name
/// comparison.
pub open spec fn placed_role_of_name(name: Seq<char>) -> Option<SceneRole> {
    if name == placed_statue_name(StatueColor::Red, Location::Right) {
        Some(SceneRole::PlacedStatue(StatueColor::Red, Location::Right))
    } else if name == placed_statue_name(StatueColor::Green, Location::Right) {
        Some(SceneRole::PlacedStatue(StatueColor::Green, Location::Right))
    } else if name == placed_statue_name(StatueColor::Blue, Location::Right) {
        Some(SceneRole::PlacedStatue(StatueColor::Blue, Location::Right))
    } else if name == placed_statue_name(StatueColor::Red, Location::Middle) {
        Some(SceneRole::PlacedStatue(StatueColor::Red, Location::Middle))
    } else if name == placed_statue_name(StatueColor::Green, Location::Middle) {
        Some(SceneRole::PlacedStatue(StatueColor::Green, Location::Middle))
    } else if name == placed_statue_name(StatueColor::Blue, Location::Middle) {
        Some(SceneRole::PlacedStatue(StatueColor::Blue, Location::Middle))
    } else if name == placed_statue_name(StatueColor::Red, Location::Left) {
        Some(SceneRole::PlacedStatue(StatueColor::Red, Location::Left))
    } else if name == placed_statue_name(StatueColor::Green, Location::Left) {
        Some(SceneRole::PlacedStatue(StatueColor::Green, Location::Left))
    } else if name == placed_statue_name(StatueColor::Blue, Location::Left) {
        Some(SceneRole::PlacedStatue(StatueColor::Blue, Location::Left))
    } else {
        None
    }
}

/// The role that the registry gives to a node named `name`.
pub open spec fn role_of_name(name: Seq<char>) -> SceneRole {
    if name == flashlight_name() {
        SceneRole::BlacklightFlashlight
    } else if name == ball_statue_name(StatueColor::Green) {
        SceneRole::BallStatue(StatueColor::Green)
    } else if name == ball_statue_name(StatueColor::Blue) {
        SceneRole::BallStatue(StatueColor::Blue)
    } else if name == ball_statue_name(StatueColor::Red) {
        SceneRole::BallStatue(StatueColor::Red)
    } else if name == holder_name(Location::Left) {
        SceneRole::StatueHolder(Location::Left)
    } else if name == holder_name(Location::Middle) {
        SceneRole::StatueHolder(Location::Middle)
    } else if name == holder_name(Location::Right) {
        SceneRole::StatueHolder(Location::Right)
    } else if placed_role_of_name(name) is Some {
        placed_role_of_name(name)->0
    } else if name == poster_name(StatueColor::Red) {
        SceneRole::Poster(StatueColor::Red, false)
    } else if name == poster_name(StatueColor::Green) {
        SceneRole::Poster(StatueColor::Green, false)
    } else if name == poster_name(StatueColor::Blue) {
        SceneRole::Poster(StatueColor::Blue, false)
    } else if name == uv_poster_name(StatueColor::Red) {
        SceneRole::Poster(StatueColor::Red, true)
    } else if name == uv_poster_name(StatueColor::Green) {
        SceneRole::Poster(StatueColor::Green, true)
    } else if name == uv_poster_name(StatueColor::Blue) {
        SceneRole::Poster(StatueColor::Blue, true)
    } else if has_prefix(name, inventory_prefix()) {
        SceneRole::InventorySlot
    } else if name == light_marker_name() {
        SceneRole::LightMarker
    } else {
        SceneRole::Ignored
    }
}

/// The holder that a place target named `name` stands for. A name that is
/// neither the left nor the middle holder's is read as the right holder.
pub open spec fn location_of_holder(name: Seq<char>) -> Location {
    if name == holder_name(Location::Left) {
        Location::Left
    } else if name == holder_name(Location::Middle) {
        Location::Middle
    } else {
        Location::Right
    }
}

/// The colour that a label names: blue if it mentions `Blue`, else red if
/// it mentions `Red`, else green if it mentions `Green`. A label that
/// mentions none of the three names no colour.
pub open spec fn color_in_label(label: Seq<char>) -> Option<StatueColor> {
    if has_substring(label, "Blue"@) {
        Some(StatueColor::Blue)
    } else if has_substring(label, "Red"@) {
        Some(StatueColor::Red)
    } else if has_substring(label, "Green"@) {
        Some(StatueColor::Green)
    } else {
        None
    }
}

/// The holder that a label names: the middle one if it mentions `Mid`, else
/// the left one if it mentions `Left`, else the right one if it mentions
/// `Right`. A label that mentions none of the three names no holder.
pub open spec fn location_in_label(label: Seq<char>) -> Option<Location> {
    if has_substring(label, "Mid"@) {
        Some(Location::Middle)
    } else if has_substring(label, "Left"@) {
        Some(Location::Left)
    } else if has_substring(label, "Right"@) {
        Some(Location::Right)
    } else {
        None
    }
}

/// Holder and colour of the placed statue that `label` names. A label names
/// one only if it mentions `Placed` and names both a colour and a holder.
pub open spec fn placed_statue_in_label(label: Seq<char>) -> Option<(Location, StatueColor)> {
    if has_substring(label, "Placed"@) && color_in_label(label) is Some && location_in_label(
        label,
    ) is Some {
        Some((location_in_label(label)->0, color_in_label(label)->0))
    } else {
        None
    }
}

/// Inventory label of the collectible whose world node is named `name`;
/// `None` for every name that is not a collectible's.
pub open spec fn pickup_label(name: Seq<char>) -> Option<Seq<char>> {
    if name == ball_statue_name(StatueColor::Red) {
        Some(statue_label(StatueColor::Red))
    } else if name == ball_statue_name(StatueColor::Green) {
        Some(statue_label(StatueColor::Green))
    } else if name == ball_statue_name(StatueColor::Blue) {
        Some(statue_label(StatueColor::Blue))
    } else if name == flashlight_name() {
        Some(flashlight_label())
    } else {
        None
    }
}

fn classify_placed(name: &str) -> (role: Option<SceneRole>)
    ensures
        role == placed_role_of_name(name@),
{
    if str_eq(name, "BallStatueRedPlacedRight") {
        Some(SceneRole::PlacedStatue(StatueColor::Red, Location::Right))
    } else if str_eq(name, "BallStatueGreenPlacedRight") {
        Some(SceneRole::PlacedStatue(StatueColor::Green, Location::Right))
    } else if str_eq(name, "BallStatueBluePlacedRight") {
        Some(SceneRole::PlacedStatue(StatueColor::Blue, Location::Right))
    } else if str_eq(name, "BallStatueRedPlacedMid") {
        Some(SceneRole::PlacedStatue(StatueColor::Red, Location::Middle))
    } else if str_eq(name, "BallStatueGreenPlacedMid") {
        Some(SceneRole::PlacedStatue(StatueColor::Green, Location::Middle))
    } else if str_eq(name, "BallStatueBluePlacedMid") {
        Some(SceneRole::PlacedStatue(StatueColor::Blue, Location::Middle))
    } else if str_eq(name, "BallStatueRedPlacedLeft") {
        Some(SceneRole::PlacedStatue(StatueColor::Red, Location::Left))
    } else if str_eq(name, "BallStatueGreenPlacedLeft") {
        Some(SceneRole::PlacedStatue(StatueColor::Green, Location::Left))
    } else if str_eq(name, "BallStatueBluePlacedLeft") {
        Some(SceneRole::PlacedStatue(StatueColor::Blue, Location::Left))
    } else {
        None
    }
}

/// Looks `name` up in the registry.
pub fn classify(name: &str) -> (role: SceneRole)
    ensures
        role == role_of_name(name@),
{
    if str_eq(name, "BlacklightFlashlight") {
        return SceneRole::BlacklightFlashlight;
    }
    if str_eq(name, "BallStatueGreen") {
        return SceneRole::BallStatue(StatueColor::Green);
    }
    if str_eq(name, "BallStatueBlue") {
        return SceneRole::BallStatue(StatueColor::Blue);
    }
    if str_eq(name, "BallStatueRed") {
        return SceneRole::BallStatue(StatueColor::Red);
    }
    if str_eq(name, "LeftStatueHolder") {
        return SceneRole::StatueHolder(Location::Left);
    }
    if str_eq(name, "MiddleStatueHolder") {
        return SceneRole::StatueHolder(Location::Middle);
    }
    if str_eq(name, "RightStatueHolder") {
        return SceneRole::StatueHolder(Location::Right);
    }
    if let Some(role) = classify_placed(name) {
        return role;
    }
    if str_eq(name, "RedPoster") {
        return SceneRole::Poster(StatueColor::Red, false);
    }
    if str_eq(name, "GreenPoster") {
        return SceneRole::Poster(StatueColor::Green, false);
    }
    if str_eq(name, "BluePoster") {
        return SceneRole::Poster(StatueColor::Blue, false);
    }
    if str_eq(name, "RedPosterUV") {
        return SceneRole::Poster(StatueColor::Red, true);
    }
    if str_eq(name, "GreenPosterUV") {
        return SceneRole::Poster(StatueColor::Green, true);
    }
    if str_eq(name, "BluePosterUV") {
        return SceneRole::Poster(StatueColor::Blue, true);
    }
    if str_starts_with(name, "Inv") {
        return SceneRole::InventorySlot;
    }
    if str_eq(name, "BlacklightSpot") {
        return SceneRole::LightMarker;
    }
    SceneRole::Ignored
}

/// The holder that a place target named `name` stands for.
pub fn holder_location(name: &str) -> (location: Location)
    ensures
        location == location_of_holder(name@),
{
    if str_eq(name, "LeftStatueHolder") {
        Location::Left
    } else if str_eq(name, "MiddleStatueHolder") {
        Location::Middle
    } else {
        Location::Right
    }
}

/// Reads holder and colour of a placed statue out of the label of its
/// fixture; `None` for a label that lacks the word `Placed`, a colour or a
/// holder.
pub fn parse_placed_statue(name: &str) -> (parsed: Option<(Location, StatueColor)>)
    ensures
        parsed == placed_statue_in_label(name@),
{
    if !str_contains(name, "Placed") {
        return None;
    }
    let color = if str_contains(name, "Blue") {
        StatueColor::Blue
    } else if str_contains(name, "Red") {
        StatueColor::Red
    } else if str_contains(name, "Green") {
        StatueColor::Green
    } else {
        return None;
    };
    let location = if str_contains(name, "Mid") {
        Location::Middle
    } else if str_contains(name, "Left") {
        Location::Left
    } else if str_contains(name, "Right") {
        Location::Right
    } else {
        return None;
    };
    Some((location, color))
}

/// Inventory label under which the collectible named `name` is owned once
/// picked up; `None` if `name` is not a collectible's.
pub fn pickup_name(name: &str) -> (label: Option<&'static str>)
    ensures
        label.deep_view() == pickup_label(name@),
{
    if str_eq(name, "BallStatueRed") {
        Some(statue_name_for_color(StatueColor::Red))
    } else if str_eq(name, "BallStatueGreen") {
        Some(statue_name_for_color(StatueColor::Green))
    } else if str_eq(name, "BallStatueBlue") {
        Some(statue_name_for_color(StatueColor::Blue))
    } else if str_eq(name, "BlacklightFlashlight") {
        Some("InvBlacklightFlashlight")
    } else {
        None
    }
}

/// The colour of the statue whose inventory label is `name`; `None` if
/// `name` is no statue's label.
pub fn statue_color_for_name(name: &str) -> (color: Option<StatueColor>)
    ensures
        color == statue_color_of_label(name@),
{
    if str_eq(name, "InvBallStatueBlue") {
        Some(StatueColor::Blue)
    } else if str_eq(name, "InvBallStatueGreen") {
        Some(StatueColor::Green)
    } else if str_eq(name, "InvBallStatueRed") {
        Some(StatueColor::Red)
    } else {
        None
    }
}

} // verus!
