use bevy_ecs::entity::Entity;
use bevy_transform::components::Transform;
use escape_room::binder::{
    attach_tags, attach_tags_to_children, copy_tag, make_children_pickable,
    make_children_placeable, make_children_placed_statues, make_children_posters,
    make_inventory_meshes, poster_label, tag_node, tag_stuff, BindAction, Done, InstanceStatus,
    Tag, BLACKLIGHT_SOURCE_ROTATION_DEGREES,
};
use escape_room::catalog::{Location, StatueColor};
use escape_room::scene::SceneNode;

fn entity(id: u32) -> Entity {
    Entity::new(id)
}

fn node(id: u32, name: &str, children: &[u32]) -> SceneNode {
    SceneNode {
        entity: entity(id),
        name: name.to_string(),
        children: children.iter().map(|child| entity(*child)).collect(),
        transform: Transform::from_xyz(id as f32, 2.0, 3.0),
    }
}

fn attach(id: u32, tag: Tag) -> BindAction {
    BindAction::Attach { entity: entity(id), tag }
}

fn actions_for(node: &SceneNode) -> Vec<BindAction> {
    let mut actions = Vec::new();
    tag_node(&mut actions, node);
    actions
}

#[test]
fn blacklight_source_is_turned_by_135_degrees() {
    assert_eq!(BLACKLIGHT_SOURCE_ROTATION_DEGREES, 135);
}

#[test]
fn copy_tag_keeps_every_kind_of_tag() {
    let tags = vec![
        Tag::BlacklightFlashlight,
        Tag::BallStatue(StatueColor::Green),
        Tag::Parent(entity(9)),
        Tag::Pickable("BallStatueRed".to_string()),
        Tag::StatueHolder("LeftStatueHolder".to_string()),
        Tag::PlacedStatue(StatueColor::Blue, Location::Middle),
        Tag::Poster("RedPoster".to_string(), StatueColor::Red, true),
        Tag::Inventory("InvBallStatueRed".to_string()),
        Tag::PickMesh,
        Tag::BlacklightMesh,
        Tag::BlacklightSource,
        Tag::Hidden,
    ];
    for tag in &tags {
        assert_eq!(&copy_tag(tag), tag);
    }
}

#[test]
fn attach_tags_appends_in_order() {
    let mut actions = vec![BindAction::SpawnLight { transform: Transform::identity() }];
    attach_tags(&mut actions, entity(3), &vec![Tag::PickMesh, Tag::Hidden]);
    assert_eq!(
        actions,
        vec![
            BindAction::SpawnLight { transform: Transform::identity() },
            attach(3, Tag::PickMesh),
            attach(3, Tag::Hidden),
        ],
    );
}

#[test]
fn attach_tags_to_children_goes_child_by_child() {
    let mut actions = Vec::new();
    let children = vec![entity(1), entity(2)];
    attach_tags_to_children(&mut actions, &children, &vec![Tag::PickMesh, Tag::Hidden]);
    assert_eq!(
        actions,
        vec![
            attach(1, Tag::PickMesh),
            attach(1, Tag::Hidden),
            attach(2, Tag::PickMesh),
            attach(2, Tag::Hidden),
        ],
    );
    let before = actions.len();
    attach_tags_to_children(&mut actions, &children, &Vec::new());
    attach_tags_to_children(&mut actions, &Vec::new(), &vec![Tag::PickMesh]);
    assert_eq!(actions.len(), before);
}

#[test]
fn pickable_children_get_mesh_parent_and_label() {
    let mut actions = Vec::new();
    make_children_pickable(&mut actions, entity(10), &vec![entity(11), entity(12)], "BallStatueRed");
    assert_eq!(
        actions,
        vec![
            attach(11, Tag::PickMesh),
            attach(11, Tag::Parent(entity(10))),
            attach(11, Tag::Pickable("BallStatueRed".to_string())),
            attach(12, Tag::PickMesh),
            attach(12, Tag::Parent(entity(10))),
            attach(12, Tag::Pickable("BallStatueRed".to_string())),
        ],
    );
}

#[test]
fn poster_children_of_the_everyday_variant_can_be_lit() {
    let mut actions = Vec::new();
    make_children_posters(&mut actions, &vec![entity(5)], "BluePoster", StatueColor::Blue, false);
    assert_eq!(
        actions,
        vec![
            attach(5, Tag::Poster("BluePoster".to_string(), StatueColor::Blue, false)),
            attach(5, Tag::BlacklightMesh),
        ],
    );
}

#[test]
fn poster_children_of_the_blacklight_variant_cannot_be_lit() {
    let mut actions = Vec::new();
    make_children_posters(&mut actions, &vec![entity(5)], "BluePoster", StatueColor::Blue, true);
    assert_eq!(
        actions,
        vec![attach(5, Tag::Poster("BluePoster".to_string(), StatueColor::Blue, true))],
    );
}

#[test]
fn placeable_tags_parent_and_children() {
    let mut actions = Vec::new();
    make_children_placeable(&mut actions, entity(20), &vec![entity(21)], "LeftStatueHolder");
    assert_eq!(
        actions,
        vec![
            attach(20, Tag::StatueHolder("LeftStatueHolder".to_string())),
            attach(21, Tag::PickMesh),
            attach(21, Tag::StatueHolder("LeftStatueHolder".to_string())),
        ],
    );
}

#[test]
fn placed_statue_children_can_be_picked_up_again() {
    let mut actions = Vec::new();
    make_children_placed_statues(
        &mut actions,
        entity(30),
        &vec![entity(31)],
        StatueColor::Green,
        Location::Middle,
        "BallStatueGreenPlacedMid",
    );
    assert_eq!(
        actions,
        vec![
            attach(30, Tag::PlacedStatue(StatueColor::Green, Location::Middle)),
            attach(31, Tag::PickMesh),
            attach(31, Tag::PlacedStatue(StatueColor::Green, Location::Middle)),
            attach(31, Tag::Pickable("BallStatueGreenPlacedMid".to_string())),
        ],
    );
}

#[test]
fn inventory_meshes_are_tagged_and_hidden() {
    let mut actions = Vec::new();
    make_inventory_meshes(&mut actions, entity(40), &vec![entity(41)], "InvBallStatueRed");
    assert_eq!(
        actions,
        vec![
            attach(40, Tag::Inventory("InvBallStatueRed".to_string())),
            attach(40, Tag::Hidden),
            attach(41, Tag::Inventory("InvBallStatueRed".to_string())),
            attach(41, Tag::Hidden),
        ],
    );
}

#[test]
fn flashlight_inventory_mesh_carries_the_blacklight_source() {
    let mut actions = Vec::new();
    make_inventory_meshes(&mut actions, entity(40), &vec![entity(41)], "InvBlacklightFlashlight");
    assert_eq!(
        actions,
        vec![
            attach(40, Tag::Inventory("InvBlacklightFlashlight".to_string())),
            attach(40, Tag::Hidden),
            attach(40, Tag::BlacklightSource),
            attach(41, Tag::Inventory("InvBlacklightFlashlight".to_string())),
            attach(41, Tag::Hidden),
        ],
    );
}

#[test]
fn poster_labels_name_the_everyday_variant() {
    assert_eq!(poster_label(StatueColor::Red), "RedPoster");
    assert_eq!(poster_label(StatueColor::Green), "GreenPoster");
    assert_eq!(poster_label(StatueColor::Blue), "BluePoster");
}

#[test]
fn tag_node_for_the_flashlight() {
    assert_eq!(
        actions_for(&node(1, "BlacklightFlashlight", &[2])),
        vec![
            attach(1, Tag::BlacklightFlashlight),
            attach(2, Tag::PickMesh),
            attach(2, Tag::Parent(entity(1))),
            attach(2, Tag::Pickable("BlacklightFlashlight".to_string())),
        ],
    );
}

#[test]
fn tag_node_for_a_ball_statue() {
    assert_eq!(
        actions_for(&node(1, "BallStatueBlue", &[2, 3])),
        vec![
            attach(1, Tag::BallStatue(StatueColor::Blue)),
            attach(2, Tag::PickMesh),
            attach(2, Tag::Parent(entity(1))),
            attach(2, Tag::Pickable("BallStatueBlue".to_string())),
            attach(3, Tag::PickMesh),
            attach(3, Tag::Parent(entity(1))),
            attach(3, Tag::Pickable("BallStatueBlue".to_string())),
        ],
    );
}

#[test]
fn tag_node_for_a_holder() {
    assert_eq!(
        actions_for(&node(1, "RightStatueHolder", &[2])),
        vec![
            attach(1, Tag::StatueHolder("RightStatueHolder".to_string())),
            attach(2, Tag::PickMesh),
            attach(2, Tag::StatueHolder("RightStatueHolder".to_string())),
        ],
    );
}

#[test]
fn tag_node_for_a_fixture() {
    assert_eq!(
        actions_for(&node(1, "BallStatueRedPlacedLeft", &[2])),
        vec![
            attach(1, Tag::PlacedStatue(StatueColor::Red, Location::Left)),
            attach(2, Tag::PickMesh),
            attach(2, Tag::PlacedStatue(StatueColor::Red, Location::Left)),
            attach(2, Tag::Pickable("BallStatueRedPlacedLeft".to_string())),
        ],
    );
}

#[test]
fn tag_node_for_both_poster_variants_uses_one_label() {
    assert_eq!(
        actions_for(&node(1, "GreenPoster", &[2])),
        vec![
            attach(2, Tag::Poster("GreenPoster".to_string(), StatueColor::Green, false)),
            attach(2, Tag::BlacklightMesh),
        ],
    );
    assert_eq!(
        actions_for(&node(3, "GreenPosterUV", &[4])),
        vec![attach(4, Tag::Poster("GreenPoster".to_string(), StatueColor::Green, true))],
    );
}

#[test]
fn tag_node_for_an_inventory_mesh() {
    assert_eq!(
        actions_for(&node(1, "InvBallStatueGreen", &[2])),
        vec![
            attach(1, Tag::Inventory("InvBallStatueGreen".to_string())),
            attach(1, Tag::Hidden),
            attach(2, Tag::Inventory("InvBallStatueGreen".to_string())),
            attach(2, Tag::Hidden),
        ],
    );
}

#[test]
fn tag_node_for_a_light_marker_spawns_a_light_at_its_place() {
    assert_eq!(
        actions_for(&node(7, "BlacklightSpot", &[8])),
        vec![BindAction::SpawnLight { transform: Transform::from_xyz(7.0, 2.0, 3.0) }],
    );
}

#[test]
fn tag_node_ignores_unknown_names() {
    assert_eq!(actions_for(&node(1, "cam", &[2, 3])), Vec::new());
    assert_eq!(actions_for(&node(1, "", &[])), Vec::new());
}

#[test]
fn tag_node_without_children_tags_only_the_node() {
    assert_eq!(
        actions_for(&node(1, "BallStatueRed", &[])),
        vec![attach(1, Tag::BallStatue(StatueColor::Red))],
    );
    assert_eq!(actions_for(&node(1, "RedPoster", &[])), Vec::new());
}

#[test]
fn binder_waits_until_the_instance_can_be_listed() {
    let nodes = vec![node(1, "BallStatueRed", &[2])];
    let mut done = Done::default();
    assert_eq!(tag_stuff(&mut done, InstanceStatus::NotRequested, &nodes), Vec::new());
    assert!(!done.0);
    assert_eq!(tag_stuff(&mut done, InstanceStatus::Requested, &nodes), Vec::new());
    assert!(!done.0);
    let actions = tag_stuff(&mut done, InstanceStatus::Enumerable, &nodes);
    assert!(done.0);
    assert_eq!(actions, actions_for(&nodes[0]));
}

#[test]
fn binder_goes_through_the_nodes_in_order() {
    let nodes = vec![
        node(1, "BallStatueRed", &[2]),
        node(3, "floor", &[4]),
        node(5, "BlacklightSpot", &[]),
        node(6, "LeftStatueHolder", &[7]),
    ];
    let mut done = Done(false);
    let actions = tag_stuff(&mut done, InstanceStatus::Enumerable, &nodes);
    let mut expected = Vec::new();
    for node in &nodes {
        expected.extend(actions_for(node));
    }
    assert_eq!(actions, expected);
    assert_eq!(actions.len(), 4 + 0 + 1 + 3);
}

#[test]
fn binding_twice_tags_nothing_twice() {
    let nodes = vec![node(1, "BallStatueRed", &[2, 3]), node(4, "InvBallStatueRed", &[5])];
    let mut done = Done::default();
    let first = tag_stuff(&mut done, InstanceStatus::Enumerable, &nodes);
    let pickable = first
        .iter()
        .filter(|action| matches!(action, BindAction::Attach { tag: Tag::Pickable(_), .. }))
        .count();
    assert_eq!(pickable, 2);
    assert!(done.0);
    for status in [InstanceStatus::Enumerable, InstanceStatus::Requested, InstanceStatus::NotRequested] {
        assert_eq!(tag_stuff(&mut done, status, &nodes), Vec::new());
        assert!(done.0);
    }
}

#[test]
fn binder_with_no_nodes_still_counts_as_run() {
    let mut done = Done::default();
    assert_eq!(tag_stuff(&mut done, InstanceStatus::Enumerable, &Vec::new()), Vec::new());
    assert!(done.0);
}
