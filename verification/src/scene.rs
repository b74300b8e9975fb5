//! What the game sees of the scene graph: entity handles, transforms and
//! named nodes with their children.

use vstd::prelude::*;
use bevy_ecs::entity::Entity;
use bevy_transform::components::Transform;

verus! {

/// `bevy_ecs::entity::Entity`, the engine's handle of one entity. The game
/// stores such handles and hands them back; it never looks inside one.
#[verifier::external_type_specification]
#[verifier::external_body]
pub struct ExEntity(Entity);

/// `bevy_transform::components::Transform`, the placement of a node in
/// space. The game carries it from a marker node to the light spawned there
/// and never looks inside it.
#[verifier::external_type_specification]
#[verifier::external_body]
pub struct ExTransform(Transform);

/// One node of the instantiated scene, as the scene graph reports it.
pub struct SceneNode {
    pub entity: Entity,
    pub name: String,
    pub children: Vec<Entity>,
    pub transform: Transform,
}

/// Mathematical content of a [`SceneNode`].
pub struct SceneNodeView {
    pub entity: Entity,
    pub name: Seq<char>,
    pub children: Seq<Entity>,
    pub transform: Transform,
}

impl View for SceneNode {
    type V = SceneNodeView;

    open spec fn view(&self) -> SceneNodeView {
        SceneNodeView {
            entity: self.entity,
            name: self.name@,
            children: self.children@,
            transform: self.transform,
        }
    }
}

impl DeepView for SceneNode {
    type V = SceneNodeView;

    open spec fn deep_view(&self) -> SceneNodeView {
        self@
    }
}

} // verus!
