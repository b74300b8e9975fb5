//! The semantic binder: one pass over the nodes of the instantiated scene
//! that decides which gameplay tags each entity receives.
//!
//! The binder does not touch the scene itself. It returns the list of
//! actions for the engine to carry out, in order, and runs at most once.

use vstd::prelude::*;
use bevy_ecs::entity::Entity;
use bevy_transform::components::Transform;
use crate::catalog::{flashlight_label, Location, StatueColor};
use crate::registry::{classify, poster_name, role_of_name, SceneRole};
use crate::scene::{SceneNode, SceneNodeView};
use crate::text::str_eq;

verus! {

/// Degrees by which the blacklight ray source is turned against the
/// flashlight model that carries it.
pub const BLACKLIGHT_SOURCE_ROTATION_DEGREES: u32 = 135;

/// A gameplay tag or capability that the binder attaches to an entity.
#[derive(Debug, PartialEq)]
pub enum Tag {
    /// The entity is the flashlight lying in the world.
    BlacklightFlashlight,
    /// The entity is a ball statue lying in the world.
    BallStatue(StatueColor),
    /// Back-reference from a mesh to the group node it belongs to.
    Parent(Entity),
    /// Looking at the entity offers to pick up what the label names.
    Pickable(String),
    /// Looking at the entity offers to place a statue in the named holder.
    StatueHolder(String),
    /// The entity shows a statue of this colour standing in this holder.
    PlacedStatue(StatueColor, Location),
    /// The entity is a poster: its label, its colour, and whether it is the
    /// variant that only the blacklight shows.
    Poster(String, StatueColor, bool),
    /// The entity is the model of the named inventory item.
    Inventory(String),
    /// The pick ray can hit the entity.
    PickMesh,
    /// The blacklight ray can hit the entity.
    BlacklightMesh,
    /// The entity is the origin of the blacklight ray, turned by
    /// [`BLACKLIGHT_SOURCE_ROTATION_DEGREES`].
    BlacklightSource,
    /// The entity starts out invisible.
    Hidden,
}

/// Mathematical content of a [`Tag`].
pub enum TagView {
    BlacklightFlashlight,
    BallStatue(StatueColor),
    Parent(Entity),
    Pickable(Seq<char>),
    StatueHolder(Seq<char>),
    PlacedStatue(StatueColor, Location),
    Poster(Seq<char>, StatueColor, bool),
    Inventory(Seq<char>),
    PickMesh,
    BlacklightMesh,
    BlacklightSource,
    Hidden,
}

impl View for Tag {
    type V = TagView;

    open spec fn view(&self) -> TagView {
        match self {
            Tag::BlacklightFlashlight => TagView::BlacklightFlashlight,
            Tag::BallStatue(color) => TagView::BallStatue(*color),
            Tag::Parent(parent) => TagView::Parent(*parent),
            Tag::Pickable(label) => TagView::Pickable(label@),
            Tag::StatueHolder(label) => TagView::StatueHolder(label@),
            Tag::PlacedStatue(color, location) => TagView::PlacedStatue(*color, *location),
            Tag::Poster(label, color, uv) => TagView::Poster(label@, *color, *uv),
            Tag::Inventory(label) => TagView::Inventory(label@),
            Tag::PickMesh => TagView::PickMesh,
            Tag::BlacklightMesh => TagView::BlacklightMesh,
            Tag::BlacklightSource => TagView::BlacklightSource,
            Tag::Hidden => TagView::Hidden,
        }
    }
}

impl DeepView for Tag {
    type V = TagView;

    open spec fn deep_view(&self) -> TagView {
        self@
    }
}

/// One thing for the engine to do on behalf of the binder.
#[derive(Debug, PartialEq)]
pub enum BindAction {
    /// Attach `tag` to `entity`.
    Attach { entity: Entity, tag: Tag },
    /// Spawn a light at `transform`.
    SpawnLight { transform: Transform },
}

/// Mathematical content of a [`BindAction`].
pub enum BindActionView {
    Attach { entity: Entity, tag: TagView },
    SpawnLight { transform: Transform },
}

impl View for BindAction {
    type V = BindActionView;

    open spec fn view(&self) -> BindActionView {
        match self {
            BindAction::Attach { entity, tag } => BindActionView::Attach {
                entity: *entity,
                tag: tag@,
            },
            BindAction::SpawnLight { transform } => BindActionView::SpawnLight {
                transform: *transform,
            },
        }
    }
}

impl DeepView for BindAction {
    type V = BindActionView;

    open spec fn deep_view(&self) -> BindActionView {
        self@
    }
}

/// Whether the binding pass has run.
#[derive(Debug)]
pub struct Done(pub bool);

impl Default for Done {
    fn default() -> (done: Done)
        ensures
            !done.0,
    {
        Done(false)
    }
}

/// The actions that attach each of `tags`, in order, to `entity`.
pub open spec fn attach_all(entity: Entity, tags: Seq<TagView>) -> Seq<BindActionView> {
    Seq::new(tags.len(), |i: int| BindActionView::Attach { entity, tag: tags[i] })
}

/// The actions that attach all of `tags` to each of `children`, child by
/// child in their order.
pub open spec fn attach_to_each(children: Seq<Entity>, tags: Seq<TagView>) -> Seq<BindActionView>
    decreases children.len(),
{
    if children.len() == 0 {
        Seq::empty()
    } else {
        attach_to_each(children.drop_last(), tags) + attach_all(children.last(), tags)
    }
}

/// Tags that a node of role `role` named `name` receives itself.
pub open spec fn own_tags(role: SceneRole, name: Seq<char>) -> Seq<TagView> {
    match role {
        SceneRole::BlacklightFlashlight => seq![TagView::BlacklightFlashlight],
        SceneRole::BallStatue(color) => seq![TagView::BallStatue(color)],
        SceneRole::StatueHolder(_) => seq![TagView::StatueHolder(name)],
        SceneRole::PlacedStatue(color, location) => seq![TagView::PlacedStatue(color, location)],
        SceneRole::Poster(_, _) => Seq::empty(),
        SceneRole::InventorySlot => if name == flashlight_label() {
            seq![TagView::Inventory(name), TagView::Hidden, TagView::BlacklightSource]
        } else {
            seq![TagView::Inventory(name), TagView::Hidden]
        },
        SceneRole::LightMarker => Seq::empty(),
        SceneRole::Ignored => Seq::empty(),
    }
}

/// Tags that each immediate child of a node receives, for a node of role
/// `role` named `name` whose own entity is `parent`.
pub open spec fn child_tags(role: SceneRole, parent: Entity, name: Seq<char>) -> Seq<TagView> {
    match role {
        SceneRole::BlacklightFlashlight | SceneRole::BallStatue(_) => seq![
            TagView::PickMesh,
            TagView::Parent(parent),
            TagView::Pickable(name),
        ],
        SceneRole::StatueHolder(_) => seq![TagView::PickMesh, TagView::StatueHolder(name)],
        SceneRole::PlacedStatue(color, location) => seq![
            TagView::PickMesh,
            TagView::PlacedStatue(color, location),
            TagView::Pickable(name),
        ],
        SceneRole::Poster(color, uv) => if uv {
            seq![TagView::Poster(poster_name(color), color, true)]
        } else {
            seq![TagView::Poster(poster_name(color), color, false), TagView::BlacklightMesh]
        },
        SceneRole::InventorySlot => seq![TagView::Inventory(name), TagView::Hidden],
        SceneRole::LightMarker => Seq::empty(),
        SceneRole::Ignored => Seq::empty(),
    }
}

/// Lights that a node of role `role` placed at `transform` asks for.
pub open spec fn spawned_lights(role: SceneRole, transform: Transform) -> Seq<BindActionView> {
    if role == SceneRole::LightMarker {
        seq![BindActionView::SpawnLight { transform }]
    } else {
        Seq::empty()
    }
}

/// Everything the binder does for one node: the node's own tags, then the
/// tags of its children, then the light if the node marks one.
pub open spec fn node_actions(node: SceneNodeView) -> Seq<BindActionView> {
    let role = role_of_name(node.name);
    attach_all(node.entity, own_tags(role, node.name)) + attach_to_each(
        node.children,
        child_tags(role, node.entity, node.name),
    ) + spawned_lights(role, node.transform)
}

/// Everything the binder does for `nodes`, node by node in their order.
pub open spec fn bind_actions(nodes: Seq<SceneNodeView>) -> Seq<BindActionView>
    decreases nodes.len(),
{
    if nodes.len() == 0 {
        Seq::empty()
    } else {
        bind_actions(nodes.drop_last()) + node_actions(nodes.last())
    }
}

/// Place, in the actions for a node's children, of tag number `tag` of child
/// number `child`, when every child receives `tags_per_child` tags.
pub open spec fn child_action_index(child: int, tag: int, tags_per_child: nat) -> int {
    child * tags_per_child + tag
}

/// Every child receives every tag exactly once: the actions for the
/// children are as many as children times tags, and the action at the place
/// of child `c` and tag `t` attaches that tag to that child.
pub proof fn lemma_attach_to_each_once(children: Seq<Entity>, tags: Seq<TagView>)
    ensures
        attach_to_each(children, tags).len() == children.len() * tags.len(),
        forall|c: int, t: int|
            0 <= c < children.len() && 0 <= t < tags.len() ==> {
                let at = #[trigger] child_action_index(c, t, tags.len());
                &&& 0 <= at < attach_to_each(children, tags).len()
                &&& attach_to_each(children, tags)[at] == BindActionView::Attach {
                    entity: children[c],
                    tag: tags[t],
                }
            },
    decreases children.len(),
{
    let width = tags.len() as int;
    if children.len() > 0 {
        let earlier = children.drop_last();
        lemma_attach_to_each_once(earlier, tags);
        let count = children.len() as int;
        assert((count - 1) * width + width == count * width) by (nonlinear_arith);
        assert forall|c: int, t: int| 0 <= c < children.len() && 0 <= t < tags.len() implies {
            let at = #[trigger] child_action_index(c, t, tags.len());
            &&& 0 <= at < attach_to_each(children, tags).len()
            &&& attach_to_each(children, tags)[at] == BindActionView::Attach {
                entity: children[c],
                tag: tags[t],
            }
        } by {
            assert(0 <= c * width && c * width + width <= count * width) by (nonlinear_arith)
                requires
                    0 <= c < count,
                    0 <= width,
            ;
            if c < count - 1 {
                assert(c * width + width <= (count - 1) * width) by (nonlinear_arith)
                    requires
                        0 <= c < count - 1,
                        0 <= width,
                ;
            }
        }
    }
}

/// The binder treats every node on its own: the actions for two lists of
/// nodes, one after the other, are the actions for the first followed by
/// the actions for the second.
pub proof fn lemma_bind_actions_concat(first: Seq<SceneNodeView>, second: Seq<SceneNodeView>)
    ensures
        bind_actions(first + second) == bind_actions(first) + bind_actions(second),
    decreases second.len(),
{
    if second.len() == 0 {
        assert(first + second =~= first);
        assert(bind_actions(first) + bind_actions(second) =~= bind_actions(first));
    } else {
        lemma_bind_actions_concat(first, second.drop_last());
        assert((first + second).drop_last() =~= first + second.drop_last());
        assert(bind_actions(first + second) =~= bind_actions(first) + bind_actions(second));
    }
}

/// A fresh tag with the content of `tag`.
pub fn copy_tag(tag: &Tag) -> (copy: Tag)
    ensures
        copy@ == tag@,
{
    match tag {
        Tag::BlacklightFlashlight => Tag::BlacklightFlashlight,
        Tag::BallStatue(color) => Tag::BallStatue(*color),
        Tag::Parent(parent) => Tag::Parent(*parent),
        Tag::Pickable(label) => Tag::Pickable(label.clone()),
        Tag::StatueHolder(label) => Tag::StatueHolder(label.clone()),
        Tag::PlacedStatue(color, location) => Tag::PlacedStatue(*color, *location),
        Tag::Poster(label, color, uv) => Tag::Poster(label.clone(), *color, *uv),
        Tag::Inventory(label) => Tag::Inventory(label.clone()),
        Tag::PickMesh => Tag::PickMesh,
        Tag::BlacklightMesh => Tag::BlacklightMesh,
        Tag::BlacklightSource => Tag::BlacklightSource,
        Tag::Hidden => Tag::Hidden,
    }
}

/// Appends the actions that attach each of `tags` to `entity`.
pub fn attach_tags(actions: &mut Vec<BindAction>, entity: Entity, tags: &Vec<Tag>)
    ensures
        final(actions).deep_view() == old(actions).deep_view() + attach_all(
            entity,
            tags.deep_view(),
        ),
{
    let ghost before = actions.deep_view();
    let mut done: usize = 0;
    while done < tags.len()
        invariant
            done <= tags.len(),
            actions.deep_view() == before + attach_all(entity, tags.deep_view().take(done as int)),
        decreases tags.len() - done,
    {
        let tag = copy_tag(&tags[done]);
        let ghost attached = BindActionView::Attach { entity, tag: tag@ };
        let ghost so_far = actions.deep_view();
        actions.push(BindAction::Attach { entity, tag });
        assert(actions.deep_view() =~= so_far.push(attached));
        assert(attach_all(entity, tags.deep_view().take(done + 1)) =~= attach_all(
            entity,
            tags.deep_view().take(done as int),
        ).push(attached));
        done = done + 1;
    }
    assert(tags.deep_view().take(done as int) =~= tags.deep_view());
}

/// Appends the actions that attach all of `tags` to each of `children`.
pub fn attach_tags_to_children(
    actions: &mut Vec<BindAction>,
    children: &Vec<Entity>,
    tags: &Vec<Tag>,
)
    ensures
        final(actions).deep_view() == old(actions).deep_view() + attach_to_each(
            children@,
            tags.deep_view(),
        ),
{
    let ghost before = actions.deep_view();
    let mut done: usize = 0;
    while done < children.len()
        invariant
            done <= children.len(),
            actions.deep_view() == before + attach_to_each(
                children@.take(done as int),
                tags.deep_view(),
            ),
        decreases children.len() - done,
    {
        attach_tags(actions, children[done], tags);
        done = done + 1;
        assert(children@.take(done as int).drop_last() =~= children@.take(done as int - 1));
        assert(actions.deep_view() =~= before + attach_to_each(
            children@.take(done as int),
            tags.deep_view(),
        ));
    }
    assert(children@.take(done as int) =~= children@);
}

/// Makes every child of a collectible hittable by the pick ray, points it
/// back at its group node and offers the collectible under `name`.
pub fn make_children_pickable(
    actions: &mut Vec<BindAction>,
    parent: Entity,
    children: &Vec<Entity>,
    name: &str,
)
    ensures
        final(actions).deep_view() == old(actions).deep_view() + attach_to_each(
            children@,
            seq![TagView::PickMesh, TagView::Parent(parent), TagView::Pickable(name@)],
        ),
{
    let tags = vec![Tag::PickMesh, Tag::Parent(parent), Tag::Pickable(name.to_owned())];
    assert(tags.deep_view() =~= seq![
        TagView::PickMesh,
        TagView::Parent(parent),
        TagView::Pickable(name@),
    ]);
    attach_tags_to_children(actions, children, &tags);
}

/// Marks every child of a poster node as the poster `name` of colour `color`;
/// the everyday variant is also made hittable by the blacklight ray.
pub fn make_children_posters(
    actions: &mut Vec<BindAction>,
    children: &Vec<Entity>,
    name: &str,
    color: StatueColor,
    uv: bool,
)
    ensures
        final(actions).deep_view() == old(actions).deep_view() + attach_to_each(
            children@,
            if uv {
                seq![TagView::Poster(name@, color, true)]
            } else {
                seq![TagView::Poster(name@, color, false), TagView::BlacklightMesh]
            },
        ),
{
    if uv {
        let tags = vec![Tag::Poster(name.to_owned(), color, true)];
        assert(tags.deep_view() =~= seq![TagView::Poster(name@, color, true)]);
        attach_tags_to_children(actions, children, &tags);
    } else {
        let tags = vec![Tag::Poster(name.to_owned(), color, false), Tag::BlacklightMesh];
        assert(tags.deep_view() =~= seq![
            TagView::Poster(name@, color, false),
            TagView::BlacklightMesh,
        ]);
        attach_tags_to_children(actions, children, &tags);
    }
}

/// Marks a holder node and its children as the holder `name`; the children
/// are made hittable by the pick ray.
pub fn make_children_placeable(
    actions: &mut Vec<BindAction>,
    parent: Entity,
    children: &Vec<Entity>,
    name: &str,
)
    ensures
        final(actions).deep_view() == old(actions).deep_view() + attach_all(
            parent,
            seq![TagView::StatueHolder(name@)],
        ) + attach_to_each(children@, seq![TagView::PickMesh, TagView::StatueHolder(name@)]),
{
    let own = vec![Tag::StatueHolder(name.to_owned())];
    assert(own.deep_view() =~= seq![TagView::StatueHolder(name@)]);
    attach_tags(actions, parent, &own);
    let tags = vec![Tag::PickMesh, Tag::StatueHolder(name.to_owned())];
    assert(tags.deep_view() =~= seq![TagView::PickMesh, TagView::StatueHolder(name@)]);
    attach_tags_to_children(actions, children, &tags);
}

/// Marks a fixture node and its children as the statue of colour `color`
/// standing at `location`; the children are made hittable by the pick ray
/// and offer the statue, under `name`, to be picked up again.
pub fn make_children_placed_statues(
    actions: &mut Vec<BindAction>,
    parent: Entity,
    children: &Vec<Entity>,
    color: StatueColor,
    location: Location,
    name: &str,
)
    ensures
        final(actions).deep_view() == old(actions).deep_view() + attach_all(
            parent,
            seq![TagView::PlacedStatue(color, location)],
        ) + attach_to_each(
            children@,
            seq![
                TagView::PickMesh,
                TagView::PlacedStatue(color, location),
                TagView::Pickable(name@),
            ],
        ),
{
    let own = vec![Tag::PlacedStatue(color, location)];
    assert(own.deep_view() =~= seq![TagView::PlacedStatue(color, location)]);
    attach_tags(actions, parent, &own);
    let tags = vec![
        Tag::PickMesh,
        Tag::PlacedStatue(color, location),
        Tag::Pickable(name.to_owned()),
    ];
    assert(tags.deep_view() =~= seq![
        TagView::PickMesh,
        TagView::PlacedStatue(color, location),
        TagView::Pickable(name@),
    ]);
    attach_tags_to_children(actions, children, &tags);
}

/// Marks an inventory slot node and its children as the model of the item
/// `name` and hides them; the flashlight's model also becomes the origin of
/// the blacklight ray.
pub fn make_inventory_meshes(
    actions: &mut Vec<BindAction>,
    parent: Entity,
    children: &Vec<Entity>,
    name: &str,
)
    ensures
        final(actions).deep_view() == old(actions).deep_view() + attach_all(
            parent,
            own_tags(SceneRole::InventorySlot, name@),
        ) + attach_to_each(children@, seq![TagView::Inventory(name@), TagView::Hidden]),
{
    if str_eq(name, "InvBlacklightFlashlight") {
        let own = vec![Tag::Inventory(name.to_owned()), Tag::Hidden, Tag::BlacklightSource];
        assert(own.deep_view() =~= own_tags(SceneRole::InventorySlot, name@));
        attach_tags(actions, parent, &own);
    } else {
        let own = vec![Tag::Inventory(name.to_owned()), Tag::Hidden];
        assert(own.deep_view() =~= own_tags(SceneRole::InventorySlot, name@));
        attach_tags(actions, parent, &own);
    }
    let tags = vec![Tag::Inventory(name.to_owned()), Tag::Hidden];
    assert(tags.deep_view() =~= seq![TagView::Inventory(name@), TagView::Hidden]);
    attach_tags_to_children(actions, children, &tags);
}

/// Name of the poster of colour `color`, under which both of its variants
/// are known.
pub fn poster_label(color: StatueColor) -> (label: &'static str)
    ensures
        label@ == poster_name(color),
{
    match color {
        StatueColor::Red => "RedPoster",
        StatueColor::Green => "GreenPoster",
        StatueColor::Blue => "BluePoster",
    }
}

/// Appends everything the binder does for `node`.
pub fn tag_node(actions: &mut Vec<BindAction>, node: &SceneNode)
    ensures
        final(actions).deep_view() == old(actions).deep_view() + node_actions(node@),
{
    let ghost before = actions.deep_view();
    let name = node.name.as_str();
    let role = classify(name);
    let ghost own = attach_all(node.entity, own_tags(role, name@));
    let ghost below = attach_to_each(node.children@, child_tags(role, node.entity, name@));
    let ghost lights = spawned_lights(role, node.transform);
    match role {
        SceneRole::BlacklightFlashlight => {
            let marker = vec![Tag::BlacklightFlashlight];
            assert(marker.deep_view() =~= own_tags(role, name@));
            attach_tags(actions, node.entity, &marker);
            make_children_pickable(actions, node.entity, &node.children, name);
        },
        SceneRole::BallStatue(color) => {
            let marker = vec![Tag::BallStatue(color)];
            assert(marker.deep_view() =~= own_tags(role, name@));
            attach_tags(actions, node.entity, &marker);
            make_children_pickable(actions, node.entity, &node.children, name);
        },
        SceneRole::StatueHolder(_) => {
            make_children_placeable(actions, node.entity, &node.children, name);
        },
        SceneRole::PlacedStatue(color, location) => {
            make_children_placed_statues(
                actions,
                node.entity,
                &node.children,
                color,
                location,
                name,
            );
        },
        SceneRole::Poster(color, uv) => {
            make_children_posters(actions, &node.children, poster_label(color), color, uv);
            assert(own =~= Seq::empty());
        },
        SceneRole::InventorySlot => {
            make_inventory_meshes(actions, node.entity, &node.children, name);
        },
        SceneRole::LightMarker => {
            let ghost so_far = actions.deep_view();
            actions.push(BindAction::SpawnLight { transform: node.transform });
            assert(actions.deep_view() =~= so_far.push(
                BindActionView::SpawnLight { transform: node.transform },
            ));
            assert(own =~= Seq::empty());
            assert(below =~= Seq::empty()) by {
                lemma_attach_to_each_once(node.children@, Seq::empty());
                assert(node.children@.len() * 0 == 0) by (nonlinear_arith);
            }
        },
        SceneRole::Ignored => {
            assert(own =~= Seq::empty());
            assert(below =~= Seq::empty()) by {
                lemma_attach_to_each_once(node.children@, Seq::empty());
                assert(node.children@.len() * 0 == 0) by (nonlinear_arith);
            }
        },
    }
    assert(actions.deep_view() =~= before + (own + below + lights));
}

/// What the scene graph says of the scene instance that the binder waits
/// for.
#[derive(Clone, Copy, Debug, PartialEq, Eq, Structural)]
pub enum InstanceStatus {
    /// No instance has been asked for yet.
    NotRequested,
    /// The instance was asked for; its entities cannot be listed yet.
    Requested,
    /// The entities of the instance can be listed.
    Enumerable,
}

/// The binding pass runs in the first frame in which it has not run before
/// and the awaited instance can be listed.
pub open spec fn binding_due(done: bool, status: InstanceStatus) -> bool {
    !done && status == InstanceStatus::Enumerable
}

/// One frame of the binder: the flag afterwards and the actions issued.
pub open spec fn bind_step(done: bool, status: InstanceStatus, nodes: Seq<SceneNodeView>) -> (
    bool,
    Seq<BindActionView>,
) {
    if binding_due(done, status) {
        (true, bind_actions(nodes))
    } else {
        (done, Seq::empty())
    }
}

/// Whether the binding pass is due, so that the caller can spare itself
/// listing the scene's nodes while it is not.
pub fn binding_is_due(done: &Done, status: InstanceStatus) -> (due: bool)
    ensures
        due == binding_due(done.0, status),
{
    !done.0 && status == InstanceStatus::Enumerable
}

/// One frame of the binder. While the pass is not due, nothing is issued and
/// the flag stays as it is; when it is due, the flag is set and the actions
/// for all of `nodes` are returned.
pub fn tag_stuff(done: &mut Done, status: InstanceStatus, nodes: &Vec<SceneNode>) -> (actions: Vec<
    BindAction,
>)
    ensures
        (final(done).0, actions.deep_view()) == bind_step(old(done).0, status, nodes.deep_view()),
{
    let mut actions: Vec<BindAction> = Vec::new();
    assert(actions.deep_view() =~= Seq::empty());
    if !binding_is_due(done, status) {
        return actions;
    }
    done.0 = true;
    let mut bound: usize = 0;
    while bound < nodes.len()
        invariant
            bound <= nodes.len(),
            actions.deep_view() == bind_actions(nodes.deep_view().take(bound as int)),
        decreases nodes.len() - bound,
    {
        tag_node(&mut actions, &nodes[bound]);
        bound = bound + 1;
        assert(nodes.deep_view().take(bound as int).drop_last() =~= nodes.deep_view().take(
            bound as int - 1,
        ));
    }
    assert(nodes.deep_view().take(bound as int) =~= nodes.deep_view());
    actions
}

/// Once the binding pass has run, no later frame issues anything: whatever
/// the scene reports then, the flag stays set and the action list is empty.
/// Two frames on the same nodes therefore tag each entity once.
pub proof fn lemma_binding_runs_once(
    done: bool,
    first: InstanceStatus,
    second: InstanceStatus,
    nodes: Seq<SceneNodeView>,
    later_nodes: Seq<SceneNodeView>,
)
    ensures
        ({
            let after_first = bind_step(done, first, nodes);
            let after_second = bind_step(after_first.0, second, later_nodes);
            &&& binding_due(done, first) ==> after_first == (true, bind_actions(nodes))
            &&& (done || binding_due(done, first)) ==> after_second == (
                true,
                Seq::<BindActionView>::empty(),
            )
            &&& after_first.1.len() == 0 || after_second.1.len() == 0
        }),
{
}

} // verus!
