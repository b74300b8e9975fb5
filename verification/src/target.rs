//! The three look-at targets and the rules that resolve a ray hit into one.

use vstd::prelude::*;
use bevy_ecs::entity::Entity;

verus! {

/// An entity together with the label under which the game knows it.
#[derive(Debug, PartialEq)]
pub struct NamedEntity {
    pub name: String,
    pub entity: Entity,
}

/// Mathematical content of a [`NamedEntity`].
pub struct NamedEntityView {
    pub name: Seq<char>,
    pub entity: Entity,
}

impl View for NamedEntity {
    type V = NamedEntityView;

    open spec fn view(&self) -> NamedEntityView {
        NamedEntityView { name: self.name@, entity: self.entity }
    }
}

impl DeepView for NamedEntity {
    type V = NamedEntityView;

    open spec fn deep_view(&self) -> NamedEntityView {
        self@
    }
}

/// What the player is looking at that can be picked up.
#[derive(Debug, PartialEq)]
pub struct Target(pub Option<NamedEntity>);

/// What the player is looking at that can take a statue.
#[derive(Debug, PartialEq)]
pub struct PlaceTarget(pub Option<NamedEntity>);

/// The poster that the blacklight shone on last.
#[derive(Debug, PartialEq)]
pub struct BlacklightTarget(pub Option<NamedEntity>);

impl Default for Target {
    fn default() -> (target: Target)
        ensures
            target@ is None,
    {
        Target(None)
    }
}

impl Default for PlaceTarget {
    fn default() -> (target: PlaceTarget)
        ensures
            target@ is None,
    {
        PlaceTarget(None)
    }
}

impl Default for BlacklightTarget {
    fn default() -> (target: BlacklightTarget)
        ensures
            target@ is None,
    {
        BlacklightTarget(None)
    }
}

impl View for Target {
    type V = Option<NamedEntityView>;

    open spec fn view(&self) -> Option<NamedEntityView> {
        self.0.deep_view()
    }
}

impl View for PlaceTarget {
    type V = Option<NamedEntityView>;

    open spec fn view(&self) -> Option<NamedEntityView> {
        self.0.deep_view()
    }
}

impl View for BlacklightTarget {
    type V = Option<NamedEntityView>;

    open spec fn view(&self) -> Option<NamedEntityView> {
        self.0.deep_view()
    }
}

/// The closest entity that a ray hit this frame, with what the resolvers
/// need to know of it.
#[derive(Debug, PartialEq)]
pub struct Hit {
    /// The entity hit.
    pub entity: Entity,
    /// Whether the entity is shown at the moment.
    pub visible: bool,
    /// Label of the entity's pickable tag, if it carries one.
    pub pickable: Option<String>,
    /// Label of the entity's holder tag, if it carries one.
    pub statue_holder: Option<String>,
    /// Label of the entity's poster tag, if it carries one.
    pub poster: Option<String>,
}

/// Mathematical content of a [`Hit`].
pub struct HitView {
    pub entity: Entity,
    pub visible: bool,
    pub pickable: Option<Seq<char>>,
    pub statue_holder: Option<Seq<char>>,
    pub poster: Option<Seq<char>>,
}

impl View for Hit {
    type V = HitView;

    open spec fn view(&self) -> HitView {
        HitView {
            entity: self.entity,
            visible: self.visible,
            pickable: self.pickable.deep_view(),
            statue_holder: self.statue_holder.deep_view(),
            poster: self.poster.deep_view(),
        }
    }
}

impl DeepView for Hit {
    type V = HitView;

    open spec fn deep_view(&self) -> HitView {
        self@
    }
}

/// The pick target for this frame: the entity hit, under the label of its
/// pickable tag, provided it carries one and is shown; nothing otherwise.
pub open spec fn pick_target_of(hit: Option<HitView>) -> Option<NamedEntityView> {
    match hit {
        Some(hit) if hit.visible && hit.pickable is Some => Some(
            NamedEntityView { name: hit.pickable->0, entity: hit.entity },
        ),
        _ => None,
    }
}

/// The place target for this frame: the entity hit, under the label of its
/// holder tag, provided it carries one; nothing otherwise. Whether the
/// entity is shown plays no part.
pub open spec fn place_target_of(hit: Option<HitView>) -> Option<NamedEntityView> {
    match hit {
        Some(hit) if hit.statue_holder is Some => Some(
            NamedEntityView { name: hit.statue_holder->0, entity: hit.entity },
        ),
        _ => None,
    }
}

/// The blacklight target after this frame: the poster hit, under the label
/// of its poster tag; and the target `before` when no poster was hit.
pub open spec fn blacklight_target_of(
    before: Option<NamedEntityView>,
    hit: Option<HitView>,
) -> Option<NamedEntityView> {
    match hit {
        Some(hit) if hit.poster is Some => Some(
            NamedEntityView { name: hit.poster->0, entity: hit.entity },
        ),
        _ => before,
    }
}

/// Resolves the pick target from this frame's hit of the pick ray; `None`
/// stands for a ray that hit nothing, or for no ray at all.
pub fn update_pick_target(target: &mut Target, hit: &Option<Hit>)
    ensures
        final(target)@ == pick_target_of(hit.deep_view()),
{
    *target = Target(None);
    if let Some(hit) = hit {
        if hit.visible {
            if let Some(label) = &hit.pickable {
                *target = Target(Some(NamedEntity { name: label.clone(), entity: hit.entity }));
            }
        }
    }
}

/// Resolves the place target from this frame's hit of the pick ray.
pub fn update_place_target(target: &mut PlaceTarget, hit: &Option<Hit>)
    ensures
        final(target)@ == place_target_of(hit.deep_view()),
{
    *target = PlaceTarget(None);
    if let Some(hit) = hit {
        if let Some(label) = &hit.statue_holder {
            *target = PlaceTarget(Some(NamedEntity { name: label.clone(), entity: hit.entity }));
        }
    }
}

/// Moves the blacklight target to the poster that the blacklight ray hit
/// this frame, and leaves it alone when the ray hit no poster.
pub fn shine_on_poster(target: &mut BlacklightTarget, hit: &Option<Hit>)
    ensures
        final(target)@ == blacklight_target_of(old(target)@, hit.deep_view()),
{
    if let Some(hit) = hit {
        if let Some(label) = &hit.poster {
            *target = BlacklightTarget(
                Some(NamedEntity { name: label.clone(), entity: hit.entity }),
            );
        }
    }
}

} // verus!
