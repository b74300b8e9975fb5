//! The whole game state and its frame step. A frame runs the components in
//! a fixed order, so that each reads what the one before it has finished
//! writing: the binder, the target resolvers, the input dispatcher, the
//! solution check. What is shown is then a function of the state left
//! behind.

use vstd::prelude::*;
use bevy_ecs::entity::Entity;
use crate::binder::{bind_step, tag_stuff, BindAction, BindActionView, Done, InstanceStatus};
use crate::catalog::{Location, StatueColor};
use crate::holders::{check_for_solution, solution_step, PuzzleState, StatueHolders};
use crate::input::{input_outcome, keyboard_input_system, KeyEdges};
use crate::player::{Player, PlayerView};
use crate::registry::pickup_label;
use crate::scene::{SceneNode, SceneNodeView};
use crate::target::{
    blacklight_target_of, pick_target_of, place_target_of, shine_on_poster, update_pick_target,
    update_place_target, BlacklightTarget, Hit, HitView, NamedEntityView, PlaceTarget, Target,
};

verus! {

/// Everything the game remembers from frame to frame.
pub struct GameState {
    pub done: Done,
    pub target: Target,
    pub place_target: PlaceTarget,
    pub blacklight_target: BlacklightTarget,
    pub player: Player,
    pub statue_holders: StatueHolders,
    pub solved: PuzzleState,
}

/// Mathematical content of a [`GameState`].
pub struct GameStateView {
    pub done: bool,
    pub target: Option<NamedEntityView>,
    pub place_target: Option<NamedEntityView>,
    pub blacklight_target: Option<NamedEntityView>,
    pub player: PlayerView,
    pub holders: Map<Location, StatueColor>,
    pub solved: bool,
}

impl View for GameState {
    type V = GameStateView;

    open spec fn view(&self) -> GameStateView {
        GameStateView {
            done: self.done.0,
            target: self.target@,
            place_target: self.place_target@,
            blacklight_target: self.blacklight_target@,
            player: self.player@,
            holders: self.statue_holders@,
            solved: self.solved.0,
        }
    }
}

/// What the engine reports at the start of a frame.
pub struct FrameInput {
    /// State of the scene instance that the binder waits for.
    pub status: InstanceStatus,
    /// The nodes of the scene; read only in the frame in which the binder
    /// runs.
    pub nodes: Vec<SceneNode>,
    /// Closest hit of the pick ray, if any.
    pub pick_hit: Option<Hit>,
    /// Closest hit of the blacklight ray, if any.
    pub blacklight_hit: Option<Hit>,
    /// Keys that went down in this frame.
    pub keys: KeyEdges,
}

/// Mathematical content of a [`FrameInput`].
pub struct FrameInputView {
    pub status: InstanceStatus,
    pub nodes: Seq<SceneNodeView>,
    pub pick_hit: Option<HitView>,
    pub blacklight_hit: Option<HitView>,
    pub keys: KeyEdges,
}

impl View for FrameInput {
    type V = FrameInputView;

    open spec fn view(&self) -> FrameInputView {
        FrameInputView {
            status: self.status,
            nodes: self.nodes.deep_view(),
            pick_hit: self.pick_hit.deep_view(),
            blacklight_hit: self.blacklight_hit.deep_view(),
            keys: self.keys,
        }
    }
}

/// What the engine is to carry out at the end of a frame.
#[derive(Debug, PartialEq)]
pub struct FrameOutput {
    /// Tags to attach and lights to spawn, in order.
    pub actions: Vec<BindAction>,
    /// The entity to remove from the world, if any.
    pub despawn: Option<Entity>,
    /// Whether this is the frame in which the puzzle was found solved.
    pub solved_now: bool,
}

/// Mathematical content of a [`FrameOutput`].
pub struct FrameOutputView {
    pub actions: Seq<BindActionView>,
    pub despawn: Option<Entity>,
    pub solved_now: bool,
}

impl View for FrameOutput {
    type V = FrameOutputView;

    open spec fn view(&self) -> FrameOutputView {
        FrameOutputView {
            actions: self.actions.deep_view(),
            despawn: self.despawn,
            solved_now: self.solved_now,
        }
    }
}

impl GameStateView {
    /// The state at the start of the game: nothing bound, nothing targeted,
    /// nothing owned, nothing placed, nothing solved.
    pub open spec fn start() -> GameStateView {
        GameStateView {
            done: false,
            target: None,
            place_target: None,
            blacklight_target: None,
            player: PlayerView::start(),
            holders: Map::empty(),
            solved: false,
        }
    }

    /// The state after one frame, and what the frame asks of the engine.
    ///
    /// The binder comes first. Then the three targets are resolved from this
    /// frame's hits. Then the input is dispatched on the targets just
    /// resolved. Last, the holders that the input left behind are checked
    /// for the solution.
    pub open spec fn frame(self, input: FrameInputView) -> (GameStateView, FrameOutputView) {
        let bound = bind_step(self.done, input.status, input.nodes);
        let dispatched = input_outcome(
            input.keys,
            pick_target_of(input.pick_hit),
            place_target_of(input.pick_hit),
            self.player,
            self.holders,
        );
        let checked = solution_step(self.solved, dispatched.holders);
        (
            GameStateView {
                done: bound.0,
                target: dispatched.target,
                place_target: place_target_of(input.pick_hit),
                blacklight_target: blacklight_target_of(
                    self.blacklight_target,
                    input.blacklight_hit,
                ),
                player: dispatched.player,
                holders: dispatched.holders,
                solved: checked.0,
            },
            FrameOutputView {
                actions: bound.1,
                despawn: dispatched.despawn,
                solved_now: checked.1,
            },
        )
    }
}

impl Default for GameState {
    fn default() -> (state: GameState)
        ensures
            state@ == GameStateView::start(),
    {
        GameState {
            done: Done::default(),
            target: Target::default(),
            place_target: PlaceTarget::default(),
            blacklight_target: BlacklightTarget::default(),
            player: Player::default(),
            statue_holders: StatueHolders::default(),
            solved: PuzzleState::default(),
        }
    }
}

impl GameState {
    /// Runs one frame.
    pub fn frame(&mut self, input: &FrameInput) -> (output: FrameOutput)
        ensures
            (final(self)@, output@) == old(self)@.frame(input@),
    {
        let actions = tag_stuff(&mut self.done, input.status, &input.nodes);
        update_pick_target(&mut self.target, &input.pick_hit);
        update_place_target(&mut self.place_target, &input.pick_hit);
        shine_on_poster(&mut self.blacklight_target, &input.blacklight_hit);
        let despawn = keyboard_input_system(
            &input.keys,
            &mut self.target,
            &self.place_target,
            &mut self.player,
            &mut self.statue_holders,
        );
        let solved_now = check_for_solution(&mut self.solved, &self.statue_holders);
        FrameOutput { actions, despawn, solved_now }
    }
}

/// Nothing leaves the world unseen: a frame removes an entity only if the
/// interact key went down while the pick ray rested on that very entity,
/// shown and tagged as a collectible. A hidden mesh is never picked up, and
/// no target of an earlier frame is acted on.
pub proof fn lemma_despawn_needs_visible_hit(state: GameStateView, input: FrameInputView)
    ensures
        state.frame(input).1.despawn matches Some(entity) ==> {
            &&& input.keys.interact
            &&& input.pick_hit matches Some(hit)
            &&& hit.entity == entity
            &&& hit.visible
            &&& hit.pickable matches Some(label)
            &&& pickup_label(label) is Some
        },
{
}

/// The targets that a frame leaves behind come from that frame's hits
/// alone: the place target is the holder hit, the pick target is the
/// pickable hit unless the frame picked it up, and only the blacklight
/// target keeps its poster while the blacklight ray rests on none.
pub proof fn lemma_targets_are_fresh(state: GameStateView, input: FrameInputView)
    ensures
        state.frame(input).0.place_target == place_target_of(input.pick_hit),
        state.frame(input).0.target == if state.frame(input).1.despawn is Some {
            None
        } else {
            pick_target_of(input.pick_hit)
        },
        input.blacklight_hit is None ==> state.frame(input).0.blacklight_target
            == state.blacklight_target,
{
}

/// Binding and solving each happen in at most one frame of a game: once a
/// frame has bound the scene, no later frame issues binder actions, and
/// once a frame has found the puzzle solved, no later frame finds it again
/// or unsolves it.
pub proof fn lemma_bound_and_solved_once(
    state: GameStateView,
    first: FrameInputView,
    second: FrameInputView,
)
    ensures
        ({
            let after_first = state.frame(first);
            let after_second = after_first.0.frame(second);
            &&& after_first.1.actions.len() > 0 ==> after_second.1.actions.len() == 0
            &&& after_first.0.done ==> after_second.0.done
            &&& !(after_first.1.solved_now && after_second.1.solved_now)
            &&& after_first.0.solved ==> after_second.0.solved
        }),
{
}

} // verus!
