//! The three statue holders and the solved state of the puzzle.

use vstd::prelude::*;
use crate::catalog::{statue_label, statue_name_for_color, Location, StatueColor};
use crate::player::{Player, PlayerView};

verus! {

/// Which colour, if any, stands in each of the three holders.
///
/// Nothing keeps one colour from standing in several holders at once.
#[derive(Clone, Copy, Debug, PartialEq, Eq)]
pub struct StatueHolders {
    left: Option<StatueColor>,
    middle: Option<StatueColor>,
    right: Option<StatueColor>,
}

/// The one assignment that solves the puzzle.
pub open spec fn solution() -> Map<Location, StatueColor> {
    map![
        Location::Left => StatueColor::Blue,
        Location::Middle => StatueColor::Red,
        Location::Right => StatueColor::Green,
    ]
}

/// The player after getting back whatever `held` has standing at
/// `location`; unchanged if that holder is empty.
pub open spec fn returned_to_player(
    held: Map<Location, StatueColor>,
    location: Location,
    player: PlayerView,
) -> PlayerView {
    if held.contains_key(location) {
        player.take_back(statue_label(held[location]))
    } else {
        player
    }
}

impl View for StatueHolders {
    type V = Map<Location, StatueColor>;

    closed spec fn view(&self) -> Map<Location, StatueColor> {
        Map::new(
            |location: Location| self.slot(location) is Some,
            |location: Location| self.slot(location)->0,
        )
    }
}

impl Default for StatueHolders {
    fn default() -> (holders: StatueHolders)
        ensures
            holders@ == Map::<Location, StatueColor>::empty(),
    {
        StatueHolders::new()
    }
}

impl StatueHolders {
    spec fn slot(&self, location: Location) -> Option<StatueColor> {
        match location {
            Location::Left => self.left,
            Location::Middle => self.middle,
            Location::Right => self.right,
        }
    }

    /// Three empty holders.
    pub fn new() -> (holders: StatueHolders)
        ensures
            holders@ == Map::<Location, StatueColor>::empty(),
    {
        let holders = StatueHolders { left: None, middle: None, right: None };
        assert(holders@ =~= Map::<Location, StatueColor>::empty());
        holders
    }

    /// The colour standing at `location`, if any.
    pub fn get(&self, location: Location) -> (held: Option<StatueColor>)
        ensures
            held == if self@.contains_key(location) {
                Some(self@[location])
            } else {
                None
            },
    {
        match location {
            Location::Left => self.left,
            Location::Middle => self.middle,
            Location::Right => self.right,
        }
    }

    /// Puts the statue of colour `statue_color` into the holder at
    /// `location`. A statue that stood there before goes back to the
    /// player's inventory. The placed statue is not taken from the
    /// inventory here: whoever places it gives it away first.
    pub fn place(&mut self, player: &mut Player, location: Location, statue_color: StatueColor)
        ensures
            final(self)@ == old(self)@.insert(location, statue_color),
            final(player)@ == returned_to_player(old(self)@, location, old(player)@),
    {
        if let Some(existing) = self.get(location) {
            player.take_back(statue_name_for_color(existing));
        }
        match location {
            Location::Left => {
                self.left = Some(statue_color);
            },
            Location::Middle => {
                self.middle = Some(statue_color);
            },
            Location::Right => {
                self.right = Some(statue_color);
            },
        }
        assert(self@ =~= old(self)@.insert(location, statue_color));
    }

    /// Empties the holder at `location`. A statue that stood there goes back
    /// to the player's inventory; an empty holder stays empty.
    pub fn remove(&mut self, player: &mut Player, location: Location)
        ensures
            final(self)@ == old(self)@.remove(location),
            final(player)@ == returned_to_player(old(self)@, location, old(player)@),
    {
        if let Some(existing) = self.get(location) {
            player.take_back(statue_name_for_color(existing));
        }
        match location {
            Location::Left => {
                self.left = None;
            },
            Location::Middle => {
                self.middle = None;
            },
            Location::Right => {
                self.right = None;
            },
        }
        assert(self@ =~= old(self)@.remove(location));
    }

    /// Whether the holders show the solution: blue on the left, red in the
    /// middle, green on the right, and nothing else.
    pub fn solved(&self) -> (solved: bool)
        ensures
            solved == (self@ == solution()),
    {
        let solved = match (self.left, self.middle, self.right) {
            (Some(StatueColor::Blue), Some(StatueColor::Red), Some(StatueColor::Green)) => true,
            _ => false,
        };
        proof {
            if solved {
                assert(self@ =~= solution());
            } else if self@ == solution() {
                assert(self@.contains_key(Location::Left) && self@[Location::Left]
                    == StatueColor::Blue);
                assert(self@.contains_key(Location::Middle) && self@[Location::Middle]
                    == StatueColor::Red);
                assert(self@.contains_key(Location::Right) && self@[Location::Right]
                    == StatueColor::Green);
            }
        }
        solved
    }
}

/// Whether the puzzle has been solved. Once set, the flag stays set.
#[derive(Clone, Copy, Debug, PartialEq, Eq)]
pub struct PuzzleState(pub bool);

impl Default for PuzzleState {
    fn default() -> (state: PuzzleState)
        ensures
            !state.0,
    {
        PuzzleState(false)
    }
}

/// One check of the holders: the solved flag afterwards, and whether this
/// check is the one that found the puzzle solved.
pub open spec fn solution_step(solved: bool, held: Map<Location, StatueColor>) -> (bool, bool) {
    (solved || held == solution(), !solved && held == solution())
}

/// Records the solution the first time the holders show it. The result
/// tells whether this call is the one that found the puzzle solved.
pub fn check_for_solution(solved: &mut PuzzleState, statue_holders: &StatueHolders) -> (found: bool)
    ensures
        (final(solved).0, found) == solution_step(old(solved).0, statue_holders@),
{
    if !solved.0 {
        if statue_holders.solved() {
            solved.0 = true;
            return true;
        }
    }
    false
}

/// The holders show the solution exactly when blue stands on the left, red
/// in the middle and green on the right. Filling all three holders in any
/// other way does not solve the puzzle.
pub proof fn lemma_solution_is_exact(held: Map<Location, StatueColor>)
    ensures
        held == solution() <==> {
            &&& held.contains_key(Location::Left) && held[Location::Left] == StatueColor::Blue
            &&& held.contains_key(Location::Middle) && held[Location::Middle] == StatueColor::Red
            &&& held.contains_key(Location::Right) && held[Location::Right] == StatueColor::Green
        },
{
    if held == solution() {
        assert(solution().contains_key(Location::Left));
        assert(solution().contains_key(Location::Middle));
        assert(solution().contains_key(Location::Right));
    }
    if held.contains_key(Location::Left) && held[Location::Left] == StatueColor::Blue
        && held.contains_key(Location::Middle) && held[Location::Middle] == StatueColor::Red
        && held.contains_key(Location::Right) && held[Location::Right] == StatueColor::Green {
        assert forall|location: Location| held.contains_key(location) by {
            match location {
                Location::Left => {},
                Location::Middle => {},
                Location::Right => {},
            }
        }
        assert(held =~= solution());
    }
}

/// Once the puzzle counts as solved it stays solved, whatever the holders
/// show afterwards, and it is found solved at most once.
pub proof fn lemma_solved_is_final(
    solved: bool,
    held: Map<Location, StatueColor>,
    later: Map<Location, StatueColor>,
)
    ensures
        ({
            let first = solution_step(solved, held);
            let second = solution_step(first.0, later);
            &&& solved ==> first == (true, false)
            &&& first.0 ==> second == (true, false)
            &&& !(first.1 && second.1)
        }),
{
}

} // verus!
