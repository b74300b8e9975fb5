use escape_room::catalog::{Location, StatueColor};
use escape_room::holders::{check_for_solution, PuzzleState, StatueHolders};
use escape_room::player::Player;

const LOCATIONS: [Location; 3] = [Location::Left, Location::Middle, Location::Right];
const COLORS: [StatueColor; 3] = [StatueColor::Red, StatueColor::Green, StatueColor::Blue];

fn filled(left: StatueColor, middle: StatueColor, right: StatueColor) -> StatueHolders {
    let mut player = Player::default();
    let mut holders = StatueHolders::new();
    holders.place(&mut player, Location::Left, left);
    holders.place(&mut player, Location::Middle, middle);
    holders.place(&mut player, Location::Right, right);
    holders
}

#[test]
fn new_holders_are_empty_and_unsolved() {
    let holders = StatueHolders::new();
    for location in LOCATIONS {
        assert_eq!(holders.get(location), None);
    }
    assert!(!holders.solved());
    assert_eq!(StatueHolders::default(), holders);
}

#[test]
fn place_into_empty_holder_returns_nothing() {
    let mut player = Player::default();
    let mut holders = StatueHolders::new();
    holders.place(&mut player, Location::Middle, StatueColor::Green);
    assert_eq!(holders.get(Location::Middle), Some(StatueColor::Green));
    assert_eq!(holders.get(Location::Left), None);
    assert_eq!(holders.get(Location::Right), None);
    assert!(!player.owns("InvBallStatueGreen"));
    assert!(!player.owns("InvBallStatueRed"));
    assert!(!player.owns("InvBallStatueBlue"));
}

#[test]
fn place_into_occupied_holder_returns_the_old_statue() {
    let mut player = Player::default();
    let mut holders = StatueHolders::new();
    holders.place(&mut player, Location::Left, StatueColor::Blue);
    holders.place(&mut player, Location::Left, StatueColor::Red);
    assert_eq!(holders.get(Location::Left), Some(StatueColor::Red));
    assert!(player.owns("InvBallStatueBlue"));
    assert!(!player.owns("InvBallStatueRed"));
    assert_eq!(player.equipped(), 4);
}

#[test]
fn remove_returns_the_statue_and_empties_the_holder() {
    let mut player = Player::default();
    let mut holders = StatueHolders::new();
    holders.place(&mut player, Location::Right, StatueColor::Green);
    holders.remove(&mut player, Location::Right);
    assert_eq!(holders.get(Location::Right), None);
    assert!(player.owns("InvBallStatueGreen"));
    assert_eq!(player.equipped(), 4);
}

#[test]
fn remove_from_empty_holder_changes_nothing() {
    let mut player = Player::default();
    let mut holders = StatueHolders::new();
    holders.place(&mut player, Location::Left, StatueColor::Blue);
    holders.remove(&mut player, Location::Middle);
    assert_eq!(holders.get(Location::Left), Some(StatueColor::Blue));
    assert_eq!(holders.get(Location::Middle), None);
    assert!(!player.owns("InvBallStatueBlue"));
    assert!(!player.owns("InvBallStatueRed"));
    assert!(!player.owns("InvBallStatueGreen"));
}

#[test]
fn one_colour_may_stand_in_two_holders() {
    let holders = filled(StatueColor::Blue, StatueColor::Blue, StatueColor::Green);
    assert_eq!(holders.get(Location::Left), Some(StatueColor::Blue));
    assert_eq!(holders.get(Location::Middle), Some(StatueColor::Blue));
    assert!(!holders.solved());
}

#[test]
fn solved_only_for_blue_red_green() {
    for left in COLORS {
        for middle in COLORS {
            for right in COLORS {
                let expected = left == StatueColor::Blue && middle == StatueColor::Red
                    && right == StatueColor::Green;
                assert_eq!(filled(left, middle, right).solved(), expected);
            }
        }
    }
}

#[test]
fn swapped_left_and_middle_is_not_solved() {
    assert!(!filled(StatueColor::Red, StatueColor::Blue, StatueColor::Green).solved());
}

#[test]
fn partly_filled_holders_are_not_solved() {
    let mut player = Player::default();
    let mut holders = StatueHolders::new();
    holders.place(&mut player, Location::Left, StatueColor::Blue);
    assert!(!holders.solved());
    holders.place(&mut player, Location::Middle, StatueColor::Red);
    assert!(!holders.solved());
    holders.place(&mut player, Location::Right, StatueColor::Green);
    assert!(holders.solved());
    holders.remove(&mut player, Location::Right);
    assert!(!holders.solved());
}

#[test]
fn solution_is_found_once_and_stays() {
    let mut player = Player::default();
    let mut state = PuzzleState::default();
    let mut holders = StatueHolders::new();
    assert!(!check_for_solution(&mut state, &holders));
    assert_eq!(state, PuzzleState(false));
    holders.place(&mut player, Location::Left, StatueColor::Blue);
    holders.place(&mut player, Location::Middle, StatueColor::Red);
    holders.place(&mut player, Location::Right, StatueColor::Green);
    assert!(check_for_solution(&mut state, &holders));
    assert_eq!(state, PuzzleState(true));
    assert!(!check_for_solution(&mut state, &holders));
    assert_eq!(state, PuzzleState(true));
    holders.remove(&mut player, Location::Left);
    assert!(!check_for_solution(&mut state, &holders));
    assert_eq!(state, PuzzleState(true));
}
