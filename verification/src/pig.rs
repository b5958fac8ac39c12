//! The rules of Pig: hands, rolls, turns and the end of the game.

use vstd::prelude::*;
use crate::random::RandomNumberGenerator;

verus! {

/// The score at which a game of Pig ends.
pub const WINNING_SCORE: usize = 100;

/// The hand at which the computer stops rolling.
pub const CPU_HOLDS_AT: usize = 20;

/// The number of faces of the die.
pub const DIE_FACES: usize = 6;

/// The phases that a game of Pig goes through.
#[derive(Clone, Copy, Debug, PartialEq, Eq, Structural, Hash)]
pub enum GamePhase {
    MainMenu,
    Start,
    Player,
    Cpu,
    End,
    GameOver,
}

impl Default for GamePhase {
    fn default() -> (phase: GamePhase)
        ensures
            phase == GamePhase::Start,
    {
        GamePhase::Start
    }
}

/// The banked points of both sides.
#[derive(Clone, Copy, Debug, PartialEq, Eq, Structural)]
pub struct Scores {
    pub player: usize,
    pub cpu: usize,
}

/// Who has won a finished game.
#[derive(Clone, Copy, Debug, PartialEq, Eq, Structural)]
pub enum Winner {
    Player,
    Cpu,
}

/// What a side does next in its turn.
#[derive(Clone, Copy, Debug, PartialEq, Eq, Structural)]
pub enum TurnStep {
    /// A die joins the hand; `index` is the tile that shows its face.
    AddDie { index: usize },
    /// The hand is cleared and the game goes on in phase `next`.
    EndTurn { next: GamePhase },
}

/// The points of a hand: each die counts the number on its face, which is
/// one more than the tile that shows it; a die without a tile counts
/// nothing.
pub open spec fn hand_total(dice: Seq<Option<usize>>) -> int
    decreases dice.len(),
{
    if dice.len() == 0 {
        0
    } else {
        hand_total(dice.drop_last()) + match dice.last() {
            Some(index) => index + 1,
            None => 0,
        }
    }
}

/// What follows a roll of `new_roll`: a one ends the turn and passes play
/// to `next`, any other number puts the die into the hand.
pub open spec fn after_roll(new_roll: usize, next: GamePhase) -> TurnStep {
    if new_roll == 1 {
        TurnStep::EndTurn { next }
    } else {
        TurnStep::AddDie { index: (new_roll - 1) as usize }
    }
}

/// Whether the computer rolls again: its hand is below twenty and would
/// not yet win the game.
pub open spec fn cpu_rolls_again(scores: Scores, hand: usize) -> bool {
    hand < CPU_HOLDS_AT && scores.cpu + hand < WINNING_SCORE
}

/// The hand grows by at most what its last die counts.
proof fn lemma_hand_total_grows(dice: Seq<Option<usize>>, i: int)
    requires
        0 <= i <= dice.len(),
    ensures
        0 <= hand_total(dice.take(i)) <= hand_total(dice),
    decreases dice.len() - i,
{
    lemma_hand_total_nonnegative(dice.take(i));
    if i < dice.len() {
        lemma_hand_total_grows(dice, i + 1);
        assert(dice.take(i + 1).drop_last() =~= dice.take(i));
    } else {
        assert(dice.take(i) =~= dice);
    }
}

/// A hand never counts less than nothing.
proof fn lemma_hand_total_nonnegative(dice: Seq<Option<usize>>)
    ensures
        0 <= hand_total(dice),
    decreases dice.len(),
{
    if dice.len() > 0 {
        lemma_hand_total_nonnegative(dice.drop_last());
    }
}

/// Counts the points of a hand. `dice` holds, for each die of the hand,
/// the tile that shows its face.
pub fn hand_score(dice: &Vec<Option<usize>>) -> (total: usize)
    requires
        hand_total(dice@) <= usize::MAX,
    ensures
        total == hand_total(dice@),
{
    checked_hand_score(dice).unwrap()
}

/// Counts the points of a hand, if the count fits in `usize`.
pub fn checked_hand_score(dice: &Vec<Option<usize>>) -> (total: Option<usize>)
    ensures
        total is Some <==> hand_total(dice@) <= usize::MAX,
        total matches Some(points) ==> points == hand_total(dice@),
{
    let mut total: usize = 0;
    let mut i: usize = 0;
    proof {
        assert(dice@.take(0) =~= Seq::<Option<usize>>::empty());
    }
    while i < dice.len()
        invariant
            i <= dice.len(),
            total == hand_total(dice@.take(i as int)),
        decreases dice.len() - i,
    {
        proof {
            lemma_hand_total_grows(dice@, i + 1);
            assert(dice@.take(i + 1).drop_last() =~= dice@.take(i as int));
        }
        match dice[i] {
            Some(index) => {
                if index == usize::MAX || total > usize::MAX - (index + 1) {
                    return None;
                }
                total = total + (index + 1);
            },
            None => {},
        }
        i = i + 1;
    }
    proof {
        assert(dice@.take(dice.len() as int) =~= dice@);
    }
    Some(total)
}

/// Decides what follows a roll of `new_roll` when play would pass to
/// `next`.
pub fn roll_outcome(new_roll: usize, next: GamePhase) -> (step: TurnStep)
    requires
        new_roll >= 1,
    ensures
        step == after_roll(new_roll, next),
{
    if new_roll == 1 {
        TurnStep::EndTurn { next }
    } else {
        TurnStep::AddDie { index: new_roll - 1 }
    }
}

/// The player rolls the die. A one ends the turn and the computer is
/// next; any other number joins the hand.
pub fn player_roll(rng: &RandomNumberGenerator) -> (step: TurnStep)
    ensures
        exists|new_roll: usize|
            1 <= new_roll <= DIE_FACES && step == #[trigger] after_roll(new_roll, GamePhase::Cpu),
{
    let new_roll: usize = rng.range(1..DIE_FACES + 1);
    roll_outcome(new_roll, GamePhase::Cpu)
}

/// The player keeps the hand: its points are banked and the computer is
/// next.
pub fn player_pass(scores: &mut Scores, hand: usize) -> (step: TurnStep)
    requires
        old(scores).player + hand <= usize::MAX,
    ensures
        final(scores).player == old(scores).player + hand,
        final(scores).cpu == old(scores).cpu,
        step == (TurnStep::EndTurn { next: GamePhase::Cpu }),
{
    scores.player = scores.player + hand;
    TurnStep::EndTurn { next: GamePhase::Cpu }
}

/// Decides whether the computer rolls again.
pub fn cpu_wants_roll(scores: &Scores, hand: usize) -> (rolls: bool)
    requires
        hand < CPU_HOLDS_AT ==> scores.cpu + hand <= usize::MAX,
    ensures
        rolls == cpu_rolls_again(*scores, hand),
{
    hand < CPU_HOLDS_AT && scores.cpu + hand < WINNING_SCORE
}

/// One move of the computer. While its hand is below twenty and would not
/// win the game it rolls: a one ends the turn, any other number joins the
/// hand. Otherwise it banks the hand and the player is next.
pub fn cpu_turn(rng: &RandomNumberGenerator, scores: &mut Scores, hand: usize) -> (step: TurnStep)
    requires
        old(scores).cpu + hand <= usize::MAX,
    ensures
        final(scores).player == old(scores).player,
        cpu_rolls_again(*old(scores), hand) ==> final(scores).cpu == old(scores).cpu && exists|
            new_roll: usize,
        |
            1 <= new_roll <= DIE_FACES && step == #[trigger] after_roll(
                new_roll,
                GamePhase::Player,
            ),
        !cpu_rolls_again(*old(scores), hand) ==> final(scores).cpu == old(scores).cpu + hand
            && step == (TurnStep::EndTurn { next: GamePhase::Player }),
{
    if cpu_wants_roll(scores, hand) {
        let new_roll: usize = rng.range(1..DIE_FACES + 1);
        roll_outcome(new_roll, GamePhase::Player)
    } else {
        scores.cpu = scores.cpu + hand;
        TurnStep::EndTurn { next: GamePhase::Player }
    }
}

impl Scores {
    /// Whether either side has reached the winning score.
    pub fn game_over(&self) -> (over: bool)
        ensures
            over == (self.player >= WINNING_SCORE || self.cpu >= WINNING_SCORE),
    {
        self.cpu >= WINNING_SCORE || self.player >= WINNING_SCORE
    }

    /// The winner of a finished game: the computer if it has more points
    /// than the player, else the player.
    pub fn winner(&self) -> (winner: Winner)
        ensures
            winner == (if self.player < self.cpu {
                Winner::Cpu
            } else {
                Winner::Player
            }),
    {
        if self.player < self.cpu {
            Winner::Cpu
        } else {
            Winner::Player
        }
    }
}

} // verus!
