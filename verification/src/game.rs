//! The states of a game, the score, and the clock.

use vstd::prelude::*;

verus! {

/// The states a game goes through.
#[derive(Clone, Copy, Debug, PartialEq, Eq, Hash, Structural)]
pub enum State {
    /// No game.
    Empty,
    /// A new game is being set up.
    Setup,
    /// A level is being set up.
    LvlStartup,
    /// The player plays.
    Playing,
    /// A level has been finished.
    LvlFinished,
    /// The player has ended the game or died.
    GameOver,
    /// The player enters a name for the leaderboard.
    Leaderboard,
    /// The game is paused. Entered from `Playing` only.
    Paused,
    /// The player leaves the game.
    Exit,
}

impl State {
    /// Whether the pause key means anything in this state.
    pub open spec fn pausable(self) -> bool {
        self == State::Playing || self == State::Paused
    }

    /// The state after the pause key was pressed: a running game pauses, a
    /// paused one goes on. In every other state the key does nothing.
    pub fn toggle_pause(self) -> (next: Option<State>)
        ensures
            self == State::Playing ==> next == Some(State::Paused),
            self == State::Paused ==> next == Some(State::Playing),
            !self.pausable() ==> next is None,
    {
        match self {
            State::Playing => Some(State::Paused),
            State::Paused => Some(State::Playing),
            _ => None,
        }
    }
}

/// The points the player has scored.
#[derive(Clone, Copy, Debug, PartialEq, Eq, Structural)]
pub struct Score(pub usize);

/// How a score is shown: the higher, the more it stands out.
#[derive(Clone, Copy, Debug, PartialEq, Eq, Structural)]
pub enum ScoreBand {
    /// Under 100 points.
    Plain,
    /// From 100 points.
    Light,
    /// From 500 points.
    Dim,
    /// From 1000 points.
    Highlight,
}

impl Score {
    /// The sum of `points`.
    pub open spec fn sum(points: Seq<usize>) -> int
        decreases points.len(),
    {
        if points.len() == 0 {
            0
        } else {
            Score::sum(points.drop_last()) + points.last()
        }
    }

    /// Adds what the enemies destroyed in one frame were worth. A score
    /// that a `usize` cannot hold stays at the largest it can.
    pub fn award(&mut self, points: &Vec<usize>)
        ensures
            final(self).0 == if old(self).0 + Score::sum(points@) > usize::MAX {
                usize::MAX as int
            } else {
                old(self).0 + Score::sum(points@)
            },
    {
        let mut total: usize = self.0;
        let mut i: usize = 0;
        while i < points.len()
            invariant
                i <= points@.len(),
                total == if old(self).0 + Score::sum(points@.take(i as int)) > usize::MAX {
                    usize::MAX as int
                } else {
                    old(self).0 + Score::sum(points@.take(i as int))
                },
            decreases points@.len() - i,
        {
            assert(points@.take(i + 1).drop_last() =~= points@.take(i as int));
            total = total.saturating_add(points[i]);
            i += 1;
        }
        assert(points@.take(i as int) =~= points@);
        self.0 = total;
    }

    /// The band of the score.
    pub fn band(self) -> (band: ScoreBand)
        ensures
            band == if self.0 < 100 {
                ScoreBand::Plain
            } else if self.0 < 500 {
                ScoreBand::Light
            } else if self.0 < 1000 {
                ScoreBand::Dim
            } else {
                ScoreBand::Highlight
            },
    {
        if self.0 < 100 {
            ScoreBand::Plain
        } else if self.0 < 500 {
            ScoreBand::Light
        } else if self.0 < 1000 {
            ScoreBand::Dim
        } else {
            ScoreBand::Highlight
        }
    }
}

/// Splits seconds played into the minutes and seconds a clock shows.
pub fn clock_face(seconds: u64) -> (face: (u64, u64))
    ensures
        face.0 == seconds / 60,
        face.1 == seconds % 60,
        face.0 * 60 + face.1 == seconds,
        face.1 < 60,
{
    (seconds / 60, seconds % 60)
}

} // verus!
