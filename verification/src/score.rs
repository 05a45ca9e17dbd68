use vstd::prelude::*;

verus! {

/// Tells that the player has scored one point.
#[derive(Clone, Copy, Debug, PartialEq, Eq, Structural)]
pub struct Scored;

/// The player's points in the current round.
#[derive(Clone, Copy, Debug, PartialEq, Eq, Structural)]
pub struct Score {
    pub score: u16,
}

impl Default for Score {
    fn default() -> (score: Score)
        ensures
            score.score == 0,
    {
        Score { score: 0 }
    }
}

/// Counts one point for every event of the tick.
pub fn update_score(score: &mut Score, events: &Vec<Scored>)
    requires
        old(score).score + events.len() <= u16::MAX,
    ensures
        final(score).score == old(score).score + events.len(),
{
    let mut i: usize = 0;
    while i < events.len()
        invariant
            i <= events.len(),
            score.score == old(score).score + i,
            old(score).score + events.len() <= u16::MAX,
        decreases events.len() - i,
    {
        score.score += 1;
        i += 1;
    }
}

/// Starts the count anew when a round is over.
pub fn reset_score(score: &mut Score)
    ensures
        final(score).score == 0,
{
    score.score = 0;
}

} // verus!
