//! Score keeping and the score-derived population cap.
//!
//! The game consumes collect events targeting the player, advances the score
//! and the high score, and derives from the score how many actors the spawn
//! policy may keep alive at once.

use vstd::prelude::*;
use vstd::arithmetic::div_mod::lemma_fundamental_div_mod;
use crate::actor::ActorView;
use crate::actor::PLAYER_ID;
use crate::messages::GameInstructions;

verus! {

/// The population cap at a score of zero.
pub const MAX_PLAYERS: usize = 5;

/// How many events in `events` are collect events of the player.
pub open spec fn collects(events: Seq<(GameInstructions, ActorView)>) -> int
    decreases events.len(),
{
    if events.len() == 0 {
        0
    } else {
        collects(events.drop_last()) + if events.last().0 == GameInstructions::Collect
            && events.last().1@.id == PLAYER_ID {
            1int
        } else {
            0int
        }
    }
}

/// `a + b` capped at the largest usize.
pub open spec fn sat_add(a: int, b: int) -> int {
    if a + b <= usize::MAX {
        a + b
    } else {
        usize::MAX as int
    }
}

/// The population cap a score allows: the base plus three per point, capped
/// at the largest usize.
pub open spec fn population_cap(score: int) -> int {
    if MAX_PLAYERS + score * 3 <= usize::MAX {
        MAX_PLAYERS + score * 3
    } else {
        usize::MAX as int
    }
}

/// The score-tracking collaborator of the actor manager.
#[derive(Clone, Copy, Debug, PartialEq, Eq, Structural)]
pub struct Game {
    pub score: usize,
    pub highscore: usize,
}

impl Game {
    /// A fresh game: both scores at zero.
    pub fn new() -> (g: Game)
        ensures
            g == (Game { score: 0, highscore: 0 }),
    {
        Game { score: 0, highscore: 0 }
    }

    /// The population cap the current score allows.
    pub fn max_players(&self) -> (m: usize)
        ensures
            m == population_cap(self.score as int),
    {
        if self.score <= (usize::MAX - MAX_PLAYERS) / 3 {
            proof {
                let m = (usize::MAX - MAX_PLAYERS) as int;
                lemma_fundamental_div_mod(m, 3);
            }
            MAX_PLAYERS + self.score * 3
        } else {
            proof {
                let m = (usize::MAX - MAX_PLAYERS) as int;
                lemma_fundamental_div_mod(m, 3);
            }
            usize::MAX
        }
    }

    /// Resets the score for a new round; the high score survives.
    pub fn restart(&mut self)
        ensures
            *final(self) == (Game { score: 0, highscore: old(self).highscore }),
    {
        self.score = 0;
    }

    /// Consumes the tick's events: each collect event of the player scores a
    /// point, and the high score follows the score up.
    pub fn process_messages(&mut self, messages: &Vec<(GameInstructions, ActorView)>)
        ensures
            final(self).score == sat_add(old(self).score as int, collects(messages@)),
            final(self).highscore == if collects(messages@) > 0 {
                if old(self).highscore >= final(self).score {
                    old(self).highscore as int
                } else {
                    final(self).score as int
                }
            } else {
                old(self).highscore as int
            },
    {
        let ghost pre = *self;
        let mut i: usize = 0;
        while i < messages.len()
            invariant
                0 <= i <= messages@.len(),
                0 <= collects(messages@.take(i as int)),
                self.score as int == sat_add(pre.score as int, collects(messages@.take(i as int))),
                self.highscore as int == if collects(messages@.take(i as int)) > 0 {
                    if pre.highscore >= self.score {
                        pre.highscore as int
                    } else {
                        self.score as int
                    }
                } else {
                    pre.highscore as int
                },
            decreases messages@.len() - i,
        {
            proof {
                assert(messages@.take(i + 1).drop_last() =~= messages@.take(i as int));
                assert(messages@.take(i + 1).last() == messages@[i as int]);
            }
            let ghost gi = i as int;
            let (msg, v) = &messages[i];
            proof {
                assert(messages@[gi].1 == *v);
            }
            match msg {
                GameInstructions::Collect => {
                    if v.id == PLAYER_ID {
                        proof {
                            assert(collects(messages@.take(gi + 1)) == collects(messages@.take(gi)) + 1);
                        }
                        if self.score < usize::MAX {
                            self.score = self.score + 1;
                        }
                        if self.highscore < self.score {
                            self.highscore = self.score;
                        }
                    } else {
                        proof {
                            assert(collects(messages@.take(gi + 1)) == collects(messages@.take(gi)));
                        }
                    }
                },
                _ => {
                    proof {
                        assert(collects(messages@.take(gi + 1)) == collects(messages@.take(gi)));
                    }
                },
            }
            i = i + 1;
        }
        proof {
            assert(messages@.take(messages@.len() as int) =~= messages@);
        }
    }
}

} // verus!
