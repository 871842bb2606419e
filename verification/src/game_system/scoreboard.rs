//! The score-and-info singleton: score, player health, and the
//! elapsed-time-driven difficulty ramp.
//!
//! Health saturates at zero, the difficulty level saturates at its maximum,
//! and the difficulty timer is an accumulated elapsed-time counter fed by
//! the host loop.

use vstd::prelude::*;

verus! {

/// Health points the player starts with.
pub const INITIAL_PLAYER_HEALTH: u32 = 5;

/// Largest difficulty level.
pub const MAX_DIFFICULTY_LEVEL: u32 = 5;

/// Seconds of session time between two difficulty levels.
pub const SECONDS_ELAPSED_BEFORE_NEXT_DIFFICULTY: u32 = 60;

/// Sentinel shown as the percent display once the difficulty is maximal.
pub const PERCENT_SENTINEL_AT_MAX_LEVEL: u32 = 666;

/// Largest elapsed time one difficulty update accepts, in milliseconds.
pub const MAX_DIFFICULTY_TICK_MS: u64 = 86_400_000;

/// Score, health and difficulty data of one game session.
pub struct ScoreAndInfo {
    /// Total score of the session.
    pub score: u64,
    /// Remaining player health; zero means game over.
    pub health: u32,
    /// Percent of the way towards the next difficulty level, below one
    /// hundred.
    pub percent_until_next_level: u32,
    /// Current difficulty level, at most `MAX_DIFFICULTY_LEVEL`.
    pub difficulty_level: u32,
    /// Time accumulated since the current difficulty level started, in
    /// milliseconds.
    pub level_elapsed_ms: u64,
}

impl ScoreAndInfo {
    /// The internal invariant of the scoreboard: the difficulty level is
    /// capped, the stored percent is a real percentage, and the level timer
    /// never reaches a full level span.
    pub open spec fn wf(&self) -> bool {
        &&& self.difficulty_level <= MAX_DIFFICULTY_LEVEL
        &&& self.percent_until_next_level < 100
        &&& self.level_elapsed_ms < 60_000
    }

    /// The scoreboard after removing health: a saturating subtraction.
    pub open spec fn remove_health_spec(self, health_to_remove: u32) -> ScoreAndInfo {
        if health_to_remove >= self.health {
            ScoreAndInfo { health: 0, ..self }
        } else {
            ScoreAndInfo { health: (self.health - health_to_remove) as u32, ..self }
        }
    }

    /// The scoreboard after one difficulty increment: the level rises by one
    /// and saturates at the maximum.
    pub open spec fn increase_difficulty_spec(self) -> ScoreAndInfo {
        if self.difficulty_level + 1 > MAX_DIFFICULTY_LEVEL {
            ScoreAndInfo { difficulty_level: MAX_DIFFICULTY_LEVEL, ..self }
        } else {
            ScoreAndInfo { difficulty_level: (self.difficulty_level + 1) as u32, ..self }
        }
    }

    /// The scoreboard after a difficulty update with this much elapsed time:
    /// at the maximum level nothing changes; otherwise the level timer
    /// advances, and either the new percentage is stored or, once a full
    /// level span has passed, the level rises and the timer and percentage
    /// start over.
    pub open spec fn update_percent_spec(self, elapsed_ms: int) -> ScoreAndInfo {
        if self.difficulty_level == MAX_DIFFICULTY_LEVEL {
            self
        } else {
            let ticked = self.level_elapsed_ms + elapsed_ms;
            let percent = (ticked / 1000) * 100 / (SECONDS_ELAPSED_BEFORE_NEXT_DIFFICULTY as int);
            if percent >= 100 {
                ScoreAndInfo {
                    percent_until_next_level: 0,
                    level_elapsed_ms: 0,
                    ..self.increase_difficulty_spec()
                }
            } else {
                ScoreAndInfo {
                    percent_until_next_level: percent as u32,
                    level_elapsed_ms: ticked as u64,
                    ..self
                }
            }
        }
    }

    /// Returns a fresh scoreboard: no score, full health, lowest difficulty.
    pub fn new() -> (r: ScoreAndInfo)
        ensures
            r == (ScoreAndInfo {
                score: 0,
                health: INITIAL_PLAYER_HEALTH,
                percent_until_next_level: 0,
                difficulty_level: 0,
                level_elapsed_ms: 0,
            }),
            r.wf(),
    {
        ScoreAndInfo {
            score: 0,
            health: INITIAL_PLAYER_HEALTH,
            percent_until_next_level: 0,
            difficulty_level: 0,
            level_elapsed_ms: 0,
        }
    }

    /// Add points to the score.
    pub fn add_to_score(&mut self, score_added: u32)
        requires
            old(self).score + score_added <= u64::MAX,
        ensures
            *final(self) == (ScoreAndInfo {
                score: (old(self).score + score_added) as u64,
                ..*old(self)
            }),
    {
        self.score = self.score + score_added as u64;
    }

    /// Remove health, saturating at zero.
    pub fn remove_health(&mut self, health_to_remove: u32)
        ensures
            *final(self) == old(self).remove_health_spec(health_to_remove),
    {
        if health_to_remove >= self.health {
            self.health = 0;
        } else {
            self.health = self.health - health_to_remove;
        }
    }

    /// Raise the difficulty level by one, saturating at the maximum.
    pub fn increase_difficulty_level(&mut self)
        ensures
            *final(self) == old(self).increase_difficulty_spec(),
    {
        if self.difficulty_level >= MAX_DIFFICULTY_LEVEL {
            self.difficulty_level = MAX_DIFFICULTY_LEVEL;
        } else {
            self.difficulty_level = self.difficulty_level + 1;
        }
    }

    /// Advance the difficulty timer by the elapsed time and refresh the
    /// stored percentage; once a full level span has passed, raise the
    /// difficulty level and start the timer over.
    pub fn update_percent_until_next_level(&mut self, elapsed_ms: u64)
        requires
            old(self).wf(),
            elapsed_ms <= MAX_DIFFICULTY_TICK_MS,
        ensures
            *final(self) == old(self).update_percent_spec(elapsed_ms as int),
            final(self).wf(),
    {
        if self.difficulty_level == MAX_DIFFICULTY_LEVEL {
            return;
        }

        let ticked: u64 = self.level_elapsed_ms + elapsed_ms;
        let percent_elapsed: u64 = (ticked / 1000) * 100
            / (SECONDS_ELAPSED_BEFORE_NEXT_DIFFICULTY as u64);

        if percent_elapsed >= 100 {
            self.increase_difficulty_level();
            self.percent_until_next_level = 0;
            self.level_elapsed_ms = 0;
        } else {
            self.percent_until_next_level = percent_elapsed as u32;
            self.level_elapsed_ms = ticked;
        }
    }

    /// Get the total score of the session.
    pub fn get_score(&self) -> (r: u64)
        ensures
            r == self.score,
    {
        self.score
    }

    /// Get the remaining player health.
    pub fn get_health(&self) -> (r: u32)
        ensures
            r == self.health,
    {
        self.health
    }

    /// The session is over exactly when the health is exhausted.
    pub fn is_gameover(&self) -> (r: bool)
        ensures
            r == (self.health == 0),
    {
        self.health == 0
    }

    /// Get the current difficulty level.
    pub fn get_difficulty_level(&self) -> (r: u32)
        ensures
            r == self.difficulty_level,
    {
        self.difficulty_level
    }

    /// Get the percent of the way towards the next difficulty level, or the
    /// sentinel value once the difficulty is maximal.
    pub fn get_percent_until_next_difficulty_level(&self) -> (r: u32)
        ensures
            self.difficulty_level == MAX_DIFFICULTY_LEVEL ==> r == PERCENT_SENTINEL_AT_MAX_LEVEL,
            self.difficulty_level != MAX_DIFFICULTY_LEVEL ==> r == self.percent_until_next_level,
    {
        if self.difficulty_level == MAX_DIFFICULTY_LEVEL {
            return PERCENT_SENTINEL_AT_MAX_LEVEL;
        }

        self.percent_until_next_level
    }

    /// Get the display name of the current difficulty level.
    pub fn get_difficulty_text(&self) -> (r: &'static str)
        ensures
            self.difficulty_level == 0 ==> r@ == "EASY"@,
            self.difficulty_level == 1 ==> r@ == "NORMAL"@,
            self.difficulty_level == 2 ==> r@ == "HARD"@,
            self.difficulty_level == 3 ==> r@ == "EXTREME"@,
            self.difficulty_level == 4 ==> r@ == "STILL OK?"@,
            self.difficulty_level == 5 ==> r@ == "!YOU ARE GOING TO DIE!"@,
            self.difficulty_level > 5 ==> r@ == "UNKNOWN"@,
    {
        if self.difficulty_level == 0 {
            "EASY"
        } else if self.difficulty_level == 1 {
            "NORMAL"
        } else if self.difficulty_level == 2 {
            "HARD"
        } else if self.difficulty_level == 3 {
            "EXTREME"
        } else if self.difficulty_level == 4 {
            "STILL OK?"
        } else if self.difficulty_level == 5 {
            "!YOU ARE GOING TO DIE!"
        } else {
            "UNKNOWN"
        }
    }
}

/// However many difficulty increments are applied, the difficulty level
/// never exceeds its maximum.
pub proof fn lemma_difficulty_level_capped(s: ScoreAndInfo)
    ensures
        s.increase_difficulty_spec().difficulty_level <= MAX_DIFFICULTY_LEVEL,
{
}

} // verus!
