//! One player at the table.

use crate::timestamp::Duration;
use crate::turn_time_tracker::stats::{
    completed_after_end_turn, is_sorted, turns_of, PlayerTurnDurationStats,
};
use macroquad::color::Color;
use vstd::prelude::*;

verus! {

/// A player: a name and a colour to show, the time that all the player's
/// turns took together, and the statistics of the turns.
pub struct Player {
    display_name: String,
    display_color: Color,
    total_time: Duration,
    stats: PlayerTurnDurationStats,
}

/// What a player is: every value that the timer reads or changes.
pub struct PlayerModel {
    pub display_name: Seq<char>,
    pub display_color: Color,
    /// The time that all the player's turns took together.
    pub total_time: Duration,
    /// How long the running turn has taken so far.
    pub current_turn: Duration,
    /// The turns that are over, shortest first.
    pub completed_turns: Seq<Duration>,
}

impl PlayerModel {
    /// The completed turns are in order, and the running turn is part of
    /// the total.
    pub open spec fn wf(self) -> bool {
        &&& is_sorted(self.completed_turns)
        &&& self.current_turn.nanos <= self.total_time.nanos
    }

    /// The turns that the statistics of the player speak of, shortest first.
    pub open spec fn turns(self) -> Seq<Duration> {
        turns_of(self.current_turn, self.completed_turns)
    }

    /// The player after a frame of `elapsed` time on the player's turn.
    pub open spec fn ticked(self, elapsed: Duration) -> PlayerModel {
        PlayerModel {
            total_time: Duration { nanos: (self.total_time.nanos + elapsed.nanos) as u64 },
            current_turn: Duration { nanos: (self.current_turn.nanos + elapsed.nanos) as u64 },
            ..self
        }
    }

    /// The player after the end of the player's turn: the turn counts as
    /// completed if it took the threshold or longer, and the next turn starts
    /// from zero either way.
    pub open spec fn turn_ended(self) -> PlayerModel {
        PlayerModel {
            current_turn: Duration { nanos: 0 },
            completed_turns: completed_after_end_turn(self.current_turn, self.completed_turns),
            ..self
        }
    }
}

impl View for Player {
    type V = PlayerModel;

    closed spec fn view(&self) -> PlayerModel {
        PlayerModel {
            display_name: self.display_name@,
            display_color: self.display_color,
            total_time: self.total_time,
            current_turn: self.stats.current(),
            completed_turns: self.stats.completed(),
        }
    }
}

impl Player {
    /// A player who has not played yet.
    pub fn new(display_name: String, display_color: Color) -> (player: Player)
        ensures
            player@ == (PlayerModel {
                display_name: display_name@,
                display_color,
                total_time: Duration { nanos: 0 },
                current_turn: Duration { nanos: 0 },
                completed_turns: Seq::empty(),
            }),
            player@.wf(),
    {
        Player {
            display_name,
            display_color,
            total_time: Duration::zero(),
            stats: PlayerTurnDurationStats::new(),
        }
    }

    /// Adds the time of one frame to the player's total and running turn.
    pub fn tick_frame(&mut self, elapsed_tick_time: Duration)
        requires
            old(self)@.wf(),
            old(self)@.total_time.nanos + elapsed_tick_time.nanos <= u64::MAX,
        ensures
            final(self)@ == old(self)@.ticked(elapsed_tick_time),
            final(self)@.wf(),
    {
        self.total_time = Duration { nanos: self.total_time.nanos + elapsed_tick_time.nanos };
        self.stats.tick_frame(elapsed_tick_time);
    }

    /// Ends the player's turn.
    pub fn end_turn(&mut self)
        requires
            old(self)@.wf(),
        ensures
            final(self)@ == old(self)@.turn_ended(),
            final(self)@.wf(),
    {
        self.stats.end_turn();
    }

    pub fn display_name(&self) -> (name: &String)
        ensures
            name@ == self@.display_name,
    {
        &self.display_name
    }

    pub fn display_color(&self) -> (color: Color)
        ensures
            color == self@.display_color,
    {
        self.display_color
    }

    pub fn total_time(&self) -> (total: Duration)
        ensures
            total == self@.total_time,
    {
        self.total_time
    }

    /// The statistics of the player's turns.
    pub fn stats(&self) -> (stats: &PlayerTurnDurationStats)
        ensures
            stats.current() == self@.current_turn,
            stats.completed() == self@.completed_turns,
    {
        &self.stats
    }

    /// The mean time of a turn, rounded down to a whole nanosecond, if
    /// there is any turn.
    pub fn average_turn(&self) -> (average: Option<Duration>)
        requires
            self@.turns().len() <= usize::MAX,
        ensures
            average == if self@.turns().len() == 0 {
                None
            } else {
                Some(
                    Duration {
                        nanos: (self@.total_time.nanos as int / self@.turns().len() as int) as u64,
                    },
                )
            },
    {
        let num_turns = self.stats.num_turns();
        if num_turns == 0 {
            None
        } else {
            let mean = self.total_time.nanos as u128 / num_turns as u128;
            Some(Duration { nanos: mean as u64 })
        }
    }
}

} // verus!
