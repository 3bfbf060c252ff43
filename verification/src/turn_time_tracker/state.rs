//! A plainer timer: it counts the turns of each player and keeps no
//! statistics of them.
//!
//! It is stepped like the timer with statistics, by the same input. The key
//! for the display of times means nothing to it.

use crate::infinite_iterator::{next_index, InfiniteIterator};
use crate::timestamp::{Duration, Timestamp};
use crate::turn_time_tracker::tracker::{TextDetailMode, TimerState, TurnInput};
use macroquad::color::Color;
use vstd::prelude::*;

verus! {

/// A player of the plain timer: a name and a colour to show, the number of
/// turns begun, and the time that they took together.
pub struct TurnCounter {
    display_name: String,
    display_color: Color,
    num_turns: usize,
    total_time: Duration,
}

/// What a player of the plain timer is.
pub struct TurnCounterModel {
    pub display_name: Seq<char>,
    pub display_color: Color,
    /// The turns that the player has begun.
    pub num_turns: usize,
    /// The time that all the player's turns took together.
    pub total_time: Duration,
}

impl TurnCounterModel {
    /// The player after a frame of `elapsed` time on the player's turn. A
    /// player who is given time has begun a turn, even if no key ever passed
    /// the turn to that player.
    pub open spec fn ticked(self, elapsed: Duration) -> TurnCounterModel {
        TurnCounterModel {
            total_time: Duration { nanos: (self.total_time.nanos + elapsed.nanos) as u64 },
            num_turns: if self.num_turns == 0 {
                1
            } else {
                self.num_turns
            },
            ..self
        }
    }

    /// The player after the turn has passed to the player.
    pub open spec fn turn_begun(self) -> TurnCounterModel {
        TurnCounterModel { num_turns: (self.num_turns + 1) as usize, ..self }
    }
}

impl View for TurnCounter {
    type V = TurnCounterModel;

    closed spec fn view(&self) -> TurnCounterModel {
        TurnCounterModel {
            display_name: self.display_name@,
            display_color: self.display_color,
            num_turns: self.num_turns,
            total_time: self.total_time,
        }
    }
}

impl TurnCounter {
    /// A player who has not played yet.
    pub fn new(display_name: String, display_color: Color) -> (player: TurnCounter)
        ensures
            player@ == (TurnCounterModel {
                display_name: display_name@,
                display_color,
                num_turns: 0,
                total_time: Duration { nanos: 0 },
            }),
    {
        TurnCounter { display_name, display_color, num_turns: 0, total_time: Duration::zero() }
    }

    pub fn display_name(&self) -> (name: &String)
        ensures
            name@ == self@.display_name,
    {
        &self.display_name
    }

    pub fn display_color(&self) -> (color: Color)
        ensures
            color == self@.display_color,
    {
        self.display_color
    }

    pub fn num_turns(&self) -> (count: usize)
        ensures
            count == self@.num_turns,
    {
        self.num_turns
    }

    pub fn total_time(&self) -> (total: Duration)
        ensures
            total == self@.total_time,
    {
        self.total_time
    }

    fn tick_frame(&mut self, elapsed_tick_time: Duration)
        requires
            old(self)@.total_time.nanos + elapsed_tick_time.nanos <= u64::MAX,
        ensures
            final(self)@ == old(self)@.ticked(elapsed_tick_time),
    {
        self.total_time = Duration { nanos: self.total_time.nanos + elapsed_tick_time.nanos };
        // A player who never had the turn passed on has begun a turn all the same.
        if self.num_turns == 0 {
            self.num_turns = 1;
        }
    }

    fn begin_turn(&mut self)
        requires
            old(self)@.num_turns < usize::MAX,
        ensures
            final(self)@ == old(self)@.turn_begun(),
    {
        self.num_turns = self.num_turns + 1;
    }
}

/// What the plain timer is: every value that a frame reads or changes.
pub struct TrackerStateModel {
    /// The players in the order of their turns.
    pub players: Seq<TurnCounterModel>,
    /// The index of the player whose turn it is.
    pub cursor: nat,
    pub timer: TimerState,
    pub text_detail_mode: TextDetailMode,
}

impl TrackerStateModel {
    /// The cursor is on a player, or at 0 while there is none.
    pub open spec fn wf(self) -> bool {
        if self.players.len() == 0 {
            self.cursor == 0
        } else {
            self.cursor < self.players.len()
        }
    }

    /// A timer without players: paused, with short texts.
    pub open spec fn initial() -> TrackerStateModel {
        TrackerStateModel {
            players: Seq::empty(),
            cursor: 0,
            timer: TimerState::Paused,
            text_detail_mode: TextDetailMode::Concise,
        }
    }

    /// The timer with one more player at the end of the round.
    pub open spec fn with_player(self, display_name: Seq<char>, display_color: Color) -> TrackerStateModel {
        TrackerStateModel {
            players: self.players.push(
                TurnCounterModel {
                    display_name,
                    display_color,
                    num_turns: 0,
                    total_time: Duration { nanos: 0 },
                },
            ),
            ..self
        }
    }

    /// The players after a frame that gives `elapsed` time to the player
    /// whose turn it is, and then passes the turn on if `next_player` says
    /// so. The player whom the turn passes to has one more turn begun.
    pub open spec fn players_after_tick(self, elapsed: Duration, next_player: bool) -> Seq<
        TurnCounterModel,
    > {
        let ticked = self.players.update(
            self.cursor as int,
            self.players[self.cursor as int].ticked(elapsed),
        );
        if next_player {
            let next = next_index(self.cursor, self.players.len()) as int;
            ticked.update(next, ticked[next].turn_begun())
        } else {
            ticked
        }
    }

    /// A frame that gives time to a player can be stepped if there is a
    /// player, the clock has not gone backwards, and the player's total and
    /// the next player's count of turns still fit.
    pub open spec fn can_step(self, now: Timestamp, input: TurnInput) -> bool {
        self.timer matches TimerState::Running { last_tick } ==> (!input.pause ==> {
            &&& self.cursor < self.players.len()
            &&& last_tick.nanos <= now.nanos
            &&& self.players[self.cursor as int].total_time.nanos + (now.nanos - last_tick.nanos)
                <= u64::MAX
            &&& input.next_player ==> self.players_after_tick(now.since(last_tick), false)[next_index(
                self.cursor,
                self.players.len(),
            ) as int].num_turns < usize::MAX
        })
    }

    /// The timer after a frame at `now` with the input `input`.
    pub open spec fn step(self, now: Timestamp, input: TurnInput) -> TrackerStateModel {
        let toggled = TrackerStateModel {
            text_detail_mode: if input.toggle_detail_mode {
                match self.text_detail_mode {
                    TextDetailMode::Concise => TextDetailMode::Detailed,
                    TextDetailMode::Detailed => TextDetailMode::Concise,
                }
            } else {
                self.text_detail_mode
            },
            ..self
        };
        match toggled.timer {
            TimerState::Paused => if input.pause {
                TrackerStateModel { timer: TimerState::Running { last_tick: now }, ..toggled }
            } else {
                toggled
            },
            TimerState::Running { last_tick } => if input.pause {
                TrackerStateModel { timer: TimerState::Paused, ..toggled }
            } else {
                TrackerStateModel {
                    players: toggled.players_after_tick(now.since(last_tick), input.next_player),
                    cursor: if input.next_player {
                        next_index(toggled.cursor, toggled.players.len())
                    } else {
                        toggled.cursor
                    },
                    timer: TimerState::Running { last_tick: now },
                    ..toggled
                }
            },
        }
    }
}

/// A timer for the turns of a table of players that counts the turns.
pub struct TurnTimeTrackerState {
    players: InfiniteIterator<TurnCounter>,
    timer: TimerState,
    text_detail_mode: TextDetailMode,
}

impl View for TurnTimeTrackerState {
    type V = TrackerStateModel;

    closed spec fn view(&self) -> TrackerStateModel {
        TrackerStateModel {
            players: self.players.items().map_values(|player: TurnCounter| player@),
            cursor: self.players.index(),
            timer: self.timer,
            text_detail_mode: self.text_detail_mode,
        }
    }
}

impl Default for TurnTimeTrackerState {
    fn default() -> (tracker: TurnTimeTrackerState)
        ensures
            tracker@ == TrackerStateModel::initial(),
            tracker@.wf(),
    {
        TurnTimeTrackerState::new()
    }
}

impl TurnTimeTrackerState {
    /// A timer without players, paused.
    pub fn new() -> (tracker: TurnTimeTrackerState)
        ensures
            tracker@ == TrackerStateModel::initial(),
            tracker@.wf(),
    {
        let tracker = TurnTimeTrackerState {
            players: InfiniteIterator::new(),
            timer: TimerState::Paused,
            text_detail_mode: TextDetailMode::Concise,
        };
        assert(tracker@.players =~= Seq::empty());
        tracker
    }

    /// Adds a player at the end of the round.
    pub fn add_player(&mut self, display_name: String, display_color: Color)
        requires
            old(self)@.wf(),
        ensures
            final(self)@ == old(self)@.with_player(display_name@, display_color),
            final(self)@.wf(),
    {
        let player = TurnCounter::new(display_name, display_color);
        self.players.push(player);
        assert(self@.players =~= old(self)@.players.push(player@));
    }

    /// Whether `evaluate_state` may be called for this frame.
    pub fn can_evaluate_state(&self, now: Timestamp, input: &TurnInput) -> (ok: bool)
        requires
            self@.wf(),
        ensures
            ok == self@.can_step(now, *input),
    {
        match self.timer {
            TimerState::Paused => true,
            TimerState::Running { last_tick } => {
                if input.pause {
                    return true;
                }
                if !self.players.check_invariants() {
                    return false;
                }
                let elapsed = match now.duration_since(last_tick) {
                    Some(elapsed) => elapsed,
                    None => {
                        return false;
                    },
                };
                let (players, index) = self.players.raw();
                assert(players@[index as int]@ == self@.players[index as int]);
                if players[index].total_time().checked_add(elapsed).is_none() {
                    return false;
                }
                if !input.next_player {
                    return true;
                }
                let len = players.len();
                let next = (index + 1) % len;
                assert(players@[next as int]@ == self@.players[next as int]);
                let turns_of_next = if next == index && players[next].num_turns() == 0 {
                    1
                } else {
                    players[next].num_turns()
                };
                turns_of_next < usize::MAX
            },
        }
    }

    /// Steps the timer through one frame: the clock reads `now`, and `input`
    /// says which keys went down.
    pub fn evaluate_state(&mut self, now: Timestamp, input: &TurnInput)
        requires
            old(self)@.wf(),
            old(self)@.can_step(now, *input),
        ensures
            final(self)@ == old(self)@.step(now, *input),
            final(self)@.wf(),
    {
        // Toggle the detail of the text if needed
        if input.toggle_detail_mode {
            self.text_detail_mode = match self.text_detail_mode {
                TextDetailMode::Concise => TextDetailMode::Detailed,
                TextDetailMode::Detailed => TextDetailMode::Concise,
            };
        }
        match self.timer {
            TimerState::Paused => {
                // Check for unpause
                if input.pause {
                    self.timer = TimerState::Running { last_tick: now };
                }
            },
            TimerState::Running { last_tick } => {
                // Check for pause
                if input.pause {
                    self.timer = TimerState::Paused;
                    return ;
                }

                // Tick the current player
                let ghost before = self@;
                let elapsed_tick_time = now.elapsed_since(last_tick);
                let current_player = self.players.current_mut();
                current_player.tick_frame(elapsed_tick_time);
                assert(self@.players =~= before.players_after_tick(elapsed_tick_time, false));

                self.timer = TimerState::Running { last_tick: now };

                // Change the current player if needed. This comes after the tick, so that
                // the player who was on is given the time up to this frame.
                if input.next_player {
                    self.players.increment();
                    let next_player = self.players.current_mut();
                    next_player.begin_turn();
                    assert(self@.players =~= before.players_after_tick(elapsed_tick_time, true));
                }
            },
        }
    }

    /// The players in the order of their turns, and the index of the player
    /// whose turn it is.
    pub fn players(&self) -> (raw: (&Vec<TurnCounter>, usize))
        ensures
            raw.0@.map_values(|player: TurnCounter| player@) == self@.players,
            raw.1 == self@.cursor,
    {
        self.players.raw()
    }

    pub fn timer(&self) -> (timer: TimerState)
        ensures
            timer == self@.timer,
    {
        self.timer
    }

    pub fn text_detail_mode(&self) -> (mode: TextDetailMode)
        ensures
            mode == self@.text_detail_mode,
    {
        self.text_detail_mode
    }
}

} // verus!
