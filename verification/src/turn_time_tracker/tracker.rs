//! The timer itself: whose turn it is, and whether time is running.
//!
//! The caller polls its keyboard, says in a `TurnInput` which keys went down
//! since the last frame, and samples its clock once. `evaluate_state` makes
//! every decision of that frame. What a frame does to the timer is written
//! down once, as `TrackerModel::step`, and `evaluate_state` is proved against
//! it.

use crate::infinite_iterator::{next_index, InfiniteIterator};
use crate::timestamp::{Duration, Timestamp};
use crate::turn_time_tracker::player::{Player, PlayerModel};
use crate::turn_time_tracker::stats::{
    lemma_sorted_insert, sorted_insert, DONT_COUNT_TURN_THRESHOLD_NANOS,
};
use macroquad::color::Color;
use vstd::prelude::*;

verus! {

/// Whether time is running.
#[derive(Clone, Copy, Debug, PartialEq, Eq, Structural)]
pub enum TimerState {
    Paused,
    /// Time is running, and is accounted for up to `last_tick`.
    Running { last_tick: Timestamp },
}

/// How much the text of a player says.
#[derive(Clone, Copy, Debug, PartialEq, Eq, Structural)]
pub enum TextDetailMode {
    Concise,
    Detailed,
}

/// Whether the times are on display.
#[derive(Clone, Copy, Debug, PartialEq, Eq, Structural)]
pub enum TimeDisplayMode {
    Shown,
    Hidden,
}

/// The keys that went down since the last frame. A key counts on the frame
/// where it went down, not while it is held.
#[derive(Clone, Copy, Debug, PartialEq, Eq, Structural)]
pub struct TurnInput {
    pub toggle_time_display: bool,
    pub toggle_detail_mode: bool,
    /// The key that pauses a running timer and resumes a paused one.
    pub pause: bool,
    pub next_player: bool,
}

/// The time of the first `n` players taken together, in nanoseconds.
pub open spec fn total_nanos_below(players: Seq<PlayerModel>, n: nat) -> nat
    decreases n,
{
    if n == 0 {
        0
    } else {
        total_nanos_below(players, (n - 1) as nat) + players[n - 1].total_time.nanos as nat
    }
}

/// What the timer is: every value that a frame reads or changes.
pub struct TrackerModel {
    /// The players in the order of their turns.
    pub players: Seq<PlayerModel>,
    /// The index of the player whose turn it is.
    pub cursor: nat,
    pub timer: TimerState,
    pub time_display_mode: TimeDisplayMode,
    pub text_detail_mode: TextDetailMode,
}

impl TrackerModel {
    /// The cursor is on a player, or at 0 while there is none, and every
    /// player is in order.
    pub open spec fn wf(self) -> bool {
        &&& if self.players.len() == 0 {
            self.cursor == 0
        } else {
            self.cursor < self.players.len()
        }
        &&& forall|k: int| 0 <= k < self.players.len() ==> (#[trigger] self.players[k]).wf()
    }

    /// A timer without players: paused, with the times on display in
    /// short.
    pub open spec fn initial() -> TrackerModel {
        TrackerModel {
            players: Seq::empty(),
            cursor: 0,
            timer: TimerState::Paused,
            time_display_mode: TimeDisplayMode::Shown,
            text_detail_mode: TextDetailMode::Concise,
        }
    }

    /// The frame gives time to the player whose turn it is: time is running
    /// and the pause key did not go down.
    pub open spec fn ticks(self, input: TurnInput) -> bool {
        self.timer is Running && !input.pause
    }

    /// A frame that gives time to a player can be stepped if there is a
    /// player, the clock has not gone backwards, and the player's total
    /// still fits.
    pub open spec fn can_step(self, now: Timestamp, input: TurnInput) -> bool {
        self.timer matches TimerState::Running { last_tick } ==> (!input.pause ==> {
            &&& self.cursor < self.players.len()
            &&& last_tick.nanos <= now.nanos
            &&& self.players[self.cursor as int].total_time.nanos + (now.nanos - last_tick.nanos)
                <= u64::MAX
        })
    }

    /// What a frame does to the display modes.
    pub open spec fn after_toggles(self, input: TurnInput) -> TrackerModel {
        TrackerModel {
            time_display_mode: if input.toggle_time_display {
                match self.time_display_mode {
                    TimeDisplayMode::Shown => TimeDisplayMode::Hidden,
                    TimeDisplayMode::Hidden => TimeDisplayMode::Shown,
                }
            } else {
                self.time_display_mode
            },
            text_detail_mode: if input.toggle_detail_mode {
                match self.text_detail_mode {
                    TextDetailMode::Concise => TextDetailMode::Detailed,
                    TextDetailMode::Detailed => TextDetailMode::Concise,
                }
            } else {
                self.text_detail_mode
            },
            ..self
        }
    }

    /// A frame while time is running and the pause key did not go down.
    ///
    /// The time since the last tick goes to the player whose turn it is.
    /// Only then does the turn pass on, so that the player who was on is
    /// given the time up to this frame.
    pub open spec fn after_tick(
        self,
        now: Timestamp,
        input: TurnInput,
        last_tick: Timestamp,
    ) -> TrackerModel {
        let ticked = self.players[self.cursor as int].ticked(now.since(last_tick));
        if input.next_player {
            TrackerModel {
                players: self.players.update(self.cursor as int, ticked.turn_ended()),
                cursor: next_index(self.cursor, self.players.len()),
                timer: TimerState::Running { last_tick: now },
                ..self
            }
        } else {
            TrackerModel {
                players: self.players.update(self.cursor as int, ticked),
                timer: TimerState::Running { last_tick: now },
                ..self
            }
        }
    }

    /// The timer after a frame at `now` with the input `input`.
    pub open spec fn step(self, now: Timestamp, input: TurnInput) -> TrackerModel {
        let toggled = self.after_toggles(input);
        match toggled.timer {
            TimerState::Paused => if input.pause {
                TrackerModel { timer: TimerState::Running { last_tick: now }, ..toggled }
            } else {
                toggled
            },
            TimerState::Running { last_tick } => if input.pause {
                TrackerModel { timer: TimerState::Paused, ..toggled }
            } else {
                toggled.after_tick(now, input, last_tick)
            },
        }
    }

    /// The timer with one more player at the end of the round.
    pub open spec fn with_player(self, display_name: Seq<char>, display_color: Color) -> TrackerModel {
        TrackerModel {
            players: self.players.push(
                PlayerModel {
                    display_name,
                    display_color,
                    total_time: Duration { nanos: 0 },
                    current_turn: Duration { nanos: 0 },
                    completed_turns: Seq::empty(),
                },
            ),
            ..self
        }
    }
}

impl TurnInput {
    /// The pause key went down, and no other key.
    pub open spec fn is_pause_only(self) -> bool {
        self == (TurnInput {
            toggle_time_display: false,
            toggle_detail_mode: false,
            pause: true,
            next_player: false,
        })
    }

    /// The key for the next player went down, and no other key.
    pub open spec fn is_next_player_only(self) -> bool {
        self == (TurnInput {
            toggle_time_display: false,
            toggle_detail_mode: false,
            pause: false,
            next_player: true,
        })
    }

    /// No key went down.
    pub open spec fn is_idle(self) -> bool {
        self == (TurnInput {
            toggle_time_display: false,
            toggle_detail_mode: false,
            pause: false,
            next_player: false,
        })
    }

    /// The input of a frame in which no key went down.
    pub fn idle() -> (input: TurnInput)
        ensures
            input.is_idle(),
    {
        TurnInput {
            toggle_time_display: false,
            toggle_detail_mode: false,
            pause: false,
            next_player: false,
        }
    }
}

/// The rules of the timer hold after a frame if they held before it.
pub proof fn lemma_step_wf(model: TrackerModel, now: Timestamp, input: TurnInput)
    requires
        model.wf(),
        model.can_step(now, input),
    ensures
        model.step(now, input).wf(),
{
    if let TimerState::Running { last_tick } = model.timer {
        if !input.pause && input.next_player {
            let ticked = model.players[model.cursor as int].ticked(now.since(last_tick));
            lemma_sorted_insert(ticked.completed_turns, ticked.current_turn);
        }
    }
}

/// Time that passes while the timer is paused goes to nobody.
///
/// From a running timer, a press of the pause key at `paused_at` and a second
/// one at `resumed_at` leave every player as before the first. Time runs
/// again from `resumed_at`: the next frame gives the player whose turn it is
/// the time since then, and nothing of the pause.
pub proof fn lemma_pause_attributes_no_time(
    model: TrackerModel,
    paused_at: Timestamp,
    resumed_at: Timestamp,
    next_frame: Timestamp,
    pause: TurnInput,
    idle: TurnInput,
)
    requires
        model.timer is Running,
        pause.is_pause_only(),
        idle.is_idle(),
    ensures
        model.step(paused_at, pause).timer == TimerState::Paused,
        model.step(paused_at, pause).players == model.players,
        model.step(paused_at, pause).cursor == model.cursor,
        model.step(paused_at, pause).step(resumed_at, pause).timer == (TimerState::Running {
            last_tick: resumed_at,
        }),
        model.step(paused_at, pause).step(resumed_at, pause).players == model.players,
        model.step(paused_at, pause).step(resumed_at, pause).cursor == model.cursor,
        model.step(paused_at, pause).step(resumed_at, pause).step(next_frame, idle).players
            == model.players.update(
            model.cursor as int,
            model.players[model.cursor as int].ticked(next_frame.since(resumed_at)),
        ),
{
}

/// A press for the next player ends the turn of the player who was on: the
/// running turn, with the time of this frame in it, starts over from zero. It
/// joins the completed turns if it took the threshold or longer, and is
/// dropped if it was shorter.
pub proof fn lemma_next_player_ends_turn(model: TrackerModel, now: Timestamp, input: TurnInput)
    requires
        model.timer is Running,
        model.cursor < model.players.len(),
        !input.pause,
        input.next_player,
    ensures
        ({
            let last_tick = model.timer->last_tick;
            let before = model.players[model.cursor as int];
            let after = model.step(now, input).players[model.cursor as int];
            let turn = before.ticked(now.since(last_tick)).current_turn;
            &&& after.current_turn.nanos == 0
            &&& after.total_time == before.ticked(now.since(last_tick)).total_time
            &&& turn.nanos < DONT_COUNT_TURN_THRESHOLD_NANOS ==> after.completed_turns
                == before.completed_turns
            &&& turn.nanos >= DONT_COUNT_TURN_THRESHOLD_NANOS ==> after.completed_turns
                == sorted_insert(before.completed_turns, turn)
        }),
{
}

/// While the timer is paused, a frame without the pause key changes no
/// player, whatever the clock reads.
pub proof fn lemma_paused_frame_attributes_no_time(
    model: TrackerModel,
    now: Timestamp,
    input: TurnInput,
)
    requires
        model.timer is Paused,
    ensures
        model.step(now, input).players == model.players,
        model.step(now, input).cursor == model.cursor,
{
}

/// The timer after one frame with the input `input` at each of the times
/// `times`, in their order.
pub open spec fn after_frames(model: TrackerModel, times: Seq<Timestamp>, input: TurnInput) -> TrackerModel
    decreases times.len(),
{
    if times.len() == 0 {
        model
    } else {
        after_frames(model, times.drop_last(), input).step(times.last(), input)
    }
}

/// Passing the turn on once for every player brings the turn back to the
/// player who had it: after as many frames with the key for the next player
/// as there are players, at whatever times, the cursor is where it was.
pub proof fn lemma_round_of_turns(model: TrackerModel, times: Seq<Timestamp>, input: TurnInput)
    requires
        model.timer is Running,
        model.cursor < model.players.len(),
        input.is_next_player_only(),
        times.len() == model.players.len(),
    ensures
        after_frames(model, times, input).cursor == model.cursor,
        after_frames(model, times, input).players.len() == model.players.len(),
{
    lemma_presses(model, times, input);
    crate::infinite_iterator::lemma_full_round(model.cursor, model.players.len());
}

proof fn lemma_presses(model: TrackerModel, times: Seq<Timestamp>, input: TurnInput)
    requires
        model.timer is Running,
        model.cursor < model.players.len(),
        input.is_next_player_only(),
    ensures
        after_frames(model, times, input).cursor
            == crate::infinite_iterator::index_after(
            model.cursor,
            model.players.len(),
            times.len(),
        ),
        after_frames(model, times, input).players.len() == model.players.len(),
        after_frames(model, times, input).timer is Running,
    decreases times.len(),
{
    if times.len() > 0 {
        lemma_presses(model, times.drop_last(), input);
    }
}

/// A timer for the turns of a table of players.
pub struct TurnTimeTracker {
    players: InfiniteIterator<Player>,
    timer: TimerState,
    time_display_mode: TimeDisplayMode,
    text_detail_mode: TextDetailMode,
}

impl View for TurnTimeTracker {
    type V = TrackerModel;

    closed spec fn view(&self) -> TrackerModel {
        TrackerModel {
            players: self.players.items().map_values(|player: Player| player@),
            cursor: self.players.index(),
            timer: self.timer,
            time_display_mode: self.time_display_mode,
            text_detail_mode: self.text_detail_mode,
        }
    }
}

impl Default for TurnTimeTracker {
    fn default() -> (tracker: TurnTimeTracker)
        ensures
            tracker@ == TrackerModel::initial(),
            tracker@.wf(),
    {
        TurnTimeTracker::new()
    }
}

impl TurnTimeTracker {
    /// A timer without players, paused.
    pub fn new() -> (tracker: TurnTimeTracker)
        ensures
            tracker@ == TrackerModel::initial(),
            tracker@.wf(),
    {
        let tracker = TurnTimeTracker {
            players: InfiniteIterator::new(),
            timer: TimerState::Paused,
            time_display_mode: TimeDisplayMode::Shown,
            text_detail_mode: TextDetailMode::Concise,
        };
        assert(tracker@.players =~= Seq::empty());
        tracker
    }

    /// Adds a player at the end of the round.
    pub fn add_player(&mut self, display_name: String, display_color: Color)
        requires
            old(self)@.wf(),
        ensures
            final(self)@ == old(self)@.with_player(display_name@, display_color),
            final(self)@.wf(),
    {
        let player = Player::new(display_name, display_color);
        self.players.push(player);
        assert(self@.players =~= old(self)@.players.push(player@));
    }

    /// Whether `evaluate_state` may be called for this frame.
    pub fn can_evaluate_state(&self, now: Timestamp, input: &TurnInput) -> (ok: bool)
        requires
            self@.wf(),
        ensures
            ok == self@.can_step(now, *input),
    {
        match self.timer {
            TimerState::Paused => true,
            TimerState::Running { last_tick } => {
                if input.pause {
                    true
                } else if !self.players.check_invariants() {
                    false
                } else {
                    match now.duration_since(last_tick) {
                        Some(elapsed) => {
                            let total = self.players.current().total_time();
                            total.checked_add(elapsed).is_some()
                        },
                        None => false,
                    }
                }
            },
        }
    }

    /// Steps the timer through one frame: the clock reads `now`, and `input`
    /// says which keys went down.
    pub fn evaluate_state(&mut self, now: Timestamp, input: &TurnInput)
        requires
            old(self)@.wf(),
            old(self)@.can_step(now, *input),
        ensures
            final(self)@ == old(self)@.step(now, *input),
            final(self)@.wf(),
    {
        proof {
            lemma_step_wf(old(self)@, now, *input);
        }
        // Toggle the display of times if needed
        if input.toggle_time_display {
            self.time_display_mode = match self.time_display_mode {
                TimeDisplayMode::Shown => TimeDisplayMode::Hidden,
                TimeDisplayMode::Hidden => TimeDisplayMode::Shown,
            };
        }

        // Toggle the detail of the text if needed
        if input.toggle_detail_mode {
            self.text_detail_mode = match self.text_detail_mode {
                TextDetailMode::Concise => TextDetailMode::Detailed,
                TextDetailMode::Detailed => TextDetailMode::Concise,
            };
        }

        match self.timer {
            TimerState::Paused => {
                // Check for unpause
                if input.pause {
                    self.timer = TimerState::Running { last_tick: now };
                }
            },
            TimerState::Running { last_tick } => {
                // Check for pause
                if input.pause {
                    self.timer = TimerState::Paused;
                    return ;
                }

                // Tick the current player
                let elapsed_tick_time = now.elapsed_since(last_tick);
                let ghost before = self@;
                let ghost cursor = self@.cursor as int;
                let current = self.players.current_mut();
                current.tick_frame(elapsed_tick_time);
                assert(self@.players =~= before.players.update(
                    cursor,
                    before.players[cursor].ticked(elapsed_tick_time),
                ));

                self.timer = TimerState::Running { last_tick: now };

                // Change the current player if needed. This comes after the tick, so that
                // the player who was on is given the time up to this frame.
                if input.next_player {
                    let ghost ticked = self@;
                    let current = self.players.current_mut();
                    current.end_turn();
                    assert(self@.players =~= ticked.players.update(
                        cursor,
                        ticked.players[cursor].turn_ended(),
                    ));
                    self.players.advance();
                    assert(self@.players =~= before.players.update(
                        cursor,
                        before.players[cursor].ticked(elapsed_tick_time).turn_ended(),
                    ));
                }
            },
        }
    }

    /// The time of all players taken together, in nanoseconds.
    pub fn all_total_time(&self) -> (nanos: u128)
        ensures
            nanos == total_nanos_below(self@.players, self@.players.len()),
    {
        let (players, _) = self.players.raw();
        let mut nanos: u128 = 0;
        let mut i: usize = 0;
        while i < players.len()
            invariant
                i <= players@.len(),
                players@.map_values(|player: Player| player@) == self@.players,
                nanos == total_nanos_below(self@.players, i as nat),
                nanos <= i * u64::MAX,
            decreases players@.len() - i,
        {
            assert((i + 1) * u64::MAX <= u128::MAX) by (nonlinear_arith)
                requires
                    i < usize::MAX,
                    usize::MAX <= u64::MAX,
            ;
            nanos = nanos + players[i].total_time().nanos as u128;
            i = i + 1;
        }
        nanos
    }

    /// The players in the order of their turns, and the index of the player
    /// whose turn it is.
    pub fn players(&self) -> (raw: (&Vec<Player>, usize))
        ensures
            raw.0@.map_values(|player: Player| player@) == self@.players,
            raw.1 == self@.cursor,
    {
        self.players.raw()
    }

    pub fn timer(&self) -> (timer: TimerState)
        ensures
            timer == self@.timer,
    {
        self.timer
    }

    pub fn time_display_mode(&self) -> (mode: TimeDisplayMode)
        ensures
            mode == self@.time_display_mode,
    {
        self.time_display_mode
    }

    pub fn text_detail_mode(&self) -> (mode: TextDetailMode)
        ensures
            mode == self@.text_detail_mode,
    {
        self.text_detail_mode
    }
}

} // verus!
