//! A session of the game, stepped once per frame.
//!
//! The caller polls its keyboard and mouse, says in a `FrameInput` what
//! happened since the last frame, and samples its clock once. `update` then
//! makes every decision of that frame. What a frame does to a session is
//! written down once, as `GameModel::next`, and `update` is proved against it.

use crate::mastermind::color::{all_from, PegColor, COLOR_PALETTE};
use crate::mastermind::guess::{
    convert_working_row_if_completed, evaluate_guess, is_blank, is_complete, resolved, score,
    CompleteRow, ScoredGuess, NUM_SLOTS_PER_ROW,
};
use crate::mastermind::password::{Password, PasswordSource};
use crate::rand_seed::{get_last_set_rand_seed, randomize_rand_seed, time_seed, RandState};
use crate::timestamp::{Duration, Timestamp};
use vstd::prelude::*;

verus! {

/// How many guesses a session allows.
pub const NUM_GUESSES: usize = 8;

/// How many number keys select a colour.
pub const NUM_NUMBER_KEYS: usize = 9;

/// Whether numbers are shown over the colours of the board.
#[derive(Clone, Copy, Debug, PartialEq, Eq, Structural)]
pub enum NumberOverlay {
    On,
    Off,
}

/// What the player did since the last frame.
///
/// A key counts on the frame where it went down, not while it is held. A
/// click is reported by the cell of the board under it, if any: `i` counts the
/// slots of a row from the left, `j` the rows from the password row, which
/// is row 0, down to the row of the first guess, which is row `NUM_GUESSES`.
#[derive(Clone, Copy, Debug)]
pub struct FrameInput {
    /// The pointer is somewhere else than the origin of the window.
    pub mouse_off_origin: bool,
    pub toggle_number_overlay: bool,
    pub copy_seed: bool,
    /// The number keys that went down, key 1 first.
    pub number_keys: [bool; NUM_NUMBER_KEYS],
    /// The palette swatch under a left click.
    pub left_click_peg: Option<usize>,
    /// The cell `(i, j)` of the board under a left click.
    pub left_click_slot: Option<(usize, usize)>,
    /// The cell `(i, j)` of the board under a right click.
    pub right_click_slot: Option<(usize, usize)>,
    pub submit: bool,
    pub edit_password: bool,
    pub replay_password: bool,
    pub new_password: bool,
}

/// The index of the first key below `limit` that went down.
pub open spec fn first_pressed(keys: Seq<bool>, limit: nat) -> Option<nat>
    decreases limit,
{
    if limit == 0 {
        None
    } else {
        match first_pressed(keys, (limit - 1) as nat) {
            Some(i) => Some(i),
            None => if keys[limit - 1] {
                Some((limit - 1) as nat)
            } else {
                None
            },
        }
    }
}

proof fn lemma_first_pressed_found(keys: Seq<bool>, limit: nat, i: nat)
    requires
        i < limit,
        keys[i as int],
        forall|j: int| 0 <= j < i ==> !keys[j],
    ensures
        first_pressed(keys, limit) == Some(i),
    decreases limit,
{
    lemma_first_pressed_none(keys, i);
    if limit - 1 > i {
        lemma_first_pressed_found(keys, (limit - 1) as nat, i);
    }
}

proof fn lemma_first_pressed_none(keys: Seq<bool>, limit: nat)
    requires
        forall|j: int| 0 <= j < limit ==> !keys[j],
    ensures
        first_pressed(keys, limit) == None::<nat>,
    decreases limit,
{
    if limit > 0 {
        lemma_first_pressed_none(keys, (limit - 1) as nat);
    }
}

/// How many number keys stand for a colour of the palette.
pub open spec fn num_color_keys() -> nat {
    if NUM_NUMBER_KEYS <= COLOR_PALETTE@.len() {
        NUM_NUMBER_KEYS as nat
    } else {
        COLOR_PALETTE@.len()
    }
}

impl FrameInput {
    /// The colour selected by a number key: that of the lowest key that went
    /// down, among the keys that stand for a colour of the palette.
    pub open spec fn color_from_key_press(self) -> Option<PegColor> {
        match first_pressed(self.number_keys@, num_color_keys()) {
            Some(i) => Some(COLOR_PALETTE@[i as int]),
            None => None,
        }
    }

    /// The colour selected by a click on the palette.
    pub open spec fn color_from_mouse_click(self) -> Option<PegColor> {
        match self.left_click_peg {
            Some(i) => if i < COLOR_PALETTE@.len() {
                Some(COLOR_PALETTE@[i as int])
            } else {
                None
            },
            None => None,
        }
    }

    /// The colour that the player selected this frame, if any. A number key
    /// goes before a click.
    pub open spec fn mouse_color_update(self) -> Option<PegColor> {
        match self.color_from_key_press() {
            Some(color) => Some(color),
            None => self.color_from_mouse_click(),
        }
    }

    /// The selected colour after this frame, given the one before it.
    pub open spec fn mouse_color_after(self, before: PegColor) -> PegColor {
        match self.mouse_color_update() {
            Some(color) => color,
            None => before,
        }
    }

    /// An input that reports nothing at all.
    pub open spec fn is_idle(self) -> bool {
        &&& !self.mouse_off_origin
        &&& !self.toggle_number_overlay
        &&& !self.copy_seed
        &&& forall|k: int| 0 <= k < NUM_NUMBER_KEYS ==> !(#[trigger] self.number_keys@[k])
        &&& self.left_click_peg is None
        &&& self.left_click_slot is None
        &&& self.right_click_slot is None
        &&& !self.submit
        &&& !self.edit_password
        &&& !self.replay_password
        &&& !self.new_password
    }

    /// The input of a frame in which the player did nothing.
    pub fn idle() -> (input: FrameInput)
        ensures
            input.is_idle(),
    {
        FrameInput {
            mouse_off_origin: false,
            toggle_number_overlay: false,
            copy_seed: false,
            number_keys: [false, false, false, false, false, false, false, false, false],
            left_click_peg: None,
            left_click_slot: None,
            right_click_slot: None,
            submit: false,
            edit_password: false,
            replay_password: false,
            new_password: false,
        }
    }
}

/// Where a session stands.
#[derive(Clone, Copy, Debug)]
pub enum GameState {
    /// The player is composing a guess.
    InProgress { start_time: Timestamp, working_row: [Option<PegColor>; NUM_SLOTS_PER_ROW] },
    /// The player is setting the password by hand.
    EditPassword,
    /// The last guess was the password.
    Victory { total_time: Duration },
    /// The guesses are used up.
    TooManyGuesses,
}

/// Where a session stands, with the working row as a sequence.
pub enum Phase {
    InProgress { start_time: Timestamp, working_row: Seq<Option<PegColor>> },
    EditPassword,
    Victory { total_time: Duration },
    TooManyGuesses,
}

impl View for GameState {
    type V = Phase;

    open spec fn view(&self) -> Phase {
        match *self {
            GameState::InProgress { start_time, working_row } => Phase::InProgress {
                start_time,
                working_row: working_row@,
            },
            GameState::EditPassword => Phase::EditPassword,
            GameState::Victory { total_time } => Phase::Victory { total_time },
            GameState::TooManyGuesses => Phase::TooManyGuesses,
        }
    }
}

/// A working row with every slot empty.
pub open spec fn blank_row() -> Seq<Option<PegColor>> {
    Seq::new(NUM_SLOTS_PER_ROW as nat, |i: int| None::<PegColor>)
}

/// A game that has just begun at `now`: in progress, with a blank working
/// row.
pub open spec fn fresh_game(now: Timestamp) -> Phase {
    Phase::InProgress { start_time: now, working_row: blank_row() }
}

/// Whether a click on cell `(i, j)` lands in a slot of row `row`.
pub open spec fn hits_row(cell: Option<(usize, usize)>, row: int) -> bool {
    cell matches Some((i, j)) && i < NUM_SLOTS_PER_ROW && j == row
}

/// What a session is: every value that a frame reads or changes.
pub struct GameModel {
    pub phase: Phase,
    /// The colours of the password.
    pub password: Seq<PegColor>,
    /// Where the password came from.
    pub source: PasswordSource,
    /// The guesses made so far with their scores, oldest first.
    pub history: Seq<ScoredGuess>,
    /// The colour that a click puts into a slot.
    pub mouse_color: PegColor,
    pub mouse_moved: bool,
    pub number_overlay: NumberOverlay,
    /// The seed that the generator was last given.
    pub last_set_seed: u64,
}

impl GameModel {
    /// The rules that hold of a session at the end of every frame.
    pub open spec fn wf(self) -> bool {
        &&& self.password.len() == NUM_SLOTS_PER_ROW
        &&& all_from(self.password, COLOR_PALETTE@)
        &&& COLOR_PALETTE@.contains(self.mouse_color)
        &&& self.history.len() <= NUM_GUESSES
        &&& forall|k: int|
            0 <= k < self.history.len() ==> {
                &&& (#[trigger] self.history[k]).guess.len() == NUM_SLOTS_PER_ROW
                &&& self.history[k] == score(self.history[k].guess, self.password)
            }
        &&& forall|k: int|
            0 <= k < self.history.len() - 1 ==> !(#[trigger] self.history[k]).is_full_match()
        &&& match self.phase {
            Phase::InProgress { start_time, working_row } => {
                &&& working_row.len() == NUM_SLOTS_PER_ROW
                &&& self.history.len() < NUM_GUESSES
                &&& self.history.len() > 0 ==> !self.history.last().is_full_match()
            },
            Phase::EditPassword => self.history.len() == 0,
            Phase::Victory { total_time } => {
                &&& self.history.len() > 0
                &&& self.history.last().is_full_match()
            },
            Phase::TooManyGuesses => {
                &&& self.history.len() == NUM_GUESSES
                &&& !self.history.last().is_full_match()
            },
        }
    }

    /// A session that has just begun at `now`, with `password` to find.
    pub open spec fn initial(now: Timestamp, password: Seq<PegColor>) -> GameModel {
        GameModel {
            phase: fresh_game(now),
            password,
            source: PasswordSource::Random { seed: time_seed(now) },
            history: Seq::empty(),
            mouse_color: COLOR_PALETTE@[0],
            mouse_moved: false,
            number_overlay: NumberOverlay::Off,
            last_set_seed: time_seed(now),
        }
    }

    /// The row of the board that holds the working row.
    pub open spec fn working_row_index(self) -> int {
        NUM_GUESSES - self.history.len()
    }

    /// The working row after the clicks of this frame: a left click puts the
    /// selected colour into the slot under it, then a right click empties
    /// the slot under it.
    pub open spec fn row_after_clicks(
        self,
        input: FrameInput,
        working_row: Seq<Option<PegColor>>,
    ) -> Seq<Option<PegColor>> {
        let color = input.mouse_color_after(self.mouse_color);
        let placed = if hits_row(input.left_click_slot, self.working_row_index()) {
            working_row.update(input.left_click_slot.unwrap().0 as int, Some(color))
        } else {
            working_row
        };
        if hits_row(input.right_click_slot, self.working_row_index()) {
            placed.update(input.right_click_slot.unwrap().0 as int, None)
        } else {
            placed
        }
    }

    /// The player submits a complete row this frame.
    pub open spec fn submits(self, input: FrameInput) -> bool {
        self.phase matches Phase::InProgress { start_time, working_row } && input.submit
            && is_complete(self.row_after_clicks(input, working_row))
    }

    /// The player submits the password itself this frame.
    pub open spec fn wins(self, input: FrameInput) -> bool {
        self.phase matches Phase::InProgress { start_time, working_row } && self.submits(input)
            && score(
            resolved(self.row_after_clicks(input, working_row)),
            self.password,
        ).is_full_match()
    }

    /// A frame can be stepped unless it ends in victory at a time before the
    /// session began: the time taken would then have no value.
    pub open spec fn can_step(self, now: Timestamp, input: FrameInput) -> bool {
        self.phase matches Phase::InProgress { start_time, working_row } ==> (self.wins(input)
            ==> start_time.nanos <= now.nanos)
    }

    /// A frame in which the player draws a new password.
    pub open spec fn draws_password(self, input: FrameInput) -> bool {
        (self.phase is Victory || self.phase is TooManyGuesses) && !input.replay_password
            && input.new_password
    }

    /// The seed that the player asks to copy this frame: the one that the
    /// generator was last given before the frame.
    pub open spec fn seed_to_copy(self, input: FrameInput) -> Option<u64> {
        if input.copy_seed {
            Some(self.last_set_seed)
        } else {
            None
        }
    }

    /// What a frame does whatever the session's phase.
    pub open spec fn after_common_updates(self, input: FrameInput) -> GameModel {
        GameModel {
            mouse_moved: self.mouse_moved || input.mouse_off_origin,
            number_overlay: if input.toggle_number_overlay {
                match self.number_overlay {
                    NumberOverlay::On => NumberOverlay::Off,
                    NumberOverlay::Off => NumberOverlay::On,
                }
            } else {
                self.number_overlay
            },
            ..self
        }
    }

    /// A frame while the player composes a guess.
    pub open spec fn after_in_progress(
        self,
        now: Timestamp,
        input: FrameInput,
        start_time: Timestamp,
        working_row: Seq<Option<PegColor>>,
    ) -> GameModel {
        let mouse_color = input.mouse_color_after(self.mouse_color);
        let row = self.row_after_clicks(input, working_row);
        if input.submit && is_complete(row) {
            let scored = score(resolved(row), self.password);
            let history = self.history.push(scored);
            if scored.is_full_match() {
                GameModel {
                    phase: Phase::Victory { total_time: now.since(start_time) },
                    history,
                    mouse_color,
                    ..self
                }
            } else if history.len() == NUM_GUESSES {
                GameModel { phase: Phase::TooManyGuesses, history, mouse_color, ..self }
            } else {
                GameModel {
                    phase: Phase::InProgress { start_time, working_row: blank_row() },
                    history,
                    mouse_color,
                    ..self
                }
            }
        } else if input.edit_password && self.history.len() == 0 && is_blank(row) {
            GameModel { phase: Phase::EditPassword, mouse_color, ..self }
        } else {
            GameModel {
                phase: Phase::InProgress { start_time, working_row: row },
                mouse_color,
                ..self
            }
        }
    }

    /// A frame while the player sets the password by hand: a left click on
    /// the password row puts the selected colour there, and the password is
    /// from then on the player's own. The key that opened the password
    /// closes it again: a game begins at `now` with the password as it
    /// stands. Editing asks for no new seed, so the generator is left alone.
    pub open spec fn after_edit_password(self, now: Timestamp, input: FrameInput) -> GameModel {
        let mouse_color = input.mouse_color_after(self.mouse_color);
        let edited = if hits_row(input.left_click_slot, 0) {
            GameModel {
                password: self.password.update(
                    input.left_click_slot.unwrap().0 as int,
                    mouse_color,
                ),
                source: PasswordSource::Player,
                mouse_color,
                ..self
            }
        } else {
            GameModel { mouse_color, ..self }
        };
        if input.edit_password {
            GameModel { phase: fresh_game(now), ..edited }
        } else {
            edited
        }
    }

    /// The session with a new game begun at `now`, as the player asked for
    /// one: the generator gets a new seed, the clock of the game starts, the
    /// working row is blank.
    pub open spec fn with_new_game(self, now: Timestamp) -> GameModel {
        GameModel { phase: fresh_game(now), last_set_seed: time_seed(now), ..self }
    }

    /// The session begun anew at `now` with the password that it has.
    pub open spec fn after_reset_with_same_password(self, now: Timestamp) -> GameModel {
        GameModel { history: Seq::empty(), ..self.with_new_game(now) }
    }

    /// The session begun anew at `now` with the password `drawn`.
    pub open spec fn after_reset_with_new_password(
        self,
        now: Timestamp,
        drawn: Seq<PegColor>,
    ) -> GameModel {
        GameModel {
            password: drawn,
            source: PasswordSource::Random { seed: time_seed(now) },
            ..self.after_reset_with_same_password(now)
        }
    }

    /// A frame after the game has ended, won or lost.
    pub open spec fn after_game_over(
        self,
        now: Timestamp,
        input: FrameInput,
        drawn: Seq<PegColor>,
    ) -> GameModel {
        if input.replay_password {
            self.after_reset_with_same_password(now)
        } else if input.new_password {
            self.after_reset_with_new_password(now, drawn)
        } else {
            self
        }
    }

    /// What a frame does that depends on the session's phase.
    pub open spec fn after_state_specific_updates(
        self,
        now: Timestamp,
        input: FrameInput,
        drawn: Seq<PegColor>,
    ) -> GameModel {
        match self.phase {
            Phase::InProgress { start_time, working_row } => self.after_in_progress(
                now,
                input,
                start_time,
                working_row,
            ),
            Phase::EditPassword => self.after_edit_password(now, input),
            Phase::Victory { total_time } => self.after_game_over(now, input, drawn),
            Phase::TooManyGuesses => self.after_game_over(now, input, drawn),
        }
    }

    /// The session after a frame at `now` with the input `input`. `drawn` is
    /// what the generator gives if the frame draws a new password; it is not
    /// looked at otherwise.
    pub open spec fn next(self, now: Timestamp, input: FrameInput, drawn: Seq<PegColor>) -> GameModel {
        self.after_common_updates(input).after_state_specific_updates(now, input, drawn)
    }
}

proof fn lemma_first_pressed_in_range(keys: Seq<bool>, limit: nat)
    ensures
        first_pressed(keys, limit) matches Some(i) ==> i < limit && keys[i as int],
    decreases limit,
{
    if limit > 0 {
        lemma_first_pressed_in_range(keys, (limit - 1) as nat);
    }
}

/// Whatever the player selects is a colour of the palette.
pub proof fn lemma_mouse_color_of_palette(input: FrameInput, before: PegColor)
    requires
        COLOR_PALETTE@.contains(before),
    ensures
        COLOR_PALETTE@.contains(input.mouse_color_after(before)),
{
    lemma_first_pressed_in_range(input.number_keys@, num_color_keys());
}

/// The rules of a session hold after a frame if they held before it, as
/// long as a password that the frame draws is one of the palette.
pub proof fn lemma_next_wf(model: GameModel, now: Timestamp, input: FrameInput, drawn: Seq<PegColor>)
    requires
        model.wf(),
        drawn.len() == NUM_SLOTS_PER_ROW,
        all_from(drawn, COLOR_PALETTE@),
    ensures
        model.next(now, input, drawn).wf(),
{
    lemma_mouse_color_of_palette(input, model.mouse_color);
}

/// A frame adds one guess to the history at most, and takes none away
/// unless it begins the session anew: the history after a frame is the
/// history before it, or that with the guess of this frame at its end, or
/// empty.
pub proof fn lemma_history_appends_only(
    model: GameModel,
    now: Timestamp,
    input: FrameInput,
    drawn: Seq<PegColor>,
)
    ensures
        ({
            let after = model.next(now, input, drawn);
            ||| after.history == model.history
            ||| model.submits(input) && after.history.len() == model.history.len() + 1
                && after.history.drop_last() == model.history
            ||| (model.phase is Victory || model.phase is TooManyGuesses) && after.history
                == Seq::<ScoredGuess>::empty()
        }),
{
}

/// Submitting the password itself ends the session in victory, however many
/// guesses went before, the last allowed one included. The time taken runs
/// from the start of the game to the frame of the guess.
pub proof fn lemma_full_match_is_victory(
    model: GameModel,
    now: Timestamp,
    input: FrameInput,
    drawn: Seq<PegColor>,
)
    requires
        model.wins(input),
    ensures
        model.phase matches Phase::InProgress { start_time, working_row } && model.next(
            now,
            input,
            drawn,
        ).phase == (Phase::Victory { total_time: now.since(start_time) }),
        model.next(now, input, drawn).history.len() == model.history.len() + 1,
        model.next(now, input, drawn).history.last().is_full_match(),
{
}

/// Submitting the last allowed guess without finding the password ends the
/// session with the guesses used up.
pub proof fn lemma_last_guess_without_match(
    model: GameModel,
    now: Timestamp,
    input: FrameInput,
    drawn: Seq<PegColor>,
)
    requires
        model.submits(input),
        !model.wins(input),
        model.history.len() + 1 == NUM_GUESSES,
    ensures
        model.next(now, input, drawn).phase == Phase::TooManyGuesses,
        model.next(now, input, drawn).history.len() == NUM_GUESSES,
{
}

/// The password can be opened for editing only from a game in which nothing
/// has been guessed and the working row is blank, and only by the key for it.
pub proof fn lemma_edit_password_guard(
    model: GameModel,
    now: Timestamp,
    input: FrameInput,
    drawn: Seq<PegColor>,
)
    requires
        !(model.phase is EditPassword),
        model.next(now, input, drawn).phase is EditPassword,
    ensures
        input.edit_password,
        model.history.len() == 0,
        model.phase matches Phase::InProgress { start_time, working_row } && is_blank(
            model.row_after_clicks(input, working_row),
        ),
{
}

impl FrameInput {
    /// The input of a frame in which the player pressed the key that opens
    /// the password for editing, and did nothing else.
    pub open spec fn is_edit_password_only(self) -> bool {
        &&& !self.mouse_off_origin
        &&& !self.toggle_number_overlay
        &&& !self.copy_seed
        &&& forall|k: int| 0 <= k < NUM_NUMBER_KEYS ==> !(#[trigger] self.number_keys@[k])
        &&& self.left_click_peg is None
        &&& self.left_click_slot is None
        &&& self.right_click_slot is None
        &&& !self.submit
        &&& self.edit_password
        &&& !self.replay_password
        &&& !self.new_password
    }
}

/// Closing the password after editing begins a game and touches nothing
/// else: the game is in progress from `now` with a blank working row, the
/// password and where it came from are as the editing left them, the history
/// is empty, and the generator keeps the seed that it had.
pub proof fn lemma_leaving_edit_password(
    model: GameModel,
    now: Timestamp,
    input: FrameInput,
    drawn: Seq<PegColor>,
)
    requires
        model.wf(),
        model.phase is EditPassword,
        input.is_edit_password_only(),
    ensures
        model.next(now, input, drawn) == (GameModel { phase: fresh_game(now), ..model }),
        model.next(now, input, drawn).history.len() == 0,
        model.next(now, input, drawn).last_set_seed == model.last_set_seed,
{
    lemma_first_pressed_none(input.number_keys@, num_color_keys());
}

/// Asking to edit the password in the middle of a game does nothing: with a
/// guess in the history or a colour in the working row, the session stays
/// as it is.
pub proof fn lemma_edit_password_refused(
    model: GameModel,
    now: Timestamp,
    input: FrameInput,
    drawn: Seq<PegColor>,
)
    requires
        input.is_edit_password_only(),
        model.phase matches Phase::InProgress { start_time, working_row } && (model.history.len()
            > 0 || !is_blank(working_row)),
    ensures
        model.next(now, input, drawn) == model,
{
    lemma_first_pressed_none(input.number_keys@, num_color_keys());
}

impl GameState {
    /// A game that begins at `now` with a blank working row.
    pub fn begun_at(now: Timestamp) -> (state: GameState)
        ensures
            state@ == fresh_game(now),
    {
        let working_row: [Option<PegColor>; NUM_SLOTS_PER_ROW] = [None, None, None, None];
        assert(working_row@ =~= blank_row());
        GameState::InProgress { start_time: now, working_row }
    }

    /// A game that begins at `now` because the player asked for a new one.
    /// The generator gets a fresh seed for it.
    pub fn new_game(rand_state: &mut RandState, now: Timestamp) -> (state: GameState)
        ensures
            state@ == fresh_game(now),
            final(rand_state).last_set_seed() == time_seed(now),
    {
        randomize_rand_seed(rand_state, now);
        GameState::begun_at(now)
    }
}

/// A session of the game: the password, the guesses made, and where the
/// player stands.
pub struct MastermindGame {
    state: GameState,
    password: Password,
    // oldest guess first
    history: Vec<CompleteRow>,
    mouse_color: PegColor,
    mouse_moved: bool,
    number_overlay: NumberOverlay,
    rand_state: RandState,
}

impl View for MastermindGame {
    type V = GameModel;

    closed spec fn view(&self) -> GameModel {
        GameModel {
            phase: self.state@,
            password: self.password.colors(),
            source: self.password.provenance(),
            history: self.history@.map_values(|row: CompleteRow| row@),
            mouse_color: self.mouse_color,
            mouse_moved: self.mouse_moved,
            number_overlay: self.number_overlay,
            last_set_seed: self.rand_state.last_set_seed(),
        }
    }
}

impl MastermindGame {
    /// A session that begins at `now` with a password drawn from the palette.
    pub fn new(now: Timestamp) -> (game: MastermindGame)
        ensures
            game@ == GameModel::initial(now, game@.password),
            game@.wf(),
    {
        let mut rand_state = RandState::new();
        let state = GameState::new_game(&mut rand_state, now);
        let password = Password::random(&mut rand_state, COLOR_PALETTE.as_slice(), now);
        let game = MastermindGame {
            state,
            password,
            history: Vec::with_capacity(NUM_GUESSES),
            mouse_color: COLOR_PALETTE[0],
            mouse_moved: false,
            number_overlay: NumberOverlay::Off,
            rand_state,
        };
        assert(game@.history =~= Seq::empty());
        game
    }

    fn reset_with_same_password(&mut self, now: Timestamp)
        ensures
            final(self)@ == old(self)@.after_reset_with_same_password(now),
    {
        self.state = GameState::new_game(&mut self.rand_state, now);
        self.history = Vec::with_capacity(NUM_GUESSES);
        assert(self@.history =~= Seq::empty());
    }

    fn reset_with_new_password(&mut self, now: Timestamp)
        ensures
            final(self)@ == old(self)@.after_reset_with_new_password(now, final(self)@.password),
            final(self)@.password.len() == NUM_SLOTS_PER_ROW,
            all_from(final(self)@.password, COLOR_PALETTE@),
    {
        self.reset_with_same_password(now);
        self.password = Password::random(&mut self.rand_state, COLOR_PALETTE.as_slice(), now);
    }

    /// Steps the session through one frame: the clock reads `now`, and
    /// `input` says what the player did. Returns the seed to put on the
    /// clipboard if the player asked for it.
    ///
    /// The session after the frame is `next` of the session before it. Only
    /// the colours of a password drawn in this frame are left to chance, and
    /// they are colours of the palette.
    pub fn update(&mut self, now: Timestamp, input: &FrameInput) -> (seed_to_copy: Option<u64>)
        requires
            old(self)@.wf(),
            old(self)@.can_step(now, *input),
        ensures
            final(self)@ == old(self)@.next(now, *input, final(self)@.password),
            final(self)@.wf(),
            seed_to_copy == old(self)@.seed_to_copy(*input),
    {
        if !self.mouse_moved && input.mouse_off_origin {
            self.mouse_moved = true;
        }
        if input.toggle_number_overlay {
            self.number_overlay = match self.number_overlay {
                NumberOverlay::On => NumberOverlay::Off,
                NumberOverlay::Off => NumberOverlay::On,
            };
        }
        let seed_to_copy = if input.copy_seed {
            Some(get_last_set_rand_seed(&self.rand_state))
        } else {
            None
        };
        self.apply_state_specific_updates(now, input);
        proof {
            lemma_next_wf(old(self)@, now, *input, self@.password);
        }
        seed_to_copy
    }

    /// Whether `update` may be called for this frame: it may not where the
    /// frame would end in victory at a time before the game began.
    pub fn can_update(&self, now: Timestamp, input: &FrameInput) -> (ok: bool)
        requires
            self@.wf(),
        ensures
            ok == self@.can_step(now, *input),
    {
        match self.state {
            GameState::InProgress { start_time, working_row } => {
                let color = match Self::get_mouse_color_update(input) {
                    Some(new_color) => new_color,
                    None => self.mouse_color,
                };
                let row = self.working_row_after_clicks(input, color, working_row);
                if input.submit {
                    match convert_working_row_if_completed(&row) {
                        Some(guess) => {
                            let complete_row = evaluate_guess(guess, *self.password.password());
                            if complete_row.num_correct_hits == NUM_SLOTS_PER_ROW {
                                start_time.nanos <= now.nanos
                            } else {
                                true
                            }
                        },
                        None => true,
                    }
                } else {
                    true
                }
            },
            _ => true,
        }
    }

    fn working_row_after_clicks(
        &self,
        input: &FrameInput,
        color: PegColor,
        working_row: [Option<PegColor>; NUM_SLOTS_PER_ROW],
    ) -> (row: [Option<PegColor>; NUM_SLOTS_PER_ROW])
        requires
            self@.history.len() <= NUM_GUESSES,
            color == input.mouse_color_after(self@.mouse_color),
        ensures
            row@ == self@.row_after_clicks(*input, working_row@),
    {
        let mut row = working_row;
        // Put the selected colour into the slot under a left click
        if let Some((i, j)) = input.left_click_slot {
            if i < NUM_SLOTS_PER_ROW && j == NUM_GUESSES - self.history.len() {
                row[i] = Some(color);
            }
        }
        // Empty the slot under a right click
        if let Some((i, j)) = input.right_click_slot {
            if i < NUM_SLOTS_PER_ROW && j == NUM_GUESSES - self.history.len() {
                row[i] = None;
            }
        }
        row
    }

    fn apply_state_specific_updates(&mut self, now: Timestamp, input: &FrameInput)
        requires
            old(self)@.wf(),
            old(self)@.can_step(now, *input),
        ensures
            final(self)@ == old(self)@.after_state_specific_updates(
                now,
                *input,
                final(self)@.password,
            ),
            final(self)@.password.len() == NUM_SLOTS_PER_ROW,
            all_from(final(self)@.password, COLOR_PALETTE@),
    {
        proof {
            lemma_mouse_color_of_palette(*input, old(self)@.mouse_color);
        }
        match self.state {
            GameState::InProgress { start_time, working_row } => {
                // Update the selected colour if needed
                let color = match Self::get_mouse_color_update(input) {
                    Some(new_color) => new_color,
                    None => self.mouse_color,
                };
                let mut working_row = self.working_row_after_clicks(input, color, working_row);
                self.mouse_color = color;

                // Apply the guess if needed
                if input.submit {
                    if let Some(guess) = convert_working_row_if_completed(&working_row) {
                        let complete_row = evaluate_guess(guess, *self.password.password());
                        self.history.push(complete_row);
                        assert(self@.history =~= old(self)@.history.push(complete_row@));

                        if complete_row.num_correct_hits == NUM_SLOTS_PER_ROW {
                            let total_time = now.elapsed_since(start_time);
                            self.state = GameState::Victory { total_time };
                            return ;
                        }
                        if self.history.len() == NUM_GUESSES {
                            self.state = GameState::TooManyGuesses;
                            return ;
                        }
                        working_row = [None, None, None, None];
                        assert(working_row@ =~= blank_row());
                    }
                }

                // Change to editing the password if needed
                if input.edit_password && self.history.len() == 0 && Self::row_is_blank(
                    &working_row,
                ) {
                    self.state = GameState::EditPassword;
                } else {
                    self.state = GameState::InProgress { start_time, working_row };
                }
            },
            GameState::EditPassword => {
                // Update the selected colour if needed
                if let Some(new_color) = Self::get_mouse_color_update(input) {
                    self.mouse_color = new_color;
                }

                // Set a colour of the password if needed
                if let Some((i, j)) = input.left_click_slot {
                    if i < NUM_SLOTS_PER_ROW && j == 0 {
                        let mut password = *self.password.password();
                        password[i] = self.mouse_color;
                        self.password = Password::player_specified(password);
                    }
                }

                // Change to a game in progress if needed. Nobody asked for a new seed.
                if input.edit_password {
                    self.state = GameState::begun_at(now);
                }
            },
            GameState::TooManyGuesses => {
                if input.replay_password {
                    self.reset_with_same_password(now);
                } else if input.new_password {
                    self.reset_with_new_password(now);
                }
            },
            GameState::Victory { total_time } => {
                if input.replay_password {
                    self.reset_with_same_password(now);
                } else if input.new_password {
                    self.reset_with_new_password(now);
                }
            },
        }
    }

    fn row_is_blank(working_row: &[Option<PegColor>; NUM_SLOTS_PER_ROW]) -> (blank: bool)
        ensures
            blank == is_blank(working_row@),
    {
        let mut i: usize = 0;
        while i < NUM_SLOTS_PER_ROW
            invariant
                i <= NUM_SLOTS_PER_ROW,
                working_row@.len() == NUM_SLOTS_PER_ROW,
                forall|k: int| 0 <= k < i ==> (#[trigger] working_row@[k]) is None,
            decreases NUM_SLOTS_PER_ROW - i,
        {
            if working_row[i].is_some() {
                return false;
            }
            i = i + 1;
        }
        true
    }

    /// The colour that the player selected this frame, if any.
    pub fn get_mouse_color_update(input: &FrameInput) -> (color: Option<PegColor>)
        ensures
            color == input.mouse_color_update(),
    {
        if let Some(color) = Self::get_color_from_key_press(input) {
            return Some(color);
        }
        Self::get_color_from_mouse_click(input)
    }

    /// The colour selected by a number key: key 1 stands for the first
    /// colour of the palette, and the lowest key that went down decides.
    pub fn get_color_from_key_press(input: &FrameInput) -> (color: Option<PegColor>)
        ensures
            color == input.color_from_key_press(),
    {
        let mut i: usize = 0;
        loop
            invariant
                i <= num_color_keys(),
                input.number_keys@.len() == NUM_NUMBER_KEYS,
                forall|k: int| 0 <= k < i ==> !input.number_keys@[k],
            decreases num_color_keys() - i,
        {
            if i >= NUM_NUMBER_KEYS || i >= COLOR_PALETTE.len() {
                proof {
                    lemma_first_pressed_none(input.number_keys@, num_color_keys());
                }
                return None;
            }
            if input.number_keys[i] {
                proof {
                    lemma_first_pressed_found(input.number_keys@, num_color_keys(), i as nat);
                }
                return Some(COLOR_PALETTE[i]);
            }
            i = i + 1;
        }
    }

    /// The colour selected by a click on the palette.
    pub fn get_color_from_mouse_click(input: &FrameInput) -> (color: Option<PegColor>)
        ensures
            color == input.color_from_mouse_click(),
    {
        if let Some(peg_i) = input.left_click_peg {
            if peg_i < COLOR_PALETTE.len() {
                return Some(COLOR_PALETTE[peg_i]);
            }
        }
        None
    }

    pub fn state(&self) -> (state: GameState)
        ensures
            state@ == self@.phase,
    {
        self.state
    }

    pub fn password(&self) -> (password: Password)
        ensures
            password.colors() == self@.password,
            password.provenance() == self@.source,
    {
        self.password
    }

    /// The guesses made so far with their scores, oldest first.
    pub fn history(&self) -> (history: &Vec<CompleteRow>)
        ensures
            history@.map_values(|row: CompleteRow| row@) == self@.history,
    {
        &self.history
    }

    pub fn mouse_color(&self) -> (color: PegColor)
        ensures
            color == self@.mouse_color,
    {
        self.mouse_color
    }

    pub fn mouse_moved(&self) -> (moved: bool)
        ensures
            moved == self@.mouse_moved,
    {
        self.mouse_moved
    }

    pub fn number_overlay(&self) -> (overlay: NumberOverlay)
        ensures
            overlay == self@.number_overlay,
    {
        self.number_overlay
    }

    /// The seed that the generator was last given.
    pub fn last_set_seed(&self) -> (seed: u64)
        ensures
            seed == self@.last_set_seed,
    {
        get_last_set_rand_seed(&self.rand_state)
    }
}

} // verus!
