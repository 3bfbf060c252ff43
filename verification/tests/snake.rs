use tabletop::snake::{
    can_evaluate_game, evaluate_game, fruit_at, get_dir_key_down, Direction, SnakeGameState,
    SnakeInput, INITIAL_MOVEMENT_TICK_SPEED_NANOS, SQUARES,
};
use tabletop::rand_seed::{set_rand_seed, RandState};
use tabletop::timestamp::{Duration, Timestamp};

fn keys() -> SnakeInput {
    SnakeInput { restart: false, right: false, left: false, up: false, down: false }
}

fn at_ms(ms: u64) -> Timestamp {
    Timestamp::from_nanos(ms * 1_000_000)
}

fn step(state: &mut SnakeGameState, now: Timestamp, input: SnakeInput) {
    assert!(can_evaluate_game(state, now, &input));
    evaluate_game(state, now, &input);
}

/// A game begun at time 0 with a fruit that is not in the top row and not in
/// the left column.
fn game_with_fruit_out_of_the_way() -> SnakeGameState {
    let mut rand_state = RandState::new();
    for seed in 0..1000 {
        set_rand_seed(&mut rand_state, seed);
        let state = SnakeGameState::new(at_ms(0));
        if state.fruit().0 > 0 && state.fruit().1 > 0 {
            return state;
        }
    }
    panic!("no seed puts the fruit out of the way");
}

#[test]
fn fruit_lies_at_the_column_drawn_first_and_the_row_drawn_second() {
    assert_eq!(fruit_at(3, 12), (3, 12));
    assert_eq!(fruit_at(15, 0), (15, 0));
    let mut rand_state = RandState::new();
    for seed in 0..20 {
        set_rand_seed(&mut rand_state, seed);
        let column: usize = macroquad::rand::gen_range(0, SQUARES as usize);
        let row: usize = macroquad::rand::gen_range(0, SQUARES as usize);
        set_rand_seed(&mut rand_state, seed);
        let state = SnakeGameState::new(at_ms(0));
        assert_eq!(state.fruit(), fruit_at(column, row));
    }
}

#[test]
fn direction_keys_have_an_order() {
    assert_eq!(get_dir_key_down(&keys()), None);
    let all = SnakeInput { restart: false, right: true, left: true, up: true, down: true };
    assert_eq!(get_dir_key_down(&all), Some(Direction::Right));
    assert_eq!(get_dir_key_down(&SnakeInput { right: false, ..all }), Some(Direction::Left));
    assert_eq!(
        get_dir_key_down(&SnakeInput { right: false, left: false, ..all }),
        Some(Direction::Up)
    );
    assert_eq!(
        get_dir_key_down(&SnakeInput { down: true, ..keys() }),
        Some(Direction::Down)
    );
}

#[test]
fn new_game_has_head_in_the_corner_and_fruit_on_the_grid() {
    for ms in 0..50 {
        let state = SnakeGameState::new(at_ms(ms));
        assert_eq!(state.head(), (0, 0));
        assert!(state.body().is_empty());
        assert_eq!(state.score(), 0);
        assert!(!state.game_over());
        assert_eq!(
            state.movement_tick_speed(),
            Duration::from_nanos(INITIAL_MOVEMENT_TICK_SPEED_NANOS)
        );
        let (x, y) = state.fruit();
        assert!((0..SQUARES).contains(&x) && (0..SQUARES).contains(&y));
    }
}

#[test]
fn snake_moves_only_when_its_time_has_come() {
    let mut state = game_with_fruit_out_of_the_way();
    step(&mut state, at_ms(200), keys());
    assert_eq!(state.head(), (0, 0));
    step(&mut state, at_ms(201), keys());
    assert_eq!(state.head(), (1, 0));
    assert!(state.body().is_empty());
    step(&mut state, at_ms(401), keys());
    assert_eq!(state.head(), (1, 0));
    step(&mut state, at_ms(402), keys());
    assert_eq!(state.head(), (2, 0));
}

#[test]
fn snake_does_not_turn_back_on_itself() {
    let mut state = game_with_fruit_out_of_the_way();
    step(&mut state, at_ms(201), SnakeInput { left: true, ..keys() });
    assert_eq!(state.head(), (1, 0));
    assert!(!state.game_over());
}

#[test]
fn leaving_the_grid_ends_the_game_and_restart_begins_anew() {
    let mut state = game_with_fruit_out_of_the_way();
    step(&mut state, at_ms(201), SnakeInput { up: true, ..keys() });
    assert_eq!(state.head(), (0, -1));
    assert!(state.game_over());
    // nothing moves once the game is over, whatever the clock reads
    step(&mut state, at_ms(100), SnakeInput { down: true, ..keys() });
    assert_eq!(state.head(), (0, -1));
    step(&mut state, at_ms(5000), SnakeInput { restart: true, ..keys() });
    assert!(!state.game_over());
    assert_eq!(state.head(), (0, 0));
    step(&mut state, at_ms(5200), keys());
    assert_eq!(state.head(), (0, 0));
    step(&mut state, at_ms(5201), keys());
    assert_eq!(state.head(), (1, 0));
}

#[test]
fn key_in_the_frame_of_a_move_steers_that_move() {
    let mut state = game_with_fruit_out_of_the_way();
    step(&mut state, at_ms(100), SnakeInput { down: true, ..keys() });
    assert_eq!(state.head(), (0, 0));
    // the next move is chosen; a second key is kept for the move after it
    step(&mut state, at_ms(150), SnakeInput { right: true, ..keys() });
    let fruit = state.fruit();
    step(&mut state, at_ms(201), keys());
    assert_eq!(state.head(), (0, 1));
    if fruit != (0, 1) {
        step(&mut state, at_ms(402), keys());
        assert_eq!(state.head(), (1, 1));
    }
}

#[test]
fn eating_the_fruit_grows_the_snake_and_speeds_it_up() {
    let mut state = game_with_fruit_out_of_the_way();
    let (fx, fy) = state.fruit();
    let mut now = 0;
    // along the top row to the column of the fruit, then down to it
    for _ in 0..fx {
        now += 201;
        step(&mut state, at_ms(now), keys());
    }
    assert_eq!(state.head(), (fx, 0));
    for _ in 0..fy {
        now += 201;
        step(&mut state, at_ms(now), SnakeInput { down: true, ..keys() });
    }
    assert_eq!(state.head(), (fx, fy));
    assert_eq!(state.score(), 100);
    assert_eq!(state.body().len(), 1);
    assert_eq!(state.body()[0], (fx, fy - 1));
    assert_eq!(state.movement_tick_speed(), Duration::from_nanos(180_000_000));
    assert!(!state.game_over());
    let (x, y) = state.fruit();
    assert!((0..SQUARES).contains(&x) && (0..SQUARES).contains(&y));

    // the snake is faster now
    let before = state.head();
    step(&mut state, at_ms(now + 181), keys());
    assert_ne!(state.head(), before);
    assert_eq!(state.body()[0], before);
}

#[test]
fn clock_that_goes_backwards_cannot_be_stepped() {
    let mut state = game_with_fruit_out_of_the_way();
    step(&mut state, at_ms(201), keys());
    assert!(!can_evaluate_game(&state, at_ms(200), &keys()));
    assert!(can_evaluate_game(&state, at_ms(201), &keys()));
}
