use macroquad::color::{Color, RED, SKYBLUE, YELLOW};
use tabletop::timestamp::{Duration, Timestamp};
use tabletop::turn_time_tracker::player::Player;
use tabletop::turn_time_tracker::state::TurnTimeTrackerState;
use tabletop::turn_time_tracker::stats::PlayerTurnDurationStats;
use tabletop::turn_time_tracker::tracker::{
    TextDetailMode, TimeDisplayMode, TimerState, TurnInput, TurnTimeTracker,
};

fn secs(seconds: u64) -> Duration {
    Duration::from_nanos(seconds * 1_000_000_000)
}

fn millis(ms: u64) -> Duration {
    Duration::from_millis(ms)
}

fn at_ms(ms: u64) -> Timestamp {
    Timestamp::from_nanos(ms * 1_000_000)
}

fn stats_with_turns(turns: &[Duration]) -> PlayerTurnDurationStats {
    let mut stats = PlayerTurnDurationStats::new();
    for turn in turns {
        stats.tick_frame(*turn);
        stats.end_turn();
    }
    stats
}

fn table(names: &[(&str, Color)]) -> TurnTimeTracker {
    let mut tracker = TurnTimeTracker::new();
    for (name, color) in names {
        tracker.add_player(name.to_string(), *color);
    }
    tracker
}

fn step(tracker: &mut TurnTimeTracker, now: Timestamp, input: TurnInput) {
    assert!(tracker.can_evaluate_state(now, &input));
    tracker.evaluate_state(now, &input);
}

fn pause() -> TurnInput {
    TurnInput { pause: true, ..TurnInput::idle() }
}

fn next_player() -> TurnInput {
    TurnInput { next_player: true, ..TurnInput::idle() }
}

fn total_times(tracker: &TurnTimeTracker) -> Vec<Duration> {
    tracker.players().0.iter().map(|p| p.total_time()).collect()
}

#[test]
fn median_of_three_and_of_two_turns() {
    let stats = stats_with_turns(&[secs(10), secs(20), secs(30)]);
    assert_eq!(stats.median_turn(), Some(secs(20)));
    let stats = stats_with_turns(&[secs(10), secs(20)]);
    assert_eq!(stats.median_turn(), Some(secs(15)));
}

#[test]
fn median_does_not_depend_on_the_order_of_turns() {
    let stats = stats_with_turns(&[secs(30), secs(10), secs(20)]);
    assert_eq!(stats.median_turn(), Some(secs(20)));
    assert_eq!(stats.max_turn(), Some(secs(30)));
    assert_eq!(*stats.completed_turn_durations(), vec![secs(10), secs(20), secs(30)]);
    let stats = stats_with_turns(&[secs(7), secs(3), secs(9), secs(1)]);
    assert_eq!(stats.median_turn(), Some(secs(5)));
    assert_eq!(stats.max_turn(), Some(secs(9)));
}

#[test]
fn longest_turn_is_the_maximum_whatever_the_order() {
    for turns in [
        [secs(5), secs(9), secs(1)],
        [secs(9), secs(5), secs(1)],
        [secs(1), secs(5), secs(9)],
    ] {
        let mut stats = stats_with_turns(&turns);
        assert_eq!(stats.max_turn(), Some(secs(9)));
        stats.tick_frame(secs(4));
        assert_eq!(stats.max_turn(), Some(secs(9)));
        stats.tick_frame(secs(6));
        assert_eq!(stats.max_turn(), Some(secs(10)));
    }
}

#[test]
fn median_of_an_even_number_is_cut_to_a_nanosecond() {
    let stats = stats_with_turns(&[
        Duration::from_nanos(1_000_000_000),
        Duration::from_nanos(1_000_000_001),
    ]);
    assert_eq!(stats.median_turn(), Some(Duration::from_nanos(1_000_000_000)));
    let stats = stats_with_turns(&[Duration::from_nanos(u64::MAX), Duration::from_nanos(u64::MAX)]);
    assert_eq!(stats.median_turn(), Some(Duration::from_nanos(u64::MAX)));
}

#[test]
fn running_turn_counts_once_it_has_taken_time() {
    let mut stats = PlayerTurnDurationStats::new();
    assert_eq!(stats.num_turns(), 0);
    assert_eq!(stats.max_turn(), None);
    assert_eq!(stats.median_turn(), None);

    stats.tick_frame(millis(100));
    assert_eq!(stats.num_turns(), 1);
    assert_eq!(stats.max_turn(), Some(millis(100)));
    assert_eq!(stats.median_turn(), Some(millis(100)));

    let mut stats = stats_with_turns(&[secs(10), secs(30)]);
    stats.tick_frame(secs(20));
    assert_eq!(stats.num_turns(), 3);
    assert_eq!(stats.median_turn(), Some(secs(20)));
    assert_eq!(stats.max_turn(), Some(secs(30)));
    // the completed turns are as they were
    assert_eq!(*stats.completed_turn_durations(), vec![secs(10), secs(30)]);
    stats.tick_frame(secs(20));
    assert_eq!(stats.max_turn(), Some(secs(40)));
    assert_eq!(stats.median_turn(), Some(secs(30)));
}

#[test]
fn quick_turn_is_not_counted_but_resets_the_running_turn() {
    let mut stats = PlayerTurnDurationStats::new();
    stats.tick_frame(Duration::from_nanos(699_999_999));
    stats.end_turn();
    assert_eq!(stats.num_turns(), 0);
    assert_eq!(stats.current_turn_duration(), Duration::zero());
    assert!(stats.completed_turn_durations().is_empty());

    stats.tick_frame(millis(700));
    stats.end_turn();
    assert_eq!(stats.num_turns(), 1);
    assert_eq!(stats.current_turn_duration(), Duration::zero());
    assert_eq!(*stats.completed_turn_durations(), vec![millis(700)]);
}

#[test]
fn player_accumulates_total_and_average() {
    let mut player = Player::new("Marceline".to_string(), YELLOW);
    assert_eq!(player.display_name(), "Marceline");
    assert_eq!(player.display_color(), YELLOW);
    assert_eq!(player.total_time(), Duration::zero());
    assert_eq!(player.average_turn(), None);

    player.tick_frame(secs(3));
    player.end_turn();
    player.tick_frame(millis(100));
    player.end_turn();
    player.tick_frame(secs(4));
    assert_eq!(player.total_time(), millis(7100));
    assert_eq!(player.stats().num_turns(), 2);
    assert_eq!(player.average_turn(), Some(millis(3550)));
}

#[test]
fn new_tracker_is_paused_and_pause_key_toggles() {
    let mut tracker = table(&[("Marceline", YELLOW), ("Bonnibel", SKYBLUE)]);
    assert_eq!(tracker.timer(), TimerState::Paused);
    assert_eq!(tracker.time_display_mode(), TimeDisplayMode::Shown);
    assert_eq!(tracker.text_detail_mode(), TextDetailMode::Concise);
    assert_eq!(tracker.players().1, 0);

    step(&mut tracker, at_ms(1000), TurnInput::idle());
    assert_eq!(tracker.timer(), TimerState::Paused);
    step(&mut tracker, at_ms(2000), pause());
    assert_eq!(tracker.timer(), TimerState::Running { last_tick: at_ms(2000) });
    step(&mut tracker, at_ms(5000), pause());
    assert_eq!(tracker.timer(), TimerState::Paused);
    // the frame of the pause gives no time to anybody
    assert_eq!(total_times(&tracker), vec![Duration::zero(), Duration::zero()]);
}

#[test]
fn tick_gives_time_to_the_current_player() {
    let mut tracker = table(&[("Marceline", YELLOW), ("Bonnibel", SKYBLUE)]);
    step(&mut tracker, at_ms(0), pause());
    step(&mut tracker, at_ms(400), TurnInput::idle());
    step(&mut tracker, at_ms(1000), TurnInput::idle());
    assert_eq!(total_times(&tracker), vec![millis(1000), Duration::zero()]);
    assert_eq!(tracker.timer(), TimerState::Running { last_tick: at_ms(1000) });
    assert_eq!(tracker.players().0[0].stats().current_turn_duration(), millis(1000));
}

#[test]
fn paused_interval_is_given_to_nobody() {
    let mut tracker = table(&[("Marceline", YELLOW), ("Bonnibel", SKYBLUE)]);
    step(&mut tracker, at_ms(0), pause());
    step(&mut tracker, at_ms(1000), TurnInput::idle());
    step(&mut tracker, at_ms(1500), pause());
    step(&mut tracker, at_ms(60_000), TurnInput::idle());
    step(&mut tracker, at_ms(90_000), pause());
    assert_eq!(total_times(&tracker), vec![millis(1000), Duration::zero()]);
    step(&mut tracker, at_ms(90_250), TurnInput::idle());
    assert_eq!(total_times(&tracker), vec![millis(1250), Duration::zero()]);
}

#[test]
fn next_player_ends_the_turn_after_the_tick() {
    let mut tracker = table(&[("Marceline", YELLOW), ("Bonnibel", SKYBLUE), ("Cranberry", RED)]);
    step(&mut tracker, at_ms(0), pause());
    step(&mut tracker, at_ms(2000), next_player());
    assert_eq!(tracker.players().1, 1);
    {
        let first = &tracker.players().0[0];
        assert_eq!(first.total_time(), millis(2000));
        assert_eq!(first.stats().current_turn_duration(), Duration::zero());
        assert_eq!(*first.stats().completed_turn_durations(), vec![millis(2000)]);
    }
    // a quick press passes the turn on without counting it
    step(&mut tracker, at_ms(2300), next_player());
    assert_eq!(tracker.players().1, 2);
    {
        let second = &tracker.players().0[1];
        assert_eq!(second.total_time(), millis(300));
        assert_eq!(second.stats().current_turn_duration(), Duration::zero());
        assert!(second.stats().completed_turn_durations().is_empty());
        assert_eq!(second.stats().num_turns(), 0);
    }
    step(&mut tracker, at_ms(4000), next_player());
    assert_eq!(tracker.players().1, 0);
    assert_eq!(total_times(&tracker), vec![millis(2000), millis(300), millis(1700)]);
    assert_eq!(tracker.all_total_time(), 4_000_000_000);
    assert_eq!(TurnTimeTracker::default().all_total_time(), 0);
}

#[test]
fn cursor_returns_after_a_full_round() {
    let names = [("a", RED), ("b", RED), ("c", RED), ("d", RED), ("e", RED)];
    for start in 0..names.len() {
        let mut tracker = table(&names);
        step(&mut tracker, at_ms(0), pause());
        for k in 0..start {
            step(&mut tracker, at_ms(k as u64), next_player());
        }
        assert_eq!(tracker.players().1, start);
        for k in 0..names.len() {
            step(&mut tracker, at_ms(100 + k as u64), next_player());
        }
        assert_eq!(tracker.players().1, start);
    }
}

#[test]
fn next_player_key_does_nothing_while_paused() {
    let mut tracker = table(&[("Marceline", YELLOW), ("Bonnibel", SKYBLUE)]);
    step(&mut tracker, at_ms(1000), next_player());
    assert_eq!(tracker.players().1, 0);
    assert_eq!(tracker.timer(), TimerState::Paused);
}

#[test]
fn display_modes_toggle_in_any_timer_state() {
    let mut tracker = TurnTimeTracker::new();
    let input = TurnInput { toggle_time_display: true, toggle_detail_mode: true, ..TurnInput::idle() };
    step(&mut tracker, at_ms(0), input);
    assert_eq!(tracker.time_display_mode(), TimeDisplayMode::Hidden);
    assert_eq!(tracker.text_detail_mode(), TextDetailMode::Detailed);
    let input = TurnInput { toggle_detail_mode: true, ..TurnInput::idle() };
    step(&mut tracker, at_ms(0), input);
    assert_eq!(tracker.time_display_mode(), TimeDisplayMode::Hidden);
    assert_eq!(tracker.text_detail_mode(), TextDetailMode::Concise);
}

#[test]
fn running_frame_needs_a_player_and_a_clock_that_goes_forward() {
    let mut empty = TurnTimeTracker::new();
    step(&mut empty, at_ms(0), pause());
    assert!(!empty.can_evaluate_state(at_ms(1), &TurnInput::idle()));
    assert!(empty.can_evaluate_state(at_ms(1), &pause()));

    let mut tracker = table(&[("Marceline", YELLOW)]);
    step(&mut tracker, at_ms(100), pause());
    assert!(!tracker.can_evaluate_state(at_ms(99), &TurnInput::idle()));
    assert!(tracker.can_evaluate_state(at_ms(100), &TurnInput::idle()));
    step(&mut tracker, Timestamp::from_nanos(u64::MAX), TurnInput::idle());
    step(&mut tracker, Timestamp::from_nanos(u64::MAX), pause());
    step(&mut tracker, at_ms(0), pause());
    // the total would not fit
    assert!(!tracker.can_evaluate_state(at_ms(101), &TurnInput::idle()));
    assert!(tracker.can_evaluate_state(at_ms(100), &TurnInput::idle()));
}

fn turn_counts(tracker: &TurnTimeTrackerState) -> Vec<usize> {
    tracker.players().0.iter().map(|p| p.num_turns()).collect()
}

fn counted_times(tracker: &TurnTimeTrackerState) -> Vec<Duration> {
    tracker.players().0.iter().map(|p| p.total_time()).collect()
}

fn count_step(tracker: &mut TurnTimeTrackerState, now: Timestamp, input: TurnInput) {
    assert!(tracker.can_evaluate_state(now, &input));
    tracker.evaluate_state(now, &input);
}

#[test]
fn plain_timer_counts_turns_begun() {
    let mut tracker = TurnTimeTrackerState::default();
    tracker.add_player("Marceline".to_string(), YELLOW);
    tracker.add_player("Bonnibel".to_string(), SKYBLUE);
    assert_eq!(tracker.timer(), TimerState::Paused);
    assert_eq!(tracker.text_detail_mode(), TextDetailMode::Concise);
    assert_eq!(turn_counts(&tracker), vec![0, 0]);

    count_step(&mut tracker, at_ms(0), pause());
    // the first player was never passed the turn, and has begun one all the same
    count_step(&mut tracker, at_ms(100), TurnInput::idle());
    assert_eq!(turn_counts(&tracker), vec![1, 0]);
    assert_eq!(counted_times(&tracker), vec![millis(100), Duration::zero()]);

    // a quick press counts like any other
    count_step(&mut tracker, at_ms(150), next_player());
    assert_eq!(tracker.players().1, 1);
    assert_eq!(turn_counts(&tracker), vec![1, 1]);
    assert_eq!(counted_times(&tracker), vec![millis(150), Duration::zero()]);

    count_step(&mut tracker, at_ms(1150), next_player());
    assert_eq!(tracker.players().1, 0);
    assert_eq!(turn_counts(&tracker), vec![2, 1]);
    assert_eq!(counted_times(&tracker), vec![millis(150), millis(1000)]);

    count_step(&mut tracker, at_ms(2000), pause());
    count_step(&mut tracker, at_ms(9000), pause());
    count_step(&mut tracker, at_ms(9100), TurnInput::idle());
    assert_eq!(counted_times(&tracker), vec![millis(250), millis(1000)]);
    assert_eq!(tracker.players().0[0].display_name(), "Marceline");
    assert_eq!(tracker.players().0[1].display_color(), SKYBLUE);
}

#[test]
fn plain_timer_with_one_player_passes_the_turn_to_that_player() {
    let mut tracker = TurnTimeTrackerState::new();
    tracker.add_player("Marceline".to_string(), YELLOW);
    count_step(&mut tracker, at_ms(0), pause());
    count_step(&mut tracker, at_ms(500), next_player());
    assert_eq!(tracker.players().1, 0);
    assert_eq!(turn_counts(&tracker), vec![2]);
    let input = TurnInput { toggle_detail_mode: true, toggle_time_display: true, ..TurnInput::idle() };
    count_step(&mut tracker, at_ms(600), input);
    assert_eq!(tracker.text_detail_mode(), TextDetailMode::Detailed);

    let mut empty = TurnTimeTrackerState::new();
    count_step(&mut empty, at_ms(0), pause());
    assert!(!empty.can_evaluate_state(at_ms(1), &TurnInput::idle()));
    assert!(!tracker.can_evaluate_state(at_ms(599), &TurnInput::idle()));
}
