use macroquad::color::{BLUE, GREEN, RED};
use std::hash::Hasher;
use tabletop::animation_tickers::FrameBasedAnimationTicker;
use tabletop::button::{ButtonAction, PressState};
use tabletop::color_animation::{SmoothColorAnimation, StepColorAnimation, TransitionLength};
use tabletop::fps::FpsCounter;
use tabletop::infinite_iterator::InfiniteIterator;
use tabletop::mastermind::color::PegColor;
use tabletop::rand_seed::{
    get_last_set_rand_seed, randomize_rand_seed, set_rand_seed, RandState,
};
use tabletop::timestamp::{Duration, Timestamp};

#[test]
fn button_action_triggers_on_click_only() {
    assert!(ButtonAction::TriggerOnClick.should_trigger_action());
    assert!(!ButtonAction::NoAction.should_trigger_action());
}

#[test]
fn button_triggers_when_released_on_the_button() {
    let mut state = PressState::Unpressed;
    // a press beside the button does not take hold
    assert_eq!(state.tick_state(true, false, false), ButtonAction::NoAction);
    assert_eq!(state, PressState::Unpressed);
    assert_eq!(state.tick_state(true, true, false), ButtonAction::NoAction);
    assert_eq!(state, PressState::PressedContains);
    assert!(state.is_pressed());
    // dragged off and back on
    assert_eq!(state.tick_state(false, false, false), ButtonAction::NoAction);
    assert_eq!(state, PressState::PressedNotContains);
    assert!(!state.is_pressed());
    assert_eq!(state.tick_state(false, true, false), ButtonAction::NoAction);
    assert_eq!(state, PressState::PressedContains);
    assert_eq!(state.tick_state(false, true, true), ButtonAction::TriggerOnClick);
    assert_eq!(state, PressState::Unpressed);
}

#[test]
fn button_released_off_the_button_triggers_nothing() {
    let mut state = PressState::PressedContains;
    assert_eq!(state.tick_state(false, false, true), ButtonAction::NoAction);
    assert_eq!(state, PressState::Unpressed);
    let mut state = PressState::PressedNotContains;
    assert_eq!(state.tick_state(false, true, true), ButtonAction::TriggerOnClick);
    assert_eq!(state, PressState::Unpressed);
    // a release without a press before it is nothing
    assert_eq!(state.tick_state(false, true, true), ButtonAction::NoAction);
    assert_eq!(state, PressState::Unpressed);
}

#[test]
fn rotation_advances_and_wraps() {
    let mut rotation = InfiniteIterator::from_vec(vec!['a', 'b', 'c']);
    assert_eq!(*rotation.current(), 'a');
    rotation.advance();
    assert_eq!(*rotation.current(), 'b');
    rotation.advance();
    assert_eq!(rotation.raw(), (&vec!['a', 'b', 'c'], 2));
    rotation.advance();
    assert_eq!(*rotation.current(), 'a');
    *rotation.current_mut() = 'z';
    assert_eq!(rotation.raw(), (&vec!['z', 'b', 'c'], 0));
}

#[test]
fn rotation_starts_empty_and_grows() {
    let mut rotation: InfiniteIterator<u8> = InfiniteIterator::new();
    assert!(!rotation.check_invariants());
    assert_eq!(rotation.len(), 0);
    rotation.push(7);
    assert!(rotation.check_invariants());
    assert_eq!(*rotation.current(), 7);
    rotation.advance();
    assert_eq!(*rotation.current(), 7);
    rotation.push(8);
    rotation.advance();
    assert_eq!(*rotation.current(), 8);
    rotation.push(9);
    assert_eq!(rotation.raw(), (&vec![7, 8, 9], 1));
    rotation.increment();
    rotation.increment();
    assert_eq!(rotation.raw(), (&vec![7, 8, 9], 0));
}

#[test]
fn rotation_comes_back_after_as_many_steps_as_items() {
    for len in 1..8usize {
        for start in 0..len {
            let mut rotation = InfiniteIterator::from_vec((0..len).collect::<Vec<_>>());
            for _ in 0..start {
                rotation.advance();
            }
            for _ in 0..len {
                rotation.advance();
            }
            assert_eq!(*rotation.current(), start);
        }
    }
}

#[test]
fn frame_ticker_wraps_at_the_number_of_frames() {
    let mut ticker = FrameBasedAnimationTicker::for_num_frames(3);
    assert_eq!(ticker.frames_per_animation(), 3);
    let mut frames = vec![ticker.current_frame()];
    for _ in 0..6 {
        ticker.tick_frame();
        frames.push(ticker.current_frame());
    }
    assert_eq!(frames, vec![0, 1, 2, 0, 1, 2, 0]);
    let mut single = FrameBasedAnimationTicker::for_num_frames(1);
    single.tick_frame();
    assert_eq!(single.current_frame(), 0);
}

#[test]
fn frame_ticker_for_duration_counts_whole_frames() {
    let ticker = FrameBasedAnimationTicker::for_duration(Duration::from_millis(550), 120);
    assert_eq!(ticker.frames_per_animation(), 66);
    let ticker = FrameBasedAnimationTicker::for_duration(Duration::from_millis(80), 120);
    assert_eq!(ticker.frames_per_animation(), 9);
    let ticker = FrameBasedAnimationTicker::for_duration(Duration::from_nanos(8_333_333), 120);
    assert_eq!(ticker.frames_per_animation(), 0);
    let ticker =
        FrameBasedAnimationTicker::for_duration(Duration::from_nanos(10_000_000_000_000_001), 120);
    assert_eq!(ticker.frames_per_animation(), 1_200_000_000);
    // more frames than a frame count can hold
    let ticker = FrameBasedAnimationTicker::for_duration(Duration::from_nanos(u64::MAX), 120);
    assert_eq!(ticker.frames_per_animation(), u32::MAX);
    assert_eq!(
        TransitionLength::TimedDuration(Duration::from_millis(275))
            .into_animation_ticker()
            .frames_per_animation(),
        33
    );
    assert_eq!(
        TransitionLength::NumFrames(17).into_animation_ticker().frames_per_animation(),
        17
    );
}

#[test]
fn step_animation_shows_each_color_for_a_transition() {
    let mut animation = StepColorAnimation::new(&[RED, GREEN, BLUE], TransitionLength::NumFrames(2));
    let mut shown = vec![animation.current_color()];
    for _ in 0..7 {
        animation.tick_frame();
        shown.push(animation.current_color());
    }
    assert_eq!(shown, vec![RED, RED, GREEN, GREEN, BLUE, BLUE, RED, RED]);
}

#[test]
fn smooth_animation_leads_from_each_color_to_the_next() {
    let mut animation =
        SmoothColorAnimation::new(&[RED, GREEN, BLUE], TransitionLength::NumFrames(2));
    assert_eq!(animation.frames_per_animation(), 2);
    let mut seen = Vec::new();
    for _ in 0..7 {
        let transition = animation.current_transition();
        seen.push((transition.start, transition.end, animation.current_frame()));
        animation.tick_frame();
    }
    assert_eq!(
        seen,
        vec![
            (RED, GREEN, 0),
            (RED, GREEN, 1),
            (GREEN, BLUE, 0),
            (GREEN, BLUE, 1),
            (BLUE, RED, 0),
            (BLUE, RED, 1),
            (RED, GREEN, 0),
        ]
    );
    let single = SmoothColorAnimation::new(&[RED], TransitionLength::NumFrames(5));
    let transition = single.current_transition();
    assert_eq!((transition.start, transition.end), (RED, RED));
}

#[test]
fn seed_is_recorded_and_reproduces_the_draws() {
    let mut state = RandState::new();
    assert_eq!(get_last_set_rand_seed(&state), 0);
    set_rand_seed(&mut state, 12345);
    assert_eq!(get_last_set_rand_seed(&state), 12345);
    let palette = [
        PegColor::Red,
        PegColor::Orange,
        PegColor::Yellow,
        PegColor::Green,
        PegColor::Blue,
        PegColor::Purple,
    ];
    let first: [PegColor; 32] = PegColor::random_array(&palette);
    set_rand_seed(&mut state, 12345);
    let second: [PegColor; 32] = PegColor::random_array(&palette);
    assert_eq!(first, second);
    // with 32 draws from six colours, more than one colour comes up
    assert!(first.iter().any(|c| *c != first[0]));
}

#[test]
fn drawn_index_names_the_place_in_the_palette() {
    let palette = [
        PegColor::Red,
        PegColor::Orange,
        PegColor::Yellow,
        PegColor::Green,
        PegColor::Blue,
        PegColor::Purple,
    ];
    assert_eq!(PegColor::at_draw(&palette, 0), PegColor::Red);
    assert_eq!(PegColor::at_draw(&palette, 4), PegColor::Blue);
    assert_eq!(
        PegColor::from_draws(&palette, &[2, 0, 2, 5]),
        [PegColor::Yellow, PegColor::Red, PegColor::Yellow, PegColor::Purple]
    );
    let none: [PegColor; 0] = PegColor::from_draws(&palette, &[]);
    assert!(none.is_empty());

    // the colours drawn are those at the indices that the generator gives, in their order
    let mut state = RandState::new();
    for seed in 0..20 {
        set_rand_seed(&mut state, seed);
        let mut draws = [0usize; 8];
        for draw in draws.iter_mut() {
            *draw = macroquad::rand::gen_range(0, palette.len());
        }
        set_rand_seed(&mut state, seed);
        let colors: [PegColor; 8] = PegColor::random_array(&palette);
        assert_eq!(colors, PegColor::from_draws(&palette, &draws));
        set_rand_seed(&mut state, seed);
        assert_eq!(PegColor::random(&palette), palette[draws[0]]);
    }
}

#[test]
fn random_color_is_of_the_palette() {
    let mut state = RandState::new();
    set_rand_seed(&mut state, 99);
    let palette = [PegColor::Pink, PegColor::LightBlue, PegColor::NeonGreen];
    let mut seen = [false; 3];
    for _ in 0..200 {
        let color = PegColor::random(&palette);
        let at = palette.iter().position(|c| *c == color).unwrap();
        seen[at] = true;
    }
    assert_eq!(seen, [true; 3]);
    for _ in 0..20 {
        assert_eq!(PegColor::random(&[PegColor::Blue]), PegColor::Blue);
    }
    let none: [PegColor; 0] = PegColor::random_array(&palette);
    assert!(none.is_empty());
}

#[test]
fn time_seed_is_the_hash_of_the_whole_seconds() {
    let mut state = RandState::new();
    randomize_rand_seed(&mut state, Timestamp::from_nanos(1_700_000_000_123_456_789));
    let seed = get_last_set_rand_seed(&state);
    randomize_rand_seed(&mut state, Timestamp::from_nanos(1_700_000_000_999_999_999));
    assert_eq!(get_last_set_rand_seed(&state), seed);
    randomize_rand_seed(&mut state, Timestamp::from_nanos(1_700_000_001_000_000_000));
    assert_ne!(get_last_set_rand_seed(&state), seed);

    let mut hasher = std::collections::hash_map::DefaultHasher::new();
    hasher.write(&1_700_000_000u64.to_le_bytes());
    assert_eq!(seed, hasher.finish());

    // where the machine keeps the low byte first, that is the hash of the number itself
    if 1u64.to_ne_bytes() == 1u64.to_le_bytes() {
        let mut hasher = std::collections::hash_map::DefaultHasher::new();
        hasher.write_u64(1_700_000_000);
        assert_eq!(seed, hasher.finish());
    }
}

#[test]
fn timestamps_and_durations() {
    let early = Timestamp::from_nanos(1_500_000_000);
    let late = Timestamp::from_nanos(4_000_000_001);
    assert_eq!(late.duration_since(early), Some(Duration::from_nanos(2_500_000_001)));
    assert_eq!(early.duration_since(late), None);
    assert_eq!(early.duration_since(early), Some(Duration::zero()));
    assert_eq!(late.elapsed_since(early), Duration::from_nanos(2_500_000_001));
    assert_eq!(late.as_secs(), 4);
    assert_eq!(late.as_nanos(), 4_000_000_001);

    let d = Duration::from_millis(61_250);
    assert_eq!(d.as_nanos(), 61_250_000_000);
    assert_eq!(d.as_secs(), 61);
    assert_eq!(d.subsec_nanos(), 250_000_000);
    assert!(!d.is_zero());
    assert!(Duration::zero().is_zero());
    assert_eq!(d.checked_add(d), Some(Duration::from_millis(122_500)));
    assert_eq!(Duration::from_nanos(u64::MAX).checked_add(Duration::from_nanos(1)), None);
    assert_eq!(
        Duration::from_millis(Duration::MAX_MILLIS).as_nanos(),
        18_446_744_073_709_000_000
    );
}

#[test]
fn fps_counter_rolls_over_after_a_second() {
    let mut counter = FpsCounter::new(Timestamp::from_nanos(0));
    assert_eq!(counter.fps(), 0);
    for frame in 1..60u64 {
        let now = Timestamp::from_nanos(frame * 16_000_000);
        assert!(counter.can_tick_frame(now));
        counter.tick_frame(now);
    }
    // 59 frames in 944 ms: the period is not over
    assert_eq!(counter.fps(), 0);
    assert_eq!(counter.duration_of_last_period(), Duration::zero());
    counter.tick_frame(Timestamp::from_nanos(1_200_000_000));
    // 60 frames in 1.2 s
    assert_eq!(counter.fps(), 50);
    assert_eq!(counter.duration_of_last_period(), Duration::from_millis(1200));
    counter.tick_frame(Timestamp::from_nanos(2_200_000_000));
    assert_eq!(counter.fps(), 1);
    assert_eq!(
        counter.count_and_get(Timestamp::from_nanos(2_700_000_000)),
        (1, Duration::from_millis(1000))
    );
    assert_eq!(
        counter.count_and_get(Timestamp::from_nanos(3_700_000_000)),
        (1, Duration::from_millis(1500))
    );
    assert!(!counter.can_tick_frame(Timestamp::from_nanos(2_199_999_999)));
}
