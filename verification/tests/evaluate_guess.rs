use tabletop::mastermind::color::PegColor;
use tabletop::mastermind::guess::{
    convert_working_row_if_completed, evaluate_guess, NUM_SLOTS_PER_ROW,
};

// Short names to keep the table of cases readable
#[derive(Debug)]
struct EvaluateGuessTestCase {
    // inputs
    pword: [PegColor; NUM_SLOTS_PER_ROW],
    guess: [PegColor; NUM_SLOTS_PER_ROW],
    // (expected correct, expected misplaced)
    pins: (usize, usize),
}

fn evaluate_guess_test_cases() -> Vec<EvaluateGuessTestCase> {
    let a = PegColor::Red;
    let b = PegColor::Orange;
    let c = PegColor::Yellow;
    let d = PegColor::Green;

    vec![
        EvaluateGuessTestCase {
            pword: [a, a, a, a],
            guess: [a, a, a, a],
            pins: (4, 0),
        },
        EvaluateGuessTestCase {
            pword: [a, a, a, a],
            guess: [a, a, a, b],
            pins: (3, 0),
        },
        EvaluateGuessTestCase {
            pword: [a, a, a, a],
            guess: [a, b, b, b],
            pins: (1, 0),
        },
        EvaluateGuessTestCase {
            pword: [a, b, c, d],
            guess: [a, b, b, b],
            pins: (2, 0),
        },
        EvaluateGuessTestCase {
            pword: [a, b, c, d],
            guess: [a, c, a, b],
            pins: (1, 2),
        },
        EvaluateGuessTestCase {
            pword: [a, b, c, d],
            guess: [d, c, a, b],
            pins: (0, 4),
        },
        EvaluateGuessTestCase {
            pword: [a, b, a, b],
            guess: [a, b, c, d],
            pins: (2, 0),
        },
    ]
}

fn check_evaluate_guess_cases() {
    for tc in evaluate_guess_test_cases() {
        let actual = evaluate_guess(tc.guess, tc.pword);
        let (expected_correct_hits, expected_misplaced_hits) = tc.pins;
        assert_eq!(
            actual.num_correct_hits, expected_correct_hits,
            "(Correct hits, phase1) {:?}",
            tc
        );
        assert_eq!(
            actual.num_misplaced_hits, expected_misplaced_hits,
            "(Misplaced hits, phase1) {:?}",
            tc
        );

        // The score does not depend on which row is on the left, so swap them
        let actual = evaluate_guess(tc.pword, tc.guess);
        let (expected_correct_hits, expected_misplaced_hits) = tc.pins;
        assert_eq!(
            actual.num_correct_hits, expected_correct_hits,
            "(Correct hits, phase2) {:?}",
            tc
        );
        assert_eq!(
            actual.num_misplaced_hits, expected_misplaced_hits,
            "(Misplaced hits, phase2) {:?}",
            tc
        );
    }
}

#[test]
fn lib_test_evaluate_guess() {
    check_evaluate_guess_cases();
}

#[test]
fn mastermind_test_evaluate_guess() {
    for tc in evaluate_guess_test_cases() {
        let actual = evaluate_guess(tc.guess, tc.pword);
        let (expected_correct_hits, expected_misplaced_hits) = tc.pins;
        assert_eq!(
            actual.num_correct_hits, expected_correct_hits,
            "(Correct hits, phase1) {:?}",
            tc
        );
        assert_eq!(
            actual.num_misplaced_hits, expected_misplaced_hits,
            "(Misplaced hits, phase1) {:?}",
            tc
        );

        // The score does not depend on which row is on the left, so swap them
        let actual = evaluate_guess(tc.pword, tc.guess);
        let (expected_correct_hits, expected_misplaced_hits) = tc.pins;
        assert_eq!(
            actual.num_correct_hits, expected_correct_hits,
            "(Correct hits, phase2) {:?}",
            tc
        );
        assert_eq!(
            actual.num_misplaced_hits, expected_misplaced_hits,
            "(Misplaced hits, phase2) {:?}",
            tc
        );
    }
}

#[test]
fn repeated_color_scores_no_more_than_the_secret_holds() {
    let r = PegColor::Red;
    let o = PegColor::Orange;
    let row = evaluate_guess([r, r, r, o], [r, r, r, r]);
    assert_eq!((row.num_correct_hits, row.num_misplaced_hits), (3, 0));
    assert_eq!(row.guess, [r, r, r, o]);

    // two reds guessed in wrong places, one red left in the secret
    let row = evaluate_guess([r, r, o, o], [o, o, r, PegColor::Blue]);
    assert_eq!((row.num_correct_hits, row.num_misplaced_hits), (0, 3));
}

#[test]
fn all_colors_right_in_wrong_places() {
    let (r, o, y, g) = (
        PegColor::Red,
        PegColor::Orange,
        PegColor::Yellow,
        PegColor::Green,
    );
    let row = evaluate_guess([g, y, r, o], [r, o, y, g]);
    assert_eq!((row.num_correct_hits, row.num_misplaced_hits), (0, 4));
}

#[test]
fn colors_outside_the_palette_are_scored_too() {
    let (p, l, n) = (PegColor::Pink, PegColor::LightBlue, PegColor::NeonGreen);
    let row = evaluate_guess([p, l, n, p], [l, p, n, PegColor::Purple]);
    assert_eq!((row.num_correct_hits, row.num_misplaced_hits), (1, 2));
}

fn all_colors() -> [PegColor; 9] {
    [
        PegColor::Red,
        PegColor::Orange,
        PegColor::Yellow,
        PegColor::Green,
        PegColor::Blue,
        PegColor::Purple,
        PegColor::Pink,
        PegColor::LightBlue,
        PegColor::NeonGreen,
    ]
}

fn row_number(mut n: usize) -> [PegColor; NUM_SLOTS_PER_ROW] {
    let colors = all_colors();
    let mut row = [PegColor::Red; NUM_SLOTS_PER_ROW];
    for slot in row.iter_mut() {
        *slot = colors[n % 3];
        n /= 3;
    }
    row
}

#[test]
fn score_is_symmetric_and_bounded_over_three_colors() {
    for g in 0..81 {
        for s in 0..81 {
            let guess = row_number(g);
            let secret = row_number(s);
            let one = evaluate_guess(guess, secret);
            let other = evaluate_guess(secret, guess);
            assert_eq!(one.num_correct_hits, other.num_correct_hits);
            assert_eq!(one.num_misplaced_hits, other.num_misplaced_hits);
            assert!(one.num_correct_hits <= NUM_SLOTS_PER_ROW);
            assert!(one.num_correct_hits + one.num_misplaced_hits <= NUM_SLOTS_PER_ROW);
            assert_eq!(one.num_correct_hits == NUM_SLOTS_PER_ROW, guess == secret);
        }
    }
}

#[test]
fn the_secret_itself_scores_full() {
    for s in 0..81 {
        let secret = row_number(s);
        let row = evaluate_guess(secret, secret);
        assert_eq!(row.num_correct_hits, NUM_SLOTS_PER_ROW);
        assert_eq!(row.num_misplaced_hits, 0);
    }
}

#[test]
fn color_index_counts_from_red() {
    for (i, color) in all_colors().iter().enumerate() {
        assert_eq!(color.index(), i);
    }
}

#[test]
fn working_row_converts_only_when_complete() {
    let r = Some(PegColor::Red);
    let b = Some(PegColor::Blue);
    assert_eq!(convert_working_row_if_completed(&[None, None, None, None]), None);
    assert_eq!(convert_working_row_if_completed(&[r, b, None, r]), None);
    assert_eq!(convert_working_row_if_completed(&[r, b, b, None]), None);
    assert_eq!(
        convert_working_row_if_completed(&[r, b, b, r]),
        Some([PegColor::Red, PegColor::Blue, PegColor::Blue, PegColor::Red])
    );
}
