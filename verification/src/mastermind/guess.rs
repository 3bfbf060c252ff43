//! Scoring a guess against the secret.
//!
//! A position where guess and secret agree is a correct hit. Among the other
//! positions, each colour gives as many misplaced hits as it has occurrences
//! on both sides: the smaller of its two counts. A colour that the guess
//! repeats can therefore never score more than the secret still holds of it.

use crate::mastermind::color::{PegColor, NUM_COLORS};
use vstd::multiset::Multiset;
use vstd::prelude::*;

verus! {

/// How many pegs a code has.
pub const NUM_SLOTS_PER_ROW: usize = 4;

/// The number of positions below `n` where `a` and `b` hold the same colour.
pub open spec fn correct_hits_below(a: Seq<PegColor>, b: Seq<PegColor>, n: nat) -> nat
    decreases n,
{
    if n == 0 {
        0
    } else {
        correct_hits_below(a, b, (n - 1) as nat) + if a[n - 1] == b[n - 1] {
            1nat
        } else {
            0nat
        }
    }
}

/// The number of positions below `n` where `a` holds `color` and `b` holds
/// another colour.
pub open spec fn unmatched_below(a: Seq<PegColor>, b: Seq<PegColor>, color: PegColor, n: nat) -> nat
    decreases n,
{
    if n == 0 {
        0
    } else {
        unmatched_below(a, b, color, (n - 1) as nat) + if a[n - 1] != b[n - 1] && a[n - 1]
            == color {
            1nat
        } else {
            0nat
        }
    }
}

pub open spec fn min_nat(x: nat, y: nat) -> nat {
    if x <= y {
        x
    } else {
        y
    }
}

/// The misplaced hits that one colour gives.
pub open spec fn misplaced_hits_of(guess: Seq<PegColor>, password: Seq<PegColor>, color: PegColor) -> nat {
    min_nat(
        unmatched_below(guess, password, color, guess.len()),
        unmatched_below(password, guess, color, password.len()),
    )
}

/// The misplaced hits that the first `k` colours give together.
pub open spec fn misplaced_hits_below(guess: Seq<PegColor>, password: Seq<PegColor>, k: nat) -> nat
    decreases k,
{
    if k == 0 {
        0
    } else {
        misplaced_hits_below(guess, password, (k - 1) as nat) + misplaced_hits_of(
            guess,
            password,
            PegColor::from_ordinal((k - 1) as nat),
        )
    }
}

/// The number of positions where guess and secret hold the same colour.
pub open spec fn correct_hits(guess: Seq<PegColor>, password: Seq<PegColor>) -> nat {
    correct_hits_below(guess, password, guess.len())
}

/// The number of pegs of the guess that are of a right colour in a wrong
/// place, each peg of the secret answering for one peg of the guess at most.
pub open spec fn misplaced_hits(guess: Seq<PegColor>, password: Seq<PegColor>) -> nat {
    misplaced_hits_below(guess, password, NUM_COLORS as nat)
}

/// What a scored guess is: its colours and its two counts.
pub struct ScoredGuess {
    pub guess: Seq<PegColor>,
    pub correct_hits: nat,
    pub misplaced_hits: nat,
}

impl ScoredGuess {
    /// Every peg of the guess is right.
    pub open spec fn is_full_match(self) -> bool {
        self.correct_hits == self.guess.len()
    }
}

/// The score that `guess` earns against `password`.
pub open spec fn score(guess: Seq<PegColor>, password: Seq<PegColor>) -> ScoredGuess {
    ScoredGuess {
        guess,
        correct_hits: correct_hits(guess, password),
        misplaced_hits: misplaced_hits(guess, password),
    }
}

/// A guess together with its score.
#[derive(Clone, Copy, Debug, PartialEq, Eq)]
pub struct CompleteRow {
    pub guess: [PegColor; NUM_SLOTS_PER_ROW],
    pub num_correct_hits: usize,
    pub num_misplaced_hits: usize,
}

impl View for CompleteRow {
    type V = ScoredGuess;

    open spec fn view(&self) -> ScoredGuess {
        ScoredGuess {
            guess: self.guess@,
            correct_hits: self.num_correct_hits as nat,
            misplaced_hits: self.num_misplaced_hits as nat,
        }
    }
}

/// The colours of `a` that stand where `b` holds another colour, taken over
/// the first `k` colours, number as many as their positions below `n`.
pub open spec fn unmatched_sum_below(a: Seq<PegColor>, b: Seq<PegColor>, k: nat, n: nat) -> nat
    decreases k,
{
    if k == 0 {
        0
    } else {
        unmatched_sum_below(a, b, (k - 1) as nat, n) + unmatched_below(
            a,
            b,
            PegColor::from_ordinal((k - 1) as nat),
            n,
        )
    }
}

/// Every position below `n` is either a correct hit or unmatched in exactly
/// one colour.
pub proof fn lemma_unmatched_sum(a: Seq<PegColor>, b: Seq<PegColor>, n: nat)
    ensures
        unmatched_sum_below(a, b, NUM_COLORS as nat, n) + correct_hits_below(a, b, n) == n,
    decreases n,
{
    reveal_with_fuel(unmatched_sum_below, 10);
    if n > 0 {
        lemma_unmatched_sum(a, b, (n - 1) as nat);
    }
}

proof fn lemma_misplaced_below_unmatched(guess: Seq<PegColor>, password: Seq<PegColor>, k: nat)
    ensures
        misplaced_hits_below(guess, password, k) <= unmatched_sum_below(
            guess,
            password,
            k,
            guess.len(),
        ),
    decreases k,
{
    if k > 0 {
        lemma_misplaced_below_unmatched(guess, password, (k - 1) as nat);
    }
}

proof fn lemma_correct_hits_symmetric(a: Seq<PegColor>, b: Seq<PegColor>, n: nat)
    ensures
        correct_hits_below(a, b, n) == correct_hits_below(b, a, n),
    decreases n,
{
    if n > 0 {
        lemma_correct_hits_symmetric(a, b, (n - 1) as nat);
    }
}

proof fn lemma_misplaced_hits_symmetric(a: Seq<PegColor>, b: Seq<PegColor>, k: nat)
    ensures
        misplaced_hits_below(a, b, k) == misplaced_hits_below(b, a, k),
    decreases k,
{
    if k > 0 {
        lemma_misplaced_hits_symmetric(a, b, (k - 1) as nat);
    }
}

proof fn lemma_equal_rows(a: Seq<PegColor>, color: PegColor, n: nat)
    ensures
        correct_hits_below(a, a, n) == n,
        unmatched_below(a, a, color, n) == 0,
    decreases n,
{
    if n > 0 {
        lemma_equal_rows(a, color, (n - 1) as nat);
    }
}

proof fn lemma_equal_rows_misplaced(a: Seq<PegColor>, k: nat)
    ensures
        misplaced_hits_below(a, a, k) == 0,
    decreases k,
{
    if k > 0 {
        lemma_equal_rows_misplaced(a, (k - 1) as nat);
        lemma_equal_rows(a, PegColor::from_ordinal((k - 1) as nat), a.len());
    }
}

/// Scoring does not depend on which of the two rows is called the guess:
/// swapping guess and secret leaves both counts as they were.
pub proof fn lemma_score_symmetric(guess: Seq<PegColor>, password: Seq<PegColor>)
    requires
        guess.len() == password.len(),
    ensures
        correct_hits(guess, password) == correct_hits(password, guess),
        misplaced_hits(guess, password) == misplaced_hits(password, guess),
{
    lemma_correct_hits_symmetric(guess, password, guess.len());
    lemma_misplaced_hits_symmetric(guess, password, NUM_COLORS as nat);
}

/// No peg is counted twice: correct and misplaced hits together are at most
/// the length of the code.
pub proof fn lemma_score_bounded(guess: Seq<PegColor>, password: Seq<PegColor>)
    ensures
        correct_hits(guess, password) <= guess.len(),
        correct_hits(guess, password) + misplaced_hits(guess, password) <= guess.len(),
{
    lemma_unmatched_sum(guess, password, guess.len());
    lemma_misplaced_below_unmatched(guess, password, NUM_COLORS as nat);
}

/// A guess that is the secret scores a correct hit on every peg and no
/// misplaced hit.
pub proof fn lemma_score_of_secret(password: Seq<PegColor>)
    ensures
        correct_hits(password, password) == password.len(),
        misplaced_hits(password, password) == 0,
{
    lemma_equal_rows(password, PegColor::Red, password.len());
    lemma_equal_rows_misplaced(password, NUM_COLORS as nat);
}

/// A full count of correct hits is earned by the secret itself and by no
/// other guess.
pub proof fn lemma_full_match_is_secret(guess: Seq<PegColor>, password: Seq<PegColor>)
    requires
        guess.len() == password.len(),
    ensures
        correct_hits(guess, password) == guess.len() <==> guess == password,
{
    if guess == password {
        lemma_score_of_secret(password);
    }
    if correct_hits(guess, password) == guess.len() {
        lemma_all_correct(guess, password, guess.len());
        assert(guess =~= password);
    }
}

proof fn lemma_correct_at_most(a: Seq<PegColor>, b: Seq<PegColor>, n: nat)
    ensures
        correct_hits_below(a, b, n) <= n,
    decreases n,
{
    if n > 0 {
        lemma_correct_at_most(a, b, (n - 1) as nat);
    }
}

proof fn lemma_all_correct(a: Seq<PegColor>, b: Seq<PegColor>, n: nat)
    requires
        correct_hits_below(a, b, n) == n,
    ensures
        forall|i: int| 0 <= i < n ==> a[i] == b[i],
    decreases n,
{
    if n > 0 {
        lemma_correct_at_most(a, b, (n - 1) as nat);
        lemma_all_correct(a, b, (n - 1) as nat);
    }
}

/// The colours that `a` holds at the positions below `n` where `b` holds
/// another colour, each as often as it stands there.
pub open spec fn unmatched_colors(a: Seq<PegColor>, b: Seq<PegColor>, n: nat) -> Multiset<PegColor>
    decreases n,
{
    if n == 0 {
        Multiset::empty()
    } else if a[n - 1] != b[n - 1] {
        unmatched_colors(a, b, (n - 1) as nat).insert(a[n - 1])
    } else {
        unmatched_colors(a, b, (n - 1) as nat)
    }
}

proof fn lemma_unmatched_colors_count(a: Seq<PegColor>, b: Seq<PegColor>, color: PegColor, n: nat)
    ensures
        unmatched_colors(a, b, n).count(color) == unmatched_below(a, b, color, n),
    decreases n,
{
    broadcast use vstd::multiset::group_multiset_axioms;

    if n > 0 {
        lemma_unmatched_colors_count(a, b, color, (n - 1) as nat);
    }
}

/// How often the first `k` colours occur in `colors`, taken together.
spec fn count_below(colors: Multiset<PegColor>, k: nat) -> nat
    decreases k,
{
    if k == 0 {
        0
    } else {
        count_below(colors, (k - 1) as nat) + colors.count(PegColor::from_ordinal((k - 1) as nat))
    }
}

proof fn lemma_count_all(colors: Multiset<PegColor>)
    ensures
        count_below(colors, NUM_COLORS as nat) == colors.len(),
    decreases colors.len(),
{
    broadcast use vstd::multiset::group_multiset_axioms;

    reveal_with_fuel(count_below, 10);
    if colors.len() == 0 {
        assert forall|color: PegColor| colors.count(color) == 0 by {
            vstd::multiset::axiom_count_le_len(colors, color);
        }
    } else {
        let color = colors.choose();
        let rest = colors.remove(color);
        lemma_count_all(rest);
    }
}

proof fn lemma_misplaced_hits_count(guess: Seq<PegColor>, password: Seq<PegColor>, k: nat)
    ensures
        misplaced_hits_below(guess, password, k) == count_below(
            unmatched_colors(guess, password, guess.len()).intersection_with(
                unmatched_colors(password, guess, password.len()),
            ),
            k,
        ),
    decreases k,
{
    if k > 0 {
        let color = PegColor::from_ordinal((k - 1) as nat);
        lemma_misplaced_hits_count(guess, password, (k - 1) as nat);
        lemma_unmatched_colors_count(guess, password, color, guess.len());
        lemma_unmatched_colors_count(password, guess, color, password.len());
        vstd::multiset::lemma_intersection_count(
            unmatched_colors(guess, password, guess.len()),
            unmatched_colors(password, guess, password.len()),
            color,
        );
    }
}

/// The misplaced hits are what the two rows have in common once the correct
/// hits are taken out of both: the size of the intersection of the colours
/// left in the guess with the colours left in the secret, as multisets.
pub proof fn lemma_misplaced_hits_are_common_colors(guess: Seq<PegColor>, password: Seq<PegColor>)
    ensures
        misplaced_hits(guess, password) == unmatched_colors(
            guess,
            password,
            guess.len(),
        ).intersection_with(unmatched_colors(password, guess, password.len())).len(),
{
    lemma_misplaced_hits_count(guess, password, NUM_COLORS as nat);
    lemma_count_all(
        unmatched_colors(guess, password, guess.len()).intersection_with(
            unmatched_colors(password, guess, password.len()),
        ),
    );
}

/// The score of `guess` against `password`.
pub fn evaluate_guess(
    guess: [PegColor; NUM_SLOTS_PER_ROW],
    password: [PegColor; NUM_SLOTS_PER_ROW],
) -> (row: CompleteRow)
    ensures
        row@ == score(guess@, password@),
        row.num_correct_hits + row.num_misplaced_hits <= NUM_SLOTS_PER_ROW,
{
    let mut guess_counts: [usize; NUM_COLORS] = [0, 0, 0, 0, 0, 0, 0, 0, 0];
    let mut password_counts: [usize; NUM_COLORS] = [0, 0, 0, 0, 0, 0, 0, 0, 0];

    // First pass: the correct hits, and per colour what is left on either side.
    let mut num_correct_hits: usize = 0;
    let mut i: usize = 0;
    while i < NUM_SLOTS_PER_ROW
        invariant
            i <= NUM_SLOTS_PER_ROW,
            guess@.len() == NUM_SLOTS_PER_ROW,
            password@.len() == NUM_SLOTS_PER_ROW,
            num_correct_hits == correct_hits_below(guess@, password@, i as nat),
            num_correct_hits <= i,
            forall|k: int|
                0 <= k < NUM_COLORS ==> #[trigger] guess_counts@[k] == unmatched_below(
                    guess@,
                    password@,
                    PegColor::from_ordinal(k as nat),
                    i as nat,
                ),
            forall|k: int|
                0 <= k < NUM_COLORS ==> #[trigger] password_counts@[k] == unmatched_below(
                    password@,
                    guess@,
                    PegColor::from_ordinal(k as nat),
                    i as nat,
                ),
            forall|k: int| 0 <= k < NUM_COLORS ==> #[trigger] guess_counts@[k] <= i,
            forall|k: int| 0 <= k < NUM_COLORS ==> #[trigger] password_counts@[k] <= i,
        decreases NUM_SLOTS_PER_ROW - i,
    {
        if guess[i] == password[i] {
            num_correct_hits = num_correct_hits + 1;
        } else {
            let g = guess[i].index();
            let p = password[i].index();
            guess_counts[g] = guess_counts[g] + 1;
            password_counts[p] = password_counts[p] + 1;
        }
        i = i + 1;
    }

    // Second pass: per colour, what both sides still hold.
    let mut num_misplaced_hits: usize = 0;
    let mut k: usize = 0;
    while k < NUM_COLORS
        invariant
            k <= NUM_COLORS,
            guess@.len() == NUM_SLOTS_PER_ROW,
            password@.len() == NUM_SLOTS_PER_ROW,
            num_misplaced_hits == misplaced_hits_below(guess@, password@, k as nat),
            num_misplaced_hits <= NUM_SLOTS_PER_ROW * k,
            forall|c: int|
                0 <= c < NUM_COLORS ==> #[trigger] guess_counts@[c] == unmatched_below(
                    guess@,
                    password@,
                    PegColor::from_ordinal(c as nat),
                    NUM_SLOTS_PER_ROW as nat,
                ),
            forall|c: int|
                0 <= c < NUM_COLORS ==> #[trigger] password_counts@[c] == unmatched_below(
                    password@,
                    guess@,
                    PegColor::from_ordinal(c as nat),
                    NUM_SLOTS_PER_ROW as nat,
                ),
            forall|c: int| 0 <= c < NUM_COLORS ==> #[trigger] guess_counts@[c] <= NUM_SLOTS_PER_ROW,
        decreases NUM_COLORS - k,
    {
        let guess_count = guess_counts[k];
        let password_count = password_counts[k];
        let both = if guess_count <= password_count {
            guess_count
        } else {
            password_count
        };
        num_misplaced_hits = num_misplaced_hits + both;
        k = k + 1;
    }

    proof {
        lemma_score_bounded(guess@, password@);
    }
    CompleteRow { guess, num_correct_hits, num_misplaced_hits }
}

/// Every slot of the row holds a colour.
pub open spec fn is_complete(row: Seq<Option<PegColor>>) -> bool {
    forall|i: int| 0 <= i < row.len() ==> (#[trigger] row[i]) is Some
}

/// No slot of the row holds a colour.
pub open spec fn is_blank(row: Seq<Option<PegColor>>) -> bool {
    forall|i: int| 0 <= i < row.len() ==> (#[trigger] row[i]) is None
}

/// The colours of a row, slot by slot. Meant for a complete row.
pub open spec fn resolved(row: Seq<Option<PegColor>>) -> Seq<PegColor> {
    Seq::new(row.len(), |i: int| row[i].unwrap())
}

/// The colours of the working row once every slot is filled; `None` while a
/// slot is still empty.
pub fn convert_working_row_if_completed(working_row: &[Option<PegColor>; NUM_SLOTS_PER_ROW]) -> (guess:
    Option<[PegColor; NUM_SLOTS_PER_ROW]>)
    ensures
        guess is Some <==> is_complete(working_row@),
        guess matches Some(colors) ==> colors@ == resolved(working_row@),
{
    match (working_row[0], working_row[1], working_row[2], working_row[3]) {
        (Some(a), Some(b), Some(c), Some(d)) => {
            let colors = [a, b, c, d];
            Some(colors)
        },
        _ => None,
    }
}

} // verus!
