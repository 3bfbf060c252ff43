//! How long the turns of one player took.
//!
//! Completed turns are kept in ascending order, so that the longest turn and
//! the median are read off by index.

use crate::timestamp::Duration;
use vstd::prelude::*;

verus! {

/// A turn shorter than this is a quick press to pass to the next player and
/// does not count as a turn: 700 milliseconds.
pub const DONT_COUNT_TURN_THRESHOLD_NANOS: u64 = 700_000_000;

/// The durations stand in ascending order.
pub open spec fn is_sorted(durations: Seq<Duration>) -> bool {
    forall|i: int, j: int|
        0 <= i <= j < durations.len() ==> (#[trigger] durations[i]).nanos <= (
        #[trigger] durations[j]).nanos
}

/// `sorted` with `extra` put in its place: after everything that is not
/// longer than it.
pub open spec fn sorted_insert(sorted: Seq<Duration>, extra: Duration) -> Seq<Duration>
    decreases sorted.len(),
{
    if sorted.len() == 0 {
        seq![extra]
    } else if sorted.last().nanos <= extra.nanos {
        sorted.push(extra)
    } else {
        sorted_insert(sorted.drop_last(), extra).push(sorted.last())
    }
}

/// Putting a duration in its place keeps the order, and adds that duration
/// and nothing else: every duration of the result is the added one or one
/// that was there.
pub proof fn lemma_sorted_insert(sorted: Seq<Duration>, extra: Duration)
    requires
        is_sorted(sorted),
    ensures
        is_sorted(sorted_insert(sorted, extra)),
        sorted_insert(sorted, extra).len() == sorted.len() + 1,
        sorted_insert(sorted, extra).to_multiset() == sorted.to_multiset().insert(extra),
        forall|i: int|
            0 <= i < sorted.len() + 1 ==> (#[trigger] sorted_insert(sorted, extra)[i]) == extra
                || sorted.contains(sorted_insert(sorted, extra)[i]),
    decreases sorted.len(),
{
    broadcast use vstd::seq_lib::group_to_multiset_ensures;

    if sorted.len() > 0 && sorted.last().nanos > extra.nanos {
        let front = sorted.drop_last();
        lemma_sorted_insert(front, extra);
        assert(front.push(sorted.last()) =~= sorted);
    }
}

/// The longest of `sorted` with `extra` put in its place is the longer of
/// `extra` and the longest of `sorted`.
pub proof fn lemma_sorted_insert_last(sorted: Seq<Duration>, extra: Duration)
    ensures
        sorted_insert(sorted, extra).len() == sorted.len() + 1,
        sorted_insert(sorted, extra).last() == if sorted.len() == 0 || sorted.last().nanos
            <= extra.nanos {
            extra
        } else {
            sorted.last()
        },
    decreases sorted.len(),
{
    if sorted.len() > 0 && sorted.last().nanos > extra.nanos {
        lemma_sorted_insert_last(sorted.drop_last(), extra);
    }
}

/// The longer of two durations.
pub open spec fn longer(a: Duration, b: Duration) -> Duration {
    if a.nanos <= b.nanos {
        b
    } else {
        a
    }
}

/// The longest of the turns, in whatever order they stand; `None` where
/// there is no turn.
pub open spec fn longest(turns: Seq<Duration>) -> Option<Duration>
    decreases turns.len(),
{
    if turns.len() == 0 {
        None
    } else {
        match longest(turns.drop_last()) {
            None => Some(turns.last()),
            Some(before) => Some(longer(before, turns.last())),
        }
    }
}

/// The longest turn is one of the turns, and none of them is longer.
pub proof fn lemma_longest_is_maximum(turns: Seq<Duration>)
    requires
        turns.len() > 0,
    ensures
        longest(turns) is Some,
        turns.contains(longest(turns).unwrap()),
        forall|i: int| 0 <= i < turns.len() ==> (#[trigger] turns[i]).nanos <= longest(
            turns,
        ).unwrap().nanos,
    decreases turns.len(),
{
    let front = turns.drop_last();
    if front.len() > 0 {
        lemma_longest_is_maximum(front);
        let before = longest(front).unwrap();
        let k = choose|k: int| 0 <= k < front.len() && front[k] == before;
        assert(turns[k] == before);
        assert forall|i: int| 0 <= i < turns.len() implies (#[trigger] turns[i]).nanos <= longest(
            turns,
        ).unwrap().nanos by {
            if i < front.len() {
                assert(front[i] == turns[i]);
            }
        }
    }
    assert(turns[turns.len() - 1] == turns.last());
}

/// Of turns that stand in ascending order, the longest is the last.
pub proof fn lemma_longest_of_sorted(turns: Seq<Duration>)
    requires
        is_sorted(turns),
        turns.len() > 0,
    ensures
        longest(turns) == Some(turns.last()),
    decreases turns.len(),
{
    let front = turns.drop_last();
    if front.len() > 0 {
        lemma_longest_of_sorted(front);
        assert(front.last() == turns[turns.len() - 2]);
        assert(turns[turns.len() - 2].nanos <= turns[turns.len() - 1].nanos);
    } else {
        assert(longest(front) is None);
    }
}

/// The median of the turns, which stand in ascending order: the middle one
/// of an odd number, and of an even number the mean of the two in the middle,
/// rounded down to a whole nanosecond.
pub open spec fn median(turns: Seq<Duration>) -> Option<Duration> {
    if turns.len() == 0 {
        None
    } else if turns.len() % 2 == 0 {
        let low = turns[(turns.len() / 2) as int - 1];
        let high = turns[(turns.len() / 2) as int];
        Some(Duration { nanos: ((low.nanos + high.nanos) / 2) as u64 })
    } else {
        Some(turns[(turns.len() / 2) as int])
    }
}

/// The durations of a player's turns: the turn that is running, and the
/// turns that are over.
pub struct PlayerTurnDurationStats {
    current_turn_duration: Duration,
    // ascending
    completed_turn_durations: Vec<Duration>,
}

impl PlayerTurnDurationStats {
    /// How long the running turn has taken so far.
    pub closed spec fn current(&self) -> Duration {
        self.current_turn_duration
    }

    /// The turns that are over, shortest first.
    pub closed spec fn completed(&self) -> Seq<Duration> {
        self.completed_turn_durations@
    }

    /// The completed turns are kept in order.
    pub open spec fn wf(&self) -> bool {
        is_sorted(self.completed())
    }

    /// The turns that the statistics speak of, shortest first: the completed
    /// turns, and with them the running turn once it has taken any time.
    pub open spec fn turns(&self) -> Seq<Duration> {
        turns_of(self.current(), self.completed())
    }

    pub fn new() -> (stats: PlayerTurnDurationStats)
        ensures
            stats.current().nanos == 0,
            stats.completed() == Seq::<Duration>::empty(),
            stats.wf(),
    {
        PlayerTurnDurationStats {
            current_turn_duration: Duration::zero(),
            completed_turn_durations: Vec::new(),
        }
    }

    /// Ends the running turn. It joins the completed turns if it took the
    /// threshold or longer; either way the next turn starts from zero.
    pub fn end_turn(&mut self)
        requires
            old(self).wf(),
        ensures
            final(self).current().nanos == 0,
            final(self).completed() == completed_after_end_turn(
                old(self).current(),
                old(self).completed(),
            ),
            final(self).wf(),
    {
        if self.current_turn_duration.nanos >= DONT_COUNT_TURN_THRESHOLD_NANOS {
            insert_sorted(&mut self.completed_turn_durations, self.current_turn_duration);
            proof {
                lemma_sorted_insert(old(self).completed(), old(self).current());
            }
        }
        self.current_turn_duration = Duration::zero();
    }

    /// Adds the time of one frame to the running turn.
    pub fn tick_frame(&mut self, elapsed_tick_time: Duration)
        requires
            old(self).current().nanos + elapsed_tick_time.nanos <= u64::MAX,
        ensures
            final(self).current().nanos == old(self).current().nanos + elapsed_tick_time.nanos,
            final(self).completed() == old(self).completed(),
    {
        let nanos = self.current_turn_duration.nanos + elapsed_tick_time.nanos;
        self.current_turn_duration = Duration { nanos };
    }

    /// How many turns the statistics speak of.
    pub fn num_turns(&self) -> (count: usize)
        requires
            self.turns().len() <= usize::MAX,
        ensures
            count == self.turns().len(),
    {
        proof {
            lemma_sorted_insert_last(self.completed(), self.current());
        }
        let current_turn: usize = if self.current_turn_duration.is_zero() {
            0
        } else {
            1
        };
        current_turn + self.completed_turn_durations.len()
    }

    /// The longest turn, if there is any turn.
    pub fn max_turn(&self) -> (max: Option<Duration>)
        requires
            self.wf(),
        ensures
            max == longest(self.turns()),
    {
        proof {
            lemma_sorted_insert_last(self.completed(), self.current());
            lemma_sorted_insert(self.completed(), self.current());
            if self.turns().len() > 0 {
                lemma_longest_of_sorted(self.turns());
            }
        }
        let len = self.completed_turn_durations.len();
        let opt_max_completed = if len == 0 {
            None
        } else {
            Some(self.completed_turn_durations[len - 1])
        };
        let opt_current = if self.current_turn_duration.is_zero() {
            None
        } else {
            Some(self.current_turn_duration)
        };
        match (opt_max_completed, opt_current) {
            (Some(a), Some(b)) => if a.nanos <= b.nanos {
                Some(b)
            } else {
                Some(a)
            },
            (Some(a), None) => Some(a),
            (None, Some(b)) => Some(b),
            (None, None) => None,
        }
    }

    /// The median turn, if there is any turn. The completed turns stay as
    /// they are.
    pub fn median_turn(&self) -> (median_turn: Option<Duration>)
        requires
            self.wf(),
        ensures
            median_turn == median(self.turns()),
    {
        let mut sorted_turns: Vec<Duration> = Vec::new();
        let mut i: usize = 0;
        while i < self.completed_turn_durations.len()
            invariant
                i <= self.completed_turn_durations@.len(),
                sorted_turns@ == self.completed_turn_durations@.take(i as int),
            decreases self.completed_turn_durations@.len() - i,
        {
            sorted_turns.push(self.completed_turn_durations[i]);
            i = i + 1;
        }
        assert(sorted_turns@ =~= self.completed());
        if !self.current_turn_duration.is_zero() {
            insert_sorted(&mut sorted_turns, self.current_turn_duration);
        }

        let len = sorted_turns.len();
        if len == 0 {
            return None;
        }
        if 0 == len % 2 {
            // even length
            let low = sorted_turns[len / 2 - 1];
            let high = sorted_turns[len / 2];
            let mean = (low.nanos as u128 + high.nanos as u128) / 2;
            Some(Duration { nanos: mean as u64 })
        } else {
            // odd length
            Some(sorted_turns[len / 2])
        }
    }

    pub fn current_turn_duration(&self) -> (duration: Duration)
        ensures
            duration == self.current(),
    {
        self.current_turn_duration
    }

    /// The turns that are over, shortest first.
    pub fn completed_turn_durations(&self) -> (durations: &Vec<Duration>)
        ensures
            durations@ == self.completed(),
    {
        &self.completed_turn_durations
    }
}

/// The turns that the statistics of a player speak of.
pub open spec fn turns_of(current: Duration, completed: Seq<Duration>) -> Seq<Duration> {
    if current.nanos == 0 {
        completed
    } else {
        sorted_insert(completed, current)
    }
}

/// The turns that the statistics speak of stand in ascending order, and they
/// are the completed turns together with the running turn, unless that has
/// taken no time yet.
pub proof fn lemma_turns_of(current: Duration, completed: Seq<Duration>)
    requires
        is_sorted(completed),
    ensures
        is_sorted(turns_of(current, completed)),
        turns_of(current, completed).to_multiset() == if current.nanos == 0 {
            completed.to_multiset()
        } else {
            completed.to_multiset().insert(current)
        },
{
    lemma_sorted_insert(completed, current);
}

/// The completed turns once a turn that took `current` has ended.
pub open spec fn completed_after_end_turn(current: Duration, completed: Seq<Duration>) -> Seq<
    Duration,
> {
    if current.nanos >= DONT_COUNT_TURN_THRESHOLD_NANOS {
        sorted_insert(completed, current)
    } else {
        completed
    }
}

/// Index of the place of `extra` in `sorted`.
proof fn lemma_sorted_insert_at(sorted: Seq<Duration>, extra: Duration, at: int)
    requires
        is_sorted(sorted),
        0 <= at <= sorted.len(),
        forall|k: int| 0 <= k < at ==> (#[trigger] sorted[k]).nanos <= extra.nanos,
        forall|k: int| at <= k < sorted.len() ==> (#[trigger] sorted[k]).nanos > extra.nanos,
    ensures
        sorted_insert(sorted, extra) == sorted.insert(at, extra),
    decreases sorted.len(),
{
    if sorted.len() > 0 && sorted.last().nanos > extra.nanos {
        lemma_sorted_insert_at(sorted.drop_last(), extra, at);
    }
}

fn insert_sorted(durations: &mut Vec<Duration>, extra: Duration)
    requires
        is_sorted(old(durations)@),
    ensures
        final(durations)@ == sorted_insert(old(durations)@, extra),
{
    let mut at: usize = durations.len();
    while at > 0 && durations[at - 1].nanos > extra.nanos
        invariant
            at <= durations@.len(),
            durations@ == old(durations)@,
            forall|k: int| at <= k < durations@.len() ==> (#[trigger] durations@[k]).nanos
                > extra.nanos,
        decreases at,
    {
        at = at - 1;
    }
    proof {
        lemma_sorted_insert_at(durations@, extra, at as int);
    }
    durations.insert(at, extra);
}

} // verus!
