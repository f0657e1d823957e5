//! What the calendar asks of an ephemeris.
//!
//! The calendar arithmetic never computes an astronomical position itself. It
//! poses a [`Query`], the caller answers it with a whole number, and the
//! arithmetic goes on from there. In contracts an ephemeris is a function from
//! queries to answers, written `sky`.

use vstd::prelude::*;
use crate::month_index::JulianMonthIndex;

verus! {

/// The UTC offset at which the local calendar day of a new moon is taken.
#[derive(Clone, Copy, Debug, PartialEq, Eq, Structural)]
pub enum Zone {
    /// The offset that the caller converts for.
    Local,
    /// The fixed offset UTC+7.
    Indochina,
}

/// How a solar longitude divided by 30 degrees becomes a whole segment number.
#[derive(Clone, Copy, Debug, PartialEq, Eq, Structural)]
pub enum Rounding {
    /// Rounded toward zero.
    TowardZero,
    /// Rounded down.
    Floor,
}

/// A question to the ephemeris. Its answer is a whole number.
#[derive(Clone, Copy, Debug, PartialEq, Eq, Structural)]
pub enum Query {
    /// The Julian day number of the calendar day, at the offset `zone`, on
    /// which the new moon of month `index` falls.
    NewMoonDay { index: JulianMonthIndex, zone: Zone },
    /// The 30-degree segment of the Sun's longitude at the start of Julian day
    /// `day`, at the caller's offset.
    SolarSegment { day: i32, rounding: Rounding },
}

/// Either a state that waits for the answer to its query, or a result.
#[derive(Debug)]
pub enum Step<S, T> {
    Ask(S),
    Done(T),
}

/// The day on which, by `sky`, the new moon of month `index` falls.
pub open spec fn new_moon_day(sky: spec_fn(Query) -> i32, index: int, zone: Zone) -> int {
    sky(Query::NewMoonDay { index: JulianMonthIndex(index as i32), zone }) as int
}

/// The segment in which, by `sky`, the Sun stands at the start of `day`.
pub open spec fn solar_segment(sky: spec_fn(Query) -> i32, day: int, rounding: Rounding) -> int {
    sky(Query::SolarSegment { day: day as i32, rounding }) as int
}

/// A computation that goes on by asking the ephemeris: a state that waits for
/// the answer to its query.
pub trait Inquiry: Sized {
    /// What the computation hands back when it is done.
    type Found;

    /// The mathematical value of what it hands back.
    type Outcome;

    /// The query that the state waits for.
    spec fn pending(self) -> Query;

    /// What the computation comes to when `sky` answers every query from here
    /// on.
    spec fn outcome(self, sky: spec_fn(Query) -> i32) -> Self::Outcome;

    /// A bound on the number of answers that the computation still needs.
    spec fn remaining(self) -> nat;

    /// The mathematical value of a result.
    spec fn found_view(found: Self::Found) -> Self::Outcome;

    /// The query to answer next.
    fn query(&self) -> (r: Query)
        ensures
            r == self.pending(),
    ;

    /// Takes the answer to the pending query. Under every ephemeris that gives
    /// that answer, the step that comes back comes to what the state came to,
    /// and it needs fewer answers.
    fn advance(self, answer: i32) -> (r: Step<Self, Self::Found>)
        ensures
            forall|sky: spec_fn(Query) -> i32|
                sky(self.pending()) == answer ==> #[trigger] self.outcome(sky) == (match r {
                    Step::Ask(state) => state.outcome(sky),
                    Step::Done(found) => Self::found_view(found),
                }),
            self.remaining() > (match r {
                Step::Ask(state) => state.remaining(),
                Step::Done(_) => 0,
            }),
    ;
}

/// What a step comes to when `sky` answers every query from here on.
pub open spec fn outcome_of<S: Inquiry>(step: Step<S, S::Found>, sky: spec_fn(Query) -> i32)
    -> S::Outcome {
    match step {
        Step::Ask(state) => state.outcome(sky),
        Step::Done(found) => S::found_view(found),
    }
}

/// A bound on the number of answers that a step still needs.
pub open spec fn remaining_of<S: Inquiry>(step: Step<S, S::Found>) -> nat {
    match step {
        Step::Ask(state) => state.remaining(),
        Step::Done(_) => 0,
    }
}

/// Whether `after` carries `before` on once its query was answered with
/// `answer`: under every ephemeris that gives that answer, `after` comes to
/// what `before` came to, and it needs fewer answers.
pub open spec fn follows<S: Inquiry>(before: S, answer: i32, after: Step<S, S::Found>) -> bool {
    &&& forall|sky: spec_fn(Query) -> i32|
        sky(before.pending()) == answer ==> outcome_of(after, sky) == #[trigger] before.outcome(sky)
    &&& remaining_of(after) < before.remaining()
}

/// Whether `steps` is a run under `sky`: each step but the last asks, `sky`
/// answers, and the next step follows.
pub open spec fn is_run<S: Inquiry>(sky: spec_fn(Query) -> i32, steps: Seq<Step<S, S::Found>>)
    -> bool {
    forall|i: int|
        0 <= i < steps.len() - 1 ==> ((#[trigger] steps[i]) matches Step::Ask(state) && follows(
            state,
            sky(state.pending()),
            steps[i + 1],
        ))
}

/// Along a run under `sky` every step comes to what the first step comes to
/// under `sky`, and step `i` needs at least `i` answers fewer than the first.
/// So a run has no more steps after the first than the first step's bound,
/// and where it ends in a result, that is the outcome of the first step.
pub proof fn lemma_run_keeps_outcome<S: Inquiry>(
    sky: spec_fn(Query) -> i32,
    steps: Seq<Step<S, S::Found>>,
    i: int,
)
    requires
        is_run(sky, steps),
        0 <= i < steps.len(),
    ensures
        outcome_of(steps[i], sky) == outcome_of(steps[0], sky),
        remaining_of(steps[i]) + i <= remaining_of(steps[0]),
    decreases i,
{
    if i > 0 {
        lemma_run_keeps_outcome(sky, steps, i - 1);
        let before = steps[i - 1];
        assert(before is Ask);
        assert(follows(before->Ask_0, sky(before->Ask_0.pending()), steps[i]));
    }
}

} // verus!
