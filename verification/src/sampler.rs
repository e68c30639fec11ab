//! The bounded-retry policy that turns random draws into a duration.
//!
//! A draw is a signed number of nanoseconds. Draws are taken one after the
//! other until one is positive, ten at most; when none of the ten is, the
//! mean stands in. The policy never draws by itself: it is handed each draw
//! and says what to do with it.

use vstd::prelude::*;

verus! {

/// How many draws are tried before the mean stands in.
pub const MAX_ATTEMPTS: usize = 10;

/// What to do after one draw.
#[derive(Clone, Copy, Debug, PartialEq, Eq, Structural)]
pub enum Verdict {
    /// The draw is positive: use it.
    Accept(u64),
    /// The draw is not positive and the budget is not spent: draw again.
    Retry,
    /// The draw is not positive and it was the last one allowed: use the
    /// mean and report that sampling failed.
    GiveUp(u64),
}

/// The outcome of a run of draws.
#[derive(Clone, Copy, Debug, PartialEq, Eq, Structural)]
pub struct Sample {
    /// The duration to use, in nanoseconds.
    pub value: u64,
    /// How many draws were looked at.
    pub attempts: usize,
    /// Whether the value is the mean, every draw having failed.
    pub fell_back: bool,
}

/// The verdict on draw number `attempt`, counted from zero.
pub open spec fn judged(attempt: int, draw: i64, mean: u64) -> Verdict {
    if draw > 0 {
        Verdict::Accept(draw as u64)
    } else if attempt + 1 >= MAX_ATTEMPTS {
        Verdict::GiveUp(mean)
    } else {
        Verdict::Retry
    }
}

/// Whether `sample` is what the policy makes of `draws`: the first positive
/// draw among the first ten, or the mean when all ten fail.
pub open spec fn is_sample_of(sample: Sample, draws: Seq<i64>, mean: u64) -> bool {
    if sample.fell_back {
        &&& sample.attempts == MAX_ATTEMPTS
        &&& sample.attempts <= draws.len()
        &&& sample.value == mean
        &&& forall|i: int| 0 <= i < sample.attempts ==> draws[i] <= 0
    } else {
        &&& 1 <= sample.attempts <= MAX_ATTEMPTS
        &&& sample.attempts <= draws.len()
        &&& draws[sample.attempts - 1] > 0
        &&& sample.value == draws[sample.attempts - 1]
        &&& forall|i: int| 0 <= i < sample.attempts - 1 ==> draws[i] <= 0
    }
}

/// Whether `draws` ends before the policy can decide: fewer than ten draws,
/// none of them positive.
pub open spec fn is_undecided(draws: Seq<i64>) -> bool {
    &&& draws.len() < MAX_ATTEMPTS
    &&& forall|i: int| 0 <= i < draws.len() ==> draws[i] <= 0
}

/// Judges one draw, the one numbered `attempt` from zero.
pub fn judge(attempt: usize, draw: i64, mean: u64) -> (verdict: Verdict)
    ensures
        verdict == judged(attempt as int, draw, mean),
{
    if draw > 0 {
        Verdict::Accept(draw as u64)
    } else if attempt >= MAX_ATTEMPTS - 1 {
        Verdict::GiveUp(mean)
    } else {
        Verdict::Retry
    }
}

/// Runs the policy over draws taken in advance, first to last. Returns
/// nothing when the draws run out before a verdict is reached.
pub fn sample_positive(draws: &[i64], mean: u64) -> (outcome: Option<Sample>)
    ensures
        match outcome {
            Some(sample) => is_sample_of(sample, draws@, mean),
            None => is_undecided(draws@),
        },
{
    let mut attempt: usize = 0;
    while attempt < draws.len()
        invariant
            attempt <= draws.len(),
            attempt < MAX_ATTEMPTS,
            forall|i: int| 0 <= i < attempt ==> draws@[i] <= 0,
        decreases draws.len() - attempt,
    {
        match judge(attempt, draws[attempt], mean) {
            Verdict::Accept(value) => {
                return Some(Sample { value, attempts: attempt + 1, fell_back: false });
            },
            Verdict::GiveUp(value) => {
                return Some(Sample { value, attempts: attempt + 1, fell_back: true });
            },
            Verdict::Retry => {
                attempt += 1;
            },
        }
    }
    None
}

/// The policy decides every run of draws in one way only.
pub proof fn lemma_sample_is_unique(first: Sample, second: Sample, draws: Seq<i64>, mean: u64)
    requires
        is_sample_of(first, draws, mean),
        is_sample_of(second, draws, mean),
    ensures
        first == second,
        !is_undecided(draws),
{
}

/// When every one of the ten draws fails, the outcome is exactly the mean.
pub proof fn lemma_exhaustion_returns_mean(sample: Sample, draws: Seq<i64>, mean: u64)
    requires
        is_sample_of(sample, draws, mean),
        draws.len() >= MAX_ATTEMPTS,
        forall|i: int| 0 <= i < MAX_ATTEMPTS ==> draws[i] <= 0,
    ensures
        sample == (Sample { value: mean, attempts: MAX_ATTEMPTS, fell_back: true }),
{
}

/// When one of the first ten draws is positive, the outcome is the first
/// such draw, and the mean plays no part.
pub proof fn lemma_first_positive_draw_wins(
    sample: Sample,
    draws: Seq<i64>,
    mean: u64,
    index: int,
)
    requires
        is_sample_of(sample, draws, mean),
        0 <= index < MAX_ATTEMPTS,
        index < draws.len(),
        draws[index] > 0,
    ensures
        !sample.fell_back,
        sample.attempts <= index + 1,
        sample.value == draws[sample.attempts - 1],
        sample.value > 0,
{
}

/// With a positive mean the outcome is positive, whatever was drawn.
pub proof fn lemma_sample_is_positive(sample: Sample, draws: Seq<i64>, mean: u64)
    requires
        is_sample_of(sample, draws, mean),
        mean > 0,
    ensures
        sample.value > 0,
{
}

/// Judging the draws one by one leads to the same outcome: every draw
/// before the last one looked at is retried, and the last one is accepted
/// or given up on as the outcome says.
pub proof fn lemma_verdicts_lead_to_sample(sample: Sample, draws: Seq<i64>, mean: u64)
    requires
        is_sample_of(sample, draws, mean),
    ensures
        forall|i: int|
            0 <= i < sample.attempts - 1 ==> #[trigger] judged(i, draws[i], mean) == Verdict::Retry,
        judged(sample.attempts - 1, draws[sample.attempts - 1], mean) == if sample.fell_back {
            Verdict::GiveUp(sample.value)
        } else {
            Verdict::Accept(sample.value)
        },
{
}

} // verus!
