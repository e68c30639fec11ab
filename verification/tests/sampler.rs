use auto_clicker::sampler::{judge, sample_positive, Sample, Verdict, MAX_ATTEMPTS};

#[test]
fn the_retry_budget_is_ten() {
    assert_eq!(MAX_ATTEMPTS, 10);
}

#[test]
fn exhausted_retries_return_exactly_the_mean() {
    let all_negative = [-1i64; 10];
    assert_eq!(
        sample_positive(&all_negative, 1_200_000_000),
        Some(Sample { value: 1_200_000_000, attempts: 10, fell_back: true })
    );
    let all_zero = [0i64; 10];
    assert_eq!(
        sample_positive(&all_zero, 85_000_000),
        Some(Sample { value: 85_000_000, attempts: 10, fell_back: true })
    );
}

#[test]
fn an_eleventh_draw_is_never_looked_at() {
    let mut draws = [-7i64; 11];
    draws[10] = 42;
    assert_eq!(
        sample_positive(&draws, 5),
        Some(Sample { value: 5, attempts: 10, fell_back: true })
    );
}

#[test]
fn the_first_positive_draw_is_the_sample() {
    assert_eq!(
        sample_positive(&[85_000_000, 1, 2], 9),
        Some(Sample { value: 85_000_000, attempts: 1, fell_back: false })
    );
    assert_eq!(
        sample_positive(&[-5, 0, 7, 9], 100),
        Some(Sample { value: 7, attempts: 3, fell_back: false })
    );
    assert_eq!(
        sample_positive(&[i64::MIN, i64::MAX], 100),
        Some(Sample { value: i64::MAX as u64, attempts: 2, fell_back: false })
    );
}

#[test]
fn the_tenth_draw_still_counts() {
    let mut draws = [-1i64; 10];
    draws[9] = 3;
    assert_eq!(
        sample_positive(&draws, 100),
        Some(Sample { value: 3, attempts: 10, fell_back: false })
    );
}

#[test]
fn too_few_failed_draws_decide_nothing() {
    assert_eq!(sample_positive(&[], 100), None);
    assert_eq!(sample_positive(&[-1, 0, -3], 100), None);
    assert_eq!(sample_positive(&[-1i64; 9], 100), None);
}

#[test]
fn a_zero_mean_is_returned_as_it_is() {
    assert_eq!(
        sample_positive(&[0i64; 10], 0),
        Some(Sample { value: 0, attempts: 10, fell_back: true })
    );
}

#[test]
fn judge_accepts_positive_draws_at_any_attempt() {
    assert_eq!(judge(0, 1, 50), Verdict::Accept(1));
    assert_eq!(judge(9, 1_000, 50), Verdict::Accept(1_000));
    assert_eq!(judge(usize::MAX, i64::MAX, 50), Verdict::Accept(i64::MAX as u64));
}

#[test]
fn judge_retries_until_the_budget_is_spent() {
    for attempt in 0..9 {
        assert_eq!(judge(attempt, 0, 50), Verdict::Retry);
        assert_eq!(judge(attempt, -1, 50), Verdict::Retry);
    }
    assert_eq!(judge(9, 0, 50), Verdict::GiveUp(50));
    assert_eq!(judge(9, i64::MIN, 50), Verdict::GiveUp(50));
    assert_eq!(judge(10, -1, 50), Verdict::GiveUp(50));
    assert_eq!(judge(usize::MAX, -1, 50), Verdict::GiveUp(50));
}

#[test]
fn judging_draw_by_draw_agrees_with_the_batch() {
    let runs: [&[i64]; 4] = [
        &[-2, -2, 6, 1],
        &[9],
        &[0, 0, 0, 0, 0, 0, 0, 0, 0, 0],
        &[-1, -1, -1, -1, -1, -1, -1, -1, -1, 4],
    ];
    for draws in runs {
        let mean = 77;
        let mut stepwise = None;
        for (attempt, draw) in draws.iter().enumerate() {
            match judge(attempt, *draw, mean) {
                Verdict::Accept(value) => {
                    stepwise = Some(Sample { value, attempts: attempt + 1, fell_back: false });
                    break;
                }
                Verdict::GiveUp(value) => {
                    stepwise = Some(Sample { value, attempts: attempt + 1, fell_back: true });
                    break;
                }
                Verdict::Retry => {}
            }
        }
        assert_eq!(sample_positive(draws, mean), stepwise);
    }
}
