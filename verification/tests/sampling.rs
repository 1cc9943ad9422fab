use host_snapshot::sampling::{Sampler, SamplingStep, SETTLE_MILLIS};

fn steps(mut sampler: Sampler) -> Vec<SamplingStep> {
    let mut steps = Vec::new();
    while let Some(step) = sampler.next_step() {
        steps.push(step);
    }
    steps
}

#[test]
fn settling_interval_is_two_hundred_milliseconds() {
    assert_eq!(SETTLE_MILLIS, 200);
}

#[test]
fn sampling_refreshes_settles_resamples_and_collects() {
    assert_eq!(
        steps(Sampler::new()),
        vec![
            SamplingStep::RefreshAll,
            SamplingStep::Settle(200),
            SamplingStep::RefreshCpuUsage,
            SamplingStep::Collect,
        ]
    );
}

#[test]
fn sampling_settles_for_as_long_as_the_caller_says() {
    assert_eq!(
        steps(Sampler::with_settle(1_500)),
        vec![
            SamplingStep::RefreshAll,
            SamplingStep::Settle(1_500),
            SamplingStep::RefreshCpuUsage,
            SamplingStep::Collect,
        ]
    );
}

#[test]
fn sampling_hands_out_nothing_after_the_last_step() {
    let mut sampler = Sampler::new();
    for _ in 0..4 {
        assert!(sampler.next_step().is_some());
    }
    for _ in 0..300 {
        assert_eq!(sampler.next_step(), None);
    }
}
