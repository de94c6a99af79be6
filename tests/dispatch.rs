use ghost_relay::dispatch::{plan_batches, BatchOutcome, BatchSpan, DispatchStep, Dispatcher, BATCH_DELAY_MS, BATCH_SIZE};

#[test]
fn two_hundred_fifty_recipients_make_three_batches_and_two_delays() {
    let plan = plan_batches(250);
    let sizes: Vec<usize> = plan.iter().map(|s| s.end - s.start).collect();
    assert_eq!(sizes, vec![100, 100, 50]);
    let mut d = Dispatcher::new(250);
    let mut delays = 0;
    let mut spans = Vec::new();
    while let Some(span) = d.current() {
        spans.push(span);
        match d.on_sent(true) {
            DispatchStep::Wait { delay_ms } => {
                assert_eq!(delay_ms, BATCH_DELAY_MS);
                delays += 1;
            }
            DispatchStep::Done => {}
        }
    }
    assert_eq!(spans, plan);
    assert_eq!(delays, 2);
}

#[test]
fn failed_second_batch_does_not_stop_the_run() {
    let mut d = Dispatcher::new(250);
    let mut attempted = Vec::new();
    let mut i = 0;
    while let Some(span) = d.current() {
        attempted.push(span);
        d.on_sent(i != 1);
        i += 1;
    }
    assert_eq!(attempted.len(), 3);
    assert_eq!(attempted[2], BatchSpan { start: 200, end: 250 });
    assert_eq!(
        d.into_outcomes(),
        vec![BatchOutcome::Sent, BatchOutcome::Failed, BatchOutcome::Sent]
    );
}

#[test]
fn no_recipients_no_batches() {
    assert!(plan_batches(0).is_empty());
    assert_eq!(Dispatcher::new(0).current(), None);
}

#[test]
fn exactly_one_full_batch() {
    assert_eq!(plan_batches(100), vec![BatchSpan { start: 0, end: 100 }]);
    let mut d = Dispatcher::new(100);
    assert_eq!(d.current(), Some(BatchSpan { start: 0, end: 100 }));
    assert_eq!(d.on_sent(false), DispatchStep::Done);
    assert_eq!(d.current(), None);
}

#[test]
fn one_past_a_full_batch() {
    assert_eq!(
        plan_batches(101),
        vec![BatchSpan { start: 0, end: 100 }, BatchSpan { start: 100, end: 101 }]
    );
    assert_eq!(BATCH_SIZE, 100);
}
