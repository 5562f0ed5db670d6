use lol_bot::api_fetcher::drain_batch;
use lol_bot::models::RateLimitInfo;
use lol_bot::rate_limit::RateBudget;
use tokio::sync::mpsc;

fn budget_with(remaining_per_second: u64) -> RateBudget {
    let mut budget = RateBudget::new(20, 100);
    budget.observe(&RateLimitInfo {
        received_at: 1,
        remaining_per_second,
        remaining_per_minute: 100,
    });
    budget
}

#[test]
fn batch_takes_what_waits_in_order() {
    let (sender, mut queue) = mpsc::channel::<&str>(32);
    for url in ["b", "c", "d"] {
        sender.try_send(url).unwrap();
    }
    let batch = drain_batch(&mut queue, "a", &RateBudget::new(20, 100));
    assert_eq!(batch, vec!["a", "b", "c", "d"]);
    assert!(queue.try_recv().is_err());
}

#[test]
fn batch_stays_within_the_quota() {
    let (sender, mut queue) = mpsc::channel::<u32>(32);
    for number in 1..=10 {
        sender.try_send(number).unwrap();
    }
    let batch = drain_batch(&mut queue, 0, &budget_with(4));
    assert_eq!(batch, vec![0, 1, 2, 3]);
    assert_eq!(queue.try_recv(), Ok(4));
    let batch = drain_batch(&mut queue, 4, &budget_with(4));
    assert_eq!(batch, vec![4, 5, 6, 7]);
}

#[test]
fn batch_of_an_exhausted_budget_is_the_first_request() {
    let (sender, mut queue) = mpsc::channel::<u32>(32);
    sender.try_send(1).unwrap();
    let batch = drain_batch(&mut queue, 0, &budget_with(0));
    assert_eq!(batch, vec![0]);
    assert_eq!(queue.try_recv(), Ok(1));
}

#[test]
fn batch_of_an_empty_or_closed_queue_is_the_first_request() {
    let (sender, mut queue) = mpsc::channel::<u32>(32);
    assert_eq!(drain_batch(&mut queue, 7, &RateBudget::new(20, 100)), vec![7]);
    drop(sender);
    assert_eq!(drain_batch(&mut queue, 8, &RateBudget::new(20, 100)), vec![8]);
}
