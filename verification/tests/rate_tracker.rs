use lol_bot::models::RateLimitInfo;
use lol_bot::rate_limit::{rate_limit_info, read_rate_limit_info, RateBudget};

fn info(received_at: i64, second: u64, minute: u64) -> RateLimitInfo {
    RateLimitInfo { received_at, remaining_per_second: second, remaining_per_minute: minute }
}

#[test]
fn new_budget_is_full() {
    let budget = RateBudget::new(20, 100);
    assert_eq!(budget.per_second_limit(), 20);
    assert_eq!(budget.per_minute_limit(), 100);
    assert_eq!(budget.remaining_per_second(), 20);
    assert_eq!(budget.remaining_per_minute(), 100);
    assert_eq!(budget.remaining(), 20);
    assert_eq!(budget.last_observed(), None);
}

#[test]
fn newer_response_wins_in_either_order() {
    let older = info(1_000, 15, 90);
    let newer = info(1_001, 9, 80);

    let mut forth = RateBudget::new(20, 100);
    forth.observe(&older);
    forth.observe(&newer);

    let mut back = RateBudget::new(20, 100);
    back.observe(&newer);
    back.observe(&older);

    for budget in [&forth, &back] {
        assert_eq!(budget.remaining_per_second(), 9);
        assert_eq!(budget.remaining_per_minute(), 80);
        assert_eq!(budget.last_observed(), Some(1_001));
    }
}

#[test]
fn stale_response_is_ignored() {
    let mut budget = RateBudget::new(20, 100);
    budget.observe(&info(500, 3, 30));
    budget.observe(&info(500, 19, 99));
    assert_eq!(budget.remaining_per_second(), 3);
    budget.observe(&info(499, 19, 99));
    assert_eq!(budget.remaining_per_second(), 3);
    assert_eq!(budget.remaining_per_minute(), 30);
    assert_eq!(budget.last_observed(), Some(500));
}

#[test]
fn upstream_value_is_taken_even_above_the_ceiling() {
    let mut budget = RateBudget::new(20, 100);
    budget.observe(&info(-5, 50, 500));
    assert_eq!(budget.remaining_per_second(), 50);
    assert_eq!(budget.remaining_per_minute(), 500);
    assert_eq!(budget.last_observed(), Some(-5));
}

#[test]
fn batch_size_stays_within_the_quota() {
    let mut budget = RateBudget::new(20, 100);
    assert_eq!(budget.batch_capacity(), 20);
    assert_eq!(budget.batch_size(1), 1);
    assert_eq!(budget.batch_size(20), 20);
    assert_eq!(budget.batch_size(21), 20);
    assert_eq!(budget.batch_size(0), 0);
    budget.observe(&info(1, 5, 3));
    assert_eq!(budget.remaining(), 3);
    assert_eq!(budget.batch_capacity(), 3);
    assert_eq!(budget.batch_size(12), 3);
}

#[test]
fn one_request_is_always_let_through() {
    let mut budget = RateBudget::new(20, 100);
    budget.observe(&info(1, 0, 50));
    assert_eq!(budget.remaining(), 0);
    assert_eq!(budget.batch_capacity(), 1);
    assert_eq!(budget.batch_size(7), 1);
    let empty = RateBudget::new(0, 0);
    assert_eq!(empty.batch_size(7), 1);
}

#[test]
fn batch_with_quota_left_does_not_pause() {
    let mut budget = RateBudget::new(20, 100);
    let pause = budget.complete_batch(&vec![Some(info(10, 18, 98)), None, Some(info(11, 17, 97))]);
    assert_eq!(pause, None);
    assert_eq!(budget.remaining_per_second(), 17);
    assert_eq!(budget.remaining_per_minute(), 97);
    assert_eq!(budget.last_observed(), Some(11));
}

#[test]
fn batch_takes_the_latest_response_of_many() {
    let mut budget = RateBudget::new(20, 100);
    let reports = vec![
        Some(info(12, 4, 84)),
        Some(info(14, 2, 82)),
        None,
        Some(info(13, 3, 83)),
        Some(info(14, 9, 89)),
    ];
    assert_eq!(budget.complete_batch(&reports), None);
    assert_eq!(budget.remaining_per_second(), 2);
    assert_eq!(budget.remaining_per_minute(), 82);
    assert_eq!(budget.last_observed(), Some(14));
}

#[test]
fn exhausted_second_pauses_for_a_second() {
    let mut budget = RateBudget::new(20, 100);
    let pause = budget.complete_batch(&vec![Some(info(10, 0, 80))]);
    assert_eq!(pause, Some(1));
    assert_eq!(budget.remaining_per_second(), 20);
    assert_eq!(budget.remaining_per_minute(), 80);
    assert_eq!(budget.last_observed(), Some(10));
}

#[test]
fn exhausted_minute_pauses_for_a_minute() {
    let mut budget = RateBudget::new(20, 100);
    let pause = budget.complete_batch(&vec![Some(info(10, 5, 0))]);
    assert_eq!(pause, Some(60));
    assert_eq!(budget.remaining_per_second(), 20);
    assert_eq!(budget.remaining_per_minute(), 100);

    let mut both = RateBudget::new(20, 100);
    assert_eq!(both.complete_batch(&vec![Some(info(10, 0, 0))]), Some(60));
    assert_eq!(both.remaining(), 20);
}

#[test]
fn batch_without_reports_changes_nothing() {
    let mut budget = RateBudget::new(20, 100);
    assert_eq!(budget.complete_batch(&vec![]), None);
    assert_eq!(budget.complete_batch(&vec![None, None]), None);
    assert_eq!(budget.remaining(), 20);
    assert_eq!(budget.last_observed(), None);
}

#[test]
fn rate_limit_info_needs_all_three_values() {
    assert_eq!(rate_limit_info(Some(5), Some(1), Some(2)), Some(info(5, 1, 2)));
    assert_eq!(rate_limit_info(None, Some(1), Some(2)), None);
    assert_eq!(rate_limit_info(Some(5), None, Some(2)), None);
    assert_eq!(rate_limit_info(Some(5), Some(1), None), None);
}

#[test]
fn rate_limit_info_is_read_from_headers() {
    assert_eq!(
        read_rate_limit_info(Some("Wed, 18 Feb 2015 23:16:09 GMT"), Some("19"), Some("98")),
        Some(info(1424301369, 19, 98))
    );
    assert_eq!(
        read_rate_limit_info(Some("Thu, 01 Jan 1970 00:00:00 GMT"), Some("0"), Some("0")),
        Some(info(0, 0, 0))
    );
    assert_eq!(
        read_rate_limit_info(Some("Wed, 18 Feb 2015 23:16:09 +0100"), Some("1"), Some("2")),
        Some(info(1424301369 - 3600, 1, 2))
    );
}

#[test]
fn rate_limit_info_is_absent_for_unreadable_headers() {
    assert_eq!(read_rate_limit_info(None, Some("19"), Some("98")), None);
    assert_eq!(read_rate_limit_info(Some("yesterday"), Some("19"), Some("98")), None);
    assert_eq!(read_rate_limit_info(Some("19"), Some("19"), Some("98")), None);
    assert_eq!(read_rate_limit_info(Some("Wed, 18 Feb 2015 23:16:09 GMT"), None, Some("98")), None);
    assert_eq!(read_rate_limit_info(Some("Wed, 18 Feb 2015 23:16:09 GMT"), Some("many"), Some("98")), None);
    assert_eq!(read_rate_limit_info(Some("Wed, 18 Feb 2015 23:16:09 GMT"), Some("19"), Some("")), None);
}
