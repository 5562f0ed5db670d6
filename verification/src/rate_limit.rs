//! The rate tracker: the dispatcher's belief about the quota that is left,
//! corrected from what the upstream reports with each response.

use crate::models::RateLimitInfo;
use crate::text::{parse_u64, spec_parse_u64};
use vstd::prelude::*;

verus! {

/// The length in seconds of the pause that refills the per-second quota.
pub const SECOND_WINDOW: u64 = 1;

/// The length in seconds of the pause that refills the per-minute quota.
pub const MINUTE_WINDOW: u64 = 60;

/// The instant that a date in the format of RFC 2822 denotes, in seconds
/// since the Unix epoch; none where the text is no such date.
pub uninterp spec fn rfc2822_timestamp(text: Seq<char>) -> Option<i64>;

/// Reads the date header of a response.
///
/// Trusted: stands for `chrono::DateTime::parse_from_rfc2822` followed by
/// `DateTime::timestamp`. The contract claims only that the result is a
/// function of the text, which [`rfc2822_timestamp`] names.
#[verifier::external_body]
fn parse_http_date(text: &str) -> (seconds: Option<i64>)
    ensures
        seconds == rfc2822_timestamp(text@),
{
    chrono::DateTime::parse_from_rfc2822(text).ok().map(|date| date.timestamp())
}

/// The observation that a response carries: present exactly when it has a
/// readable date and both remaining-quota values.
pub open spec fn spec_rate_limit_info(
    received_at: Option<i64>,
    remaining_per_second: Option<u64>,
    remaining_per_minute: Option<u64>,
) -> Option<RateLimitInfo> {
    match (received_at, remaining_per_second, remaining_per_minute) {
        (Some(at), Some(second), Some(minute)) => Some(
            RateLimitInfo {
                received_at: at,
                remaining_per_second: second,
                remaining_per_minute: minute,
            },
        ),
        _ => None,
    }
}

/// Puts an observation together from what was read of a response's headers.
pub fn rate_limit_info(
    received_at: Option<i64>,
    remaining_per_second: Option<u64>,
    remaining_per_minute: Option<u64>,
) -> (info: Option<RateLimitInfo>)
    ensures
        info == spec_rate_limit_info(received_at, remaining_per_second, remaining_per_minute),
{
    match (received_at, remaining_per_second, remaining_per_minute) {
        (Some(at), Some(second), Some(minute)) => Some(
            RateLimitInfo {
                received_at: at,
                remaining_per_second: second,
                remaining_per_minute: minute,
            },
        ),
        _ => None,
    }
}

/// The number in a header, where the header is there.
pub open spec fn spec_header_number(header: Option<&str>) -> Option<u64> {
    match header {
        Some(text) => spec_parse_u64(text@),
        None => None,
    }
}

/// The instant in a date header, where the header is there.
pub open spec fn spec_header_date(header: Option<&str>) -> Option<i64> {
    match header {
        Some(text) => rfc2822_timestamp(text@),
        None => None,
    }
}

/// Reads the observation out of a response's headers: its date and the two
/// remaining-quota values, each as the header's text or absent.
pub fn read_rate_limit_info(
    date: Option<&str>,
    remaining_per_second: Option<&str>,
    remaining_per_minute: Option<&str>,
) -> (info: Option<RateLimitInfo>)
    ensures
        info == spec_rate_limit_info(
            spec_header_date(date),
            spec_header_number(remaining_per_second),
            spec_header_number(remaining_per_minute),
        ),
{
    let received_at = match date {
        Some(text) => parse_http_date(text),
        None => None,
    };
    let second = match remaining_per_second {
        Some(text) => parse_u64(text),
        None => None,
    };
    let minute = match remaining_per_minute {
        Some(text) => parse_u64(text),
        None => None,
    };
    rate_limit_info(received_at, second, minute)
}

/// The mathematical content of a [`RateBudget`].
pub struct RateBudgetView {
    pub per_second_limit: u64,
    pub per_minute_limit: u64,
    pub remaining_per_second: u64,
    pub remaining_per_minute: u64,
    pub last_observed: Option<i64>,
}

impl RateBudgetView {
    /// Whether `info` is newer than everything observed so far.
    pub open spec fn is_news(self, info: RateLimitInfo) -> bool {
        match self.last_observed {
            Some(latest) => info.received_at > latest,
            None => true,
        }
    }

    /// The budget after one observation: a newer one replaces the belief,
    /// any other changes nothing.
    pub open spec fn observe(self, info: RateLimitInfo) -> RateBudgetView {
        if self.is_news(info) {
            RateBudgetView {
                remaining_per_second: info.remaining_per_second,
                remaining_per_minute: info.remaining_per_minute,
                last_observed: Some(info.received_at),
                ..self
            }
        } else {
            self
        }
    }

    /// The budget after a batch of responses, taken in the given order. A
    /// response without a readable observation changes nothing.
    pub open spec fn observe_all(self, reports: Seq<Option<RateLimitInfo>>) -> RateBudgetView
        decreases reports.len(),
    {
        if reports.len() == 0 {
            self
        } else {
            let before = self.observe_all(reports.drop_last());
            match reports.last() {
                Some(info) => before.observe(info),
                None => before,
            }
        }
    }

    /// The quota believed to be left: what both windows still allow.
    pub open spec fn remaining(self) -> u64 {
        if self.remaining_per_second <= self.remaining_per_minute {
            self.remaining_per_second
        } else {
            self.remaining_per_minute
        }
    }

    /// The most requests that the next batch may hold. One request is
    /// always let through; beyond it the batch stays within the quota left.
    pub open spec fn batch_capacity(self) -> u64 {
        if self.remaining() == 0 {
            1
        } else {
            self.remaining()
        }
    }

    /// How many of `queued` waiting requests go out in the next batch.
    pub open spec fn batch_size(self, queued: usize) -> usize {
        if queued <= self.batch_capacity() {
            queued
        } else {
            self.batch_capacity() as usize
        }
    }

    /// The pause, in seconds, that an exhausted quota calls for: the longer
    /// window where both are used up, none where quota is left.
    pub open spec fn pause(self) -> Option<u64> {
        if self.remaining_per_minute == 0 {
            Some(MINUTE_WINDOW)
        } else if self.remaining_per_second == 0 {
            Some(SECOND_WINDOW)
        } else {
            None
        }
    }

    /// The budget once the pause is over: every window that the pause
    /// covers is full again.
    pub open spec fn refilled(self) -> RateBudgetView {
        if self.remaining_per_minute == 0 {
            RateBudgetView {
                remaining_per_second: self.per_second_limit,
                remaining_per_minute: self.per_minute_limit,
                ..self
            }
        } else if self.remaining_per_second == 0 {
            RateBudgetView { remaining_per_second: self.per_second_limit, ..self }
        } else {
            self
        }
    }
}

/// The dispatcher's belief about the quota. Only its control loop holds one.
#[derive(Debug)]
pub struct RateBudget {
    per_second_limit: u64,
    per_minute_limit: u64,
    remaining_per_second: u64,
    remaining_per_minute: u64,
    last_observed: Option<i64>,
}

impl View for RateBudget {
    type V = RateBudgetView;

    closed spec fn view(&self) -> RateBudgetView {
        RateBudgetView {
            per_second_limit: self.per_second_limit,
            per_minute_limit: self.per_minute_limit,
            remaining_per_second: self.remaining_per_second,
            remaining_per_minute: self.remaining_per_minute,
            last_observed: self.last_observed,
        }
    }
}

impl RateBudget {
    /// A full budget under the two configured ceilings, with nothing
    /// observed yet.
    pub fn new(per_second_limit: u64, per_minute_limit: u64) -> (budget: RateBudget)
        ensures
            budget@ == (RateBudgetView {
                per_second_limit,
                per_minute_limit,
                remaining_per_second: per_second_limit,
                remaining_per_minute: per_minute_limit,
                last_observed: None,
            }),
    {
        RateBudget {
            per_second_limit,
            per_minute_limit,
            remaining_per_second: per_second_limit,
            remaining_per_minute: per_minute_limit,
            last_observed: None,
        }
    }

    /// Takes in what one response reports.
    pub fn observe(&mut self, info: &RateLimitInfo)
        ensures
            final(self)@ == old(self)@.observe(*info),
    {
        let news = match self.last_observed {
            Some(latest) => info.received_at > latest,
            None => true,
        };
        if news {
            self.remaining_per_second = info.remaining_per_second;
            self.remaining_per_minute = info.remaining_per_minute;
            self.last_observed = Some(info.received_at);
        }
    }

    /// The quota believed to be left.
    pub fn remaining(&self) -> (left: u64)
        ensures
            left == self@.remaining(),
    {
        if self.remaining_per_second <= self.remaining_per_minute {
            self.remaining_per_second
        } else {
            self.remaining_per_minute
        }
    }

    /// The most requests that the next batch may hold.
    pub fn batch_capacity(&self) -> (capacity: u64)
        ensures
            capacity == self@.batch_capacity(),
            capacity >= 1,
    {
        let left = self.remaining();
        if left == 0 {
            1
        } else {
            left
        }
    }

    /// How many of `queued` waiting requests go out in the next batch.
    pub fn batch_size(&self, queued: usize) -> (count: usize)
        ensures
            count == self@.batch_size(queued),
            count <= queued,
            queued >= 1 ==> count >= 1,
            count <= self@.batch_capacity(),
    {
        let capacity = self.batch_capacity();
        if queued as u64 <= capacity {
            queued
        } else {
            capacity as usize
        }
    }

    /// Accounts for a batch whose responses are all in: takes in what each
    /// reports, in the given order, and says for how many seconds the loop
    /// pauses before the next batch, if it pauses. The budget is left as it
    /// stands once that pause is over.
    pub fn complete_batch(&mut self, reports: &Vec<Option<RateLimitInfo>>) -> (pause: Option<u64>)
        ensures
            pause == old(self)@.observe_all(reports@).pause(),
            final(self)@ == old(self)@.observe_all(reports@).refilled(),
    {
        let mut i: usize = 0;
        while i < reports.len()
            invariant
                i <= reports.len(),
                self@ == old(self)@.observe_all(reports@.subrange(0, i as int)),
            decreases reports.len() - i,
        {
            assert(reports@.subrange(0, i + 1).drop_last() =~= reports@.subrange(0, i as int));
            match &reports[i] {
                Some(info) => {
                    self.observe(info);
                },
                None => {},
            }
            i += 1;
        }
        assert(reports@.subrange(0, i as int) =~= reports@);
        if self.remaining_per_minute == 0 {
            self.remaining_per_second = self.per_second_limit;
            self.remaining_per_minute = self.per_minute_limit;
            Some(MINUTE_WINDOW)
        } else if self.remaining_per_second == 0 {
            self.remaining_per_second = self.per_second_limit;
            Some(SECOND_WINDOW)
        } else {
            None
        }
    }

    /// The per-second ceiling that the budget was made with.
    pub fn per_second_limit(&self) -> (limit: u64)
        ensures
            limit == self@.per_second_limit,
    {
        self.per_second_limit
    }

    /// The per-minute ceiling that the budget was made with.
    pub fn per_minute_limit(&self) -> (limit: u64)
        ensures
            limit == self@.per_minute_limit,
    {
        self.per_minute_limit
    }

    /// The requests believed to be left in the running second.
    pub fn remaining_per_second(&self) -> (left: u64)
        ensures
            left == self@.remaining_per_second,
    {
        self.remaining_per_second
    }

    /// The requests believed to be left in the running minute.
    pub fn remaining_per_minute(&self) -> (left: u64)
        ensures
            left == self@.remaining_per_minute,
    {
        self.remaining_per_minute
    }

    /// When the upstream sent the newest observation taken in so far.
    pub fn last_observed(&self) -> (at: Option<i64>)
        ensures
            at == self@.last_observed,
    {
        self.last_observed
    }
}

/// Of two responses the one that the upstream sent later decides what the
/// tracker believes, whichever of them is taken in first, as long as that
/// later one is newer than everything the tracker had seen before.
pub proof fn lemma_latest_response_wins(
    budget: RateBudgetView,
    older: RateLimitInfo,
    newer: RateLimitInfo,
)
    requires
        older.received_at < newer.received_at,
        budget.is_news(newer),
    ensures
        budget.observe(older).observe(newer) == budget.observe(newer).observe(older),
        budget.observe(older).observe(newer).remaining_per_second == newer.remaining_per_second,
        budget.observe(older).observe(newer).remaining_per_minute == newer.remaining_per_minute,
        budget.observe(older).observe(newer).last_observed == Some(newer.received_at),
{
}

/// A batch of two responses leaves the tracker with what the later-sent
/// one reports, in whichever order the two are accounted for.
pub proof fn lemma_batch_of_two(budget: RateBudgetView, older: RateLimitInfo, newer: RateLimitInfo)
    requires
        older.received_at < newer.received_at,
        budget.is_news(newer),
    ensures
        budget.observe_all(seq![Some(older), Some(newer)]) == budget.observe_all(
            seq![Some(newer), Some(older)],
        ),
        budget.observe_all(seq![Some(older), Some(newer)]).remaining_per_second
            == newer.remaining_per_second,
        budget.observe_all(seq![Some(older), Some(newer)]).remaining_per_minute
            == newer.remaining_per_minute,
{
    let forth = seq![Some(older), Some(newer)];
    let back = seq![Some(newer), Some(older)];
    assert(forth.drop_last() =~= seq![Some(older)]);
    assert(back.drop_last() =~= seq![Some(newer)]);
    assert(seq![Some(older)].drop_last() =~= Seq::<Option<RateLimitInfo>>::empty());
    assert(seq![Some(newer)].drop_last() =~= Seq::<Option<RateLimitInfo>>::empty());
    reveal_with_fuel(RateBudgetView::observe_all, 3);
    lemma_latest_response_wins(budget, older, newer);
}

/// Of the responses of a batch the one that the upstream sent last decides
/// what the tracker believes, wherever in the batch it stands, as long as
/// it is newer than everything the tracker had seen before.
pub proof fn lemma_latest_of_batch_wins(
    budget: RateBudgetView,
    reports: Seq<Option<RateLimitInfo>>,
    latest: int,
)
    requires
        0 <= latest < reports.len(),
        reports[latest] is Some,
        budget.is_news(reports[latest]->0),
        forall|i: int|
            0 <= i < reports.len() && i != latest ==> (#[trigger] reports[i] matches Some(info)
                ==> info.received_at < reports[latest]->0.received_at),
    ensures
        budget.observe_all(reports) == (RateBudgetView {
            remaining_per_second: reports[latest]->0.remaining_per_second,
            remaining_per_minute: reports[latest]->0.remaining_per_minute,
            last_observed: Some(reports[latest]->0.received_at),
            ..budget
        }),
    decreases reports.len(),
{
    let front = reports.drop_last();
    let newest = reports[latest]->0;
    if latest == reports.len() - 1 {
        lemma_batch_keeps_newest(budget, front);
        let before = budget.observe_all(front);
        assert(before.is_news(newest)) by {
            lemma_batch_never_ahead(budget, front, newest.received_at);
        }
    } else {
        assert(front[latest] == reports[latest]);
        assert forall|i: int| 0 <= i < front.len() && i != latest implies (
        #[trigger] front[i] matches Some(info) ==> info.received_at < front[latest]->0.received_at) by {
            assert(front[i] == reports[i]);
        }
        lemma_latest_of_batch_wins(budget, front, latest);
    }
}

/// A batch whose reports are all older than some instant leaves a tracker
/// that had seen nothing as new as that instant in the same state.
proof fn lemma_batch_never_ahead(
    budget: RateBudgetView,
    reports: Seq<Option<RateLimitInfo>>,
    instant: i64,
)
    requires
        budget.last_observed matches Some(before) ==> before < instant,
        forall|i: int|
            0 <= i < reports.len() ==> (#[trigger] reports[i] matches Some(info)
                ==> info.received_at < instant),
    ensures
        budget.observe_all(reports).last_observed matches Some(after) ==> after < instant,
    decreases reports.len(),
{
    if reports.len() > 0 {
        let front = reports.drop_last();
        assert forall|i: int| 0 <= i < front.len() implies (#[trigger] front[i] matches Some(
            info,
        ) ==> info.received_at < instant) by {
            assert(front[i] == reports[i]);
        }
        lemma_batch_never_ahead(budget, front, instant);
        assert(reports.last() == reports[reports.len() - 1]);
    }
}

/// After a batch the tracker has seen nothing newer than what it holds:
/// no report of the batch is later than its newest observation, and the
/// ceilings are as they were.
pub proof fn lemma_batch_keeps_newest(budget: RateBudgetView, reports: Seq<Option<RateLimitInfo>>)
    ensures
        budget.observe_all(reports).per_second_limit == budget.per_second_limit,
        budget.observe_all(reports).per_minute_limit == budget.per_minute_limit,
        forall|i: int|
            0 <= i < reports.len() ==> (#[trigger] reports[i] matches Some(info)
                ==> !budget.observe_all(reports).is_news(info)),
        budget.last_observed matches Some(before) ==> (budget.observe_all(
            reports,
        ).last_observed matches Some(after) && before <= after),
    decreases reports.len(),
{
    if reports.len() > 0 {
        let front = reports.drop_last();
        lemma_batch_keeps_newest(budget, front);
        assert forall|i: int| 0 <= i < reports.len() implies (#[trigger] reports[i] matches Some(
            info,
        ) ==> !budget.observe_all(reports).is_news(info)) by {
            if i < reports.len() - 1 {
                assert(front[i] == reports[i]);
            }
        }
    }
}

} // verus!
