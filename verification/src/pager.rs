//! The match-history pager: enumerates a player's match identifiers over a
//! bounded recent window, one page at a time.

use crate::models::{LolApiError, LolApiErrorView};
use crate::text::{append_decimal, decimal, opt_text, texts};
use vstd::prelude::*;
use vstd::string::*;

verus! {

/// The longest window, in days, that a listing may cover.
pub const MAX_WINDOW_DAYS: u64 = 7;

/// The number of identifiers asked for with each page.
pub const PAGE_SIZE: usize = 100;

/// The length of a day in seconds.
pub const SECONDS_PER_DAY: u64 = 86400;

/// The number of days a request for `days` days actually covers.
pub open spec fn spec_effective_days(days: u64) -> u64 {
    if days > MAX_WINDOW_DAYS {
        MAX_WINDOW_DAYS
    } else {
        days
    }
}

/// Clamps a requested number of days to the window ceiling.
pub fn effective_days(days: u64) -> (effective: u64)
    ensures
        effective == spec_effective_days(days),
        effective <= MAX_WINDOW_DAYS,
        effective <= days,
{
    if days > MAX_WINDOW_DAYS {
        MAX_WINDOW_DAYS
    } else {
        days
    }
}

/// A span of time between two instants, each in seconds since the Unix
/// epoch.
#[derive(Clone, Copy, Debug, PartialEq, Eq, Structural)]
pub struct TimeWindow {
    pub start_time: u64,
    pub end_time: u64,
}

/// The window that ends at `now` and reaches back over the effective
/// number of days.
pub open spec fn spec_time_window(now: u64, days: u64) -> TimeWindow {
    TimeWindow {
        start_time: (now - spec_effective_days(days) * SECONDS_PER_DAY) as u64,
        end_time: now,
    }
}

/// The window of a listing requested at `now` for the last `days` days.
pub fn time_window(now: u64, days: u64) -> (window: TimeWindow)
    requires
        now >= spec_effective_days(days) * SECONDS_PER_DAY,
    ensures
        window == spec_time_window(now, days),
        window.end_time == now,
        window.end_time - window.start_time == spec_effective_days(days) * SECONDS_PER_DAY,
{
    let span = effective_days(days) * SECONDS_PER_DAY;
    TimeWindow { start_time: now - span, end_time: now }
}

/// Whether the clock reading `now` is late enough for a window of `days`
/// days to end at it.
pub fn window_fits(now: u64, days: u64) -> (fits: bool)
    ensures
        fits == (now >= spec_effective_days(days) * SECONDS_PER_DAY),
{
    now >= effective_days(days) * SECONDS_PER_DAY
}

/// The effective window is that of the smaller of the requested days and
/// the ceiling: asking for more than the ceiling is asking for the ceiling,
/// and asking for no days gives a window that is empty.
pub proof fn lemma_window_is_clamped(now: u64, days: u64)
    ensures
        spec_effective_days(days) == if days <= MAX_WINDOW_DAYS {
            days
        } else {
            MAX_WINDOW_DAYS
        },
        days >= MAX_WINDOW_DAYS ==> spec_time_window(now, days) == spec_time_window(
            now,
            MAX_WINDOW_DAYS,
        ),
        spec_time_window(now, 0).start_time == spec_time_window(now, 0).end_time,
{
}

/// The address of one page of a player's match identifiers.
pub open spec fn spec_game_ids_request_url(
    region: Seq<char>,
    api_key: Seq<char>,
    puuid: Seq<char>,
    game_type: Option<Seq<char>>,
    window: TimeWindow,
    start_index: nat,
    page_size: nat,
) -> Seq<char> {
    let base = "https://"@ + region + ".api.riotgames.com/lol/match/v5/matches/by-puuid/"@ + puuid
        + "/ids?api_key="@ + api_key + "&count="@ + decimal(page_size) + "&start="@ + decimal(
        start_index,
    ) + "&startTime="@ + decimal(window.start_time as nat) + "&endTime="@ + decimal(
        window.end_time as nat,
    );
    match game_type {
        Some(kind) => base + "&type="@ + kind,
        None => base,
    }
}

/// Builds the address of one page of a player's match identifiers: `page_size`
/// identifiers from position `start_index` on, of the matches within
/// `window`, of the given type where one is named.
pub fn build_game_ids_request_url(
    region: &str,
    api_key: &str,
    puuid: &str,
    game_type: &Option<String>,
    window: &TimeWindow,
    start_index: usize,
    page_size: usize,
) -> (url: String)
    ensures
        url@ == spec_game_ids_request_url(
            region@,
            api_key@,
            puuid@,
            opt_text(*game_type),
            *window,
            start_index as nat,
            page_size as nat,
        ),
{
    let mut url = String::from_str("https://");
    url.append(region);
    url.append(".api.riotgames.com/lol/match/v5/matches/by-puuid/");
    url.append(puuid);
    url.append("/ids?api_key=");
    url.append(api_key);
    url.append("&count=");
    append_decimal(&mut url, page_size as u64);
    url.append("&start=");
    append_decimal(&mut url, start_index as u64);
    url.append("&startTime=");
    append_decimal(&mut url, window.start_time);
    url.append("&endTime=");
    append_decimal(&mut url, window.end_time);
    match game_type {
        Some(kind) => {
            url.append("&type=");
            url.append(kind.as_str());
        },
        None => {},
    }
    url
}

/// What the pager does after a page.
#[derive(Clone, Copy, Debug, PartialEq, Eq, Structural)]
pub enum PagerStep {
    /// The page was full: ask for the next one.
    NextPage,
    /// The page was short: the listing is complete.
    Done,
}

/// The mathematical content of a [`Pager`].
pub struct PagerView {
    pub region: Seq<char>,
    pub api_key: Seq<char>,
    pub puuid: Seq<char>,
    pub game_type: Option<Seq<char>>,
    pub window: TimeWindow,
    pub page_size: nat,
    pub start_index: nat,
    pub game_ids: Seq<Seq<char>>,
    pub finished: bool,
}

impl PagerView {
    /// The address of the page that the pager asks for next.
    pub open spec fn request_url(self) -> Seq<char> {
        spec_game_ids_request_url(
            self.region,
            self.api_key,
            self.puuid,
            self.game_type,
            self.window,
            self.start_index,
            self.page_size,
        )
    }

    /// The pager after a page that held `ids`: they are added in the order
    /// given. A page shorter than the page size ends the listing; a full one
    /// moves the cursor on by the page size.
    pub open spec fn after_page(self, ids: Seq<Seq<char>>) -> PagerView {
        if ids.len() < self.page_size {
            PagerView { game_ids: self.game_ids + ids, finished: true, ..self }
        } else {
            PagerView {
                game_ids: self.game_ids + ids,
                start_index: self.start_index + self.page_size,
                ..self
            }
        }
    }

    /// The step that follows a page that held `ids`.
    pub open spec fn step_after(self, ids: Seq<Seq<char>>) -> PagerStep {
        if ids.len() < self.page_size {
            PagerStep::Done
        } else {
            PagerStep::NextPage
        }
    }

    /// The pager after the answer to a page: its status and, where the body
    /// was a list of identifiers, that list. Only a list that came with a
    /// successful status changes anything.
    pub open spec fn after_answer(self, status: u16, ids: Option<Seq<Seq<char>>>) -> PagerView {
        match ids {
            Some(ids) if spec_is_success(status) => self.after_page(ids),
            _ => self,
        }
    }

    /// What follows the answer to a page: the next step, or the failure of
    /// the listing where the status is outside the successful range or the
    /// body is no list of identifiers.
    pub open spec fn answer_step(self, status: u16, ids: Option<Seq<Seq<char>>>) -> Result<
        PagerStep,
        LolApiErrorView,
    > {
        if !spec_is_success(status) {
            Err(spec_listing_rejected(status))
        } else {
            match ids {
                None => Err(spec_listing_unreadable(status)),
                Some(ids) => Ok(self.step_after(ids)),
            }
        }
    }

    /// The positions that the pager asks for, in order, until the listing
    /// is complete, when the upstream holds `upstream` and answers each
    /// request with [`served`].
    pub open spec fn requested_offsets(self, upstream: Seq<Seq<char>>) -> Seq<nat>
        decreases upstream.len() - self.start_index,
    {
        let page = served(upstream, self.start_index, self.page_size);
        if self.page_size > 0 && page.len() >= self.page_size {
            seq![self.start_index] + self.after_page(page).requested_offsets(upstream)
        } else {
            seq![self.start_index]
        }
    }

    /// The identifiers that the pager holds once the listing is complete,
    /// when the upstream holds `upstream` and answers each request with
    /// [`served`].
    pub open spec fn collected(self, upstream: Seq<Seq<char>>) -> Seq<Seq<char>>
        decreases upstream.len() - self.start_index,
    {
        let page = served(upstream, self.start_index, self.page_size);
        if self.page_size > 0 && page.len() >= self.page_size {
            self.after_page(page).collected(upstream)
        } else {
            self.after_page(page).game_ids
        }
    }
}

/// The page that an upstream holding `upstream` returns for `count`
/// identifiers from position `start` on: those that it has in that range.
pub open spec fn served(upstream: Seq<Seq<char>>, start: nat, count: nat) -> Seq<Seq<char>> {
    if start >= upstream.len() {
        Seq::empty()
    } else if start + count >= upstream.len() {
        upstream.subrange(start as int, upstream.len() as int)
    } else {
        upstream.subrange(start as int, (start + count) as int)
    }
}

/// The failure that a listing page with a status outside the successful
/// range becomes.
pub open spec fn spec_listing_rejected(status: u16) -> LolApiErrorView {
    LolApiErrorView {
        description: "Erroring fetching game IDs list, status code: "@ + decimal(status as nat),
        http_code: decimal(status as nat),
    }
}

/// The failure that a listing page becomes whose body is no list of
/// identifiers.
pub open spec fn spec_listing_unreadable(status: u16) -> LolApiErrorView {
    LolApiErrorView {
        description: "Unexpectedly not a JSON body, HTTP code: "@ + decimal(status as nat) + "."@,
        http_code: decimal(status as nat),
    }
}

/// The content of a step or of the failure of a listing.
pub open spec fn step_view(step: Result<PagerStep, LolApiError>) -> Result<
    PagerStep,
    LolApiErrorView,
> {
    match step {
        Ok(step) => Ok(step),
        Err(error) => Err(error@),
    }
}

/// The characters of each string of a list that may be absent.
pub open spec fn opt_texts(list: Option<Vec<String>>) -> Option<Seq<Seq<char>>> {
    match list {
        Some(list) => Some(texts(list@)),
        None => None,
    }
}

/// The strings of a JSON document that is an array of strings and nothing
/// else; none for every other sequence of bytes.
pub uninterp spec fn json_string_list(body: Seq<u8>) -> Option<Seq<Seq<char>>>;

/// Reads a JSON array of strings.
///
/// Trusted: stands for `serde_json::from_slice` at the type `Vec<String>`.
/// The contract claims only that the result is a function of the bytes,
/// which [`json_string_list`] names.
#[verifier::external_body]
fn decode_string_list(body: &[u8]) -> (list: Option<Vec<String>>)
    ensures
        opt_texts(list) == json_string_list(body@),
{
    serde_json::from_slice::<Vec<String>>(body).ok()
}

/// The identifiers in the body of a page, where the body could be read and
/// is a list of identifiers.
pub open spec fn spec_page_ids(body: Option<&[u8]>) -> Option<Seq<Seq<char>>> {
    match body {
        Some(bytes) => json_string_list(bytes@),
        None => None,
    }
}

/// Whether a status reports success.
pub open spec fn spec_is_success(status: u16) -> bool {
    200 <= status < 300
}

/// Whether a status reports success.
pub fn is_success(status: u16) -> (success: bool)
    ensures
        success == spec_is_success(status),
{
    200 <= status && status < 300
}

/// The state of one listing: where the next page starts and what has been
/// found so far.
#[derive(Debug)]
pub struct Pager {
    region: String,
    api_key: String,
    puuid: String,
    game_type: Option<String>,
    window: TimeWindow,
    start_index: usize,
    game_ids: Vec<String>,
    finished: bool,
}

impl View for Pager {
    type V = PagerView;

    closed spec fn view(&self) -> PagerView {
        PagerView {
            region: self.region@,
            api_key: self.api_key@,
            puuid: self.puuid@,
            game_type: opt_text(self.game_type),
            window: self.window,
            page_size: PAGE_SIZE as nat,
            start_index: self.start_index as nat,
            game_ids: texts(self.game_ids@),
            finished: self.finished,
        }
    }
}

impl Pager {
    /// What holds of every pager between calls: the cursor has not moved
    /// past what was found.
    pub closed spec fn wf(&self) -> bool {
        self.start_index <= self.game_ids@.len()
    }

    /// A listing for the player `puuid` over the last `days` days before
    /// `now`, of matches of `game_type` where one is named. Nothing has been
    /// asked for yet.
    pub fn new(
        region: String,
        api_key: String,
        puuid: String,
        game_type: Option<String>,
        days: u64,
        now: u64,
    ) -> (pager: Pager)
        requires
            now >= spec_effective_days(days) * SECONDS_PER_DAY,
        ensures
            pager.wf(),
            pager@ == (PagerView {
                region: region@,
                api_key: api_key@,
                puuid: puuid@,
                game_type: opt_text(game_type),
                window: spec_time_window(now, days),
                page_size: PAGE_SIZE as nat,
                start_index: 0,
                game_ids: Seq::empty(),
                finished: false,
            }),
    {
        let window = time_window(now, days);
        let pager = Pager {
            region,
            api_key,
            puuid,
            game_type,
            window,
            start_index: 0,
            game_ids: Vec::new(),
            finished: false,
        };
        assert(texts(pager.game_ids@) =~= Seq::empty());
        pager
    }

    /// The address of the page to ask for next.
    pub fn request_url(&self) -> (url: String)
        ensures
            url@ == self@.request_url(),
    {
        build_game_ids_request_url(
            self.region.as_str(),
            self.api_key.as_str(),
            self.puuid.as_str(),
            &self.game_type,
            &self.window,
            self.start_index,
            PAGE_SIZE,
        )
    }

    /// Takes the answer to the page last asked for: its status and, where
    /// the body was a list of identifiers, that list.
    ///
    /// A status outside the successful range and an unreadable body each
    /// fail the listing and leave the pager as it was. Otherwise the
    /// identifiers are added and the result says whether another page
    /// follows.
    pub fn on_page(&mut self, status: u16, ids: Option<Vec<String>>) -> (step: Result<
        PagerStep,
        LolApiError,
    >)
        requires
            old(self).wf(),
        ensures
            final(self).wf(),
            final(self)@ == old(self)@.after_answer(status, opt_texts(ids)),
            step_view(step) == old(self)@.answer_step(status, opt_texts(ids)),
    {
        if !is_success(status) {
            let mut description = String::from_str("Erroring fetching game IDs list, status code: ");
            append_decimal(&mut description, status as u64);
            let mut http_code = String::new();
            append_decimal(&mut http_code, status as u64);
            assert(http_code@ =~= decimal(status as nat));
            return Err(LolApiError { description, http_code });
        }
        match ids {
            None => {
                let mut description = String::from_str("Unexpectedly not a JSON body, HTTP code: ");
                append_decimal(&mut description, status as u64);
                description.append(".");
                let mut http_code = String::new();
                append_decimal(&mut http_code, status as u64);
                assert(http_code@ =~= decimal(status as nat));
                Err(LolApiError { description, http_code })
            },
            Some(mut page) => {
                let count = page.len();
                let ghost before = self.game_ids@;
                let ghost added = page@;
                self.game_ids.append(&mut page);
                let total = self.game_ids.len();
                assert(total == before.len() + count);
                assert(texts(before + added) =~= texts(before) + texts(added));
                if count < PAGE_SIZE {
                    self.finished = true;
                    Ok(PagerStep::Done)
                } else {
                    self.start_index = self.start_index + PAGE_SIZE;
                    Ok(PagerStep::NextPage)
                }
            },
        }
    }

    /// Takes the answer to the page last asked for: its status and its
    /// body as it arrived, or nothing where the body could not be read.
    pub fn on_page_body(&mut self, status: u16, body: Option<&[u8]>) -> (step: Result<
        PagerStep,
        LolApiError,
    >)
        requires
            old(self).wf(),
        ensures
            final(self).wf(),
            final(self)@ == old(self)@.after_answer(status, spec_page_ids(body)),
            step_view(step) == old(self)@.answer_step(status, spec_page_ids(body)),
    {
        let ids = match body {
            Some(bytes) => {
                if is_success(status) {
                    decode_string_list(bytes)
                } else {
                    None
                }
            },
            None => None,
        };
        self.on_page(status, ids)
    }

    /// Whether the listing is complete.
    pub fn is_finished(&self) -> (finished: bool)
        ensures
            finished == self@.finished,
    {
        self.finished
    }

    /// The position at which the next page starts.
    pub fn start_index(&self) -> (start: usize)
        ensures
            start == self@.start_index,
    {
        self.start_index
    }

    /// The window that the listing covers.
    pub fn window(&self) -> (window: TimeWindow)
        ensures
            window == self@.window,
    {
        self.window
    }

    /// The identifiers found, in the order in which the pages held them.
    pub fn into_game_ids(self) -> (ids: Vec<String>)
        ensures
            texts(ids@) == self@.game_ids,
    {
        self.game_ids
    }
}

/// A listing that has taken the first `start_index` identifiers of the
/// upstream finishes with all of them, in the upstream's order. Until then
/// it asks for one page per page size that is left, and once more for the
/// short page that ends it; each request starts one page size after the one
/// before, and none starts past the end of what the upstream holds.
pub proof fn lemma_listing_from(pager: PagerView, upstream: Seq<Seq<char>>)
    requires
        pager.page_size > 0,
        pager.start_index <= upstream.len(),
        pager.game_ids == upstream.subrange(0, pager.start_index as int),
    ensures
        pager.collected(upstream) == upstream,
        pager.requested_offsets(upstream).len() == (upstream.len() - pager.start_index)
            / (pager.page_size as int) + 1,
        forall|i: int|
            0 <= i < pager.requested_offsets(upstream).len() ==> {
                &&& #[trigger] pager.requested_offsets(upstream)[i] == pager.start_index + i
                    * pager.page_size
                &&& pager.requested_offsets(upstream)[i] <= upstream.len()
            },
    decreases upstream.len() - pager.start_index,
{
    let left = upstream.len() - pager.start_index;
    let size = pager.page_size as int;
    let page = served(upstream, pager.start_index, pager.page_size);
    if page.len() >= pager.page_size {
        let next = pager.after_page(page);
        assert(next.game_ids =~= upstream.subrange(0, next.start_index as int));
        lemma_listing_from(next, upstream);
        vstd::arithmetic::div_mod::lemma_div_minus_one(left, size);
        assert((left - size) / size == (-size + left) / size);
        let rest = next.requested_offsets(upstream);
        let offsets = pager.requested_offsets(upstream);
        assert(offsets == seq![pager.start_index] + rest);
        assert forall|i: int| 0 <= i < offsets.len() implies {
            &&& #[trigger] offsets[i] == pager.start_index + i * pager.page_size
            &&& offsets[i] <= upstream.len()
        } by {
            if i > 0 {
                assert(offsets[i] == rest[i - 1]);
                assert((i - 1) * size + size == i * size) by (nonlinear_arith);
            }
        }
    } else {
        vstd::arithmetic::div_mod::lemma_basic_div(left, size);
        assert(pager.after_page(page).game_ids =~= upstream);
        let offsets = pager.requested_offsets(upstream);
        assert(offsets == seq![pager.start_index]);
        assert(offsets[0] == pager.start_index + 0 * pager.page_size) by {
            assert(0 * pager.page_size == 0) by (nonlinear_arith);
        }
    }
}

/// Pagination terminates with everything: a fresh listing against an
/// upstream that holds `n` identifiers asks for `(n + 1) / page_size` pages,
/// rounded up, and then holds exactly those `n` identifiers in the
/// upstream's order. No two of its requests start at the same position and
/// none starts past the end.
pub proof fn lemma_pagination_terminates(pager: PagerView, upstream: Seq<Seq<char>>)
    requires
        pager.page_size > 0,
        pager.start_index == 0,
        pager.game_ids == Seq::<Seq<char>>::empty(),
    ensures
        pager.collected(upstream) == upstream,
        pager.requested_offsets(upstream).len() == (upstream.len() + 1 + pager.page_size - 1)
            / (pager.page_size as int),
        forall|i: int|
            0 <= i < pager.requested_offsets(upstream).len() ==> {
                &&& #[trigger] pager.requested_offsets(upstream)[i] == i * pager.page_size
                &&& pager.requested_offsets(upstream)[i] <= upstream.len()
            },
        forall|i: int, j: int|
            0 <= i < j < pager.requested_offsets(upstream).len()
                ==> pager.requested_offsets(upstream)[i] < pager.requested_offsets(upstream)[j],
{
    assert(pager.game_ids =~= upstream.subrange(0, 0));
    lemma_listing_from(pager, upstream);
    let size = pager.page_size as int;
    vstd::arithmetic::div_mod::lemma_div_plus_one(upstream.len() as int, size);
    let offsets = pager.requested_offsets(upstream);
    assert forall|i: int, j: int| 0 <= i < j < offsets.len() implies offsets[i] < offsets[j] by {
        assert(offsets[i] == i * size);
        assert(offsets[j] == j * size);
        assert(i * size < j * size) by (nonlinear_arith)
            requires
                i < j,
                size > 0,
        ;
    }
}

} // verus!
