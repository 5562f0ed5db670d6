//! The match-summary aggregator: turns the answers to match-detail, player
//! and ranking lookups into what a report is built from.

use crate::models::{
    entries_view, opt_entry_view, roster_view, summaries_view, GameSummary, GameSummaryView, LeagueEntry,
    LeagueEntryView, LolApiError, LolApiErrorView, Participant, ParticipantView, UserGameSummary,
    UserGameSummaryView,
};
use crate::pager::{is_success, spec_is_success};
use crate::text::{append_decimal, decimal, same_text};
use vstd::prelude::*;
use vstd::string::*;

verus! {

/// The queue whose standing a ranked report shows.
pub open spec fn solo_queue() -> Seq<char> {
    "RANKED_SOLO_5x5"@
}

/// The first participant of a roster who is the player `puuid`.
pub open spec fn spec_find_participant(puuid: Seq<char>, roster: Seq<ParticipantView>) -> Option<
    ParticipantView,
>
    decreases roster.len(),
{
    if roster.len() == 0 {
        None
    } else if roster[0].puuid == puuid {
        Some(roster[0])
    } else {
        spec_find_participant(puuid, roster.drop_first())
    }
}

/// The content of a participant who may be absent.
pub open spec fn opt_participant_view(participant: Option<Participant>) -> Option<
    ParticipantView,
> {
    match participant {
        Some(participant) => Some(participant@),
        None => None,
    }
}

/// The search of a roster finds nobody exactly when nobody of the roster is
/// the player, and whom it finds is the player and of the roster.
pub proof fn lemma_find_participant(puuid: Seq<char>, roster: Seq<ParticipantView>)
    ensures
        spec_find_participant(puuid, roster) is None <==> forall|i: int|
            0 <= i < roster.len() ==> (#[trigger] roster[i]).puuid != puuid,
        spec_find_participant(puuid, roster) matches Some(found) ==> found.puuid == puuid
            && roster.contains(found),
    decreases roster.len(),
{
    if roster.len() > 0 {
        let rest = roster.drop_first();
        lemma_find_participant(puuid, rest);
        if roster[0].puuid != puuid {
            assert forall|i: int| 0 <= i < rest.len() implies rest[i] == roster[i + 1] by {}
            if spec_find_participant(puuid, rest) is None {
                assert forall|i: int| 0 <= i < roster.len() implies (#[trigger] roster[i]).puuid
                    != puuid by {
                    if i > 0 {
                        assert(rest[i - 1] == roster[i]);
                    }
                }
            } else {
                let found = spec_find_participant(puuid, rest)->0;
                let k = choose|k: int| 0 <= k < rest.len() && rest[k] == found;
                assert(roster[k + 1] == found);
            }
        } else {
            assert(roster[0] == roster[0]);
        }
    }
}

/// Looks up the player `puuid` in a match's roster.
pub fn find_user_game_summary(puuid: &str, participants: Vec<Participant>) -> (found: Option<
    Participant,
>)
    ensures
        opt_participant_view(found) == spec_find_participant(puuid@, roster_view(participants@)),
{
    let ghost roster = roster_view(participants@);
    let mut roster_left = participants;
    let mut i: usize = 0;
    assert(roster.subrange(0, roster.len() as int) =~= roster);
    while i < roster_left.len()
        invariant
            i <= roster_left.len(),
            roster == roster_view(participants@),
            roster == roster_view(roster_left@),
            spec_find_participant(puuid@, roster) == spec_find_participant(
                puuid@,
                roster.subrange(i as int, roster.len() as int),
            ),
        decreases roster_left.len() - i,
    {
        let ghost tail = roster.subrange(i as int, roster.len() as int);
        assert(tail[0] == roster_left@[i as int]@);
        assert(tail.drop_first() =~= roster.subrange(i + 1, roster.len() as int));
        if same_text(roster_left[i].puuid.as_str(), puuid) {
            let found = roster_left.swap_remove(i);
            return Some(found);
        }
        i += 1;
    }
    assert(roster.subrange(i as int, roster.len() as int) =~= Seq::empty());
    None
}

/// The address of the details of one match.
pub open spec fn spec_game_summary_request_url(
    region: Seq<char>,
    game_id: Seq<char>,
    api_key: Seq<char>,
) -> Seq<char> {
    "https://"@ + region + ".api.riotgames.com/lol/match/v5/matches/"@ + game_id + "?api_key="@
        + api_key
}

/// Builds the address of the details of one match.
pub fn game_summary_request_url(region: &str, game_id: &str, api_key: &str) -> (url: String)
    ensures
        url@ == spec_game_summary_request_url(region@, game_id@, api_key@),
{
    let mut url = String::from_str("https://");
    url.append(region);
    url.append(".api.riotgames.com/lol/match/v5/matches/");
    url.append(game_id);
    url.append("?api_key=");
    url.append(api_key);
    url
}

/// The text of a decoding failure, or the content of what was decoded.
pub open spec fn decoded_view<T: View>(body: Result<T, String>) -> Result<T::V, Seq<char>> {
    match body {
        Ok(value) => Ok(value@),
        Err(text) => Err(text@),
    }
}

/// The content of one match's outcome for a player.
pub open spec fn summary_result_view(result: Result<UserGameSummary, LolApiError>) -> Result<
    UserGameSummaryView,
    LolApiErrorView,
> {
    match result {
        Ok(summary) => Ok(summary@),
        Err(error) => Err(error@),
    }
}

/// What the answer to a match-detail request means for the player `puuid`.
///
/// A status outside the successful range is an upstream rejection that
/// carries the status as its code. A body that does not decode is surfaced
/// with the decoder's description. A match whose roster lacks the player
/// is inconsistent and fails. Otherwise the player's record is paired with
/// the match's number, identifier and duration.
pub open spec fn spec_game_player_summary(
    puuid: Seq<char>,
    status: u16,
    body: Result<GameSummaryView, Seq<char>>,
) -> Result<UserGameSummaryView, LolApiErrorView> {
    if !spec_is_success(status) {
        Err(
            LolApiErrorView {
                description: "HTTP error getting user summary in match"@,
                http_code: decimal(status as nat),
            },
        )
    } else {
        match body {
            Err(text) => Err(
                LolApiErrorView { description: text, http_code: LolApiError::internal_code() },
            ),
            Ok(game) => match spec_find_participant(puuid, game.participants) {
                None => Err(
                    LolApiErrorView {
                        description: "Could not find user summary in match"@,
                        http_code: LolApiError::internal_code(),
                    },
                ),
                Some(participant) => Ok(
                    UserGameSummaryView {
                        game_id: game.game_id,
                        match_id: game.match_id,
                        participant,
                        game_duration_millis: game.game_duration,
                    },
                ),
            },
        }
    }
}

/// Reads the answer to a match-detail request for the player `puuid`: the
/// response's status and its body, decoded or with the reason why it did
/// not decode.
pub fn game_player_summary(puuid: &str, status: u16, body: Result<GameSummary, String>) -> (summary:
    Result<UserGameSummary, LolApiError>)
    ensures
        summary_result_view(summary) == spec_game_player_summary(
            puuid@,
            status,
            decoded_view(body),
        ),
{
    if !is_success(status) {
        let mut http_code = String::new();
        append_decimal(&mut http_code, status as u64);
        assert(http_code@ =~= decimal(status as nat));
        return Err(
            LolApiError {
                description: "HTTP error getting user summary in match".to_string(),
                http_code,
            },
        );
    }
    match body {
        Err(text) => Err(LolApiError::internal(text)),
        Ok(game) => {
            let GameSummary { metadata, info } = game;
            match find_user_game_summary(puuid, info.participants) {
                None => Err(
                    LolApiError::internal("Could not find user summary in match".to_string()),
                ),
                Some(participant) => Ok(
                    UserGameSummary {
                        game_id: info.game_id,
                        match_id: metadata.match_id,
                        participant,
                        game_duration_millis: info.game_duration,
                    },
                ),
            }
        },
    }
}

/// The position of the first failure among the outcomes of a fan-out, or
/// their number where none failed.
pub open spec fn first_failure(
    outcomes: Seq<Result<UserGameSummaryView, LolApiErrorView>>,
) -> int
    decreases outcomes.len(),
{
    if outcomes.len() == 0 {
        0
    } else if outcomes[0] is Err {
        0
    } else {
        1 + first_failure(outcomes.drop_first())
    }
}

/// The outcome of a fan-out as a whole: every summary in the order of the
/// requests where all succeeded, else the first failure in that order and
/// no summary at all.
pub open spec fn spec_collect_game_summaries(
    outcomes: Seq<Result<UserGameSummaryView, LolApiErrorView>>,
) -> Result<Seq<UserGameSummaryView>, LolApiErrorView> {
    let failed = first_failure(outcomes);
    if 0 <= failed < outcomes.len() {
        Err(outcomes[failed]->Err_0)
    } else {
        Ok(outcomes.map_values(|outcome: Result<UserGameSummaryView, LolApiErrorView>| outcome->Ok_0))
    }
}

/// The content of each outcome of a fan-out.
pub open spec fn outcomes_view(outcomes: Seq<Result<UserGameSummary, LolApiError>>) -> Seq<
    Result<UserGameSummaryView, LolApiErrorView>,
> {
    outcomes.map_values(|outcome: Result<UserGameSummary, LolApiError>| summary_result_view(outcome))
}

/// The content of the outcome of a fan-out as a whole.
pub open spec fn collected_view(collected: Result<Vec<UserGameSummary>, LolApiError>) -> Result<
    Seq<UserGameSummaryView>,
    LolApiErrorView,
> {
    match collected {
        Ok(summaries) => Ok(summaries_view(summaries@)),
        Err(error) => Err(error@),
    }
}

/// The first failure is a failure, nothing before it is one, and where
/// there is none every outcome is a success.
pub proof fn lemma_first_failure(outcomes: Seq<Result<UserGameSummaryView, LolApiErrorView>>)
    ensures
        0 <= first_failure(outcomes) <= outcomes.len(),
        first_failure(outcomes) < outcomes.len() ==> outcomes[first_failure(outcomes)] is Err,
        forall|i: int| 0 <= i < first_failure(outcomes) ==> (#[trigger] outcomes[i]) is Ok,
    decreases outcomes.len(),
{
    if outcomes.len() > 0 && outcomes[0] is Ok {
        let rest = outcomes.drop_first();
        lemma_first_failure(rest);
        assert forall|i: int| 0 <= i < first_failure(outcomes) implies (
        #[trigger] outcomes[i]) is Ok by {
            if i > 0 {
                assert(rest[i - 1] == outcomes[i]);
            }
        }
    }
}

/// Joins the outcomes of the match-detail requests of one report: all of
/// them or none.
pub fn collect_game_summaries(outcomes: Vec<Result<UserGameSummary, LolApiError>>) -> (collected:
    Result<Vec<UserGameSummary>, LolApiError>)
    ensures
        collected_view(collected) == spec_collect_game_summaries(outcomes_view(outcomes@)),
{
    let ghost all = outcomes_view(outcomes@);
    proof {
        lemma_first_failure(all);
    }
    let mut summaries: Vec<UserGameSummary> = Vec::new();
    let mut i: usize = 0;
    let ghost given = outcomes@;
    let n = outcomes.len();
    // Outcomes are taken from the back of a reversed list, so that each
    // leaves the list in constant time and the first is seen first.
    let mut rest = reversed(outcomes);
    while i < n
        invariant
            i <= n,
            n == given.len(),
            given == outcomes@,
            all == outcomes_view(given),
            rest@.len() == n - i,
            forall|j: int| 0 <= j < rest@.len() ==> rest@[j] == given[n - 1 - j],
            summaries@.len() == i,
            forall|j: int|
                0 <= j < i ==> (#[trigger] all[j]) is Ok && all[j]->Ok_0 == summaries@[j]@,
            0 <= first_failure(all) <= all.len(),
            first_failure(all) < all.len() ==> all[first_failure(all)] is Err,
            forall|j: int| 0 <= j < first_failure(all) ==> (#[trigger] all[j]) is Ok,
        decreases n - i,
    {
        let outcome = rest.pop();
        assert(outcome == Some(given[i as int]));
        assert(all[i as int] == summary_result_view(given[i as int]));
        match outcome {
            Some(Ok(summary)) => {
                summaries.push(summary);
            },
            Some(Err(error)) => {
                assert(first_failure(all) == i) by {
                    if first_failure(all) > i {
                        assert(all[i as int] is Ok);
                    }
                    if first_failure(all) < i {
                        assert(all[first_failure(all)] is Ok);
                    }
                }
                return Err(error);
            },
            None => {},
        }
        i += 1;
    }
    assert(first_failure(all) == all.len()) by {
        if first_failure(all) < all.len() {
            assert(all[first_failure(all)] is Ok);
        }
    }
    assert(summaries_view(summaries@) =~= all.map_values(
        |outcome: Result<UserGameSummaryView, LolApiErrorView>| outcome->Ok_0,
    ));
    Ok(summaries)
}

/// The same items in the opposite order.
fn reversed<T>(items: Vec<T>) -> (turned: Vec<T>)
    ensures
        turned@.len() == items@.len(),
        forall|j: int| 0 <= j < turned@.len() ==> turned@[j] == items@[items@.len() - 1 - j],
{
    let mut items = items;
    let ghost given = items@;
    let mut turned: Vec<T> = Vec::new();
    while items.len() > 0
        invariant
            items@.len() + turned@.len() == given.len(),
            forall|j: int| 0 <= j < items@.len() ==> items@[j] == given[j],
            forall|j: int|
                0 <= j < turned@.len() ==> turned@[j] == given[given.len() - 1 - j],
        decreases items@.len(),
    {
        let item = items.pop();
        match item {
            Some(item) => {
                turned.push(item);
            },
            None => {},
        }
    }
    turned
}

/// The address of a player's account, looked up by name.
pub open spec fn spec_summoner_request_url(
    region: Seq<char>,
    user_name: Seq<char>,
    api_key: Seq<char>,
) -> Seq<char> {
    "https://"@ + region + ".api.riotgames.com/lol/summoner/v4/summoners/by-name/"@ + user_name
        + "?api_key="@ + api_key
}

/// Builds the address of a player's account, looked up by name.
pub fn summoner_request_url(region: &str, user_name: &str, api_key: &str) -> (url: String)
    ensures
        url@ == spec_summoner_request_url(region@, user_name@, api_key@),
{
    let mut url = String::from_str("https://");
    url.append(region);
    url.append(".api.riotgames.com/lol/summoner/v4/summoners/by-name/");
    url.append(user_name);
    url.append("?api_key=");
    url.append(api_key);
    url
}

/// The text of a decoding failure, or the text of the field that was
/// looked for, where the body had it.
pub open spec fn decoded_field_view(body: Result<Option<String>, String>) -> Result<
    Option<Seq<char>>,
    Seq<char>,
> {
    match body {
        Ok(Some(value)) => Ok(Some(value@)),
        Ok(None) => Ok(None),
        Err(text) => Err(text@),
    }
}

/// The content of an identifier or of the failure to get one.
pub open spec fn identifier_result_view(result: Result<String, LolApiError>) -> Result<
    Seq<char>,
    LolApiErrorView,
> {
    match result {
        Ok(value) => Ok(value@),
        Err(error) => Err(error@),
    }
}

/// What the answer to an account lookup means: the identifier in `field`
/// where the body has one. A body that does not decode is surfaced with
/// the decoder's description; one without the field fails with the
/// response's status as its code, so that an unknown player shows as not
/// found.
pub open spec fn spec_identifier_from_reply(
    field: Seq<char>,
    status: u16,
    body: Result<Option<Seq<char>>, Seq<char>>,
) -> Result<Seq<char>, LolApiErrorView> {
    match body {
        Err(text) => Err(
            LolApiErrorView { description: text, http_code: LolApiError::internal_code() },
        ),
        Ok(None) => Err(
            LolApiErrorView {
                description: "Unexpected no '"@ + field + "' in response body. HTTP status code: "@
                    + decimal(status as nat),
                http_code: decimal(status as nat),
            },
        ),
        Ok(Some(value)) => Ok(value),
    }
}

/// Reads the answer to an account lookup: the response's status and, of
/// its body, the text under `field`, its absence, or the reason why the
/// body did not decode.
pub fn identifier_from_reply(field: &str, status: u16, body: Result<Option<String>, String>) -> (id:
    Result<String, LolApiError>)
    ensures
        identifier_result_view(id) == spec_identifier_from_reply(
            field@,
            status,
            decoded_field_view(body),
        ),
{
    match body {
        Err(text) => Err(LolApiError::internal(text)),
        Ok(None) => {
            let mut description = String::from_str("Unexpected no '");
            description.append(field);
            description.append("' in response body. HTTP status code: ");
            append_decimal(&mut description, status as u64);
            let mut http_code = String::new();
            append_decimal(&mut http_code, status as u64);
            assert(http_code@ =~= decimal(status as nat));
            Err(LolApiError { description, http_code })
        },
        Ok(Some(value)) => Ok(value),
    }
}

/// What a JSON document holds under `field`: the text there, nothing
/// where the document is an object without text under that name, or the
/// decoder's complaint where the document is no object.
pub uninterp spec fn json_text_field(body: Seq<u8>, field: Seq<char>) -> Result<
    Option<Seq<char>>,
    Seq<char>,
>;

/// Reads the text under `field` out of a JSON object.
///
/// Trusted: stands for `serde_json::from_slice` at the type of a map from
/// names to `serde_json::Value`, followed by `serde_json::Value::as_str` on
/// the value under `field`. The contract claims only that the result is a
/// function of the bytes and the name, which [`json_text_field`] names.
#[verifier::external_body]
fn decode_text_field(body: &[u8], field: &str) -> (value: Result<Option<String>, String>)
    ensures
        decoded_field_view(value) == json_text_field(body@, field@),
{
    serde_json::from_slice::<std::collections::HashMap<String, serde_json::Value>>(body)
        .map(|object| object.get(field).and_then(serde_json::Value::as_str).map(str::to_string))
        .map_err(|error| error.to_string())
}

/// Reads the answer to an account lookup from the response's status and
/// its body as it arrived.
pub fn identifier_from_body(field: &str, status: u16, body: &[u8]) -> (id: Result<
    String,
    LolApiError,
>)
    ensures
        identifier_result_view(id) == spec_identifier_from_reply(
            field@,
            status,
            json_text_field(body@, field@),
        ),
{
    identifier_from_reply(field, status, decode_text_field(body, field))
}

/// The address of a player's ranked standings.
pub open spec fn spec_league_entries_request_url(
    region: Seq<char>,
    summoner_id: Seq<char>,
    api_key: Seq<char>,
) -> Seq<char> {
    "https://"@ + region + ".api.riotgames.com/lol/league/v4/entries/by-summoner/"@ + summoner_id
        + "?api_key="@ + api_key
}

/// Builds the address of a player's ranked standings.
pub fn league_entries_request_url(region: &str, summoner_id: &str, api_key: &str) -> (url: String)
    ensures
        url@ == spec_league_entries_request_url(region@, summoner_id@, api_key@),
{
    let mut url = String::from_str("https://");
    url.append(region);
    url.append(".api.riotgames.com/lol/league/v4/entries/by-summoner/");
    url.append(summoner_id);
    url.append("?api_key=");
    url.append(api_key);
    url
}

/// The first standing of a list that is for the solo queue.
pub open spec fn spec_find_solo_queue(entries: Seq<LeagueEntryView>) -> Option<LeagueEntryView>
    decreases entries.len(),
{
    if entries.len() == 0 {
        None
    } else if entries[0].queue_type == solo_queue() {
        Some(entries[0])
    } else {
        spec_find_solo_queue(entries.drop_first())
    }
}

/// The text of a decoding failure, or the content of the standings decoded.
pub open spec fn decoded_entries_view(body: Result<Vec<LeagueEntry>, String>) -> Result<
    Seq<LeagueEntryView>,
    Seq<char>,
> {
    match body {
        Ok(entries) => Ok(entries_view(entries@)),
        Err(text) => Err(text@),
    }
}

/// The content of a ranking lookup's result.
pub open spec fn ranking_result_view(result: Result<Option<LeagueEntry>, LolApiError>) -> Result<
    Option<LeagueEntryView>,
    LolApiErrorView,
> {
    match result {
        Ok(Some(entry)) => Ok(Some(entry@)),
        Ok(None) => Ok(None),
        Err(error) => Err(error@),
    }
}

/// What the answer to a ranking lookup means. A player without a standing
/// in the solo queue has no ranked record, which is an answer and no
/// failure; a rejected or unreadable response is a failure.
pub open spec fn spec_solo_queue_ranking(
    status: u16,
    body: Result<Seq<LeagueEntryView>, Seq<char>>,
) -> Result<Option<LeagueEntryView>, LolApiErrorView> {
    if !spec_is_success(status) {
        Err(
            LolApiErrorView {
                description: "HTTP error getting ranked standing"@,
                http_code: decimal(status as nat),
            },
        )
    } else {
        match body {
            Err(text) => Err(
                LolApiErrorView { description: text, http_code: LolApiError::internal_code() },
            ),
            Ok(entries) => Ok(spec_find_solo_queue(entries)),
        }
    }
}

/// Reads the answer to a ranking lookup: the response's status and its
/// body, decoded or with the reason why it did not decode.
pub fn solo_queue_ranking(status: u16, body: Result<Vec<LeagueEntry>, String>) -> (ranking: Result<
    Option<LeagueEntry>,
    LolApiError,
>)
    ensures
        ranking_result_view(ranking) == spec_solo_queue_ranking(status, decoded_entries_view(body)),
{
    if !is_success(status) {
        let mut http_code = String::new();
        append_decimal(&mut http_code, status as u64);
        assert(http_code@ =~= decimal(status as nat));
        return Err(
            LolApiError { description: "HTTP error getting ranked standing".to_string(), http_code },
        );
    }
    match body {
        Err(text) => Err(LolApiError::internal(text)),
        Ok(entries) => Ok(find_solo_queue(entries)),
    }
}

/// Picks the solo-queue standing out of a player's standings.
pub fn find_solo_queue(entries: Vec<LeagueEntry>) -> (found: Option<LeagueEntry>)
    ensures
        opt_entry_view(found) == spec_find_solo_queue(entries_view(entries@)),
{
    let ghost all = entries_view(entries@);
    let mut entries_left = entries;
    let mut i: usize = 0;
    assert(all.subrange(0, all.len() as int) =~= all);
    while i < entries_left.len()
        invariant
            i <= entries_left.len(),
            all == entries_view(entries@),
            all == entries_view(entries_left@),
            spec_find_solo_queue(all) == spec_find_solo_queue(
                all.subrange(i as int, all.len() as int),
            ),
        decreases entries_left.len() - i,
    {
        let ghost tail = all.subrange(i as int, all.len() as int);
        assert(tail[0] == entries_left@[i as int]@);
        assert(tail.drop_first() =~= all.subrange(i + 1, all.len() as int));
        if same_text(entries_left[i].queue_type.as_str(), "RANKED_SOLO_5x5") {
            let entry = entries_left.swap_remove(i);
            return Some(entry);
        }
        i += 1;
    }
    assert(all.subrange(i as int, all.len() as int) =~= Seq::empty());
    None
}

} // verus!
