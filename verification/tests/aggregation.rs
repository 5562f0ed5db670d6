use lol_bot::lol_command::{
    all_games_message, calculate_loses, calculate_time_played, calculate_wins,
    create_game_stats_string, create_summaries_string, create_time_played_string, game_selection,
    ranked_games_message, summarize_games, time_played_fits, unrecognised_mode_message,
    GameSelection,
};
use lol_bot::match_history::{
    collect_game_summaries, find_solo_queue, find_user_game_summary, game_player_summary,
    game_summary_request_url, identifier_from_body, identifier_from_reply,
    league_entries_request_url,
    solo_queue_ranking, summoner_request_url,
};
use lol_bot::models::{
    GameInfo, GameSummary, LeagueEntry, LolApiError, Metadata, Participant, UserGameSummary,
};
use lol_bot::pager::{effective_days, Pager, PagerStep, TimeWindow};
use lol_bot::responder::{to_bot_error, GamesOverTimeSummary};

fn participant(puuid: &str, champion: &str, win: bool) -> Participant {
    Participant {
        champion_name: champion.to_string(),
        puuid: puuid.to_string(),
        win,
        kills: 3,
        deaths: 1,
        assists: 4,
    }
}

fn game(number: u64, duration: u64, roster: Vec<Participant>) -> GameSummary {
    GameSummary {
        metadata: Metadata { match_id: format!("EUW1_{}", number) },
        info: GameInfo { participants: roster, game_duration: duration, game_id: number },
    }
}

fn summary(number: u64, duration: u64, win: bool) -> UserGameSummary {
    UserGameSummary {
        game_id: number,
        match_id: format!("EUW1_{}", number),
        participant: participant("ada", "Ashe", win),
        game_duration_millis: duration,
    }
}

fn entry(queue: &str, tier: &str, rank: &str, points: u64) -> LeagueEntry {
    LeagueEntry {
        tier: tier.to_string(),
        rank: rank.to_string(),
        league_points: points,
        queue_type: queue.to_string(),
        league_id: "league".to_string(),
    }
}

#[test]
fn find_user_game_summary_finds_the_player() {
    let roster = vec![
        participant("bob", "Garen", false),
        participant("ada", "Ashe", true),
        participant("eve", "Jinx", false),
    ];
    assert_eq!(find_user_game_summary("ada", roster), Some(participant("ada", "Ashe", true)));
}

#[test]
fn find_user_game_summary_takes_the_first_of_several() {
    let roster = vec![
        participant("ada", "Ashe", true),
        participant("bob", "Garen", false),
        participant("ada", "Zed", false),
    ];
    assert_eq!(find_user_game_summary("ada", roster), Some(participant("ada", "Ashe", true)));
}

#[test]
fn find_user_game_summary_reports_absence() {
    assert_eq!(find_user_game_summary("ada", Vec::new()), None);
    let roster = vec![participant("bob", "Garen", false), participant("Ada", "Ashe", true)];
    assert_eq!(find_user_game_summary("ada", roster), None);
}

#[test]
fn game_player_summary_pairs_player_and_match() {
    let details = game(
        77,
        1_800_000,
        vec![participant("bob", "Garen", false), participant("ada", "Ashe", true)],
    );
    assert_eq!(
        game_player_summary("ada", 200, Ok(details)),
        Ok(UserGameSummary {
            game_id: 77,
            match_id: "EUW1_77".to_string(),
            participant: participant("ada", "Ashe", true),
            game_duration_millis: 1_800_000,
        })
    );
}

#[test]
fn game_player_summary_fails_on_rejection() {
    let details = game(77, 1, vec![participant("ada", "Ashe", true)]);
    assert_eq!(
        game_player_summary("ada", 429, Ok(details)),
        Err(LolApiError {
            description: "HTTP error getting user summary in match".to_string(),
            http_code: "429".to_string(),
        })
    );
    assert_eq!(
        game_player_summary("ada", 503, Err("no body".to_string())),
        Err(LolApiError {
            description: "HTTP error getting user summary in match".to_string(),
            http_code: "503".to_string(),
        })
    );
}

#[test]
fn game_player_summary_fails_on_unreadable_body() {
    assert_eq!(
        game_player_summary("ada", 200, Err("missing field `info`".to_string())),
        Err(LolApiError {
            description: "missing field `info`".to_string(),
            http_code: "500".to_string(),
        })
    );
}

#[test]
fn game_player_summary_fails_when_the_player_is_missing() {
    let details = game(77, 1, vec![participant("bob", "Garen", false)]);
    assert_eq!(
        game_player_summary("ada", 200, Ok(details)),
        Err(LolApiError {
            description: "Could not find user summary in match".to_string(),
            http_code: "500".to_string(),
        })
    );
}

#[test]
fn collect_game_summaries_keeps_the_order() {
    let outcomes = vec![Ok(summary(1, 10, true)), Ok(summary(2, 20, false)), Ok(summary(3, 30, true))];
    assert_eq!(
        collect_game_summaries(outcomes),
        Ok(vec![summary(1, 10, true), summary(2, 20, false), summary(3, 30, true)])
    );
    assert_eq!(collect_game_summaries(Vec::new()), Ok(Vec::new()));
}

#[test]
fn collect_game_summaries_fails_with_the_first_failure() {
    let first = LolApiError { description: "first".to_string(), http_code: "404".to_string() };
    let second = LolApiError { description: "second".to_string(), http_code: "429".to_string() };
    let outcomes = vec![
        Ok(summary(1, 10, true)),
        Err(first.clone()),
        Ok(summary(3, 30, true)),
        Err(second),
    ];
    assert_eq!(collect_game_summaries(outcomes), Err(first));
}

#[test]
fn totals_of_no_matches_are_zero() {
    let none: Vec<UserGameSummary> = Vec::new();
    assert_eq!(calculate_time_played(&none), 0);
    assert_eq!(calculate_wins(&none), 0);
    assert_eq!(calculate_loses(&none), 0);
    assert!(time_played_fits(&none));
    assert_eq!(
        summarize_games(Vec::new()),
        GamesOverTimeSummary { games: Vec::new(), wins: 0, losses: 0, played_for_millis: 0 }
    );
}

#[test]
fn wins_and_losses_add_up_to_the_matches() {
    let games = vec![
        summary(1, 1_000, true),
        summary(2, 2_000, false),
        summary(3, 3_000, false),
        summary(4, 4_000, true),
        summary(5, 5_000, true),
    ];
    assert_eq!(calculate_wins(&games), 3);
    assert_eq!(calculate_loses(&games), 2);
    assert_eq!(calculate_wins(&games) + calculate_loses(&games), games.len() as u64);
    assert_eq!(calculate_time_played(&games), 15_000);
}

#[test]
fn time_played_fits_tells_when_the_total_is_too_large() {
    let fits = vec![summary(1, u64::MAX - 1, true), summary(2, 1, false)];
    assert!(time_played_fits(&fits));
    assert_eq!(calculate_time_played(&fits), u64::MAX);
    let overflows = vec![summary(1, u64::MAX, true), summary(2, 1, false)];
    assert!(!time_played_fits(&overflows));
    let overflows_early = vec![summary(1, u64::MAX, true), summary(2, 1, false), summary(3, 0, false)];
    assert!(!time_played_fits(&overflows_early));
}

/// Ada asks for ten days and has played twelve matches, seven of them won,
/// for four hours in all.
#[test]
fn ada_over_ten_days() {
    let days = effective_days(10);
    assert_eq!(days, 7);

    let now = 1_700_000_000;
    let mut pager = Pager::new(
        "europe".to_string(),
        "KEY".to_string(),
        "ada".to_string(),
        None,
        10,
        now,
    );
    assert_eq!(pager.window(), TimeWindow { start_time: now - 7 * 86_400, end_time: now });
    let listed: Vec<String> = (1..=12u64).map(|n| format!("EUW1_{}", n)).collect();
    assert_eq!(pager.on_page(200, Some(listed.clone())), Ok(PagerStep::Done));
    assert!(pager.is_finished());
    let match_ids = pager.into_game_ids();
    assert_eq!(match_ids, listed);

    let outcomes: Vec<Result<UserGameSummary, LolApiError>> = match_ids
        .iter()
        .enumerate()
        .map(|(index, _)| {
            let number = index as u64 + 1;
            let details = game(
                number,
                1_200_000,
                vec![
                    participant("bob", "Garen", index >= 7),
                    participant("ada", "Ashe", index < 7),
                ],
            );
            game_player_summary("ada", 200, Ok(details))
        })
        .collect();
    let games = collect_game_summaries(outcomes).unwrap();
    assert_eq!(games.len(), 12);
    assert!(time_played_fits(&games));

    let report = summarize_games(games);
    assert_eq!(report.games.len(), 12);
    assert_eq!(report.wins, 7);
    assert_eq!(report.losses, 5);
    assert_eq!(report.played_for_millis, 14_400_000);
    assert_eq!(create_time_played_string(report.played_for_millis), "4 hours and 0 minutes");

    let message = all_games_message("Ada", days, &report);
    assert!(message.starts_with(
        "Ada has played for 4 hours and 0 minutes over 7 days\nThey won 7 games and lost 5\n"
    ));
    assert_eq!(message.lines().count(), 12);
}

/// One of Ada's twelve matches comes back without her in its roster: the
/// whole report fails and nothing of the other eleven is returned.
#[test]
fn ada_missing_from_one_roster() {
    let outcomes: Vec<Result<UserGameSummary, LolApiError>> = (1..=12u64)
        .map(|number| {
            let roster = if number == 5 {
                vec![participant("bob", "Garen", true)]
            } else {
                vec![participant("bob", "Garen", false), participant("ada", "Ashe", true)]
            };
            game_player_summary("ada", 200, Ok(game(number, 1_200_000, roster)))
        })
        .collect();
    assert_eq!(outcomes.iter().filter(|outcome| outcome.is_ok()).count(), 11);
    let collected = collect_game_summaries(outcomes);
    assert_eq!(
        collected,
        Err(LolApiError {
            description: "Could not find user summary in match".to_string(),
            http_code: "500".to_string(),
        })
    );
    assert_eq!(to_bot_error(collected.unwrap_err()).status_code, 500);
}

/// A player without ranked games has no standing, which is an answer and
/// not a failure.
#[test]
fn player_without_ranked_games_has_no_standing() {
    let no_entry = solo_queue_ranking(200, Ok(Vec::new()));
    assert_eq!(no_entry, Ok(None));
    let failure = solo_queue_ranking(500, Ok(Vec::new()));
    assert!(failure.is_err());
    assert_ne!(no_entry, failure);

    let report = summarize_games(Vec::new());
    assert_eq!(
        ranked_games_message("Ada", 7, &report, &no_entry.unwrap()),
        "Ada has not played any ranked games."
    );
}

#[test]
fn solo_queue_ranking_picks_the_solo_queue() {
    let entries = vec![
        entry("RANKED_FLEX_SR", "SILVER", "II", 40),
        entry("RANKED_SOLO_5x5", "GOLD", "IV", 75),
        entry("RANKED_SOLO_5x5", "IRON", "I", 0),
    ];
    assert_eq!(
        solo_queue_ranking(200, Ok(entries)),
        Ok(Some(entry("RANKED_SOLO_5x5", "GOLD", "IV", 75)))
    );
    assert_eq!(
        solo_queue_ranking(200, Ok(vec![entry("RANKED_FLEX_SR", "SILVER", "II", 40)])),
        Ok(None)
    );
    assert_eq!(find_solo_queue(vec![entry("ranked_solo_5x5", "GOLD", "IV", 75)]), None);
}

#[test]
fn solo_queue_ranking_fails_on_rejection_and_unreadable_body() {
    assert_eq!(
        solo_queue_ranking(404, Ok(vec![entry("RANKED_SOLO_5x5", "GOLD", "IV", 75)])),
        Err(LolApiError {
            description: "HTTP error getting ranked standing".to_string(),
            http_code: "404".to_string(),
        })
    );
    assert_eq!(
        solo_queue_ranking(200, Err("expected a sequence".to_string())),
        Err(LolApiError {
            description: "expected a sequence".to_string(),
            http_code: "500".to_string(),
        })
    );
}

#[test]
fn identifier_from_reply_reads_the_field() {
    assert_eq!(
        identifier_from_reply("puuid", 200, Ok(Some("ada-puuid".to_string()))),
        Ok("ada-puuid".to_string())
    );
}

#[test]
fn identifier_from_reply_carries_the_status_of_an_unknown_player() {
    let failure = identifier_from_reply("puuid", 404, Ok(None));
    assert_eq!(
        failure,
        Err(LolApiError {
            description: "Unexpected no 'puuid' in response body. HTTP status code: 404"
                .to_string(),
            http_code: "404".to_string(),
        })
    );
    assert_eq!(to_bot_error(failure.unwrap_err()).status_code, 404);
    assert_eq!(
        identifier_from_reply("id", 200, Ok(None)),
        Err(LolApiError {
            description: "Unexpected no 'id' in response body. HTTP status code: 200".to_string(),
            http_code: "200".to_string(),
        })
    );
}

#[test]
fn identifier_from_reply_fails_on_unreadable_body() {
    assert_eq!(
        identifier_from_reply("puuid", 200, Err("EOF while parsing".to_string())),
        Err(LolApiError {
            description: "EOF while parsing".to_string(),
            http_code: "500".to_string(),
        })
    );
}

#[test]
fn request_urls_name_their_parameters() {
    assert_eq!(
        game_summary_request_url("europe", "EUW1_77", "KEY"),
        "https://europe.api.riotgames.com/lol/match/v5/matches/EUW1_77?api_key=KEY"
    );
    assert_eq!(
        summoner_request_url("euw1", "Ada", "KEY"),
        "https://euw1.api.riotgames.com/lol/summoner/v4/summoners/by-name/Ada?api_key=KEY"
    );
    assert_eq!(
        league_entries_request_url("euw1", "summoner-1", "KEY"),
        "https://euw1.api.riotgames.com/lol/league/v4/entries/by-summoner/summoner-1?api_key=KEY"
    );
}

#[test]
fn time_played_is_told_in_hours_and_minutes() {
    assert_eq!(create_time_played_string(0), "0 hours and 0 minutes");
    assert_eq!(create_time_played_string(59_999), "0 hours and 0 minutes");
    assert_eq!(create_time_played_string(60_000), "0 hours and 1 minutes");
    assert_eq!(create_time_played_string(3_599_999), "0 hours and 59 minutes");
    assert_eq!(create_time_played_string(3_600_000), "1 hours and 0 minutes");
    assert_eq!(create_time_played_string(14_400_000), "4 hours and 0 minutes");
    assert_eq!(create_time_played_string(9_000_000), "2 hours and 30 minutes");
    assert_eq!(
        create_time_played_string(u64::MAX),
        "5124095576030 hours and 25 minutes"
    );
}

#[test]
fn game_stats_line_shows_the_match() {
    assert_eq!(
        create_game_stats_string(&summary(5551234, 1_000, true)),
        "[Ashe] 3/1/4 (Win) <https://www.leagueofgraphs.com/match/euw/5551234#participant1>"
    );
    let mut lost = summary(9, 1_000, false);
    lost.participant.champion_name = "Miss Fortune".to_string();
    lost.participant.kills = 0;
    lost.participant.deaths = 12;
    lost.participant.assists = 100;
    assert_eq!(
        create_game_stats_string(&lost),
        "[Miss Fortune] 0/12/100 (Loss) <https://www.leagueofgraphs.com/match/euw/9#participant1>"
    );
}

#[test]
fn summaries_list_at_most_ten_matches() {
    assert_eq!(create_summaries_string(&Vec::new()), "");
    let two = vec![summary(1, 10, true), summary(2, 20, false)];
    assert_eq!(
        create_summaries_string(&two),
        "[Ashe] 3/1/4 (Win) <https://www.leagueofgraphs.com/match/euw/1#participant1>\n[Ashe] 3/1/4 (Loss) <https://www.leagueofgraphs.com/match/euw/2#participant1>\n"
    );
    let many: Vec<UserGameSummary> = (1..=12u64).map(|n| summary(n, 10, true)).collect();
    let listed = create_summaries_string(&many);
    assert_eq!(listed.lines().count(), 10);
    assert!(listed.ends_with("euw/10#participant1>\n"));
    let ten: Vec<UserGameSummary> = (1..=10u64).map(|n| summary(n, 10, true)).collect();
    assert_eq!(create_summaries_string(&ten), listed);
}

#[test]
fn all_games_message_reports_the_activity() {
    let report = summarize_games(vec![summary(1, 5_400_000, true), summary(2, 1_800_000, false)]);
    assert_eq!(
        all_games_message("Ada", 3, &report),
        "Ada has played for 2 hours and 0 minutes over 3 days\nThey won 1 games and lost 1\n[Ashe] 3/1/4 (Win) <https://www.leagueofgraphs.com/match/euw/1#participant1>\n[Ashe] 3/1/4 (Loss) <https://www.leagueofgraphs.com/match/euw/2#participant1>\n"
    );
    assert_eq!(
        all_games_message("Ada", 0, &summarize_games(Vec::new())),
        "Ada has played for 0 hours and 0 minutes over 0 days\nThey won 0 games and lost 0\n"
    );
}

#[test]
fn ranked_games_message_shows_the_standing() {
    let report = summarize_games(vec![summary(1, 5_400_000, true)]);
    let standing = Some(entry("RANKED_SOLO_5x5", "GOLD", "IV", 75));
    assert_eq!(
        ranked_games_message("Ada", 7, &report, &standing),
        "Ada (IV GOLD, 75 points) has played for 1 hours and 30 minutes over 7 days\nThey won 1 games and lost 0\n[Ashe] 3/1/4 (Win) <https://www.leagueofgraphs.com/match/euw/1#participant1>\n"
    );
}

#[test]
fn game_selection_reads_the_game_type() {
    assert_eq!(game_selection(&None), GameSelection::AllGames);
    assert_eq!(game_selection(&Some("ranked".to_string())), GameSelection::Ranked);
    assert_eq!(game_selection(&Some("aram".to_string())), GameSelection::Unrecognised);
    assert_eq!(game_selection(&Some("Ranked".to_string())), GameSelection::Unrecognised);
    assert_eq!(game_selection(&Some(String::new())), GameSelection::Unrecognised);
    assert_eq!(unrecognised_mode_message("aram"), "Unrecognised game mode aram");
}

#[test]
fn identifier_is_read_from_the_body() {
    let body = br#"{"id": "summoner-1", "puuid": "ada-puuid", "summonerLevel": 30}"#;
    assert_eq!(identifier_from_body("puuid", 200, body), Ok("ada-puuid".to_string()));
    assert_eq!(identifier_from_body("id", 200, body), Ok("summoner-1".to_string()));
}

#[test]
fn identifier_that_is_missing_or_no_text_carries_the_status() {
    let not_found = br#"{"status": {"message": "Data not found", "status_code": 404}}"#;
    assert_eq!(
        identifier_from_body("puuid", 404, not_found),
        Err(LolApiError {
            description: "Unexpected no 'puuid' in response body. HTTP status code: 404"
                .to_string(),
            http_code: "404".to_string(),
        })
    );
    assert_eq!(
        identifier_from_body("summonerLevel", 200, br#"{"summonerLevel": 30}"#),
        Err(LolApiError {
            description: "Unexpected no 'summonerLevel' in response body. HTTP status code: 200"
                .to_string(),
            http_code: "200".to_string(),
        })
    );
}

#[test]
fn body_that_is_no_object_fails_the_lookup() {
    for body in [&b"not json"[..], b"", b"[]", b"\"puuid\"", b"{\"puuid\": \"a\""] {
        let failure = identifier_from_body("puuid", 200, body).unwrap_err();
        assert_eq!(failure.http_code, "500", "{:?}", body);
        assert!(!failure.description.is_empty());
    }
    assert!(identifier_from_body("puuid", 200, b"[]")
        .unwrap_err()
        .description
        .contains("expected a map"));
}
