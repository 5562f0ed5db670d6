//! The `played` command: from the options a user typed to the request that
//! the worker serves, and from the matches found to the text of the answer.

use crate::discord_bot_types::{
    options_view, BotError, BotErrorView, Command, CommandOption, CommandOptionView, CommandView,
    PlayedCommand, PlayedCommandView,
};
use crate::models::{
    opt_entry_view, summaries_view, LeagueEntry, LeagueEntryView, UserGameSummary,
    UserGameSummaryView,
};
use crate::responder::{GamesOverTimeSummary, GamesOverTimeSummaryView};
use crate::text::{append_decimal, decimal, same_text};
use vstd::prelude::*;
use vstd::string::*;

verus! {

/// The value of the first text option called `name`.
pub open spec fn first_text_option(options: Seq<CommandOptionView>, name: Seq<char>) -> Option<
    Seq<char>,
>
    decreases options.len(),
{
    if options.len() == 0 {
        None
    } else {
        match options[0] {
            CommandOptionView::StringCommandOption(option) if option.name == name => Some(
                option.value,
            ),
            _ => first_text_option(options.drop_first(), name),
        }
    }
}

/// The value of the first number option called `name`.
pub open spec fn first_number_option(options: Seq<CommandOptionView>, name: Seq<char>) -> Option<
    u64,
>
    decreases options.len(),
{
    if options.len() == 0 {
        None
    } else {
        match options[0] {
            CommandOptionView::NumberCommandOption(option) if option.name == name => Some(
                option.value,
            ),
            _ => first_number_option(options.drop_first(), name),
        }
    }
}

/// The failure of a command that lacks one of its two options.
pub open spec fn missing_option_error() -> BotErrorView {
    BotErrorView { status_code: 500, body: "Could not find player name"@ }
}

/// The request that a command stands for. It needs a text option `user`
/// and a number option `days`; a command called `ranked` asks for ranked
/// matches only.
pub open spec fn spec_build_played_command(
    command: CommandView,
    discord_user_id: Seq<char>,
    token: Seq<char>,
    application_id: Seq<char>,
) -> Result<PlayedCommandView, BotErrorView> {
    match (
        first_text_option(command.options, "user"@),
        first_number_option(command.options, "days"@),
    ) {
        (Some(player_name), Some(days)) => Ok(
            PlayedCommandView {
                token,
                application_id,
                discord_user_id,
                player_name,
                days,
                game_type: if command.name == "ranked"@ {
                    Some("ranked"@)
                } else {
                    None
                },
            },
        ),
        _ => Err(missing_option_error()),
    }
}

/// The content of a request or of the failure to build one.
pub open spec fn played_command_result_view(result: Result<PlayedCommand, BotError>) -> Result<
    PlayedCommandView,
    BotErrorView,
> {
    match result {
        Ok(command) => Ok(command@),
        Err(error) => Err(error@),
    }
}

fn find_text_option(options: &Vec<CommandOption>, name: &str) -> (value: Option<String>)
    ensures
        crate::text::opt_text(value) == first_text_option(options_view(options@), name@),
{
    let ghost all = options_view(options@);
    let mut i: usize = 0;
    assert(all.subrange(0, all.len() as int) =~= all);
    while i < options.len()
        invariant
            i <= options.len(),
            all == options_view(options@),
            first_text_option(all, name@) == first_text_option(
                all.subrange(i as int, all.len() as int),
                name@,
            ),
        decreases options.len() - i,
    {
        let ghost tail = all.subrange(i as int, all.len() as int);
        assert(tail[0] == options@[i as int]@);
        assert(tail.drop_first() =~= all.subrange(i + 1, all.len() as int));
        match &options[i] {
            CommandOption::StringCommandOption(option) => {
                if same_text(option.name.as_str(), name) {
                    return Some(option.value.clone());
                }
            },
            CommandOption::NumberCommandOption(_) => {},
        }
        i += 1;
    }
    assert(all.subrange(i as int, all.len() as int) =~= Seq::empty());
    None
}

fn find_number_option(options: &Vec<CommandOption>, name: &str) -> (value: Option<u64>)
    ensures
        value == first_number_option(options_view(options@), name@),
{
    let ghost all = options_view(options@);
    let mut i: usize = 0;
    assert(all.subrange(0, all.len() as int) =~= all);
    while i < options.len()
        invariant
            i <= options.len(),
            all == options_view(options@),
            first_number_option(all, name@) == first_number_option(
                all.subrange(i as int, all.len() as int),
                name@,
            ),
        decreases options.len() - i,
    {
        let ghost tail = all.subrange(i as int, all.len() as int);
        assert(tail[0] == options@[i as int]@);
        assert(tail.drop_first() =~= all.subrange(i + 1, all.len() as int));
        match &options[i] {
            CommandOption::NumberCommandOption(option) => {
                if same_text(option.name.as_str(), name) {
                    return Some(option.value);
                }
            },
            CommandOption::StringCommandOption(_) => {},
        }
        i += 1;
    }
    assert(all.subrange(i as int, all.len() as int) =~= Seq::empty());
    None
}

/// Builds the request that a command stands for, on behalf of the user
/// `discord_user_id` and for the interaction that `token` and
/// `application_id` identify.
pub fn build_played_command(
    command: Command,
    discord_user_id: String,
    token: String,
    application_id: String,
) -> (built: Result<PlayedCommand, BotError>)
    ensures
        played_command_result_view(built) == spec_build_played_command(
            command@,
            discord_user_id@,
            token@,
            application_id@,
        ),
{
    let player_name = find_text_option(&command.options, "user");
    let days = find_number_option(&command.options, "days");
    match (player_name, days) {
        (Some(player_name), Some(days)) => {
            let game_type = if same_text(command.name.as_str(), "ranked") {
                Some("ranked".to_string())
            } else {
                None
            };
            Ok(
                PlayedCommand { token, application_id, discord_user_id, player_name, days, game_type },
            )
        },
        _ => Err(BotError { status_code: 500, body: "Could not find player name".to_string() }),
    }
}

/// The time that a list of matches took in all, in milliseconds.
pub open spec fn spec_time_played(summaries: Seq<UserGameSummaryView>) -> nat
    decreases summaries.len(),
{
    if summaries.len() == 0 {
        0
    } else {
        spec_time_played(summaries.drop_last()) + summaries.last().game_duration_millis as nat
    }
}

/// The number of matches of a list that the player won.
pub open spec fn spec_wins(summaries: Seq<UserGameSummaryView>) -> nat
    decreases summaries.len(),
{
    if summaries.len() == 0 {
        0
    } else {
        spec_wins(summaries.drop_last()) + if summaries.last().participant.win {
            1nat
        } else {
            0nat
        }
    }
}

/// The number of matches of a list that the player lost.
pub open spec fn spec_losses(summaries: Seq<UserGameSummaryView>) -> nat
    decreases summaries.len(),
{
    if summaries.len() == 0 {
        0
    } else {
        spec_losses(summaries.drop_last()) + if summaries.last().participant.win {
            0nat
        } else {
            1nat
        }
    }
}

/// Every match counts once, as a win or as a loss: the two numbers add up
/// to the number of matches. For no matches both are zero, and so is the
/// time played.
pub proof fn lemma_wins_and_losses(summaries: Seq<UserGameSummaryView>)
    ensures
        spec_wins(summaries) + spec_losses(summaries) == summaries.len(),
        summaries.len() == 0 ==> spec_wins(summaries) == 0 && spec_losses(summaries) == 0
            && spec_time_played(summaries) == 0,
    decreases summaries.len(),
{
    if summaries.len() > 0 {
        lemma_wins_and_losses(summaries.drop_last());
    }
}

/// The time played over a part of a list is at most that over the whole.
proof fn lemma_time_played_prefix(summaries: Seq<UserGameSummaryView>, k: int)
    requires
        0 <= k <= summaries.len(),
    ensures
        spec_time_played(summaries.subrange(0, k)) <= spec_time_played(summaries),
    decreases summaries.len(),
{
    if k == summaries.len() {
        assert(summaries.subrange(0, k) =~= summaries);
    } else {
        lemma_time_played_prefix(summaries.drop_last(), k);
        assert(summaries.drop_last().subrange(0, k) =~= summaries.subrange(0, k));
    }
}

/// Whether the time played over a list of matches can be told in 64 bits.
pub fn time_played_fits(summaries: &Vec<UserGameSummary>) -> (fits: bool)
    ensures
        fits == (spec_time_played(summaries_view(summaries@)) <= u64::MAX),
{
    let ghost all = summaries_view(summaries@);
    let mut total: u64 = 0;
    let mut i: usize = 0;
    while i < summaries.len()
        invariant
            i <= summaries.len(),
            all == summaries_view(summaries@),
            total == spec_time_played(all.subrange(0, i as int)),
        decreases summaries.len() - i,
    {
        assert(all.subrange(0, i + 1).drop_last() =~= all.subrange(0, i as int));
        assert(all.subrange(0, i + 1).last() == summaries@[i as int]@);
        match total.checked_add(summaries[i].game_duration_millis) {
            Some(sum) => {
                total = sum;
            },
            None => {
                proof {
                    lemma_time_played_prefix(all, i + 1);
                }
                return false;
            },
        }
        i += 1;
    }
    assert(all.subrange(0, i as int) =~= all);
    true
}

/// Adds up the time that a list of matches took, in milliseconds.
pub fn calculate_time_played(summaries: &Vec<UserGameSummary>) -> (total: u64)
    requires
        spec_time_played(summaries_view(summaries@)) <= u64::MAX,
    ensures
        total == spec_time_played(summaries_view(summaries@)),
{
    let ghost all = summaries_view(summaries@);
    let mut total: u64 = 0;
    let mut i: usize = 0;
    while i < summaries.len()
        invariant
            i <= summaries.len(),
            all == summaries_view(summaries@),
            spec_time_played(all) <= u64::MAX,
            total == spec_time_played(all.subrange(0, i as int)),
        decreases summaries.len() - i,
    {
        assert(all.subrange(0, i + 1).drop_last() =~= all.subrange(0, i as int));
        assert(all.subrange(0, i + 1).last() == summaries@[i as int]@);
        proof {
            lemma_time_played_prefix(all, i + 1);
        }
        total = total + summaries[i].game_duration_millis;
        i += 1;
    }
    assert(all.subrange(0, i as int) =~= all);
    total
}

/// Counts the matches of a list that the player won.
pub fn calculate_wins(summaries: &Vec<UserGameSummary>) -> (wins: u64)
    ensures
        wins == spec_wins(summaries_view(summaries@)),
        wins <= summaries@.len(),
{
    let ghost all = summaries_view(summaries@);
    let mut wins: u64 = 0;
    let mut i: usize = 0;
    while i < summaries.len()
        invariant
            i <= summaries.len(),
            all == summaries_view(summaries@),
            wins == spec_wins(all.subrange(0, i as int)),
            wins <= i,
        decreases summaries.len() - i,
    {
        assert(all.subrange(0, i + 1).drop_last() =~= all.subrange(0, i as int));
        assert(all.subrange(0, i + 1).last() == summaries@[i as int]@);
        if summaries[i].participant.win {
            wins = wins + 1;
        }
        i += 1;
    }
    assert(all.subrange(0, i as int) =~= all);
    wins
}

/// Counts the matches of a list that the player lost.
pub fn calculate_loses(summaries: &Vec<UserGameSummary>) -> (losses: u64)
    ensures
        losses == spec_losses(summaries_view(summaries@)),
        losses <= summaries@.len(),
{
    let ghost all = summaries_view(summaries@);
    let mut losses: u64 = 0;
    let mut i: usize = 0;
    while i < summaries.len()
        invariant
            i <= summaries.len(),
            all == summaries_view(summaries@),
            losses == spec_losses(all.subrange(0, i as int)),
            losses <= i,
        decreases summaries.len() - i,
    {
        assert(all.subrange(0, i + 1).drop_last() =~= all.subrange(0, i as int));
        assert(all.subrange(0, i + 1).last() == summaries@[i as int]@);
        if !summaries[i].participant.win {
            losses = losses + 1;
        }
        i += 1;
    }
    assert(all.subrange(0, i as int) =~= all);
    losses
}

/// Reduces the matches found to a report: the matches as they are, the
/// wins and losses among them, and the time they took.
pub fn summarize_games(games: Vec<UserGameSummary>) -> (summary: GamesOverTimeSummary)
    requires
        spec_time_played(summaries_view(games@)) <= u64::MAX,
    ensures
        summary@ == (GamesOverTimeSummaryView {
            games: summaries_view(games@),
            wins: spec_wins(summaries_view(games@)) as u64,
            losses: spec_losses(summaries_view(games@)) as u64,
            played_for_millis: spec_time_played(summaries_view(games@)) as u64,
        }),
        summary.wins + summary.losses == games@.len(),
        summary.played_for_millis == spec_time_played(summaries_view(games@)),
{
    proof {
        lemma_wins_and_losses(summaries_view(games@));
    }
    let played_for_millis = calculate_time_played(&games);
    let wins = calculate_wins(&games);
    let losses = calculate_loses(&games);
    GamesOverTimeSummary { games, wins, losses, played_for_millis }
}

/// The most matches that a report lists one by one.
pub const LISTED_GAMES: usize = 10;

/// A time span in words: whole hours, and the whole minutes beyond them.
pub open spec fn spec_time_played_string(millis: u64) -> Seq<char> {
    decimal((millis / 1000 / 60 / 60) as nat) + " hours and "@ + decimal(
        ((millis / 1000 / 60) % 60) as nat,
    ) + " minutes"@
}

/// Writes a time span of `millis` milliseconds in words.
pub fn create_time_played_string(millis: u64) -> (text: String)
    ensures
        text@ == spec_time_played_string(millis),
{
    let seconds = millis / 1000;
    let minutes = seconds / 60;
    let hours = minutes / 60;
    let minutes = minutes % 60;
    let mut text = String::new();
    append_decimal(&mut text, hours);
    text.append(" hours and ");
    append_decimal(&mut text, minutes);
    text.append(" minutes");
    assert(text@ =~= spec_time_played_string(millis));
    text
}

/// The line that a report shows for one match: the champion played,
/// kills, deaths and assists, the outcome, and where to read more.
pub open spec fn spec_game_stats_string(summary: UserGameSummaryView) -> Seq<char> {
    "["@ + summary.participant.champion_name + "] "@ + decimal(summary.participant.kills as nat)
        + "/"@ + decimal(summary.participant.deaths as nat) + "/"@ + decimal(
        summary.participant.assists as nat,
    ) + " ("@ + (if summary.participant.win {
        "Win"@
    } else {
        "Loss"@
    }) + ") <https://www.leagueofgraphs.com/match/euw/"@ + decimal(summary.game_id as nat)
        + "#participant1>"@
}

fn append_game_stats(text: &mut String, game_summary: &UserGameSummary)
    ensures
        final(text)@ == old(text)@ + spec_game_stats_string(game_summary@),
{
    let participant = &game_summary.participant;
    text.append("[");
    text.append(participant.champion_name.as_str());
    text.append("] ");
    append_decimal(text, participant.kills);
    text.append("/");
    append_decimal(text, participant.deaths);
    text.append("/");
    append_decimal(text, participant.assists);
    text.append(" (");
    if participant.win {
        text.append("Win");
    } else {
        text.append("Loss");
    }
    text.append(") <https://www.leagueofgraphs.com/match/euw/");
    append_decimal(text, game_summary.game_id);
    text.append("#participant1>");
    assert(text@ =~= old(text)@ + spec_game_stats_string(game_summary@));
}

/// Writes the line that a report shows for one match.
pub fn create_game_stats_string(game_summary: &UserGameSummary) -> (text: String)
    ensures
        text@ == spec_game_stats_string(game_summary@),
{
    let mut text = String::new();
    append_game_stats(&mut text, game_summary);
    assert(text@ =~= spec_game_stats_string(game_summary@));
    text
}

/// The lines of a list of matches, each ended by a line break.
pub open spec fn spec_game_lines(summaries: Seq<UserGameSummaryView>) -> Seq<char>
    decreases summaries.len(),
{
    if summaries.len() == 0 {
        Seq::empty()
    } else {
        spec_game_lines(summaries.drop_last()) + spec_game_stats_string(summaries.last()) + "\n"@
    }
}

/// The matches that a report lists one by one: the first ten.
pub open spec fn listed_games(summaries: Seq<UserGameSummaryView>) -> Seq<UserGameSummaryView> {
    if summaries.len() > LISTED_GAMES {
        summaries.subrange(0, LISTED_GAMES as int)
    } else {
        summaries
    }
}

/// The lines of the matches that a report lists one by one.
pub open spec fn spec_summaries_string(summaries: Seq<UserGameSummaryView>) -> Seq<char> {
    spec_game_lines(listed_games(summaries))
}

fn append_summaries(text: &mut String, summaries: &Vec<UserGameSummary>)
    ensures
        final(text)@ == old(text)@ + spec_summaries_string(summaries_view(summaries@)),
{
    let ghost all = summaries_view(summaries@);
    let shown = if summaries.len() > LISTED_GAMES {
        LISTED_GAMES
    } else {
        summaries.len()
    };
    assert(listed_games(all) =~= all.subrange(0, shown as int));
    let mut i: usize = 0;
    assert(text@ =~= old(text)@ + spec_game_lines(all.subrange(0, 0)));
    while i < shown
        invariant
            i <= shown <= summaries.len(),
            all == summaries_view(summaries@),
            text@ == old(text)@ + spec_game_lines(all.subrange(0, i as int)),
        decreases shown - i,
    {
        assert(all.subrange(0, i + 1).drop_last() =~= all.subrange(0, i as int));
        assert(all.subrange(0, i + 1).last() == summaries@[i as int]@);
        append_game_stats(text, &summaries[i]);
        text.append("\n");
        i += 1;
        assert(text@ =~= old(text)@ + spec_game_lines(all.subrange(0, i as int)));
    }
}

/// Writes the lines of the matches that a report lists one by one.
pub fn create_summaries_string(summaries: &Vec<UserGameSummary>) -> (text: String)
    ensures
        text@ == spec_summaries_string(summaries_view(summaries@)),
{
    let mut text = String::new();
    append_summaries(&mut text, summaries);
    assert(text@ =~= spec_summaries_string(summaries_view(summaries@)));
    text
}

/// What every report says of a player's activity, after the player's name
/// and standing: the time played, the days covered and the wins and losses,
/// then the matches one by one.
pub open spec fn spec_activity_text(days: u64, summary: GamesOverTimeSummaryView) -> Seq<char> {
    " has played for "@ + spec_time_played_string(summary.played_for_millis) + " over "@ + decimal(
        days as nat,
    ) + " days\nThey won "@ + decimal(summary.wins as nat) + " games and lost "@ + decimal(
        summary.losses as nat,
    ) + "\n"@ + spec_summaries_string(summary.games)
}

fn append_activity(text: &mut String, days: u64, summary: &GamesOverTimeSummary)
    ensures
        final(text)@ == old(text)@ + spec_activity_text(days, summary@),
{
    text.append(" has played for ");
    let time_played = create_time_played_string(summary.played_for_millis);
    text.append(time_played.as_str());
    text.append(" over ");
    append_decimal(text, days);
    text.append(" days\nThey won ");
    append_decimal(text, summary.wins);
    text.append(" games and lost ");
    append_decimal(text, summary.losses);
    text.append("\n");
    append_summaries(text, &summary.games);
    assert(text@ =~= old(text)@ + spec_activity_text(days, summary@));
}

/// The report on all of a player's matches.
pub open spec fn spec_all_games_message(
    player_name: Seq<char>,
    days: u64,
    summary: GamesOverTimeSummaryView,
) -> Seq<char> {
    player_name + spec_activity_text(days, summary)
}

/// Writes the report on all of a player's matches over `days` days.
pub fn all_games_message(player_name: &str, days: u64, summary: &GamesOverTimeSummary) -> (message:
    String)
    ensures
        message@ == spec_all_games_message(player_name@, days, summary@),
{
    let mut message = String::from_str(player_name);
    append_activity(&mut message, days, summary);
    message
}

/// The report on a player's ranked matches: for a player without a ranked
/// standing a sentence that says so, else the standing and the activity.
pub open spec fn spec_ranked_games_message(
    player_name: Seq<char>,
    days: u64,
    summary: GamesOverTimeSummaryView,
    ranking: Option<LeagueEntryView>,
) -> Seq<char> {
    match ranking {
        None => player_name + " has not played any ranked games."@,
        Some(entry) => player_name + " ("@ + entry.rank + " "@ + entry.tier + ", "@ + decimal(
            entry.league_points as nat,
        ) + " points)"@ + spec_activity_text(days, summary),
    }
}

/// Writes the report on a player's ranked matches over `days` days.
pub fn ranked_games_message(
    player_name: &str,
    days: u64,
    summary: &GamesOverTimeSummary,
    ranking: &Option<LeagueEntry>,
) -> (message: String)
    ensures
        message@ == spec_ranked_games_message(
            player_name@,
            days,
            summary@,
            opt_entry_view(*ranking),
        ),
{
    let mut message = String::from_str(player_name);
    match ranking {
        None => {
            message.append(" has not played any ranked games.");
        },
        Some(entry) => {
            message.append(" (");
            message.append(entry.rank.as_str());
            message.append(" ");
            message.append(entry.tier.as_str());
            message.append(", ");
            append_decimal(&mut message, entry.league_points);
            message.append(" points)");
            append_activity(&mut message, days, summary);
        },
    }
    message
}

/// Which matches a request is about.
#[derive(Clone, Copy, Debug, PartialEq, Eq, Structural)]
pub enum GameSelection {
    /// Every match.
    AllGames,
    /// Ranked matches, reported together with the player's standing.
    Ranked,
    /// A kind of match that the bot does not know.
    Unrecognised,
}

/// The selection that a request's game type stands for: none for every
/// match, `ranked` for ranked ones, and nothing else is known.
pub open spec fn spec_game_selection(game_type: Option<Seq<char>>) -> GameSelection {
    match game_type {
        None => GameSelection::AllGames,
        Some(mode) => if mode == "ranked"@ {
            GameSelection::Ranked
        } else {
            GameSelection::Unrecognised
        },
    }
}

/// Reads which matches a request is about.
pub fn game_selection(game_type: &Option<String>) -> (selection: GameSelection)
    ensures
        selection == spec_game_selection(crate::text::opt_text(*game_type)),
{
    match game_type {
        None => GameSelection::AllGames,
        Some(mode) => {
            if same_text(mode.as_str(), "ranked") {
                GameSelection::Ranked
            } else {
                GameSelection::Unrecognised
            }
        },
    }
}

/// Writes the answer to a request for a kind of match that the bot does
/// not know.
pub fn unrecognised_mode_message(mode: &str) -> (message: String)
    ensures
        message@ == "Unrecognised game mode "@ + mode@,
{
    let mut message = String::from_str("Unrecognised game mode ");
    message.append(mode);
    message
}

} // verus!
