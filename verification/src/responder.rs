//! The worker's side of the hand-off: what arrives from the queue, what a
//! report holds, and what is posted back.

use crate::discord_bot_types::{BotError, BotErrorView};
use crate::models::{summaries_view, LolApiError, UserGameSummary, UserGameSummaryView};
use crate::text::same_text;
use vstd::prelude::*;
use vstd::string::*;

verus! {

/// One message of the queue: a request written out as text.
#[derive(Debug, PartialEq, Eq)]
pub struct QueueRecord {
    pub body: String,
}

/// The mathematical content of a [`QueueRecord`].
pub struct QueueRecordView {
    pub body: Seq<char>,
}

impl View for QueueRecord {
    type V = QueueRecordView;

    open spec fn view(&self) -> QueueRecordView {
        QueueRecordView {
            body: self.body@,
        }
    }
}

/// What the queue delivers at once.
#[derive(Debug, PartialEq, Eq)]
pub struct QueueBatch {
    pub records: Vec<QueueRecord>,
}

/// The mathematical content of a [`QueueBatch`].
pub struct QueueBatchView {
    pub records: Seq<QueueRecordView>,
}

impl View for QueueBatch {
    type V = QueueBatchView;

    open spec fn view(&self) -> QueueBatchView {
        QueueBatchView {
            records: self.records@.map_values(|item: QueueRecord| item@),
        }
    }
}

/// The message posted back to the chat platform.
#[derive(Debug, PartialEq, Eq)]
pub struct DiscordResponseBody {
    pub content: String,
}

/// The mathematical content of a [`DiscordResponseBody`].
pub struct DiscordResponseBodyView {
    pub content: Seq<char>,
}

impl View for DiscordResponseBody {
    type V = DiscordResponseBodyView;

    open spec fn view(&self) -> DiscordResponseBodyView {
        DiscordResponseBodyView {
            content: self.content@,
        }
    }
}

/// A player's activity over the requested window: the matches found, how
/// many of them the player won and lost, and the time they took in all.
#[derive(Debug, PartialEq, Eq)]
pub struct GamesOverTimeSummary {
    pub games: Vec<UserGameSummary>,
    pub wins: u64,
    pub losses: u64,
    pub played_for_millis: u64,
}

/// The mathematical content of a [`GamesOverTimeSummary`].
pub struct GamesOverTimeSummaryView {
    pub games: Seq<UserGameSummaryView>,
    pub wins: u64,
    pub losses: u64,
    pub played_for_millis: u64,
}

impl View for GamesOverTimeSummary {
    type V = GamesOverTimeSummaryView;

    open spec fn view(&self) -> GamesOverTimeSummaryView {
        GamesOverTimeSummaryView {
            games: summaries_view(self.games@),
            wins: self.wins,
            losses: self.losses,
            played_for_millis: self.played_for_millis,
        }
    }
}

/// The status that the bot reports for a failed call: throttling and
/// not-found keep their status, everything else counts as the bot's own
/// fault.
pub open spec fn spec_bot_status(http_code: Seq<char>) -> u64 {
    if http_code == "429"@ {
        429
    } else if http_code == "404"@ {
        404
    } else {
        500
    }
}

/// Turns a failed call into the failure that the bot reports.
pub fn to_bot_error(error: LolApiError) -> (bot_error: BotError)
    ensures
        bot_error@ == (BotErrorView {
            status_code: spec_bot_status(error@.http_code),
            body: error@.description,
        }),
{
    let status_code: u64 = if same_text(error.http_code.as_str(), "429") {
        429
    } else if same_text(error.http_code.as_str(), "404") {
        404
    } else {
        500
    };
    BotError { status_code, body: error.description }
}

/// The content of a command's result: the message, or the failure.
pub open spec fn command_result_view(result: Result<String, BotError>) -> Result<
    Seq<char>,
    BotErrorView,
> {
    match result {
        Ok(message) => Ok(message@),
        Err(error) => Err(error@),
    }
}

/// The message that a command's result is answered with: the report
/// itself, or a sentence for the failure.
pub open spec fn spec_reply_content(result: Result<Seq<char>, BotErrorView>) -> Seq<char> {
    match result {
        Ok(message) => message,
        Err(error) => if error.status_code == 429 {
            "Too many requests in a short period of time, try again in a minute."@
        } else if error.status_code == 404 {
            "User not found."@
        } else {
            "An unknown error occurred."@
        },
    }
}

/// Chooses the message to post for a command's result.
pub fn reply_content(result: &Result<String, BotError>) -> (content: String)
    ensures
        content@ == spec_reply_content(command_result_view(*result)),
{
    match result {
        Ok(message) => message.clone(),
        Err(error) => {
            if error.status_code == 429 {
                "Too many requests in a short period of time, try again in a minute.".to_string()
            } else if error.status_code == 404 {
                "User not found.".to_string()
            } else {
                "An unknown error occurred.".to_string()
            }
        },
    }
}

/// The address at which the answer to an interaction is filled in.
pub open spec fn spec_response_url(application_id: Seq<char>, token: Seq<char>) -> Seq<char> {
    "https://discord.com/api/webhooks/"@ + application_id + "/"@ + token + "/messages/@original"@
}

/// Builds the address at which the answer to an interaction is filled in.
pub fn response_url(application_id: &str, token: &str) -> (url: String)
    ensures
        url@ == spec_response_url(application_id@, token@),
{
    let mut url = String::from_str("https://discord.com/api/webhooks/");
    url.append(application_id);
    url.append("/");
    url.append(token);
    url.append("/messages/@original");
    url
}

} // verus!
