//! The intake's rules: which reply or follow-up an incoming interaction
//! calls for.

use crate::discord_bot_types::{
    options_view, Body, BodyView, BotError, BotErrorView, BotResponse, BotResponseView, Command,
    CommandOption, CommandOptionView, Data, DataView, DiscordReceivedCommand,
    DiscordReceivedCommandView, Headers, HeadersView, LambdaBotResponse, LambdaBotResponseView,
    PlayedCommand, PlayedCommandView, StringChoice, StringChoiceView,
};
use crate::lol_command::{build_played_command, spec_build_played_command};
use crate::search_history::{history_view, SearchedDetails, SearchedDetailsView};
use crate::text::{
    append_decimal, decimal, opt_text, same_text, starts_with, strip_whitespace,
    without_whitespace,
};
use vstd::prelude::*;
use vstd::string::*;

verus! {

/// The kind of an interaction that only checks that the bot is there.
pub const PING: u64 = 1;

/// The kind of an interaction that issues a command.
pub const APPLICATION_COMMAND: u64 = 2;

/// The kind of an interaction that asks for suggestions while a user types.
pub const AUTOCOMPLETE: u64 = 4;

/// The kind of a reply that answers a ping.
pub const PONG: u64 = 1;

/// The kind of a reply that carries a message.
pub const MESSAGE: u64 = 4;

/// The kind of a reply that promises a message for later.
pub const DEFERRED_MESSAGE: u64 = 5;

/// The kind of a reply that carries suggestions.
pub const AUTOCOMPLETE_RESULT: u64 = 8;

/// The headers of every reply.
pub open spec fn json_headers() -> HeadersView {
    HeadersView { content_type: "application/json"@ }
}

/// A successful reply of the given kind and payload.
pub open spec fn spec_reply(type_field: u64, data: Option<DataView>) -> BotResponseView {
    BotResponseView {
        headers: json_headers(),
        status_code: 200,
        body: BodyView { type_field, data },
    }
}

fn reply(type_field: u64, data: Option<Data>) -> (response: BotResponse)
    ensures
        response@ == spec_reply(
            type_field,
            match data {
                Some(data) => Some(data@),
                None => None,
            },
        ),
{
    BotResponse {
        headers: Headers { content_type: "application/json".to_string() },
        status_code: 200,
        body: Body { type_field, data },
    }
}

/// The reply to a ping.
pub fn make_ping_response() -> (response: BotResponse)
    ensures
        response@ == spec_reply(PONG, None),
{
    reply(PONG, None)
}

/// The reply that promises the answer to a command for later.
pub fn create_deferred_command_response() -> (response: Result<BotResponse, BotError>)
    ensures
        response is Ok,
        response->Ok_0@ == spec_reply(DEFERRED_MESSAGE, None),
{
    Ok(reply(DEFERRED_MESSAGE, None))
}

/// The payload of a reply that carries the message `content`.
pub open spec fn message_data(content: Seq<char>) -> DataView {
    DataView { tts: Some(false), content: Some(content), choices: None }
}

/// The reply that carries the answer to a command as a message.
pub fn message_response(content: String) -> (response: BotResponse)
    ensures
        response@ == spec_reply(MESSAGE, Some(message_data(content@))),
{
    reply(MESSAGE, Some(Data { tts: Some(false), content: Some(content), choices: None }))
}

/// The content of each suggestion of a list.
pub open spec fn choices_view(choices: Seq<StringChoice>) -> Seq<StringChoiceView> {
    choices.map_values(|item: StringChoice| item@)
}

/// The payload of a reply that carries suggestions.
pub open spec fn suggestion_data(choices: Seq<StringChoiceView>) -> DataView {
    DataView { tts: None, content: None, choices: Some(choices) }
}

/// The reply that carries suggestions.
pub fn autocomplete_response(choices: Vec<StringChoice>) -> (response: BotResponse)
    ensures
        response@ == spec_reply(AUTOCOMPLETE_RESULT, Some(suggestion_data(choices_view(choices@)))),
{
    reply(AUTOCOMPLETE_RESULT, Some(Data { tts: None, content: None, choices: Some(choices) }))
}

/// The failure of an interaction that is not what it should be.
pub fn make_validation_error_response(error: String) -> (bot_error: BotError)
    ensures
        bot_error@ == (BotErrorView { status_code: 400, body: error@ }),
{
    BotError { status_code: 400, body: error }
}

/// A failure with the given status and description.
pub fn make_error_response(error_code: u64, description: &str) -> (bot_error: BotError)
    ensures
        bot_error@ == (BotErrorView { status_code: error_code, body: description@ }),
{
    BotError { status_code: error_code, body: description.to_string() }
}

/// What the intake could read of an incoming event's body.
#[derive(Debug, PartialEq, Eq)]
pub enum Payload {
    /// The event has no body.
    Missing,
    /// The body is not an interaction.
    Malformed,
    /// The interaction that the body holds.
    Interaction(DiscordReceivedCommand),
}

/// The mathematical content of a [`Payload`].
pub enum PayloadView {
    Missing,
    Malformed,
    Interaction(DiscordReceivedCommandView),
}

impl View for Payload {
    type V = PayloadView;

    open spec fn view(&self) -> PayloadView {
        match self {
            Payload::Missing => PayloadView::Missing,
            Payload::Malformed => PayloadView::Malformed,
            Payload::Interaction(interaction) => PayloadView::Interaction(interaction@),
        }
    }
}

/// What the intake does about an interaction.
#[derive(Debug, PartialEq, Eq)]
pub enum InteractionStep {
    /// Send this reply.
    Respond(BotResponse),
    /// Put this request on the queue and promise its answer for later.
    Enqueue(PlayedCommand),
    /// Look up the searches of this user and suggest those that begin with
    /// what has been typed.
    Suggest { discord_user_id: String, name_prefix: String },
}

/// The mathematical content of an [`InteractionStep`].
pub enum InteractionStepView {
    Respond(BotResponseView),
    Enqueue(PlayedCommandView),
    Suggest { discord_user_id: Seq<char>, name_prefix: Seq<char> },
}

impl View for InteractionStep {
    type V = InteractionStepView;

    open spec fn view(&self) -> InteractionStepView {
        match self {
            InteractionStep::Respond(response) => InteractionStepView::Respond(response@),
            InteractionStep::Enqueue(command) => InteractionStepView::Enqueue(command@),
            InteractionStep::Suggest { discord_user_id, name_prefix } => InteractionStepView::Suggest {
                discord_user_id: discord_user_id@,
                name_prefix: name_prefix@,
            },
        }
    }
}

/// The value of the first text option called `user` that the user is
/// typing in.
pub open spec fn focused_user_option(options: Seq<CommandOptionView>) -> Option<Seq<char>>
    decreases options.len(),
{
    if options.len() == 0 {
        None
    } else {
        match options[0] {
            CommandOptionView::StringCommandOption(option) if option.name == "user"@
                && option.focused == Some(true) => Some(option.value),
            _ => focused_user_option(options.drop_first()),
        }
    }
}

fn find_focused_user_option(options: &Vec<CommandOption>) -> (value: Option<String>)
    ensures
        opt_text(value) == focused_user_option(options_view(options@)),
{
    let ghost all = options_view(options@);
    let mut i: usize = 0;
    assert(all.subrange(0, all.len() as int) =~= all);
    while i < options.len()
        invariant
            i <= options.len(),
            all == options_view(options@),
            focused_user_option(all) == focused_user_option(
                all.subrange(i as int, all.len() as int),
            ),
        decreases options.len() - i,
    {
        let ghost tail = all.subrange(i as int, all.len() as int);
        assert(tail[0] == options@[i as int]@);
        assert(tail.drop_first() =~= all.subrange(i + 1, all.len() as int));
        match &options[i] {
            CommandOption::StringCommandOption(option) => {
                let focused = match option.focused {
                    Some(true) => true,
                    _ => false,
                };
                if focused && same_text(option.name.as_str(), "user") {
                    return Some(option.value.clone());
                }
            },
            CommandOption::NumberCommandOption(_) => {},
        }
        i += 1;
    }
    assert(all.subrange(i as int, all.len() as int) =~= Seq::empty());
    None
}

/// A failure with status 400 and the given description.
pub open spec fn invalid(description: Seq<char>) -> BotErrorView {
    BotErrorView { status_code: 400, body: description }
}

/// What an interaction calls for.
///
/// A ping is answered. A command needs its data and the member who issued
/// it, and becomes a request for the queue if its options are those of a
/// request. A request for suggestions needs its data; it is answered with
/// no suggestions unless it names its user and that user is typing a
/// player's name. Every other kind is refused.
pub open spec fn spec_route(interaction: DiscordReceivedCommandView) -> Result<
    InteractionStepView,
    BotErrorView,
> {
    if interaction.type_field == PING {
        Ok(InteractionStepView::Respond(spec_reply(PONG, None)))
    } else if interaction.type_field == APPLICATION_COMMAND {
        match (interaction.data, interaction.member) {
            (None, _) => Err(invalid("Command missing 'data' field."@)),
            (Some(_), None) => Err(invalid("Command missing 'member' field."@)),
            (Some(command), Some(member)) => match spec_build_played_command(
                command,
                member.user.id,
                interaction.token,
                interaction.application_id,
            ) {
                Ok(played) => Ok(InteractionStepView::Enqueue(played)),
                Err(_) => Err(invalid("Could not parse options"@)),
            },
        }
    } else if interaction.type_field == AUTOCOMPLETE {
        match interaction.data {
            None => Err(invalid("Command missing 'data' field."@)),
            Some(command) => match (interaction.member, focused_user_option(command.options)) {
                (Some(member), Some(name_prefix)) => Ok(
                    InteractionStepView::Suggest { discord_user_id: member.user.id, name_prefix },
                ),
                _ => Ok(
                    InteractionStepView::Respond(
                        spec_reply(AUTOCOMPLETE_RESULT, Some(suggestion_data(Seq::empty()))),
                    ),
                ),
            },
        }
    } else {
        Err(invalid("Unrecognised command type"@))
    }
}

/// What an incoming event calls for, given whether its signature is valid
/// and what could be read of its body. An invalid signature is refused
/// before anything else is looked at, then a missing body, then one that is
/// no interaction.
pub open spec fn spec_process_request(signature_valid: bool, payload: PayloadView) -> Result<
    InteractionStepView,
    BotErrorView,
> {
    if !signature_valid {
        Err(BotErrorView { status_code: 401, body: "invalid request signature"@ })
    } else {
        match payload {
            PayloadView::Missing => Err(invalid("Missing body"@)),
            PayloadView::Malformed => Err(
                invalid("Payload is not of expected DiscordReceivedCommand structure"@),
            ),
            PayloadView::Interaction(interaction) => spec_route(interaction),
        }
    }
}

/// The content of a step or of the failure to find one.
pub open spec fn step_result_view(result: Result<InteractionStep, BotError>) -> Result<
    InteractionStepView,
    BotErrorView,
> {
    match result {
        Ok(step) => Ok(step@),
        Err(error) => Err(error@),
    }
}

fn route(interaction: DiscordReceivedCommand) -> (step: Result<InteractionStep, BotError>)
    ensures
        step_result_view(step) == spec_route(interaction@),
{
    let DiscordReceivedCommand { type_field, token, application_id, data, member } = interaction;
    if type_field == PING {
        Ok(InteractionStep::Respond(make_ping_response()))
    } else if type_field == APPLICATION_COMMAND {
        match (data, member) {
            (None, _) => Err(
                make_validation_error_response("Command missing 'data' field.".to_string()),
            ),
            (Some(_), None) => Err(
                make_validation_error_response("Command missing 'member' field.".to_string()),
            ),
            (Some(command), Some(member)) => {
                match build_played_command(command, member.user.id, token, application_id) {
                    Ok(played) => Ok(InteractionStep::Enqueue(played)),
                    Err(_) => Err(make_error_response(400, "Could not parse options")),
                }
            },
        }
    } else if type_field == AUTOCOMPLETE {
        match data {
            None => Err(
                make_validation_error_response("Command missing 'data' field.".to_string()),
            ),
            Some(command) => {
                match (member, find_focused_user_option(&command.options)) {
                    (Some(member), Some(name_prefix)) => Ok(
                        InteractionStep::Suggest { discord_user_id: member.user.id, name_prefix },
                    ),
                    _ => {
                        let none: Vec<StringChoice> = Vec::new();
                        assert(choices_view(none@) =~= Seq::empty());
                        Ok(InteractionStep::Respond(autocomplete_response(none)))
                    },
                }
            },
        }
    } else {
        Err(make_error_response(400, "Unrecognised command type"))
    }
}

/// Decides what an incoming event calls for, given whether its signature
/// is valid and what could be read of its body.
pub fn process_request(signature_valid: bool, payload: Payload) -> (step: Result<
    InteractionStep,
    BotError,
>)
    ensures
        step_result_view(step) == spec_process_request(signature_valid, payload@),
{
    if !signature_valid {
        return Err(make_error_response(401, "invalid request signature"));
    }
    match payload {
        Payload::Missing => Err(make_validation_error_response("Missing body".to_string())),
        Payload::Malformed => Err(
            make_validation_error_response(
                "Payload is not of expected DiscordReceivedCommand structure".to_string(),
            ),
        ),
        Payload::Interaction(interaction) => route(interaction),
    }
}

/// The suggestions for a player's name that begins with `name_prefix`: one
/// for each line of the history whose player's name begins so, in the
/// history's order.
pub open spec fn spec_autocomplete_choices(
    name_prefix: Seq<char>,
    history: Seq<SearchedDetailsView>,
) -> Seq<StringChoiceView>
    decreases history.len(),
{
    if history.len() == 0 {
        Seq::empty()
    } else {
        let before = spec_autocomplete_choices(name_prefix, history.drop_last());
        if name_prefix.is_prefix_of(history.last().searched_name) {
            before.push(StringChoiceView { name: "user"@, value: history.last().searched_name })
        } else {
            before
        }
    }
}

/// Picks from a user's search history the suggestions for a player's name
/// that begins with `name_prefix`.
pub fn autocomplete_choices(name_prefix: &str, history: Vec<SearchedDetails>) -> (choices: Vec<
    StringChoice,
>)
    ensures
        choices_view(choices@) == spec_autocomplete_choices(name_prefix@, history_view(history@)),
{
    let ghost all = history_view(history@);
    let mut choices: Vec<StringChoice> = Vec::new();
    let mut i: usize = 0;
    assert(choices_view(choices@) =~= spec_autocomplete_choices(name_prefix@, all.subrange(0, 0)));
    while i < history.len()
        invariant
            i <= history.len(),
            all == history_view(history@),
            choices_view(choices@) == spec_autocomplete_choices(
                name_prefix@,
                all.subrange(0, i as int),
            ),
        decreases history.len() - i,
    {
        assert(all.subrange(0, i + 1).drop_last() =~= all.subrange(0, i as int));
        assert(all.subrange(0, i + 1).last() == history@[i as int]@);
        if starts_with(history[i].searched_name.as_str(), name_prefix) {
            let ghost before = choices@;
            let choice = StringChoice {
                name: "user".to_string(),
                value: history[i].searched_name.clone(),
            };
            choices.push(choice);
            assert(choices_view(choices@) =~= choices_view(before).push(choice@));
        }
        i += 1;
    }
    assert(all.subrange(0, i as int) =~= all);
    choices
}

/// Puts a reply into the shape the hosting platform expects, given its body
/// written out as text, or nothing where it could not be written out.
pub fn to_lambda_response(response: BotResponse, body_text: Option<String>) -> (wrapped: Result<
    LambdaBotResponse,
    BotError,
>)
    ensures
        match body_text {
            Some(text) => wrapped is Ok && wrapped->Ok_0@ == (LambdaBotResponseView {
                headers: response@.headers,
                status_code: response@.status_code,
                body: text@,
            }),
            None => wrapped is Err && wrapped->Err_0@ == (BotErrorView {
                status_code: 500,
                body: "Error marshalling to JSON"@,
            }),
        },
{
    match body_text {
        Some(text) => Ok(
            LambdaBotResponse {
                headers: response.headers,
                status_code: response.status_code,
                body: text,
            },
        ),
        None => Err(make_error_response(500, "Error marshalling to JSON")),
    }
}

/// The identifier by which the queue tells a request from its repeats: the
/// player, the days and the moment of asking, joined by hyphens, without
/// any white space.
pub open spec fn spec_deduplication_id(player_name: Seq<char>, days: u64, asked_at: Seq<char>) -> Seq<
    char,
> {
    without_whitespace(player_name + "-"@ + decimal(days as nat) + "-"@ + asked_at)
}

/// Builds the identifier by which the queue tells a request from its
/// repeats, given the moment of asking as text.
pub fn deduplication_id(command: &PlayedCommand, asked_at: &str) -> (id: String)
    ensures
        id@ == spec_deduplication_id(command@.player_name, command@.days, asked_at@),
{
    let mut joined = String::from_str(command.player_name.as_str());
    joined.append("-");
    append_decimal(&mut joined, command.days);
    joined.append("-");
    joined.append(asked_at);
    strip_whitespace(joined.as_str())
}

} // verus!
