use lol_bot::discord_bot_types::{
    Body, BotError, BotResponse, Command, CommandOption, Data, DiscordReceivedCommand, Headers,
    LambdaBotResponse, Member, NumberCommandOption, PlayedCommand, StringChoice,
    StringCommandOption, User,
};
use lol_bot::interaction::{
    autocomplete_choices, autocomplete_response, create_deferred_command_response,
    deduplication_id, make_error_response, make_ping_response, make_validation_error_response,
    message_response, process_request, to_lambda_response, InteractionStep, Payload,
};
use lol_bot::lol_command::build_played_command;
use lol_bot::search_history::SearchedDetails;

fn text_option(name: &str, value: &str, focused: Option<bool>) -> CommandOption {
    CommandOption::StringCommandOption(StringCommandOption {
        type_field: 3,
        name: name.to_string(),
        value: value.to_string(),
        focused,
    })
}

fn number_option(name: &str, value: u64) -> CommandOption {
    CommandOption::NumberCommandOption(NumberCommandOption {
        type_field: 4,
        name: name.to_string(),
        value,
        focused: None,
    })
}

fn command(name: &str, options: Vec<CommandOption>) -> Command {
    Command { id: "1".to_string(), name: name.to_string(), options }
}

fn member(id: &str) -> Member {
    Member { user: User { id: id.to_string(), username: "ada".to_string() } }
}

fn interaction(kind: u64, data: Option<Command>, who: Option<Member>) -> Payload {
    Payload::Interaction(DiscordReceivedCommand {
        type_field: kind,
        token: "token".to_string(),
        application_id: "app".to_string(),
        data,
        member: who,
    })
}

fn reply(kind: u64, data: Option<Data>) -> BotResponse {
    BotResponse {
        headers: Headers { content_type: "application/json".to_string() },
        status_code: 200,
        body: Body { type_field: kind, data },
    }
}

fn invalid(description: &str) -> BotError {
    BotError { status_code: 400, body: description.to_string() }
}

fn searched(name: &str) -> SearchedDetails {
    SearchedDetails {
        discord_id: "user-1".to_string(),
        searched_name: name.to_string(),
        times: 1,
        last_search: 1_700_000_000,
    }
}

#[test]
fn build_played_command_reads_the_options() {
    let built = build_played_command(
        command("played", vec![text_option("user", "Ada", None), number_option("days", 10)]),
        "user-1".to_string(),
        "token".to_string(),
        "app".to_string(),
    );
    assert_eq!(
        built,
        Ok(PlayedCommand {
            token: "token".to_string(),
            application_id: "app".to_string(),
            discord_user_id: "user-1".to_string(),
            player_name: "Ada".to_string(),
            days: 10,
            game_type: None,
        })
    );
}

#[test]
fn build_played_command_marks_ranked_requests() {
    let built = build_played_command(
        command("ranked", vec![number_option("days", 3), text_option("user", "Ada", None)]),
        "user-1".to_string(),
        "token".to_string(),
        "app".to_string(),
    )
    .unwrap();
    assert_eq!(built.game_type, Some("ranked".to_string()));
    assert_eq!(built.days, 3);
    assert_eq!(built.player_name, "Ada");
}

#[test]
fn build_played_command_takes_the_first_option_of_a_name() {
    let built = build_played_command(
        command(
            "played",
            vec![
                number_option("user", 5),
                text_option("days", "many", None),
                text_option("region", "euw", None),
                text_option("user", "Ada", None),
                number_option("days", 2),
                text_option("user", "Bob", None),
                number_option("days", 6),
            ],
        ),
        "user-1".to_string(),
        "token".to_string(),
        "app".to_string(),
    )
    .unwrap();
    assert_eq!(built.player_name, "Ada");
    assert_eq!(built.days, 2);
}

#[test]
fn build_played_command_needs_both_options() {
    let missing = Err(BotError { status_code: 500, body: "Could not find player name".to_string() });
    for options in [
        vec![],
        vec![text_option("user", "Ada", None)],
        vec![number_option("days", 3)],
        vec![text_option("User", "Ada", None), number_option("days", 3)],
        vec![text_option("user", "Ada", None), text_option("days", "3", None)],
    ] {
        assert_eq!(
            build_played_command(
                command("played", options),
                "user-1".to_string(),
                "token".to_string(),
                "app".to_string()
            ),
            missing
        );
    }
}

#[test]
fn replies_have_their_kind() {
    assert_eq!(make_ping_response(), reply(1, None));
    assert_eq!(create_deferred_command_response(), Ok(reply(5, None)));
    assert_eq!(
        message_response("hello".to_string()),
        reply(4, Some(Data { tts: Some(false), content: Some("hello".to_string()), choices: None }))
    );
    assert_eq!(
        autocomplete_response(vec![StringChoice {
            name: "user".to_string(),
            value: "Ada".to_string()
        }]),
        reply(
            8,
            Some(Data {
                tts: None,
                content: None,
                choices: Some(vec![StringChoice {
                    name: "user".to_string(),
                    value: "Ada".to_string()
                }]),
            })
        )
    );
}

#[test]
fn failures_carry_status_and_description() {
    assert_eq!(make_validation_error_response("Missing body".to_string()), invalid("Missing body"));
    assert_eq!(
        make_error_response(401, "invalid request signature"),
        BotError { status_code: 401, body: "invalid request signature".to_string() }
    );
}

#[test]
fn unsigned_event_is_refused_before_anything_else() {
    let refused = Err(BotError { status_code: 401, body: "invalid request signature".to_string() });
    assert_eq!(process_request(false, Payload::Missing), refused);
    assert_eq!(process_request(false, Payload::Malformed), refused);
    assert_eq!(process_request(false, interaction(1, None, None)), refused);
}

#[test]
fn unreadable_event_is_invalid() {
    assert_eq!(process_request(true, Payload::Missing), Err(invalid("Missing body")));
    assert_eq!(
        process_request(true, Payload::Malformed),
        Err(invalid("Payload is not of expected DiscordReceivedCommand structure"))
    );
}

#[test]
fn ping_is_answered() {
    assert_eq!(
        process_request(true, interaction(1, None, None)),
        Ok(InteractionStep::Respond(reply(1, None)))
    );
}

#[test]
fn command_is_put_on_the_queue() {
    let data = command("ranked", vec![text_option("user", "Ada", None), number_option("days", 10)]);
    assert_eq!(
        process_request(true, interaction(2, Some(data), Some(member("user-1")))),
        Ok(InteractionStep::Enqueue(PlayedCommand {
            token: "token".to_string(),
            application_id: "app".to_string(),
            discord_user_id: "user-1".to_string(),
            player_name: "Ada".to_string(),
            days: 10,
            game_type: Some("ranked".to_string()),
        }))
    );
}

#[test]
fn incomplete_command_is_invalid() {
    let data = || command("played", vec![text_option("user", "Ada", None), number_option("days", 1)]);
    assert_eq!(
        process_request(true, interaction(2, None, Some(member("user-1")))),
        Err(invalid("Command missing 'data' field."))
    );
    assert_eq!(
        process_request(true, interaction(2, None, None)),
        Err(invalid("Command missing 'data' field."))
    );
    assert_eq!(
        process_request(true, interaction(2, Some(data()), None)),
        Err(invalid("Command missing 'member' field."))
    );
    assert_eq!(
        process_request(
            true,
            interaction(2, Some(command("played", vec![])), Some(member("user-1")))
        ),
        Err(invalid("Could not parse options"))
    );
}

#[test]
fn typing_a_name_asks_for_suggestions() {
    let data = command(
        "played",
        vec![
            text_option("user", "old", Some(false)),
            number_option("days", 1),
            text_option("user", "Ad", Some(true)),
        ],
    );
    assert_eq!(
        process_request(true, interaction(4, Some(data), Some(member("user-1")))),
        Ok(InteractionStep::Suggest {
            discord_user_id: "user-1".to_string(),
            name_prefix: "Ad".to_string(),
        })
    );
}

#[test]
fn nothing_is_suggested_without_user_or_focus() {
    let none = Ok(InteractionStep::Respond(reply(
        8,
        Some(Data { tts: None, content: None, choices: Some(Vec::new()) }),
    )));
    let typing = || command("played", vec![text_option("user", "Ad", Some(true))]);
    assert_eq!(process_request(true, interaction(4, Some(typing()), None)), none);
    let idle = command("played", vec![text_option("user", "Ad", None), number_option("days", 1)]);
    assert_eq!(process_request(true, interaction(4, Some(idle), Some(member("user-1")))), none);
    let other = command("played", vec![text_option("region", "eu", Some(true))]);
    assert_eq!(process_request(true, interaction(4, Some(other), Some(member("user-1")))), none);
    assert_eq!(
        process_request(true, interaction(4, None, Some(member("user-1")))),
        Err(invalid("Command missing 'data' field."))
    );
}

#[test]
fn unknown_kind_is_refused() {
    for kind in [0u64, 3, 5, 99] {
        assert_eq!(
            process_request(true, interaction(kind, None, None)),
            Err(invalid("Unrecognised command type"))
        );
    }
}

#[test]
fn suggestions_begin_with_what_was_typed() {
    let history = || vec![searched("Ada"), searched("Bob"), searched("Adam"), searched("ada")];
    let choice = |value: &str| StringChoice { name: "user".to_string(), value: value.to_string() };
    assert_eq!(autocomplete_choices("Ad", history()), vec![choice("Ada"), choice("Adam")]);
    assert_eq!(
        autocomplete_choices("", history()),
        vec![choice("Ada"), choice("Bob"), choice("Adam"), choice("ada")]
    );
    assert_eq!(autocomplete_choices("Adam", history()), vec![choice("Adam")]);
    assert_eq!(autocomplete_choices("Zed", history()), Vec::new());
    assert_eq!(autocomplete_choices("Ad", Vec::new()), Vec::new());
}

#[test]
fn deduplication_id_has_no_white_space() {
    let request = PlayedCommand {
        token: "token".to_string(),
        application_id: "app".to_string(),
        discord_user_id: "user-1".to_string(),
        player_name: "Ada Lovelace".to_string(),
        days: 10,
        game_type: None,
    };
    assert_eq!(
        deduplication_id(&request, "2023-11-14T22:13:20+00:00"),
        "AdaLovelace-10-2023-11-14T22:13:20+00:00"
    );
    assert_eq!(deduplication_id(&request, " a\tb "), "AdaLovelace-10-ab");
}

#[test]
fn lambda_response_carries_the_written_body() {
    assert_eq!(
        to_lambda_response(make_ping_response(), Some("{\"type\":1}".to_string())),
        Ok(LambdaBotResponse {
            headers: Headers { content_type: "application/json".to_string() },
            status_code: 200,
            body: "{\"type\":1}".to_string(),
        })
    );
    assert_eq!(
        to_lambda_response(make_ping_response(), None),
        Err(BotError { status_code: 500, body: "Error marshalling to JSON".to_string() })
    );
}
