use lol_bot::api_fetcher::{await_failure, response_failure, send_failure};
use lol_bot::discord_bot_types::BotError;
use lol_bot::models::LolApiError;
use lol_bot::responder::{reply_content, response_url, to_bot_error};
use lol_bot::search_history::{get_searched_details, SearchedDetails, StoredAttribute};

fn failure(code: &str) -> LolApiError {
    LolApiError { description: "what happened".to_string(), http_code: code.to_string() }
}

fn text(value: &str) -> Option<StoredAttribute> {
    Some(StoredAttribute::Text(value.to_string()))
}

fn number(value: &str) -> Option<StoredAttribute> {
    Some(StoredAttribute::Number(value.to_string()))
}

#[test]
fn to_bot_error_keeps_throttling_and_not_found() {
    assert_eq!(
        to_bot_error(failure("429")),
        BotError { status_code: 429, body: "what happened".to_string() }
    );
    assert_eq!(
        to_bot_error(failure("404")),
        BotError { status_code: 404, body: "what happened".to_string() }
    );
}

#[test]
fn to_bot_error_blames_the_bot_for_the_rest() {
    for code in ["500", "503", "400", "409", "200", "", "Unknown", "429 Too Many Requests", "0429"] {
        assert_eq!(
            to_bot_error(failure(code)),
            BotError { status_code: 500, body: "what happened".to_string() },
            "{:?}",
            code
        );
    }
}

#[test]
fn reply_content_is_the_report_or_a_sentence() {
    assert_eq!(reply_content(&Ok("the report".to_string())), "the report");
    let failed = |status_code: u64| Err(BotError { status_code, body: "inner".to_string() });
    assert_eq!(
        reply_content(&failed(429)),
        "Too many requests in a short period of time, try again in a minute."
    );
    assert_eq!(reply_content(&failed(404)), "User not found.");
    assert_eq!(reply_content(&failed(500)), "An unknown error occurred.");
    assert_eq!(reply_content(&failed(409)), "An unknown error occurred.");
}

#[test]
fn response_url_names_the_interaction() {
    assert_eq!(
        response_url("app-1", "tok-2"),
        "https://discord.com/api/webhooks/app-1/tok-2/messages/@original"
    );
}

#[test]
fn internal_failure_has_the_internal_code() {
    assert_eq!(
        LolApiError::internal("connection reset".to_string()),
        LolApiError { description: "connection reset".to_string(), http_code: "500".to_string() }
    );
}

#[test]
fn dispatcher_failures_are_described() {
    assert_eq!(
        send_failure("channel closed"),
        LolApiError {
            description: "Could not send HTTP request, err: channel closed.".to_string(),
            http_code: "500".to_string(),
        }
    );
    assert_eq!(
        await_failure("channel closed"),
        LolApiError {
            description: "Could not await HTTP response, err: channel closed.".to_string(),
            http_code: "500".to_string(),
        }
    );
    assert_eq!(
        response_failure(Some(502), " bad gateway"),
        LolApiError {
            description: "HTTP response error, status: 502, error bad gateway".to_string(),
            http_code: "500".to_string(),
        }
    );
    assert_eq!(
        response_failure(None, "timed out"),
        LolApiError {
            description: "HTTP response error, status: None, errortimed out".to_string(),
            http_code: "500".to_string(),
        }
    );
}

#[test]
fn searched_details_are_read_from_a_record() {
    assert_eq!(
        get_searched_details(text("user-1"), text("Ada"), number("3"), number("1700000000")),
        Some(SearchedDetails {
            discord_id: "user-1".to_string(),
            searched_name: "Ada".to_string(),
            times: 3,
            last_search: 1_700_000_000,
        })
    );
}

#[test]
fn incomplete_record_is_no_history_line() {
    assert_eq!(get_searched_details(None, text("Ada"), number("3"), number("4")), None);
    assert_eq!(get_searched_details(text("u"), None, number("3"), number("4")), None);
    assert_eq!(get_searched_details(text("u"), text("Ada"), None, number("4")), None);
    assert_eq!(get_searched_details(text("u"), text("Ada"), number("3"), None), None);
}

#[test]
fn record_in_another_form_is_no_history_line() {
    assert_eq!(get_searched_details(number("1"), text("Ada"), number("3"), number("4")), None);
    assert_eq!(get_searched_details(text("u"), number("5"), number("3"), number("4")), None);
    assert_eq!(get_searched_details(text("u"), text("Ada"), text("3"), number("4")), None);
    assert_eq!(get_searched_details(text("u"), text("Ada"), number("3"), text("4")), None);
    assert_eq!(
        get_searched_details(text("u"), text("Ada"), Some(StoredAttribute::Other), number("4")),
        None
    );
    assert_eq!(get_searched_details(text("u"), text("Ada"), number("3.5"), number("4")), None);
    assert_eq!(get_searched_details(text("u"), text("Ada"), number("3"), number("-4")), None);
}
