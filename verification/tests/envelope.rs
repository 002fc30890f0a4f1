use telegram_api::api::types::{Chat, Message, Response, Update, User};
use telegram_api::error::Error;

fn user() -> User {
    User {
        id: 1,
        first_name: "Bot".to_string(),
        is_bot: true,
        language_code: None,
        last_name: None,
    }
}

#[test]
fn success_with_result_yields_the_result() {
    let response = Response { ok: true, error_code: None, description: None, result: Some(user()) };
    match response.into_result() {
        Ok(found) => assert_eq!(found, user()),
        Err(error) => panic!("unexpected error: {:?}", error),
    }
}

#[test]
fn failure_with_description_yields_an_api_error() {
    let response: Response<User> = Response {
        ok: false,
        error_code: Some(401),
        description: Some("bad token".to_string()),
        result: None,
    };
    match response.into_result() {
        Err(Error::Api(message)) => assert_eq!(message, "bad token"),
        other => panic!("unexpected outcome: {:?}", other),
    }
}

#[test]
fn success_without_result_yields_an_invalid_state() {
    let response: Response<User> =
        Response { ok: true, error_code: None, description: None, result: None };
    match response.into_result() {
        Err(Error::InvalidState(message)) => assert_eq!(message, "Invalid server response"),
        other => panic!("unexpected outcome: {:?}", other),
    }
}

#[test]
fn failure_without_description_yields_an_invalid_state() {
    let response: Response<User> =
        Response { ok: false, error_code: Some(500), description: None, result: Some(user()) };
    assert!(matches!(response.into_result(), Err(Error::InvalidState(_))));
}

#[test]
fn failure_with_description_wins_over_a_result() {
    let response = Response {
        ok: false,
        error_code: None,
        description: Some("flood".to_string()),
        result: Some(user()),
    };
    match response.into_result() {
        Err(Error::Api(message)) => assert_eq!(message, "flood"),
        other => panic!("unexpected outcome: {:?}", other),
    }
}

#[test]
fn success_with_description_still_yields_the_result() {
    let response = Response {
        ok: true,
        error_code: None,
        description: Some("note".to_string()),
        result: Some(vec![Update { update_id: 3, message: None }]),
    };
    match response.into_result() {
        Ok(updates) => assert_eq!(updates, vec![Update { update_id: 3, message: None }]),
        Err(error) => panic!("unexpected error: {:?}", error),
    }
}

#[test]
fn records_compare_by_their_fields() {
    let chat = Chat { id: 5, first_name: "Ann".to_string(), last_name: Some("Lee".to_string()) };
    let message = Message {
        chat: chat.clone(),
        date: 10,
        from: user(),
        message_id: 77,
        text: Some("hello".to_string()),
    };
    let update = Update { update_id: 1, message: Some(message.clone()) };
    assert_eq!(update.clone(), update);
    assert_ne!(update, Update { update_id: 2, message: Some(message) });
    assert_ne!(chat, Chat { id: 5, first_name: "Ann".to_string(), last_name: None });
}

#[test]
fn error_text_is_the_text_it_carries() {
    assert_eq!(Error::Api("bad token".to_string()).description(), "bad token");
    assert_eq!(Error::InvalidState("odd".to_string()).description(), "odd");
    assert_eq!(Error::InvalidPath("p".to_string()).description(), "p");
}

#[test]
fn error_text_of_outside_errors_is_their_own() {
    let parse = url::Url::parse("no url").unwrap_err();
    assert_eq!(Error::InvalidTokenFormat(parse).description(), parse.to_string());
    let io = std::io::Error::new(std::io::ErrorKind::Other, "broken pipe");
    assert_eq!(Error::Io(io).description(), "broken pipe");
    let http = hyper::Error::Method;
    let text = http.to_string();
    assert_eq!(Error::Http(http).description(), text);
}

#[test]
fn outside_errors_convert_into_their_variants() {
    let parse = url::Url::parse("no url").unwrap_err();
    assert!(matches!(Error::from(parse), Error::InvalidTokenFormat(e) if e == parse));
    let io = std::io::Error::new(std::io::ErrorKind::Other, "gone");
    assert!(matches!(Error::from(io), Error::Io(_)));
    assert!(matches!(Error::from(hyper::Error::Method), Error::Http(hyper::Error::Method)));
    let decode = rustc_serialize::json::DecoderError::MissingFieldError("ok".to_string());
    assert!(matches!(Error::from(decode), Error::JsonDecode(_)));
    let encode = rustc_serialize::json::EncoderError::BadHashmapKey;
    assert!(matches!(Error::from(encode), Error::JsonEncode(_)));
}

#[test]
fn envelope_copy_has_the_same_fields() {
    let response = Response {
        ok: false,
        error_code: Some(404),
        description: Some("not found".to_string()),
        result: Some(user()),
    };
    assert_eq!(response.clone(), response);
    let empty: Response<User> =
        Response { ok: true, error_code: None, description: None, result: None };
    assert_eq!(empty.clone(), empty);
}
