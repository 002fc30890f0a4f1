use telegram_api::api::types::{Chat, Message, Update, UrlParams, User};
use telegram_api::api::{is_plain, Api, Endpoint, Header, Request, MAX_URL_LENGTH};
use telegram_api::config::Config;
use telegram_api::error::Error;
use telegram_api::telegram::TelegramBotApi;

fn config() -> Config {
    Config::new("123:abc".to_string(), "https://api.telegram.org".to_string(), 30)
}

fn bot() -> TelegramBotApi {
    TelegramBotApi::new(&config()).unwrap()
}

fn message(text: Option<&str>) -> Message {
    Message {
        chat: Chat { id: 42, first_name: "Ann".to_string(), last_name: None },
        date: 1,
        from: User {
            id: 7,
            first_name: "Ann".to_string(),
            is_bot: false,
            language_code: None,
            last_name: None,
        },
        message_id: 99,
        text: text.map(|t| t.to_string()),
    }
}

#[test]
fn endpoint_is_kept_in_normal_form() {
    let url = Endpoint::parse("HTTPS://Example.COM:443/a/../b").unwrap();
    assert_eq!(url.as_str(), "https://example.com/b");
    assert_eq!(url.clone().as_str(), url.as_str());
}

#[test]
fn endpoint_refuses_what_is_no_absolute_url() {
    assert!(matches!(
        Endpoint::parse("api.telegram.org/bot"),
        Err(Error::InvalidTokenFormat(url::ParseError::RelativeUrlWithoutBase))
    ));
    assert!(matches!(Endpoint::parse(""), Err(Error::InvalidTokenFormat(_))));
    assert!(matches!(
        Endpoint::parse("https://exa mple.com/"),
        Err(Error::InvalidTokenFormat(_))
    ));
}

#[test]
fn method_replaces_the_last_path_segment() {
    let url = Endpoint::parse("https://api.telegram.org/bot123:abc/dummy").unwrap();
    assert_eq!(
        url.with_method("getMe").unwrap().as_str(),
        "https://api.telegram.org/bot123:abc/getMe"
    );
    let bare = Endpoint::parse("https://api.telegram.org").unwrap();
    assert_eq!(bare.with_method("getMe").unwrap().as_str(), "https://api.telegram.org/getMe");
    let slash = Endpoint::parse("https://api.telegram.org/bot1/").unwrap();
    assert_eq!(slash.with_method("getMe").unwrap().as_str(), "https://api.telegram.org/bot1/getMe");
}

#[test]
fn method_keeps_query_and_escapes_its_name() {
    let url = Endpoint::parse("https://h.example/a/b?x=1#f").unwrap();
    assert_eq!(url.with_method("c d/e").unwrap().as_str(), "https://h.example/a/c%20d%2Fe?x=1#f");
}

#[test]
fn url_without_path_segments_stays_as_it_is() {
    let url = Endpoint::parse("mailto:bot@example.com").unwrap();
    assert_eq!(url.with_method("getMe").unwrap().as_str(), "mailto:bot@example.com");
}

#[test]
fn overlong_method_is_refused() {
    let url = Endpoint::parse("https://api.telegram.org/bot1/dummy").unwrap();
    let name = "m".repeat(MAX_URL_LENGTH + 1);
    match url.with_method(&name) {
        Err(Error::InvalidPath(refused)) => assert_eq!(refused, name),
        _ => panic!("the method was not refused"),
    }
    let longest = "m".repeat(MAX_URL_LENGTH);
    assert!(url.with_method(&longest).is_ok());
}

#[test]
fn config_builds_the_bot_endpoint() {
    let url = config().get_telegram_bot_endpoint().unwrap();
    assert_eq!(url.as_str(), "https://api.telegram.org/bot123:abc/dummy");
}

#[test]
fn config_keeps_its_fields() {
    let config = config();
    assert_eq!(config.telegram_token, "123:abc");
    assert_eq!(config.telegram_endpoint, "https://api.telegram.org");
    assert_eq!(config.timeout, 30);
}

#[test]
fn config_without_a_valid_url_is_refused() {
    let broken = Config::new("123:abc".to_string(), "telegram".to_string(), 30);
    assert!(matches!(
        broken.get_telegram_bot_endpoint(),
        Err(Error::InvalidTokenFormat(_))
    ));
    assert!(matches!(TelegramBotApi::new(&broken), Err(Error::InvalidTokenFormat(_))));
}

#[test]
fn request_carries_url_body_and_headers() {
    let url = Endpoint::parse("https://api.telegram.org/bot1/dummy").unwrap();
    let mut params = UrlParams::new();
    params.add_value("chat_id", 42i64);
    params.add_value("text", "hé");
    let request = Api::request(&url, "sendMessage", params).unwrap();
    assert_eq!(request.url.as_str(), "https://api.telegram.org/bot1/sendMessage");
    assert_eq!(request.body, "chat_id=42&text=hé");
    assert_eq!(
        request.headers,
        vec![
            Header::ConnectionClose,
            Header::ContentTypeFormUrlEncoded,
            Header::ContentLength(19),
        ]
    );
}

#[test]
fn send_request_uses_the_url_of_the_api() {
    let api = Api::new(Endpoint::parse("https://api.telegram.org/bot1/dummy").unwrap());
    let request = api.send_request("getMe", UrlParams::new()).unwrap();
    assert_eq!(request.url.as_str(), "https://api.telegram.org/bot1/getMe");
    assert_eq!(request.body, "");
    assert_eq!(request.headers[2], Header::ContentLength(0));
    assert_eq!(api.clone().url.as_str(), api.url.as_str());
}

#[test]
fn get_me_has_no_parameters() {
    let request = bot().get_me().unwrap();
    assert_eq!(request.url.as_str(), "https://api.telegram.org/bot123:abc/getMe");
    assert_eq!(request.body, "");
}

#[test]
fn send_message_encodes_required_and_present_fields() {
    let request = bot().send_message(42, "hi".to_string(), None, None).unwrap();
    assert_eq!(request.url.as_str(), "https://api.telegram.org/bot123:abc/sendMessage");
    assert_eq!(request.body, "chat_id=42&text=hi");
    let request = bot().send_message(-7, "yo".to_string(), Some(false), Some(12)).unwrap();
    assert_eq!(
        request.body,
        "chat_id=-7&text=yo&disable_web_page_preview=false&reply_to_message_id=12"
    );
    let request = bot().send_message(1, "x".to_string(), None, Some(3)).unwrap();
    assert_eq!(request.body, "chat_id=1&text=x&reply_to_message_id=3");
}

#[test]
fn listener_of_a_bot_starts_at_zero() {
    let bot = bot();
    let listener = bot.listener(Some(9));
    assert_eq!(listener.confirmed(), 0);
    assert_eq!(listener.timeout(), Some(9));
    assert_eq!(listener.endpoint().as_str(), "https://api.telegram.org/bot123:abc/dummy");
    assert_eq!(bot.clone().api.url.as_str(), bot.api.url.as_str());
}

#[test]
fn echo_answers_text_as_a_reply() {
    let update = Update { update_id: 1, message: Some(message(Some("hello"))) };
    let request = bot().echo(update).unwrap().unwrap();
    assert_eq!(request.url.as_str(), "https://api.telegram.org/bot123:abc/sendMessage");
    assert_eq!(request.body, "chat_id=42&text=hello&reply_to_message_id=99");
}

#[test]
fn echo_is_silent_without_text() {
    assert!(bot().echo(Update { update_id: 1, message: None }).is_none());
    assert!(bot().echo(Update { update_id: 1, message: Some(message(None)) }).is_none());
    assert!(bot().echo(Update { update_id: 1, message: Some(message(Some(""))) }).is_none());
}

#[test]
fn config_writes_out_the_endpoint_text() {
    assert_eq!(config().get_endpoint_text(), "https://api.telegram.org/bot123:abc/dummy");
    let odd = Config::new("t".to_string(), "".to_string(), 0);
    assert_eq!(odd.get_endpoint_text(), "/bott/dummy");
}

#[test]
fn new_request_posts_the_parameters() {
    let url = Endpoint::parse("https://api.telegram.org/bot1/getUpdates").unwrap();
    let mut params = UrlParams::new();
    params.add_value("offset", 3i64);
    params.add_opt_value("limit", Some(0i64));
    let request = Request::new(url, params);
    assert_eq!(request.url.as_str(), "https://api.telegram.org/bot1/getUpdates");
    assert_eq!(request.body, "offset=3&limit=0");
    assert_eq!(
        request.headers,
        vec![
            Header::ConnectionClose,
            Header::ContentTypeFormUrlEncoded,
            Header::ContentLength(16),
        ]
    );
}

fn refused_as_path(outcome: Result<Endpoint, Error>, text: &str) -> bool {
    matches!(outcome, Err(Error::InvalidPath(refused)) if refused == text)
}

#[test]
fn plain_texts_are_short_ascii_without_high_escapes() {
    assert_eq!(MAX_URL_LENGTH, 2048);
    assert!(is_plain(""));
    assert!(is_plain("https://api.telegram.org/bot1:a/dummy"));
    assert!(is_plain("a%20b%7Ec%"));
    assert!(is_plain("100%"));
    assert!(is_plain("%%41"));
    assert!(is_plain("%zz%7f%0A"));
    assert!(!is_plain("a%80"));
    assert!(!is_plain("a%9"));
    assert!(!is_plain("%aF"));
    assert!(!is_plain("%F0%9F"));
    assert!(!is_plain("%%C3"));
    assert!(!is_plain("%e2"));
    assert!(!is_plain("é"));
    assert!(!is_plain("https://bücher.example/"));
    assert!(is_plain(&"a".repeat(MAX_URL_LENGTH)));
    assert!(!is_plain(&"a".repeat(MAX_URL_LENGTH + 1)));
}

#[test]
fn endpoint_refuses_text_outside_ascii() {
    let text = "https://bücher.example/";
    assert!(refused_as_path(Endpoint::parse(text), text));
    let text = "https://example.com/путь";
    assert!(refused_as_path(Endpoint::parse(text), text));
}

#[test]
fn endpoint_refuses_escapes_of_bytes_outside_ascii() {
    let text = "https://%E2%98%83.example/";
    assert!(refused_as_path(Endpoint::parse(text), text));
    let text = "https://example.com/a%C3%A9";
    assert!(refused_as_path(Endpoint::parse(text), text));
}

#[test]
fn endpoint_keeps_escapes_of_ascii() {
    let url = Endpoint::parse("https://h.example/a%20b?q=%7e").unwrap();
    assert_eq!(url.as_str(), "https://h.example/a%20b?q=%7e");
    let url = Endpoint::parse("https://h.example/a b").unwrap();
    assert_eq!(url.as_str(), "https://h.example/a%20b");
    let url = Endpoint::parse("https://EX%41MPLE.com/").unwrap();
    assert_eq!(url.as_str(), "https://example.com/");
}

#[test]
fn endpoint_reads_punycode_labels() {
    let url = Endpoint::parse("https://xn--bcher-kva.example/").unwrap();
    assert_eq!(url.as_str(), "https://xn--bcher-kva.example/");
    let long = format!("https://xn--{}.example/", "a".repeat(1990));
    assert!(matches!(Endpoint::parse(&long), Err(Error::InvalidTokenFormat(_))));
    let digits = format!("https://xn--{}.example/", "9".repeat(1990));
    assert!(matches!(Endpoint::parse(&digits), Err(Error::InvalidTokenFormat(_))));
}

#[test]
fn endpoint_refuses_overlong_text() {
    let longest = format!("https://h.example/{}", "a".repeat(MAX_URL_LENGTH - 18));
    assert_eq!(longest.len(), MAX_URL_LENGTH);
    assert_eq!(Endpoint::parse(&longest).unwrap().as_str(), longest);
    let longer = format!("{}a", longest);
    assert!(refused_as_path(Endpoint::parse(&longer), &longer));
}

#[test]
fn endpoint_refuses_long_labels_outside_ascii() {
    let text = format!("https://{}{}/", "a".repeat(29_999), '\u{22FBD}');
    assert!(refused_as_path(Endpoint::parse(&text), &text));
    let text = format!("https://{}{}/", "\u{FDFA}".repeat(215), '\u{10F4D7}');
    assert!(text.len() < 700);
    assert!(refused_as_path(Endpoint::parse(&text), &text));
}

#[test]
fn method_is_refused_at_a_url_that_is_not_plain() {
    let url = Endpoint::parse("https://api.telegram.org/bot1/dummy").unwrap();
    let escaped = url.with_method("é").unwrap();
    assert_eq!(escaped.as_str(), "https://api.telegram.org/bot1/%C3%A9");
    assert!(matches!(escaped.with_method("getMe"), Err(Error::InvalidPath(name)) if name == "getMe"));
    let spaced = Endpoint::parse(&format!("https://h.example/{}", " a".repeat(600))).unwrap();
    assert!(spaced.as_str().len() > MAX_URL_LENGTH);
    assert!(matches!(spaced.with_method("getMe"), Err(Error::InvalidPath(name)) if name == "getMe"));
}

#[test]
fn config_that_is_not_plain_is_refused_with_its_text() {
    let odd = Config::new("ключ".to_string(), "https://api.telegram.org".to_string(), 30);
    let text = "https://api.telegram.org/botключ/dummy";
    assert!(refused_as_path(odd.get_telegram_bot_endpoint(), text));
    assert!(matches!(TelegramBotApi::new(&odd), Err(Error::InvalidPath(refused)) if refused == text));
    let long = Config::new("t".repeat(MAX_URL_LENGTH), "https://api.telegram.org".to_string(), 30);
    assert!(matches!(TelegramBotApi::new(&long), Err(Error::InvalidPath(_))));
}
