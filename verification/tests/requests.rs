use nanogpt_cli::client::{
    build_chat_request_body, build_headers, chat_headers, chat_result, parse_json_response,
    parse_key_value, read_stream_line, refusal, settle_success, stream_complaint, ChatRequest,
    ClientConfig, NanoGptClient, StreamLine, StreamState,
};
use nanogpt_cli::conversation::ConversationMessage;
use nanogpt_cli::json::{read_json, show_json, Json};
use nanogpt_cli::wire::{encode_path_segment, Pair};

fn pair(key: &str, value: &str) -> Pair {
    Pair { key: key.to_string(), value: value.to_string() }
}

fn client(base: &str, key: Option<&str>) -> NanoGptClient {
    NanoGptClient::new(ClientConfig {
        base_url: base.to_string(),
        api_key: key.map(|k| k.to_string()),
        timeout_secs: 5,
    })
}

fn request() -> ChatRequest {
    ChatRequest {
        model: "m".to_string(),
        system_prompt: Some("sys".to_string()),
        messages: vec![ConversationMessage {
            role: "user".to_string(),
            content: "hi".to_string(),
        }],
        temperature: read_json("0.5"),
        max_tokens: Some(7),
        top_p: None,
        service_tier: None,
        reasoning_effort: Some("low".to_string()),
        billing_mode: Some("paygo".to_string()),
        provider: Some("exa".to_string()),
    }
}

#[test]
fn the_body_holds_what_was_asked_for() {
    let body = build_chat_request_body(&request(), true);
    let want = read_json(
        "{\"model\":\"m\",\"messages\":[{\"role\":\"system\",\"content\":\"sys\"},\
         {\"role\":\"user\",\"content\":\"hi\"}],\"stream\":true,\"temperature\":0.5,\
         \"max_tokens\":7,\"reasoning_effort\":\"low\",\"billing_mode\":\"paygo\"}",
    )
    .unwrap();
    assert_eq!(show_json(&body), show_json(&want));
    assert_eq!(body.get("top_p"), None);
}

#[test]
fn chat_headers_say_who_answers() {
    assert_eq!(
        chat_headers(&request(), false),
        [pair("X-Provider", "exa"), pair("X-Billing-Mode", "paygo")]
    );
    assert_eq!(
        chat_headers(&request(), true),
        [
            pair("accept", "text/event-stream"),
            pair("X-Provider", "exa"),
            pair("X-Billing-Mode", "paygo")
        ]
    );
}

#[test]
fn pairs_are_cut_at_the_first_delimiter() {
    assert_eq!(parse_key_value(" a = b=c ", '='), Ok(pair("a", "b=c")));
    assert_eq!(parse_key_value("a:", ':'), Ok(pair("a", "")));
    assert_eq!(parse_key_value("=b", '=').unwrap_err(), "invalid pair: =b");
    assert_eq!(parse_key_value("ab", '=').unwrap_err(), "invalid pair: ab");
    assert_eq!(parse_key_value("", '=').unwrap_err(), "invalid pair: ");
}

#[test]
fn urls_are_put_together() {
    let c = client("https://nano-gpt.com/api/", None);
    assert_eq!(
        c.build_url("/v1/models", &vec![]).unwrap(),
        "https://nano-gpt.com/api/v1/models"
    );
    assert_eq!(
        c.build_url("v1/models", &vec![pair("detailed", "a b&c")]).unwrap(),
        "https://nano-gpt.com/api/v1/models?detailed=a+b%26c"
    );
    assert_eq!(
        c.build_url("http://x.test/y?q=1", &vec![pair("r", "2")]).unwrap(),
        "http://x.test/y?q=1&r=2"
    );
    assert_eq!(c.build_url("http://", &vec![]).unwrap_err(), "invalid URL: http://");
    assert_eq!(
        client("nowhere", None).build_url("/a", &vec![]).unwrap_err(),
        "invalid base URL/path combination: nowhere + a"
    );
}

#[test]
fn headers_are_checked() {
    let map = build_headers(&vec![pair("X-One", "1"), pair("x-one", "2")]).unwrap();
    assert_eq!(map.len(), 1);
    assert_eq!(map.get("x-one").unwrap().to_str().unwrap(), "2");
    assert_eq!(
        build_headers(&vec![pair("bad name", "1")]).unwrap_err(),
        "invalid header name: bad name"
    );
    assert_eq!(
        build_headers(&vec![pair("ok", "1"), pair("x", "a\nb")]).unwrap_err(),
        "invalid header value for x"
    );
    assert!(build_headers(&vec![]).unwrap().is_empty());
}

#[test]
fn a_request_is_prepared() {
    let c = client("https://nano-gpt.com/api", Some("k"));
    let p = c.prepare("/web", &vec![], &vec![pair("A", "b")]).unwrap();
    assert_eq!(p.url, "https://nano-gpt.com/api/web");
    assert_eq!(p.auth, [pair("x-api-key", "k"), pair("authorization", "Bearer k")]);
    assert_eq!(p.headers.get("a").unwrap().to_str().unwrap(), "b");
    assert!(client("x", None).auth_headers().is_empty());
    let both = client("nowhere", None).prepare("/a", &vec![], &vec![pair("bad name", "")]);
    assert_eq!(
        both.err().unwrap(),
        "invalid base URL/path combination: nowhere + a"
    );
}

#[test]
fn a_key_of_spaces_is_none() {
    assert!(!client("x", None).has_api_key());
    assert!(!client("x", Some("  ")).has_api_key());
    let mut c = client("x", None);
    c.set_api_key("k".to_string());
    assert!(c.has_api_key());
}

#[test]
fn answers_are_read() {
    assert_eq!(parse_json_response(200, "  "), Ok(Json::Object(vec![])));
    assert_eq!(parse_json_response(201, "{\"a\":1}"), Ok(read_json("{\"a\":1}").unwrap()));
    assert_eq!(parse_json_response(200, "nope").unwrap_err(), "response is not valid JSON");
    assert_eq!(
        parse_json_response(404, "gone").unwrap_err(),
        "request failed (404 Not Found): gone"
    );
    assert_eq!(
        parse_json_response(500, "{\"e\":1}").unwrap_err(),
        "request failed (500 Internal Server Error): {\n  \"e\": 1\n}"
    );
    assert_eq!(settle_success("x", Some(Json::Null)), Ok(Json::Null));
    assert_eq!(settle_success("x", None).unwrap_err(), "response is not valid JSON");
    assert_eq!(refusal("418 I'm a teapot", "no"), "request failed (418 I'm a teapot): no");
    assert_eq!(stream_complaint(429, "slow"), "chat streaming failed (429 Too Many Requests): slow");
}

#[test]
fn the_answer_is_picked_out() {
    let value = read_json("{\"choices\":[{\"message\":{\"content\":\"hey\"}}]}").unwrap();
    assert_eq!(chat_result(&value).content, "hey");
    assert_eq!(chat_result(&Json::Null).content, "");
    assert_eq!(chat_result(&read_json("{\"choices\":[]}").unwrap()).content, "");
}

#[test]
fn a_stream_is_put_together() {
    let mut state = StreamState::new();
    let delta = |text: &str| {
        format!("data: {{\"choices\":[{{\"delta\":{{\"content\":\"{}\"}}}}]}}", text)
    };
    assert_eq!(state.feed(&delta("he")), Some("he".to_string()));
    assert_eq!(state.feed(": comment"), None);
    assert_eq!(state.feed("data: not json"), None);
    assert_eq!(state.feed(&delta("y")), Some("y".to_string()));
    assert!(!state.done);
    assert_eq!(state.feed("data: [DONE]"), None);
    assert!(state.done);
    assert_eq!(state.content, "hey");
    assert!(matches!(read_stream_line("data: {}"), StreamLine::Skip));
    assert!(matches!(read_stream_line("data: [DONE]"), StreamLine::Done));
}

#[test]
fn path_segments_are_encoded() {
    assert_eq!(encode_path_segment("openai/gpt-oss 120b"), "openai%2Fgpt-oss+120b");
    assert_eq!(encode_path_segment("a-b_c.d*e"), "a-b_c.d*e");
    assert_eq!(encode_path_segment("é"), "%C3%A9");
    assert_eq!(encode_path_segment("?#"), "%3F%23");
}
