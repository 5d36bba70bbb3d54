use nanogpt_cli::cli::{
    resolve_api_key, resolve_command, ApiArgs, Command, ModelScope, ModelsArgs, ResponsesCreateArgs,
    TuiArgs, WebOutput, WebProvider, WebSearchArgs,
};
use nanogpt_cli::commands::{
    api_outcome, api_output, api_request, choose_body, conversations_output, deleted_notice,
    model_providers_path, models_output, models_request, parse_pairs, provider_name, read_body_file,
    response_path, responses_body, responses_input, show_summary, web_search_body, ApiBody,
    InputSource,
};
use nanogpt_cli::conversation::ConversationSummary;
use nanogpt_cli::json::{read_json, show_json};
use nanogpt_cli::stamp::Timestamp;
use nanogpt_cli::wire::Pair;

fn models(detailed: bool, filter: Option<&str>) -> ModelsArgs {
    ModelsArgs {
        detailed,
        scope: ModelScope::Subscription,
        filter: filter.map(|f| f.to_string()),
        show_providers_for: None,
        json: false,
    }
}

fn search(output: WebOutput) -> WebSearchArgs {
    WebSearchArgs {
        query: "q".to_string(),
        provider: WebProvider::Exa,
        depth: "fast".to_string(),
        output,
        structured_schema: None,
        from_date: None,
        to_date: Some("2024".to_string()),
        include_domains: vec!["a".to_string()],
        exclude_domains: vec![],
        include_images: true,
        extra_json: None,
        json: false,
    }
}

fn create() -> ResponsesCreateArgs {
    ResponsesCreateArgs {
        model: "m".to_string(),
        input: None,
        input_file: None,
        instructions: None,
        previous_response_id: None,
        temperature: None,
        top_p: read_json("0.9"),
        max_output_tokens: Some(3),
        store: true,
        user: None,
        service_tier: None,
        billing_mode: None,
        retention_days: None,
        extra_json: None,
    }
}

fn api() -> ApiArgs {
    ApiArgs {
        method: "GET".to_string(),
        path: "/x".to_string(),
        query: vec![],
        headers: vec![],
        json: None,
        body_file: None,
        form_fields: vec![],
        form_files: vec![],
        pretty: true,
    }
}

#[test]
fn models_are_asked_for_by_catalog() {
    let ask = models_request(&models(true, None));
    assert_eq!(ask.path, "/subscription/v1/models");
    assert_eq!(ask.query, [Pair { key: "detailed".to_string(), value: "true".to_string() }]);
    assert!(models_request(&models(false, None)).query.is_empty());
    let mut args = models(true, None);
    args.show_providers_for = Some("a/b".to_string());
    let ask = models_request(&args);
    assert_eq!(ask.path, "/models/a%2Fb/providers");
    assert!(ask.query.is_empty());
    assert_eq!(model_providers_path("a b"), "/models/a+b/providers");
}

#[test]
fn models_are_listed() {
    let value = read_json(
        "{\"data\":[{\"id\":\"Openai/x\",\"owned_by\":\"o\",\"context_length\":12,\
         \"description\":\"d\",\"subscription\":{\"included\":true}},{\"id\":\"other\"},{}]}",
    )
    .unwrap();
    assert_eq!(
        models_output(&value, &models(false, None)).unwrap(),
        ["Openai/x", "other", "<unknown>"]
    );
    assert_eq!(models_output(&value, &models(false, Some("OPEN"))).unwrap(), ["Openai/x"]);
    assert_eq!(
        models_output(&value, &models(true, Some("e"))).unwrap(),
        [
            "Openai/x\n  owned_by: o\n  subscription: yes\n  context: 12\n  description: d\n",
            "other\n  owned_by: \n  subscription: -\n  context: -\n  description: \n"
        ]
    );
    assert_eq!(
        models_output(&read_json("{}").unwrap(), &models(false, None)).unwrap_err(),
        "unexpected models response format"
    );
    let mut args = models(false, None);
    args.json = true;
    let raw = read_json("{\"a\":1}").unwrap();
    assert_eq!(models_output(&raw, &args).unwrap(), ["{\n  \"a\": 1\n}"]);
}

#[test]
fn a_web_search_is_written() {
    let body = web_search_body(&search(WebOutput::SearchResults)).unwrap();
    let want = read_json(
        "{\"query\":\"q\",\"provider\":\"exa\",\"depth\":\"fast\",\"outputType\":\"searchResults\",\
         \"includeImages\":true,\"toDate\":\"2024\",\"includeDomains\":[\"a\"]}",
    )
    .unwrap();
    assert_eq!(show_json(&body), show_json(&want));
    assert_eq!(
        web_search_body(&search(WebOutput::Structured)).unwrap_err(),
        "--structured-schema is required when --output structured"
    );
    let mut args = search(WebOutput::SourcedAnswer);
    args.extra_json = Some("{\"depth\":\"deep\"}".to_string());
    let body = web_search_body(&args).unwrap();
    assert_eq!(body.get("depth").and_then(|d| d.as_text()), Some("deep"));
    args.extra_json = Some("[1]".to_string());
    assert_eq!(web_search_body(&args).unwrap_err(), "--extra-json must be a JSON object");
    args.extra_json = Some("{".to_string());
    assert_eq!(web_search_body(&args).unwrap_err(), "invalid JSON in --extra-json");
    assert_eq!(provider_name(WebProvider::Perplexity), "perplexity");
}

#[test]
fn a_response_is_created() {
    assert_eq!(
        responses_input(&create()).err().unwrap(),
        "--input or --input-file is required"
    );
    let mut args = create();
    args.input_file = Some("f.txt".to_string());
    assert!(matches!(responses_input(&args), Ok(InputSource::File(f)) if f == "f.txt"));
    args.input = Some("text".to_string());
    assert!(matches!(responses_input(&args), Ok(InputSource::Given(t)) if t == "text"));
    let body = responses_body(&args, "text").unwrap();
    let want = read_json(
        "{\"model\":\"m\",\"input\":\"text\",\"top_p\":0.9,\"max_output_tokens\":3,\"store\":true}",
    )
    .unwrap();
    assert_eq!(show_json(&body), show_json(&want));
    args.extra_json = Some("{\"store\":false}".to_string());
    let body = responses_body(&args, "text").unwrap();
    assert_eq!(body.get("store").and_then(|s| s.as_bool()), Some(false));
    args.extra_json = Some("5".to_string());
    assert_eq!(
        responses_body(&args, "text").unwrap_err(),
        "--extra-json must be a JSON object"
    );
    assert_eq!(response_path("resp/1"), "/v1/responses/resp/1");
}

#[test]
fn conversations_are_listed() {
    let item = ConversationSummary {
        id: "a".to_string(),
        model: "m".to_string(),
        updated_at: Timestamp { secs: 0, nanos: 0 },
        message_count: 2,
    };
    assert_eq!(
        show_summary(&item, "now"),
        "a\n  model: m\n  updated: now\n  messages: 2\n"
    );
    assert_eq!(conversations_output(&vec![]), ["No saved conversations."]);
    assert_eq!(
        conversations_output(&vec![item]),
        ["a\n  model: m\n  updated: 1970-01-01 00:00:00 UTC\n  messages: 2\n"]
    );
    assert_eq!(deleted_notice("a"), "Deleted conversation: a");
}

#[test]
fn a_plain_request_is_read() {
    let mut args = api();
    args.query = vec!["a=1".to_string()];
    args.headers = vec!["X-H: v".to_string()];
    let req = api_request(&args).unwrap();
    assert_eq!((req.method.as_str(), req.path.as_str()), ("GET", "/x"));
    assert_eq!((req.query[0].key.as_str(), req.query[0].value.as_str()), ("a", "1"));
    assert_eq!((req.headers[0].key.as_str(), req.headers[0].value.as_str()), ("X-H", "v"));
    assert!(matches!(req.body, ApiBody::Empty));
    args.form_files = vec!["file=/tmp/x".to_string()];
    args.json = Some("{".to_string());
    let req = api_request(&args).unwrap();
    assert!(matches!(req.body, ApiBody::Form { fields, files } if fields.is_empty() && files.len() == 1));
    args.query = vec!["a".to_string()];
    assert_eq!(api_request(&args).err().unwrap(), "invalid pair: a");
}

#[test]
fn a_request_that_cannot_be_sent_is_refused() {
    let mut args = api();
    args.method = "G T".to_string();
    assert_eq!(api_request(&args).err().unwrap(), "invalid HTTP method: G T");
    let mut args = api();
    args.json = Some("{\"a\":1}".to_string());
    assert!(matches!(api_request(&args).unwrap().body, ApiBody::Value(_)));
    args.body_file = Some("b.json".to_string());
    assert_eq!(
        api_request(&args).err().unwrap(),
        "use either --json or --body-file, not both"
    );
    args.json = None;
    assert!(matches!(api_request(&args).unwrap().body, ApiBody::File(f) if f == "b.json"));
    args.body_file = None;
    args.json = Some("{".to_string());
    assert_eq!(api_request(&args).err().unwrap(), "invalid JSON in --json");
    assert_eq!(choose_body(&args, None).err().unwrap(), "invalid JSON in --json");
    assert_eq!(read_body_file("{").unwrap_err(), "body file is not JSON");
    assert!(read_body_file("[]").is_ok());
    assert_eq!(parse_pairs(&vec!["k".to_string()], ':').unwrap_err(), "invalid pair: k");
}

#[test]
fn what_came_back_is_shown() {
    assert_eq!(api_output("{\"a\":1}", true), "{\n  \"a\": 1\n}");
    assert_eq!(api_output("{\"a\":1}", false), "{\"a\":1}");
    assert_eq!(api_output("plain", true), "plain");
    assert_eq!(api_outcome(399), Ok(()));
    assert_eq!(api_outcome(400).unwrap_err(), "request failed with status 400");
}

#[test]
fn what_to_do_is_settled() {
    let given = Some("a".to_string());
    let stored = Some("b".to_string());
    assert_eq!(resolve_api_key(&given, &stored).as_deref(), Some("a"));
    assert_eq!(resolve_api_key(&None, &stored).as_deref(), Some("b"));
    assert!(matches!(resolve_command(Some(Command::Balance), &None), Command::Balance));
    match resolve_command(None, &Some("mine".to_string())) {
        Command::Tui(args) => assert_eq!(args.model, "mine"),
        _ => panic!("the full-screen chat was expected"),
    }
    assert_eq!(TuiArgs::default().model, "openai/gpt-5.2");
}
