use nanogpt_cli::app_config::Overrides;
use nanogpt_cli::cli::{ModelScope, TuiArgs, WebProvider};
use nanogpt_cli::client::{ClientConfig, NanoGptClient};
use nanogpt_cli::conversation::{new_conversation, summarize, Conversation};
use nanogpt_cli::json::{read_json, show_json};
use nanogpt_cli::model_mode::{web_mode_from_key, web_mode_presets};
use nanogpt_cli::stamp::Timestamp;
use nanogpt_cli::tui::app::{
    initial_model, open_conversation, web_mode_position, App, Focus, Modal,
};
use nanogpt_cli::tui::keys::{Effect, Key, KeyCode};
use nanogpt_cli::tui::layout::Area;
use nanogpt_cli::tui::paint::{Picture, Widget};
use nanogpt_cli::tui::pickers::{fetch_models, WebSearchModal};
use nanogpt_cli::tui::screen::tone_of_status;
use nanogpt_cli::tui::style::{Line, Tone};

fn conversation(id: &str) -> Conversation {
    let mut c = new_conversation(id.to_string(), "m".to_string(), None);
    c.save_at(Timestamp { secs: 1_700_000_000, nanos: 0 });
    c
}

fn app(api_key: Option<&str>) -> App {
    let client = NanoGptClient::new(ClientConfig {
        base_url: "https://x.test".to_string(),
        api_key: api_key.map(|k| k.to_string()),
        timeout_secs: 1,
    });
    let mut app = App::new(client, TuiArgs::default(), conversation("one"), Overrides::new());
    app.reload_conversations(vec![
        summarize(&conversation("two")),
        summarize(&conversation("one")),
    ]);
    app
}

fn press(app: &mut App, code: KeyCode) -> Effect {
    let key = Key { code, ctrl: false };
    assert!(app.can_take(key));
    app.handle_key(key)
}

fn ctrl(app: &mut App, c: char) -> Effect {
    let key = Key { code: KeyCode::Char(c), ctrl: true };
    assert!(app.can_take(key));
    app.handle_key(key)
}

fn write(app: &mut App, text: &str) {
    for c in text.chars() {
        assert!(matches!(press(app, KeyCode::Char(c)), Effect::Nothing));
    }
}

fn screen() -> Area {
    Area { x: 0, y: 0, width: 120, height: 40 }
}

fn text_of(line: &Line) -> String {
    line.spans.iter().map(|s| s.text.as_str()).collect()
}

fn texts(widget: &Widget) -> Vec<String> {
    match widget {
        Widget::Text { lines, .. } => lines.iter().map(text_of).collect(),
        Widget::Plain { text, .. } => vec![text.clone()],
        Widget::List { items, .. } => items.iter().flatten().map(text_of).collect(),
        _ => vec![],
    }
}

fn shown(picture: &Picture, at: usize) -> Vec<String> {
    texts(&picture.strokes[at].widget)
}

const MODELS: &str = "{\"data\":[{\"id\":\"zeta\",\"owned_by\":\"o\",\"subscription\":{\"included\":false}},\
    {\"id\":\"Alpha\",\"name\":\"First\",\"category\":\"chat\"}]}";

const PROVIDERS: &str = "{\"supportsProviderSelection\":true,\"providers\":[{\"provider\":\"p\",\
    \"available\":true,\"pricing\":{\"inputPer1kTokens\":0.0015,\"outputPer1kTokens\":2}},\
    {\"provider\":\"q\"}]}";

#[test]
fn a_chat_without_a_key_asks_for_one() {
    let mut app = app(None);
    assert_eq!(app.status, "NanoGPT API key required");
    assert!(matches!(app.modal, Some(Modal::ApiKey(_))));
    press(&mut app, KeyCode::Enter);
    assert_eq!(app.status, "API key cannot be empty");
    press(&mut app, KeyCode::Esc);
    assert_eq!(app.status, "API key required to continue");
    write(&mut app, " k1 ");
    ctrl(&mut app, 'r');
    assert!(matches!(&app.modal, Some(Modal::ApiKey(m)) if m.reveal && m.value.text == " k1 "));
    assert!(matches!(press(&mut app, KeyCode::Enter), Effect::StoreApiKey(k) if k == "k1"));
    assert_eq!(app.status, "API key saved");
    assert!(app.modal.is_none());
    assert!(app.client.has_api_key());
}

#[test]
fn a_message_is_sent_and_answered() {
    let mut app = app(Some("k"));
    assert_eq!(app.selected_conversation_idx, 1);
    write(&mut app, " hi ");
    let request = match press(&mut app, KeyCode::Enter) {
        Effect::Ask(request) => request,
        _ => panic!("a request was expected"),
    };
    assert_eq!(request.messages.len(), 1);
    assert_eq!(request.messages[0].content, "hi");
    assert!(app.pending);
    assert_eq!(app.status, "Waiting for model response...");
    write(&mut app, "x");
    assert!(matches!(press(&mut app, KeyCode::Enter), Effect::Nothing));
    assert_eq!(app.status, "Request in progress");
    assert!(matches!(ctrl(&mut app, 'n'), Effect::Nothing));
    assert_eq!(app.status, "Wait for current request to finish");
    app.take_response(Ok("hello".to_string()));
    assert_eq!(app.conversation.messages.len(), 2);
    assert_eq!(app.status, "Response received");
    assert!(!app.pending && app.pending_user.is_none());
    app.take_response(Err("no net".to_string()));
    assert_eq!(app.status, "Request failed: no net");
    app.lose_response();
    assert_eq!(app.status, "Request channel disconnected");
}

#[test]
fn a_message_without_a_key_is_kept_back() {
    let mut app = app(Some(" "));
    app.modal = None;
    write(&mut app, "hi");
    assert!(matches!(press(&mut app, KeyCode::Enter), Effect::Nothing));
    assert_eq!(app.status, "API key required");
    assert!(matches!(app.modal, Some(Modal::ApiKey(_))));
}

#[test]
fn slash_commands_are_carried_out() {
    let mut app = app(Some("k"));
    write(&mut app, "/mod");
    press(&mut app, KeyCode::Tab);
    assert_eq!(app.input.text, "/model ");
    assert_eq!(app.status, "Slash command autocompleted");
    write(&mut app, "gpt");
    press(&mut app, KeyCode::Enter);
    assert_eq!(app.status, "Model set: gpt");
    assert_eq!(app.conversation.model, "gpt");
    assert_eq!(app.input.text, "");
    write(&mut app, "/webmode exa-fast");
    press(&mut app, KeyCode::Enter);
    assert_eq!(app.status, "Web mode set: exa-fast");
    assert_eq!(app.current_model, "gpt:online/exa-fast");
    write(&mut app, "/webmode huh");
    press(&mut app, KeyCode::Enter);
    assert_eq!(app.status, "Usage: /webmode <off|on|deep|provider-mode>");
    write(&mut app, "/system off");
    press(&mut app, KeyCode::Enter);
    assert_eq!(app.status, "System prompt cleared");
    write(&mut app, "/system be kind");
    press(&mut app, KeyCode::Enter);
    assert_eq!(app.status, "System prompt updated");
    write(&mut app, "/history");
    press(&mut app, KeyCode::Enter);
    assert_eq!(app.status, "History messages: 0");
    write(&mut app, "/clear");
    press(&mut app, KeyCode::Enter);
    assert_eq!(app.status, "Conversation history cleared");
    write(&mut app, "/save");
    assert!(matches!(press(&mut app, KeyCode::Enter), Effect::SaveAndReload));
    assert_eq!(app.status, "Saved one");
    write(&mut app, "/models");
    assert!(matches!(press(&mut app, KeyCode::Enter), Effect::OpenModels));
    write(&mut app, "/providers");
    assert!(matches!(press(&mut app, KeyCode::Enter), Effect::FetchProviders(m) if m == "gpt"));
    write(&mut app, "/zap me");
    press(&mut app, KeyCode::Enter);
    assert_eq!(app.status, "Unknown command: /zap");
    write(&mut app, "/help");
    press(&mut app, KeyCode::Enter);
    assert!(matches!(app.modal, Some(Modal::Help)));
    press(&mut app, KeyCode::Esc);
    assert!(app.modal.is_none());
}

#[test]
fn suggestions_are_walked_and_taken() {
    let mut app = app(Some("k"));
    write(&mut app, "/");
    press(&mut app, KeyCode::Down);
    press(&mut app, KeyCode::Down);
    press(&mut app, KeyCode::Up);
    assert_eq!(app.slash_suggestion_idx, 1);
    press(&mut app, KeyCode::Enter);
    assert_eq!(app.input.text, "/model ");
    assert_eq!(app.slash_suggestion_idx, 0);
    press(&mut app, KeyCode::Down);
    assert_eq!(app.chat_scroll, 1);
    press(&mut app, KeyCode::Up);
    press(&mut app, KeyCode::Up);
    assert_eq!(app.chat_scroll, 0);
}

#[test]
fn enter_takes_the_chosen_suggestion() {
    let mut app = app(Some("k"));
    write(&mut app, "/model");
    press(&mut app, KeyCode::Down);
    assert!(matches!(press(&mut app, KeyCode::Enter), Effect::Nothing));
    assert_eq!((app.input.text.as_str(), app.input.cursor), ("/models", 7));
    assert_eq!(app.status, "Slash command autocompleted");
    assert!(!app.pending);
    assert!(matches!(press(&mut app, KeyCode::Enter), Effect::OpenModels));
    assert_eq!(app.input.text, "");
    write(&mut app, "/model");
    assert!(matches!(press(&mut app, KeyCode::Enter), Effect::Nothing));
    assert_eq!((app.input.text.as_str(), app.status.as_str()), ("", "Current model: m"));
}

#[test]
fn shortcuts_do_what_they_say() {
    let mut app = app(Some("k"));
    assert!(matches!(ctrl(&mut app, 'n'), Effect::NewConversation));
    assert!(matches!(ctrl(&mut app, 'r'), Effect::Reload));
    assert_eq!(app.status, "Conversations reloaded");
    assert!(matches!(ctrl(&mut app, 's'), Effect::SaveAndReload));
    assert!(matches!(ctrl(&mut app, 'm'), Effect::OpenModels));
    assert!(matches!(ctrl(&mut app, 'p'), Effect::FetchProviders(m) if m == "m"));
    assert!(matches!(ctrl(&mut app, 'c'), Effect::Quit));
    assert!(matches!(press(&mut app, KeyCode::Esc), Effect::Quit));
    ctrl(&mut app, 'h');
    assert!(matches!(app.modal, Some(Modal::Help)));
    assert!(matches!(ctrl(&mut app, 'c'), Effect::Quit));
    press(&mut app, KeyCode::Esc);
    ctrl(&mut app, 'w');
    assert!(matches!(app.modal, Some(Modal::WebSearch(_))));
    press(&mut app, KeyCode::Esc);
    ctrl(&mut app, 'x');
    assert_eq!(app.input.text, "x");
}

#[test]
fn conversations_are_picked() {
    let mut app = app(Some("k"));
    press(&mut app, KeyCode::Tab);
    assert_eq!(app.focus, Focus::Conversations);
    assert!(matches!(press(&mut app, KeyCode::Enter), Effect::Nothing));
    press(&mut app, KeyCode::Up);
    press(&mut app, KeyCode::Up);
    assert_eq!(app.selected_conversation_idx, 0);
    assert!(matches!(press(&mut app, KeyCode::Enter), Effect::LoadConversation(id) if id == "two"));
    assert!(matches!(press(&mut app, KeyCode::Char('d')), Effect::DeleteConversation(id) if id == "two"));
    let mut two = conversation("two");
    two.model = "n:online".to_string();
    app.switch_to(two);
    assert_eq!(app.status, "Switched to two");
    assert_eq!(app.current_model, "n:online");
    press(&mut app, KeyCode::Down);
    press(&mut app, KeyCode::Down);
    assert_eq!(app.selected_conversation_idx, 1);
    assert!(matches!(press(&mut app, KeyCode::Delete), Effect::DeleteConversation(id) if id == "one"));
    let fresh = app.fresh_conversation();
    assert!(fresh.id.starts_with("chat-") && fresh.model == "n:online");
    assert!(!app.after_delete("one", fresh.clone()));
    assert!(app.after_delete("two", fresh.clone()));
    assert_eq!(app.status, "Deleted two");
    assert_eq!(app.conversation.id, fresh.id);
    app.enter(conversation("new"));
    assert_eq!((app.status.as_str(), app.focus), ("Created new", Focus::Input));
    app.pending = true;
    press(&mut app, KeyCode::Tab);
    press(&mut app, KeyCode::Enter);
    assert_eq!(app.status, "Wait for current request to finish");
}

#[test]
fn a_model_is_picked() {
    let mut app = app(Some("k"));
    let models = fetch_models(&read_json(MODELS).unwrap()).unwrap();
    assert_eq!(models[0].id, "Alpha");
    app.open_model_picker(models);
    assert!(matches!(press(&mut app, KeyCode::Tab), Effect::FetchModels(ModelScope::Subscription)));
    app.show_catalog(
        ModelScope::Subscription,
        fetch_models(&read_json(MODELS).unwrap()).unwrap(),
    );
    press(&mut app, KeyCode::Down);
    press(&mut app, KeyCode::Down);
    assert!(matches!(press(&mut app, KeyCode::Char('p')), Effect::FetchProviders(m) if m == "zeta"));
    write(&mut app, "alf");
    assert!(matches!(press(&mut app, KeyCode::Enter), Effect::Nothing));
    press(&mut app, KeyCode::Backspace);
    assert!(matches!(press(&mut app, KeyCode::Enter), Effect::StoreModel(m) if m == "Alpha"));
    assert_eq!(app.status, "Model set: Alpha");
    assert!(app.modal.is_none());
    assert_eq!(
        fetch_models(&read_json("{}").unwrap()).err().unwrap(),
        "unexpected model response format"
    );
}

#[test]
fn a_provider_is_picked() {
    let mut app = app(Some("k"));
    app.open_provider_picker("m", &read_json(PROVIDERS).unwrap());
    press(&mut app, KeyCode::Down);
    press(&mut app, KeyCode::Down);
    press(&mut app, KeyCode::Up);
    assert!(matches!(press(&mut app, KeyCode::Enter), Effect::StoreOverrides));
    assert_eq!(app.status, "Provider override for m: p");
    assert_eq!(app.active_provider_for_current_model(), Some("p"));
    app.open_provider_picker("m", &read_json(PROVIDERS).unwrap());
    assert!(matches!(press(&mut app, KeyCode::Char('C')), Effect::StoreOverrides));
    assert_eq!(app.status, "Provider override cleared for m");
    assert_eq!(app.active_provider_for_current_model(), None);
}

#[test]
fn a_web_mode_is_picked() {
    let mut app = app(Some("k"));
    ctrl(&mut app, 'g');
    for _ in 0..40 {
        press(&mut app, KeyCode::Down);
    }
    press(&mut app, KeyCode::Enter);
    let last = web_mode_presets().last().unwrap().key;
    assert_eq!(app.current_model, format!("m:online/{}", last));
    assert_eq!(web_mode_position(&app.web_mode), 21);
    assert_eq!(web_mode_position(&web_mode_from_key("online")), 1);
    ctrl(&mut app, 'g');
    press(&mut app, KeyCode::Char('c'));
    assert_eq!((app.status.as_str(), app.current_model.as_str()), ("Web mode set: off", "m"));
    write(&mut app, "/webmode ");
    press(&mut app, KeyCode::Enter);
    assert!(matches!(&app.modal, Some(Modal::WebModePicker(m)) if m.selected == 0));
}

#[test]
fn the_web_is_searched() {
    let mut app = app(Some("k"));
    ctrl(&mut app, 'w');
    press(&mut app, KeyCode::Enter);
    assert_eq!(app.status, "Web search query cannot be empty");
    write(&mut app, "rust");
    press(&mut app, KeyCode::Char('d'));
    press(&mut app, KeyCode::Char('o'));
    press(&mut app, KeyCode::Char('O'));
    press(&mut app, KeyCode::Char('i'));
    let body = match press(&mut app, KeyCode::Enter) {
        Effect::Search(body) => body,
        _ => panic!("a search was expected"),
    };
    assert_eq!(app.status, "Searching with provider=linkup depth=deep...");
    let want = read_json(
        "{\"query\":\"rust\",\"provider\":\"linkup\",\"depth\":\"deep\",\"outputType\":\"structured\",\
         \"includeImages\":true,\"structuredOutputSchema\":\
         \"{\\\"type\\\":\\\"object\\\",\\\"properties\\\":{\\\"items\\\":{\\\"type\\\":\\\"array\\\"}}}\"}",
    )
    .unwrap();
    assert_eq!(show_json(&body), show_json(&want));
    app.take_search(Ok(read_json("[1]").unwrap()));
    assert_eq!(app.status, "Web search completed");
    assert!(matches!(&app.modal, Some(Modal::WebSearch(m)) if m.result == "[\n  1\n]"));
    press(&mut app, KeyCode::Down);
    app.take_search(Err("no net".to_string()));
    assert_eq!(app.status, "Web search failed");
    assert!(matches!(&app.modal, Some(Modal::WebSearch(m)) if m.result == "Error: no net" && m.result_scroll == 1));
}

#[test]
fn search_choices_go_round() {
    let mut m = WebSearchModal::new();
    m.cycle_depth();
    m.cycle_output();
    m.cycle_output();
    m.cycle_provider();
    assert_eq!(m.provider(), WebProvider::Tavily);
    assert_eq!((m.depth(), m.output_type()), ("deep", "searchResults"));
    for _ in 0..6 {
        m.cycle_provider();
    }
    assert_eq!(m.provider(), WebProvider::Linkup);
}

#[test]
fn a_conversation_is_opened_with_what_was_given() {
    let mut args = TuiArgs::default();
    args.system = Some("s".to_string());
    args.web = true;
    assert_eq!(initial_model(&args), "openai/gpt-5.2:online");
    let opened = open_conversation(conversation("c"), &args);
    assert_eq!(opened.model, "openai/gpt-5.2:online");
    assert_eq!(opened.system_prompt.as_deref(), Some("s"));
    args.conversation = Some("c".to_string());
    assert_eq!(open_conversation(conversation("c"), &args).model, "m");
}

#[test]
fn the_screen_is_drawn() {
    let mut app = app(Some("k"));
    app.conversation.push_user_message("hi".to_string());
    app.conversation.push_assistant_message(String::new());
    write(&mut app, "abc");
    let picture = app.render(screen());
    assert_eq!(picture.strokes.len(), 6);
    assert!(matches!(picture.strokes[0].widget, Widget::Fill(Tone::Canvas)));
    assert_eq!(
        shown(&picture, 1),
        [
            "Conversation one  |  Messages 2  |  Focus composer",
            "Model m  |  Provider auto  |  Web off  |  Status ready"
        ]
    );
    assert_eq!(
        shown(&picture, 2),
        [
            "○ two",
            "0 msgs  •  m  •  11-14 22:13",
            "● one",
            "0 msgs  •  m  •  11-14 22:13"
        ]
    );
    assert_eq!(
        shown(&picture, 3),
        [
            " YOU   message #01",
            "  hi",
            "",
            " ASSISTANT   message #02",
            "  (empty)",
            ""
        ]
    );
    assert_eq!(
        shown(&picture, 4),
        [
            "abc",
            "",
            "Ctrl+M models  Ctrl+P providers  Ctrl+G web mode  Ctrl+W web search  3 chars"
        ]
    );
    assert_eq!(shown(&picture, 5)[1], "STATUS  Ready");
    let input = picture.strokes[4].area;
    assert_eq!(picture.cursor, Some((input.x + 4, input.y + 1)));
}

#[test]
fn a_waiting_chat_shows_the_question() {
    let mut app = app(Some("k"));
    app.conversation.system_prompt = Some("kind".to_string());
    write(&mut app, "why?");
    press(&mut app, KeyCode::Enter);
    let picture = app.render(screen());
    assert_eq!(
        shown(&picture, 3),
        [
            " SYSTEM   policy",
            "  kind",
            "",
            " YOU   why?",
            "",
            " ASSISTANT   composing response..."
        ]
    );
    assert!(shown(&picture, 1)[1].ends_with("Status thinking"));
    app.conversations.clear();
    assert_eq!(shown(&app.render(screen()), 2), ["No conversations yet"]);
}

#[test]
fn suggestions_are_drawn_above_the_composer() {
    let mut app = app(Some("k"));
    write(&mut app, "/");
    let picture = app.render(screen());
    assert_eq!(picture.strokes.len(), 8);
    assert!(matches!(picture.strokes[6].widget, Widget::Clear));
    assert_eq!(shown(&picture, 7).len(), 5);
    assert_eq!(shown(&picture, 7)[1], "/model…  Set current model");
    let (input, area) = (picture.strokes[4].area, picture.strokes[7].area);
    assert_eq!((area.height, area.width, area.y), (7, 72, input.y - 6));
}

#[test]
fn the_status_has_its_colour() {
    assert_eq!(tone_of_status("request failed"), Tone::Danger);
    assert_eq!(tone_of_status("an error was saved"), Tone::Danger);
    assert_eq!(tone_of_status("api key saved"), Tone::Success);
    assert_eq!(tone_of_status("ready"), Tone::Warning);
}

#[test]
fn dialogs_are_drawn() {
    let mut keyless = app(None);
    write(&mut keyless, "ké");
    let picture = keyless.render(screen());
    assert_eq!(shown(&picture, 7)[4], "API Key  ***");
    ctrl(&mut keyless, 'r');
    assert_eq!(shown(&keyless.render(screen()), 7)[4], "API Key  ké");
    let mut app = app(Some("k"));
    app.open_model_picker(fetch_models(&read_json(MODELS).unwrap()).unwrap());
    let picture = app.render(screen());
    assert_eq!(shown(&picture, 7)[0], "Scope  canonical  •  Models  2  •  Tab cycles scope");
    assert_eq!(
        shown(&picture, 8),
        ["Alpha  [sub=?]", "  •  chat", "zeta  [paygo]", "o  •  "]
    );
    write(&mut app, "none");
    assert_eq!(shown(&app.render(screen()), 8), ["No models matched your search"]);
    app.open_provider_picker("m", &read_json(PROVIDERS).unwrap());
    let picture = app.render(screen());
    assert_eq!(
        shown(&picture, 8),
        [
            "p  available",
            "input/1k 0.001500  output/1k 2.000000",
            "q  unavailable",
            "input/1k -  output/1k -"
        ]
    );
    app.open_provider_picker("m", &read_json("{\"message\":\"fixed\\nhere\"}").unwrap());
    let picture = app.render(screen());
    assert_eq!(picture.strokes.len(), 8);
    assert_eq!(shown(&picture, 7)[3], "fixedhere");
    app.open_provider_picker("m", &read_json("{\"supportsProviderSelection\":true}").unwrap());
    assert_eq!(shown(&app.render(screen()), 8), ["No providers returned"]);
}

#[test]
fn more_dialogs_are_drawn() {
    let mut app = app(Some("k"));
    ctrl(&mut app, 'g');
    let picture = app.render(screen());
    assert_eq!(shown(&picture, 7)[0], "Current  off");
    assert_eq!(shown(&picture, 8)[2], "auto          standard  :online");
    assert_eq!(shown(&picture, 8)[6], "linkup        deep  :online/linkup-deep");
    press(&mut app, KeyCode::Esc);
    ctrl(&mut app, 'w');
    let picture = app.render(screen());
    assert_eq!(shown(&picture, 7)[0], "Provider  linkup  |  Depth  standard");
    assert_eq!(shown(&picture, 8)[0], "Type your search query...");
    assert_eq!(shown(&picture, 9), [""]);
    let query = picture.strokes[8].area;
    assert_eq!(picture.cursor, Some((query.x + 1, query.y + 1)));
    press(&mut app, KeyCode::Esc);
    ctrl(&mut app, 'h');
    let picture = app.render(screen());
    assert!(shown(&picture, 7)[0].starts_with("Global\n  Esc / Ctrl+C  quit\n"));
    assert_eq!(picture.cursor, None);
}

#[test]
fn the_screen_is_shared_out() {
    let mut app = app(Some("k"));
    for height in 14..90u16 {
        let screen = Area { x: 2, y: 1, width: height + 56, height };
        let places = app.lay_out(screen);
        assert_eq!(places.root[0], Area { height: 4, ..screen });
        assert_eq!(places.root[1], Area { y: 5, height: height - 11, ..screen });
        assert_eq!(places.root[2], Area { y: height - 6, height: 4, ..screen });
        assert_eq!(places.root[3], Area { y: height - 2, height: 3, ..screen });
        assert_eq!(places.body[0], Area { width: 40, ..places.root[1] });
        assert_eq!(places.body[1], Area { x: 42, width: height + 16, ..places.root[1] });
        assert_eq!((places.dialog, places.parts.len()), (screen, 0));
    }
    assert!(matches!(ctrl(&mut app, 'w'), Effect::Nothing));
    let places = app.lay_out(screen());
    let dialog = Area { x: 6, y: 3, width: 108, height: 34 };
    assert_eq!(places.dialog, dialog);
    assert_eq!(places.parts[0], Area { height: 5, ..dialog });
    assert_eq!(places.parts[1], Area { y: 8, height: 4, ..dialog });
    assert_eq!(places.parts[2], Area { y: 12, height: 25, ..dialog });
    let small = app.lay_out(Area { x: 0, y: 0, width: 9, height: 6 });
    assert_eq!((small.root.len(), small.body.len(), small.parts.len()), (4, 2, 3));
}

#[test]
fn tab_pressed_twice_comes_back() {
    let mut app = app(Some("k"));
    write(&mut app, "hello");
    press(&mut app, KeyCode::Tab);
    assert!(matches!(app.focus, Focus::Conversations));
    press(&mut app, KeyCode::Tab);
    assert!(matches!(app.focus, Focus::Input));
    assert_eq!(app.input.text, "hello");
}

#[test]
fn escape_closes_every_dialog_but_one() {
    let mut app = app(Some("k"));
    for c in ['g', 'w', 'h'] {
        ctrl(&mut app, c);
        assert!(app.modal.is_some());
        assert!(matches!(press(&mut app, KeyCode::Esc), Effect::Nothing));
        assert!(app.modal.is_none());
    }
    let mut keyless = self::app(None);
    assert!(matches!(keyless.modal, Some(Modal::ApiKey(_))));
    press(&mut keyless, KeyCode::Esc);
    assert!(matches!(keyless.modal, Some(Modal::ApiKey(_))));
}
