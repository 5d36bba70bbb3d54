use std::path::PathBuf;

use nanogpt_cli::app_config::{config_path, config_path_in, AppConfig, Overrides};
use nanogpt_cli::conversation::{
    conversation_dir, conversation_dir_in, conversation_file_name, conversation_path,
    conversation_path_in, delete_empty_conversations, holds_conversation, list,
    new_conversation, not_found, requested_id, summarize, Conversation,
};
use nanogpt_cli::home::{Place, Root};
use nanogpt_cli::ident::{new_id, normalize_id, normalize_id_or};
use nanogpt_cli::stamp::Timestamp;

fn at(id: &str, secs: i64, said: usize) -> Conversation {
    let mut c = new_conversation(id.to_string(), "m".to_string(), None);
    c.save_at(Timestamp { secs, nanos: 0 });
    for _ in 0..said {
        c.push_user_message("hi".to_string());
    }
    c
}

#[test]
fn names_are_made_fit_for_files() {
    assert_eq!(normalize_id("  My Chat! "), "my-chat");
    assert_eq!(normalize_id("--a_b--"), "a_b");
    assert_eq!(normalize_id("../etc/passwd"), "etc-passwd");
    assert_eq!(normalize_id_or(" ?? ", "fresh".to_string()), "fresh");
    let fresh = normalize_id("");
    assert!(fresh.starts_with("chat-"));
    assert_eq!(fresh.len(), 41);
    assert_eq!(normalize_id(&fresh), fresh);
}

#[test]
fn new_names_differ() {
    let (a, b) = (new_id(), new_id());
    assert_ne!(a, b);
    assert_eq!(normalize_id(&a), a);
    assert_eq!(requested_id(Some("Work")), "work");
    assert!(requested_id(None).starts_with("chat-"));
}

#[test]
fn a_found_conversation_is_taken_over() {
    let found = at("a", 5, 1);
    let kept = Conversation::load_or_create(
        "a".to_string(),
        Some(found.clone()),
        "other".to_string(),
        None,
    );
    assert_eq!(kept, found);
    let made = Conversation::load_or_create(
        "b".to_string(),
        None,
        "m".to_string(),
        Some("be brief".to_string()),
    );
    assert_eq!(made.id, "b");
    assert_eq!(made.system_prompt.as_deref(), Some("be brief"));
    assert_eq!(made.created_at, made.updated_at);
    assert!(made.messages.is_empty());
}

#[test]
fn messages_are_kept_in_order() {
    let mut c = at("a", 0, 0);
    c.push_user_message("q".to_string());
    c.push_assistant_message("a".to_string());
    assert_eq!(c.messages.len(), 2);
    assert_eq!((c.messages[0].role.as_str(), c.messages[0].content.as_str()), ("user", "q"));
    assert_eq!((c.messages[1].role.as_str(), c.messages[1].content.as_str()), ("assistant", "a"));
    c.clear_history();
    assert!(c.messages.is_empty());
}

#[test]
fn saving_marks_the_time() {
    let mut c = at("a", 0, 0);
    let file = c.save();
    assert_eq!(file.below.last().unwrap(), "a.json");
    assert!(c.updated_at.secs > 0 && c.updated_at.nanos < 1_000_000_000);
    assert_eq!(c.id, "a");
}

#[test]
fn the_list_is_newest_first() {
    let found = vec![at("old", 1, 0), at("new", 9, 2), at("mid", 5, 1), at("mid2", 5, 0)];
    let listed = list(&found);
    let ids: Vec<&str> = listed.iter().map(|s| s.id.as_str()).collect();
    assert_eq!(ids, ["new", "mid", "mid2", "old"]);
    assert_eq!(listed[0].message_count, 2);
    assert_eq!(summarize(&found[1]).message_count, 2);
    assert_eq!(delete_empty_conversations(&listed), ["mid2", "old"]);
}

fn shown(place: Place) -> String {
    let root = match place.root {
        Root::Home(dir) => dir,
        Root::Here => PathBuf::from("."),
    };
    format!("{}|{}", root.display(), place.below.join("|"))
}

#[test]
fn files_stand_under_the_home_directory() {
    let home = Some(PathBuf::from("/home/me"));
    assert_eq!(
        shown(conversation_dir_in(home.clone()).unwrap()),
        "/home/me|.nanogpt-cli|conversations"
    );
    assert_eq!(
        shown(config_path_in(home.clone()).unwrap()),
        "/home/me|.nanogpt-cli|config.json"
    );
    assert_eq!(config_path_in(None).unwrap_err(), "failed to resolve home directory");
    assert_eq!(conversation_dir_in(None).unwrap_err(), "failed to resolve home directory");
    if let Ok(dir) = conversation_dir() {
        let path = shown(dir);
        assert!(path.ends_with("|.nanogpt-cli|conversations"));
        assert_eq!(shown(conversation_path("My Chat")), format!("{}|my-chat.json", path));
        assert!(shown(config_path().unwrap()).ends_with("|.nanogpt-cli|config.json"));
    }
    assert_eq!(conversation_file_name("My Chat"), "my-chat.json");
    assert_eq!(
        shown(conversation_path_in(home, "A")),
        "/home/me|.nanogpt-cli|conversations|a.json"
    );
    assert_eq!(shown(conversation_path_in(None, "A")), ".|a.json");
    assert_eq!(not_found("x"), "conversation not found: x");
}

#[test]
fn empty_conversations_are_cleared_out_once() {
    let stored = vec![at("a", 1, 0), at("b", 2, 3), at("c", 3, 0), at("d", 4, 1)];
    let listed = list(&stored);
    let gone = delete_empty_conversations(&listed);
    assert_eq!(gone.len(), listed.iter().filter(|s| s.message_count == 0).count());
    let left: Vec<Conversation> = stored.into_iter().filter(|c| !gone.contains(&c.id)).collect();
    let ids: Vec<String> = list(&left).into_iter().map(|s| s.id).collect();
    assert_eq!(ids, ["d", "b"]);
    assert!(delete_empty_conversations(&list(&left)).is_empty());
}

#[test]
fn conversations_stand_in_json_files() {
    for name in ["a.json", "a.JSON", ".json", "..json", "a.b.json", "json", "a.json.bak", ""] {
        let want = std::path::Path::new(name).extension().and_then(|e| e.to_str()) == Some("json");
        assert_eq!(holds_conversation(name), want, "{}", name);
    }
}

#[test]
fn a_model_has_one_provider() {
    let mut o = Overrides::new();
    assert_eq!(o.get("m"), None);
    o.insert("m".to_string(), "p".to_string());
    o.insert("n".to_string(), "q".to_string());
    o.insert("m".to_string(), "r".to_string());
    assert_eq!(o.get("m"), Some("r"));
    assert_eq!(o.entries.len(), 2);
    o.remove("m");
    assert_eq!(o.get("m"), None);
    assert_eq!(o.get("n"), Some("q"));
    let cfg = AppConfig::default();
    assert!(cfg.api_key.is_none() && cfg.default_model.is_none());
    assert!(cfg.provider_overrides.entries.is_empty());
}
