use nanogpt_cli::chat::{error_line, initial_model, print_help, Repl, ReplAction};
use nanogpt_cli::cli::ChatArgs;
use nanogpt_cli::conversation::{new_conversation, Conversation};

fn args() -> ChatArgs {
    ChatArgs {
        model: "m".to_string(),
        system: Some("first".to_string()),
        conversation: None,
        stream: false,
        web: false,
        deep_web: false,
        temperature: None,
        max_tokens: Some(9),
        top_p: None,
        provider: Some("p".to_string()),
        billing_mode: None,
        service_tier: None,
        reasoning_effort: None,
    }
}

fn conversation() -> Conversation {
    new_conversation("c".to_string(), "old".to_string(), None)
}

fn printed(action: ReplAction) -> Vec<String> {
    match action {
        ReplAction::Print(lines) => lines,
        _ => panic!("lines were expected"),
    }
}

#[test]
fn a_chat_begins_with_what_was_given() {
    let mut a = args();
    let repl = Repl::start(conversation(), &a);
    assert_eq!(repl.current_model, "m");
    assert_eq!(repl.conversation.model, "m");
    assert_eq!(
        repl.banner(),
        [
            "NanoGPT CLI chat",
            "Conversation: c",
            "Model: m",
            "System prompt: first",
            "Type /help for commands.\n"
        ]
    );
    a.conversation = Some("c".to_string());
    let repl = Repl::start(conversation(), &a);
    assert_eq!(repl.current_model, "old");
    assert!(repl.conversation.system_prompt.is_none());
    a.deep_web = true;
    assert_eq!(initial_model(&a), "m:online/linkup-deep");
}

#[test]
fn commands_are_carried_out() {
    let a = args();
    let mut repl = Repl::start(conversation(), &a);
    assert!(matches!(repl.take_line(&a, " /quit "), ReplAction::Exit));
    assert!(matches!(repl.take_line(&a, "/exit"), ReplAction::Exit));
    assert!(matches!(repl.take_line(&a, "   "), ReplAction::Nothing));
    assert_eq!(printed(repl.take_line(&a, "/help")), print_help());
    assert_eq!(print_help().len(), 11);
    assert_eq!(printed(repl.take_line(&a, "/model")), ["Current model: m"]);
    assert_eq!(printed(repl.take_line(&a, "/webmode")), ["Web mode: off"]);
    assert_eq!(
        printed(repl.take_line(&a, "/webmode deep")),
        ["Web mode: linkup-deep (model: m:online/linkup-deep)"]
    );
    assert_eq!(
        printed(repl.take_line(&a, "/model x")),
        ["Model set to x:online/linkup-deep"]
    );
    assert_eq!(repl.conversation.model, "x:online/linkup-deep");
    assert_eq!(
        printed(repl.take_line(&a, "/webmode what")),
        ["Usage: /webmode <off|on|deep|provider-mode>"]
    );
    assert_eq!(printed(repl.take_line(&a, "/system")), ["System prompt: first"]);
    assert_eq!(printed(repl.take_line(&a, "/system OFF")), ["System prompt cleared"]);
    assert_eq!(printed(repl.take_line(&a, "/system")), ["System prompt is empty"]);
    assert_eq!(printed(repl.take_line(&a, "/system be brief")), ["System prompt updated"]);
    assert_eq!(repl.conversation.system_prompt.as_deref(), Some("be brief"));
    assert_eq!(printed(repl.take_line(&a, "/system-reset")), ["System prompt reset"]);
    assert_eq!(repl.conversation.system_prompt.as_deref(), Some("first"));
    assert_eq!(
        printed(repl.take_line(&a, "/nope x")),
        ["Unknown command: /nope. Type /help"]
    );
    assert!(matches!(
        repl.take_line(&a, "/save"),
        ReplAction::Save(text) if text == "Conversation saved: c"
    ));
}

#[test]
fn a_question_is_asked_and_answered() {
    let a = args();
    let mut repl = Repl::start(conversation(), &a);
    let req = match repl.take_line(&a, " hi \n") {
        ReplAction::Ask(req) => req,
        _ => panic!("a question was expected"),
    };
    assert_eq!(req.model, "m");
    assert_eq!(req.provider.as_deref(), Some("p"));
    assert_eq!(req.max_tokens, Some(9));
    assert_eq!(req.messages.len(), 1);
    assert_eq!(req.messages[0].content, "hi");
    assert!(repl.conversation.messages.is_empty());
    repl.take_answer(" hi \n", "hello".to_string());
    assert_eq!(repl.conversation.messages.len(), 2);
    assert_eq!(
        printed(repl.take_line(&a, "/history")),
        ["1 [user] hi", "2 [assistant] hello"]
    );
    assert_eq!(printed(repl.take_line(&a, "/clear")), ["Conversation history cleared"]);
    assert!(repl.conversation.messages.is_empty());
    assert_eq!(error_line("no net"), "[error] no net");
}
