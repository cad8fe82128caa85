use open_coder::command::{Command, CommandAction, HandlerKind};
use open_coder::errors::CommandError;
use open_coder::registry::CommandRegistry;
use open_coder::session::Session;
use open_coder::settings::{SettingField, SettingValue};

fn command(name: &str, description: &str) -> Command {
    Command { name: name.to_string(), description: description.to_string() }
}

#[test]
fn execute_reaches_a_registered_handler() {
    let mut registry = CommandRegistry::new();
    registry.register(command("/exit", "Exit from application."), HandlerKind::Exit);
    let mut session = Session::new("You are a helpful assistant.");
    let action = registry.execute("/exit", "", &mut session).unwrap();
    assert!(matches!(action, CommandAction::Exit));
}

#[test]
fn registering_a_name_twice_keeps_only_the_second_handler() {
    let mut registry = CommandRegistry::new();
    registry.register(command("/x", "first"), HandlerKind::Help);
    registry.register(command("/x", "second"), HandlerKind::SetCmd);
    assert_eq!(registry.get_all_commands().len(), 1);

    let mut session = Session::new("You are a helpful assistant.");
    let action = registry.execute("/x", "model", &mut session).unwrap();
    assert!(matches!(action, CommandAction::FetchModels));
}

#[test]
fn unknown_command_fails_and_leaves_the_session_unchanged() {
    let mut registry = CommandRegistry::new();
    registry.register(command("/exit", "Exit from application."), HandlerKind::Exit);
    registry.register(command("/set", "Set model settings."), HandlerKind::SetCmd);
    let mut session = Session::new("You are a helpful assistant.");

    let r = registry.execute("/frobnicate", "", &mut session);
    assert!(matches!(r, Err(CommandError::UnknownCommand)));
    let err = r.err().unwrap();
    assert_eq!(err.message(), "Unknown command. Type /help for a list of commands.");

    let transcript = session.history.history();
    assert_eq!(transcript.len(), 1);
    assert_eq!(transcript[0].content, "You are a helpful assistant.");
    assert_eq!(session.model.name, "qwen3-30b-a3b-instruct-2507");
    assert_eq!(session.model.top_k, 40);
}

#[test]
fn help_replies_with_the_usage_text() {
    let mut registry = CommandRegistry::new();
    registry.register(command("/help", "Show help."), HandlerKind::Help);
    let mut session = Session::new("You are a helpful assistant.");
    let action = registry.execute("/help", "", &mut session).unwrap();
    match action {
        CommandAction::Reply(text) => {
            assert!(text.contains("Usage: <command> [args]"));
            assert!(text.contains("/exit"));
        }
        _ => panic!("expected a reply"),
    }
}

#[test]
fn set_dispatches_each_known_field() {
    let mut registry = CommandRegistry::new();
    registry.register(command("/set", "Set model settings."), HandlerKind::SetCmd);
    let mut session = Session::new("You are a helpful assistant.");

    let cases = [
        ("top_p", SettingField::TopP),
        ("top_k", SettingField::TopK),
        ("temperature", SettingField::Temperature),
        ("pre_p", SettingField::PresencePenalty),
        ("fre_p", SettingField::FrequencyPenalty),
        ("rep_p", SettingField::RepeatPenalty),
    ];
    for (arg, field) in cases {
        let action = registry.execute("/set", arg, &mut session).unwrap();
        match action {
            CommandAction::PromptSetting(f) => assert_eq!(f, field),
            _ => panic!("expected a prompt for {}", arg),
        }
    }

    let action = registry.execute("/set", "model", &mut session).unwrap();
    assert!(matches!(action, CommandAction::FetchModels));

    let action = registry.execute("/set", "help", &mut session).unwrap();
    match action {
        CommandAction::Reply(text) => assert!(text.starts_with("Usage: /set <model|")),
        _ => panic!("expected the set usage text"),
    }

    let action = registry.execute("/set", "bogus", &mut session).unwrap();
    match action {
        CommandAction::Reply(text) => assert_eq!(text, "Invalid argument"),
        _ => panic!("expected the invalid-argument reply"),
    }
}

#[test]
fn apply_setting_confirms_and_mutates_one_field() {
    let mut session = Session::new("You are a helpful assistant.");
    let reply = session
        .model
        .apply_setting(SettingField::TopP, SettingValue::Text("0.5".to_string()));
    assert_eq!(reply, "Set top_p to 0.5");
    assert_eq!(session.model.top_p, "0.5");
    assert_eq!(session.model.temperature, "0.7");

    let reply = session.model.apply_setting(SettingField::TopK, SettingValue::Int(99));
    assert_eq!(reply, "Set top_k to 99");
    assert_eq!(session.model.top_k, 99);

    let reply = session
        .model
        .apply_setting(SettingField::RepeatPenalty, SettingValue::Text("1.1".to_string()));
    assert_eq!(reply, "Set repeat_penalty to 1.1");
    assert_eq!(session.model.repeat_penalty, "1.1");
    assert_eq!(session.model.top_p, "0.5");
}

#[test]
fn empty_catalog_replies_instead_of_prompting() {
    let reply = open_coder::handlers::empty_catalog_reply(&Vec::new()).unwrap();
    assert_eq!(reply, "No models available");

    let ids = vec!["m-alpha".to_string()];
    assert!(open_coder::handlers::empty_catalog_reply(&ids).is_none());
}

#[test]
fn choose_model_applies_the_selected_id() {
    let mut session = Session::new("You are a helpful assistant.");
    let ids = vec!["m-alpha".to_string(), "m-beta".to_string()];
    let reply = open_coder::handlers::choose_model(&mut session.model, &ids, 1);
    assert_eq!(reply, "Set model to m-beta");
    assert_eq!(session.model.name, "m-beta");
}
