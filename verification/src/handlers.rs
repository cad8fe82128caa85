//! The built-in command handlers. Each one only decides: it reads the
//! argument string and the session and says what should happen next. The
//! outside work an action names — terminating, prompting the user, fetching
//! the model catalog — is performed by the caller, which then re-enters the
//! library to apply the outcome.

use crate::command::{ActionView, CommandAction, HandlerKind};
use crate::errors::CommandError;
use crate::session::Session;
use crate::settings::{ModelSettings, SettingField, SettingsView};
use crate::text::str_eq;
use vstd::prelude::*;

verus! {

/// The static usage text printed by `/help`.
pub open spec fn help_text() -> Seq<char> {
    "\nUsage: <command> [args]\n\nCommands:\n  /set [args]    Set a value\n  /exit          Exit the application\n  /help          Show this help message\n\nFor more information on a specific command, run /<command> help.\n"@
}

/// The usage text printed by `/set help`.
pub open spec fn set_usage_text() -> Seq<char> {
    "Usage: /set <model|top_p|top_k|temperature|pre_p|fre_p|rep_p>\n  model: Set model\n  top_p: Set top_p\n  top_k: Set top_k\n  temperature: Set temperature\n  pre_p: Set presence_penalty\n  fre_p: Set frequency_penalty\n  rep_p: Set repeat_penalty"@
}

/// The reply to a `/set` argument nothing is bound to.
pub open spec fn invalid_argument_text() -> Seq<char> {
    "Invalid argument"@
}

/// What `/set` decides for a given argument string.
pub open spec fn set_action(arg: Seq<char>) -> ActionView {
    if arg == "model"@ {
        ActionView::FetchModels
    } else if arg == "top_p"@ {
        ActionView::PromptSetting(SettingField::TopP)
    } else if arg == "top_k"@ {
        ActionView::PromptSetting(SettingField::TopK)
    } else if arg == "temperature"@ {
        ActionView::PromptSetting(SettingField::Temperature)
    } else if arg == "pre_p"@ {
        ActionView::PromptSetting(SettingField::PresencePenalty)
    } else if arg == "fre_p"@ {
        ActionView::PromptSetting(SettingField::FrequencyPenalty)
    } else if arg == "rep_p"@ {
        ActionView::PromptSetting(SettingField::RepeatPenalty)
    } else if arg == "help"@ {
        ActionView::Reply(set_usage_text())
    } else {
        ActionView::Reply(invalid_argument_text())
    }
}

/// What a handler of the given kind decides for a given argument string.
pub open spec fn handler_action(h: HandlerKind, args: Seq<char>) -> ActionView {
    match h {
        HandlerKind::Exit => ActionView::Exit,
        HandlerKind::Help => ActionView::Reply(help_text()),
        HandlerKind::SetCmd => set_action(args),
    }
}

/// `/exit`: terminate the process immediately.
pub fn exit(session: &mut Session, args: &str) -> (r: Result<CommandAction, CommandError>)
    ensures
        *final(session) == *old(session),
        r matches Ok(a) && a@ == ActionView::Exit,
{
    Ok(CommandAction::Exit)
}

/// `/help`: print the static usage text.
pub fn help(session: &mut Session, args: &str) -> (r: Result<CommandAction, CommandError>)
    ensures
        *final(session) == *old(session),
        r matches Ok(a) && a@ == ActionView::Reply(help_text()),
{
    Ok(
        CommandAction::Reply(
            "\nUsage: <command> [args]\n\nCommands:\n  /set [args]    Set a value\n  /exit          Exit the application\n  /help          Show this help message\n\nFor more information on a specific command, run /<command> help.\n".to_owned(),
        ),
    )
}

/// `/set`: decide which parameter the argument names. The session itself is
/// untouched here; the new value is applied only when it has been read, by
/// `ModelSettings::apply_setting` or `choose_model`.
pub fn set(session: &mut Session, args: &str) -> (r: Result<CommandAction, CommandError>)
    ensures
        *final(session) == *old(session),
        r matches Ok(a) && a@ == set_action(args@),
{
    let action = if str_eq(args, "model") {
        CommandAction::FetchModels
    } else if str_eq(args, "top_p") {
        CommandAction::PromptSetting(SettingField::TopP)
    } else if str_eq(args, "top_k") {
        CommandAction::PromptSetting(SettingField::TopK)
    } else if str_eq(args, "temperature") {
        CommandAction::PromptSetting(SettingField::Temperature)
    } else if str_eq(args, "pre_p") {
        CommandAction::PromptSetting(SettingField::PresencePenalty)
    } else if str_eq(args, "fre_p") {
        CommandAction::PromptSetting(SettingField::FrequencyPenalty)
    } else if str_eq(args, "rep_p") {
        CommandAction::PromptSetting(SettingField::RepeatPenalty)
    } else if str_eq(args, "help") {
        CommandAction::Reply(
            "Usage: /set <model|top_p|top_k|temperature|pre_p|fre_p|rep_p>\n  model: Set model\n  top_p: Set top_p\n  top_k: Set top_k\n  temperature: Set temperature\n  pre_p: Set presence_penalty\n  fre_p: Set frequency_penalty\n  rep_p: Set repeat_penalty".to_owned(),
        )
    } else {
        CommandAction::Reply("Invalid argument".to_owned())
    };
    Ok(action)
}

/// What `/set model` replies when the fetched catalog is empty: no model can
/// be chosen, so nothing is prompted and nothing changes. A non-empty
/// catalog yields no reply here; the user is to pick an entry, which
/// `choose_model` then applies.
pub fn empty_catalog_reply(ids: &Vec<String>) -> (r: Option<String>)
    ensures
        ids@.len() == 0 ==> (r matches Some(s) && s@ == "No models available"@),
        ids@.len() != 0 ==> r is None,
{
    if ids.len() == 0 {
        Some("No models available".to_owned())
    } else {
        None
    }
}

/// Applies the model the user picked from the fetched catalog, and confirms
/// the selection. Every sampling parameter is left unchanged.
pub fn choose_model(settings: &mut ModelSettings, ids: &Vec<String>, selection: usize) -> (r:
    String)
    requires
        selection < ids@.len(),
    ensures
        final(settings)@ == (SettingsView { name: ids@[selection as int]@, ..old(settings)@ }),
        r@ == "Set model to "@ + ids@[selection as int]@,
{
    settings.set_name(ids[selection].clone())
}

} // verus!
