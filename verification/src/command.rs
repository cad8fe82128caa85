//! Commands and what a dispatched handler asks the caller to do.

use crate::settings::SettingField;
use vstd::prelude::*;

verus! {

/// Static registration data for one command: its name, beginning with the
/// command prefix, and a description. Immutable after startup.
pub struct Command {
    pub name: String,
    pub description: String,
}

impl Command {
    /// A copy of this command, equal to it.
    pub fn duplicate(&self) -> (r: Command)
        ensures
            r == *self,
    {
        Command { name: self.name.clone(), description: self.description.clone() }
    }
}

/// Which built-in handler a command is bound to.
#[derive(Clone, Copy, PartialEq, Eq, Structural, Debug)]
pub enum HandlerKind {
    Exit,
    Help,
    SetCmd,
}

/// What a handler decided. Replies are printed; the other actions name the
/// outside work (terminating, prompting, fetching) that the caller performs
/// before coming back into the library.
pub enum CommandAction {
    /// Print this text.
    Reply(String),
    /// Terminate the process.
    Exit,
    /// Ask the user for a new value of this field, then apply it.
    PromptSetting(SettingField),
    /// Fetch the model catalog, let the user choose, then apply the choice.
    FetchModels,
}

/// The mathematical value of a command action.
pub enum ActionView {
    Reply(Seq<char>),
    Exit,
    PromptSetting(SettingField),
    FetchModels,
}

impl View for CommandAction {
    type V = ActionView;

    open spec fn view(&self) -> ActionView {
        match self {
            CommandAction::Reply(s) => ActionView::Reply(s@),
            CommandAction::Exit => ActionView::Exit,
            CommandAction::PromptSetting(f) => ActionView::PromptSetting(*f),
            CommandAction::FetchModels => ActionView::FetchModels,
        }
    }
}

} // verus!
