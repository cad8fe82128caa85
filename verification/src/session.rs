//! The session state — model settings and transcript — and the chat-turn
//! state machine that reconciles a streamed reply with the transcript.

use crate::history::{HistoryStore, Role, transcript_wf};
use crate::settings::{ModelSettings, default_settings};
use vstd::prelude::*;
use vstd::string::StringExecFns;

verus! {

/// All mutable state of one interactive session. It has a single owner and is
/// lent by exclusive borrow to whichever handler or chat routine is active.
pub struct Session {
    pub model: ModelSettings,
    pub history: HistoryStore,
}

impl Session {
    /// A session opened with the default model settings and a transcript
    /// holding only the system prompt.
    pub fn new(system_prompt: &str) -> (r: Session)
        ensures
            r.wf(),
            r.history@.len() == 1,
            r.history@[0].role == Role::System,
            r.history@[0].content@ == system_prompt@,
            r.model@ == default_settings(),
    {
        Session { model: ModelSettings::default(), history: HistoryStore::new(system_prompt) }
    }

    /// The session invariant: the transcript is well-formed.
    pub open spec fn wf(&self) -> bool {
        transcript_wf(self.history@)
    }

    /// Opens a chat turn for one non-command input line. The line is appended
    /// to the transcript as a user message before anything is sent, so a
    /// mid-stream failure still leaves the user's turn recorded.
    pub fn begin_chat_turn(&mut self, input: &str) -> (turn: ChatTurn)
        ensures
            final(self).model == old(self).model,
            final(self).history@.len() == old(self).history@.len() + 1,
            final(self).history@.last().role == Role::User,
            final(self).history@.last().content@ == input@,
            final(self).history@.subrange(0, old(self).history@.len() as int) == old(self).history@,
            old(self).wf() ==> final(self).wf(),
            turn.spec_state() == ChatState::Sending,
            turn.accumulated() == Seq::<char>::empty(),
    {
        self.history.add_history(Role::User, input);
        ChatTurn { state: ChatState::Sending, response: String::new() }
    }

    /// Closes a chat turn. A failed turn commits nothing, so the user message
    /// recorded when the turn began stays without an answer; a completed turn
    /// with a non-empty accumulator commits it as one assistant message; an
    /// empty accumulator commits nothing.
    pub fn finish_chat_turn(&mut self, turn: ChatTurn)
        requires
            turn.spec_state() == ChatState::Committing || turn.spec_state() == ChatState::Failed,
        ensures
            final(self).model == old(self).model,
            turn.spec_state() == ChatState::Failed || turn.accumulated().len() == 0
                ==> *final(self) == *old(self),
            turn.spec_state() == ChatState::Committing && turn.accumulated().len() != 0 ==> {
                &&& final(self).history@.len() == old(self).history@.len() + 1
                &&& final(self).history@.last().role == Role::Assistant
                &&& final(self).history@.last().content@ == turn.accumulated()
                &&& final(self).history@.subrange(0, old(self).history@.len() as int) == old(self).history@
            },
            old(self).wf() ==> final(self).wf(),
            final(self).history@.len() >= old(self).history@.len(),
    {
        match turn.state {
            ChatState::Committing => {
                if !turn.response.as_str().is_empty() {
                    self.history.add_history(Role::Assistant, turn.response.as_str());
                }
            },
            _ => {},
        }
    }
}

/// Where an in-flight chat turn stands. Between turns the session holds no
/// `ChatTurn` at all: that is the idle state.
#[derive(Clone, Copy, PartialEq, Eq, Structural, Debug)]
pub enum ChatState {
    Sending,
    Streaming,
    Committing,
    Failed,
}

/// One in-flight chat turn: its state and the accumulator of text deltas for
/// the pending assistant reply. The accumulator is discarded or committed by
/// `Session::finish_chat_turn` when the stream ends.
pub struct ChatTurn {
    state: ChatState,
    response: String,
}

impl ChatTurn {
    /// Where this turn stands.
    pub closed spec fn spec_state(&self) -> ChatState {
        self.state
    }

    /// The text deltas received so far, in arrival order.
    pub closed spec fn accumulated(&self) -> Seq<char> {
        self.response@
    }

    /// The streaming request was established: the turn moves from sending to
    /// streaming.
    pub fn on_open(&mut self)
        requires
            old(self).spec_state() == ChatState::Sending,
        ensures
            final(self).spec_state() == ChatState::Streaming,
            final(self).accumulated() == old(self).accumulated(),
    {
        self.state = ChatState::Streaming;
    }

    /// One decoded event arrived. A final event closes the turn for
    /// committing and adds no text; any other event appends its delta, in
    /// arrival order, to the accumulator.
    pub fn on_event(&mut self, is_final: bool, delta: &str)
        requires
            old(self).spec_state() == ChatState::Sending || old(self).spec_state()
                == ChatState::Streaming,
        ensures
            is_final ==> final(self).spec_state() == ChatState::Committing && final(self).accumulated() == old(self).accumulated(),
            !is_final ==> final(self).spec_state() == ChatState::Streaming && final(self).accumulated() == old(self).accumulated() + delta@,
    {
        if is_final {
            self.state = ChatState::Committing;
        } else {
            self.state = ChatState::Streaming;
            self.response.append(delta);
        }
    }

    /// A decode or transport error arrived: the stream is closed and the turn
    /// fails; the accumulator is kept only to be discarded.
    pub fn on_error(&mut self)
        requires
            old(self).spec_state() == ChatState::Sending || old(self).spec_state()
                == ChatState::Streaming,
        ensures
            final(self).spec_state() == ChatState::Failed,
            final(self).accumulated() == old(self).accumulated(),
    {
        self.state = ChatState::Failed;
    }
}

} // verus!
