//! The conversation transcript: an ordered, append-only list of role-tagged
//! messages, always opened by exactly one system message.

use vstd::prelude::*;

verus! {

/// Who spoke a message of the transcript.
#[derive(Clone, Copy, PartialEq, Eq, Structural, Debug)]
pub enum Role {
    System,
    User,
    Assistant,
}

/// One transcript entry. Immutable once created; ordering in the transcript is
/// insertion order and is replayed verbatim to the remote model.
pub struct Message {
    pub role: Role,
    pub content: String,
}

impl Message {
    /// A copy of this message, equal to it.
    pub fn duplicate(&self) -> (r: Message)
        ensures
            r == *self,
    {
        Message { role: self.role, content: self.content.clone() }
    }
}

/// The conversation history sent to the model on every request.
pub struct HistoryStore {
    history: Vec<Message>,
}

impl View for HistoryStore {
    type V = Seq<Message>;

    closed spec fn view(&self) -> Seq<Message> {
        self.history@
    }
}

/// The transcript invariant: non-empty, and its first message is the system
/// message.
pub open spec fn transcript_wf(h: Seq<Message>) -> bool {
    h.len() >= 1 && h[0].role == Role::System
}

impl HistoryStore {
    /// Opens a transcript holding exactly one system message with the given
    /// prompt.
    pub fn new(system_prompt: &str) -> (r: HistoryStore)
        ensures
            transcript_wf(r@),
            r@.len() == 1,
            r@[0].role == Role::System,
            r@[0].content@ == system_prompt@,
    {
        let mut history: Vec<Message> = Vec::new();
        history.push(Message { role: Role::System, content: system_prompt.to_owned() });
        HistoryStore { history }
    }

    /// The messages so far, in insertion order, equal to the transcript.
    pub fn history(&self) -> (r: Vec<Message>)
        ensures
            r@ == self@,
    {
        let mut out: Vec<Message> = Vec::new();
        let mut i: usize = 0;
        while i < self.history.len()
            invariant
                i <= self.history.len(),
                out@ == self.history@.subrange(0, i as int),
            decreases self.history.len() - i,
        {
            out.push(self.history[i].duplicate());
            proof {
                assert(out@ =~= self.history@.subrange(0, i + 1));
            }
            i += 1;
        }
        proof {
            assert(out@ =~= self.history@);
        }
        out
    }

    /// Appends one message; nothing already in the transcript moves or
    /// changes, so the first message stays the system one and the length
    /// grows by one.
    pub fn add_history(&mut self, role: Role, content: &str)
        ensures
            final(self)@.len() == old(self)@.len() + 1,
            final(self)@.last().role == role,
            final(self)@.last().content@ == content@,
            final(self)@.subrange(0, old(self)@.len() as int) == old(self)@,
            transcript_wf(old(self)@) ==> transcript_wf(final(self)@),
    {
        self.history.push(Message { role, content: content.to_owned() });
        proof {
            assert(self.history@.subrange(0, old(self)@.len() as int) =~= old(self)@);
        }
    }
}

} // verus!
