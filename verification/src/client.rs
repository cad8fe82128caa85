//! The request side of the chat pipeline: building the exact request a chat
//! turn sends, classifying how the endpoint answered, and reading the model
//! catalog out of a models-listing body.

use crate::errors::LmError;
use crate::history::{Message, Role};
use crate::settings::ModelSettings;
use vstd::prelude::*;

verus! {

/// One chat-completion request, ready to be serialised and sent: the model
/// name, the messages to replay, every sampling parameter verbatim, and
/// whether the reply is to be streamed.
pub struct ChatRequest {
    pub model: String,
    pub messages: Vec<Message>,
    pub top_p: String,
    pub top_k: u64,
    pub temperature: String,
    pub presence_penalty: String,
    pub frequency_penalty: String,
    pub repeat_penalty: String,
    pub stream: bool,
}

/// Whether a request carries every sampling parameter of `settings`, for the
/// model `settings` names.
pub open spec fn carries_settings(r: ChatRequest, s: crate::settings::SettingsView) -> bool {
    &&& r.model@ == s.name
    &&& r.top_p@ == s.top_p
    &&& r.top_k == s.top_k
    &&& r.temperature@ == s.temperature
    &&& r.presence_penalty@ == s.presence_penalty
    &&& r.frequency_penalty@ == s.frequency_penalty
    &&& r.repeat_penalty@ == s.repeat_penalty
}

/// Builds the non-streamed chat-completion request: a single user message
/// holding the prompt, with every sampling parameter passed through verbatim.
pub fn build_chat_request(settings: &ModelSettings, prompt: &str) -> (r: ChatRequest)
    ensures
        carries_settings(r, settings@),
        r.messages@.len() == 1,
        r.messages@[0].role == Role::User,
        r.messages@[0].content@ == prompt@,
        !r.stream,
{
    let mut messages: Vec<Message> = Vec::new();
    messages.push(Message { role: Role::User, content: prompt.to_owned() });
    ChatRequest {
        model: settings.name.clone(),
        messages,
        top_p: settings.top_p.clone(),
        top_k: settings.top_k,
        temperature: settings.temperature.clone(),
        presence_penalty: settings.presence_penalty.clone(),
        frequency_penalty: settings.frequency_penalty.clone(),
        repeat_penalty: settings.repeat_penalty.clone(),
        stream: false,
    }
}

/// Builds the streamed chat-completion request: the entire message history is
/// replayed, every sampling parameter is passed through verbatim, and
/// streaming is asked for.
pub fn build_stream_chat_request(settings: &ModelSettings, messages: Vec<Message>) -> (r:
    ChatRequest)
    ensures
        carries_settings(r, settings@),
        r.messages@ == messages@,
        r.stream,
{
    ChatRequest {
        model: settings.name.clone(),
        messages,
        top_p: settings.top_p.clone(),
        top_k: settings.top_k,
        temperature: settings.temperature.clone(),
        presence_penalty: settings.presence_penalty.clone(),
        frequency_penalty: settings.frequency_penalty.clone(),
        repeat_penalty: settings.repeat_penalty.clone(),
        stream: true,
    }
}

/// Whether an HTTP status is a success.
pub open spec fn is_success_status(status: u16) -> bool {
    200 <= status < 300
}

/// Classifies how the endpoint answered one request: no status at all is a
/// transport failure, a non-success status an upstream failure carrying that
/// status, and a success status is no failure.
pub fn response_outcome(status: Option<u16>) -> (r: Result<(), LmError>)
    ensures
        match status {
            None => r == Err::<(), LmError>(LmError::TransportError),
            Some(s) => if is_success_status(s) {
                r is Ok
            } else {
                r == Err::<(), LmError>(LmError::UpstreamError { status: s })
            },
        },
{
    match status {
        None => Err(LmError::TransportError),
        Some(s) => if 200 <= s && s < 300 {
            Ok(())
        } else {
            Err(LmError::UpstreamError { status: s })
        },
    }
}

/// The model entries of a models-listing body, as the endpoint sent them:
/// one entry per element of the body's `data` array, holding the element's
/// `id` string if it has one; nothing when the body is not JSON or `data` is
/// not an array.
pub uninterp spec fn model_entries_of(body: Seq<char>) -> Option<Seq<Option<Seq<char>>>>;

/// Relies on serde_json::from_str, Value::as_array and Value::as_str: which
/// model entries a models-listing body holds is a function of the body text
/// alone.
#[verifier::external_body]
fn extract_model_entries(body: &str) -> (r: Option<Vec<Option<String>>>)
    ensures
        match r {
            Some(v) => model_entries_of(body@) == Some(v.deep_view()),
            None => model_entries_of(body@) is None,
        },
{
    let parsed: serde_json::Value = match serde_json::from_str(body) {
        Ok(v) => v,
        Err(_) => return None,
    };
    let data = match parsed["data"].as_array() {
        Some(a) => a,
        None => return None,
    };
    Some(data.iter().map(|entry| entry["id"].as_str().map(|id| id.to_string())).collect())
}

/// The ids among `entries`, in order, skipping entries without one.
pub open spec fn present_ids(entries: Seq<Option<Seq<char>>>) -> Seq<Seq<char>>
    decreases entries.len(),
{
    if entries.len() == 0 {
        Seq::empty()
    } else {
        present_ids(entries.drop_last()) + (match entries.last() {
            Some(id) => seq![id],
            None => Seq::empty(),
        })
    }
}

/// Keeps, in order, the ids of the entries that have one.
pub fn collect_model_ids(entries: Vec<Option<String>>) -> (r: Vec<String>)
    ensures
        r.deep_view() == present_ids(entries.deep_view()),
{
    let n = entries.len();
    let mut out: Vec<String> = Vec::new();
    let mut i: usize = 0;
    while i < n
        invariant
            i <= n,
            n == entries@.len(),
            out.deep_view() == present_ids(entries.deep_view().subrange(0, i as int)),
        decreases n - i,
    {
        match &entries[i] {
            Some(id) => {
                out.push(id.clone());
            },
            None => {},
        }
        proof {
            let pre = entries.deep_view().subrange(0, i as int);
            let cur = entries.deep_view().subrange(0, i + 1);
            assert(cur.drop_last() =~= pre);
            assert(cur.last() == entries.deep_view()[i as int]);
            assert(out.deep_view() =~= present_ids(cur));
        }
        i += 1;
    }
    proof {
        assert(entries.deep_view().subrange(0, n as int) =~= entries.deep_view());
    }
    out
}

/// Reads the model catalog out of a models-listing body: the `id` of each
/// entry of its `data` array, in order. A body that is not JSON, or whose
/// `data` is not an array, is a decode failure.
pub fn parse_model_list(body: &str) -> (r: Result<Vec<String>, LmError>)
    ensures
        match model_entries_of(body@) {
            Some(entries) => r matches Ok(ids) && ids.deep_view() == present_ids(entries),
            None => r == Err::<Vec<String>, LmError>(LmError::DecodeError),
        },
{
    match extract_model_entries(body) {
        Some(entries) => Ok(collect_model_ids(entries)),
        None => Err(LmError::DecodeError),
    }
}

} // verus!
