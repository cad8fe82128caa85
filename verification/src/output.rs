//! Decoding what the endpoint sent: one server-sent-event payload into a text
//! delta and a termination flag, and one non-streamed response body into a
//! model name and message.

use crate::errors::LmError;
use crate::text::str_eq;
use vstd::prelude::*;

verus! {

/// A decoded non-streamed response: which model answered, and its message.
pub struct Message {
    pub model: String,
    pub message: String,
}

/// The output side of the session: it turns response bodies and event
/// payloads into values the runner can render.
pub struct OutputHandler {}

/// The fields a server-sent-event payload carries, as the endpoint sent
/// them: the `choices[0].delta.content` string if present, and the
/// `choices[0].finish_reason` string if present; nothing when the payload is
/// not JSON.
pub uninterp spec fn stream_fields_of(payload: Seq<char>) -> Option<
    (Option<Seq<char>>, Option<Seq<char>>),
>;

/// The fields a non-streamed response body carries, as the endpoint sent
/// them: the `model` string if present, and the
/// `choices[0].message.content` string if present; nothing when the body is
/// not JSON.
pub uninterp spec fn response_fields_of(body: Seq<char>) -> Option<
    (Option<Seq<char>>, Option<Seq<char>>),
>;

/// Relies on serde_json::from_str and Value::as_str: the delta and finish
/// reason of a server-sent-event payload are a function of the payload text
/// alone.
#[verifier::external_body]
fn extract_stream_fields(payload: &str) -> (r: Option<(Option<String>, Option<String>)>)
    ensures
        match r {
            Some(p) => stream_fields_of(payload@) == Some((p.0.deep_view(), p.1.deep_view())),
            None => stream_fields_of(payload@) is None,
        },
{
    let v: serde_json::Value = match serde_json::from_str(payload) {
        Ok(v) => v,
        Err(_) => return None,
    };
    let content = v["choices"][0]["delta"]["content"].as_str().map(|s| s.to_string());
    let finish = v["choices"][0]["finish_reason"].as_str().map(|s| s.to_string());
    Some((content, finish))
}

/// Relies on serde_json::from_str and Value::as_str: the model and message
/// content of a response body are a function of the body text alone.
#[verifier::external_body]
fn extract_response_fields(body: &str) -> (r: Option<(Option<String>, Option<String>)>)
    ensures
        match r {
            Some(p) => response_fields_of(body@) == Some((p.0.deep_view(), p.1.deep_view())),
            None => response_fields_of(body@) is None,
        },
{
    let v: serde_json::Value = match serde_json::from_str(body) {
        Ok(v) => v,
        Err(_) => return None,
    };
    let model = v["model"].as_str().map(|s| s.to_string());
    let content = v["choices"][0]["message"]["content"].as_str().map(|s| s.to_string());
    Some((model, content))
}

/// Whether a finish reason closes the stream: exactly the literal token
/// `stop` does; any other value, or none at all, does not.
pub open spec fn final_flag(finish: Option<Seq<char>>) -> bool {
    finish matches Some(f) && f == "stop"@
}

/// The text delta an event contributes: its content when present, empty
/// otherwise — providers may send empty keep-alive deltas, which is no error.
pub open spec fn delta_text(content: Option<Seq<char>>) -> Seq<char> {
    match content {
        Some(c) => c,
        None => Seq::empty(),
    }
}

/// Decodes the extracted fields of one event: the event is final exactly when
/// the finish reason is the literal `stop`, and contributes its content as
/// the delta, the empty text when there is none.
pub fn decode_event(content: Option<String>, finish: Option<String>) -> (r: (bool, String))
    ensures
        r.0 == final_flag(finish.deep_view()),
        r.1@ == delta_text(content.deep_view()),
{
    let is_final = match &finish {
        Some(f) => str_eq(f.as_str(), "stop"),
        None => false,
    };
    let delta = match content {
        Some(c) => c,
        None => String::new(),
    };
    proof {
        if content is None {
            assert(delta@ =~= delta_text(content.deep_view()));
        }
    }
    (is_final, delta)
}

/// Builds the decoded response from the extracted fields of a non-streamed
/// body: both the model name and the message content must be present;
/// a body missing either is a decode failure.
pub fn assemble_model_response(model: Option<String>, message: Option<String>) -> (r: Result<
    Message,
    LmError,
>)
    ensures
        match (model, message) {
            (Some(m), Some(c)) => r matches Ok(out) && out.model == m && out.message == c,
            _ => r == Err::<Message, LmError>(LmError::DecodeError),
        },
{
    match (model, message) {
        (Some(m), Some(c)) => Ok(Message { model: m, message: c }),
        _ => Err(LmError::DecodeError),
    }
}

impl OutputHandler {
    /// A fresh output handler.
    pub fn new() -> (r: OutputHandler) {
        OutputHandler {  }
    }

    /// Decodes one non-streamed response body into the model that answered
    /// and its message. A body that is not JSON, or that is missing the
    /// model or the message content, is a decode failure.
    pub fn format_model_response(&self, input: String) -> (r: Result<Message, LmError>)
        ensures
            match response_fields_of(input@) {
                Some(fields) => match (fields.0, fields.1) {
                    (Some(model), Some(content)) => r matches Ok(out) && out.model@ == model
                        && out.message@ == content,
                    _ => r == Err::<Message, LmError>(LmError::DecodeError),
                },
                None => r == Err::<Message, LmError>(LmError::DecodeError),
            },
    {
        match extract_response_fields(input.as_str()) {
            Some(fields) => assemble_model_response(fields.0, fields.1),
            None => Err(LmError::DecodeError),
        }
    }

    /// Decodes one server-sent-event payload into its termination flag and
    /// text delta: final exactly when the finish reason is the literal
    /// `stop`, whatever the delta; the delta is the content, empty when
    /// absent. A payload that is not JSON is a decode failure, fatal to its
    /// stream.
    pub fn format_model_stream_response(&self, input: String) -> (r: Result<
        (bool, String),
        LmError,
    >)
        ensures
            match stream_fields_of(input@) {
                Some(fields) => r matches Ok(out) && out.0 == final_flag(fields.1) && out.1@
                    == delta_text(fields.0),
                None => r == Err::<(bool, String), LmError>(LmError::DecodeError),
            },
    {
        match extract_stream_fields(input.as_str()) {
            Some(fields) => Ok(decode_event(fields.0, fields.1)),
            None => Err(LmError::DecodeError),
        }
    }
}

} // verus!
