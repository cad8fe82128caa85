//! Named sampling parameters consulted by the chat path and mutated in place
//! by the setting commands.
//!
//! Numeric sampling parameters are passed through to the endpoint verbatim,
//! with no clamping or validation, so every fractional parameter is held as
//! the exact text that will be sent on the wire; only `top_k` is an integer.

use crate::text::{decimal_digits, u64_to_string};
use vstd::prelude::*;
use vstd::string::StringExecFns;

verus! {

/// The sampling parameters of one model, mutated in place by `/set`.
pub struct ModelSettings {
    pub name: String,
    pub top_p: String,
    pub top_k: u64,
    pub temperature: String,
    pub presence_penalty: String,
    pub frequency_penalty: String,
    pub repeat_penalty: String,
}

/// The mathematical value of a settings record.
pub struct SettingsView {
    pub name: Seq<char>,
    pub top_p: Seq<char>,
    pub top_k: u64,
    pub temperature: Seq<char>,
    pub presence_penalty: Seq<char>,
    pub frequency_penalty: Seq<char>,
    pub repeat_penalty: Seq<char>,
}

impl View for ModelSettings {
    type V = SettingsView;

    open spec fn view(&self) -> SettingsView {
        SettingsView {
            name: self.name@,
            top_p: self.top_p@,
            top_k: self.top_k,
            temperature: self.temperature@,
            presence_penalty: self.presence_penalty@,
            frequency_penalty: self.frequency_penalty@,
            repeat_penalty: self.repeat_penalty@,
        }
    }
}

/// One mutable sampling parameter besides the model name.
#[derive(Clone, Copy, PartialEq, Eq, Structural, Debug)]
pub enum SettingField {
    TopP,
    TopK,
    Temperature,
    PresencePenalty,
    FrequencyPenalty,
    RepeatPenalty,
}

/// A new value for one parameter: an integer for `top_k`, verbatim text for
/// every fractional parameter.
pub enum SettingValue {
    Int(u64),
    Text(String),
}

/// Whether a value is of the kind the field takes.
pub open spec fn value_fits_field(field: SettingField, value: SettingValue) -> bool {
    match field {
        SettingField::TopK => value is Int,
        _ => value is Text,
    }
}

/// The label under which a field is set and confirmed.
pub open spec fn field_label(field: SettingField) -> Seq<char> {
    match field {
        SettingField::TopP => "top_p"@,
        SettingField::TopK => "top_k"@,
        SettingField::Temperature => "temperature"@,
        SettingField::PresencePenalty => "presence_penalty"@,
        SettingField::FrequencyPenalty => "frequency_penalty"@,
        SettingField::RepeatPenalty => "repeat_penalty"@,
    }
}

/// The text of a value as it is confirmed to the user.
pub open spec fn value_text(value: SettingValue) -> Seq<char> {
    match value {
        SettingValue::Int(n) => decimal_digits(n as nat),
        SettingValue::Text(s) => s@,
    }
}

/// The settings record with one field replaced.
pub open spec fn with_field(s: SettingsView, field: SettingField, value: SettingValue) -> SettingsView {
    match field {
        SettingField::TopP => SettingsView { top_p: value_text(value), ..s },
        SettingField::TopK => SettingsView { top_k: value->Int_0, ..s },
        SettingField::Temperature => SettingsView { temperature: value_text(value), ..s },
        SettingField::PresencePenalty => SettingsView { presence_penalty: value_text(value), ..s },
        SettingField::FrequencyPenalty => SettingsView { frequency_penalty: value_text(value), ..s },
        SettingField::RepeatPenalty => SettingsView { repeat_penalty: value_text(value), ..s },
    }
}

fn field_label_str(field: SettingField) -> (r: &'static str)
    ensures
        r@ == field_label(field),
{
    proof {
        reveal_strlit("top_p");
        reveal_strlit("top_k");
        reveal_strlit("temperature");
        reveal_strlit("presence_penalty");
        reveal_strlit("frequency_penalty");
        reveal_strlit("repeat_penalty");
    }
    match field {
        SettingField::TopP => "top_p",
        SettingField::TopK => "top_k",
        SettingField::Temperature => "temperature",
        SettingField::PresencePenalty => "presence_penalty",
        SettingField::FrequencyPenalty => "frequency_penalty",
        SettingField::RepeatPenalty => "repeat_penalty",
    }
}

impl ModelSettings {
    /// Stores `value` into `field`, leaving every other parameter unchanged,
    /// and confirms what was set.
    pub fn apply_setting(&mut self, field: SettingField, value: SettingValue) -> (r: String)
        requires
            value_fits_field(field, value),
        ensures
            final(self)@ == with_field(old(self)@, field, value),
            r@ == "Set "@ + field_label(field) + " to "@ + value_text(value),
    {
        let mut confirmation = String::from_str("Set ");
        confirmation.append(field_label_str(field));
        confirmation.append(" to ");
        match value {
            SettingValue::Int(n) => {
                let digits = u64_to_string(n);
                confirmation.append(digits.as_str());
                match field {
                    SettingField::TopK => {
                        self.top_k = n;
                    },
                    _ => {
                        proof {
                            assert(false);
                        }
                    },
                }
            },
            SettingValue::Text(s) => {
                confirmation.append(s.as_str());
                match field {
                    SettingField::TopP => {
                        self.top_p = s;
                    },
                    SettingField::Temperature => {
                        self.temperature = s;
                    },
                    SettingField::PresencePenalty => {
                        self.presence_penalty = s;
                    },
                    SettingField::FrequencyPenalty => {
                        self.frequency_penalty = s;
                    },
                    SettingField::RepeatPenalty => {
                        self.repeat_penalty = s;
                    },
                    SettingField::TopK => {
                        proof {
                            assert(false);
                        }
                    },
                }
            },
        }
        confirmation
    }

    /// Selects a model by name, leaving every sampling parameter unchanged,
    /// and confirms what was selected.
    pub fn set_name(&mut self, name: String) -> (r: String)
        ensures
            final(self)@ == (SettingsView { name: name@, ..old(self)@ }),
            r@ == "Set model to "@ + name@,
    {
        let mut confirmation = String::from_str("Set model to ");
        confirmation.append(name.as_str());
        self.name = name;
        confirmation
    }
}

/// The settings a session starts with.
pub open spec fn default_settings() -> SettingsView {
    SettingsView {
        name: "qwen3-30b-a3b-instruct-2507"@,
        top_p: "0.95"@,
        top_k: 40,
        temperature: "0.7"@,
        presence_penalty: "0"@,
        frequency_penalty: "0"@,
        repeat_penalty: "1"@,
    }
}

impl Default for ModelSettings {
    /// The settings the session starts with.
    fn default() -> (r: ModelSettings)
        ensures
            r@ == default_settings(),
    {
        ModelSettings {
            name: String::from_str("qwen3-30b-a3b-instruct-2507"),
            top_p: String::from_str("0.95"),
            top_k: 40,
            temperature: String::from_str("0.7"),
            presence_penalty: String::from_str("0"),
            frequency_penalty: String::from_str("0"),
            repeat_penalty: String::from_str("1"),
        }
    }
}

} // verus!
