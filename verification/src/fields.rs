//! The optional fields of a notification and the values shown for them.

use vstd::prelude::*;
use vstd::string::*;

verus! {

/// The four details that whoever invokes a command may supply.
#[derive(Clone, Copy, Debug, PartialEq, Eq, Hash, Structural)]
pub enum Field {
    EventType,
    Day,
    Time,
    Opponent,
}

impl Field {
    /// The name of the field as a reader sees it.
    pub open spec fn name_text(self) -> Seq<char> {
        match self {
            Field::EventType => "Event type"@,
            Field::Day => "Day"@,
            Field::Time => "Time"@,
            Field::Opponent => "Opponent"@,
        }
    }

    /// The text shown for the field when no value was supplied.
    pub open spec fn placeholder_text(self) -> Seq<char> {
        "["@ + self.name_text() + " not specified]"@
    }

    /// The name of the field as a reader sees it.
    pub fn name(self) -> (text: &'static str)
        ensures
            text@ == self.name_text(),
    {
        match self {
            Field::EventType => "Event type",
            Field::Day => "Day",
            Field::Time => "Time",
            Field::Opponent => "Opponent",
        }
    }

    /// The text shown for the field when no value was supplied.
    pub fn placeholder(self) -> (text: String)
        ensures
            text@ == self.placeholder_text(),
    {
        let mut text = String::from_str("[");
        text.append(self.name());
        text.append(" not specified]");
        text
    }
}

/// The characters of an optional text.
pub open spec fn text_of(value: Option<String>) -> Option<Seq<char>> {
    match value {
        Some(text) => Some(text@),
        None => None,
    }
}

/// The display value of a field: the supplied value as it is, or the field's
/// placeholder where none was supplied.
pub open spec fn resolved(field: Field, value: Option<Seq<char>>) -> Seq<char> {
    match value {
        Some(text) => text,
        None => field.placeholder_text(),
    }
}

/// Resolves one optional field to its display value. A supplied value passes
/// through unchanged, the empty string included.
pub fn resolve(field: Field, value: Option<String>) -> (display: String)
    ensures
        display@ == resolved(field, text_of(value)),
{
    match value {
        Some(text) => text,
        None => field.placeholder(),
    }
}

/// The details of one invocation, each present or absent.
#[derive(Clone, Debug, PartialEq, Eq)]
pub struct NotificationRequest {
    pub event_type: Option<String>,
    pub day: Option<String>,
    pub time: Option<String>,
    pub opponent: Option<String>,
}

/// What a `NotificationRequest` holds, as plain sequences of characters.
pub ghost struct RequestModel {
    pub event_type: Option<Seq<char>>,
    pub day: Option<Seq<char>>,
    pub time: Option<Seq<char>>,
    pub opponent: Option<Seq<char>>,
}

impl RequestModel {
    /// The value supplied for a field, if any.
    pub open spec fn get(self, field: Field) -> Option<Seq<char>> {
        match field {
            Field::EventType => self.event_type,
            Field::Day => self.day,
            Field::Time => self.time,
            Field::Opponent => self.opponent,
        }
    }

    /// The display values of the four fields.
    pub open spec fn resolve(self) -> ResolvedModel {
        ResolvedModel {
            event_type: resolved(Field::EventType, self.event_type),
            day: resolved(Field::Day, self.day),
            time: resolved(Field::Time, self.time),
            opponent: resolved(Field::Opponent, self.opponent),
        }
    }
}

impl View for NotificationRequest {
    type V = RequestModel;

    open spec fn view(&self) -> RequestModel {
        RequestModel {
            event_type: text_of(self.event_type),
            day: text_of(self.day),
            time: text_of(self.time),
            opponent: text_of(self.opponent),
        }
    }
}

/// The display value of every field of one invocation.
#[derive(Clone, Debug, PartialEq, Eq)]
pub struct ResolvedFields {
    pub event_type: String,
    pub day: String,
    pub time: String,
    pub opponent: String,
}

/// What a `ResolvedFields` holds, as plain sequences of characters.
pub ghost struct ResolvedModel {
    pub event_type: Seq<char>,
    pub day: Seq<char>,
    pub time: Seq<char>,
    pub opponent: Seq<char>,
}

impl ResolvedModel {
    /// The display value of a field.
    pub open spec fn get(self, field: Field) -> Seq<char> {
        match field {
            Field::EventType => self.event_type,
            Field::Day => self.day,
            Field::Time => self.time,
            Field::Opponent => self.opponent,
        }
    }
}

impl View for ResolvedFields {
    type V = ResolvedModel;

    open spec fn view(&self) -> ResolvedModel {
        ResolvedModel {
            event_type: self.event_type@,
            day: self.day@,
            time: self.time@,
            opponent: self.opponent@,
        }
    }
}

impl NotificationRequest {
    /// Resolves every field of the request to its display value.
    pub fn resolve(self) -> (fields: ResolvedFields)
        ensures
            fields@ == self@.resolve(),
    {
        ResolvedFields {
            event_type: resolve(Field::EventType, self.event_type),
            day: resolve(Field::Day, self.day),
            time: resolve(Field::Time, self.time),
            opponent: resolve(Field::Opponent, self.opponent),
        }
    }
}

/// In the resolved fields every field that was absent shows its placeholder,
/// and every field that was present shows the supplied value unchanged.
pub proof fn lemma_resolved_fields(request: RequestModel, field: Field)
    ensures
        request.get(field) is None ==> request.resolve().get(field) == field.placeholder_text(),
        request.get(field) matches Some(text) ==> request.resolve().get(field) == text,
{
}

} // verus!
