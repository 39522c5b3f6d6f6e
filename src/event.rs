use vstd::prelude::*;

verus! {

/// An event record extracted from one chat message.
#[derive(Debug, Clone, PartialEq, Eq)]
pub struct ParsedEvent {
    pub title: String,
    pub event_type: String,
    pub date: String,
    pub description: String,
}

/// The mathematical value of a `ParsedEvent`: its four texts.
pub ghost struct EventView {
    pub title: Seq<char>,
    pub event_type: Seq<char>,
    pub date: Seq<char>,
    pub description: Seq<char>,
}

impl View for ParsedEvent {
    type V = EventView;

    open spec fn view(&self) -> EventView {
        EventView {
            title: self.title@,
            event_type: self.event_type@,
            date: self.date@,
            description: self.description@,
        }
    }
}

/// Why one extraction attempt failed.
#[derive(Debug, Clone, Copy, PartialEq, Eq, Structural)]
pub enum ExtractionError {
    /// The model service could not be reached.
    ModelUnreachable,
    /// The model service answered, but not with a `response` text.
    ModelResponseInvalid,
    /// The model's text holds no `{` followed later by a `}`.
    NoJsonFound,
    /// The text between the braces is not an object with the four text fields.
    MalformedJson,
}

/// The outcome of an extraction, as values.
pub open spec fn outcome_view(r: Result<ParsedEvent, ExtractionError>) -> Result<EventView, ExtractionError> {
    match r {
        Ok(e) => Ok(e@),
        Err(k) => Err(k),
    }
}

} // verus!
