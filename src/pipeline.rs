use vstd::prelude::*;
use crate::event::{outcome_view, EventView, ExtractionError, ParsedEvent};
use crate::json_slice::{brace_slice, extract_json, has_brace_pair};
use crate::pattern::{lower_of, pattern_event, regex_captures, simple_parse, EVENT_TEMPLATE};
use crate::record::{decode_record, decoded_record, envelope_text, response_text};

verus! {

/// The model that the service is asked to run.
pub const MODEL_NAME: &'static str = "llama3.2";

/// Where the model service takes generation requests.
pub const MODEL_ENDPOINT: &'static str = "http://localhost:11434/api/generate";

/// The prompt's text before the message.
pub const PROMPT_HEAD: &'static str = "Extract event details from: '";

/// The prompt's text after the message: the four fields and one example.
pub const PROMPT_TAIL: &'static str = "'\n\nReturn ONLY JSON:\n{\n  \"title\": \"name\",\n  \"event_type\": \"workshop\",\n  \"date\": \"2025-11-15\",\n  \"description\": \"desc\"\n}";

/// The start of the reply to a chat message that gave an event.
pub const CONFIRM_HEAD: &'static str = "✓ Got it! Creating: ";

/// The reply to a chat message that gave no event.
pub const HELP_REPLY: &'static str = "I couldn't understand that. Try: 'Add workshop on 2025-11-15'";

/// Where an extraction stands after the template has been tried.
pub enum Extraction {
    /// The template matched: this is the event, and the model is not asked.
    Resolved(ParsedEvent),
    /// The template did not match: the model is to be sent this prompt, once.
    AskModel(String),
}

/// What came back from the one request to the model service.
pub enum ModelReply {
    /// The service could not be reached.
    Unreachable,
    /// The service answered with this body.
    Replied(String),
}

/// The prompt that asks the model for the event in a message.
pub open spec fn prompt_for(message: Seq<char>) -> Seq<char> {
    PROMPT_HEAD@ + message + PROMPT_TAIL@
}

/// Whether a message is left to the model.
pub open spec fn asks_model(message: Seq<char>) -> bool {
    pattern_event(message) is None
}

/// The prompts that an extraction of a message sends to the model, in order:
/// none when the template matches, else one.
pub open spec fn model_prompts(message: Seq<char>) -> Seq<Seq<char>> {
    if asks_model(message) {
        seq![prompt_for(message)]
    } else {
        Seq::empty()
    }
}

/// The outcome for the model's text: the JSON candidate, checked.
pub open spec fn text_outcome(text: Seq<char>) -> Result<EventView, ExtractionError> {
    if has_brace_pair(text) {
        decoded_record(brace_slice(text))
    } else {
        Err(ExtractionError::NoJsonFound)
    }
}

/// The outcome for what came back from the model service.
pub open spec fn model_outcome(reply: ModelReply) -> Result<EventView, ExtractionError> {
    match reply {
        ModelReply::Unreachable => Err(ExtractionError::ModelUnreachable),
        ModelReply::Replied(body) => match envelope_text(body@) {
            Some(text) => text_outcome(text),
            None => Err(ExtractionError::ModelResponseInvalid),
        },
    }
}

/// The chat reply for an outcome: a confirmation with the title, or the help text.
pub open spec fn reply_for(outcome: Result<EventView, ExtractionError>) -> Seq<char> {
    match outcome {
        Ok(e) => CONFIRM_HEAD@ + e.title,
        Err(_) => HELP_REPLY@,
    }
}

/// Embeds a message in the instruction that asks the model for a JSON object
/// with the four fields.
pub fn build_prompt(message: &str) -> (r: String)
    ensures
        r@ == prompt_for(message@),
{
    let mut p = String::from_str(PROMPT_HEAD);
    p.append(message);
    p.append(PROMPT_TAIL);
    p
}

/// The first step of an extraction: the template's event where it matches,
/// else the prompt for the model.
pub fn begin_extraction(message: &str) -> (r: Extraction)
    ensures
        match r {
            Extraction::Resolved(e) => {
                &&& pattern_event(message@) == Some(e@)
                &&& model_prompts(message@).len() == 0
            },
            Extraction::AskModel(p) => {
                &&& pattern_event(message@) is None
                &&& model_prompts(message@) == seq![p@]
            },
        },
{
    match simple_parse(message) {
        Some(e) => Extraction::Resolved(e),
        None => Extraction::AskModel(build_prompt(message)),
    }
}

/// The model-assisted step on the model's text: cuts out the JSON candidate
/// and checks its structure.
pub fn parse_model_text(text: &str) -> (r: Result<ParsedEvent, ExtractionError>)
    ensures
        outcome_view(r) == text_outcome(text@),
{
    match extract_json(text) {
        Ok(candidate) => decode_record(candidate.as_str()),
        Err(e) => Err(e),
    }
}

/// The last step of an extraction: the outcome for what the model service
/// sent back. It never asks the model again.
pub fn finish_extraction(reply: &ModelReply) -> (r: Result<ParsedEvent, ExtractionError>)
    ensures
        outcome_view(r) == model_outcome(*reply),
{
    match reply {
        ModelReply::Unreachable => Err(ExtractionError::ModelUnreachable),
        ModelReply::Replied(body) => match response_text(body.as_str()) {
            Ok(text) => parse_model_text(text.as_str()),
            Err(e) => Err(e),
        },
    }
}

/// The chat reply for an outcome. Every failure gives the same help text.
pub fn chat_reply(outcome: &Result<ParsedEvent, ExtractionError>) -> (r: String)
    ensures
        r@ == reply_for(outcome_view(*outcome)),
{
    match outcome {
        Ok(e) => {
            let mut r = String::from_str(CONFIRM_HEAD);
            r.append(e.title.as_str());
            r
        },
        Err(_) => String::from_str(HELP_REPLY),
    }
}

/// A message that the template matches is resolved without the model, as an
/// event whose type is the captured category in lower case and whose date is
/// the captured date.
pub proof fn lemma_template_match_resolves(message: Seq<char>, category: Seq<char>, date: Seq<char>)
    requires
        regex_captures(EVENT_TEMPLATE@, message) == Some((category, date)),
    ensures
        model_prompts(message).len() == 0,
        pattern_event(message) is Some,
        pattern_event(message)->Some_0.event_type == lower_of(category),
        pattern_event(message)->Some_0.date == date,
{
}

/// A message that the template does not match is left to the model, which
/// is sent exactly one prompt: the message in the instruction. What comes
/// back ends the extraction (`finish_extraction` asks nothing more).
pub proof fn lemma_no_match_asks_model_once(message: Seq<char>)
    requires
        regex_captures(EVENT_TEMPLATE@, message) is None,
    ensures
        model_prompts(message).len() == 1,
        model_prompts(message)[0] == prompt_for(message),
{
}

/// When the model service cannot be reached, the extraction fails with
/// `ModelUnreachable` and the chat reply is the help text.
pub proof fn lemma_unreachable_gives_help()
    ensures
        model_outcome(ModelReply::Unreachable) == Err::<EventView, ExtractionError>(ExtractionError::ModelUnreachable),
        reply_for(model_outcome(ModelReply::Unreachable)) == HELP_REPLY@,
{
}

/// When the model's text holds no `{` before a `}`, the extraction fails
/// with `NoJsonFound`.
pub proof fn lemma_no_braces_no_json(body: String, text: Seq<char>)
    requires
        envelope_text(body@) == Some(text),
        !has_brace_pair(text),
    ensures
        model_outcome(ModelReply::Replied(body)) == Err::<EventView, ExtractionError>(ExtractionError::NoJsonFound),
{
}

} // verus!
