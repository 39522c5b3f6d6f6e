use vstd::prelude::*;
use crate::event::{EventView, ParsedEvent};

verus! {

/// The deterministic template: "add {category} on {YYYY-MM-DD}", any case.
pub const EVENT_TEMPLATE: &'static str = "(?i)add (workshop|test|bootcamp|seminar) on (\\d{4}-\\d{2}-\\d{2})";

/// Appended to the capitalized category to make a title.
pub const TITLE_SUFFIX: &'static str = " Event";

/// The description of every event that the template yields.
pub const CHAT_DESCRIPTION: &'static str = "Created via chat";

/// The capital letters, in alphabet order.
pub const CAPITALS: &'static str = "ABCDEFGHIJKLMNOPQRSTUVWXYZ";

/// The two capture groups of the leftmost match of `pattern` in `text`, as the
/// regex crate finds them; `None` where nothing matches.
pub uninterp spec fn regex_captures(pattern: Seq<char>, text: Seq<char>) -> Option<(Seq<char>, Seq<char>)>;

/// What `str::to_lowercase` makes of a text.
pub uninterp spec fn lower_of(s: Seq<char>) -> Seq<char>;

/// Relies on regex::Regex::new and Regex::captures: groups 1 and 2 of the
/// leftmost match, which depend on the pattern and the text alone.
#[verifier::external_body]
fn first_captures(pattern: &str, text: &str) -> (r: Option<(String, String)>)
    ensures
        match r {
            Some(caps) => regex_captures(pattern@, text@) == Some((caps.0@, caps.1@)),
            None => regex_captures(pattern@, text@) is None,
        },
{
    let re = regex::Regex::new(pattern).ok()?;
    let caps = re.captures(text)?;
    let first = caps.get(1)?.as_str().to_string();
    let second = caps.get(2)?.as_str().to_string();
    Some((first, second))
}

/// Relies on str::to_lowercase: the result depends on the characters alone.
#[verifier::external_body]
fn to_lower(s: &str) -> (r: String)
    ensures
        r@ == lower_of(s@),
{
    s.to_lowercase()
}

/// `s` with its first character made a capital when it is an ASCII small letter.
pub open spec fn capitalized(s: Seq<char>) -> Seq<char> {
    if s.len() > 0 && 'a' <= s[0] && s[0] <= 'z' {
        seq![CAPITALS@[s[0] as int - 'a' as int]] + s.drop_first()
    } else {
        s
    }
}

/// The event that the template makes of a lower-case category and a date.
pub open spec fn category_event(category: Seq<char>, date: Seq<char>) -> EventView {
    EventView {
        title: capitalized(category) + TITLE_SUFFIX@,
        event_type: category,
        date: date,
        description: CHAT_DESCRIPTION@,
    }
}

/// The event that the template yields for a message, if it matches.
pub open spec fn pattern_event(message: Seq<char>) -> Option<EventView> {
    match regex_captures(EVENT_TEMPLATE@, message) {
        Some(caps) => Some(category_event(lower_of(caps.0), caps.1)),
        None => None,
    }
}

fn capitalize(s: &str) -> (r: String)
    ensures
        r@ == capitalized(s@),
{
    let n = s.unicode_len();
    if n > 0 {
        let c = s.get_char(0);
        if 'a' <= c && c <= 'z' {
            proof {
                reveal_strlit("ABCDEFGHIJKLMNOPQRSTUVWXYZ");
            }
            let k = (c as u32 - 'a' as u32) as usize;
            assert(k < 26);
            let mut r = String::from_str(CAPITALS.substring_char(k, k + 1));
            r.append(s.substring_char(1, n));
            assert(r@ =~= capitalized(s@));
            return r;
        }
    }
    String::from_str(s)
}

/// The event for a category already in lower case: the category capitalized
/// and followed by " Event" as title, the category as type, the date as it
/// stands, and the fixed chat description.
pub fn category_event_of(category: &str, date: &str) -> (r: ParsedEvent)
    ensures
        r@ == category_event(category@, date@),
{
    let mut title = capitalize(category);
    title.append(TITLE_SUFFIX);
    ParsedEvent {
        title,
        event_type: String::from_str(category),
        date: String::from_str(date),
        description: String::from_str(CHAT_DESCRIPTION),
    }
}

/// The event for the two groups that the template captured: the category is
/// brought to lower case first.
pub fn event_from_captures(category: &str, date: &str) -> (r: ParsedEvent)
    ensures
        r@ == category_event(lower_of(category@), date@),
{
    let lower = to_lower(category);
    category_event_of(lower.as_str(), date)
}

/// Matches the message against the template, case-insensitively. A match
/// gives its event; no match gives `None`, the signal to ask the model.
pub fn simple_parse(message: &str) -> (r: Option<ParsedEvent>)
    ensures
        match r {
            Some(e) => pattern_event(message@) == Some(e@),
            None => pattern_event(message@) is None,
        },
{
    match first_captures(EVENT_TEMPLATE, message) {
        Some(caps) => Some(event_from_captures(caps.0.as_str(), caps.1.as_str())),
        None => None,
    }
}

} // verus!
