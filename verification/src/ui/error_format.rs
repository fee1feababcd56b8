//! What is shown of an error: its message taken apart into headed sections.
//!
//! An error of the model's service carries, inside its message, the status of
//! the answer and often a JSON document that says what went wrong. The
//! sections bring out the parts that matter to the operator.
use crate::json::{json_document, JsonValue};
use crate::text::{
    contains, digits_value, find, find_char, first_occurrence, is_number, is_substring,
    last_offset, lines, lines_of, offset_of, rfind_char, slice, texts, to_chars, trim, trimmed,
};
use vstd::prelude::*;
use vstd::string::*;

verus! {

/// The colour that the body of a section is shown in.
#[derive(Debug, Clone, Copy, PartialEq, Eq, Structural)]
pub enum Tone {
    Red,
    Yellow,
}

/// One section of what is shown: a heading, and below it the body, set in by
/// two blanks. A section that is `spaced` is followed by an empty line.
#[derive(Debug)]
pub struct Section {
    pub title: &'static str,
    pub body: String,
    pub tone: Tone,
    pub spaced: bool,
}

/// A [`Section`] with its texts as sequences of characters.
pub struct SectionView {
    pub title: Seq<char>,
    pub body: Seq<char>,
    pub tone: Tone,
    pub spaced: bool,
}

impl View for Section {
    type V = SectionView;

    open spec fn view(&self) -> SectionView {
        SectionView { title: self.title@, body: self.body@, tone: self.tone, spaced: self.spaced }
    }
}

/// The views of a row of sections.
pub open spec fn sections_view(sections: Seq<Section>) -> Seq<SectionView> {
    sections.map_values(|section: Section| section@)
}

/// The section `title` with the body `body`, if there is one.
pub open spec fn optional_section(title: Seq<char>, body: Option<Seq<char>>, tone: Tone) -> Seq<
    SectionView,
> {
    match body {
        Some(text) => seq![SectionView { title, body: text, tone, spaced: true }],
        None => Seq::empty(),
    }
}

/// The section `title` with the body `body`, unless the body is empty.
pub open spec fn filled_section(title: Seq<char>, body: Seq<char>, tone: Tone) -> Seq<SectionView> {
    if body.len() > 0 {
        seq![SectionView { title, body, tone, spaced: true }]
    } else {
        Seq::empty()
    }
}

/// The code of an error, as it is shown: a whole number that is not
/// negative, or a text.
pub open spec fn code_text(code: JsonValue) -> Option<Seq<char>> {
    match code {
        JsonValue::Number(number) => if digits_value(number@) is Some {
            Some(number@)
        } else {
            None
        },
        JsonValue::String(text) => Some(text@),
        _ => None,
    }
}

/// What is shown of the member `error` of a document: its message, its code,
/// its type and the provider that it names, each if it is there.
pub open spec fn error_sections(error: JsonValue) -> Seq<SectionView> {
    optional_section("Message:"@, error.text_member("message"@), Tone::Red) + optional_section(
        "Error Code:"@,
        match error.member("code"@) {
            Some(code) => code_text(code),
            None => None,
        },
        Tone::Yellow,
    ) + optional_section("Error Type:"@, error.text_member("type"@), Tone::Yellow)
        + optional_section(
        "Provider:"@,
        match error.member("metadata"@) {
            Some(metadata) => metadata.text_member("provider_name"@),
            None => None,
        },
        Tone::Yellow,
    )
}

/// What is shown of a document found in an error message, where `text` is
/// the document as it stands in the message: the parts of its member `error`,
/// or the whole document where it has no such member.
pub open spec fn document_sections(document: JsonValue, text: Seq<char>) -> Seq<SectionView> {
    match document.member("error"@) {
        Some(error) => error_sections(error),
        None => seq![SectionView { title: "Details:"@, body: text, tone: Tone::Red, spaced: true }],
    }
}

/// Whether a message is shown of the document.
pub open spec fn shows_message(document: JsonValue) -> bool {
    document.member("error"@) matches Some(error) && error.text_member("message"@) is Some
}

/// The part of `s` that may be a JSON document: from its first `{` to its
/// last `}`, if they stand in this order.
pub open spec fn located_json(s: Seq<char>) -> Option<Seq<char>> {
    let open = offset_of(s, '{');
    if open < s.len() && s.contains('}') && open <= last_offset(s, '}') {
        Some(s.subrange(open, last_offset(s, '}') + 1))
    } else {
        None
    }
}

/// What is shown of the JSON document in `s`, if one is found there.
pub open spec fn found_sections(s: Seq<char>) -> Seq<SectionView> {
    match located_json(s) {
        Some(text) => match json_document(text) {
            Some(document) => document_sections(document, text),
            None => Seq::empty(),
        },
        None => Seq::empty(),
    }
}

/// Whether a JSON document is found in `s` of which a message is shown.
pub open spec fn found_message(s: Seq<char>) -> bool {
    located_json(s) matches Some(text) && (json_document(text) matches Some(document)
        && shows_message(document))
}

/// What follows the first colon of `s`, without the white space around it;
/// empty where `s` holds no colon.
pub open spec fn after_colon(s: Seq<char>) -> Seq<char> {
    let colon = offset_of(s, ':');
    if colon < s.len() {
        trimmed(s.skip(colon + 1))
    } else {
        Seq::empty()
    }
}

/// The first line of `text`, or `text` itself where it has no line.
pub open spec fn first_line(text: Seq<char>) -> Seq<char> {
    if lines_of(text).len() > 0 {
        lines_of(text)[0]
    } else {
        text
    }
}

/// The status of an answer: what stands between the first `(` of `s` and the
/// first `)` after it.
pub open spec fn status_of(s: Seq<char>) -> Option<Seq<char>> {
    let open = offset_of(s, '(');
    if open < s.len() {
        let close = offset_of(s.skip(open), ')');
        if close < s.len() - open {
            Some(s.subrange(open + 1, open + close))
        } else {
            None
        }
    } else {
        None
    }
}

/// What is shown of an answer that could not be read. The message names what
/// the parser said and, after `Response body:`, the answer itself.
pub open spec fn unread_report(s: Seq<char>) -> Seq<SectionView> {
    let colon = offset_of(s, ':');
    if colon >= s.len() {
        Seq::empty()
    } else if is_substring(s, "Response body:"@) {
        let body_at = first_occurrence(s, "Response body:"@);
        filled_section(
            "Parse Error:"@,
            if colon + 1 <= body_at {
                trimmed(s.subrange(colon + 1, body_at))
            } else {
                Seq::empty()
            },
            Tone::Yellow,
        ) + found_sections(trimmed(s.skip(body_at + 14)))
    } else {
        filled_section("Message:"@, after_colon(s), Tone::Red)
    }
}

/// What is shown of an answer with a status other than success: the status,
/// what the JSON document in the message says, and, where that shows no
/// message, the first line of what follows the first colon.
pub open spec fn status_report(s: Seq<char>) -> Seq<SectionView> {
    optional_section("Status:"@, status_of(s), Tone::Yellow) + found_sections(s) + if found_message(
        s,
    ) {
        Seq::empty()
    } else {
        filled_section("Message:"@, first_line(after_colon(s)), Tone::Red)
    }
}

/// What is shown of the error with the message `s`. An error of the model's
/// service is taken apart; of any other, the message is shown as it is.
pub open spec fn report(s: Seq<char>) -> Seq<SectionView> {
    if is_substring(s, "Failed to parse API response"@) {
        unread_report(s)
    } else if is_substring(s, "API error"@) {
        status_report(s)
    } else {
        seq![SectionView { title: "Description:"@, body: s, tone: Tone::Red, spaced: false }]
    }
}

fn push_section(sections: &mut Vec<Section>, title: &'static str, body: Option<String>, tone: Tone)
    ensures
        sections_view(final(sections)@) == sections_view(old(sections)@) + optional_section(
            title@,
            match body {
                Some(text) => Some(text@),
                None => None,
            },
            tone,
        ),
{
    if let Some(text) = body {
        sections.push(Section { title, body: text, tone, spaced: true });
    }
}

fn push_filled(sections: &mut Vec<Section>, title: &'static str, body: String, tone: Tone)
    ensures
        sections_view(final(sections)@) == sections_view(old(sections)@) + filled_section(
            title@,
            body@,
            tone,
        ),
{
    if body.as_str().unicode_len() > 0 {
        sections.push(Section { title, body, tone, spaced: true });
    }
}

fn owned(text: Option<&str>) -> (r: Option<String>)
    ensures
        match (r, text) {
            (Some(a), Some(b)) => a@ == b@,
            (None, None) => true,
            _ => false,
        },
{
    match text {
        Some(t) => Some(String::from_str(t)),
        None => None,
    }
}

fn code_of(error: &JsonValue) -> (text: Option<String>)
    ensures
        (match text {
            Some(t) => Some(t@),
            None => None,
        }) == (match error.member("code"@) {
            Some(code) => code_text(code),
            None => None,
        }),
{
    match error.get("code") {
        Some(JsonValue::Number(number)) => {
            if is_number(number.as_str()) {
                Some(number.clone())
            } else {
                None
            }
        },
        Some(JsonValue::String(text)) => Some(text.clone()),
        _ => None,
    }
}

/// What is shown of the member `error` of a document.
pub fn extract_error_from_json(error: &JsonValue) -> (sections: Vec<Section>)
    ensures
        sections_view(sections@) == error_sections(*error),
{
    let mut sections: Vec<Section> = Vec::new();
    push_section(&mut sections, "Message:", owned(error.get_str("message")), Tone::Red);
    push_section(&mut sections, "Error Code:", code_of(error), Tone::Yellow);
    push_section(&mut sections, "Error Type:", owned(error.get_str("type")), Tone::Yellow);
    let provider = match error.get("metadata") {
        Some(metadata) => owned(metadata.get_str("provider_name")),
        None => None,
    };
    push_section(&mut sections, "Provider:", provider, Tone::Yellow);
    sections
}

fn locate_json(chars: &Vec<char>) -> (found: Option<String>)
    ensures
        (match found {
            Some(text) => Some(text@),
            None => None,
        }) == located_json(chars@),
{
    match find_char(chars, '{') {
        Some(open) => match rfind_char(chars, '}') {
            Some(close) => {
                if open <= close {
                    Some(slice(chars, open, close + 1))
                } else {
                    None
                }
            },
            None => None,
        },
        None => None,
    }
}

/// What is shown of the JSON document in `chars`, and whether a message is
/// shown of it.
fn found_in(chars: &Vec<char>) -> (r: (Vec<Section>, bool))
    ensures
        sections_view(r.0@) == found_sections(chars@),
        r.1 == found_message(chars@),
{
    let nothing: Vec<Section> = Vec::new();
    let text = match locate_json(chars) {
        Some(text) => text,
        None => {
            return (nothing, false);
        },
    };
    let document = match JsonValue::parse(text.as_str()) {
        Ok(document) => document,
        Err(_) => {
            return (nothing, false);
        },
    };
    match document.get("error") {
        Some(error) => {
            let shown = error.get_str("message").is_some();
            (extract_error_from_json(error), shown)
        },
        None => {
            let mut sections: Vec<Section> = Vec::new();
            sections.push(Section { title: "Details:", body: text, tone: Tone::Red, spaced: true });
            (sections, false)
        },
    }
}

fn append(sections: &mut Vec<Section>, more: Vec<Section>)
    ensures
        sections_view(final(sections)@) == sections_view(old(sections)@) + sections_view(more@),
{
    let mut more = more;
    sections.append(&mut more);
}

fn skip_trimmed(chars: &Vec<char>, from: usize) -> (text: String)
    requires
        from <= chars.len(),
    ensures
        text@ == trimmed(chars@.skip(from as int)),
{
    let rest = slice(chars, from, chars.len());
    trim(rest.as_str())
}

fn text_after_colon(chars: &Vec<char>) -> (text: String)
    ensures
        text@ == after_colon(chars@),
{
    match find_char(chars, ':') {
        Some(colon) => skip_trimmed(chars, colon + 1),
        None => String::new(),
    }
}

fn unread(chars: &Vec<char>) -> (sections: Vec<Section>)
    ensures
        sections_view(sections@) == unread_report(chars@),
{
    let mut sections: Vec<Section> = Vec::new();
    let colon = match find_char(chars, ':') {
        Some(colon) => colon,
        None => {
            return sections;
        },
    };
    match find(chars, "Response body:") {
        Some(body_at) => {
            proof {
                reveal_strlit("Response body:");
            }
            let parse_error = if colon + 1 <= body_at {
                let between = slice(chars, colon + 1, body_at);
                trim(between.as_str())
            } else {
                String::new()
            };
            push_filled(&mut sections, "Parse Error:", parse_error, Tone::Yellow);
            let body = skip_trimmed(chars, body_at + 14);
            let body_chars = to_chars(body.as_str());
            let (found, _) = found_in(&body_chars);
            append(&mut sections, found);
            sections
        },
        None => {
            push_filled(&mut sections, "Message:", text_after_colon(chars), Tone::Red);
            sections
        },
    }
}

fn status(chars: &Vec<char>) -> (found: Option<String>)
    ensures
        (match found {
            Some(text) => Some(text@),
            None => None,
        }) == status_of(chars@),
{
    match find_char(chars, '(') {
        Some(open) => {
            let rest = slice(chars, open, chars.len());
            let rest_chars = to_chars(rest.as_str());
            match find_char(&rest_chars, ')') {
                Some(close) => {
                    assert(close >= 1) by {
                        crate::text::lemma_offset_of(chars@, '(');
                        if close == 0 {
                            crate::text::lemma_offset_of(rest_chars@, ')');
                        }
                    }
                    Some(slice(chars, open + 1, open + close))
                },
                None => None,
            }
        },
        None => None,
    }
}

fn first_line_of(text: String) -> (line: String)
    ensures
        line@ == first_line(text@),
{
    let all = lines(text.as_str());
    if all.len() > 0 {
        all[0].clone()
    } else {
        text
    }
}

fn with_status(chars: &Vec<char>) -> (sections: Vec<Section>)
    ensures
        sections_view(sections@) == status_report(chars@),
{
    let mut sections: Vec<Section> = Vec::new();
    push_section(&mut sections, "Status:", status(chars), Tone::Yellow);
    let (found, shown) = found_in(chars);
    append(&mut sections, found);
    if !shown {
        let message = first_line_of(text_after_colon(chars));
        push_filled(&mut sections, "Message:", message, Tone::Red);
    }
    sections
}

/// What is shown of the error with the message `message`.
pub fn format_error(message: &str) -> (sections: Vec<Section>)
    ensures
        sections_view(sections@) == report(message@),
{
    let chars = to_chars(message);
    if contains(message, "Failed to parse API response") {
        unread(&chars)
    } else if contains(message, "API error") {
        with_status(&chars)
    } else {
        let mut sections: Vec<Section> = Vec::new();
        sections.push(
            Section {
                title: "Description:",
                body: String::from_str(message),
                tone: Tone::Red,
                spaced: false,
            },
        );
        sections
    }
}

} // verus!
