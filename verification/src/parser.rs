//! From the raw text of a model's answer to a suggestion.
//!
//! The text is decoded as it stands. Where that fails, the answer may be
//! wrapped in a fenced block or in prose: the fence is taken off, the span
//! from the first `{` to the last `}` is cut out, and that span is decoded
//! instead. Taking off the fence never takes a brace, so a span with no
//! `{` before it and no `}` after it is always found.

use crate::json::{document, first_mark, json_fault, Json, JsonValue};
use crate::suggestion::{severity_of, CommandSuggestion, Severity, SuggestionView};
use crate::text::{
    chars_of, ends_with_fence, fence, first_position, last_position, starts_with_fence,
};
use vstd::prelude::*;

verus! {

/// Why a text holds no suggestion.
#[derive(Debug)]
pub enum DecodeError {
    /// The text is not JSON. Holds the decoder's message.
    Syntax(String),
    /// The text is JSON, but not an object.
    NotAnObject,
    /// The object names no command: the member is missing, is not a string,
    /// or is empty.
    NoCommand,
    /// A member that may be left out is there, but is not a string.
    NotText,
}

/// The mathematical form of a [`DecodeError`].
pub ghost enum DecodeErrorView {
    Syntax(Seq<char>),
    NotAnObject,
    NoCommand,
    NotText,
}

impl View for DecodeError {
    type V = DecodeErrorView;

    open spec fn view(&self) -> DecodeErrorView {
        match self {
            DecodeError::Syntax(m) => DecodeErrorView::Syntax(m@),
            DecodeError::NotAnObject => DecodeErrorView::NotAnObject,
            DecodeError::NoCommand => DecodeErrorView::NoCommand,
            DecodeError::NotText => DecodeErrorView::NotText,
        }
    }
}

/// The words that tell of a decode error.
pub open spec fn decode_error_text(error: DecodeErrorView) -> Seq<char> {
    match error {
        DecodeErrorView::Syntax(m) => m,
        DecodeErrorView::NotAnObject => "expected a JSON object"@,
        DecodeErrorView::NoCommand => "missing field `command`"@,
        DecodeErrorView::NotText => "invalid type: expected a string"@,
    }
}

impl DecodeError {
    /// The words that tell of the error.
    pub fn describe(&self) -> (r: String)
        ensures
            r@ == decode_error_text(self@),
    {
        match self {
            DecodeError::Syntax(m) => m.clone(),
            DecodeError::NotAnObject => String::from_str("expected a JSON object"),
            DecodeError::NoCommand => String::from_str("missing field `command`"),
            DecodeError::NotText => String::from_str("invalid type: expected a string"),
        }
    }
}

/// A text that held no suggestion, even after recovery.
#[derive(Debug)]
pub struct ParseFailure {
    /// Why the text as it stood could not be decoded.
    pub error: DecodeError,
    /// The beginning of the text, at most [`SNIPPET_CHARS`] characters.
    pub snippet: String,
}

/// The mathematical form of a [`ParseFailure`].
pub ghost struct ParseFailureView {
    pub error: DecodeErrorView,
    pub snippet: Seq<char>,
}

impl View for ParseFailure {
    type V = ParseFailureView;

    open spec fn view(&self) -> ParseFailureView {
        ParseFailureView { error: self.error@, snippet: self.snippet@ }
    }
}

/// The line that tells the user of a parse failure.
pub open spec fn parse_failure_message(failure: ParseFailureView) -> Seq<char> {
    "Failed to parse command suggestion: "@ + decode_error_text(failure.error)
}

impl ParseFailure {
    /// The line that tells the user of the failure.
    pub fn message(&self) -> (r: String)
        ensures
            r@ == parse_failure_message(self@),
    {
        String::from_str("Failed to parse command suggestion: ").concat(
            self.error.describe().as_str(),
        )
    }
}

/// How many characters of an undecodable text a failure keeps.
pub const SNIPPET_CHARS: usize = 80;

/// The text of a member that may be left out: empty where the member is
/// missing, `None` where it holds anything but a string.
pub open spec fn optional_text(doc: JsonValue, key: Seq<char>) -> Option<Seq<char>> {
    match doc.member(key) {
        Some(value) => value.text(),
        None => Some(Seq::empty()),
    }
}

/// The suggestion that a JSON document describes.
///
/// The document is an object whose `command` is a string that is not empty.
/// `description`, `explanation`, `severity` and `severity_description` may
/// be left out and are then empty; other members are passed over.
pub open spec fn record(doc: JsonValue) -> Result<SuggestionView, DecodeErrorView> {
    if !(doc is Object) {
        Err(DecodeErrorView::NotAnObject)
    } else if doc.text_member("command"@) is None || doc.text_member("command"@)->0.len() == 0 {
        Err(DecodeErrorView::NoCommand)
    } else if optional_text(doc, "description"@) is None || optional_text(doc, "explanation"@) is None
        || optional_text(doc, "severity"@) is None || optional_text(doc, "severity_description"@) is None {
        Err(DecodeErrorView::NotText)
    } else {
        Ok(
            SuggestionView {
                command: doc.text_member("command"@)->0,
                description: optional_text(doc, "description"@)->0,
                explanation: optional_text(doc, "explanation"@)->0,
                severity: severity_of(optional_text(doc, "severity"@)->0),
                severity_description: optional_text(doc, "severity_description"@)->0,
            },
        )
    }
}

/// The suggestion that `text` holds when it is decoded as it stands.
pub open spec fn decoded(text: Seq<char>) -> Result<SuggestionView, DecodeErrorView> {
    match document(text) {
        Some(doc) => record(doc),
        None => Err(DecodeErrorView::Syntax(json_fault(text))),
    }
}

/// How many characters the opening fence of `text` takes: none where the
/// text begins with no fence; the whole first line where the line ends
/// before the first `{`, or where there is no `{`; else what stands before
/// the first `{`, the backticks and a label; and the three backticks where
/// there is neither a line end nor a `{`. It never reaches past the first
/// `{`.
pub open spec fn opening_fence_len(text: Seq<char>) -> int {
    if !fence().is_prefix_of(text) {
        0
    } else {
        match (text.index_of_first('\n'), text.index_of_first('{')) {
            (Some(end), Some(open)) => if end < open {
                end + 1
            } else {
                open
            },
            (Some(end), None) => end + 1,
            (None, Some(open)) => open,
            (None, None) => 3,
        }
    }
}

/// `text` without its opening fence.
pub open spec fn without_opening_fence(text: Seq<char>) -> Seq<char> {
    text.skip(opening_fence_len(text))
}

/// `text` without its last three characters, where they are a fence.
pub open spec fn without_closing_fence(text: Seq<char>) -> Seq<char> {
    if fence().is_suffix_of(text) {
        text.take(text.len() - 3)
    } else {
        text
    }
}

/// `text` with the fence taken off at both ends.
pub open spec fn strip_fence(text: Seq<char>) -> Seq<char> {
    without_closing_fence(without_opening_fence(text))
}

/// The span of `text` from its first `{` to its last `}`, where the second
/// comes after the first.
pub open spec fn brace_span(text: Seq<char>) -> Option<Seq<char>> {
    match (text.index_of_first('{'), text.index_of_last('}')) {
        (Some(open), Some(close)) => if open < close {
            Some(text.subrange(open, close + 1))
        } else {
            None
        },
        _ => None,
    }
}

/// What recovery decodes in place of `text`.
pub open spec fn candidate(text: Seq<char>) -> Option<Seq<char>> {
    brace_span(strip_fence(text))
}

/// The beginning of `text` that a failure keeps.
pub open spec fn snippet_of(text: Seq<char>) -> Seq<char> {
    if text.len() <= SNIPPET_CHARS {
        text
    } else {
        text.take(SNIPPET_CHARS as int)
    }
}

/// The failure reported for `text`: the error of decoding it as it stands,
/// and its beginning.
pub open spec fn failure_of(text: Seq<char>, error: DecodeErrorView) -> ParseFailureView {
    ParseFailureView { error, snippet: snippet_of(text) }
}

/// The result of parsing `text`.
pub open spec fn parsed(text: Seq<char>) -> Result<SuggestionView, ParseFailureView> {
    match decoded(text) {
        Ok(s) => Ok(s),
        Err(first) => match candidate(text) {
            Some(span) => match decoded(span) {
                Ok(s) => Ok(s),
                Err(_) => Err(failure_of(text, first)),
            },
            None => Err(failure_of(text, first)),
        },
    }
}

/// `body` inside a fenced block: a fence and a label on the first line, the
/// body, and a fence on a line of its own.
pub open spec fn fenced(label: Seq<char>, body: Seq<char>) -> Seq<char> {
    fence() + label + seq!['\n'] + body + seq!['\n'] + fence()
}

/// Whether `text` runs from a `{` to a `}`.
pub open spec fn in_braces(text: Seq<char>) -> bool {
    text.len() >= 2 && text[0] == '{' && text.last() == '}'
}

/// Taking off the opening fence never takes a brace: what it takes ends
/// at the first `{` at the latest.
pub proof fn lemma_fence_spares_braces(text: Seq<char>)
    ensures
        0 <= opening_fence_len(text) <= text.len(),
        text.index_of_first('{') matches Some(open) ==> opening_fence_len(text) <= open,
{
    text.index_of_first_ensures('\n');
    text.index_of_first_ensures('{');
    if fence().is_prefix_of(text) {
        assert(text.subrange(0, 3).len() == 3);
    }
}

/// After a text without `{` and before a text without `}`, a text in
/// braces is the brace span.
proof fn lemma_brace_span(before: Seq<char>, span: Seq<char>, after: Seq<char>)
    requires
        in_braces(span),
        !before.contains('{'),
        !after.contains('}'),
    ensures
        (before + span + after).index_of_first('{') == Some(before.len() as int),
        brace_span(before + span + after) == Some(span),
{
    let text = before + span + after;
    let open = before.len() as int;
    let close = open + span.len() - 1;
    text.index_of_first_ensures('{');
    text.index_of_last_ensures('}');
    assert(text[open] == span[0]);
    assert(text[close] == span.last());
    assert(text.contains('{'));
    assert(text.contains('}'));
    assert forall|j: int| 0 <= j < open implies text[j] != '{' by {
        assert(text[j] == before[j]);
    }
    assert forall|j: int| close < j < text.len() implies text[j] != '}' by {
        assert(text[j] == after[j - open - span.len()]);
    }
    assert(text.index_of_first('{') == Some(open));
    assert(text.index_of_last('}') == Some(close));
    assert(text.subrange(open, close + 1) =~= span);
}

/// Recovery finds a text in braces wherever no `{` stands before it and
/// no `}` after it, fenced or not, and parsing then succeeds wherever the
/// span holds a suggestion: with the span's suggestion where the text as
/// it stands holds none.
pub proof fn lemma_span_is_recovered(before: Seq<char>, span: Seq<char>, after: Seq<char>)
    requires
        in_braces(span),
        !before.contains('{'),
        !after.contains('}'),
    ensures
        candidate(before + span + after) == Some(span),
        decoded(span) is Ok ==> parsed(before + span + after) is Ok,
        decoded(span) is Ok && decoded(before + span + after) is Err ==> parsed(
            before + span + after,
        ) == Ok::<SuggestionView, ParseFailureView>(decoded(span)->Ok_0),
{
    let text = before + span + after;
    lemma_brace_span(before, span, after);
    lemma_fence_spares_braces(text);
    let cut = opening_fence_len(text);
    let kept = before.skip(cut);
    let opened = without_opening_fence(text);
    assert(opened =~= kept + span + after);
    assert(!kept.contains('{')) by {
        assert forall|j: int| 0 <= j < kept.len() implies kept[j] != '{' by {
            assert(kept[j] == before[j + cut]);
        }
    }
    let body = without_closing_fence(opened);
    let tail = if fence().is_suffix_of(opened) {
        let n = opened.len() as int;
        assert(opened.subrange(n - 3, n) == fence());
        if after.len() < 3 {
            let at = kept.len() + span.len() - 1;
            assert(opened[at] == span.last());
            assert(opened.subrange(n - 3, n)[at - (n - 3)] == opened[at]);
            assert(fence()[at - (n - 3)] == '`');
            assert(false);
        }
        after.take(after.len() - 3)
    } else {
        after
    };
    assert(body =~= kept + span + tail);
    assert(!tail.contains('}')) by {
        assert forall|j: int| 0 <= j < tail.len() implies tail[j] != '}' by {
            assert(tail[j] == after[j]);
        }
    }
    lemma_brace_span(kept, span, tail);
}

/// A fenced block is transparent: a JSON object wrapped in one parses to
/// the suggestion that the object alone parses to, and fails where the
/// object alone fails.
pub proof fn lemma_fence_is_transparent(label: Seq<char>, body: Seq<char>)
    requires
        in_braces(body),
        !label.contains('{'),
    ensures
        candidate(fenced(label, body)) == candidate(body),
        parsed(fenced(label, body)) is Ok <==> parsed(body) is Ok,
        parsed(body) is Ok ==> parsed(fenced(label, body)) == parsed(body),
{
    let text = fenced(label, body);
    let before = fence() + label + seq!['\n'];
    let after = seq!['\n'] + fence();
    assert(text =~= before + body + after);
    assert(!before.contains('{')) by {
        assert forall|j: int| 0 <= j < before.len() implies before[j] != '{' by {
            if 3 <= j < 3 + label.len() {
                assert(before[j] == label[j - 3]);
            }
        }
    }
    assert(!after.contains('}'));
    lemma_span_is_recovered(before, body, after);
    // The wrapped text begins with a backtick, which begins no JSON value.
    assert(text[0] == '`');
    assert(first_mark(text) == Some('`'));
    assert(decoded(text) is Err);
    // The object alone is its own recovery candidate.
    let none = Seq::<char>::empty();
    assert(none + body + none =~= body);
    lemma_span_is_recovered(none, body, none);
}

/// The text of a member that may be left out.
fn read_optional(doc: &Json, key: &str) -> (r: Option<String>)
    ensures
        match r {
            Some(s) => optional_text(doc@, key@) == Some(s@),
            None => optional_text(doc@, key@) is None,
        },
{
    match doc.member(key) {
        Some(value) => match value.text() {
            Some(s) => Some(s.clone()),
            None => None,
        },
        None => Some(String::new()),
    }
}

/// The suggestion that a JSON document describes.
pub fn suggestion_from(doc: &Json) -> (r: Result<CommandSuggestion, DecodeError>)
    ensures
        match r {
            Ok(s) => record(doc@) == Ok::<SuggestionView, DecodeErrorView>(s@),
            Err(e) => record(doc@) == Err::<SuggestionView, DecodeErrorView>(e@),
        },
{
    match doc {
        Json::Object(_) => {},
        _ => {
            return Err(DecodeError::NotAnObject);
        },
    }
    let command = match doc.text_member("command") {
        Some(c) => c.clone(),
        None => {
            return Err(DecodeError::NoCommand);
        },
    };
    if command.as_str().is_empty() {
        return Err(DecodeError::NoCommand);
    }
    let description = read_optional(doc, "description");
    let explanation = read_optional(doc, "explanation");
    let severity = read_optional(doc, "severity");
    let severity_description = read_optional(doc, "severity_description");
    match (description, explanation, severity, severity_description) {
        (Some(description), Some(explanation), Some(severity), Some(severity_description)) => Ok(
            CommandSuggestion {
                command,
                description,
                explanation,
                severity: Severity::from_text(severity.as_str()),
                severity_description,
            },
        ),
        _ => Err(DecodeError::NotText),
    }
}

/// Decodes `text` as it stands.
pub fn decode_suggestion(text: &str) -> (r: Result<CommandSuggestion, DecodeError>)
    ensures
        match r {
            Ok(s) => decoded(text@) == Ok::<SuggestionView, DecodeErrorView>(s@),
            Err(e) => decoded(text@) == Err::<SuggestionView, DecodeErrorView>(e@),
        },
{
    match Json::decode(text) {
        Ok(doc) => suggestion_from(&doc),
        Err(message) => Err(DecodeError::Syntax(message)),
    }
}

/// What recovery decodes in place of `text`.
pub fn recovery_candidate(text: &str) -> (r: Option<String>)
    ensures
        match r {
            Some(span) => candidate(text@) == Some(span@),
            None => candidate(text@) is None,
        },
{
    let all = chars_of(text);
    proof {
        lemma_fence_spares_braces(text@);
    }
    let cut: usize = if starts_with_fence(&all) {
        match (first_position(&all, '\n'), first_position(&all, '{')) {
            (Some(end), Some(open)) => if end < open {
                end + 1
            } else {
                open
            },
            (Some(end), None) => end + 1,
            (None, Some(open)) => open,
            (None, None) => 3,
        }
    } else {
        0
    };
    proof {
        assert(text@.subrange(cut as int, all@.len() as int) =~= text@.skip(cut as int));
    }
    let opened: &str = text.substring_char(cut, all.len());
    let rest = chars_of(opened);
    let body: &str = if ends_with_fence(&rest) {
        opened.substring_char(0, rest.len() - 3)
    } else {
        opened
    };
    span_in_braces(body)
}

/// The span of `text` from its first `{` to its last `}`.
pub fn span_in_braces(text: &str) -> (r: Option<String>)
    ensures
        match r {
            Some(span) => brace_span(text@) == Some(span@),
            None => brace_span(text@) is None,
        },
{
    let all = chars_of(text);
    match (first_position(&all, '{'), last_position(&all, '}')) {
        (Some(open), Some(close)) => if open < close {
            Some(text.substring_char(open, close + 1).to_owned())
        } else {
            None
        },
        _ => None,
    }
}

/// The beginning of `text` that a failure keeps.
fn snippet(text: &str) -> (r: String)
    ensures
        r@ == snippet_of(text@),
{
    let n = text.unicode_len();
    if n <= SNIPPET_CHARS {
        text.to_owned()
    } else {
        proof {
            assert(text@.subrange(0, SNIPPET_CHARS as int) =~= text@.take(SNIPPET_CHARS as int));
        }
        text.substring_char(0, SNIPPET_CHARS).to_owned()
    }
}

/// Reads a suggestion from the raw text of a model's answer.
///
/// The text is decoded as it stands; where that fails, the recovery
/// candidate is decoded. A failure carries the error of the first decode
/// and the beginning of the text.
pub fn parse_suggestion(raw: &str) -> (r: Result<CommandSuggestion, ParseFailure>)
    ensures
        match r {
            Ok(s) => parsed(raw@) == Ok::<SuggestionView, ParseFailureView>(s@) && s@.well_formed(),
            Err(f) => parsed(raw@) == Err::<SuggestionView, ParseFailureView>(f@),
        },
{
    let first = match decode_suggestion(raw) {
        Ok(s) => {
            return Ok(s);
        },
        Err(e) => e,
    };
    match recovery_candidate(raw) {
        Some(span) => match decode_suggestion(span.as_str()) {
            Ok(s) => Ok(s),
            Err(_) => Err(ParseFailure { error: first, snippet: snippet(raw) }),
        },
        None => Err(ParseFailure { error: first, snippet: snippet(raw) }),
    }
}

} // verus!
