//! Turning what the compiler wrote into the lines of a report.
//!
//! The compiler writes one message per line: either plain text, or a JSON
//! object that holds the message as it would be shown to a reader.

use crate::document::{entry, text_at, DocumentModel};
use crate::text::{lines_of, split_lines, texts};
use vstd::prelude::*;

verus! {

#[verifier::external_type_specification]
#[verifier::external_body]
pub struct ExJsonValue(serde_json::Value);

/// The document that `text` decodes to as JSON, or `None` where it is not
/// JSON.
pub uninterp spec fn json_document(text: Seq<char>) -> Option<DocumentModel>;

/// What a decoded JSON value holds.
pub uninterp spec fn json_model(value: serde_json::Value) -> DocumentModel;

/// Decodes a JSON document.
///
/// Trusted: `serde_json::from_str` is a function of the text alone. It fails
/// on text that is not one JSON value, and otherwise returns the value that
/// the text describes.
#[verifier::external_body]
fn json_parse(text: &str) -> (r: Option<serde_json::Value>)
    ensures
        r matches Some(value) ==> json_document(text@) == Some(json_model(value)),
        r is None ==> json_document(text@) is None,
{
    serde_json::from_str::<serde_json::Value>(text).ok()
}

/// Looks a key up in a JSON value.
///
/// Trusted: `serde_json::Value::get` with a string returns the entry under
/// that key where the value is an object that holds it, and `None` for a
/// missing key and for a value that is no object.
#[verifier::external_body]
fn json_get<'a>(value: &'a serde_json::Value, key: &str) -> (r: Option<&'a serde_json::Value>)
    ensures
        r matches Some(inner) ==> entry(json_model(*value), key@) == Some(json_model(*inner)),
        r is None ==> entry(json_model(*value), key@) is None,
{
    value.get(key)
}

/// Reads a JSON value as a string.
///
/// Trusted: `serde_json::Value::as_str` returns the string where the value is
/// one, and `None` for every other kind of value.
#[verifier::external_body]
fn json_as_str<'a>(value: &'a serde_json::Value) -> (r: Option<&'a str>)
    ensures
        r matches Some(s) ==> json_model(*value) == DocumentModel::Text(s@),
        r is None ==> !(json_model(*value) is Text),
{
    value.as_str()
}

/// The message that a record holds as a reader would see it: the string
/// under `rendered`, or else the string under `rendered` in the table under
/// `message`.
pub open spec fn rendering(record: DocumentModel) -> Option<Seq<char>> {
    match entry(record, "rendered"@) {
        Some(DocumentModel::Text(shown)) => Some(shown),
        _ => text_at(record, "message"@, "rendered"@),
    }
}

/// The message that the line `line` holds as a reader would see it, where
/// the line is a record that holds one.
pub open spec fn rendering_in(line: Seq<char>) -> Option<Seq<char>> {
    match json_document(line) {
        Some(record) => rendering(record),
        None => None,
    }
}

/// What one line adds to the report: the lines of the message it holds, or
/// else the line itself.
pub open spec fn report_of(line: Seq<char>, rendered: Option<Seq<char>>) -> Seq<Seq<char>> {
    match rendered {
        Some(shown) => lines_of(shown),
        None => seq![line],
    }
}

/// What the lines `lines` add to the report, one after the other.
pub open spec fn reports_of(lines: Seq<Seq<char>>) -> Seq<Seq<char>>
    decreases lines.len(),
{
    if lines.len() == 0 {
        seq![]
    } else {
        reports_of(lines.drop_last()) + report_of(lines.last(), rendering_in(lines.last()))
    }
}

/// The report for what the compiler wrote.
pub open spec fn diagnostics_of(stream: Seq<char>) -> Seq<Seq<char>> {
    reports_of(lines_of(stream))
}

/// The model of an optional string.
pub open spec fn optional_text(s: Option<String>) -> Option<Seq<char>> {
    match s {
        Some(s) => Some(s@),
        None => None,
    }
}

/// The report for lines written one after the other is the report for the
/// first of them followed by the report for the rest: nothing changes place.
pub proof fn lemma_reports_keep_order(first: Seq<Seq<char>>, rest: Seq<Seq<char>>)
    ensures
        reports_of(first + rest) == reports_of(first) + reports_of(rest),
    decreases rest.len(),
{
    if rest.len() == 0 {
        assert(first + rest =~= first);
        assert(reports_of(first) + reports_of(rest) =~= reports_of(first));
    } else {
        let all = first + rest;
        assert(all.drop_last() =~= first + rest.drop_last());
        assert(all.last() == rest.last());
        lemma_reports_keep_order(first, rest.drop_last());
        let tail = report_of(rest.last(), rendering_in(rest.last()));
        assert(reports_of(first) + (reports_of(rest.drop_last()) + tail) =~= (reports_of(first)
            + reports_of(rest.drop_last())) + tail);
    }
}

/// Lines that hold no message are reported as they are, each once.
pub proof fn lemma_plain_lines_are_kept(lines: Seq<Seq<char>>)
    requires
        forall|i: int| 0 <= i < lines.len() ==> rendering_in(#[trigger] lines[i]) is None,
    ensures
        reports_of(lines) == lines,
    decreases lines.len(),
{
    if lines.len() > 0 {
        let front = lines.drop_last();
        assert forall|i: int| 0 <= i < front.len() implies rendering_in(#[trigger] front[i])
            is None by {
            assert(front[i] == lines[i]);
        }
        lemma_plain_lines_are_kept(front);
        assert(rendering_in(lines[lines.len() - 1]) is None);
        assert(front + seq![lines.last()] =~= lines);
    } else {
        assert(reports_of(lines) =~= lines);
    }
}

/// Puts the models of two lists of strings together.
pub proof fn lemma_texts_of_concatenation(a: Seq<String>, b: Seq<String>)
    ensures
        texts(a + b) == texts(a) + texts(b),
{
    assert(texts(a + b) =~= texts(a) + texts(b));
}

/// Reads the message that a line holds, where it is a record that holds one.
pub fn rendered_in(line: &str) -> (rendered: Option<String>)
    ensures
        optional_text(rendered) == rendering_in(line@),
{
    let record = match json_parse(line) {
        Some(record) => record,
        None => { return None; },
    };
    match json_get(&record, "rendered") {
        Some(shown) => match json_as_str(shown) {
            Some(s) => { return Some(s.to_owned()); },
            None => {},
        },
        None => {},
    }
    match json_get(&record, "message") {
        Some(message) => match json_get(message, "rendered") {
            Some(shown) => match json_as_str(shown) {
                Some(s) => Some(s.to_owned()),
                None => None,
            },
            None => None,
        },
        None => None,
    }
}

/// Gives what one line adds to the report, from the line and the message it
/// holds, if any.
pub fn report_line(line: &str, rendered: &Option<String>) -> (report: Vec<String>)
    ensures
        texts(report@) == report_of(line@, optional_text(*rendered)),
{
    match rendered {
        Some(shown) => split_lines(shown.as_str()),
        None => {
            let mut report: Vec<String> = Vec::new();
            report.push(line.to_owned());
            assert(texts(report@) =~= seq![line@]);
            report
        },
    }
}

/// Turns what the compiler wrote into the lines of a report, in the order
/// in which they were written: a record gives the lines of its message, any
/// other line gives itself.
pub fn parse(stream: &str) -> (report: Vec<String>)
    ensures
        texts(report@) == diagnostics_of(stream@),
{
    let lines = split_lines(stream);
    let mut report: Vec<String> = Vec::new();
    let mut i: usize = 0;
    assert(texts(lines@).take(0) =~= Seq::<Seq<char>>::empty());
    assert(texts(report@) =~= Seq::<Seq<char>>::empty());
    while i < lines.len()
        invariant
            i <= lines.len(),
            texts(lines@) == lines_of(stream@),
            texts(report@) == reports_of(texts(lines@).take(i as int)),
        decreases lines.len() - i,
    {
        let line = lines[i].as_str();
        let rendered = rendered_in(line);
        let mut part = report_line(line, &rendered);
        proof {
            let done = texts(lines@).take(i as int);
            let next = texts(lines@).take(i + 1);
            assert(next.drop_last() =~= done);
            assert(next.last() == line@);
            lemma_texts_of_concatenation(report@, part@);
        }
        report.append(&mut part);
        i += 1;
    }
    assert(texts(lines@).take(lines.len() as int) =~= texts(lines@));
    report
}

} // verus!
