//! Colored-text decoding for display.
//!
//! A log line may carry embedded style-escape sequences.  Decoding turns it
//! into styled text for the frame renderer; when decoding fails the raw text
//! is shown verbatim.  Failure is absorbed here and never escalates.

use ansi_to_tui::IntoText;
use vstd::prelude::*;

verus! {

#[verifier::external_type_specification]
#[verifier::external_body]
pub struct ExText<'a>(ratatui::text::Text<'a>);

/// One log line ready for display: the raw text, plus the styled form where
/// its escape sequences decoded.
pub struct DisplayLine {
    /// The styled form; `None` when decoding failed.
    pub styled: Option<ratatui::text::Text<'static>>,
    /// The raw text, kept whole so the plain fallback strips nothing.
    pub raw: String,
}

/// Whether decoding the style-escape sequences of a line succeeds.  The
/// outcome depends on the line's characters alone.
pub uninterp spec fn ansi_decode_ok(s: Seq<char>) -> bool;

/// Relies on `ansi_to_tui::IntoText::into_text` on the line's bytes: decodes
/// embedded style-escape sequences into owned styled text; a decode error is
/// mapped to `None` here.  Whether decoding succeeds is a function of the
/// line's characters alone.
#[verifier::external_body]
fn ansi_decode(line: &String) -> (r: Option<ratatui::text::Text<'static>>)
    ensures
        r is Some <==> ansi_decode_ok(line@),
{
    match line.as_bytes().into_text() {
        Ok(text) => Some(text),
        Err(_) => None,
    }
}

/// Decodes one log line for display.  The styled form is present exactly
/// when decoding succeeds, and the raw text is always carried along
/// unchanged, so a line whose escape sequences do not decode is displayed
/// verbatim, with no character stripped.
pub fn decode_line(line: String) -> (r: DisplayLine)
    ensures
        r.raw == line,
        r.styled is Some <==> ansi_decode_ok(line@),
{
    let styled = ansi_decode(&line);
    DisplayLine { styled, raw: line }
}

/// Decodes the window `[start, end)` of the log buffer, oldest first, each
/// line keeping its raw text and carrying a styled form exactly when its
/// escape sequences decode.
pub fn decode_window(logs: &Vec<String>, start: usize, end: usize) -> (r: Vec<DisplayLine>)
    requires
        start <= end <= logs@.len(),
    ensures
        r@.len() == end - start,
        forall|i: int| 0 <= i < r@.len() ==> r@[i].raw == logs@[start + i],
        forall|i: int|
            0 <= i < r@.len() ==> (r@[i].styled is Some <==> ansi_decode_ok(logs@[start + i]@)),
{
    let mut r: Vec<DisplayLine> = Vec::new();
    let mut i: usize = start;
    while i < end
        invariant
            start <= i <= end <= logs@.len(),
            r@.len() == i - start,
            forall|j: int| 0 <= j < r@.len() ==> r@[j].raw == logs@[start + j],
            forall|j: int|
                0 <= j < r@.len() ==> (r@[j].styled is Some <==> ansi_decode_ok(
                    logs@[start + j]@,
                )),
        decreases end - i,
    {
        r.push(decode_line(logs[i].clone()));
        i = i + 1;
    }
    r
}

} // verus!
