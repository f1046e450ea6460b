//! The text that a throbber writes to the terminal.

use vstd::prelude::*;
use vstd::string::StringExecFns;

verus! {

/// Erases the current line and puts the cursor back at its first column.
pub const CLEAR_LINE: &'static str = "\x1B[2K\r";

/// What a status line of success starts with.
pub const SUCCESS_MARK: &'static str = "✔ ";

/// What a status line of failure starts with.
pub const FAIL_MARK: &'static str = "✖ ";

/// One frame of the animation: the line is erased, then holds the glyph, a
/// space and the message. No line break follows: the next frame overwrites it.
pub open spec fn frame_text(glyph: Seq<char>, message: Seq<char>) -> Seq<char> {
    CLEAR_LINE@ + glyph + " "@ + message
}

/// A status line: the line is erased, then holds the mark and the message,
/// and is ended by a line break.
pub open spec fn status_text(mark: Seq<char>, message: Seq<char>) -> Seq<char> {
    CLEAR_LINE@ + mark + message + "\n"@
}

/// The status line of success for `message`.
pub open spec fn success_text(message: Seq<char>) -> Seq<char> {
    status_text(SUCCESS_MARK@, message)
}

/// The status line of failure for `message`.
pub open spec fn fail_text(message: Seq<char>) -> Seq<char> {
    status_text(FAIL_MARK@, message)
}

/// The text that erases the current line.
pub fn clear_line() -> (text: String)
    ensures
        text@ == CLEAR_LINE@,
{
    String::from_str(CLEAR_LINE)
}

/// The text of one frame of the animation.
pub fn frame_line(glyph: &str, message: &str) -> (text: String)
    ensures
        text@ == frame_text(glyph@, message@),
{
    let mut text = String::from_str(CLEAR_LINE);
    text.append(glyph);
    text.append(" ");
    text.append(message);
    text
}

fn status_line(mark: &str, message: &str) -> (text: String)
    ensures
        text@ == status_text(mark@, message@),
{
    let mut text = String::from_str(CLEAR_LINE);
    text.append(mark);
    text.append(message);
    text.append("\n");
    text
}

/// The status line of success for `message`.
pub fn success_line(message: &str) -> (text: String)
    ensures
        text@ == success_text(message@),
{
    status_line(SUCCESS_MARK, message)
}

/// The status line of failure for `message`.
pub fn fail_line(message: &str) -> (text: String)
    ensures
        text@ == fail_text(message@),
{
    status_line(FAIL_MARK, message)
}

} // verus!
