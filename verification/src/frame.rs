//! The text of the box in which the line is shown.

use vstd::prelude::*;
use vstd::string::*;

verus! {

/// The character of which horizontal lines are made.
pub const H_LINE: char = '\u{2500}';

/// The character of which vertical lines are made.
pub const V_LINE: char = '\u{2502}';

/// `count` times the character `c`.
pub open spec fn repeated(c: char, count: nat) -> Seq<char> {
    Seq::new(count, |i: int| c)
}

/// What ends a line on a terminal in raw mode.
pub open spec fn line_end() -> Seq<char> {
    seq!['\n', '\r']
}

/// A horizontal line over `cols` columns, with the end of the line.
pub open spec fn horizontal_line_text(cols: u16) -> Seq<char> {
    repeated(H_LINE, cols as nat) + line_end()
}

/// The line `input` between two vertical lines, with a horizontal line
/// above and below.
pub open spec fn input_box_text(input: Seq<char>, cols: u16) -> Seq<char> {
    horizontal_line_text(cols) + seq![V_LINE] + input + seq![V_LINE] + line_end()
        + horizontal_line_text(cols)
}

/// Adds `count` times the character `c` to `text`.
fn repeat_into(text: &mut String, c: char, count: u16)
    ensures
        final(text)@ == old(text)@ + repeated(c, count as nat),
{
    let mut i: u16 = 0;
    while i < count
        invariant
            i <= count,
            text@ == old(text)@ + repeated(c, i as nat),
        decreases count - i,
    {
        text.push(c);
        i += 1;
    }
}

/// As many line feeds as there are columns.
pub fn empty_line(cols: u16) -> (text: String)
    ensures
        text@ == repeated('\n', cols as nat),
{
    let mut text = String::new();
    repeat_into(&mut text, '\n', cols);
    text
}

/// A horizontal line over `cols` columns, with the end of the line.
pub fn horizontal_line(cols: u16) -> (text: String)
    ensures
        text@ == horizontal_line_text(cols),
{
    let mut text = String::new();
    repeat_into(&mut text, H_LINE, cols);
    text.push('\n');
    text.push('\r');
    text
}

/// The box in which the line `input` is shown.
pub fn input_box(input: &str, cols: u16) -> (text: String)
    ensures
        text@ == input_box_text(input@, cols),
{
    let mut text = horizontal_line(cols);
    text.push(V_LINE);
    text.append(input);
    text.push(V_LINE);
    text.push('\n');
    text.push('\r');
    let line = horizontal_line(cols);
    text.append(line.as_str());
    text
}

} // verus!
