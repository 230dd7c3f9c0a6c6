//! Styled terminal text: lines made of spans, each with a colour and
//! emphasis, for the front end to print.

use vstd::prelude::*;
use vstd::string::*;

verus! {

/// A foreground colour.
#[derive(Debug, Clone, Copy, PartialEq, Eq, Structural)]
pub enum Color {
    Default,
    White,
    Yellow,
    Green,
    Red,
    Cyan,
    Blue,
    Magenta,
    BrightBlue,
    BrightWhite,
    BrightYellow,
}

/// How a span is shown: its colour, whether it is bold or dimmed, and
/// whether it stands on a highlighted (bright black) background.
#[derive(Debug, Clone, Copy, PartialEq, Eq, Structural)]
pub struct Style {
    pub color: Color,
    pub bold: bool,
    pub dimmed: bool,
    pub highlighted: bool,
}

/// A piece of text with its style.
#[derive(Debug)]
pub struct Span {
    pub text: String,
    pub style: Style,
}

/// The plain style.
pub open spec fn plain() -> Style {
    Style { color: Color::Default, bold: false, dimmed: false, highlighted: false }
}

/// The style of colour `c`.
pub open spec fn colored(c: Color) -> Style {
    Style { color: c, bold: false, dimmed: false, highlighted: false }
}

/// The bold style of colour `c`.
pub open spec fn bold_colored(c: Color) -> Style {
    Style { color: c, bold: true, dimmed: false, highlighted: false }
}

/// The dimmed style.
pub open spec fn dimmed() -> Style {
    Style { color: Color::Default, bold: false, dimmed: true, highlighted: false }
}

/// The view of a span: its text and style.
pub open spec fn span_v(s: Span) -> (Seq<char>, Style) {
    (s.text@, s.style)
}

/// The view of a line: its spans' texts and styles.
pub open spec fn line_v(l: Vec<Span>) -> Seq<(Seq<char>, Style)> {
    l@.map_values(|s: Span| span_v(s))
}

/// The view of several lines.
pub open spec fn lines_v(ls: Seq<Vec<Span>>) -> Seq<Seq<(Seq<char>, Style)>> {
    ls.map_values(|l: Vec<Span>| line_v(l))
}

/// A span of `text` in style `style`.
pub fn span(text: &str, style: Style) -> (r: Span)
    ensures
        span_v(r) == (text@, style),
{
    Span { text: String::from_str(text), style }
}

/// A span holding `text` in style `style`.
pub fn span_of(text: String, style: Style) -> (r: Span)
    ensures
        span_v(r) == (text@, style),
{
    Span { text, style }
}

/// The plain style.
pub fn plain_style() -> (r: Style)
    ensures
        r == plain(),
{
    Style { color: Color::Default, bold: false, dimmed: false, highlighted: false }
}

/// The style of colour `c`.
pub fn color_style(c: Color) -> (r: Style)
    ensures
        r == colored(c),
{
    Style { color: c, bold: false, dimmed: false, highlighted: false }
}

/// The bold style of colour `c`.
pub fn bold_style(c: Color) -> (r: Style)
    ensures
        r == bold_colored(c),
{
    Style { color: c, bold: true, dimmed: false, highlighted: false }
}

/// The dimmed style.
pub fn dim_style() -> (r: Style)
    ensures
        r == dimmed(),
{
    Style { color: Color::Default, bold: false, dimmed: true, highlighted: false }
}

/// Appends a span to a line.
pub fn push_span(line: &mut Vec<Span>, s: Span)
    ensures
        line_v(*final(line)) == line_v(*old(line)).push(span_v(s)),
{
    let ghost sv = span_v(s);
    line.push(s);
    assert(line_v(*line) =~= line_v(*old(line)).push(sv));
}

/// Appends a line to a list of lines.
pub fn push_line(out: &mut Vec<Vec<Span>>, l: Vec<Span>)
    ensures
        lines_v(final(out)@) == lines_v(old(out)@).push(line_v(l)),
{
    let ghost lv = line_v(l);
    out.push(l);
    assert(lines_v(out@) =~= lines_v(old(out)@).push(lv));
}

/// The highlighted-background style.
pub open spec fn highlighted() -> Style {
    Style { color: Color::Default, bold: false, dimmed: false, highlighted: true }
}

/// The highlighted-background style.
pub fn highlight_style() -> (r: Style)
    ensures
        r == highlighted(),
{
    Style { color: Color::Default, bold: false, dimmed: false, highlighted: true }
}

} // verus!
