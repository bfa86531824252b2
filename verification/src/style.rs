//! Colours and weights of the text that is shown on a terminal.
use owo_colors::OwoColorize;
use vstd::prelude::*;

verus! {

#[derive(Debug, Clone, Copy, PartialEq, Eq)]
pub enum Style {
    Bold,
    Dim,
    Red,
    Green,
    Yellow,
    Cyan,
}

/// The control sequence that turns the style on.
pub open spec fn opening(style: Style) -> Seq<char> {
    match style {
        Style::Bold => "\u{1b}[1m"@,
        Style::Dim => "\u{1b}[2m"@,
        Style::Red => "\u{1b}[31m"@,
        Style::Green => "\u{1b}[32m"@,
        Style::Yellow => "\u{1b}[33m"@,
        Style::Cyan => "\u{1b}[36m"@,
    }
}

/// The control sequence that turns the style off.
pub open spec fn closing(style: Style) -> Seq<char> {
    match style {
        Style::Bold => "\u{1b}[0m"@,
        Style::Dim => "\u{1b}[0m"@,
        _ => "\u{1b}[39m"@,
    }
}

/// The text in the style, or the bare text where colours are switched off.
pub open spec fn painted(style: Style, text: Seq<char>, color: bool) -> Seq<char> {
    if color {
        opening(style) + text + closing(style)
    } else {
        text
    }
}

/// Trusts `OwoColorize::bold`: it writes the text between the control
/// sequences for bold and for no style.
#[verifier::external_body]
fn bold(text: &str) -> (result: String)
    ensures
        result@ == opening(Style::Bold) + text@ + closing(Style::Bold),
{
    text.bold().to_string()
}

/// Trusts `OwoColorize::dimmed`: it writes the text between the control
/// sequences for dim and for no style.
#[verifier::external_body]
fn dimmed(text: &str) -> (result: String)
    ensures
        result@ == opening(Style::Dim) + text@ + closing(Style::Dim),
{
    text.dimmed().to_string()
}

/// Trusts `OwoColorize::red`: it writes the text between the control sequences
/// for red and for the default colour.
#[verifier::external_body]
fn red(text: &str) -> (result: String)
    ensures
        result@ == opening(Style::Red) + text@ + closing(Style::Red),
{
    text.red().to_string()
}

/// Trusts `OwoColorize::green`: it writes the text between the control
/// sequences for green and for the default colour.
#[verifier::external_body]
fn green(text: &str) -> (result: String)
    ensures
        result@ == opening(Style::Green) + text@ + closing(Style::Green),
{
    text.green().to_string()
}

/// Trusts `OwoColorize::yellow`: it writes the text between the control
/// sequences for yellow and for the default colour.
#[verifier::external_body]
fn yellow(text: &str) -> (result: String)
    ensures
        result@ == opening(Style::Yellow) + text@ + closing(Style::Yellow),
{
    text.yellow().to_string()
}

/// Trusts `OwoColorize::cyan`: it writes the text between the control sequences
/// for cyan and for the default colour.
#[verifier::external_body]
fn cyan(text: &str) -> (result: String)
    ensures
        result@ == opening(Style::Cyan) + text@ + closing(Style::Cyan),
{
    text.cyan().to_string()
}

/// The text in the style, or the bare text where colours are switched off.
pub fn paint(style: Style, text: &str, color: bool) -> (result: String)
    ensures
        result@ == painted(style, text@, color),
{
    if !color {
        return text.to_owned();
    }
    match style {
        Style::Bold => bold(text),
        Style::Dim => dimmed(text),
        Style::Red => red(text),
        Style::Green => green(text),
        Style::Yellow => yellow(text),
        Style::Cyan => cyan(text),
    }
}

/// The text in bold and in a colour.
pub open spec fn strong(style: Style, text: Seq<char>, color: bool) -> Seq<char> {
    painted(Style::Bold, painted(style, text, color), color)
}

/// The text in bold and in a colour.
pub fn paint_strong(style: Style, text: &str, color: bool) -> (result: String)
    ensures
        result@ == strong(style, text@, color),
{
    let inner = paint(style, text, color);
    paint(Style::Bold, inner.as_str(), color)
}

/// With colours switched off nothing is added to any text.
pub proof fn law_no_color(style: Style, text: Seq<char>)
    ensures
        painted(style, text, false) == text,
        strong(style, text, false) == text,
{
}

} // verus!
