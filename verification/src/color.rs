//! Terminal colouring of text through `owo_colors`: each colour wraps the
//! text in the ANSI "set foreground" sequence and the "default foreground"
//! sequence.
use owo_colors::OwoColorize;
use vstd::prelude::*;

verus! {

/// The foreground colours the prompt and the tables use.
#[derive(Clone, Copy, Debug, PartialEq, Eq)]
pub enum TermColor {
    Red,
    Green,
    Yellow,
    Blue,
    Magenta,
    Cyan,
    White,
}

/// The last digit of the ANSI foreground code of a colour (`3x`).
pub open spec fn ansi_digit(c: TermColor) -> char {
    match c {
        TermColor::Red => '1',
        TermColor::Green => '2',
        TermColor::Yellow => '3',
        TermColor::Blue => '4',
        TermColor::Magenta => '5',
        TermColor::Cyan => '6',
        TermColor::White => '7',
    }
}

/// `ESC [ 3x m`: switch the foreground to colour `c`.
pub open spec fn fg_start(c: TermColor) -> Seq<char> {
    seq!['\x1b', '[', '3', ansi_digit(c), 'm']
}

/// `ESC [ 39 m`: back to the default foreground.
pub open spec fn fg_end() -> Seq<char> {
    seq!['\x1b', '[', '3', '9', 'm']
}

/// Text `s` shown in colour `c`.
pub open spec fn painted(c: TermColor, s: Seq<char>) -> Seq<char> {
    fg_start(c) + s + fg_end()
}

/// `OwoColorize::red`, rendered: the text between `ESC[31m` and `ESC[39m`.
#[verifier::external_body]
pub(crate) fn paint_red(s: &str) -> (r: String)
    ensures
        r@ == painted(TermColor::Red, s@),
{
    s.red().to_string()
}

/// `OwoColorize::green`, rendered: the text between `ESC[32m` and `ESC[39m`.
#[verifier::external_body]
pub(crate) fn paint_green(s: &str) -> (r: String)
    ensures
        r@ == painted(TermColor::Green, s@),
{
    s.green().to_string()
}

/// `OwoColorize::yellow`, rendered: the text between `ESC[33m` and `ESC[39m`.
#[verifier::external_body]
pub(crate) fn paint_yellow(s: &str) -> (r: String)
    ensures
        r@ == painted(TermColor::Yellow, s@),
{
    s.yellow().to_string()
}

/// `OwoColorize::blue`, rendered: the text between `ESC[34m` and `ESC[39m`.
#[verifier::external_body]
pub(crate) fn paint_blue(s: &str) -> (r: String)
    ensures
        r@ == painted(TermColor::Blue, s@),
{
    s.blue().to_string()
}

/// `OwoColorize::magenta`, rendered: the text between `ESC[35m` and `ESC[39m`.
#[verifier::external_body]
pub(crate) fn paint_magenta(s: &str) -> (r: String)
    ensures
        r@ == painted(TermColor::Magenta, s@),
{
    s.magenta().to_string()
}

/// `OwoColorize::cyan`, rendered: the text between `ESC[36m` and `ESC[39m`.
#[verifier::external_body]
pub(crate) fn paint_cyan(s: &str) -> (r: String)
    ensures
        r@ == painted(TermColor::Cyan, s@),
{
    s.cyan().to_string()
}

/// `OwoColorize::white`, rendered: the text between `ESC[37m` and `ESC[39m`.
#[verifier::external_body]
pub(crate) fn paint_white(s: &str) -> (r: String)
    ensures
        r@ == painted(TermColor::White, s@),
{
    s.white().to_string()
}

} // verus!
