//! Terminal colours. Text is painted with an ANSI foreground colour where
//! standard output supports colours; whether it does is asked once, by
//! [`stdout_supports_colors`], and handed to the functions that show text.
use owo_colors::OwoColorize;
use owo_colors::Stream;
use vstd::prelude::*;

verus! {

/// The foreground colours the client paints text with.
#[derive(Clone, Copy, Debug, PartialEq, Eq, Structural)]
pub enum Paint {
    Red,
    Yellow,
    Blue,
    BrightRed,
    BrightGreen,
    BrightYellow,
}

/// The digits of the ANSI SGR code that selects the foreground colour `p`.
pub open spec fn fg_code(p: Paint) -> Seq<char> {
    match p {
        Paint::Red => seq!['3', '1'],
        Paint::Yellow => seq!['3', '3'],
        Paint::Blue => seq!['3', '4'],
        Paint::BrightRed => seq!['9', '1'],
        Paint::BrightGreen => seq!['9', '2'],
        Paint::BrightYellow => seq!['9', '3'],
    }
}

/// `text` preceded by the escape sequence that selects colour `p` and followed
/// by the one that restores the default foreground colour.
pub open spec fn painted(text: Seq<char>, p: Paint) -> Seq<char> {
    seq!['\u{1b}', '['] + fg_code(p) + seq!['m'] + text + seq!['\u{1b}', '[', '3', '9', 'm']
}

/// Runs `OwoColorize::red` on `text` and displays the result: owo-colors writes
/// `ESC[31m`, the text, then `ESC[39m`.
#[verifier::external_body]
fn fg_red(text: &str) -> (r: String)
    ensures
        r@ == painted(text@, Paint::Red),
{
    format!("{}", text.red())
}

/// Runs `OwoColorize::yellow` on `text` and displays the result: owo-colors
/// writes `ESC[33m`, the text, then `ESC[39m`.
#[verifier::external_body]
fn fg_yellow(text: &str) -> (r: String)
    ensures
        r@ == painted(text@, Paint::Yellow),
{
    format!("{}", text.yellow())
}

/// Runs `OwoColorize::blue` on `text` and displays the result: owo-colors writes
/// `ESC[34m`, the text, then `ESC[39m`.
#[verifier::external_body]
fn fg_blue(text: &str) -> (r: String)
    ensures
        r@ == painted(text@, Paint::Blue),
{
    format!("{}", text.blue())
}

/// Runs `OwoColorize::bright_red` on `text` and displays the result: owo-colors
/// writes `ESC[91m`, the text, then `ESC[39m`.
#[verifier::external_body]
fn fg_bright_red(text: &str) -> (r: String)
    ensures
        r@ == painted(text@, Paint::BrightRed),
{
    format!("{}", text.bright_red())
}

/// Runs `OwoColorize::bright_green` on `text` and displays the result:
/// owo-colors writes `ESC[92m`, the text, then `ESC[39m`.
#[verifier::external_body]
fn fg_bright_green(text: &str) -> (r: String)
    ensures
        r@ == painted(text@, Paint::BrightGreen),
{
    format!("{}", text.bright_green())
}

/// Runs `OwoColorize::bright_yellow` on `text` and displays the result:
/// owo-colors writes `ESC[93m`, the text, then `ESC[39m`.
#[verifier::external_body]
fn fg_bright_yellow(text: &str) -> (r: String)
    ensures
        r@ == painted(text@, Paint::BrightYellow),
{
    format!("{}", text.bright_yellow())
}

/// Displays `OwoColorize::if_supports_color` on standard output: `colored` where
/// owo-colors finds that standard output supports colours (or colours are forced
/// on), `plain` otherwise. Which one depends on the terminal and the environment,
/// so only that it is one of the two is stated.
#[verifier::external_body]
fn on_stdout(plain: &str, colored: &str) -> (r: String)
    ensures
        r@ == plain@ || r@ == colored@,
{
    format!("{}", plain.if_supports_color(Stream::Stdout, |_| colored))
}

/// Paints `text` with colour `p`.
pub fn paint(text: &str, p: Paint) -> (r: String)
    ensures
        r@ == painted(text@, p),
{
    match p {
        Paint::Red => fg_red(text),
        Paint::Yellow => fg_yellow(text),
        Paint::Blue => fg_blue(text),
        Paint::BrightRed => fg_bright_red(text),
        Paint::BrightGreen => fg_bright_green(text),
        Paint::BrightYellow => fg_bright_yellow(text),
    }
}

/// Paints `text` with colour `p` where `colored` says that colours are shown,
/// and leaves it as it is otherwise.
pub fn paint_when(text: &str, p: Paint, colored: bool) -> (r: String)
    ensures
        r@ == (if colored {
            painted(text@, p)
        } else {
            text@
        }),
{
    if colored {
        paint(text, p)
    } else {
        String::from_str(text)
    }
}

/// Whether owo-colors shows colours on standard output: the terminal supports
/// them, or they are forced on. This depends on the terminal and the environment,
/// so nothing is stated of the answer; the functions that show text take it as an
/// argument.
pub fn stdout_supports_colors() -> bool {
    let probe = on_stdout("", "c");
    !probe.as_str().is_empty()
}

} // verus!
