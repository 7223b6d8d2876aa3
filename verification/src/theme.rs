//! Colour themes and the rendering of themed text.

use colored::Colorize;
use vstd::prelude::*;

verus! {

/// The colour applied to highlighted matches, line numbers and headings.
#[derive(Debug, Copy, Clone, PartialEq, Eq, PartialOrd, Ord, Structural)]
pub enum Theme {
    /// Fancy blue color
    Blue,
    /// Fancy green color
    Green,
    /// Fancy purple color
    Purple,
}

/// The SGR foreground colour code of a theme.
pub open spec fn theme_hue(theme: Theme) -> int {
    match theme {
        Theme::Blue => 34,
        Theme::Green => 32,
        Theme::Purple => 35,
    }
}

/// What a `colored::ColoredString` displays as while colouring is switched
/// on: `text` between the escape sequence that selects foreground colour
/// `hue`, bold or not, and the sequence that resets the terminal.
pub uninterp spec fn ansi_rendering(text: Seq<char>, hue: int, bold: bool) -> Seq<char>;

/// The painted form of `text`, given whether the terminal settings of the
/// moment had colouring switched on.
pub open spec fn paint_outcome(
    text: Seq<char>,
    theme: Theme,
    bold: bool,
    styled: bool,
) -> Seq<char> {
    if styled {
        ansi_rendering(text, theme_hue(theme), bold)
    } else {
        text
    }
}

/// `out` is one of the two forms that painting `text` can give.
pub open spec fn is_paint(out: Seq<char>, text: Seq<char>, theme: Theme, bold: bool) -> bool {
    exists|styled: bool| out == #[trigger] paint_outcome(text, theme, bold, styled)
}

/// Calls `Colorize::blue` and renders the result. Trusted: the output is the
/// text itself where colouring is off, else its blue rendering.
#[verifier::external_body]
fn blue_text(text: &str) -> (out: String)
    ensures
        out@ == text@ || out@ == ansi_rendering(text@, 34, false),
{
    text.blue().to_string()
}

/// Calls `Colorize::green` and renders the result. Trusted: the output is the
/// text itself where colouring is off, else its green rendering.
#[verifier::external_body]
fn green_text(text: &str) -> (out: String)
    ensures
        out@ == text@ || out@ == ansi_rendering(text@, 32, false),
{
    text.green().to_string()
}

/// Calls `Colorize::purple` and renders the result. Trusted: the output is
/// the text itself where colouring is off, else its magenta rendering.
#[verifier::external_body]
fn purple_text(text: &str) -> (out: String)
    ensures
        out@ == text@ || out@ == ansi_rendering(text@, 35, false),
{
    text.purple().to_string()
}

/// Calls `Colorize::blue`, then `Colorize::bold`, and renders the result.
/// Trusted: the output is the text itself where colouring is off, else its
/// bold blue rendering.
#[verifier::external_body]
fn bold_blue_text(text: &str) -> (out: String)
    ensures
        out@ == text@ || out@ == ansi_rendering(text@, 34, true),
{
    text.blue().bold().to_string()
}

/// Calls `Colorize::green`, then `Colorize::bold`, and renders the result.
/// Trusted: the output is the text itself where colouring is off, else its
/// bold green rendering.
#[verifier::external_body]
fn bold_green_text(text: &str) -> (out: String)
    ensures
        out@ == text@ || out@ == ansi_rendering(text@, 32, true),
{
    text.green().bold().to_string()
}

/// Calls `Colorize::purple`, then `Colorize::bold`, and renders the result.
/// Trusted: the output is the text itself where colouring is off, else its
/// bold magenta rendering.
#[verifier::external_body]
fn bold_purple_text(text: &str) -> (out: String)
    ensures
        out@ == text@ || out@ == ansi_rendering(text@, 35, true),
{
    text.purple().bold().to_string()
}

/// Paints `text` in the theme's colour, in normal weight.
pub fn paint(text: &str, theme: Theme) -> (out: String)
    ensures
        is_paint(out@, text@, theme, false),
{
    let out = match theme {
        Theme::Blue => blue_text(text),
        Theme::Green => green_text(text),
        Theme::Purple => purple_text(text),
    };
    proof {
        let styled = out@ != text@;
        assert(out@ == paint_outcome(text@, theme, false, styled));
    }
    out
}

/// Paints `text` in the theme's colour, in bold.
pub fn paint_bold(text: &str, theme: Theme) -> (out: String)
    ensures
        is_paint(out@, text@, theme, true),
{
    let out = match theme {
        Theme::Blue => bold_blue_text(text),
        Theme::Green => bold_green_text(text),
        Theme::Purple => bold_purple_text(text),
    };
    proof {
        let styled = out@ != text@;
        assert(out@ == paint_outcome(text@, theme, true, styled));
    }
    out
}

} // verus!
