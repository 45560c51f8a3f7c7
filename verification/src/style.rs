use vstd::prelude::*;

use crate::numfmt::dec_spec;

verus! {

/// The control sequence introducer every escape below starts with.
pub open spec fn csi() -> Seq<char> {
    "\u{1b}["@
}

/// The sequence that resets all styling.
pub open spec fn sgr_reset() -> Seq<char> {
    "\u{1b}[0m"@
}

/// Foreground yellow.
pub open spec fn sgr_yellow() -> Seq<char> {
    "\u{1b}[33m"@
}

/// Foreground red.
pub open spec fn sgr_red() -> Seq<char> {
    "\u{1b}[31m"@
}

/// Foreground green.
pub open spec fn sgr_green() -> Seq<char> {
    "\u{1b}[32m"@
}

/// Foreground white.
pub open spec fn sgr_white() -> Seq<char> {
    "\u{1b}[37m"@
}

/// Bold, underlined, foreground white.
pub open spec fn sgr_bold_underline_white() -> Seq<char> {
    "\u{1b}[1;4;37m"@
}

/// Erase from the cursor to the end of the line.
pub open spec fn erase_line_seq() -> Seq<char> {
    "\u{1b}[K"@
}

/// Text wrapped in a style: the style's prefix, the text, then the reset.
pub open spec fn painted(prefix: Seq<char>, s: Seq<char>) -> Seq<char> {
    prefix + s + sgr_reset()
}

/// Relies on ansi_term's `Colour::Yellow.paint`: a plain yellow foreground
/// renders as the code `33` between the introducer and `m`, then the text,
/// then the reset sequence.
#[verifier::external_body]
pub(crate) fn paint_yellow(s: &str) -> (r: String)
    ensures
        r@ == painted(sgr_yellow(), s@),
{
    ansi_term::Colour::Yellow.paint(s).to_string()
}

/// Relies on ansi_term's `Colour::Red.paint`: as above with code `31`.
#[verifier::external_body]
pub(crate) fn paint_red(s: &str) -> (r: String)
    ensures
        r@ == painted(sgr_red(), s@),
{
    ansi_term::Colour::Red.paint(s).to_string()
}

/// Relies on ansi_term's `Colour::Green.paint`: as above with code `32`.
#[verifier::external_body]
pub(crate) fn paint_green(s: &str) -> (r: String)
    ensures
        r@ == painted(sgr_green(), s@),
{
    ansi_term::Colour::Green.paint(s).to_string()
}

/// Relies on ansi_term's `Colour::White.paint`: as above with code `37`.
#[verifier::external_body]
pub(crate) fn paint_white(s: &str) -> (r: String)
    ensures
        r@ == painted(sgr_white(), s@),
{
    ansi_term::Colour::White.paint(s).to_string()
}

/// Relies on ansi_term's `Style::paint` for white bold underlined text:
/// the prefix lists bold (`1`), underline (`4`) and the colour (`37`),
/// separated by semicolons.
#[verifier::external_body]
pub(crate) fn paint_bold_underline_white(s: &str) -> (r: String)
    ensures
        r@ == painted(sgr_bold_underline_white(), s@),
{
    ansi_term::Colour::White.bold().underline().paint(s).to_string()
}

/// Relies on ansi-escapes' `CursorUp`: displays as the introducer, the
/// decimal row count, then `A`.
#[verifier::external_body]
pub(crate) fn cursor_up(rows: u16) -> (r: String)
    ensures
        r@ == csi() + dec_spec(rows as nat) + "A"@,
{
    ansi_escapes::CursorUp(rows).to_string()
}

/// Relies on ansi-escapes' `EraseEndLine`: displays as the introducer
/// followed by `K`.
#[verifier::external_body]
pub(crate) fn erase_end_line() -> (r: String)
    ensures
        r@ == erase_line_seq(),
{
    ansi_escapes::EraseEndLine.to_string()
}

} // verus!
