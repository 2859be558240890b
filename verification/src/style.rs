//! Terminal styling: thin wrappers over `owo_colors`, each specified by the
//! exact ANSI text that `owo_colors` writes around its argument.
use owo_colors::OwoColorize;
use vstd::prelude::*;
use crate::text::dec;

verus! {

/// `s` in ANSI foreground colour `code` (`ESC[<code>m … ESC[39m`).
pub open spec fn ansi_fg(code: Seq<char>, s: Seq<char>) -> Seq<char> {
    "\x1b["@ + code + "m"@ + s + "\x1b[39m"@
}

/// `s` with the ANSI style `code` (`ESC[<code>m … ESC[0m`).
pub open spec fn ansi_style(code: Seq<char>, s: Seq<char>) -> Seq<char> {
    "\x1b["@ + code + "m"@ + s + "\x1b[0m"@
}

/// `s` in the 24-bit foreground colour `(r, g, b)`.
pub open spec fn ansi_rgb(r: u8, g: u8, b: u8, s: Seq<char>) -> Seq<char> {
    ansi_fg("38;2;"@ + dec(r as nat) + ";"@ + dec(g as nat) + ";"@ + dec(b as nat), s)
}

/// `OwoColorize::green` rendered with `to_string`: owo_colors writes
/// `ESC[32m`, the text, then `ESC[39m`.
#[verifier::external_body]
pub(crate) fn green(s: &str) -> (r: String)
    ensures
        r@ == ansi_fg("32"@, s@),
{
    s.green().to_string()
}

/// `OwoColorize::red` rendered with `to_string`: `ESC[31m`, the text, `ESC[39m`.
#[verifier::external_body]
pub(crate) fn red(s: &str) -> (r: String)
    ensures
        r@ == ansi_fg("31"@, s@),
{
    s.red().to_string()
}

/// `OwoColorize::yellow` rendered with `to_string`: `ESC[33m`, the text, `ESC[39m`.
#[verifier::external_body]
pub(crate) fn yellow(s: &str) -> (r: String)
    ensures
        r@ == ansi_fg("33"@, s@),
{
    s.yellow().to_string()
}

/// `OwoColorize::bright_black` rendered with `to_string`: `ESC[90m`, the text, `ESC[39m`.
#[verifier::external_body]
pub(crate) fn bright_black(s: &str) -> (r: String)
    ensures
        r@ == ansi_fg("90"@, s@),
{
    s.bright_black().to_string()
}

/// `OwoColorize::bold` rendered with `to_string`: `ESC[1m`, the text, `ESC[0m`.
#[verifier::external_body]
pub(crate) fn bold(s: &str) -> (r: String)
    ensures
        r@ == ansi_style("1"@, s@),
{
    s.bold().to_string()
}

/// `OwoColorize::dimmed` rendered with `to_string`: `ESC[2m`, the text, `ESC[0m`.
#[verifier::external_body]
pub(crate) fn dimmed(s: &str) -> (r: String)
    ensures
        r@ == ansi_style("2"@, s@),
{
    s.dimmed().to_string()
}

/// `OwoColorize::underline` rendered with `to_string`: `ESC[4m`, the text, `ESC[0m`.
#[verifier::external_body]
pub(crate) fn underline(s: &str) -> (r: String)
    ensures
        r@ == ansi_style("4"@, s@),
{
    s.underline().to_string()
}

/// `OwoColorize::truecolor` rendered with `to_string`: owo_colors writes
/// `ESC[38;2;<r>;<g>;<b>m` with the three numbers in decimal, the text, then
/// `ESC[39m`.
#[verifier::external_body]
pub(crate) fn truecolor(s: &str, r: u8, g: u8, b: u8) -> (out: String)
    ensures
        out@ == ansi_rgb(r, g, b, s@),
{
    s.truecolor(r, g, b).to_string()
}

} // verus!
