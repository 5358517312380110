//! Terminal colours. The escape sequences come from the `colored` crate, which decides
//! from the environment whether it paints at all; the contracts here say which texts can
//! come back.

use crate::text::decimal;
use colored::Colorize;
use vstd::prelude::*;

verus! {

/// The sequence that switches a colour on: the escape character, `[`, the parameters, `m`.
pub open spec fn sgr(params: Seq<char>) -> Seq<char> {
    "\x1b["@ + params + "m"@
}

/// The sequence that switches all colours off.
pub open spec fn reset() -> Seq<char> {
    "\x1b[0m"@
}

/// A text without an escape character in it.
pub open spec fn is_plain(text: Seq<char>) -> bool {
    !text.contains('\x1b')
}

/// `painted` is `text` in red, or `text` itself where colours are switched off.
pub open spec fn is_red(painted: Seq<char>, text: Seq<char>) -> bool {
    painted == text || painted == sgr("31"@) + text + reset()
}

/// The parameters that select the foreground colour (`r`, `g`, `b`) on a terminal with
/// 24-bit colours.
pub open spec fn truecolor_params(r: u8, g: u8, b: u8) -> Seq<char> {
    "38;2;"@ + decimal(r as nat) + ";"@ + decimal(g as nat) + ";"@ + decimal(b as nat)
}

/// The codes of the sixteen basic foreground colours.
pub open spec fn is_basic_colour(code: nat) -> bool {
    30 <= code <= 37 || 90 <= code <= 97
}

/// `painted` is `text` in the colour (`r`, `g`, `b`): in that very colour, in one of the
/// sixteen basic colours where the terminal has no more, or bare where colours are off.
pub open spec fn is_tinted(painted: Seq<char>, text: Seq<char>, r: u8, g: u8, b: u8) -> bool {
    ||| painted == text
    ||| painted == sgr(truecolor_params(r, g, b)) + text + reset()
    ||| exists|code: nat|
        is_basic_colour(code) && painted == sgr(#[trigger] decimal(code)) + text + reset()
}

/// `Colorize::red` of `colored`, formatted: the text between the sequence for red and
/// the reset sequence, or the text alone when `colored` finds that it should not paint
/// (that depends on the environment, so the contract allows both). The text must hold no
/// escape character, since `colored` rewrites reset sequences inside its input.
#[verifier::external_body]
pub(crate) fn red(text: &str) -> (painted: String)
    requires
        is_plain(text@),
    ensures
        is_red(painted@, text@),
{
    text.red().to_string()
}

/// `Colorize::truecolor` of `colored`, formatted: the text between a colour sequence and
/// the reset sequence, or the text alone when `colored` does not paint. The colour
/// sequence is that of (`r`, `g`, `b`) where the environment announces 24-bit colours and
/// otherwise that of a basic colour which `colored` picks. The text must hold no escape
/// character.
#[verifier::external_body]
pub(crate) fn truecolor(text: &str, r: u8, g: u8, b: u8) -> (painted: String)
    requires
        is_plain(text@),
    ensures
        is_tinted(painted@, text@, r, g, b),
{
    text.truecolor(r, g, b).to_string()
}


} // verus!
