//! Coloured terminal text, as the `colored` crate renders it.
use vstd::prelude::*;
use colored::Colorize;

verus! {

/// `text` holds no escape character.
pub open spec fn no_escape(text: Seq<char>) -> bool {
    forall|i: int| 0 <= i < text.len() ==> text[i] != '\x1b'
}

/// `shown` is `text` as `colored` renders it in the colour with ANSI code
/// `code`: wrapped in the escape sequences when colouring is on, the bare
/// text when it is off.
pub open spec fn painted(shown: Seq<char>, text: Seq<char>, code: Seq<char>) -> bool {
    ||| shown == text
    ||| shown == "\x1b["@ + code + "m"@ + text + "\x1b[0m"@
}

/// The ANSI code of yellow text.
pub open spec fn yellow_code() -> Seq<char> {
    "33"@
}

/// The ANSI code of red text.
pub open spec fn red_code() -> Seq<char> {
    "31"@
}

/// `Colorize::yellow` on `text`, rendered by its `Display` impl. Whether the
/// escape sequences are written depends on the environment (`CLICOLOR`,
/// `NO_COLOR`, `CLICOLOR_FORCE`, whether stdout is a terminal, and
/// `colored::control::set_override`), so the contract allows both renderings.
#[verifier::external_body]
pub(crate) fn yellow(text: &str) -> (res: String)
    requires
        no_escape(text@),
    ensures
        painted(res@, text@, yellow_code()),
{
    text.yellow().to_string()
}

/// `Colorize::red` on `text`, rendered by its `Display` impl; as for
/// [`yellow`], the environment decides whether the escape sequences are written.
#[verifier::external_body]
pub(crate) fn red(text: &str) -> (res: String)
    requires
        no_escape(text@),
    ensures
        painted(res@, text@, red_code()),
{
    text.red().to_string()
}

} // verus!
