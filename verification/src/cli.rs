//! Decisions of the command line front end.
use vstd::prelude::*;
use crate::error::{strings_view, MmeCodeLocation, MmeError};

verus! {

/// The message that names a subcommand the program does not know.
pub open spec fn unknown_subcommand_message(cmd: Seq<char>) -> Seq<char> {
    "The subcommand: "@ + cmd + " is not known. use --help to list availavle commands"@
}

/// The error for a subcommand the program does not know, raised at `location`.
pub fn unknown_subcommand(cmd: &str, location: MmeCodeLocation) -> (res: MmeError)
    ensures
        res.code == 0,
        res.category@.len() == 0,
        strings_view(res.messages@) == seq![unknown_subcommand_message(cmd@)],
        res.code_location == Some(location),
{
    let mut text = "The subcommand: ".to_owned();
    text.append(cmd);
    text.append(" is not known. use --help to list availavle commands");
    let e = MmeError::new(location).msg(text);
    assert(strings_view(e.messages@) =~= seq![unknown_subcommand_message(cmd@)]);
    e
}

/// The message for an unknown subcommand names the whole command, between
/// `The subcommand: ` (16 characters) and ` is not known.`.
pub proof fn law_unknown_subcommand_names_whole_command(cmd: Seq<char>)
    ensures
        ({
            let m = unknown_subcommand_message(cmd);
            &&& m.subrange(0, 16) == "The subcommand: "@
            &&& m.subrange(16, 16 + cmd.len() as int) == cmd
            &&& m.subrange(16 + cmd.len() as int, 30 + cmd.len() as int) == " is not known."@
        }),
{
    reveal_strlit("The subcommand: ");
    reveal_strlit(" is not known. use --help to list availavle commands");
    reveal_strlit(" is not known.");
    let m = unknown_subcommand_message(cmd);
    assert(m.subrange(0, 16) =~= "The subcommand: "@);
    assert(m.subrange(16, 16 + cmd.len() as int) =~= cmd);
    assert(m.subrange(16 + cmd.len() as int, 30 + cmd.len() as int) =~= " is not known."@);
}

} // verus!
