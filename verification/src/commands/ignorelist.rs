//! The `ignorelist` command: shows who is on the ignore list.

use vstd::prelude::*;
use crate::ignore_list::IgnoreList;
use crate::registration::{Command, CommandView};
use crate::text::joined;

verus! {

/// What the command answers for `list`: its names, one to a line behind a
/// dash, or that it holds none.
pub open spec fn answer(list: Seq<Seq<char>>) -> Seq<char> {
    if list.len() > 0 {
        "The current list of players that have their stats hidden is:\n- "@ + joined(
            list,
            "\n- "@,
        ) + "\n"@
    } else {
        "No players currently have their stats hidden!"@
    }
}

/// Gives the command's answer for `list`.
pub fn run(list: &IgnoreList) -> (reply: String)
    ensures
        reply@ == answer(list@),
{
    if list.len() > 0 {
        let mut reply = String::from_str(
            "The current list of players that have their stats hidden is:\n- ",
        );
        reply.append(list.join("\n- ").as_str());
        reply.append("\n");
        reply
    } else {
        String::from_str("No players currently have their stats hidden!")
    }
}

/// The command as it presents itself: it takes no options.
pub open spec fn presentation() -> CommandView {
    CommandView {
        name: "ignorelist"@,
        description: "Print out the list of ignored players"@,
        options: Seq::empty(),
    }
}

/// The command as it presents itself to the platform.
pub fn register() -> (command: Command)
    ensures
        command@ == presentation(),
{
    Command::new("ignorelist").description("Print out the list of ignored players")
}

} // verus!
