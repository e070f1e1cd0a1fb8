//! What the bot does on a command or a trigger, from the values that the
//! platform and the providers hand over to the text that goes back.

use vstd::prelude::*;
use crate::commands::ignore::Argument;
use crate::ignore_list::IgnoreList;
use crate::registration::{Command, CommandView};

pub mod ignore;
pub mod ignorelist;
pub mod stats;
pub mod utils;

verus! {

/// What the command `name` answers when it runs on `list`.
pub open spec fn answer(name: Seq<char>, options: Seq<Argument>, list: Seq<Seq<char>>) -> Seq<
    char,
> {
    if name == "ignore"@ {
        ignore::answer(options, list)
    } else if name == "ignorelist"@ {
        ignorelist::answer(list)
    } else {
        "Unknown command"@
    }
}

/// The ignore list after the command `name` has run on `list`: only
/// `ignore` ever changes it.
pub open spec fn list_after(name: Seq<char>, options: Seq<Argument>, list: Seq<Seq<char>>) -> Seq<
    Seq<char>,
> {
    if name == "ignore"@ {
        ignore::list_after(options, list)
    } else {
        list
    }
}

/// Runs the command `name` on `list` and gives its answer.
pub fn respond(name: &str, options: &[Argument], list: &mut IgnoreList) -> (reply: String)
    ensures
        reply@ == answer(name@, options@, old(list)@),
        final(list)@ == list_after(name@, options@, old(list)@),
{
    let name = name.to_owned();
    if name == String::from_str("ignore") {
        ignore::run(options, list)
    } else if name == String::from_str("ignorelist") {
        ignorelist::run(list)
    } else {
        String::from_str("Unknown command")
    }
}

/// The commands as they present themselves to the platform: `ignore`,
/// then `ignorelist`.
pub fn registrations() -> (commands: Vec<Command>)
    ensures
        commands@.map_values(|command: Command| command@) == seq![
            ignore::presentation(),
            ignorelist::presentation(),
        ],
{
    let mut commands: Vec<Command> = Vec::new();
    commands.push(ignore::register());
    commands.push(ignorelist::register());
    assert(commands@.map_values(|command: Command| command@) =~= seq![
        ignore::presentation(),
        ignorelist::presentation(),
    ]);
    commands
}

} // verus!
