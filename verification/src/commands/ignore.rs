//! The `ignore` command: adds a player to the ignore list or takes one out.

use vstd::prelude::*;
use crate::ignore_list::{without_first, IgnoreList};
use crate::registration::{ChoiceView, Command, CommandOption, CommandOptionView, CommandView, OptionKind};
use crate::text::joined;

verus! {

/// The value that the platform hands over for one option of a command.
#[derive(Debug, PartialEq, Eq)]
pub enum Argument {
    /// A text.
    Text(String),
    /// A value of any other kind.
    Other,
}

/// What `run` is asked to do.
pub enum Request {
    /// No first text: neither what to do nor whom it is about.
    Nothing,
    /// What to do, but no second text for whom it is about.
    Nameless,
    /// Do `action` with the player `ign`.
    Act { action: Seq<char>, ign: Seq<char> },
}

/// What the arguments of the command ask for: the first is what to do,
/// the second whom it is about, and each has to be a text.
pub open spec fn request_of(options: Seq<Argument>) -> Request {
    if options.len() >= 1 && options[0] is Text {
        if options.len() >= 2 && options[1] is Text {
            Request::Act { action: options[0]->Text_0@, ign: options[1]->Text_0@ }
        } else {
            Request::Nameless
        }
    } else {
        Request::Nothing
    }
}

/// The ignore list after the command has run on `list`: one name longer
/// after `add`, without the first entry of the name after `remove`, and
/// as it was after anything else.
pub open spec fn list_after(options: Seq<Argument>, list: Seq<Seq<char>>) -> Seq<Seq<char>> {
    match request_of(options) {
        Request::Act { action, ign } => if action == "add"@ {
            list.push(ign)
        } else if action == "remove"@ {
            without_first(list, ign)
        } else {
            list
        },
        _ => list,
    }
}

/// What the command answers when it runs on `list`.
pub open spec fn answer(options: Seq<Argument>, list: Seq<Seq<char>>) -> Seq<char> {
    match request_of(options) {
        Request::Nothing => "Please provide a valid action and IGN"@,
        Request::Nameless => "Please provide a valid IGN"@,
        Request::Act { action, ign } => if action == "add"@ {
            "Successfully added "@ + ign + " to the ignore list"@
        } else if action == "remove"@ {
            if list.contains(ign) {
                "Successfully removed "@ + ign + " from the ignore list"@
            } else {
                "Could not find "@ + ign + " in the ignore list"@
            }
        } else if action == "list"@ {
            "The current ignore list is:\n"@ + joined(list, "\n"@)
        } else {
            "Please provide a valid action"@
        },
    }
}

/// Runs the command on `list` and gives its answer.
pub fn run(options: &[Argument], list: &mut IgnoreList) -> (reply: String)
    ensures
        reply@ == answer(options@, old(list)@),
        final(list)@ == list_after(options@, old(list)@),
{
    if options.len() < 1 {
        return String::from_str("Please provide a valid action and IGN");
    }
    let action: &String = match &options[0] {
        Argument::Text(action) => action,
        Argument::Other => {
            return String::from_str("Please provide a valid action and IGN");
        },
    };
    if options.len() < 2 {
        return String::from_str("Please provide a valid IGN");
    }
    let ign: &String = match &options[1] {
        Argument::Text(ign) => ign,
        Argument::Other => {
            return String::from_str("Please provide a valid IGN");
        },
    };
    if *action == String::from_str("add") {
        list.add(ign.as_str());
        let mut reply = String::from_str("Successfully added ");
        reply.append(ign.as_str());
        reply.append(" to the ignore list");
        reply
    } else if *action == String::from_str("remove") {
        if list.remove(ign.as_str()) {
            let mut reply = String::from_str("Successfully removed ");
            reply.append(ign.as_str());
            reply.append(" from the ignore list");
            reply
        } else {
            let mut reply = String::from_str("Could not find ");
            reply.append(ign.as_str());
            reply.append(" in the ignore list");
            reply
        }
    } else if *action == String::from_str("list") {
        let mut reply = String::from_str("The current ignore list is:\n");
        reply.append(list.join("\n").as_str());
        reply
    } else {
        String::from_str("Please provide a valid action")
    }
}

/// The command as it presents itself: what to do, to add or to remove,
/// and the name of the player, both to be given.
pub open spec fn presentation() -> CommandView {
    CommandView {
        name: "ignore"@,
        description: "Ignore player from stats bot"@,
        options: seq![
            CommandOptionView {
                kind: OptionKind::Text,
                name: "action"@,
                description: "Action"@,
                required: true,
                choices: seq![
                    ChoiceView { name: "Add"@, value: "add"@ },
                    ChoiceView { name: "Remove"@, value: "remove"@ },
                ],
            },
            CommandOptionView {
                kind: OptionKind::Text,
                name: "ign"@,
                description: "In-game name"@,
                required: true,
                choices: Seq::empty(),
            },
        ],
    }
}

/// The command as it presents itself to the platform.
pub fn register() -> (command: Command)
    ensures
        command@ == presentation(),
{
    let command = Command::new("ignore").description("Ignore player from stats bot").add_option(
        CommandOption::new(OptionKind::Text, "action", "Action").required(true).add_string_choice(
            "Add",
            "add",
        ).add_string_choice("Remove", "remove"),
    ).add_option(CommandOption::new(OptionKind::Text, "ign", "In-game name").required(true));
    assert(command@.options =~= presentation().options) by {
        assert(command@.options[0].choices =~= presentation().options[0].choices);
    }
    command
}

} // verus!
