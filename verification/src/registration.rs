//! How a command presents itself to the platform: its name, what it is
//! for, and the options that it takes.

use vstd::prelude::*;

verus! {

/// The kind of value that an option takes.
#[derive(Clone, Copy, Debug, PartialEq, Eq, Structural)]
pub enum OptionKind {
    Text,
}

/// One of the values that an option offers: the name under which it is
/// shown and the value that is sent.
#[derive(Debug, PartialEq, Eq)]
pub struct Choice {
    pub name: String,
    pub value: String,
}

/// An option of a command.
#[derive(Debug, PartialEq, Eq)]
pub struct CommandOption {
    pub kind: OptionKind,
    pub name: String,
    pub description: String,
    pub required: bool,
    pub choices: Vec<Choice>,
}

/// A command as it presents itself.
#[derive(Debug, PartialEq, Eq)]
pub struct Command {
    pub name: String,
    pub description: String,
    pub options: Vec<CommandOption>,
}

/// A [`Choice`] as plain text.
pub struct ChoiceView {
    pub name: Seq<char>,
    pub value: Seq<char>,
}

/// A [`CommandOption`] as plain text.
pub struct CommandOptionView {
    pub kind: OptionKind,
    pub name: Seq<char>,
    pub description: Seq<char>,
    pub required: bool,
    pub choices: Seq<ChoiceView>,
}

/// A [`Command`] as plain text.
pub struct CommandView {
    pub name: Seq<char>,
    pub description: Seq<char>,
    pub options: Seq<CommandOptionView>,
}

impl View for Choice {
    type V = ChoiceView;

    open spec fn view(&self) -> ChoiceView {
        ChoiceView { name: self.name@, value: self.value@ }
    }
}

impl View for CommandOption {
    type V = CommandOptionView;

    open spec fn view(&self) -> CommandOptionView {
        CommandOptionView {
            kind: self.kind,
            name: self.name@,
            description: self.description@,
            required: self.required,
            choices: self.choices@.map_values(|choice: Choice| choice@),
        }
    }
}

impl View for Command {
    type V = CommandView;

    open spec fn view(&self) -> CommandView {
        CommandView {
            name: self.name@,
            description: self.description@,
            options: self.options@.map_values(|option: CommandOption| option@),
        }
    }
}

impl Choice {
    /// The choice shown as `name` that sends `value`.
    pub fn new(name: &str, value: &str) -> (choice: Choice)
        ensures
            choice@ == (ChoiceView { name: name@, value: value@ }),
    {
        Choice { name: name.to_owned(), value: value.to_owned() }
    }
}

impl CommandOption {
    /// An option that need not be given and offers no choices.
    pub fn new(kind: OptionKind, name: &str, description: &str) -> (option: CommandOption)
        ensures
            option@ == (CommandOptionView {
                kind,
                name: name@,
                description: description@,
                required: false,
                choices: Seq::empty(),
            }),
    {
        let option = CommandOption {
            kind,
            name: name.to_owned(),
            description: description.to_owned(),
            required: false,
            choices: Vec::new(),
        };
        assert(option@.choices =~= Seq::empty());
        option
    }

    /// The option, to be given or not as `required` says.
    pub fn required(self, required: bool) -> (option: CommandOption)
        ensures
            option@ == (CommandOptionView { required, ..self@ }),
    {
        CommandOption { required, ..self }
    }

    /// The option with one more choice, behind those that it has.
    pub fn add_string_choice(self, name: &str, value: &str) -> (option: CommandOption)
        ensures
            option@ == (CommandOptionView {
                choices: self@.choices.push(ChoiceView { name: name@, value: value@ }),
                ..self@
            }),
    {
        let ghost before = self@;
        let mut choices = self.choices;
        choices.push(Choice::new(name, value));
        let option = CommandOption { choices, ..self };
        assert(option@.choices =~= before.choices.push(ChoiceView { name: name@, value: value@ }));
        option
    }
}

impl Command {
    /// The command `name`, with nothing said of it and no options.
    pub fn new(name: &str) -> (command: Command)
        ensures
            command@ == (CommandView {
                name: name@,
                description: Seq::empty(),
                options: Seq::empty(),
            }),
    {
        let command = Command {
            name: name.to_owned(),
            description: String::new(),
            options: Vec::new(),
        };
        assert(command@.options =~= Seq::empty());
        command
    }

    /// The command with `description` for what it is for.
    pub fn description(self, description: &str) -> (command: Command)
        ensures
            command@ == (CommandView { description: description@, ..self@ }),
    {
        Command { description: description.to_owned(), ..self }
    }

    /// The command with one more option, behind those that it has.
    pub fn add_option(self, option: CommandOption) -> (command: Command)
        ensures
            command@ == (CommandView { options: self@.options.push(option@), ..self@ }),
    {
        let ghost before = self@;
        let mut options = self.options;
        options.push(option);
        let command = Command { options, ..self };
        assert(command@.options =~= before.options.push(option@));
        command
    }
}

} // verus!
