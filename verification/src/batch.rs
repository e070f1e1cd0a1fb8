//! One batch: the players of a trigger, and the report that grows by one
//! line for each of them.
//!
//! The batch decides whose line is due next and what the report says. The
//! caller fetches what each line needs and hands the result in; whatever
//! that result is, it becomes the player's one line, and no other line
//! changes.

use vstd::prelude::*;
use crate::commands::stats::{outcome, reported, Outcome, StatsError};
use crate::ignore_list::{screened, IgnoreList};
use crate::roster::{is_trigger, roster, roster_names};

verus! {

/// The line that reports `outcome`: the player's line, or the failure
/// behind `Error: `.
pub open spec fn outcome_line(outcome: Outcome) -> Seq<char> {
    match outcome {
        Outcome::Line(line) => line,
        Outcome::ProviderError(cause) => "Error: "@ + cause,
        Outcome::NoStats => "Error: "@ + "Unable to retrieve bedwars stats"@,
    }
}

/// The lines one after the other, each closed by a line feed.
pub open spec fn stacked(lines: Seq<Seq<char>>) -> Seq<char>
    decreases lines.len(),
{
    if lines.len() == 0 {
        Seq::empty()
    } else {
        stacked(lines.drop_last()) + lines.last() + "\n"@
    }
}

/// The report of `lines`: the lines between the mark that opens a block
/// of coloured, evenly spaced text and the mark that closes it.
pub open spec fn report(lines: Seq<Seq<char>>) -> Seq<char> {
    "```ansi\n"@ + stacked(lines) + "```"@
}

/// The players of one trigger and the lines reported so far.
#[derive(Debug)]
pub struct Batch {
    names: Vec<String>,
    lines: Vec<String>,
}

impl Batch {
    #[verifier::type_invariant]
    spec fn in_step(self) -> bool {
        self.lines@.len() <= self.names@.len()
    }

    /// The players of the batch, in the order of their lines.
    pub closed spec fn names(self) -> Seq<Seq<char>> {
        self.names@.map_values(|name: String| name@)
    }

    /// The lines reported so far: the first for the first player, and so on.
    pub closed spec fn lines(self) -> Seq<Seq<char>> {
        self.lines@.map_values(|line: String| line@)
    }

    /// The batch of the trigger `content`, for the players that it lists
    /// and `ignored` does not hold; nothing where `content` is no trigger.
    /// What is ignored is settled here, once, for the whole batch.
    pub fn begin(content: &str, ignored: &IgnoreList) -> (batch: Option<Batch>)
        ensures
            match batch {
                Some(batch) => is_trigger(content@) && batch.names() == screened(
                    roster_names(content@),
                    ignored@,
                ) && batch.lines() == Seq::<Seq<char>>::empty(),
                None => !is_trigger(content@),
            },
    {
        match roster(content) {
            None => None,
            Some(listed) => {
                let batch = Batch { names: ignored.screen(&listed), lines: Vec::new() };
                assert(batch.lines() =~= Seq::<Seq<char>>::empty());
                Some(batch)
            },
        }
    }

    /// The player whose line is due next; nobody once every player has a line.
    pub fn pending(&self) -> (name: Option<String>)
        ensures
            self.lines().len() <= self.names().len(),
            match name {
                Some(name) => self.lines().len() < self.names().len() && name@
                    == self.names()[self.lines().len() as int],
                None => self.lines().len() == self.names().len(),
            },
    {
        proof {
            use_type_invariant(self);
        }
        if self.lines.len() < self.names.len() {
            Some(self.names[self.lines.len()].clone())
        } else {
            None
        }
    }

    /// The batch after `result` has been reported for the player whose
    /// line is due; the batch as it is, once every player has a line.
    pub fn record(self, result: &Result<String, StatsError>) -> (next: Batch)
        ensures
            next.names() == self.names(),
            next.lines() == if self.lines().len() < self.names().len() {
                self.lines().push(outcome_line(reported(*result)))
            } else {
                self.lines()
            },
    {
        proof {
            use_type_invariant(&self);
        }
        if self.lines.len() >= self.names.len() {
            return self;
        }
        let line = match result {
            Ok(line) => line.clone(),
            Err(error) => {
                let mut line = String::from_str("Error: ");
                line.append(error.message().as_str());
                line
            },
        };
        let ghost before = self.lines();
        let mut lines = self.lines;
        lines.push(line);
        let next = Batch { names: self.names, lines };
        assert(next.lines() =~= before.push(outcome_line(reported(*result))));
        next
    }

    /// The report of the lines so far.
    pub fn finish(&self) -> (text: String)
        ensures
            text@ == report(self.lines()),
    {
        let mut text = String::from_str("```ansi\n");
        let mut i: usize = 0;
        while i < self.lines.len()
            invariant
                0 <= i <= self.lines.len(),
                text@ == "```ansi\n"@ + stacked(self.lines().take(i as int)),
            decreases self.lines.len() - i,
        {
            proof {
                assert(self.lines().take(i + 1).drop_last() =~= self.lines().take(i as int));
            }
            text.append(self.lines[i].as_str());
            text.append("\n");
            i = i + 1;
        }
        assert(self.lines().take(self.lines.len() as int) =~= self.lines());
        text.append("```");
        text
    }
}

/// A report that grows by one line keeps the lines that it had: the new
/// line and its line feed come in front of the closing mark, and nothing
/// before them changes.
pub proof fn lemma_report_grows_by_a_line(lines: Seq<Seq<char>>, line: Seq<char>)
    ensures
        stacked(lines.push(line)) == stacked(lines) + line + "\n"@,
        report(lines.push(line)) == "```ansi\n"@ + stacked(lines) + line + "\n"@ + "```"@,
{
    assert(lines.push(line).drop_last() =~= lines);
}

} // verus!
