//! Command lines that the remediation and firewall modules ask the operating
//! system to run.

use vstd::prelude::*;
use crate::text::string_views;

verus! {

/// The operating system the engine runs on, chosen at start-up.
#[derive(Debug, Clone, Copy, PartialEq, Eq, Structural)]
pub enum Platform {
    Windows,
    /// Any other system: nothing is run there.
    Other,
}

/// A program and its arguments.
#[derive(Debug, Clone)]
pub struct CommandLine {
    pub program: String,
    pub args: Vec<String>,
}

pub struct CommandView {
    pub program: Seq<char>,
    pub args: Seq<Seq<char>>,
}

impl View for CommandLine {
    type V = CommandView;

    open spec fn view(&self) -> CommandView {
        CommandView { program: self.program@, args: string_views(self.args@) }
    }
}

/// The views of a list of command lines.
pub open spec fn command_views(plan: Seq<CommandLine>) -> Seq<CommandView> {
    Seq::new(plan.len(), |i: int| plan[i]@)
}

/// The views of a list of string slices.
pub open spec fn str_views(items: Seq<&str>) -> Seq<Seq<char>> {
    Seq::new(items.len(), |i: int| items[i]@)
}

/// Owned copies of a list of string slices.
pub fn owned_strings(items: &Vec<&str>) -> (owned: Vec<String>)
    ensures
        string_views(owned@) == str_views(items@),
{
    let mut owned: Vec<String> = Vec::new();
    let mut i: usize = 0;
    while i < items.len()
        invariant
            i <= items.len(),
            owned@.len() == i,
            string_views(owned@) == str_views(items@.take(i as int)),
        decreases items.len() - i,
    {
        let ghost before = owned@;
        let item: String = items[i].to_owned();
        owned.push(item);
        i += 1;
        assert forall|k: int| 0 <= k < i implies string_views(owned@)[k] == str_views(
            items@.take(i as int),
        )[k] by {
            if k < i - 1 {
                assert(owned@[k] == before[k]);
                assert(string_views(before)[k] == str_views(items@.take(i - 1))[k]);
            }
        }
        assert(string_views(owned@) =~= str_views(items@.take(i as int)));
    }
    assert(items@.take(items.len() as int) =~= items@);
    owned
}

/// The command line of `program` with `args`.
pub fn command(program: &str, args: &Vec<&str>) -> (line: CommandLine)
    ensures
        line@ == (CommandView { program: program@, args: str_views(args@) }),
{
    CommandLine { program: program.to_owned(), args: owned_strings(args) }
}

/// Appends the command lines of `more` to `plan`.
pub fn extend_plan(plan: &mut Vec<CommandLine>, more: Vec<CommandLine>)
    ensures
        command_views(final(plan)@) == command_views(old(plan)@) + command_views(more@),
{
    let ghost added = more@;
    let mut more = more;
    plan.append(&mut more);
    assert(command_views(plan@) =~= command_views(old(plan)@) + command_views(added));
}

} // verus!
