//! A plain-data description of a command-line interface: a command with
//! its documentation, arguments and subcommands.
//!
//! The description mirrors what an argument parser holds, but as owned
//! strings and vectors, so it can be exported (for instance as JSON for
//! tooling that renders CLI definitions) and rebuilt into a parser
//! elsewhere. Building it from, or turning it back into, a parser's own
//! types is boundary glue and lives with the parser; the rules for how
//! names are displayed live here.

use vstd::prelude::*;

verus! {

/// One admissible value of an argument, with its help text.
#[derive(Debug, Clone, PartialEq, Eq)]
pub struct PossibleValues {
    pub name: String,
    pub help: String,
}

/// One argument of a command: its display name, its admissible values,
/// its short and long aliases, its help texts, the display names of the
/// arguments it conflicts with, and whether it may repeat.
#[derive(Debug, Clone, PartialEq, Eq)]
pub struct ArgInfo {
    pub name: String,
    pub possible_values: Vec<PossibleValues>,
    pub short: Option<Vec<char>>,
    pub aliases: Vec<String>,
    pub help: Option<String>,
    pub long_help: Option<String>,
    pub conflicts: Vec<String>,
    pub is_repeatable: bool,
}

/// A command: its name, its documentation, and its subcommands and
/// arguments.
#[derive(Debug)]
pub struct CommandInfo {
    pub name: String,
    pub description: Option<String>,
    pub long_help: Option<String>,
    pub subcommands: Vec<CommandInfo>,
    pub args: Vec<ArgInfo>,
}

/// The long (double-dash) spelling of a flag name.
pub fn long_flag(name: &String) -> (r: String)
    ensures
        r@ == "--"@ + name@,
{
    let r = String::from_str("--");
    r.concat(name.as_str())
}

/// How an argument is displayed: with the double-dash prefix when it
/// has a long form, bare otherwise.
pub fn arg_display_name(name: &String, has_long: bool) -> (r: String)
    ensures
        has_long ==> r@ == "--"@ + name@,
        !has_long ==> r@ == name@,
{
    if has_long {
        long_flag(name)
    } else {
        name.clone()
    }
}

/// The long spellings of a list of alias names, in order.
pub fn long_aliases(names: &Vec<String>) -> (r: Vec<String>)
    ensures
        r@.len() == names@.len(),
        forall|i: int| 0 <= i < names@.len() ==> (#[trigger] r@[i])@ == "--"@ + names@[i]@,
{
    let mut r: Vec<String> = Vec::new();
    let mut i: usize = 0;
    while i < names.len()
        invariant
            i <= names.len(),
            r@.len() == i,
            forall|j: int| 0 <= j < i ==> (#[trigger] r@[j])@ == "--"@ + names@[j]@,
        decreases names.len() - i,
    {
        r.push(long_flag(&names[i]));
        i += 1;
    }
    r
}

} // verus!
