//! Data model of the serial command-line front end: the table of commands
//! and the lookup of a received line's first word in it.  Reading bytes,
//! echoing, and running a command's action stay with the platform layer.

use vstd::prelude::*;
use vstd::slice::slice_subrange;
use vstd::string::StringSliceAdditionalSpecFns;
use crate::drivers::terminal::Terminal;
use crate::text::{bytes_eq, find_byte_at, first_word};

verus! {

/// One console command: its name and the help line shown for it.
pub struct Command {
    pub name: &'static str,
    pub description: &'static str,
}

impl Command {
    pub fn new(name: &'static str, description: &'static str) -> (r: Self)
        ensures
            r.name == name,
            r.description == description,
    {
        Self { name, description }
    }
}

/// The index of the first command whose name is `word`, scanning from
/// `from`.
pub open spec fn command_index(commands: Seq<Command>, word: Seq<u8>, from: int) -> Option<int>
    decreases commands.len() - from,
{
    if from < 0 || from >= commands.len() {
        None
    } else if commands[from].name.spec_bytes() == word {
        Some(from)
    } else {
        command_index(commands, word, from + 1)
    }
}

/// Which command a received line selects: the first command whose name
/// equals the line's first word.
pub fn find_command(commands: &[Command], line: &[u8]) -> (r: Option<usize>)
    ensures
        r == (match command_index(commands@, first_word(line@), 0) {
            Some(p) => Some(p as usize),
            None => Option::<usize>::None,
        }),
{
    let e = match find_byte_at(line, 32, 0) {
        None => line.len(),
        Some(p) => p,
    };
    let word = slice_subrange(line, 0, e);
    let mut i: usize = 0;
    while i < commands.len()
        invariant
            i <= commands@.len(),
            word@ == first_word(line@),
            command_index(commands@, first_word(line@), 0) == command_index(
                commands@,
                first_word(line@),
                i as int,
            ),
        decreases commands@.len() - i,
    {
        if bytes_eq(commands[i].name.as_bytes(), word) {
            return Some(i);
        }
        i = i + 1;
    }
    None
}

/// The command-line front end: a terminal accumulating the line, and the
/// table of commands the application registered.
pub struct CLI<'a> {
    pub terminal: Terminal,
    pub commands: &'a [Command],
}

impl<'a> CLI<'a> {
    pub fn new(commands: &'a [Command]) -> (r: Self)
        ensures
            r.commands == commands,
            r.terminal.line() == Seq::<u8>::empty(),
    {
        CLI { terminal: Terminal::new(), commands }
    }
}

} // verus!
