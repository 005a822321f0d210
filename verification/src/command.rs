//! The commands of the to-do list and the words that select them.

use vstd::prelude::*;
use crate::index::arg_view;
use crate::text::same_text;

verus! {

/// What one run of the program is asked to do.
#[derive(Debug, Clone, Copy, PartialEq, Eq, Structural)]
pub enum Command {
    /// Show every task with its number and its marker.
    List,
    /// Show one task in full.
    Preview,
    /// Append a new task.
    Add,
    /// Rewrite the note of one task.
    EditNote,
    /// Give one task another title.
    EditTitle,
    /// Flip the completion flag of one task.
    Toggle,
    /// Remove one task.
    Delete,
    /// Remove every task.
    EraseAll,
    /// Show the usage text.
    Help,
}

impl Command {
    /// The name of the command.
    pub open spec fn name(self) -> Seq<char> {
        match self {
            Command::List => "list"@,
            Command::Preview => "preview"@,
            Command::Add => "add"@,
            Command::EditNote => "edit-note"@,
            Command::EditTitle => "edit-title"@,
            Command::Toggle => "toggle"@,
            Command::Delete => "delete"@,
            Command::EraseAll => "erase-all"@,
            Command::Help => "help"@,
        }
    }

    /// The long option of the command: its name behind two dashes.
    pub open spec fn long_option(self) -> Seq<char> {
        match self {
            Command::List => "--list"@,
            Command::Preview => "--preview"@,
            Command::Add => "--add"@,
            Command::EditNote => "--edit-note"@,
            Command::EditTitle => "--edit-title"@,
            Command::Toggle => "--toggle"@,
            Command::Delete => "--delete"@,
            Command::EraseAll => "--erase-all"@,
            Command::Help => "--help"@,
        }
    }

    /// The short option of the command. Erasing everything has none.
    pub open spec fn short_option(self) -> Option<Seq<char>> {
        match self {
            Command::List => Some("-l"@),
            Command::Preview => Some("-p"@),
            Command::Add => Some("-a"@),
            Command::EditNote => Some("-en"@),
            Command::EditTitle => Some("-et"@),
            Command::Toggle => Some("-t"@),
            Command::Delete => Some("-d"@),
            Command::EraseAll => None,
            Command::Help => Some("-h"@),
        }
    }

    /// Whether `word` selects this command: it is the command's name, its
    /// long option or its short option.
    pub open spec fn answers_to(self, word: Seq<char>) -> bool {
        word == self.name() || word == self.long_option() || self.short_option() == Some(word)
    }
}

/// The command that the first argument of the program selects.
///
/// The commands are tried in the order given here, and the first that answers
/// to the argument is taken. A missing argument, and one that no command
/// answers to, select the usage text.
pub open spec fn command_of(arg: Option<Seq<char>>) -> Command {
    match arg {
        None => Command::Help,
        Some(word) => if Command::List.answers_to(word) {
            Command::List
        } else if Command::Help.answers_to(word) {
            Command::Help
        } else if Command::Preview.answers_to(word) {
            Command::Preview
        } else if Command::Add.answers_to(word) {
            Command::Add
        } else if Command::EditNote.answers_to(word) {
            Command::EditNote
        } else if Command::EditTitle.answers_to(word) {
            Command::EditTitle
        } else if Command::Toggle.answers_to(word) {
            Command::Toggle
        } else if Command::Delete.answers_to(word) {
            Command::Delete
        } else if Command::EraseAll.answers_to(word) {
            Command::EraseAll
        } else {
            Command::Help
        },
    }
}

/// No word selects two commands, so a word selects the command that answers
/// to it, whatever the order in which the commands are tried.
pub proof fn lemma_command_selected(command: Command, word: Seq<char>)
    requires
        command.answers_to(word),
    ensures
        command_of(Some(word)) == command,
{
    reveal_strlit("list");
    reveal_strlit("--list");
    reveal_strlit("-l");
    reveal_strlit("preview");
    reveal_strlit("--preview");
    reveal_strlit("-p");
    reveal_strlit("add");
    reveal_strlit("--add");
    reveal_strlit("-a");
    reveal_strlit("edit-note");
    reveal_strlit("--edit-note");
    reveal_strlit("-en");
    reveal_strlit("edit-title");
    reveal_strlit("--edit-title");
    reveal_strlit("-et");
    reveal_strlit("toggle");
    reveal_strlit("--toggle");
    reveal_strlit("-t");
    reveal_strlit("delete");
    reveal_strlit("--delete");
    reveal_strlit("-d");
    reveal_strlit("erase-all");
    reveal_strlit("--erase-all");
    reveal_strlit("help");
    reveal_strlit("--help");
    reveal_strlit("-h");
    // Naming the characters of `word` lets the solver compare it with each
    // name, character by character.
    assert(is_char(word[0]) && is_char(word[1]) && is_char(word[2]) && is_char(word[3]));
    assert(is_char(word[4]) && is_char(word[5]) && is_char(word[6]) && is_char(word[7]));
    assert(is_char(word[8]) && is_char(word[9]) && is_char(word[10]) && is_char(word[11]));
}

/// Holds of every character: a way to speak of one.
spec fn is_char(c: char) -> bool {
    true
}

/// Whether `word` is one of `first`, `second` and `third`.
fn one_of(word: &str, first: &str, second: &str, third: &str) -> (found: bool)
    ensures
        found == (word@ == first@ || word@ == second@ || word@ == third@),
{
    same_text(word, first) || same_text(word, second) || same_text(word, third)
}

/// Selects the command for the first argument of the program.
pub fn parse_command(arg: Option<&str>) -> (command: Command)
    ensures
        command == command_of(arg_view(arg)),
{
    match arg {
        None => Command::Help,
        Some(word) => if one_of(word, "list", "--list", "-l") {
            Command::List
        } else if one_of(word, "help", "--help", "-h") {
            Command::Help
        } else if one_of(word, "preview", "--preview", "-p") {
            Command::Preview
        } else if one_of(word, "add", "--add", "-a") {
            Command::Add
        } else if one_of(word, "edit-note", "--edit-note", "-en") {
            Command::EditNote
        } else if one_of(word, "edit-title", "--edit-title", "-et") {
            Command::EditTitle
        } else if one_of(word, "toggle", "--toggle", "-t") {
            Command::Toggle
        } else if one_of(word, "delete", "--delete", "-d") {
            Command::Delete
        } else if same_text(word, "erase-all") || same_text(word, "--erase-all") {
            Command::EraseAll
        } else {
            Command::Help
        },
    }
}

} // verus!
