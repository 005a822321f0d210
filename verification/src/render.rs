//! The text that the program shows: the list, one task in full, the usage.

use vstd::prelude::*;
use vstd::string::StringExecFns;
use crate::index::{arg_view, index_of, resolve_index, IndexError};
use crate::item::{Item, Task};
use crate::number::{decimal, write_number};
use crate::store::{flag_name, flag_text};

verus! {

/// The colours that the markers of the list are drawn in.
#[derive(Debug, Clone, Copy, PartialEq, Eq, Structural)]
pub enum Shade {
    Black,
    Green,
    Yellow,
}

impl Shade {
    /// The digit by which a terminal knows this colour.
    pub open spec fn digit(self) -> char {
        match self {
            Shade::Black => '0',
            Shade::Green => '2',
            Shade::Yellow => '3',
        }
    }
}

/// `text` as a terminal is to show it in the colour `foreground` on the
/// colour `background`: behind the control sequence that selects the two
/// colours, the background first, and before the one that resets the style.
pub open spec fn painted(foreground: Shade, background: Shade, text: Seq<char>) -> Seq<char> {
    seq!['\x1b', '[', '4', background.digit(), ';', '3', foreground.digit(), 'm'] + text
        + seq!['\x1b', '[', '0', 'm']
}

/// The marker of a task in the list: a ticked box on green for a task that is
/// done, an empty box on yellow for one that is not.
pub open spec fn marker(completed: bool) -> Seq<char> {
    if completed {
        painted(Shade::Black, Shade::Green, "[x]"@)
    } else {
        painted(Shade::Black, Shade::Yellow, "[ ]"@)
    }
}

/// The line of the list for the task at `position`: its number, counted from
/// one, its marker and its title.
pub open spec fn list_line(position: int, task: Task) -> Seq<char> {
    decimal((position + 1) as nat) + ". "@ + marker(task.completed) + " "@ + task.title + "\n"@
}

/// The list as it is shown: a heading, then one line for each task, in order.
pub open spec fn listing(tasks: Seq<Task>) -> Seq<char>
    decreases tasks.len(),
{
    if tasks.len() == 0 {
        "All items:\n"@
    } else {
        listing(tasks.drop_last()) + list_line(tasks.len() - 1, tasks.last())
    }
}

/// One task in full: its title, its flag, an empty line and its note.
pub open spec fn preview_text(task: Task) -> Seq<char> {
    "Title: "@ + task.title + "\nCompleted: "@ + flag_text(task.completed) + "\n\n"@ + task.note
        + "\n"@
}

/// The usage text, up to the name of the program.
pub open spec fn usage_head() -> Seq<char> {
    "A CLI ToDo list app\n\nUsage: "@
}

/// The usage text, from behind the name of the program.
pub open spec fn usage_tail() -> Seq<char> {
    " [OPTION]\n\nOptions:\n    --help, -h                      Display this help menu\n    --list, -l                      List all items in the todo list\n    --add, -a                       Interactively add a new todo item\n    --preview ITEM, -p ITEM         Preview an item in more detail\n    --edit-note ITEM, -en ITEM      Edit an item note\n    --edit-title ITEM, -et ITEM     Edit an item's title\n    --toggle ITEM, -t ITEM          Toggle complete status of an item\n    --delete ITEM, -d ITEM          Delete an item from the todo list\n    --erase-all                     Delete every item in the todo list\n\n"@
}

/// Paints `text` with `ansi_term`: it builds the style with `Colour::on`,
/// applies it with `Style::paint` and renders the painted string with
/// `to_string`.
///
/// Trusted: a painted string is written as the style's prefix, the text and
/// the style's suffix. For a style with both colours set and nothing else the
/// prefix is the escape character, `[`, the background's code (`4` and the
/// colour's digit), `;`, the foreground's code (`3` and the colour's digit)
/// and `m`; the suffix is the reset sequence, the escape character and `[0m`.
#[verifier::external_body]
fn paint(foreground: Shade, background: Shade, text: &str) -> (out: String)
    ensures
        out@ == painted(foreground, background, text@),
{
    let colour = |shade: Shade| match shade {
        Shade::Black => ansi_term::Colour::Black,
        Shade::Green => ansi_term::Colour::Green,
        Shade::Yellow => ansi_term::Colour::Yellow,
    };
    colour(foreground).on(colour(background)).paint(text).to_string()
}

/// The marker of a task in the list.
pub fn task_marker(completed: bool) -> (out: String)
    ensures
        out@ == marker(completed),
{
    if completed {
        paint(Shade::Black, Shade::Green, "[x]")
    } else {
        paint(Shade::Black, Shade::Yellow, "[ ]")
    }
}

/// The list as it is shown: every task with its number, counted from one, and
/// its marker.
pub fn list_tasks(tasks: &Vec<Item>) -> (out: String)
    ensures
        out@ == listing(tasks.deep_view()),
{
    let mut out = String::from_str("All items:\n");
    let ghost model = tasks.deep_view();
    let mut i: usize = 0;
    while i < tasks.len()
        invariant
            i <= tasks.len(),
            model == tasks.deep_view(),
            out@ == listing(model.take(i as int)),
        decreases tasks.len() - i,
    {
        let number = write_number(i + 1);
        let sign = task_marker(tasks[i].completed);
        assert(model.take(i + 1).drop_last() =~= model.take(i as int));
        out.append(number.as_str());
        out.append(". ");
        out.append(sign.as_str());
        out.append(" ");
        out.append(tasks[i].item.as_str());
        out.append("\n");
        i += 1;
    }
    assert(model.take(i as int) =~= model);
    out
}

/// The task that `arg` names, in full.
pub fn preview_task(tasks: &Vec<Item>, arg: Option<&str>) -> (out: Result<String, IndexError>)
    ensures
        match index_of(arg_view(arg), tasks@.len()) {
            Ok(i) => out is Ok && out->Ok_0@ == preview_text(tasks@[i as int]@),
            Err(e) => out == Err::<String, IndexError>(e),
        },
{
    let index = resolve_index(arg, tasks.len())?;
    let mut out = String::from_str("Title: ");
    out.append(tasks[index].item.as_str());
    out.append("\nCompleted: ");
    out.append(flag_name(tasks[index].completed));
    out.append("\n\n");
    out.append(tasks[index].note.as_str());
    out.append("\n");
    Ok(out)
}

/// The usage text for the program that was started as `program`.
pub fn help_text(program: &str) -> (out: String)
    ensures
        out@ == usage_head() + program@ + usage_tail(),
{
    let mut out = String::from_str("A CLI ToDo list app\n\nUsage: ");
    out.append(program);
    out.append(
        " [OPTION]\n\nOptions:\n    --help, -h                      Display this help menu\n    --list, -l                      List all items in the todo list\n    --add, -a                       Interactively add a new todo item\n    --preview ITEM, -p ITEM         Preview an item in more detail\n    --edit-note ITEM, -en ITEM      Edit an item note\n    --edit-title ITEM, -et ITEM     Edit an item's title\n    --toggle ITEM, -t ITEM          Toggle complete status of an item\n    --delete ITEM, -d ITEM          Delete an item from the todo list\n    --erase-all                     Delete every item in the todo list\n\n",
    );
    out
}

} // verus!
