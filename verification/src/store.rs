//! The commands that change the task list.
//!
//! Each command works on the list in memory. It resolves its own index
//! argument, and leaves the list as it was whenever that argument names no
//! task. Writing the list back to its file is the caller's part: a command
//! that may or may not change the list says which it did.

use vstd::prelude::*;
use vstd::string::StringExecFns;
use crate::index::{arg_view, index_of, resolve_index, IndexError};
use crate::item::{Item, Task};
use crate::text::{trim, trimmed};

verus! {

/// The content of a data file that holds no task.
pub const EMPTY_LIST: &'static str = "[]";

/// The text put before the user who is to write the note of a new task.
pub const NOTE_PLACEHOLDER: &'static str =
    "# Add a note to the todo item (Remember to remove this line before saving)";

/// The question asked before a new task's title is read.
pub const TITLE_PROMPT: &'static str = "Enter item title: ";

/// The question asked before every task is erased.
pub const ERASE_PROMPT: &'static str = "Are you sure you want to erase all items? [yN] ";

/// The editor that is started where none is configured.
pub const DEFAULT_EDITOR: &'static str = "vi";

/// Whether `response` answers a yes-or-no question with yes: its first
/// character is `y` or `Y`.
pub open spec fn is_affirmative(response: Seq<char>) -> bool {
    response.len() > 0 && (response[0] == 'y' || response[0] == 'Y')
}

/// Whether the lists `before` and `after` hold the same tasks at every
/// position but `i`: the one place where they may differ.
pub open spec fn changes_only(before: Seq<Item>, after: Seq<Item>, i: int) -> bool {
    after == before.update(i, after[i])
}

/// `task` with its completion flag flipped.
pub open spec fn toggled(task: Task) -> Task {
    Task { completed: !task.completed, ..task }
}

/// `task` under another title.
pub open spec fn retitled(task: Task, title: Seq<char>) -> Task {
    Task { title, ..task }
}

/// `task` with another note.
pub open spec fn annotated(task: Task, note: Seq<char>) -> Task {
    Task { note, ..task }
}

/// The task that `add_task` makes of a title and a note as they were typed.
pub open spec fn fresh_task(title: Seq<char>, note: Seq<char>) -> Task {
    Task { title: trimmed(title), note: trimmed(note), completed: false }
}

/// How a flag is written out.
pub open spec fn flag_text(flag: bool) -> Seq<char> {
    if flag {
        "true"@
    } else {
        "false"@
    }
}

/// What `toggle_item` reports of the task it found, before it flips the flag.
pub open spec fn toggle_report(task: Task) -> Seq<char> {
    "Title: "@ + task.title + "\nOriginal: "@ + flag_text(task.completed) + "\nCurrent: "@
        + flag_text(!task.completed) + "\n"@
}

/// The question that `delete_item` expects an answer to.
pub open spec fn delete_question(task: Task) -> Seq<char> {
    "Are you sure you want to delete this item \""@ + task.title + "\"? [yN] "@
}

/// The lines shown before a new title is read.
pub open spec fn title_question(task: Task) -> Seq<char> {
    "Original title: "@ + task.title + "\nNew title (Leave empty to leave unchanged): "@
}

/// Decides `is_affirmative`.
pub fn confirmed(response: &str) -> (yes: bool)
    ensures
        yes == is_affirmative(response@),
{
    if response.is_empty() {
        false
    } else {
        let first = response.get_char(0);
        first == 'y' || first == 'Y'
    }
}

/// How a flag is written out.
pub fn flag_name(flag: bool) -> (name: &'static str)
    ensures
        name@ == flag_text(flag),
{
    if flag {
        "true"
    } else {
        "false"
    }
}

/// What is to be written to a data file before its content is read as a task
/// list: `EMPTY_LIST` for a file without content, nothing for any other.
pub fn bootstrap(content: &str) -> (fresh: Option<String>)
    ensures
        content@.len() == 0 ==> fresh is Some && fresh->0@ == EMPTY_LIST@,
        content@.len() != 0 ==> fresh is None,
{
    if content.is_empty() {
        Some(EMPTY_LIST.to_owned())
    } else {
        None
    }
}

/// The editor to start: the configured one, or `DEFAULT_EDITOR`.
pub fn editor_program(configured: Option<String>) -> (program: String)
    ensures
        program@ == (match configured {
            Some(name) => name@,
            None => DEFAULT_EDITOR@,
        }),
{
    match configured {
        Some(name) => name,
        None => DEFAULT_EDITOR.to_owned(),
    }
}

/// Appends a task that is not done, under the title and with the note that
/// were typed, each without the white space around it.
pub fn add_task(tasks: &mut Vec<Item>, title: &str, note: &str)
    ensures
        final(tasks)@ == old(tasks)@.push(final(tasks)@.last()),
        final(tasks)@.last()@ == fresh_task(title@, note@),
{
    let item = Item::new(trim(title).to_owned(), trim(note).to_owned());
    tasks.push(item);
}

/// The note of the task that `arg` names, to start the editing from.
pub fn note_seed(tasks: &Vec<Item>, arg: Option<&str>) -> (seed: Result<String, IndexError>)
    ensures
        match index_of(arg_view(arg), tasks@.len()) {
            Ok(i) => seed is Ok && seed->Ok_0@ == tasks@[i as int]@.note,
            Err(e) => seed == Err::<String, IndexError>(e),
        },
{
    let index = resolve_index(arg, tasks.len())?;
    Ok(tasks[index].note.clone())
}

/// Replaces the note of the task that `arg` names by `note`, as it is.
pub fn edit_note(tasks: &mut Vec<Item>, arg: Option<&str>, note: String) -> (done: Result<
    (),
    IndexError,
>)
    ensures
        match index_of(arg_view(arg), old(tasks)@.len()) {
            Ok(i) => {
                &&& done is Ok
                &&& changes_only(old(tasks)@, final(tasks)@, i as int)
                &&& final(tasks)@[i as int]@ == annotated(old(tasks)@[i as int]@, note@)
            },
            Err(e) => done == Err::<(), IndexError>(e) && *final(tasks) == *old(tasks),
        },
{
    let index = resolve_index(arg, tasks.len())?;
    tasks[index].note = note;
    Ok(())
}

/// The lines to show before the new title of the task that `arg` names is
/// read.
pub fn title_prompt(tasks: &Vec<Item>, arg: Option<&str>) -> (prompt: Result<String, IndexError>)
    ensures
        match index_of(arg_view(arg), tasks@.len()) {
            Ok(i) => prompt is Ok && prompt->Ok_0@ == title_question(tasks@[i as int]@),
            Err(e) => prompt == Err::<String, IndexError>(e),
        },
{
    let index = resolve_index(arg, tasks.len())?;
    let mut prompt = String::from_str("Original title: ");
    prompt.append(tasks[index].item.as_str());
    prompt.append("\nNew title (Leave empty to leave unchanged): ");
    Ok(prompt)
}

/// Gives the task that `arg` names the title typed in `response`, without the
/// white space around it. A response of white space alone changes nothing.
///
/// Returns whether the list changed.
pub fn edit_title(tasks: &mut Vec<Item>, arg: Option<&str>, response: &str) -> (changed: Result<
    bool,
    IndexError,
>)
    ensures
        match index_of(arg_view(arg), old(tasks)@.len()) {
            Ok(i) => if trimmed(response@).len() > 0 {
                &&& changed == Ok::<bool, IndexError>(true)
                &&& changes_only(old(tasks)@, final(tasks)@, i as int)
                &&& final(tasks)@[i as int]@ == retitled(
                    old(tasks)@[i as int]@,
                    trimmed(response@),
                )
            } else {
                changed == Ok::<bool, IndexError>(false) && *final(tasks) == *old(tasks)
            },
            Err(e) => changed == Err::<bool, IndexError>(e) && *final(tasks) == *old(tasks),
        },
{
    let index = resolve_index(arg, tasks.len())?;
    let title = trim(response);
    if title.is_empty() {
        Ok(false)
    } else {
        tasks[index].item = title.to_owned();
        Ok(true)
    }
}

/// Flips the completion flag of the task that `arg` names.
///
/// Returns the report of the change: the title, the flag as it was and as it
/// is now.
pub fn toggle_item(tasks: &mut Vec<Item>, arg: Option<&str>) -> (report: Result<String, IndexError>)
    ensures
        match index_of(arg_view(arg), old(tasks)@.len()) {
            Ok(i) => {
                &&& report is Ok
                &&& report->Ok_0@ == toggle_report(old(tasks)@[i as int]@)
                &&& changes_only(old(tasks)@, final(tasks)@, i as int)
                &&& final(tasks)@[i as int]@ == toggled(old(tasks)@[i as int]@)
            },
            Err(e) => report == Err::<String, IndexError>(e) && *final(tasks) == *old(tasks),
        },
{
    let index = resolve_index(arg, tasks.len())?;
    let was = tasks[index].completed;
    let mut report = String::from_str("Title: ");
    report.append(tasks[index].item.as_str());
    report.append("\nOriginal: ");
    report.append(flag_name(was));
    report.append("\nCurrent: ");
    report.append(flag_name(!was));
    report.append("\n");
    tasks[index].completed = !was;
    Ok(report)
}

/// The question to ask before the task that `arg` names is deleted.
pub fn delete_prompt(tasks: &Vec<Item>, arg: Option<&str>) -> (prompt: Result<String, IndexError>)
    ensures
        match index_of(arg_view(arg), tasks@.len()) {
            Ok(i) => prompt is Ok && prompt->Ok_0@ == delete_question(tasks@[i as int]@),
            Err(e) => prompt == Err::<String, IndexError>(e),
        },
{
    let index = resolve_index(arg, tasks.len())?;
    let mut prompt = String::from_str("Are you sure you want to delete this item \"");
    prompt.append(tasks[index].item.as_str());
    prompt.append("\"? [yN] ");
    Ok(prompt)
}

/// Removes the task that `arg` names, if `response` says yes to it. The tasks
/// behind it move up by one.
///
/// Returns whether the list changed.
pub fn delete_item(tasks: &mut Vec<Item>, arg: Option<&str>, response: &str) -> (changed: Result<
    bool,
    IndexError,
>)
    ensures
        match index_of(arg_view(arg), old(tasks)@.len()) {
            Ok(i) => if is_affirmative(response@) {
                &&& changed == Ok::<bool, IndexError>(true)
                &&& final(tasks)@ == old(tasks)@.remove(i as int)
            } else {
                changed == Ok::<bool, IndexError>(false) && *final(tasks) == *old(tasks)
            },
            Err(e) => changed == Err::<bool, IndexError>(e) && *final(tasks) == *old(tasks),
        },
{
    let index = resolve_index(arg, tasks.len())?;
    if confirmed(response) {
        tasks.remove(index);
        Ok(true)
    } else {
        Ok(false)
    }
}

/// What is to be written over the data file when every task is erased:
/// `EMPTY_LIST` if `response` says yes, nothing if not.
pub fn erase_all(response: &str) -> (content: Option<String>)
    ensures
        is_affirmative(response@) ==> content is Some && content->0@ == EMPTY_LIST@,
        !is_affirmative(response@) ==> content is None,
{
    if confirmed(response) {
        Some(EMPTY_LIST.to_owned())
    } else {
        None
    }
}

} // verus!
