use cli_todo::index::IndexError;
use cli_todo::item::Item;
use cli_todo::store::{
    add_task, bootstrap, confirmed, delete_item, delete_prompt, edit_note, edit_title,
    editor_program, erase_all, note_seed, title_prompt, toggle_item, DEFAULT_EDITOR, EMPTY_LIST,
    ERASE_PROMPT, NOTE_PLACEHOLDER, TITLE_PROMPT,
};

fn task(title: &str, note: &str, completed: bool) -> Item {
    Item { item: title.to_string(), note: note.to_string(), completed }
}

fn two_tasks() -> Vec<Item> {
    vec![task("First task", "description text", false), task("Second task", "", true)]
}

#[test]
fn new_item_is_not_done() {
    let made = Item::new("Buy milk".to_string(), "2% please".to_string());
    assert_eq!(made, task("Buy milk", "2% please", false));
}

#[test]
fn add_to_empty_list_appends_one_open_task() {
    let mut tasks: Vec<Item> = Vec::new();
    add_task(&mut tasks, "Buy milk", "2% please");
    assert_eq!(tasks, vec![task("Buy milk", "2% please", false)]);
}

#[test]
fn add_trims_title_and_note() {
    let mut tasks = two_tasks();
    add_task(&mut tasks, "  Call home \n", "\n after six\t\n");
    assert_eq!(tasks.len(), 3);
    assert_eq!(tasks[0], two_tasks()[0]);
    assert_eq!(tasks[1], two_tasks()[1]);
    assert_eq!(tasks[2], task("Call home", "after six", false));
}

#[test]
fn add_keeps_inner_white_space_and_accepts_blank_input() {
    let mut tasks: Vec<Item> = Vec::new();
    add_task(&mut tasks, " a  b ", "line one\n\nline three\n");
    add_task(&mut tasks, "\n", "   ");
    assert_eq!(tasks[0], task("a  b", "line one\n\nline three", false));
    assert_eq!(tasks[1], task("", "", false));
}

#[test]
fn toggle_sets_then_clears_the_flag() {
    let mut tasks = vec![task("Only", "n", false)];
    let report = toggle_item(&mut tasks, Some("1"));
    assert_eq!(report, Ok("Title: Only\nOriginal: false\nCurrent: true\n".to_string()));
    assert_eq!(tasks, vec![task("Only", "n", true)]);
    let report = toggle_item(&mut tasks, Some("1"));
    assert_eq!(report, Ok("Title: Only\nOriginal: true\nCurrent: false\n".to_string()));
    assert_eq!(tasks, vec![task("Only", "n", false)]);
}

#[test]
fn toggle_twice_restores_the_list() {
    let mut tasks = two_tasks();
    assert!(toggle_item(&mut tasks, Some("2")).is_ok());
    assert_eq!(tasks[0], two_tasks()[0]);
    assert_eq!(tasks[1], task("Second task", "", false));
    assert!(toggle_item(&mut tasks, Some("2")).is_ok());
    assert_eq!(tasks, two_tasks());
}

#[test]
fn toggle_rejects_bad_indices_and_leaves_the_list() {
    let mut tasks = two_tasks();
    assert_eq!(toggle_item(&mut tasks, None), Err(IndexError::MissingIndexArgument));
    assert_eq!(toggle_item(&mut tasks, Some("0")), Err(IndexError::IndexOutOfRange));
    assert_eq!(toggle_item(&mut tasks, Some("3")), Err(IndexError::IndexOutOfRange));
    assert_eq!(toggle_item(&mut tasks, Some("-1")), Err(IndexError::InvalidIndexFormat));
    assert_eq!(toggle_item(&mut tasks, Some("one")), Err(IndexError::InvalidIndexFormat));
    assert_eq!(tasks, two_tasks());
}

#[test]
fn delete_second_of_two_keeps_the_first() {
    let mut tasks = two_tasks();
    assert_eq!(delete_item(&mut tasks, Some("2"), "y"), Ok(true));
    assert_eq!(tasks, vec![task("First task", "description text", false)]);
}

#[test]
fn delete_moves_later_tasks_up() {
    let mut tasks = vec![task("a", "", false), task("b", "", true), task("c", "", false)];
    assert_eq!(delete_item(&mut tasks, Some("1"), "Yes\n"), Ok(true));
    assert_eq!(tasks, vec![task("b", "", true), task("c", "", false)]);
    assert_eq!(toggle_item(&mut tasks, Some("1")).is_ok(), true);
    assert_eq!(tasks[0], task("b", "", false));
}

#[test]
fn delete_on_empty_list_is_out_of_range() {
    let mut tasks: Vec<Item> = Vec::new();
    assert_eq!(delete_item(&mut tasks, Some("1"), "y"), Err(IndexError::IndexOutOfRange));
    assert_eq!(tasks, Vec::<Item>::new());
}

#[test]
fn delete_without_consent_changes_nothing() {
    let mut tasks = two_tasks();
    assert_eq!(delete_item(&mut tasks, Some("1"), "n"), Ok(false));
    assert_eq!(delete_item(&mut tasks, Some("1"), ""), Ok(false));
    assert_eq!(delete_item(&mut tasks, Some("1"), "\n"), Ok(false));
    assert_eq!(delete_item(&mut tasks, Some("1"), "no, yes"), Ok(false));
    assert_eq!(tasks, two_tasks());
}

#[test]
fn delete_checks_the_index_before_the_answer() {
    let mut tasks = two_tasks();
    assert_eq!(delete_item(&mut tasks, Some("7"), "y"), Err(IndexError::IndexOutOfRange));
    assert_eq!(delete_item(&mut tasks, Some("x"), "n"), Err(IndexError::InvalidIndexFormat));
    assert_eq!(delete_item(&mut tasks, None, "y"), Err(IndexError::MissingIndexArgument));
    assert_eq!(tasks, two_tasks());
}

#[test]
fn delete_prompt_quotes_the_title() {
    let tasks = two_tasks();
    assert_eq!(
        delete_prompt(&tasks, Some("1")),
        Ok("Are you sure you want to delete this item \"First task\"? [yN] ".to_string())
    );
    assert_eq!(delete_prompt(&tasks, Some("3")), Err(IndexError::IndexOutOfRange));
    assert_eq!(delete_prompt(&tasks, None), Err(IndexError::MissingIndexArgument));
}

#[test]
fn confirmation_goes_by_the_first_character() {
    assert!(confirmed("y"));
    assert!(confirmed("Y"));
    assert!(confirmed("yes\n"));
    assert!(confirmed("Yup"));
    assert!(!confirmed(""));
    assert!(!confirmed("n"));
    assert!(!confirmed("N"));
    assert!(!confirmed("\n"));
    assert!(!confirmed(" y"));
    assert!(!confirmed("ny"));
}

#[test]
fn edit_title_takes_the_trimmed_response() {
    let mut tasks = two_tasks();
    assert_eq!(edit_title(&mut tasks, Some("2"), "  Renamed task \n"), Ok(true));
    assert_eq!(tasks[0], two_tasks()[0]);
    assert_eq!(tasks[1], task("Renamed task", "", true));
}

#[test]
fn edit_title_ignores_a_blank_response() {
    let mut tasks = two_tasks();
    assert_eq!(edit_title(&mut tasks, Some("1"), ""), Ok(false));
    assert_eq!(edit_title(&mut tasks, Some("1"), "\n"), Ok(false));
    assert_eq!(edit_title(&mut tasks, Some("1"), " \t \u{a0}\n"), Ok(false));
    assert_eq!(tasks, two_tasks());
}

#[test]
fn edit_title_rejects_bad_indices() {
    let mut tasks = two_tasks();
    assert_eq!(edit_title(&mut tasks, Some("0"), "x"), Err(IndexError::IndexOutOfRange));
    assert_eq!(edit_title(&mut tasks, Some("2x"), "x"), Err(IndexError::InvalidIndexFormat));
    assert_eq!(edit_title(&mut tasks, None, "x"), Err(IndexError::MissingIndexArgument));
    assert_eq!(tasks, two_tasks());
}

#[test]
fn title_prompt_shows_the_old_title() {
    let tasks = two_tasks();
    assert_eq!(
        title_prompt(&tasks, Some("2")),
        Ok("Original title: Second task\nNew title (Leave empty to leave unchanged): ".to_string())
    );
    assert_eq!(title_prompt(&tasks, Some("")), Err(IndexError::InvalidIndexFormat));
}

#[test]
fn edit_note_stores_the_text_as_it_is() {
    let mut tasks = two_tasks();
    assert_eq!(edit_note(&mut tasks, Some("1"), "  new note\nsecond line\n\n".to_string()), Ok(()));
    assert_eq!(tasks[0], task("First task", "  new note\nsecond line\n\n", false));
    assert_eq!(tasks[1], two_tasks()[1]);
    assert_eq!(edit_note(&mut tasks, Some("1"), String::new()), Ok(()));
    assert_eq!(tasks[0], task("First task", "", false));
}

#[test]
fn edit_note_rejects_bad_indices() {
    let mut tasks = two_tasks();
    assert_eq!(
        edit_note(&mut tasks, Some("3"), "x".to_string()),
        Err(IndexError::IndexOutOfRange)
    );
    assert_eq!(edit_note(&mut tasks, None, "x".to_string()), Err(IndexError::MissingIndexArgument));
    assert_eq!(
        edit_note(&mut tasks, Some("1.0"), "x".to_string()),
        Err(IndexError::InvalidIndexFormat)
    );
    assert_eq!(tasks, two_tasks());
}

#[test]
fn note_seed_is_the_current_note() {
    let tasks = two_tasks();
    assert_eq!(note_seed(&tasks, Some("1")), Ok("description text".to_string()));
    assert_eq!(note_seed(&tasks, Some("2")), Ok(String::new()));
    assert_eq!(note_seed(&tasks, Some("0")), Err(IndexError::IndexOutOfRange));
}

#[test]
fn erase_all_needs_consent() {
    assert_eq!(erase_all("y"), Some("[]".to_string()));
    assert_eq!(erase_all("YES"), Some("[]".to_string()));
    assert_eq!(erase_all("n"), None);
    assert_eq!(erase_all(""), None);
}

#[test]
fn empty_file_becomes_an_empty_list() {
    assert_eq!(bootstrap(""), Some("[]".to_string()));
    assert_eq!(bootstrap("[]"), None);
    assert_eq!(bootstrap(" "), None);
    assert_eq!(bootstrap("[{\"item\":\"a\",\"note\":\"\",\"completed\":false}]"), None);
}

#[test]
fn editor_defaults_to_vi() {
    assert_eq!(editor_program(None), "vi");
    assert_eq!(editor_program(Some("nano".to_string())), "nano");
    assert_eq!(editor_program(Some(String::new())), "");
}

#[test]
fn fixed_texts() {
    assert_eq!(EMPTY_LIST, "[]");
    assert_eq!(DEFAULT_EDITOR, "vi");
    assert_eq!(TITLE_PROMPT, "Enter item title: ");
    assert_eq!(ERASE_PROMPT, "Are you sure you want to erase all items? [yN] ");
    assert_eq!(
        NOTE_PLACEHOLDER,
        "# Add a note to the todo item (Remember to remove this line before saving)"
    );
}
