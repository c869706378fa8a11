use ucli::input::{Action, Key, PointerButton, PointerKind, RawEvent};
use ucli::item::UCLISelectItem;
use ucli::select::{SelectError, UCLISelect};
use ucli::ucli::{Main, SessionStatus};

fn key(k: Key) -> RawEvent {
    RawEvent::Key(k)
}

/// Select one element shoud return the selected element
/// Select hapen when the user press enter
#[test]
fn get_one() {
    let select = UCLISelect::new(vec![
        UCLISelectItem::default("Option 1", 1),
        UCLISelectItem::default("Option 2", 2),
        UCLISelectItem::default("Option 3", 10),
    ]);
    let mut main = Main::new(select);
    assert_eq!(main.begin_session(), SessionStatus::Running);
    assert_eq!(main.handle_event(&key(Key::Down)), SessionStatus::Running);
    assert_eq!(main.handle_event(&key(Key::Down)), SessionStatus::Running);
    assert_eq!(main.handle_event(&key(Key::Enter)), SessionStatus::Committed);
    let value = main.get();
    assert_eq!(value, Some(10));
}

/// Return err
/// Press quit button 'q'
#[test]
fn no_selection_error() {
    let select = UCLISelect::new(vec![
        UCLISelectItem::default("Option 1", 10),
        UCLISelectItem::default("Option 2", 10),
        UCLISelectItem::default("Option 3", 5),
    ]);
    let mut main = Main::new(select);
    assert_eq!(main.begin_session(), SessionStatus::Running);
    assert_eq!(main.handle_event(&key(Key::Char('q'))), SessionStatus::Cancelled);
    let value = main.get_value();
    assert_eq!(value, Err("No item selected"));
}

/// Get Ok()
#[test]
fn get_ok() {
    let select = UCLISelect::new(vec![
        UCLISelectItem::default("Option 1", 10),
        UCLISelectItem::default("Option 2", 10),
        UCLISelectItem::default("Option 3", 10),
    ]);
    let mut main = Main::new(select);
    assert_eq!(main.set_default_value(0), Ok(()));
    assert_eq!(main.begin_session(), SessionStatus::Committed);
    let value = main.get_value().unwrap();
    assert_eq!(value, 10);
}

/// The default value should be selected
#[test]
fn get_default() {
    let select = UCLISelect::new(vec![
        UCLISelectItem::default("Option 1", 10),
        UCLISelectItem::default("Option 2", 10),
        UCLISelectItem::default("Option 3", 5),
    ]);
    let mut main = Main::new(select);
    assert_eq!(main.set_default_value(2), Ok(()));
    assert_eq!(main.begin_session(), SessionStatus::Committed);
    let value = main.get();
    assert_eq!(value, Some(5));
}

/// Can't get the value 5 because it is disabled
#[test]
fn cant_get() {
    let select = UCLISelect::new(vec![
        UCLISelectItem::default("Option 1", 10),
        UCLISelectItem::new("Option 2".to_string(), 5, true),
        UCLISelectItem::default("Option 3", 10),
    ]);
    let mut main = Main::new(select);
    assert_eq!(main.begin_session(), SessionStatus::Running);
    assert_eq!(main.handle_event(&key(Key::Down)), SessionStatus::Running);
    // The cursor rests on the disabled item: enter commits nothing.
    assert_eq!(main.handle_event(&key(Key::Enter)), SessionStatus::Running);
    assert_eq!(main.handle_event(&key(Key::Down)), SessionStatus::Running);
    assert_eq!(main.handle_event(&key(Key::Enter)), SessionStatus::Committed);
    let value = main.get();
    assert_ne!(value.unwrap(), 5);
}

/// None should be returned when the user press `q`
/// User does not select any value
#[test]
fn get_none() {
    let select = UCLISelect::new(vec![
        UCLISelectItem::default("Option 1", 10),
        UCLISelectItem::default("Option 2", 10),
        UCLISelectItem::default("Option 3", 10),
    ]);
    let mut main = Main::new(select);
    assert_eq!(main.begin_session(), SessionStatus::Running);
    assert_eq!(main.handle_event(&key(Key::Char('q'))), SessionStatus::Cancelled);
    let value = main.get();
    assert_eq!(value, None);
}

fn abc_items(b_disabled: bool) -> Vec<UCLISelectItem<i32>> {
    vec![
        UCLISelectItem::new("A".to_string(), 10, false),
        UCLISelectItem::new("B".to_string(), 5, b_disabled),
        UCLISelectItem::new("C".to_string(), 10, false),
    ]
}

/// The first commit lands on the first row, where the cursor enters.
#[test]
fn commit_first_input() {
    let mut main = Main::new(UCLISelect::new(abc_items(false)));
    assert_eq!(main.begin_session(), SessionStatus::Running);
    assert_eq!(main.select.current, Some(0));
    assert_eq!(main.handle_event(&key(Key::Enter)), SessionStatus::Committed);
    assert_eq!(main.select.selected, Some(0));
    assert_eq!(main.get(), Some(10));
}

/// A preselection is honored immediately: no input is needed at all.
#[test]
fn preselection_needs_no_input() {
    let mut main = Main::new(UCLISelect::new(abc_items(false)));
    assert_eq!(main.set_default_value(2), Ok(()));
    assert_eq!(main.begin_session(), SessionStatus::Committed);
    assert_eq!(main.select.selected, Some(2));
    assert_eq!(main.get(), Some(10));
}

/// A commit attempt on a disabled row changes nothing; a later quit leaves
/// the session without a selection.
#[test]
fn disabled_commit_then_quit() {
    let mut main = Main::new(UCLISelect::new(abc_items(true)));
    assert_eq!(main.begin_session(), SessionStatus::Running);
    assert_eq!(main.handle_event(&key(Key::Down)), SessionStatus::Running);
    assert_eq!(main.select.current, Some(1));
    assert_eq!(main.handle_event(&key(Key::Enter)), SessionStatus::Running);
    assert_eq!(main.select.selected, None);
    assert_eq!(main.handle_event(&key(Key::Char('q'))), SessionStatus::Cancelled);
    assert_eq!(main.get(), None);
}

/// A pointer hover places the cursor; a primary click on the same row
/// commits it. Item rows start at screen row 1.
#[test]
fn pointer_hover_then_click() {
    let mut main = Main::new(UCLISelect::new(abc_items(false)));
    main.enable_mouse();
    assert_eq!(main.begin_session(), SessionStatus::Running);
    let hover = RawEvent::Pointer { row: 3, column: 0, kind: PointerKind::Moved };
    assert_eq!(main.handle_event(&hover), SessionStatus::Running);
    assert_eq!(main.select.current, Some(2));
    let click = RawEvent::Pointer {
        row: 3,
        column: 0,
        kind: PointerKind::ButtonDown(PointerButton::Primary),
    };
    assert_eq!(main.handle_event(&click), SessionStatus::Committed);
    assert_eq!(main.select.selected, Some(2));
    assert_eq!(main.get(), Some(10));
}

/// Moving up from the first row and down from the last row clamps: the
/// cursor never wraps around.
#[test]
fn cursor_clamps_at_both_ends() {
    let mut main = Main::new(UCLISelect::new(abc_items(false)));
    assert_eq!(main.begin_session(), SessionStatus::Running);
    assert_eq!(main.select.current, Some(0));
    assert_eq!(main.handle_event(&key(Key::Up)), SessionStatus::Running);
    assert_eq!(main.select.current, Some(0));
    main.select.move_down();
    main.select.move_down();
    assert_eq!(main.select.current, Some(2));
    assert_eq!(main.handle_event(&key(Key::Down)), SessionStatus::Running);
    assert_eq!(main.select.current, Some(2));
}

/// Preselecting out of bounds or on a disabled item is rejected with the
/// matching error, and the list is left untouched.
#[test]
fn preselect_validation() {
    let mut main = Main::new(UCLISelect::new(abc_items(true)));
    assert_eq!(main.set_default_value(3), Err(SelectError::IndexOutOfBounds));
    assert_eq!(main.select.current, None);
    assert_eq!(main.select.selected, None);
    assert_eq!(main.set_default_value(1), Err(SelectError::ItemDisabled));
    assert_eq!(main.select.current, None);
    assert_eq!(main.select.selected, None);
    assert_eq!(main.get(), None);
    assert_eq!(main.get_value(), Err("No item selected"));
}

/// An empty list: the cursor never appears, moves do nothing, and a commit
/// ends the session without a selection.
#[test]
fn empty_list_session() {
    let mut main = Main::new(UCLISelect::new(Vec::<UCLISelectItem<i32>>::new()));
    assert_eq!(main.begin_session(), SessionStatus::Running);
    assert_eq!(main.select.current, None);
    assert_eq!(main.handle_event(&key(Key::Down)), SessionStatus::Running);
    assert_eq!(main.select.current, None);
    assert_eq!(main.handle_event(&key(Key::Enter)), SessionStatus::Cancelled);
    assert_eq!(main.get(), None);
}

/// The configured quit key pre-empts every other mapping, and replaces the
/// default one.
#[test]
fn quit_key_is_configurable() {
    let mut main = Main::new(UCLISelect::new(abc_items(false)));
    main.set_quit_cmd('x');
    assert_eq!(main.begin_session(), SessionStatus::Running);
    // The old quit key is now an unrecognized character: nothing happens.
    assert_eq!(main.handle_event(&key(Key::Char('q'))), SessionStatus::Running);
    assert_eq!(main.handle_event(&key(Key::Char('x'))), SessionStatus::Cancelled);
}

/// Unrecognized keys and out-of-bounds or disabled-support pointer events
/// are ignored.
#[test]
fn ignored_events() {
    let mut main = Main::new(UCLISelect::new(abc_items(false)));
    assert_eq!(main.begin_session(), SessionStatus::Running);
    assert_eq!(main.handle_event(&key(Key::Char('z'))), SessionStatus::Running);
    assert_eq!(main.handle_event(&key(Key::Other)), SessionStatus::Running);
    assert_eq!(main.handle_event(&RawEvent::Other), SessionStatus::Running);
    // Pointer support is off: even a well-aimed click does nothing.
    let click = RawEvent::Pointer {
        row: 1,
        column: 0,
        kind: PointerKind::ButtonDown(PointerButton::Primary),
    };
    assert_eq!(main.handle_event(&click), SessionStatus::Running);
    assert_eq!(main.select.selected, None);
    main.enable_mouse();
    // Row 0 is the prompt, row 4 is past the list: both are outside bounds.
    let at_prompt = RawEvent::Pointer { row: 0, column: 0, kind: PointerKind::Moved };
    assert_eq!(main.handle_event(&at_prompt), SessionStatus::Running);
    assert_eq!(main.select.current, Some(0));
    let past_list = RawEvent::Pointer { row: 4, column: 0, kind: PointerKind::Moved };
    assert_eq!(main.handle_event(&past_list), SessionStatus::Running);
    assert_eq!(main.select.current, Some(0));
    // Column past the one-character label "C" of row 3.
    let wide = RawEvent::Pointer { row: 3, column: 1, kind: PointerKind::Moved };
    assert_eq!(main.handle_event(&wide), SessionStatus::Running);
    assert_eq!(main.select.current, Some(0));
    // A secondary-button press never commits.
    let right_click = RawEvent::Pointer {
        row: 2,
        column: 0,
        kind: PointerKind::ButtonDown(PointerButton::Secondary),
    };
    assert_eq!(main.handle_event(&right_click), SessionStatus::Running);
    assert_eq!(main.select.selected, None);
}

/// Line breaks are stripped from the prompt so it stays a single line.
#[test]
fn prompt_strips_line_breaks() {
    let mut main = Main::new(UCLISelect::new(abc_items(false)));
    assert_eq!(main.prompt, "Select an option: ");
    main.set_prompt("Pick\none:\n".to_string());
    assert_eq!(main.prompt, "Pickone:");
}

/// The item constructors fill every field as given.
#[test]
fn item_constructors() {
    let it = UCLISelectItem::new("label".to_string(), 7, true);
    assert_eq!(it.text, "label");
    assert_eq!(it.value, 7);
    assert!(it.disabled);
    let it = UCLISelectItem::default("other", 9);
    assert_eq!(it.text, "other");
    assert_eq!(it.value, 9);
    assert!(!it.disabled);
}
