use todo_board::app::App;
use todo_board::state::{Key, Mode, Screen};

fn press(app: &mut App, keys: &[Key]) -> bool {
    let mut quit = false;
    for k in keys {
        quit = app.handle_key(*k);
    }
    quit
}

fn with_active(items: &[&str]) -> App {
    let mut app = App::new();
    for i in items {
        app.set_active_todos(String::from(*i));
    }
    app
}

#[test]
fn scenario_insert_then_quit_saves() {
    let doc = "# Notes\nHello\n## Todo\n- [ ] old\n";
    let mut app = App::new();
    app.load(doc);
    assert_eq!(app.active.items, vec![String::from("old")]);
    assert!(app.completed.items.is_empty());
    let quit = press(
        &mut app,
        &[Key::Char('i'), Key::Char('x'), Key::Char('y'), Key::Esc, Key::Char('q')],
    );
    assert!(quit);
    let saved = app.save(doc);
    assert!(saved.starts_with("# Notes\nHello\n## Todo\n"));
    assert!(saved.contains("- [ ] xy\n"));
    assert_eq!(saved, "# Notes\nHello\n## Todo\n- [ ] old\n- [ ] xy\n");
}

#[test]
fn move_down_wraps_after_length_steps() {
    let mut app = with_active(&["a", "b", "c"]);
    press(&mut app, &[Key::Char('j')]);
    assert_eq!(app.active.selected, 1);
    press(&mut app, &[Key::Char('j'), Key::Char('j'), Key::Char('j')]);
    assert_eq!(app.active.selected, 1);
}

#[test]
fn move_up_from_first_goes_to_last() {
    let mut app = with_active(&["a", "b", "c"]);
    press(&mut app, &[Key::Char('k')]);
    assert_eq!(app.active.selected, 2);
}

#[test]
fn moves_on_empty_list_do_nothing() {
    let mut app = App::new();
    press(&mut app, &[Key::Char('j'), Key::Char('k'), Key::Char('m')]);
    assert_eq!(app.active.selected, 0);
    assert!(app.completed.items.is_empty());
}

#[test]
fn promote_moves_item_to_front_of_completed() {
    let mut app = with_active(&["a", "b", "c"]);
    app.set_completed_todos(String::from("old"));
    press(&mut app, &[Key::Char('j'), Key::Char('j'), Key::Char('m')]);
    assert_eq!(app.active.items, vec![String::from("a"), String::from("b")]);
    assert_eq!(app.active.selected, 0);
    assert_eq!(app.completed.items, vec![String::from("c"), String::from("old")]);
    assert_eq!(app.completed.selected, 1);
}

#[test]
fn promote_last_item_leaves_selection_zero() {
    let mut app = with_active(&["only"]);
    press(&mut app, &[Key::Char('m')]);
    assert!(app.active.items.is_empty());
    assert_eq!(app.active.selected, 0);
    assert_eq!(app.completed.items, vec![String::from("only")]);
    assert_eq!(app.completed.selected, 0);
}

#[test]
fn grab_refused_with_fewer_than_two_items() {
    let mut app = with_active(&["one"]);
    press(&mut app, &[Key::Char('g')]);
    assert_eq!(app.state.mode, Mode::READ);
    press(&mut app, &[Key::Tab, Key::Char('g')]);
    assert_eq!(app.state.mode, Mode::READ);
}

#[test]
fn grab_swaps_with_neighbours() {
    let mut app = with_active(&["a", "b", "c"]);
    press(&mut app, &[Key::Char('g'), Key::Char('j')]);
    assert_eq!(app.state.mode, Mode::GRAB);
    assert_eq!(app.active.items, vec![String::from("b"), String::from("a"), String::from("c")]);
    assert_eq!(app.active.selected, 1);
    press(&mut app, &[Key::Char('k'), Key::Char('k')]);
    assert_eq!(app.active.items, vec![String::from("c"), String::from("b"), String::from("a")]);
    assert_eq!(app.active.selected, 2);
    press(&mut app, &[Key::Enter]);
    assert_eq!(app.state.mode, Mode::READ);
}

#[test]
fn edit_discards_blank_item() {
    let mut app = with_active(&["a", "b"]);
    press(&mut app, &[Key::Char('j'), Key::Char('e'), Key::Backspace, Key::Char(' '), Key::Esc]);
    assert_eq!(app.state.mode, Mode::READ);
    assert_eq!(app.active.items, vec![String::from("a")]);
    assert_eq!(app.active.selected, 0);
}

#[test]
fn edit_keeps_inner_whitespace() {
    let mut app = with_active(&["a"]);
    press(&mut app, &[Key::Char('e'), Key::Char(' '), Key::Char(' '), Key::Char('b'), Key::Enter]);
    assert_eq!(app.active.items, vec![String::from("a  b")]);
}

#[test]
fn edit_is_not_entered_on_completed_screen() {
    let mut app = App::new();
    app.set_completed_todos(String::from("done"));
    press(&mut app, &[Key::Tab, Key::Char('e')]);
    assert_eq!(app.state.active, Screen::COMPLETED);
    assert_eq!(app.state.mode, Mode::READ);
}

#[test]
fn insert_enter_starts_next_item_and_esc_drops_empty_one() {
    let mut app = with_active(&["a"]);
    press(
        &mut app,
        &[Key::Char('i'), Key::Char('q'), Key::Enter, Key::Char('r'), Key::Enter, Key::Tab],
    );
    assert_eq!(app.state.mode, Mode::INSERT);
    assert_eq!(app.state.active, Screen::ACTIVE);
    assert_eq!(app.active.selected, 3);
    let quit = press(&mut app, &[Key::Esc]);
    assert!(!quit);
    assert_eq!(app.state.mode, Mode::READ);
    assert_eq!(app.active.items, vec![String::from("a"), String::from("q"), String::from("r")]);
    assert!(app.active.selected < app.active.items.len());
}

#[test]
fn insert_backspace_on_empty_item_does_nothing() {
    let mut app = App::new();
    press(&mut app, &[Key::Char('i'), Key::Backspace, Key::Char('z'), Key::Backspace]);
    assert_eq!(app.active.items, vec![String::new()]);
    assert_eq!(app.state.mode, Mode::INSERT);
}

#[test]
fn insert_is_not_entered_on_completed_screen() {
    let mut app = App::new();
    press(&mut app, &[Key::Tab, Key::Char('i')]);
    assert_eq!(app.state.mode, Mode::READ);
    assert!(app.active.items.is_empty());
}

#[test]
fn tab_toggles_screen_and_q_quits() {
    let mut app = App::new();
    assert!(!press(&mut app, &[Key::Tab]));
    assert_eq!(app.state.active, Screen::COMPLETED);
    assert!(!press(&mut app, &[Key::Tab]));
    assert_eq!(app.state.active, Screen::ACTIVE);
    assert!(press(&mut app, &[Key::Char('q')]));
}

#[test]
fn labels_of_mode_and_screen() {
    assert_eq!(Mode::READ.get(), "READ MODE");
    assert_eq!(Mode::EDIT.get(), "EDIT MODE");
    assert_eq!(Mode::INSERT.get(), "INSERT MODE");
    assert_eq!(Mode::GRAB.get(), "GRAB MODE");
    assert_eq!(Screen::ACTIVE.get(), "INCOMPLETE TODO'S SECTION");
    assert_eq!(Screen::COMPLETED.get(), "COMPLETED TODO'S SECTION");
}

#[test]
fn display_rows_flag_the_selection() {
    let mut app = with_active(&["a", "b"]);
    app.set_completed_todos(String::from("c"));
    press(&mut app, &[Key::Char('j')]);
    assert_eq!(
        app.show_active_todos(),
        vec![(String::from("[ ] a\n"), false), (String::from("[ ] b\n"), true)]
    );
    assert_eq!(app.show_completed_todos(), vec![(String::from("[x] c\n"), true)]);
}

#[test]
fn edit_discards_item_of_unicode_blanks() {
    let mut app = with_active(&["x"]);
    press(
        &mut app,
        &[Key::Char('e'), Key::Backspace, Key::Char('\t'), Key::Char('\u{3000}'), Key::Esc],
    );
    assert!(app.active.items.is_empty());
    assert_eq!(app.active.selected, 0);
    assert_eq!(app.state.mode, Mode::READ);
}
