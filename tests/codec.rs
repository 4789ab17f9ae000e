use todo_board::app::App;

#[test]
fn deserializer() {
    let mut state = App::new();
    state.set_active_todos(String::from("class"));
    state.set_completed_todos(String::from("for"));

    let result = String::from("- [x] for\n- [ ] class\n");
    assert_eq!(state.deserialize(), result);
}

#[test]
fn serializer() {
    let mut state = App::new();
    let result = String::from("- [x] for\n- [ ] class\n");
    state.serialize(result);

    let mut reference = App::new();
    reference.set_active_todos(String::from("class"));
    reference.set_completed_todos(String::from("for"));

    assert_eq!(state.active.items, reference.active.items);
    assert_eq!(state.completed.items, reference.completed.items);
}

#[test]
fn completed_items_are_written_last_stored_first() {
    let mut state = App::new();
    state.set_completed_todos(String::from("newest"));
    state.set_completed_todos(String::from("oldest"));
    state.set_active_todos(String::from("a"));
    state.set_active_todos(String::from("b"));
    assert_eq!(
        state.deserialize(),
        "- [x] oldest\n- [x] newest\n- [ ] a\n- [ ] b\n"
    );
}

#[test]
fn empty_lists_encode_to_nothing() {
    assert_eq!(App::new().deserialize(), "");
}

#[test]
fn malformed_and_blank_lines_are_skipped() {
    let mut state = App::new();
    state.serialize(String::from(
        "\n   \n* [ ] star\n- [y] odd\n-[ ] tight\n- [ ]  two spaces\n- [x] done\nplain",
    ));
    assert_eq!(state.active.items, vec![String::from(" two spaces")]);
    assert_eq!(state.completed.items, vec![String::from("done")]);
}

#[test]
fn last_line_without_newline_is_read() {
    let mut state = App::new();
    state.serialize(String::from("- [ ] a\n- [ ] b"));
    assert_eq!(state.active.items, vec![String::from("a"), String::from("b")]);
}

#[test]
fn decoded_then_encoded_block_is_unchanged() {
    let text = "- [x] done\n- [ ] one\n- [ ] two\n";
    let mut state = App::new();
    state.serialize(String::from(text));
    assert_eq!(state.deserialize(), text);
}
