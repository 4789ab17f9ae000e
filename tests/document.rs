use todo_board::app::App;

#[test]
fn save_replaces_section_after_heading() {
    let mut state = App::new();
    state.set_active_todos(String::from("new"));
    let doc = "# Notes\nHello\n## Todo\n- [ ] old\n## Later\nmore\n";
    assert_eq!(state.save(doc), "# Notes\nHello\n## Todo\n- [ ] new\n");
}

#[test]
fn save_appends_section_when_heading_is_missing() {
    let mut state = App::new();
    state.set_completed_todos(String::from("x"));
    assert_eq!(state.save("intro\n"), "intro\n## Todo\n- [x] x\n");
    assert_eq!(state.save(""), "## Todo\n- [x] x\n");
}

#[test]
fn saving_twice_is_stable() {
    let mut state = App::new();
    state.set_active_todos(String::from("a"));
    state.set_completed_todos(String::from("b"));
    for doc in ["", "text", "# T\n## Todo\n- [ ] z\n", "### Todo list\n"] {
        let once = state.save(doc);
        assert_eq!(state.save(&once), once);
    }
}

#[test]
fn load_reads_after_heading_only() {
    let mut state = App::new();
    state.load("- [ ] before\n## Todo\n- [ ] old\n- [x] gone\n");
    assert_eq!(state.active.items, vec![String::from("old")]);
    assert_eq!(state.completed.items, vec![String::from("gone")]);
}

#[test]
fn load_without_heading_gives_empty_lists() {
    let mut state = App::new();
    state.load("- [ ] loose\n");
    assert!(state.active.items.is_empty());
    assert!(state.completed.items.is_empty());
}
