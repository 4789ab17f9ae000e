use vstd::prelude::*;
use crate::codec::{decode, decode_lists, encode, encode_lists};
use crate::document::{merge_block, merged, section, section_of};
use crate::list::{
    char_appended, char_popped, committed, list_ok, moved_down, moved_up, swapped, texts,
    with_new_item, ListView, TodoList,
};
use crate::state::{Key, Mode, Screen, State};

verus! {

/// What a session is: mode, screen and the two lists.
pub struct Session {
    pub mode: Mode,
    pub screen: Screen,
    pub active: ListView,
    pub completed: ListView,
}

/// The list that the screen shows.
pub open spec fn shown(s: Session) -> ListView {
    match s.screen {
        Screen::ACTIVE => s.active,
        Screen::COMPLETED => s.completed,
    }
}

pub open spec fn with_shown(s: Session, l: ListView) -> Session {
    match s.screen {
        Screen::ACTIVE => Session { active: l, ..s },
        Screen::COMPLETED => Session { completed: l, ..s },
    }
}

/// The selected active item moved to the front of the completed list.
pub open spec fn promoted(s: Session) -> Session {
    let a = s.active;
    let c = s.completed;
    if a.items.len() == 0 {
        s
    } else {
        let rest = a.items.remove(a.selected as int);
        Session {
            active: ListView {
                items: rest,
                selected: if rest.len() == 0 {
                    0
                } else {
                    (a.selected as int % (rest.len() as int)) as nat
                },
            },
            completed: ListView {
                items: seq![a.items[a.selected as int]] + c.items,
                selected: if c.items.len() == 0 {
                    0
                } else {
                    c.selected + 1
                },
            },
            ..s
        }
    }
}

/// The handling that the mode and the screen give a key, and whether the
/// key was taken there.
pub open spec fn mode_step(s: Session, k: Key) -> (Session, bool) {
    match s.mode {
        Mode::READ => {
            if k == Key::Char('j') {
                (with_shown(s, moved_down(shown(s))), true)
            } else if k == Key::Char('k') {
                (with_shown(s, moved_up(shown(s))), true)
            } else if k == Key::Char('m') && s.screen == Screen::ACTIVE {
                (promoted(s), true)
            } else {
                (s, false)
            }
        },
        Mode::EDIT => {
            if s.screen == Screen::COMPLETED {
                (s, false)
            } else {
                match k {
                    Key::Esc | Key::Enter => (
                        Session { mode: Mode::READ, active: committed(s.active), ..s },
                        true,
                    ),
                    Key::Char(c) => (Session { active: char_appended(s.active, c), ..s }, true),
                    Key::Backspace => (Session { active: char_popped(s.active), ..s }, true),
                    _ => (s, false),
                }
            }
        },
        Mode::INSERT => match k {
            Key::Esc => (Session { mode: Mode::READ, active: committed(s.active), ..s }, true),
            Key::Char(c) => (Session { active: char_appended(s.active, c), ..s }, true),
            Key::Backspace => (Session { active: char_popped(s.active), ..s }, true),
            Key::Enter => (Session { active: with_new_item(s.active), ..s }, true),
            _ => (s, true),
        },
        Mode::GRAB => match k {
            Key::Esc | Key::Enter => (Session { mode: Mode::READ, ..s }, true),
            Key::Char('j') => (with_shown(s, swapped(shown(s), true)), true),
            Key::Char('k') => (with_shown(s, swapped(shown(s), false)), true),
            _ => (s, false),
        },
    }
}

/// The keys that mean the same in every mode; the flag asks to end the
/// session.
pub open spec fn global_step(s: Session, k: Key) -> (Session, bool) {
    if k == Key::Tab {
        (
            Session {
                screen: if s.screen == Screen::ACTIVE {
                    Screen::COMPLETED
                } else {
                    Screen::ACTIVE
                },
                ..s
            },
            false,
        )
    } else if k == Key::Char('i') && s.screen == Screen::ACTIVE {
        (Session { mode: Mode::INSERT, active: with_new_item(s.active), ..s }, false)
    } else if k == Key::Char('g') {
        (if shown(s).items.len() >= 2 {
            Session { mode: Mode::GRAB, ..s }
        } else {
            s
        }, false)
    } else if k == Key::Char('e') {
        (if s.screen == Screen::ACTIVE && s.active.items.len() > 0 {
            Session { mode: Mode::EDIT, ..s }
        } else {
            s
        }, false)
    } else {
        (s, k == Key::Char('q'))
    }
}

/// One key press: the new session, and whether the session ends.
pub open spec fn step(s: Session, k: Key) -> (Session, bool) {
    let (t, taken) = mode_step(s, k);
    if taken {
        (t, false)
    } else {
        global_step(t, k)
    }
}

/// Both selections point into their lists; in insert mode the active
/// screen is shown and the last active item, the one being written, is
/// selected.
pub open spec fn session_ok(s: Session) -> bool {
    &&& list_ok(s.active)
    &&& list_ok(s.completed)
    &&& s.mode == Mode::INSERT ==> s.screen == Screen::ACTIVE && s.active.items.len() > 0
        && s.active.selected == s.active.items.len() - 1
}

/// `[ ] ` or `[x] `, which opens a displayed row.
pub open spec fn row_marker(done: bool) -> Seq<char> {
    seq!['[', if done {
        'x'
    } else {
        ' '
    }, ']', ' ']
}

/// The displayed rows of a list: each item behind its box, and whether it
/// is the selected one.
pub open spec fn rows_match(r: Seq<(String, bool)>, l: ListView, done: bool) -> bool {
    &&& r.len() == l.items.len()
    &&& forall|i: int|
        0 <= i < r.len() ==> (#[trigger] r[i]).0@ == row_marker(done) + l.items[i] + seq!['\n']
            && r[i].1 == (i == l.selected)
}

fn rows_of(list: &TodoList, done: bool) -> (r: Vec<(String, bool)>)
    ensures
        rows_match(r@, list@, done),
{
    let mut r: Vec<(String, bool)> = Vec::new();
    let mut i: usize = 0;
    while i < list.items.len()
        invariant
            i <= list@.items.len(),
            r@.len() == i,
            forall|j: int|
                0 <= j < i ==> (#[trigger] r@[j]).0@ == row_marker(done) + list@.items[j]
                    + seq!['\n'] && r@[j].1 == (j == list@.selected),
        decreases list@.items.len() - i,
    {
        let mut row = if done {
            String::from_str("[x] ")
        } else {
            String::from_str("[ ] ")
        };
        proof {
            reveal_strlit("[x] ");
            reveal_strlit("[ ] ");
            reveal_strlit("\n");
        }
        assert("[x] "@ == row_marker(true));
        assert("[ ] "@ == row_marker(false));
        row.append(list.items[i].as_str());
        row.append("\n");
        r.push((row, i == list.selected));
        i = i + 1;
    }
    r
}

/// A todo session: the mode and screen, the two lists, and what the
/// display needs.
pub struct App {
    pub state: State,
    pub active: TodoList,
    pub completed: TodoList,
    pub active_screen_length: u16,
    pub completed_screen_length: u16,
    pub info_length: u16,
    /// Help text for the active screen, then for the completed screen.
    pub info_texts: Vec<String>,
}

impl View for App {
    type V = Session;

    open spec fn view(&self) -> Session {
        Session {
            mode: self.state.mode,
            screen: self.state.active,
            active: self.active@,
            completed: self.completed@,
        }
    }
}

/// Appends the items to the list, keeping the selection.
fn append_all(list: &mut TodoList, items: Vec<String>)
    ensures
        final(list)@.items == old(list)@.items + texts(items@),
        final(list)@.selected == old(list)@.selected,
        old(list).wf() ==> final(list).wf(),
{
    let mut i: usize = 0;
    while i < items.len()
        invariant
            i <= items@.len(),
            list@.items == old(list)@.items + texts(items@).subrange(0, i as int),
            list@.selected == old(list)@.selected,
            old(list).wf() ==> list.wf(),
        decreases items@.len() - i,
    {
        list.push(items[i].clone());
        assert(texts(items@).subrange(0, i + 1) == texts(items@).subrange(0, i as int).push(
            items@[i as int]@,
        ));
        i = i + 1;
    }
    assert(texts(items@).subrange(0, items@.len() as int) == texts(items@));
}

impl App {
    pub open spec fn wf(&self) -> bool {
        session_ok(self@)
    }

    /// A session in read mode on the active screen, with no items.
    pub fn new() -> (r: App)
        ensures
            r.wf(),
            r@.mode == Mode::READ,
            r@.screen == Screen::ACTIVE,
            r@.active.items.len() == 0,
            r@.completed.items.len() == 0,
    {
        let mut info_texts: Vec<String> = Vec::new();
        info_texts.push(
            String::from_str(
                "Click TAB to switch Tabs\nClick i to Insert \nClick e to Edit\nClick g to enter Grab mode\nClick q to Exit",
            ),
        );
        info_texts.push(
            String::from_str("Click TAB to switch Tabs\nClick g to enter Grab mode\nClick q to Exit"),
        );
        App {
            state: State { mode: Mode::READ, active: Screen::ACTIVE },
            active: TodoList::new(),
            completed: TodoList::new(),
            active_screen_length: 0,
            completed_screen_length: 0,
            info_length: 0,
            info_texts,
        }
    }

    pub fn update_len(&mut self, c: u16, a: u16, i: u16)
        ensures
            final(self).completed_screen_length == c,
            final(self).active_screen_length == a,
            final(self).info_length == i,
            final(self)@ == old(self)@,
            final(self).info_texts == old(self).info_texts,
    {
        self.completed_screen_length = c;
        self.active_screen_length = a;
        self.info_length = i;
    }

    /// The active items as display rows, the selected one flagged.
    pub fn show_active_todos(&self) -> (r: Vec<(String, bool)>)
        ensures
            rows_match(r@, self@.active, false),
    {
        rows_of(&self.active, false)
    }

    /// The completed items as display rows, the selected one flagged.
    pub fn show_completed_todos(&self) -> (r: Vec<(String, bool)>)
        ensures
            rows_match(r@, self@.completed, true),
    {
        rows_of(&self.completed, true)
    }

    /// The checklist block of the two lists.
    pub fn deserialize(&self) -> (r: String)
        ensures
            r@ == encode(self@.active.items, self@.completed.items),
    {
        encode_lists(&self.active.items, &self.completed.items)
    }

    /// Appends the items of a checklist block to the lists, in the order of
    /// the text; selections stay where they were.
    pub fn serialize(&mut self, text: String)
        ensures
            final(self)@.active.items == old(self)@.active.items + decode(text@).0,
            final(self)@.completed.items == old(self)@.completed.items + decode(text@).1,
            final(self)@.active.selected == old(self)@.active.selected,
            final(self)@.completed.selected == old(self)@.completed.selected,
            final(self).state == old(self).state,
            old(self).wf() && old(self)@.mode != Mode::INSERT ==> final(self).wf(),
    {
        let (active, completed) = decode_lists(text.as_str());
        append_all(&mut self.active, active);
        append_all(&mut self.completed, completed);
    }

    /// The document with this session's checklist saved into it.
    pub fn save(&self, existing: &str) -> (r: String)
        ensures
            r@ == merged(existing@, encode(self@.active.items, self@.completed.items)),
    {
        let block = self.deserialize();
        merge_block(existing, block.as_str())
    }

    /// Reads the checklist section of a document into the lists.
    pub fn load(&mut self, document: &str)
        ensures
            final(self)@.active.items == old(self)@.active.items + decode(section(document@)).0,
            final(self)@.completed.items == old(self)@.completed.items + decode(
                section(document@),
            ).1,
            final(self)@.active.selected == old(self)@.active.selected,
            final(self)@.completed.selected == old(self)@.completed.selected,
            final(self).state == old(self).state,
            old(self).wf() && old(self)@.mode != Mode::INSERT ==> final(self).wf(),
    {
        let text = section_of(document);
        self.serialize(text);
    }

    pub fn set_active_todos(&mut self, item: String)
        ensures
            final(self)@ == (Session {
                active: ListView { items: old(self)@.active.items.push(item@), ..old(self)@.active },
                ..old(self)@
            }),
            old(self).wf() && old(self)@.mode != Mode::INSERT ==> final(self).wf(),
    {
        self.active.push(item);
    }

    pub fn set_completed_todos(&mut self, item: String)
        ensures
            final(self)@ == (Session {
                completed: ListView {
                    items: old(self)@.completed.items.push(item@),
                    ..old(self)@.completed
                },
                ..old(self)@
            }),
            old(self).wf() ==> final(self).wf(),
    {
        self.completed.push(item);
    }

    fn shown_list(&mut self) -> (r: &mut TodoList)
        ensures
            *r == match old(self).state.active {
                Screen::ACTIVE => old(self).active,
                Screen::COMPLETED => old(self).completed,
            },
            match old(self).state.active {
                Screen::ACTIVE => final(self).active == *final(r) && final(self).completed
                    == old(self).completed,
                Screen::COMPLETED => final(self).completed == *final(r) && final(self).active
                    == old(self).active,
            },
            final(self).state == old(self).state,
            final(self).info_texts == old(self).info_texts,
    {
        match self.state.active {
            Screen::ACTIVE => &mut self.active,
            Screen::COMPLETED => &mut self.completed,
        }
    }

    /// Moves the selected active item to the front of the completed list.
    pub fn promote(&mut self)
        requires
            old(self).wf(),
            old(self).completed@.items.len() < usize::MAX,
        ensures
            final(self)@ == promoted(old(self)@),
            final(self).state == old(self).state,
    {
        if self.active.len() > 0 {
            let item = self.active.take_selected();
            self.completed.prepend(item);
        }
    }

    /// Handles one pressed key; returns whether the session should end.
    pub fn handle_key(&mut self, key: Key) -> (quit: bool)
        requires
            old(self).wf(),
            old(self)@.active.items.len() < usize::MAX,
            old(self)@.completed.items.len() < usize::MAX,
        ensures
            final(self).wf(),
            (final(self)@, quit) == step(old(self)@, key),
    {
        let taken = self.mode_key(key);
        if taken {
            return false;
        }
        self.global_key(key)
    }

    fn mode_key(&mut self, key: Key) -> (taken: bool)
        requires
            old(self).wf(),
            old(self)@.active.items.len() < usize::MAX,
            old(self)@.completed.items.len() < usize::MAX,
        ensures
            final(self).wf(),
            (final(self)@, taken) == mode_step(old(self)@, key),
    {
        match self.state.mode {
            Mode::READ => {
                if key == Key::Char('j') {
                    self.shown_list().move_down();
                    true
                } else if key == Key::Char('k') {
                    self.shown_list().move_up();
                    true
                } else if key == Key::Char('m') && self.state.active == Screen::ACTIVE {
                    self.promote();
                    true
                } else {
                    false
                }
            },
            Mode::EDIT => {
                if self.state.active == Screen::COMPLETED {
                    false
                } else {
                    match key {
                        Key::Esc | Key::Enter => {
                            self.active.commit_or_discard();
                            self.state.mode = Mode::READ;
                            true
                        },
                        Key::Char(c) => {
                            self.active.append_char(c);
                            true
                        },
                        Key::Backspace => {
                            self.active.pop_char();
                            true
                        },
                        _ => false,
                    }
                }
            },
            Mode::INSERT => {
                match key {
                    Key::Esc => {
                        self.active.commit_or_discard();
                        self.state.mode = Mode::READ;
                    },
                    Key::Char(c) => {
                        self.active.append_char(c);
                    },
                    Key::Backspace => {
                        self.active.pop_char();
                    },
                    Key::Enter => {
                        self.active.insert_new_item();
                    },
                    _ => {},
                }
                true
            },
            Mode::GRAB => match key {
                Key::Esc | Key::Enter => {
                    self.state.mode = Mode::READ;
                    true
                },
                Key::Char('j') => {
                    self.shown_list().swap_with_neighbour(true);
                    true
                },
                Key::Char('k') => {
                    self.shown_list().swap_with_neighbour(false);
                    true
                },
                _ => false,
            },
        }
    }

    fn global_key(&mut self, key: Key) -> (quit: bool)
        requires
            old(self).wf(),
            old(self)@.mode != Mode::INSERT,
            old(self)@.active.items.len() < usize::MAX,
        ensures
            final(self).wf(),
            (final(self)@, quit) == global_step(old(self)@, key),
    {
        if key == Key::Tab {
            self.state.active = if self.state.active == Screen::ACTIVE {
                Screen::COMPLETED
            } else {
                Screen::ACTIVE
            };
            false
        } else if key == Key::Char('i') && self.state.active == Screen::ACTIVE {
            self.active.insert_new_item();
            self.state.mode = Mode::INSERT;
            false
        } else if key == Key::Char('g') {
            let n = match self.state.active {
                Screen::ACTIVE => self.active.len(),
                Screen::COMPLETED => self.completed.len(),
            };
            if n >= 2 {
                self.state.mode = Mode::GRAB;
            }
            false
        } else if key == Key::Char('e') {
            if self.state.active == Screen::ACTIVE && self.active.len() > 0 {
                self.state.mode = Mode::EDIT;
            }
            false
        } else {
            key == Key::Char('q')
        }
    }
}

} // verus!
