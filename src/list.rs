use vstd::prelude::*;
use crate::text::{blank, is_blank, pop_char, push_char};

verus! {

/// What a list is: its item texts, in order, and the selected index.
pub struct ListView {
    pub items: Seq<Seq<char>>,
    pub selected: nat,
}

pub open spec fn texts(v: Seq<String>) -> Seq<Seq<char>> {
    v.map_values(|s: String| s@)
}

/// The selection points into the list whenever the list has items, and is
/// 0 when it has none.
pub open spec fn list_ok(l: ListView) -> bool {
    if l.items.len() == 0 {
        l.selected == 0
    } else {
        l.selected < l.items.len()
    }
}

pub open spec fn moved_down(l: ListView) -> ListView {
    if l.items.len() == 0 {
        l
    } else {
        ListView { selected: ((l.selected as int + 1) % (l.items.len() as int)) as nat, ..l }
    }
}

pub open spec fn moved_up(l: ListView) -> ListView {
    if l.items.len() == 0 {
        l
    } else {
        ListView {
            selected: ((l.selected as int + l.items.len() - 1) % (l.items.len() as int)) as nat,
            ..l
        }
    }
}

/// An empty item appended at the end, and selected.
pub open spec fn with_new_item(l: ListView) -> ListView {
    ListView { items: l.items.push(Seq::empty()), selected: l.items.len() }
}

pub open spec fn char_appended(l: ListView, c: char) -> ListView {
    if l.items.len() == 0 {
        l
    } else {
        ListView { items: l.items.update(l.selected as int, l.items[l.selected as int].push(c)), ..l }
    }
}

pub open spec fn char_popped(l: ListView) -> ListView {
    if l.items.len() == 0 || l.items[l.selected as int].len() == 0 {
        l
    } else {
        ListView {
            items: l.items.update(l.selected as int, l.items[l.selected as int].drop_last()),
            ..l
        }
    }
}

/// The selected item is dropped when it is blank; the selection wraps
/// into what is left.
pub open spec fn committed(l: ListView) -> ListView {
    if l.items.len() == 0 || !is_blank(l.items[l.selected as int]) {
        l
    } else {
        let rest = l.items.remove(l.selected as int);
        ListView {
            items: rest,
            selected: if rest.len() == 0 {
                0
            } else {
                (l.selected as int % (rest.len() as int)) as nat
            },
        }
    }
}

/// The index of the circular neighbour below (`down`) or above the selection.
pub open spec fn neighbour(l: ListView, down: bool) -> nat {
    if down {
        ((l.selected as int + 1) % (l.items.len() as int)) as nat
    } else {
        ((l.selected as int + l.items.len() - 1) % (l.items.len() as int)) as nat
    }
}

/// The selected item traded places with its neighbour, and still selected.
pub open spec fn swapped(l: ListView, down: bool) -> ListView {
    if l.items.len() < 2 {
        l
    } else {
        let j = neighbour(l, down) as int;
        let i = l.selected as int;
        ListView { items: l.items.update(i, l.items[j]).update(j, l.items[i]), selected: j as nat }
    }
}

/// Stepping up by adding `n - 1` modulo `n` is stepping back one, with the
/// first index wrapping to the last.
pub proof fn lemma_wrap_up(s: int, n: int)
    requires
        0 <= s < n,
    ensures
        (s + n - 1) % n == if s == 0 {
            n - 1
        } else {
            s - 1
        },
{
    if s == 0 {
        vstd::arithmetic::div_mod::lemma_small_mod((n - 1) as nat, n as nat);
    } else {
        vstd::arithmetic::div_mod::lemma_mod_add_multiples_vanish(s - 1, n);
        vstd::arithmetic::div_mod::lemma_small_mod((s - 1) as nat, n as nat);
    }
}

/// One list of todo items and the index of the selected one.
pub struct TodoList {
    pub items: Vec<String>,
    pub selected: usize,
}

impl View for TodoList {
    type V = ListView;

    open spec fn view(&self) -> ListView {
        ListView { items: texts(self.items@), selected: self.selected as nat }
    }
}

impl TodoList {
    pub open spec fn wf(&self) -> bool {
        list_ok(self@)
    }

    pub fn new() -> (r: TodoList)
        ensures
            r@.items.len() == 0,
            r@.selected == 0,
            r.wf(),
    {
        TodoList { items: Vec::new(), selected: 0 }
    }

    pub fn len(&self) -> (r: usize)
        ensures
            r == self@.items.len(),
    {
        self.items.len()
    }

    /// Appends an item at the end, leaving the selection alone.
    pub fn push(&mut self, item: String)
        ensures
            final(self)@ == (ListView { items: old(self)@.items.push(item@), ..old(self)@ }),
            old(self).wf() ==> final(self).wf(),
    {
        self.items.push(item);
        assert(texts(self.items@) == texts(old(self).items@).push(item@));
    }

    /// Moves the selection one down, from the last item to the first.
    pub fn move_down(&mut self)
        requires
            old(self).wf(),
        ensures
            final(self)@ == moved_down(old(self)@),
            final(self).wf(),
    {
        let n = self.items.len();
        if n > 0 {
            self.selected = (self.selected + 1) % n;
        }
    }

    /// Moves the selection one up, from the first item to the last.
    pub fn move_up(&mut self)
        requires
            old(self).wf(),
        ensures
            final(self)@ == moved_up(old(self)@),
            final(self).wf(),
    {
        let n = self.items.len();
        if n > 0 {
            proof {
                lemma_wrap_up(self.selected as int, n as int);
            }
            if self.selected == 0 {
                self.selected = n - 1;
            } else {
                self.selected = self.selected - 1;
            }
        }
    }

    pub fn insert_new_item(&mut self)
        requires
            old(self)@.items.len() < usize::MAX,
        ensures
            final(self)@ == with_new_item(old(self)@),
            final(self).wf(),
    {
        self.items.push(String::new());
        self.selected = self.items.len() - 1;
        assert(texts(self.items@) == texts(old(self).items@).push(Seq::empty()));
    }

    pub fn append_char(&mut self, c: char)
        requires
            old(self).wf(),
        ensures
            final(self)@ == char_appended(old(self)@, c),
            final(self).wf(),
    {
        if self.items.len() > 0 {
            let i = self.selected;
            push_char(&mut self.items[i], c);
            assert(texts(self.items@) == texts(old(self).items@).update(
                i as int,
                old(self)@.items[i as int].push(c),
            ));
        }
    }

    pub fn pop_char(&mut self)
        requires
            old(self).wf(),
        ensures
            final(self)@ == char_popped(old(self)@),
            final(self).wf(),
    {
        if self.items.len() > 0 {
            let i = self.selected;
            pop_char(&mut self.items[i]);
            proof {
                if old(self)@.items[i as int].len() == 0 {
                    assert(texts(self.items@) == texts(old(self).items@));
                } else {
                    assert(texts(self.items@) == texts(old(self).items@).update(
                        i as int,
                        old(self)@.items[i as int].drop_last(),
                    ));
                }
            }
        }
    }

    /// Ends an edit: a blank selected item is removed.
    pub fn commit_or_discard(&mut self)
        requires
            old(self).wf(),
        ensures
            final(self)@ == committed(old(self)@),
            final(self).wf(),
    {
        if self.items.len() > 0 && blank(&self.items[self.selected]) {
            let i = self.selected;
            let _ = self.items.remove(i);
            assert(texts(self.items@) == texts(old(self).items@).remove(i as int));
            if self.items.len() == 0 {
                self.selected = 0;
            } else {
                self.selected = i % self.items.len();
            }
        }
    }

    /// Removes the selected item and returns it; the selection wraps into
    /// what is left.
    pub fn take_selected(&mut self) -> (r: String)
        requires
            old(self).wf(),
            old(self)@.items.len() > 0,
        ensures
            r@ == old(self)@.items[old(self)@.selected as int],
            final(self)@.items == old(self)@.items.remove(old(self)@.selected as int),
            final(self)@.selected == if final(self)@.items.len() == 0 {
                0
            } else {
                old(self)@.selected % final(self)@.items.len()
            },
            final(self).wf(),
    {
        let i = self.selected;
        let r = self.items.remove(i);
        assert(texts(self.items@) == texts(old(self).items@).remove(i as int));
        if self.items.len() > 0 {
            self.selected = i % self.items.len();
        }
        r
    }

    /// Puts an item in front; the selection keeps to the item it was on.
    pub fn prepend(&mut self, item: String)
        requires
            old(self).wf(),
            old(self)@.items.len() < usize::MAX,
        ensures
            final(self)@.items == seq![item@] + old(self)@.items,
            final(self)@.selected == if old(self)@.items.len() == 0 {
                0
            } else {
                old(self)@.selected + 1
            },
            final(self).wf(),
    {
        self.items.insert(0, item);
        assert(texts(self.items@) == seq![item@] + texts(old(self).items@));
        if self.items.len() > 1 {
            self.selected = self.selected + 1;
        }
    }

    /// Trades the selected item with its circular neighbour.
    pub fn swap_with_neighbour(&mut self, down: bool)
        requires
            old(self).wf(),
        ensures
            final(self)@ == swapped(old(self)@, down),
            final(self).wf(),
    {
        let n = self.items.len();
        if n >= 2 {
            let i = self.selected;
            proof {
                lemma_wrap_up(i as int, n as int);
            }
            let j = if down {
                (i + 1) % n
            } else if i == 0 {
                n - 1
            } else {
                i - 1
            };
            let a = self.items[i].clone();
            let b = self.items[j].clone();
            self.items.set(i, b);
            self.items.set(j, a);
            self.selected = j;
            assert(texts(self.items@) == texts(old(self).items@).update(
                i as int,
                old(self)@.items[j as int],
            ).update(j as int, old(self)@.items[i as int]));
        }
    }
}

} // verus!
