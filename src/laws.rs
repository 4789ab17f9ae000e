use vstd::prelude::*;
use crate::app::{session_ok, shown, step, Session};
use crate::codec::{decode, encode, lemma_decode_encode, reversed, single_lines};
use crate::list::{lemma_wrap_up, list_ok, moved_down, moved_up, ListView};
use crate::state::{Key, Mode, Screen};
use crate::text::is_blank;

verus! {

/// A block of checklist lines, completed ones first as they are written,
/// comes back unchanged from being read and written again, whenever its
/// completed items read the same in both orders (reading keeps the order of
/// the text, writing reverses the completed list).
pub proof fn lemma_round_trip(a: Seq<Seq<char>>, c: Seq<Seq<char>>)
    requires
        single_lines(a),
        single_lines(c),
        reversed(c) == c,
    ensures
        encode(decode(encode(a, c)).0, decode(encode(a, c)).1) == encode(a, c),
{
    lemma_decode_encode(a, c);
}

/// Every key keeps a well-formed session well-formed: a selection never
/// leaves a non-empty list, and is 0 on an empty one.
pub proof fn lemma_step_keeps_selection(s: Session, k: Key)
    requires
        session_ok(s),
    ensures
        session_ok(step(s, k).0),
{
    if s.active.items.len() > 0 {
        lemma_wrap_up(s.active.selected as int, s.active.items.len() as int);
    }
    if s.completed.items.len() > 0 {
        lemma_wrap_up(s.completed.selected as int, s.completed.items.len() as int);
    }
}

/// The list after `k` moves down.
pub open spec fn moved_down_times(l: ListView, k: nat) -> ListView
    decreases k,
{
    if k == 0 {
        l
    } else {
        moved_down(moved_down_times(l, (k - 1) as nat))
    }
}

proof fn lemma_moved_down_times(l: ListView, k: nat)
    requires
        list_ok(l),
        l.items.len() > 0,
    ensures
        moved_down_times(l, k).items == l.items,
        moved_down_times(l, k).selected == (l.selected + k) as int % (l.items.len() as int),
    decreases k,
{
    let n = l.items.len() as int;
    if k == 0 {
        vstd::arithmetic::div_mod::lemma_small_mod(l.selected, n as nat);
    } else {
        lemma_moved_down_times(l, (k - 1) as nat);
        vstd::arithmetic::div_mod::lemma_add_mod_noop(l.selected + k - 1, 1, n);
        if n == 1 {
            vstd::arithmetic::div_mod::lemma_mod_self_0(1);
        } else {
            vstd::arithmetic::div_mod::lemma_small_mod(1, n as nat);
        }
        vstd::arithmetic::div_mod::lemma_small_mod(((l.selected + k - 1) % n) as nat, n as nat);
    }
}

/// Moving down as many times as the list has items comes back to the item
/// where it started, and moving up from the first item reaches the last.
pub proof fn lemma_navigation_wraps(l: ListView)
    requires
        list_ok(l),
        l.items.len() > 0,
    ensures
        moved_down_times(l, l.items.len()) == l,
        l.selected == 0 ==> moved_up(l).selected == l.items.len() - 1,
{
    let n = l.items.len() as int;
    lemma_moved_down_times(l, l.items.len());
    vstd::arithmetic::div_mod::lemma_mod_add_multiples_vanish(l.selected as int, n);
    vstd::arithmetic::div_mod::lemma_small_mod(l.selected, n as nat);
    if l.selected == 0 {
        vstd::arithmetic::div_mod::lemma_small_mod((n - 1) as nat, n as nat);
    }
}

/// Promoting in read mode on the active screen takes the selected active
/// item out of the active list and puts it in front of the completed list;
/// the active selection wraps into what is left, or is 0 when nothing is.
pub proof fn lemma_promote(s: Session)
    requires
        session_ok(s),
        s.mode == Mode::READ,
        s.screen == Screen::ACTIVE,
        s.active.items.len() > 0,
    ensures
        ({
            let t = step(s, Key::Char('m')).0;
            let item = s.active.items[s.active.selected as int];
            &&& t.active.items == s.active.items.remove(s.active.selected as int)
            &&& t.completed.items == seq![item] + s.completed.items
            &&& t.completed.items[0] == item
            &&& t.active.selected == if t.active.items.len() == 0 {
                0
            } else {
                s.active.selected % t.active.items.len()
            }
            &&& session_ok(t)
        }),
{
}

/// `g` does not enter grab mode when the shown list has fewer than two
/// items.
pub proof fn lemma_grab_refused(s: Session)
    requires
        session_ok(s),
        s.mode != Mode::GRAB,
        shown(s).items.len() < 2,
    ensures
        step(s, Key::Char('g')).0.mode != Mode::GRAB,
{
}

/// Leaving edit or insert mode drops the selected item when it is blank,
/// and keeps every item as it was otherwise.
pub proof fn lemma_exit_discards_blank(s: Session, k: Key)
    requires
        session_ok(s),
        s.screen == Screen::ACTIVE,
        s.active.items.len() > 0,
        (s.mode == Mode::EDIT && (k == Key::Esc || k == Key::Enter)) || (s.mode == Mode::INSERT
            && k == Key::Esc),
    ensures
        ({
            let t = step(s, k).0;
            let item = s.active.items[s.active.selected as int];
            &&& t.mode == Mode::READ
            &&& is_blank(item) ==> t.active.items == s.active.items.remove(
                s.active.selected as int,
            )
            &&& !is_blank(item) ==> t.active.items == s.active.items
            &&& session_ok(t)
        }),
{
}

} // verus!
