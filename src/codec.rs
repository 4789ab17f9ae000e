use vstd::prelude::*;
use crate::list::texts;
use crate::text::{chars_of, string_from};

verus! {

/// `- [x] `, which opens the line of a completed item.
pub open spec fn done_marker() -> Seq<char> {
    seq!['-', ' ', '[', 'x', ']', ' ']
}

/// `- [ ] `, which opens the line of an active item.
pub open spec fn open_marker() -> Seq<char> {
    seq!['-', ' ', '[', ' ', ']', ' ']
}

pub open spec fn line_of(marker: Seq<char>, t: Seq<char>) -> Seq<char> {
    marker + t + seq!['\n']
}

/// The active items, one line each, in their order.
pub open spec fn open_lines(a: Seq<Seq<char>>) -> Seq<char>
    decreases a.len(),
{
    if a.len() == 0 {
        Seq::empty()
    } else {
        open_lines(a.drop_last()) + line_of(open_marker(), a.last())
    }
}

/// The completed items, one line each, from the last stored to the first.
pub open spec fn done_lines(c: Seq<Seq<char>>) -> Seq<char>
    decreases c.len(),
{
    if c.len() == 0 {
        Seq::empty()
    } else {
        done_lines(c.subrange(1, c.len() as int)) + line_of(done_marker(), c[0])
    }
}

/// The checklist block of two lists.
pub open spec fn encode(active: Seq<Seq<char>>, completed: Seq<Seq<char>>) -> Seq<char> {
    done_lines(completed) + open_lines(active)
}

/// Lists read so far: active items, then completed items.
pub type Lists = (Seq<Seq<char>>, Seq<Seq<char>>);

/// One line read into the lists: a marked line adds its text after the
/// marker to the list that the marker names; any other line is skipped.
pub open spec fn take_line(d: Lists, line: Seq<char>) -> Lists {
    if line.len() >= 6 && line.subrange(0, 6) == done_marker() {
        (d.0, d.1.push(line.subrange(6, line.len() as int)))
    } else if line.len() >= 6 && line.subrange(0, 6) == open_marker() {
        (d.0.push(line.subrange(6, line.len() as int)), d.1)
    } else {
        d
    }
}

/// The lists from the lines that a `\n` has ended, and the line still open.
pub open spec fn scan(t: Seq<char>) -> (Lists, Seq<char>)
    decreases t.len(),
{
    if t.len() == 0 {
        ((Seq::empty(), Seq::empty()), Seq::empty())
    } else {
        let (d, cur) = scan(t.drop_last());
        if t.last() == '\n' {
            (take_line(d, cur), Seq::empty())
        } else {
            (d, cur.push(t.last()))
        }
    }
}

/// The lists that a checklist block holds, each in the order of the text.
pub open spec fn decode(t: Seq<char>) -> Lists {
    take_line(scan(t).0, scan(t).1)
}

/// The items in the opposite order.
pub open spec fn reversed(c: Seq<Seq<char>>) -> Seq<Seq<char>>
    decreases c.len(),
{
    if c.len() == 0 {
        Seq::empty()
    } else {
        reversed(c.subrange(1, c.len() as int)).push(c[0])
    }
}

/// No item holds a line break, so each one is a line of its own.
pub open spec fn single_lines(items: Seq<Seq<char>>) -> bool {
    forall|i: int, j: int| 0 <= i < items.len() && 0 <= j < items[i].len() ==> items[i][j] != '\n'
}

proof fn lemma_scan_plain(t: Seq<char>, u: Seq<char>)
    requires
        forall|j: int| 0 <= j < u.len() ==> u[j] != '\n',
    ensures
        scan(t + u) == (scan(t).0, scan(t).1 + u),
    decreases u.len(),
{
    if u.len() == 0 {
        assert(t + u == t);
        assert(scan(t).1 + u == scan(t).1);
    } else {
        let w = u.drop_last();
        lemma_scan_plain(t, w);
        assert((t + u).drop_last() == t + w);
        assert((scan(t).1 + w).push(u.last()) == scan(t).1 + u);
    }
}

proof fn lemma_scan_line(t: Seq<char>, m: Seq<char>, x: Seq<char>)
    requires
        scan(t).1 == Seq::<char>::empty(),
        m == done_marker() || m == open_marker(),
        forall|j: int| 0 <= j < x.len() ==> x[j] != '\n',
    ensures
        scan(t + line_of(m, x)).0 == if m == done_marker() {
            (scan(t).0.0, scan(t).0.1.push(x))
        } else {
            (scan(t).0.0.push(x), scan(t).0.1)
        },
        scan(t + line_of(m, x)).1 == Seq::<char>::empty(),
{
    let mx = m + x;
    assert forall|j: int| 0 <= j < mx.len() implies mx[j] != '\n' by {
        if j >= 6 {
            assert(mx[j] == x[j - 6]);
        }
    }
    lemma_scan_plain(t, mx);
    assert(t + line_of(m, x) == (t + mx).push('\n'));
    assert((t + line_of(m, x)).drop_last() == t + mx);
    assert(Seq::<char>::empty() + mx == mx);
    assert(mx.subrange(0, 6) == m);
    assert(mx.subrange(6, mx.len() as int) == x);
    assert(open_marker()[3] != done_marker()[3]);
}

proof fn lemma_scan_done(c: Seq<Seq<char>>)
    requires
        single_lines(c),
    ensures
        scan(done_lines(c)) == ((Seq::<Seq<char>>::empty(), reversed(c)), Seq::<char>::empty()),
    decreases c.len(),
{
    if c.len() == 0 {
        assert(done_lines(c) == Seq::<char>::empty());
    } else {
        let rest = c.subrange(1, c.len() as int);
        assert(single_lines(rest)) by {
            assert forall|i: int, j: int|
                0 <= i < rest.len() && 0 <= j < rest[i].len() implies rest[i][j] != '\n' by {
                assert(rest[i] == c[i + 1]);
            }
        }
        lemma_scan_done(rest);
        assert forall|j: int| 0 <= j < c[0].len() implies c[0][j] != '\n' by {
        }
        lemma_scan_line(done_lines(rest), done_marker(), c[0]);
    }
}

proof fn lemma_scan_all(a: Seq<Seq<char>>, c: Seq<Seq<char>>)
    requires
        single_lines(a),
        single_lines(c),
    ensures
        scan(encode(a, c)) == ((a, reversed(c)), Seq::<char>::empty()),
    decreases a.len(),
{
    if a.len() == 0 {
        lemma_scan_done(c);
        assert(encode(a, c) == done_lines(c));
    } else {
        let rest = a.drop_last();
        assert(single_lines(rest)) by {
            assert forall|i: int, j: int|
                0 <= i < rest.len() && 0 <= j < rest[i].len() implies rest[i][j] != '\n' by {
                assert(rest[i] == a[i]);
            }
        }
        lemma_scan_all(rest, c);
        assert forall|j: int| 0 <= j < a.last().len() implies a.last()[j] != '\n' by {
            assert(a.last() == a[a.len() - 1]);
        }
        lemma_scan_line(encode(rest, c), open_marker(), a.last());
        assert(encode(a, c) == encode(rest, c) + line_of(open_marker(), a.last()));
        assert(rest.push(a.last()) == a);
    }
}

/// Reading a block back gives the active items as they were and the
/// completed items in the order they were written, which is reversed.
pub proof fn lemma_decode_encode(a: Seq<Seq<char>>, c: Seq<Seq<char>>)
    requires
        single_lines(a),
        single_lines(c),
    ensures
        decode(encode(a, c)) == (a, reversed(c)),
{
    lemma_scan_all(a, c);
}

fn append_line(out: &mut String, done: bool, item: &String)
    ensures
        final(out)@ == old(out)@ + line_of(
            if done {
                done_marker()
            } else {
                open_marker()
            },
            item@,
        ),
{
    if done {
        out.append("- [x] ");
        proof {
            reveal_strlit("- [x] ");
        }
        assert("- [x] "@ == done_marker());
    } else {
        out.append("- [ ] ");
        proof {
            reveal_strlit("- [ ] ");
        }
        assert("- [ ] "@ == open_marker());
    }
    out.append(item.as_str());
    out.append("\n");
    proof {
        reveal_strlit("\n");
    }
    assert("\n"@ == seq!['\n']);
}

/// The checklist block: completed items, most recently completed last, then
/// active items.
pub fn encode_lists(active: &Vec<String>, completed: &Vec<String>) -> (r: String)
    ensures
        r@ == encode(texts(active@), texts(completed@)),
{
    let ghost c = texts(completed@);
    let ghost a = texts(active@);
    let mut out = String::new();
    let mut k: usize = completed.len();
    while k > 0
        invariant
            k <= completed@.len(),
            c == texts(completed@),
            out@ == done_lines(c.subrange(k as int, c.len() as int)),
        decreases k,
    {
        append_line(&mut out, true, &completed[k - 1]);
        assert(c.subrange(k - 1, c.len() as int).subrange(1, c.len() - k + 1) == c.subrange(
            k as int,
            c.len() as int,
        ));
        k = k - 1;
    }
    assert(c.subrange(0, c.len() as int) == c);
    let ghost head = out@;
    let mut i: usize = 0;
    while i < active.len()
        invariant
            i <= active@.len(),
            a == texts(active@),
            head == done_lines(c),
            out@ == head + open_lines(a.subrange(0, i as int)),
        decreases active@.len() - i,
    {
        append_line(&mut out, false, &active[i]);
        assert(a.subrange(0, i + 1).drop_last() == a.subrange(0, i as int));
        i = i + 1;
    }
    assert(a.subrange(0, a.len() as int) == a);
    out
}

/// Reads one finished line into the lists.
fn take_line_into(line: &Vec<char>, active: &mut Vec<String>, completed: &mut Vec<String>)
    ensures
        (texts(final(active)@), texts(final(completed)@)) == take_line(
            (texts(old(active)@), texts(old(completed)@)),
            line@,
        ),
{
    let n = line.len();
    if n >= 6 && line[0] == '-' && line[1] == ' ' && line[2] == '[' && line[4] == ']' && line[5]
        == ' ' && (line[3] == 'x' || line[3] == ' ') {
        let item = string_from(line, 6);
        if line[3] == 'x' {
            assert(line@.subrange(0, 6) == done_marker());
            completed.push(item);
            assert(texts(completed@) == texts(old(completed)@).push(item@));
        } else {
            assert(line@.subrange(0, 6) == open_marker());
            assert(line@.subrange(0, 6) != done_marker()) by {
                assert(line@.subrange(0, 6)[3] != done_marker()[3]);
            }
            active.push(item);
            assert(texts(active@) == texts(old(active)@).push(item@));
        }
    } else {
        assert(n >= 6 ==> line@.subrange(0, 6) != done_marker() && line@.subrange(0, 6)
            != open_marker()) by {
            if n >= 6 {
                let h = line@.subrange(0, 6);
                assert(h[0] == line@[0] && h[1] == line@[1] && h[2] == line@[2] && h[3]
                    == line@[3] && h[4] == line@[4] && h[5] == line@[5]);
            }
        }
    }
}

/// The lists that a checklist block holds: active items, then completed.
pub fn decode_lists(text: &str) -> (r: (Vec<String>, Vec<String>))
    ensures
        (texts(r.0@), texts(r.1@)) == decode(text@),
{
    let cs = chars_of(text);
    let mut active: Vec<String> = Vec::new();
    let mut completed: Vec<String> = Vec::new();
    let mut cur: Vec<char> = Vec::new();
    let mut i: usize = 0;
    assert(texts(active@) == Seq::<Seq<char>>::empty());
    assert(texts(completed@) == Seq::<Seq<char>>::empty());
    assert(cs@.subrange(0, 0) == Seq::<char>::empty());
    while i < cs.len()
        invariant
            i <= cs@.len(),
            cs@ == text@,
            scan(cs@.subrange(0, i as int)) == ((texts(active@), texts(completed@)), cur@),
        decreases cs@.len() - i,
    {
        let c = cs[i];
        assert(cs@.subrange(0, i + 1).drop_last() == cs@.subrange(0, i as int));
        if c == '\n' {
            take_line_into(&cur, &mut active, &mut completed);
            cur = Vec::new();
        } else {
            cur.push(c);
        }
        i = i + 1;
    }
    assert(cs@.subrange(0, cs@.len() as int) == text@);
    take_line_into(&cur, &mut active, &mut completed);
    (active, completed)
}

} // verus!
