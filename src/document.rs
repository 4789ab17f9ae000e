use vstd::prelude::*;
use crate::text::chars_of;

verus! {

/// `## Todo`, the heading of the checklist section.
pub open spec fn heading() -> Seq<char> {
    seq!['#', '#', ' ', 'T', 'o', 'd', 'o']
}

pub open spec fn heading_at(d: Seq<char>, i: int) -> bool {
    0 <= i && i + 7 <= d.len() && d.subrange(i, i + 7) == heading()
}

/// The first place at or after `i` where the heading stands.
pub open spec fn find_from(d: Seq<char>, i: int) -> Option<int>
    decreases d.len() - i,
{
    if i < 0 || i + 7 > d.len() {
        None
    } else if heading_at(d, i) {
        Some(i)
    } else {
        find_from(d, i + 1)
    }
}

pub open spec fn find_heading(d: Seq<char>) -> Option<int> {
    find_from(d, 0)
}

/// The document after the block is saved into it: what stands before the
/// first heading is kept (all of it when there is none), and the heading
/// line and the block follow.
pub open spec fn merged(d: Seq<char>, block: Seq<char>) -> Seq<char> {
    match find_heading(d) {
        Some(i) => d.subrange(0, i) + heading() + seq!['\n'] + block,
        None => d + heading() + seq!['\n'] + block,
    }
}

/// What follows the first heading, or nothing when there is none.
pub open spec fn section(d: Seq<char>) -> Seq<char> {
    match find_heading(d) {
        Some(i) => d.subrange(i + 7, d.len() as int),
        None => Seq::empty(),
    }
}

pub proof fn lemma_find_from_none(d: Seq<char>, j: int, i: int)
    requires
        0 <= j <= i,
        find_from(d, j) is None,
    ensures
        !heading_at(d, i),
    decreases i - j,
{
    if j + 7 <= d.len() && j < i {
        lemma_find_from_none(d, j + 1, i);
    }
}

pub proof fn lemma_find_from_some(d: Seq<char>, j: int, i: int)
    requires
        0 <= j <= i,
        find_from(d, j) matches Some(k) && i < k,
    ensures
        !heading_at(d, i),
    decreases i - j,
{
    if j < i {
        lemma_find_from_some(d, j + 1, i);
    }
}

pub proof fn lemma_find_from_found(d: Seq<char>, j: int)
    requires
        find_from(d, j) is Some,
    ensures
        heading_at(d, find_from(d, j)->0),
    decreases d.len() - j,
{
    if j >= 0 && j + 7 <= d.len() && !heading_at(d, j) {
        lemma_find_from_found(d, j + 1);
    }
}

pub proof fn lemma_find_first(d: Seq<char>, j: int, k: int)
    requires
        0 <= j <= k,
        heading_at(d, k),
        forall|i: int| j <= i < k ==> !heading_at(d, i),
    ensures
        find_from(d, j) == Some(k),
    decreases k - j,
{
    if j < k {
        lemma_find_first(d, j + 1, k);
    }
}

/// Saving into a document that was just saved with the same block gives
/// that document back.
pub proof fn lemma_save_idempotent(d: Seq<char>, block: Seq<char>)
    ensures
        merged(merged(d, block), block) == merged(d, block),
{
    let p = match find_heading(d) {
        Some(i) => d.subrange(0, i),
        None => d,
    };
    if find_heading(d) is Some {
        lemma_find_from_found(d, 0);
    }
    let m = merged(d, block);
    let n = p.len() as int;
    assert(m == p + heading() + seq!['\n'] + block);
    assert(m[n] == '#' && m[n + 1] == '#');
    assert forall|i: int| 0 <= i < n implies !heading_at(m, i) by {
        if i + 7 <= n {
            assert(m.subrange(i, i + 7) == d.subrange(i, i + 7));
            match find_heading(d) {
                Some(k) => lemma_find_from_some(d, 0, i),
                None => lemma_find_from_none(d, 0, i),
            }
        } else if heading_at(m, i) {
            let w = m.subrange(i, i + 7);
            if n - i == 6 {
                assert(w[6] == m[n]);
            } else {
                assert(w[n - i + 1] == m[n + 1]);
            }
        }
    }
    assert(m.subrange(n, n + 7) == heading());
    lemma_find_first(m, 0, n);
    assert(m.subrange(0, n) == p);
}

/// Whether the heading stands at `i`.
fn heading_here(cs: &Vec<char>, i: usize) -> (r: bool)
    requires
        i + 7 <= cs@.len(),
    ensures
        r == heading_at(cs@, i as int),
{
    let len = cs.len();
    assert(i + 7 <= len);
    let r = cs[i] == '#' && cs[i + 1] == '#' && cs[i + 2] == ' ' && cs[i + 3] == 'T' && cs[i
        + 4] == 'o' && cs[i + 5] == 'd' && cs[i + 6] == 'o';
    let ghost w = cs@.subrange(i as int, i + 7);
    if r {
        assert(w == heading());
    } else {
        assert(w != heading()) by {
            assert(w[0] == cs@[i as int] && w[1] == cs@[i + 1] && w[2] == cs@[i + 2] && w[3]
                == cs@[i + 3] && w[4] == cs@[i + 4] && w[5] == cs@[i + 5] && w[6] == cs@[i + 6]);
        }
    }
    r
}

/// The index of the first heading, in characters.
pub fn find_heading_in(cs: &Vec<char>) -> (r: Option<usize>)
    ensures
        match r {
            Some(i) => find_heading(cs@) == Some(i as int) && i + 7 <= cs@.len(),
            None => find_heading(cs@) is None,
        },
{
    let mut i: usize = 0;
    while i < cs.len() && cs.len() - i >= 7
        invariant
            i <= cs@.len(),
            find_from(cs@, 0) == find_from(cs@, i as int),
        decreases cs@.len() - i,
    {
        if heading_here(cs, i) {
            return Some(i);
        }
        i = i + 1;
    }
    None
}

/// The document with `block` saved as its checklist section.
pub fn merge_block(document: &str, block: &str) -> (r: String)
    ensures
        r@ == merged(document@, block@),
{
    let cs = chars_of(document);
    let mut out = match find_heading_in(&cs) {
        Some(i) => {
            proof {
                lemma_find_from_found(cs@, 0);
            }
            String::from_str(document.substring_char(0, i))
        },
        None => String::from_str(document),
    };
    out.append("## Todo\n");
    proof {
        reveal_strlit("## Todo\n");
    }
    assert("## Todo\n"@ == heading() + seq!['\n']);
    out.append(block);
    out
}

/// What follows the first heading of the document, or nothing.
pub fn section_of(document: &str) -> (r: String)
    ensures
        r@ == section(document@),
{
    let cs = chars_of(document);
    match find_heading_in(&cs) {
        Some(i) => {
            proof {
                lemma_find_from_found(cs@, 0);
            }
            let n = cs.len();
            String::from_str(document.substring_char(i + 7, n))
        },
        None => String::new(),
    }
}

} // verus!
