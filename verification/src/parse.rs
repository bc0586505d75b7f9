//! Splitting a raw command line into whitespace-separated tokens, and
//! joining token ranges back together with single spaces.

use vstd::prelude::*;
use crate::text::{is_space, space_char, views_of, copy_chars};

verus! {

/// One scanning step: a separator closes the token under construction (if
/// any); any other character extends it. The pair carries the finished
/// tokens and the token under construction.
pub open spec fn scan_step(acc: (Seq<Seq<char>>, Seq<char>), c: char) -> (Seq<Seq<char>>, Seq<char>) {
    if is_space(c) {
        if acc.1.len() > 0 {
            (acc.0.push(acc.1), Seq::<char>::empty())
        } else {
            acc
        }
    } else {
        (acc.0, acc.1.push(c))
    }
}

/// The scan of a whole line, character by character from the left.
pub open spec fn scan_line(s: Seq<char>) -> (Seq<Seq<char>>, Seq<char>)
    decreases s.len(),
{
    if s.len() == 0 {
        (Seq::<Seq<char>>::empty(), Seq::<char>::empty())
    } else {
        scan_step(scan_line(s.drop_last()), s.last())
    }
}

/// The whitespace-separated tokens of a command line: consecutive
/// separators count as one, leading and trailing separators are ignored.
pub open spec fn tokens_of(s: Seq<char>) -> Seq<Seq<char>> {
    if scan_line(s).1.len() > 0 {
        scan_line(s).0.push(scan_line(s).1)
    } else {
        scan_line(s).0
    }
}

/// A line is blank exactly when it yields no tokens.
pub open spec fn is_blank(s: Seq<char>) -> bool {
    tokens_of(s).len() == 0
}

/// Law: a line is blank exactly when every one of its characters is a
/// separator — in particular an empty line is blank.
pub proof fn lemma_blank_iff_all_space(s: Seq<char>)
    ensures
        is_blank(s) <==> (forall|i: int| 0 <= i < s.len() ==> is_space(s[i])),
    decreases s.len(),
{
    if s.len() > 0 {
        lemma_blank_iff_all_space(s.drop_last());
        assert(forall|i: int| 0 <= i < s.len() - 1 ==> s.drop_last()[i] == s[i]);
    }
}

/// Splits `line` into its whitespace-separated tokens.
pub fn tokenize(line: &Vec<char>) -> (toks: Vec<Vec<char>>)
    ensures
        views_of(toks@) == tokens_of(line@),
{
    let mut done: Vec<Vec<char>> = Vec::new();
    let mut cur: Vec<char> = Vec::new();
    let mut i: usize = 0;
    proof {
        assert(views_of(done@) =~= scan_line(line@.take(0)).0);
    }
    while i < line.len()
        invariant
            i <= line@.len(),
            views_of(done@) == scan_line(line@.take(i as int)).0,
            cur@ == scan_line(line@.take(i as int)).1,
        decreases line@.len() - i,
    {
        let c = line[i];
        proof {
            assert(line@.take(i + 1 as int).drop_last() =~= line@.take(i as int));
            assert(line@.take(i + 1 as int).last() == line@[i as int]);
        }
        if space_char(c) {
            if cur.len() > 0 {
                let ghost before = views_of(done@);
                done.push(cur);
                proof {
                    assert(views_of(done@) =~= before.push(done@.last()@));
                }
                cur = Vec::new();
            }
        } else {
            cur.push(c);
        }
        i = i + 1;
    }
    proof {
        assert(line@.take(line@.len() as int) =~= line@);
    }
    if cur.len() > 0 {
        let ghost before = views_of(done@);
        done.push(cur);
        proof {
            assert(views_of(done@) =~= before.push(done@.last()@));
        }
    }
    done
}

/// Every token the scan has finished, and the token still under
/// construction, is free of separator characters, and every finished token
/// is non-empty.
proof fn lemma_scan_tokens_wf(s: Seq<char>)
    ensures
        forall|i: int|
            0 <= i < scan_line(s).0.len() ==> scan_line(s).0[i].len() > 0 && (forall|j: int|
                0 <= j < scan_line(s).0[i].len() ==> !is_space(scan_line(s).0[i][j])),
        forall|j: int| 0 <= j < scan_line(s).1.len() ==> !is_space(scan_line(s).1[j]),
    decreases s.len(),
{
    if s.len() > 0 {
        lemma_scan_tokens_wf(s.drop_last());
        let prev = scan_line(s.drop_last());
        let c = s.last();
        assert(scan_line(s) == scan_step(prev, c));
        if is_space(c) && prev.1.len() > 0 {
            assert(scan_line(s).0 == prev.0.push(prev.1));
            assert forall|i: int| 0 <= i < scan_line(s).0.len() implies scan_line(s).0[i].len()
                > 0 && (forall|j: int|
                0 <= j < scan_line(s).0[i].len() ==> !is_space(scan_line(s).0[i][j])) by {
                if i < prev.0.len() {
                    assert(scan_line(s).0[i] == prev.0[i]);
                } else {
                    assert(scan_line(s).0[i] == prev.1);
                }
            }
        } else if !is_space(c) {
            assert(scan_line(s).1 == prev.1.push(c));
            assert forall|j: int| 0 <= j < scan_line(s).1.len() implies !is_space(
                scan_line(s).1[j],
            ) by {
                if j < prev.1.len() {
                    assert(scan_line(s).1[j] == prev.1[j]);
                } else {
                    assert(scan_line(s).1[j] == c);
                }
            }
        }
    }
}

/// Law: a command line splits into non-empty tokens, none of which holds a
/// separator character — so the command token compared against the registry
/// is exactly what the user typed between separators.
pub proof fn lemma_tokens_wf(s: Seq<char>)
    ensures
        forall|i: int|
            0 <= i < tokens_of(s).len() ==> tokens_of(s)[i].len() > 0 && (forall|j: int|
                0 <= j < tokens_of(s)[i].len() ==> !is_space(tokens_of(s)[i][j])),
{
    lemma_scan_tokens_wf(s);
}

/// The tokens from `parts`, joined with single spaces.
pub open spec fn join_spaces(parts: Seq<Seq<char>>) -> Seq<char>
    decreases parts.len(),
{
    if parts.len() == 0 {
        Seq::<char>::empty()
    } else if parts.len() == 1 {
        parts[0]
    } else {
        join_spaces(parts.drop_last()) + seq![' '] + parts.last()
    }
}

/// Joins the tokens of `parts` from position `from` on with single spaces.
pub fn join_from(parts: &Vec<Vec<char>>, from: usize) -> (r: Vec<char>)
    requires
        from <= parts@.len(),
    ensures
        r@ == join_spaces(views_of(parts@).skip(from as int)),
{
    let ghost tail = views_of(parts@).skip(from as int);
    let mut r: Vec<char> = Vec::new();
    let mut i: usize = from;
    while i < parts.len()
        invariant
            from <= i <= parts@.len(),
            tail == views_of(parts@).skip(from as int),
            r@ == join_spaces(tail.take(i - from as int)),
        decreases parts@.len() - i,
    {
        proof {
            assert(tail.take(i + 1 - from as int).drop_last() =~= tail.take(i - from as int));
            assert(tail.take(i + 1 - from as int).last() == views_of(parts@)[i as int]);
        }
        if i > from {
            r.push(' ');
        }
        let ghost mid = r@;
        crate::text::push_all(&mut r, &parts[i]);
        proof {
            if i > from {
                assert(r@ =~= join_spaces(tail.take(i - from as int)) + seq![' ']
                    + tail.take(i + 1 - from as int).last());
            } else {
                assert(r@ =~= tail.take(i + 1 - from as int).last());
            }
        }
        i = i + 1;
    }
    proof {
        assert(tail.take(parts@.len() - from as int) =~= tail);
    }
    r
}

} // verus!
