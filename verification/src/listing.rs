//! Formatting a directory listing the way `ls` shows it: the names
//! arranged in ascending lexicographic order and joined with newlines.
//! Enumerating the directory is the collaborator's work; this module fixes
//! exactly what is shown for whatever names came back.

use vstd::prelude::*;
use crate::text::{copy_chars, views_of};

verus! {

/// Code-point-wise lexicographic order on character sequences: a prefix
/// comes before its extensions, otherwise the first differing character
/// decides.
pub open spec fn lex_le(a: Seq<char>, b: Seq<char>) -> bool
    decreases a.len(),
{
    if a.len() == 0 {
        true
    } else if b.len() == 0 {
        false
    } else if (a[0] as u32) < (b[0] as u32) {
        true
    } else if (a[0] as u32) > (b[0] as u32) {
        false
    } else {
        lex_le(a.drop_first(), b.drop_first())
    }
}

/// Where `x` lands in a run: before the first entry it precedes or equals,
/// after everything it does not.
pub open spec fn insert_sorted(x: Seq<char>, s: Seq<Seq<char>>) -> Seq<Seq<char>>
    decreases s.len(),
{
    if s.len() == 0 {
        seq![x]
    } else if lex_le(x, s[0]) {
        seq![x] + s
    } else {
        seq![s[0]] + insert_sorted(x, s.drop_first())
    }
}

/// The names arranged ascending by `lex_le`: each taken in turn and placed
/// where it belongs among those already placed.
pub open spec fn sort_lex(s: Seq<Seq<char>>) -> Seq<Seq<char>>
    decreases s.len(),
{
    if s.len() == 0 {
        Seq::<Seq<char>>::empty()
    } else {
        insert_sorted(s.last(), sort_lex(s.drop_last()))
    }
}

/// The rows of `parts`, joined with single newlines.
pub open spec fn join_newlines(parts: Seq<Seq<char>>) -> Seq<char>
    decreases parts.len(),
{
    if parts.len() == 0 {
        Seq::<char>::empty()
    } else if parts.len() == 1 {
        parts[0]
    } else {
        join_newlines(parts.drop_last()) + seq!['\n'] + parts.last()
    }
}

/// Decides `lex_le` on character vectors.
fn lex_le_vec(a: &Vec<char>, b: &Vec<char>) -> (r: bool)
    ensures
        r == lex_le(a@, b@),
{
    let n: usize = if a.len() < b.len() {
        a.len()
    } else {
        b.len()
    };
    let mut i: usize = 0;
    proof {
        assert(a@.skip(0) =~= a@);
        assert(b@.skip(0) =~= b@);
    }
    while i < n
        invariant
            i <= n,
            n <= a@.len(),
            n <= b@.len(),
            n == a@.len() || n == b@.len(),
            lex_le(a@, b@) == lex_le(a@.skip(i as int), b@.skip(i as int)),
        decreases n - i,
    {
        proof {
            assert(a@.skip(i as int)[0] == a@[i as int]);
            assert(b@.skip(i as int)[0] == b@[i as int]);
            assert(a@.skip(i as int).drop_first() =~= a@.skip(i + 1 as int));
            assert(b@.skip(i as int).drop_first() =~= b@.skip(i + 1 as int));
        }
        if (a[i] as u32) < (b[i] as u32) {
            return true;
        }
        if (a[i] as u32) > (b[i] as u32) {
            return false;
        }
        i = i + 1;
    }
    proof {
        if a@.len() <= b@.len() {
            assert(a@.skip(i as int).len() == 0);
        } else {
            assert(a@.skip(i as int).len() > 0 && b@.skip(i as int).len() == 0);
        }
    }
    a.len() <= b.len()
}

/// `insert_sorted` places `x` at the first position whose entry it
/// precedes or equals.
proof fn lemma_insert_at(x: Seq<char>, s: Seq<Seq<char>>, j: int)
    requires
        0 <= j <= s.len(),
        forall|k: int| 0 <= k < j ==> !lex_le(x, s[k]),
        j < s.len() ==> lex_le(x, s[j]),
    ensures
        insert_sorted(x, s) == s.take(j) + seq![x] + s.skip(j),
    decreases j,
{
    if j == 0 {
        if s.len() == 0 {
            assert(s.take(0) + seq![x] + s.skip(0) =~= seq![x]);
        } else {
            assert(s.take(0) + seq![x] + s.skip(0) =~= seq![x] + s);
        }
    } else {
        assert(!lex_le(x, s[0]));
        lemma_insert_at(x, s.drop_first(), j - 1);
        assert(seq![s[0]] + (s.drop_first().take(j - 1) + seq![x] + s.drop_first().skip(j - 1))
            =~= s.take(j) + seq![x] + s.skip(j));
    }
}

/// Inserts `x` where it belongs in the run held by `r`.
fn insert_in_order(r: &mut Vec<Vec<char>>, x: Vec<char>)
    ensures
        views_of(final(r)@) == insert_sorted(x@, views_of(old(r)@)),
{
    let mut j: usize = 0;
    let mut found = false;
    while j < r.len() && !found
        invariant
            j <= r@.len(),
            r@ == old(r)@,
            forall|k: int| 0 <= k < j ==> !lex_le(x@, r@[k]@),
            found ==> j < r@.len() && lex_le(x@, r@[j as int]@),
        decreases r@.len() - j + if found {
            0int
        } else {
            1int
        },
    {
        if lex_le_vec(&x, &r[j]) {
            found = true;
        } else {
            j = j + 1;
        }
    }
    proof {
        lemma_insert_at(x@, views_of(r@), j as int);
    }
    let ghost before = views_of(r@);
    r.insert(j, x);
    proof {
        assert(views_of(r@) =~= before.take(j as int) + seq![x@] + before.skip(j as int));
    }
}

/// Formats a directory listing: the names sorted ascending and joined with
/// newlines, exactly what `ls` displays for the names the collaborator
/// enumerated.
pub fn format_listing(names: &Vec<Vec<char>>) -> (r: Vec<char>)
    ensures
        r@ == join_newlines(sort_lex(views_of(names@))),
{
    let mut sorted: Vec<Vec<char>> = Vec::new();
    let mut i: usize = 0;
    proof {
        assert(views_of(sorted@) =~= sort_lex(views_of(names@).take(0)));
    }
    while i < names.len()
        invariant
            i <= names@.len(),
            views_of(sorted@) == sort_lex(views_of(names@).take(i as int)),
        decreases names@.len() - i,
    {
        proof {
            assert(views_of(names@).take(i + 1 as int).drop_last() =~= views_of(names@).take(
                i as int,
            ));
            assert(views_of(names@).take(i + 1 as int).last() == names@[i as int]@);
        }
        let x = copy_chars(&names[i]);
        insert_in_order(&mut sorted, x);
        i = i + 1;
    }
    proof {
        assert(views_of(names@).take(names@.len() as int) =~= views_of(names@));
    }
    let ghost rows = views_of(sorted@);
    let mut r: Vec<char> = Vec::new();
    let mut i: usize = 0;
    while i < sorted.len()
        invariant
            i <= sorted@.len(),
            rows == views_of(sorted@),
            r@ == join_newlines(rows.take(i as int)),
        decreases sorted@.len() - i,
    {
        proof {
            assert(rows.take(i + 1 as int).drop_last() =~= rows.take(i as int));
            assert(rows.take(i + 1 as int).last() == sorted@[i as int]@);
        }
        if i > 0 {
            r.push('\n');
        }
        crate::text::push_all(&mut r, &sorted[i]);
        proof {
            if i > 0 {
                assert(r@ =~= join_newlines(rows.take(i as int)) + seq!['\n'] + rows.take(
                    i + 1 as int,
                ).last());
            } else {
                assert(r@ =~= rows.take(i + 1 as int).last());
            }
        }
        i = i + 1;
    }
    proof {
        assert(rows.take(sorted@.len() as int) =~= rows);
    }
    r
}

} // verus!
