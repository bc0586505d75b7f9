//! The transcript: the ordered, size-bounded scrollback of past prompt and
//! result lines. Appending at capacity evicts the single oldest line; the
//! length never exceeds the bound.

use vstd::prelude::*;
use crate::text::views_of;

verus! {

/// How many transcript lines are kept by default.
pub const MAX_LINES: usize = 20;

/// What one append does to the log: with room left it is a plain push; at
/// capacity the oldest line is dropped first, the rest keeping their order.
pub open spec fn push_bounded(t: Seq<Seq<char>>, cap: nat, e: Seq<char>) -> Seq<Seq<char>> {
    if t.len() < cap {
        t.push(e)
    } else {
        t.drop_first().push(e)
    }
}

/// What `clear` leaves behind, whatever the log held.
pub open spec fn cleared(t: Seq<Seq<char>>) -> Seq<Seq<char>> {
    Seq::<Seq<char>>::empty()
}

/// Law: an append keeps the log within its bound; with room left it only
/// adds the new line at the end, and at capacity it drops exactly the
/// oldest line while every other line keeps its place in order.
pub proof fn lemma_append_bounded(t: Seq<Seq<char>>, cap: nat, e: Seq<char>)
    requires
        1 <= cap,
        t.len() <= cap,
    ensures
        push_bounded(t, cap, e).len() <= cap,
        push_bounded(t, cap, e).last() == e,
        t.len() < cap ==> push_bounded(t, cap, e) == t.push(e),
        t.len() == cap ==> push_bounded(t, cap, e).len() == cap,
        t.len() == cap ==> forall|i: int|
            1 <= i < t.len() ==> push_bounded(t, cap, e)[i - 1] == t[i],
{
}

/// A whole run of appends applied in order.
pub open spec fn append_all(t: Seq<Seq<char>>, cap: nat, es: Seq<Seq<char>>) -> Seq<Seq<char>>
    decreases es.len(),
{
    if es.len() == 0 {
        t
    } else {
        push_bounded(append_all(t, cap, es.drop_last()), cap, es.last())
    }
}

/// How many lines fall off the front over a whole run of appends.
pub open spec fn evicted_count(t: Seq<Seq<char>>, cap: nat, es: Seq<Seq<char>>) -> int {
    if t.len() + es.len() <= cap {
        0
    } else {
        t.len() + es.len() - cap
    }
}

/// Law: a run of appends retains exactly the most recent lines, in append
/// order — the log ends up being the suffix that fits of everything ever
/// held, and never exceeds the bound. In particular, fifty lines appended
/// to an empty log bounded at twenty leave precisely the last twenty.
pub proof fn lemma_retention(t: Seq<Seq<char>>, cap: nat, es: Seq<Seq<char>>)
    requires
        1 <= cap,
        t.len() <= cap,
    ensures
        append_all(t, cap, es) == (t + es).skip(evicted_count(t, cap, es)),
        append_all(t, cap, es).len() <= cap,
    decreases es.len(),
{
    if es.len() == 0 {
        assert((t + es).skip(0) =~= t);
    } else {
        lemma_retention(t, cap, es.drop_last());
        let prev = append_all(t, cap, es.drop_last());
        let m0 = evicted_count(t, cap, es.drop_last());
        let m = evicted_count(t, cap, es);
        assert(t + es.drop_last() =~= (t + es).drop_last());
        if prev.len() < cap {
            assert(append_all(t, cap, es) == prev.push(es.last()));
            assert(prev.push(es.last()) =~= (t + es).skip(m));
        } else {
            assert(append_all(t, cap, es) == prev.drop_first().push(es.last()));
            assert(prev.drop_first().push(es.last()) =~= (t + es).skip(m));
        }
    }
}

/// Law: clearing is insensitive to the contents — an empty transcript and a
/// full one cannot be told apart afterwards, both being left empty.
pub proof fn lemma_clear_uniform(a: Seq<Seq<char>>, b: Seq<Seq<char>>)
    ensures
        cleared(a) == cleared(b),
        cleared(a).len() == 0,
{
}

/// The bounded scrollback, oldest line first.
pub struct Transcript {
    lines: Vec<Vec<char>>,
    cap: usize,
}

impl View for Transcript {
    type V = Seq<Seq<char>>;

    closed spec fn view(&self) -> Seq<Seq<char>> {
        views_of(self.lines@)
    }
}

impl Transcript {
    /// The capacity this transcript was created with.
    pub closed spec fn cap_spec(&self) -> nat {
        self.cap as nat
    }

    /// The retention invariant: a positive bound, never exceeded.
    pub open spec fn wf(&self) -> bool {
        1 <= self.cap_spec() && self@.len() <= self.cap_spec()
    }

    /// An empty transcript with the default bound of `MAX_LINES` lines.
    pub fn new() -> (r: Transcript)
        ensures
            r.wf(),
            r@ == Seq::<Seq<char>>::empty(),
            r.cap_spec() == MAX_LINES as nat,
    {
        let r = Transcript { lines: Vec::new(), cap: MAX_LINES };
        proof {
            assert(r@ =~= Seq::<Seq<char>>::empty());
        }
        r
    }

    /// An empty transcript keeping at most `cap` lines.
    pub fn with_limit(cap: usize) -> (r: Transcript)
        requires
            cap >= 1,
        ensures
            r.wf(),
            r@ == Seq::<Seq<char>>::empty(),
            r.cap_spec() == cap as nat,
    {
        let r = Transcript { lines: Vec::new(), cap };
        proof {
            assert(r@ =~= Seq::<Seq<char>>::empty());
        }
        r
    }

    /// How many lines are held now.
    pub fn len(&self) -> (n: usize)
        ensures
            n == self@.len(),
    {
        self.lines.len()
    }

    /// The bound on the number of lines.
    pub fn capacity(&self) -> (n: usize)
        ensures
            n == self.cap_spec(),
    {
        self.cap
    }

    /// Appends one line, evicting the oldest line first when the log is at
    /// capacity, so the bound is never exceeded.
    pub fn append(&mut self, entry: Vec<char>)
        requires
            old(self).wf(),
        ensures
            final(self).wf(),
            final(self).cap_spec() == old(self).cap_spec(),
            final(self)@ == push_bounded(old(self)@, old(self).cap_spec(), entry@),
    {
        if self.lines.len() == self.cap {
            self.lines.remove(0);
            proof {
                assert(views_of(self.lines@) =~= old(self)@.drop_first());
            }
        }
        let ghost before = views_of(self.lines@);
        self.lines.push(entry);
        proof {
            assert(views_of(self.lines@) =~= before.push(entry@));
        }
    }

    /// Empties the transcript; appends nothing of its own.
    pub fn clear(&mut self)
        ensures
            final(self).cap_spec() == old(self).cap_spec(),
            final(self)@ == cleared(old(self)@),
            old(self).wf() ==> final(self).wf(),
    {
        self.lines.clear();
        proof {
            assert(views_of(self.lines@) =~= Seq::<Seq<char>>::empty());
        }
    }

    /// The lines held now, oldest first.
    pub fn entries(&self) -> (r: &Vec<Vec<char>>)
        ensures
            views_of(r@) == self@,
    {
        &self.lines
    }
}

} // verus!
