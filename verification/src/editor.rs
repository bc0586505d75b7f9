//! The line editor: the not-yet-submitted command line, mutated one
//! keystroke at a time, together with the law tying the buffer length to a
//! whole run of keystrokes.

use vstd::prelude::*;

verus! {

/// One editing keystroke: a character to append or a backspace.
pub enum EditOp {
    Insert(char),
    DeleteLast,
}

/// What one keystroke does to the buffer: `Insert` always appends;
/// `DeleteLast` removes the last character and is a no-op on an empty buffer.
pub open spec fn apply_edit(s: Seq<char>, op: EditOp) -> Seq<char> {
    match op {
        EditOp::Insert(c) => s.push(c),
        EditOp::DeleteLast => if s.len() > 0 {
            s.drop_last()
        } else {
            s
        },
    }
}

/// A whole run of keystrokes applied in order.
pub open spec fn apply_edits(s: Seq<char>, ops: Seq<EditOp>) -> Seq<char>
    decreases ops.len(),
{
    if ops.len() == 0 {
        s
    } else {
        apply_edit(apply_edits(s, ops.drop_last()), ops.last())
    }
}

/// How many of the keystrokes insert a character.
pub open spec fn insert_count(ops: Seq<EditOp>) -> nat
    decreases ops.len(),
{
    if ops.len() == 0 {
        0
    } else {
        insert_count(ops.drop_last()) + if ops.last() is Insert {
            1nat
        } else {
            0nat
        }
    }
}

/// How many of the deletes actually removed a character when the run starts
/// from `s` (a backspace on an empty buffer removes nothing).
pub open spec fn effective_delete_count(s: Seq<char>, ops: Seq<EditOp>) -> nat
    decreases ops.len(),
{
    if ops.len() == 0 {
        0
    } else {
        effective_delete_count(s, ops.drop_last()) + if ops.last() is DeleteLast
            && apply_edits(s, ops.drop_last()).len() > 0 {
            1nat
        } else {
            0nat
        }
    }
}

/// Law: after any run of inserts and deletes the buffer length equals the
/// starting length plus the number of inserts minus the number of deletes
/// that found a character to remove — and, the length being a count, it can
/// never go negative.
pub proof fn lemma_editor_length(s: Seq<char>, ops: Seq<EditOp>)
    ensures
        apply_edits(s, ops).len() + effective_delete_count(s, ops) == s.len() + insert_count(ops),
    decreases ops.len(),
{
    if ops.len() > 0 {
        lemma_editor_length(s, ops.drop_last());
    }
}

/// The in-progress command line, owned by the session and mutated only
/// through the operations below.
pub struct LineEditor {
    buf: Vec<char>,
}

impl View for LineEditor {
    type V = Seq<char>;

    closed spec fn view(&self) -> Seq<char> {
        self.buf@
    }
}

impl LineEditor {
    /// A fresh, empty command line.
    pub fn new() -> (r: LineEditor)
        ensures
            r@ == Seq::<char>::empty(),
    {
        LineEditor { buf: Vec::new() }
    }

    /// Appends `c` to the end of the buffer; accepts any character and
    /// always succeeds.
    pub fn insert(&mut self, c: char)
        ensures
            final(self)@ == apply_edit(old(self)@, EditOp::Insert(c)),
    {
        self.buf.push(c);
    }

    /// Removes the last character if there is one; a no-op on an empty
    /// buffer, never an error.
    pub fn delete_last(&mut self)
        ensures
            final(self)@ == apply_edit(old(self)@, EditOp::DeleteLast),
    {
        if self.buf.len() > 0 {
            self.buf.pop();
        }
    }

    /// Clears the buffer, as after a successful submission.
    pub fn reset(&mut self)
        ensures
            final(self)@ == Seq::<char>::empty(),
    {
        self.buf.clear();
    }

    /// The current characters, oldest first.
    pub fn contents(&self) -> (r: &Vec<char>)
        ensures
            r@ == self@,
    {
        &self.buf
    }
}

} // verus!
