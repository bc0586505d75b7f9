//! The session: the state machine that owns the line editor and the
//! transcript, advances once per input event, and renders the whole screen
//! as a pure function of the current state.

use vstd::prelude::*;
use crate::dispatch::{dispatch, dispatch_view, Directive, DirectiveView, FsRequest};
use crate::editor::{apply_edit, EditOp, LineEditor};
use crate::text::{copy_chars, push_all, str_to_chars};
use crate::transcript::{cleared, push_bounded, Transcript};

verus! {

/// One keystroke delivered by the terminal.
pub enum Event {
    /// A printable (or any other plain) character key.
    Typed(char),
    Backspace,
    Enter,
    Escape,
    /// Any key the session ignores.
    Other,
}

/// What the loop driver must do after a step.
pub enum StepOutcome {
    /// Render again and wait for the next event.
    Continue,
    /// Perform `request` against the filesystem, format the reply with
    /// `respond`, and hand it to `record_reply`; then continue.
    Ask { request: FsRequest },
    /// Restore the terminal and end the session.
    Quit,
}

/// The echoed prompt line placed in the transcript and below it on screen:
/// `"> <cwd> <line>"`.
pub open spec fn echo_line(cwd: Seq<char>, line: Seq<char>) -> Seq<char> {
    "> "@ + cwd + " "@ + line
}

/// The screen title, the topmost row of every frame.
pub open spec fn title_text() -> Seq<char> {
    "Welcome to the Unix Emulator"@
}

/// The separator under the title.
pub open spec fn separator_text() -> Seq<char> {
    "------------------------------"@
}

/// Builds the echoed prompt line for the current directory and line.
fn compose_echo(cwd: &Vec<char>, line: &Vec<char>) -> (r: Vec<char>)
    ensures
        r@ == echo_line(cwd@, line@),
{
    let mut r = str_to_chars("> ");
    push_all(&mut r, cwd);
    let sp = str_to_chars(" ");
    push_all(&mut r, &sp);
    push_all(&mut r, line);
    r
}

/// The session state: the in-progress line and the scrollback. The working
/// directory is deliberately not part of it — the driver re-reads it from
/// the environment each cycle and passes it in.
pub struct Session {
    pub editor: LineEditor,
    pub transcript: Transcript,
}

/// Both parts of the state kept as they were.
pub open spec fn state_kept(pre: Session, post: Session) -> bool {
    post.editor@ == pre.editor@ && post.transcript@ == pre.transcript@
}

/// What submitting a non-blank line with an already-known reply leaves in
/// the transcript: the echoed prompt line, then the reply, each append
/// bounded on its own.
pub open spec fn replied_transcript(pre: Session, cwd: Seq<char>, text: Seq<char>) -> Seq<
    Seq<char>,
> {
    push_bounded(
        push_bounded(pre.transcript@, pre.transcript.cap_spec(), echo_line(cwd, pre.editor@)),
        pre.transcript.cap_spec(),
        text,
    )
}

/// What submitting a filesystem command leaves in the transcript before the
/// collaborator answers: the echoed prompt line alone.
pub open spec fn echoed_transcript(pre: Session, cwd: Seq<char>) -> Seq<Seq<char>> {
    push_bounded(pre.transcript@, pre.transcript.cap_spec(), echo_line(cwd, pre.editor@))
}

impl Session {
    /// A fresh session: empty line, empty transcript at the default bound.
    pub fn new() -> (r: Session)
        ensures
            r.transcript.wf(),
            r.editor@ == Seq::<char>::empty(),
            r.transcript@ == Seq::<Seq<char>>::empty(),
            r.transcript.cap_spec() == crate::transcript::MAX_LINES as nat,
    {
        Session { editor: LineEditor::new(), transcript: Transcript::new() }
    }

    /// Advances the session by one input event, `cwd` being the working
    /// directory read for the current cycle. A character key edits the
    /// line; Enter submits it: a blank line is discarded silently, `clear`
    /// empties the transcript and appends nothing, `exit` and Escape end
    /// the session, a command with a known reply appends the echoed prompt
    /// line and the reply, and a filesystem command appends the echoed
    /// prompt line and hands the request back to the driver.
    pub fn step(&mut self, event: Event, cwd: &Vec<char>) -> (r: StepOutcome)
        requires
            old(self).transcript.wf(),
        ensures
            final(self).transcript.wf(),
            final(self).transcript.cap_spec() == old(self).transcript.cap_spec(),
            match event {
                Event::Typed(c) => {
                    &&& final(self).editor@ == old(self).editor@.push(c)
                    &&& final(self).transcript@ == old(self).transcript@
                    &&& r is Continue
                },
                Event::Backspace => {
                    &&& final(self).editor@ == apply_edit(old(self).editor@, EditOp::DeleteLast)
                    &&& final(self).transcript@ == old(self).transcript@
                    &&& r is Continue
                },
                Event::Other => state_kept(*old(self), *final(self)) && r is Continue,
                Event::Escape => state_kept(*old(self), *final(self)) && r is Quit,
                Event::Enter => match dispatch_view(old(self).editor@) {
                    DirectiveView::Blank => state_kept(*old(self), *final(self))
                        && r is Continue,
                    DirectiveView::Terminate => state_kept(*old(self), *final(self))
                        && r is Quit,
                    DirectiveView::WipeTranscript => {
                        &&& final(self).editor@ == Seq::<char>::empty()
                        &&& final(self).transcript@ == cleared(old(self).transcript@)
                        &&& r is Continue
                    },
                    DirectiveView::Reply { text } => {
                        &&& final(self).editor@ == Seq::<char>::empty()
                        &&& final(self).transcript@ == replied_transcript(*old(self), cwd@, text)
                        &&& r is Continue
                    },
                    DirectiveView::Ask { request } => {
                        &&& final(self).editor@ == Seq::<char>::empty()
                        &&& final(self).transcript@ == echoed_transcript(*old(self), cwd@)
                        &&& (r matches StepOutcome::Ask { request: q } && q@ == request)
                    },
                },
            },
    {
        match event {
            Event::Typed(c) => {
                self.editor.insert(c);
                StepOutcome::Continue
            },
            Event::Backspace => {
                self.editor.delete_last();
                StepOutcome::Continue
            },
            Event::Other => StepOutcome::Continue,
            Event::Escape => StepOutcome::Quit,
            Event::Enter => {
                let d = dispatch(self.editor.contents());
                match d {
                    Directive::Blank => StepOutcome::Continue,
                    Directive::Terminate => StepOutcome::Quit,
                    Directive::WipeTranscript => {
                        self.transcript.clear();
                        self.editor.reset();
                        StepOutcome::Continue
                    },
                    Directive::Reply { text } => {
                        let echo = compose_echo(cwd, self.editor.contents());
                        self.transcript.append(echo);
                        self.transcript.append(text);
                        self.editor.reset();
                        StepOutcome::Continue
                    },
                    Directive::Ask { request } => {
                        let echo = compose_echo(cwd, self.editor.contents());
                        self.transcript.append(echo);
                        self.editor.reset();
                        StepOutcome::Ask { request }
                    },
                }
            },
        }
    }

    /// Appends the formatted reply to an earlier `Ask` outcome; the second
    /// of the two transcript entries a filesystem command contributes.
    pub fn record_reply(&mut self, text: Vec<char>)
        requires
            old(self).transcript.wf(),
        ensures
            final(self).transcript.wf(),
            final(self).transcript.cap_spec() == old(self).transcript.cap_spec(),
            final(self).editor@ == old(self).editor@,
            final(self).transcript@ == push_bounded(
                old(self).transcript@,
                old(self).transcript.cap_spec(),
                text@,
            ),
    {
        self.transcript.append(text);
    }

    /// The full-screen frame for the current state, one row per entry: the
    /// title, the separator, the transcript lines in order, and the live
    /// prompt line directly beneath the last of them. A pure function of
    /// the arguments — no memory of the previous frame.
    pub fn render(&self, cwd: &Vec<char>) -> (rows: Vec<Vec<char>>)
        ensures
            rows@.len() == self.transcript@.len() + 3,
            rows@[0]@ == title_text(),
            rows@[1]@ == separator_text(),
            forall|i: int|
                0 <= i < self.transcript@.len() ==> rows@[i + 2]@ == self.transcript@[i],
            rows@[rows@.len() - 1]@ == echo_line(cwd@, self.editor@),
    {
        let mut rows: Vec<Vec<char>> = Vec::new();
        rows.push(str_to_chars("Welcome to the Unix Emulator"));
        rows.push(str_to_chars("------------------------------"));
        let entries = self.transcript.entries();
        let mut i: usize = 0;
        while i < entries.len()
            invariant
                i <= entries@.len(),
                crate::text::views_of(entries@) == self.transcript@,
                rows@.len() == i + 2,
                rows@[0]@ == title_text(),
                rows@[1]@ == separator_text(),
                forall|j: int| 0 <= j < i ==> rows@[j + 2]@ == self.transcript@[j],
            decreases entries@.len() - i,
        {
            rows.push(copy_chars(&entries[i]));
            i = i + 1;
        }
        rows.push(compose_echo(cwd, self.editor.contents()));
        rows
    }
}

} // verus!
