//! The command dispatcher: splits a submitted line into a command token and
//! its arguments, decides what the session must do, and formats the result
//! text once the filesystem collaborator has answered. Every result string
//! is pinned down exactly, so dispatch is a function of the line alone and
//! the reply a function of request and outcome alone.

use vstd::prelude::*;
use vstd::string::StringExecFns;
use crate::parse::{tokens_of, join_spaces, tokenize, join_from};
use crate::text::{views_of, str_to_chars, push_all, chars_eq_str};

verus! {

/// A filesystem operation the session asks its collaborator to perform.
pub enum FsRequest {
    ListDir,
    ShowCwd,
    ReadFile { name: Vec<char> },
    CreateFile { name: Vec<char>, payload: Vec<char> },
    MakeDir { name: Vec<char> },
    RemoveFile { name: Vec<char> },
    RemoveDir { name: Vec<char> },
    ChangeDir { name: Vec<char> },
}

/// The mathematical image of an `FsRequest`.
pub enum FsRequestView {
    ListDir,
    ShowCwd,
    ReadFile { name: Seq<char> },
    CreateFile { name: Seq<char>, payload: Seq<char> },
    MakeDir { name: Seq<char> },
    RemoveFile { name: Seq<char> },
    RemoveDir { name: Seq<char> },
    ChangeDir { name: Seq<char> },
}

impl View for FsRequest {
    type V = FsRequestView;

    open spec fn view(&self) -> FsRequestView {
        match self {
            FsRequest::ListDir => FsRequestView::ListDir,
            FsRequest::ShowCwd => FsRequestView::ShowCwd,
            FsRequest::ReadFile { name } => FsRequestView::ReadFile { name: name@ },
            FsRequest::CreateFile { name, payload } => (FsRequestView::CreateFile {
                name: name@,
                payload: payload@,
            }),
            FsRequest::MakeDir { name } => FsRequestView::MakeDir { name: name@ },
            FsRequest::RemoveFile { name } => FsRequestView::RemoveFile { name: name@ },
            FsRequest::RemoveDir { name } => FsRequestView::RemoveDir { name: name@ },
            FsRequest::ChangeDir { name } => FsRequestView::ChangeDir { name: name@ },
        }
    }
}

/// What a submitted line asks the session to do.
pub enum Directive {
    /// The line held no token at all: discard it silently.
    Blank,
    /// The result text is already known (echo, an unknown command, or a
    /// missing argument); nothing else happens.
    Reply { text: Vec<char> },
    /// The `clear` command: empty the transcript, append nothing.
    WipeTranscript,
    /// The `exit` command: end the session.
    Terminate,
    /// A filesystem command: have the collaborator perform `request`.
    Ask { request: FsRequest },
}

/// The mathematical image of a `Directive`.
pub enum DirectiveView {
    Blank,
    Reply { text: Seq<char> },
    WipeTranscript,
    Terminate,
    Ask { request: FsRequestView },
}

impl View for Directive {
    type V = DirectiveView;

    open spec fn view(&self) -> DirectiveView {
        match self {
            Directive::Blank => DirectiveView::Blank,
            Directive::Reply { text } => DirectiveView::Reply { text: text@ },
            Directive::WipeTranscript => DirectiveView::WipeTranscript,
            Directive::Terminate => DirectiveView::Terminate,
            Directive::Ask { request } => DirectiveView::Ask { request: request@ },
        }
    }
}

/// The collaborator's report on one filesystem request.
pub enum FsOutcome {
    /// The operation succeeded and has no output of its own.
    Done,
    /// The operation succeeded and produced `text` (a listing, a working
    /// directory, or a file's contents).
    Output { text: Vec<char> },
    /// The operation failed; `detail` is the system's description.
    Failed { detail: Vec<char> },
    /// The file was created but writing its initial content failed.
    WriteFailed { detail: Vec<char> },
}

/// The mathematical image of an `FsOutcome`.
pub enum FsOutcomeView {
    Done,
    Output { text: Seq<char> },
    Failed { detail: Seq<char> },
    WriteFailed { detail: Seq<char> },
}

impl View for FsOutcome {
    type V = FsOutcomeView;

    open spec fn view(&self) -> FsOutcomeView {
        match self {
            FsOutcome::Done => FsOutcomeView::Done,
            FsOutcome::Output { text } => FsOutcomeView::Output { text: text@ },
            FsOutcome::Failed { detail } => FsOutcomeView::Failed { detail: detail@ },
            FsOutcome::WriteFailed { detail } => FsOutcomeView::WriteFailed { detail: detail@ },
        }
    }
}

/// The reply to a filename command whose argument is missing.
pub open spec fn missing_file_text() -> Seq<char> {
    "Error: File name is required."@
}

/// The reply to a directory command whose argument is missing.
pub open spec fn missing_dir_text() -> Seq<char> {
    "Error: Directory name is required."@
}

/// One layer of quote stripping: at most one double quote is removed from
/// the very start and at most one from the very end.
pub open spec fn strip_quotes(s: Seq<char>) -> Seq<char> {
    let a = if s.len() > 0 && s[0] == '"' {
        s.drop_first()
    } else {
        s
    };
    if a.len() > 0 && a.last() == '"' {
        a.drop_last()
    } else {
        a
    }
}

/// The exact bytes `touch` hands its collaborator to write: the joined
/// content with one layer of quotes stripped, and, when anything is left, a
/// trailing newline from the write.
pub open spec fn touch_payload(content: Seq<char>) -> Seq<char> {
    if strip_quotes(content).len() == 0 {
        Seq::<char>::empty()
    } else {
        strip_quotes(content).push('\n')
    }
}

/// What each command line asks for. The first token picks the command from
/// the fixed registry; `cat`, `touch`, `mkdir`, `rm`, `rmdir` and `cd`
/// demand a name argument and are answered with an inline error when it is
/// missing; an unrecognized token is reported inline as well.
pub open spec fn dispatch_view(line: Seq<char>) -> DirectiveView {
    let toks = tokens_of(line);
    if crate::parse::is_blank(line) {
        DirectiveView::Blank
    } else if toks[0] == "ls"@ {
        DirectiveView::Ask { request: FsRequestView::ListDir }
    } else if toks[0] == "pwd"@ {
        DirectiveView::Ask { request: FsRequestView::ShowCwd }
    } else if toks[0] == "cat"@ {
        if toks.len() < 2 {
            DirectiveView::Reply { text: missing_file_text() }
        } else {
            DirectiveView::Ask { request: FsRequestView::ReadFile { name: toks[1] } }
        }
    } else if toks[0] == "echo"@ {
        DirectiveView::Reply { text: join_spaces(toks.skip(1)) }
    } else if toks[0] == "touch"@ {
        if toks.len() < 2 {
            DirectiveView::Reply { text: missing_file_text() }
        } else {
            DirectiveView::Ask {
                request: FsRequestView::CreateFile {
                    name: toks[1],
                    payload: touch_payload(join_spaces(toks.skip(2))),
                },
            }
        }
    } else if toks[0] == "clear"@ {
        DirectiveView::WipeTranscript
    } else if toks[0] == "mkdir"@ {
        if toks.len() < 2 {
            DirectiveView::Reply { text: missing_dir_text() }
        } else {
            DirectiveView::Ask { request: FsRequestView::MakeDir { name: toks[1] } }
        }
    } else if toks[0] == "rm"@ {
        if toks.len() < 2 {
            DirectiveView::Reply { text: missing_file_text() }
        } else {
            DirectiveView::Ask { request: FsRequestView::RemoveFile { name: toks[1] } }
        }
    } else if toks[0] == "rmdir"@ {
        if toks.len() < 2 {
            DirectiveView::Reply { text: missing_dir_text() }
        } else {
            DirectiveView::Ask { request: FsRequestView::RemoveDir { name: toks[1] } }
        }
    } else if toks[0] == "cd"@ {
        if toks.len() < 2 {
            DirectiveView::Reply { text: missing_dir_text() }
        } else {
            DirectiveView::Ask { request: FsRequestView::ChangeDir { name: toks[1] } }
        }
    } else if toks[0] == "exit"@ {
        DirectiveView::Terminate
    } else {
        DirectiveView::Reply { text: "Unknown command: "@ + toks[0] }
    }
}

/// The result text shown for a request once its outcome is known. Output
/// of `ls`, `pwd` and `cat` is shown as it came; every other command is
/// acknowledged with a message that embeds the target name, and every
/// failure embeds the system's description.
pub open spec fn response_view(req: FsRequestView, out: FsOutcomeView) -> Seq<char> {
    match req {
        FsRequestView::ListDir => match out {
            FsOutcomeView::Output { text } => text,
            FsOutcomeView::Failed { detail } => "Error: "@ + detail,
            FsOutcomeView::WriteFailed { detail } => "Error: "@ + detail,
            FsOutcomeView::Done => Seq::<char>::empty(),
        },
        FsRequestView::ShowCwd => match out {
            FsOutcomeView::Output { text } => text,
            FsOutcomeView::Failed { detail } => "Error: "@ + detail,
            FsOutcomeView::WriteFailed { detail } => "Error: "@ + detail,
            FsOutcomeView::Done => Seq::<char>::empty(),
        },
        FsRequestView::ReadFile { name } => match out {
            FsOutcomeView::Output { text } => text,
            FsOutcomeView::Failed { detail } => ("Error reading file '"@ + name + "': "@
                + detail),
            FsOutcomeView::WriteFailed { detail } => ("Error reading file '"@ + name + "': "@
                + detail),
            FsOutcomeView::Done => Seq::<char>::empty(),
        },
        FsRequestView::CreateFile { name, .. } => match out {
            FsOutcomeView::Done => "File '"@ + name + "' created."@,
            FsOutcomeView::Output { .. } => "File '"@ + name + "' created."@,
            FsOutcomeView::Failed { detail } => ("Error creating file '"@ + name + "': "@
                + detail),
            FsOutcomeView::WriteFailed { detail } => ("Error writing to file '"@ + name + "': "@
                + detail),
        },
        FsRequestView::MakeDir { name } => match out {
            FsOutcomeView::Done => "Directory '"@ + name + "' created."@,
            FsOutcomeView::Output { .. } => "Directory '"@ + name + "' created."@,
            FsOutcomeView::Failed { detail } => ("Error creating directory '"@ + name + "': "@
                + detail),
            FsOutcomeView::WriteFailed { detail } => ("Error creating directory '"@ + name
                + "': "@ + detail),
        },
        FsRequestView::RemoveFile { name } => match out {
            FsOutcomeView::Done => "File '"@ + name + "' deleted."@,
            FsOutcomeView::Output { .. } => "File '"@ + name + "' deleted."@,
            FsOutcomeView::Failed { detail } => ("Error deleting file '"@ + name + "': "@
                + detail),
            FsOutcomeView::WriteFailed { detail } => ("Error deleting file '"@ + name + "': "@
                + detail),
        },
        FsRequestView::RemoveDir { name } => match out {
            FsOutcomeView::Done => "Directory '"@ + name + "' removed."@,
            FsOutcomeView::Output { .. } => "Directory '"@ + name + "' removed."@,
            FsOutcomeView::Failed { detail } => ("Error removing directory '"@ + name + "': "@
                + detail),
            FsOutcomeView::WriteFailed { detail } => ("Error removing directory '"@ + name
                + "': "@ + detail),
        },
        FsRequestView::ChangeDir { name } => match out {
            FsOutcomeView::Done => "Changed directory to '"@ + name + "'."@,
            FsOutcomeView::Output { .. } => "Changed directory to '"@ + name + "'."@,
            FsOutcomeView::Failed { detail } => ("Error changing directory to '"@ + name
                + "': "@ + detail),
            FsOutcomeView::WriteFailed { detail } => ("Error changing directory to '"@ + name
                + "': "@ + detail),
        },
    }
}

/// Law: dispatch is deterministic. The directive is a function of the
/// command line alone, and the reply text a function of the request and the
/// collaborator's outcome alone; nothing else can sway either.
pub proof fn lemma_dispatch_deterministic(
    a: Seq<char>,
    b: Seq<char>,
    r1: FsRequestView,
    r2: FsRequestView,
    o1: FsOutcomeView,
    o2: FsOutcomeView,
)
    requires
        a == b,
        r1 == r2,
        o1 == o2,
    ensures
        dispatch_view(a) == dispatch_view(b),
        response_view(r1, o1) == response_view(r2, o2),
{
}

/// `prefix` followed by the characters of `v`.
fn compose2(prefix: &str, v: &Vec<char>) -> (r: Vec<char>)
    ensures
        r@ == prefix@ + v@,
{
    let mut r = str_to_chars(prefix);
    push_all(&mut r, v);
    r
}

/// `prefix`, the characters of `v`, then `suffix`.
fn compose3(prefix: &str, v: &Vec<char>, suffix: &str) -> (r: Vec<char>)
    ensures
        r@ == prefix@ + v@ + suffix@,
{
    let mut r = str_to_chars(prefix);
    push_all(&mut r, v);
    let tail = str_to_chars(suffix);
    push_all(&mut r, &tail);
    r
}

/// `prefix`, the characters of `v`, `mid`, then the characters of `w`.
fn compose4(prefix: &str, v: &Vec<char>, mid: &str, w: &Vec<char>) -> (r: Vec<char>)
    ensures
        r@ == prefix@ + v@ + mid@ + w@,
{
    let mut r = str_to_chars(prefix);
    push_all(&mut r, v);
    let m = str_to_chars(mid);
    push_all(&mut r, &m);
    push_all(&mut r, w);
    r
}

/// Builds the bytes `touch` will have written for the joined `content`.
fn build_payload(content: &Vec<char>) -> (r: Vec<char>)
    ensures
        r@ == touch_payload(content@),
{
    let mut lo: usize = 0;
    let mut hi: usize = content.len();
    if hi > lo && content[lo] == '"' {
        lo = lo + 1;
    }
    if hi > lo && content[hi - 1] == '"' {
        hi = hi - 1;
    }
    proof {
        assert(content@.subrange(lo as int, hi as int) =~= strip_quotes(content@));
    }
    let mut r: Vec<char> = Vec::new();
    let mut i: usize = lo;
    while i < hi
        invariant
            lo <= i <= hi <= content@.len(),
            r@ == content@.subrange(lo as int, i as int),
        decreases hi - i,
    {
        r.push(content[i]);
        proof {
            assert(r@ =~= content@.subrange(lo as int, i + 1 as int));
        }
        i = i + 1;
    }
    if r.len() > 0 {
        r.push('\n');
    }
    r
}

/// Decides what the submitted `line` asks for, as `dispatch_view` states.
pub fn dispatch(line: &Vec<char>) -> (d: Directive)
    ensures
        d@ == dispatch_view(line@),
{
    let mut toks = tokenize(line);
    let n: usize = toks.len();
    if n == 0 {
        return Directive::Blank;
    }
    if chars_eq_str(&toks[0], "ls") {
        Directive::Ask { request: FsRequest::ListDir }
    } else if chars_eq_str(&toks[0], "pwd") {
        Directive::Ask { request: FsRequest::ShowCwd }
    } else if chars_eq_str(&toks[0], "cat") {
        if n < 2 {
            Directive::Reply { text: str_to_chars("Error: File name is required.") }
        } else {
            let name = toks.remove(1);
            Directive::Ask { request: FsRequest::ReadFile { name } }
        }
    } else if chars_eq_str(&toks[0], "echo") {
        Directive::Reply { text: join_from(&toks, 1) }
    } else if chars_eq_str(&toks[0], "touch") {
        if n < 2 {
            Directive::Reply { text: str_to_chars("Error: File name is required.") }
        } else {
            let content = join_from(&toks, 2);
            let payload = build_payload(&content);
            let name = toks.remove(1);
            Directive::Ask { request: FsRequest::CreateFile { name, payload } }
        }
    } else if chars_eq_str(&toks[0], "clear") {
        Directive::WipeTranscript
    } else if chars_eq_str(&toks[0], "mkdir") {
        if n < 2 {
            Directive::Reply { text: str_to_chars("Error: Directory name is required.") }
        } else {
            let name = toks.remove(1);
            Directive::Ask { request: FsRequest::MakeDir { name } }
        }
    } else if chars_eq_str(&toks[0], "rm") {
        if n < 2 {
            Directive::Reply { text: str_to_chars("Error: File name is required.") }
        } else {
            let name = toks.remove(1);
            Directive::Ask { request: FsRequest::RemoveFile { name } }
        }
    } else if chars_eq_str(&toks[0], "rmdir") {
        if n < 2 {
            Directive::Reply { text: str_to_chars("Error: Directory name is required.") }
        } else {
            let name = toks.remove(1);
            Directive::Ask { request: FsRequest::RemoveDir { name } }
        }
    } else if chars_eq_str(&toks[0], "cd") {
        if n < 2 {
            Directive::Reply { text: str_to_chars("Error: Directory name is required.") }
        } else {
            let name = toks.remove(1);
            Directive::Ask { request: FsRequest::ChangeDir { name } }
        }
    } else if chars_eq_str(&toks[0], "exit") {
        Directive::Terminate
    } else {
        Directive::Reply { text: compose2("Unknown command: ", &toks[0]) }
    }
}

/// Formats the result text for `req` once its `out`come is known, as
/// `response_view` states.
pub fn respond(req: &FsRequest, out: &FsOutcome) -> (r: Vec<char>)
    ensures
        r@ == response_view(req@, out@),
{
    match req {
        FsRequest::ListDir | FsRequest::ShowCwd => match out {
            FsOutcome::Output { text } => crate::text::copy_chars(text),
            FsOutcome::Failed { detail } => compose2("Error: ", detail),
            FsOutcome::WriteFailed { detail } => compose2("Error: ", detail),
            FsOutcome::Done => Vec::new(),
        },
        FsRequest::ReadFile { name } => match out {
            FsOutcome::Output { text } => crate::text::copy_chars(text),
            FsOutcome::Failed { detail } => compose4("Error reading file '", name, "': ", detail),
            FsOutcome::WriteFailed { detail } => (compose4(
                "Error reading file '",
                name,
                "': ",
                detail,
            )),
            FsOutcome::Done => Vec::new(),
        },
        FsRequest::CreateFile { name, .. } => match out {
            FsOutcome::Done => compose3("File '", name, "' created."),
            FsOutcome::Output { .. } => compose3("File '", name, "' created."),
            FsOutcome::Failed { detail } => compose4("Error creating file '", name, "': ", detail),
            FsOutcome::WriteFailed { detail } => (compose4(
                "Error writing to file '",
                name,
                "': ",
                detail,
            )),
        },
        FsRequest::MakeDir { name } => match out {
            FsOutcome::Done => compose3("Directory '", name, "' created."),
            FsOutcome::Output { .. } => compose3("Directory '", name, "' created."),
            FsOutcome::Failed { detail } => (compose4(
                "Error creating directory '",
                name,
                "': ",
                detail,
            )),
            FsOutcome::WriteFailed { detail } => (compose4(
                "Error creating directory '",
                name,
                "': ",
                detail,
            )),
        },
        FsRequest::RemoveFile { name } => match out {
            FsOutcome::Done => compose3("File '", name, "' deleted."),
            FsOutcome::Output { .. } => compose3("File '", name, "' deleted."),
            FsOutcome::Failed { detail } => compose4("Error deleting file '", name, "': ", detail),
            FsOutcome::WriteFailed { detail } => (compose4(
                "Error deleting file '",
                name,
                "': ",
                detail,
            )),
        },
        FsRequest::RemoveDir { name } => match out {
            FsOutcome::Done => compose3("Directory '", name, "' removed."),
            FsOutcome::Output { .. } => compose3("Directory '", name, "' removed."),
            FsOutcome::Failed { detail } => (compose4(
                "Error removing directory '",
                name,
                "': ",
                detail,
            )),
            FsOutcome::WriteFailed { detail } => (compose4(
                "Error removing directory '",
                name,
                "': ",
                detail,
            )),
        },
        FsRequest::ChangeDir { name } => match out {
            FsOutcome::Done => compose3("Changed directory to '", name, "'."),
            FsOutcome::Output { .. } => compose3("Changed directory to '", name, "'."),
            FsOutcome::Failed { detail } => (compose4(
                "Error changing directory to '",
                name,
                "': ",
                detail,
            )),
            FsOutcome::WriteFailed { detail } => (compose4(
                "Error changing directory to '",
                name,
                "': ",
                detail,
            )),
        },
    }
}

/// Joins the arguments with single spaces: the reply of the `echo` command,
/// shown verbatim with no filesystem effect.
pub fn echo_command(args: Vec<&str>) -> (r: String)
    ensures
        r@ == join_spaces(args.deep_view()),
{
    proof {
        reveal_strlit(" ");
        assert(" "@ =~= seq![' ']);
    }
    let mut out = String::new();
    let mut i: usize = 0;
    while i < args.len()
        invariant
            i <= args@.len(),
            out@ == join_spaces(args.deep_view().take(i as int)),
            " "@ == seq![' '],
        decreases args@.len() - i,
    {
        proof {
            assert(args.deep_view().take(i + 1 as int).drop_last() =~= args.deep_view().take(
                i as int,
            ));
            assert(args.deep_view().take(i + 1 as int).last() == args@[i as int]@);
        }
        if i > 0 {
            out.append(" ");
        }
        out.append(args[i]);
        i = i + 1;
    }
    proof {
        assert(args.deep_view().take(args@.len() as int) =~= args.deep_view());
    }
    out
}

} // verus!
