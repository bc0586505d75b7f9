//! Tests of the command dispatcher and the result-text formatting.

use unix_emulator::dispatch::{dispatch, echo_command, respond, Directive, FsOutcome, FsRequest};

fn cv(s: &str) -> Vec<char> {
    s.chars().collect()
}

fn to_string(v: &[char]) -> String {
    v.iter().collect()
}

fn reply_text(d: Directive) -> String {
    match d {
        Directive::Reply { text } => to_string(&text),
        _ => panic!("expected a Reply directive"),
    }
}

fn request_of(d: Directive) -> FsRequest {
    match d {
        Directive::Ask { request } => request,
        _ => panic!("expected an Ask directive"),
    }
}

#[test]
fn ls_and_pwd_become_requests() {
    assert!(matches!(request_of(dispatch(&cv("ls"))), FsRequest::ListDir));
    assert!(matches!(request_of(dispatch(&cv("pwd"))), FsRequest::ShowCwd));
}

#[test]
fn blank_lines_are_discarded() {
    assert!(matches!(dispatch(&cv("")), Directive::Blank));
    assert!(matches!(dispatch(&cv("   ")), Directive::Blank));
    assert!(matches!(dispatch(&cv(" \t  \t ")), Directive::Blank));
}

#[test]
fn unicode_whitespace_counts_as_blank() {
    // Whatever Rust's trim would discard, the dispatcher discards too:
    // vertical tab, form feed, next line, no-break space, em space,
    // ideographic space.
    for line in ["\u{000B}", "\u{000C}", "\u{0085}", "\u{00A0}", "\u{2003}", "\u{3000}"] {
        assert!(line.trim().is_empty());
        assert!(matches!(dispatch(&cv(line)), Directive::Blank), "line {:?}", line);
    }
}

#[test]
fn unicode_whitespace_separates_tokens() {
    // split_whitespace semantics: any Unicode whitespace separates, so the
    // two arguments are re-joined with a plain space.
    assert_eq!(reply_text(dispatch(&cv("echo a\u{000B}b"))), "a b");
    assert_eq!(reply_text(dispatch(&cv("echo\u{00A0}x\u{2003}y"))), "x y");
}

#[test]
fn surrounding_whitespace_is_ignored() {
    assert!(matches!(request_of(dispatch(&cv("   ls   "))), FsRequest::ListDir));
    match request_of(dispatch(&cv("  cat   notes.txt  "))) {
        FsRequest::ReadFile { name } => assert_eq!(to_string(&name), "notes.txt"),
        _ => panic!("expected a read request"),
    }
}

#[test]
fn cat_requires_a_file_name() {
    assert_eq!(reply_text(dispatch(&cv("cat"))), "Error: File name is required.");
}

#[test]
fn touch_requires_a_file_name() {
    assert_eq!(reply_text(dispatch(&cv("touch"))), "Error: File name is required.");
}

#[test]
fn rm_requires_a_file_name() {
    assert_eq!(reply_text(dispatch(&cv("rm"))), "Error: File name is required.");
}

#[test]
fn mkdir_requires_a_directory_name() {
    assert_eq!(reply_text(dispatch(&cv("mkdir"))), "Error: Directory name is required.");
}

#[test]
fn rmdir_requires_a_directory_name() {
    assert_eq!(reply_text(dispatch(&cv("rmdir"))), "Error: Directory name is required.");
}

#[test]
fn cd_requires_a_directory_name() {
    assert_eq!(reply_text(dispatch(&cv("cd"))), "Error: Directory name is required.");
}

#[test]
fn unknown_command_is_reported() {
    assert_eq!(reply_text(dispatch(&cv("frobnicate a b"))), "Unknown command: frobnicate");
}

#[test]
fn echo_joins_arguments_with_single_spaces() {
    assert_eq!(reply_text(dispatch(&cv("echo hello   world"))), "hello world");
    assert_eq!(reply_text(dispatch(&cv("echo"))), "");
}

#[test]
fn echo_command_joins_arguments() {
    assert_eq!(echo_command(vec!["hello", "world"]), "hello world");
    assert_eq!(echo_command(vec!["one"]), "one");
    assert_eq!(echo_command(vec![]), "");
}

#[test]
fn touch_without_content_writes_nothing() {
    match request_of(dispatch(&cv("touch notes.txt"))) {
        FsRequest::CreateFile { name, payload } => {
            assert_eq!(to_string(&name), "notes.txt");
            assert_eq!(payload.len(), 0);
        },
        _ => panic!("expected a create request"),
    }
}

#[test]
fn touch_strips_one_layer_of_quotes_and_adds_newline() {
    match request_of(dispatch(&cv("touch notes.txt \"hello world\""))) {
        FsRequest::CreateFile { name, payload } => {
            assert_eq!(to_string(&name), "notes.txt");
            assert_eq!(to_string(&payload), "hello world\n");
        },
        _ => panic!("expected a create request"),
    }
}

#[test]
fn touch_joins_bare_arguments() {
    match request_of(dispatch(&cv("touch a.txt one two"))) {
        FsRequest::CreateFile { payload, .. } => {
            assert_eq!(to_string(&payload), "one two\n");
        },
        _ => panic!("expected a create request"),
    }
}

#[test]
fn clear_and_exit_are_special() {
    assert!(matches!(dispatch(&cv("clear")), Directive::WipeTranscript));
    assert!(matches!(dispatch(&cv("exit")), Directive::Terminate));
}

#[test]
fn directory_commands_become_requests() {
    match request_of(dispatch(&cv("mkdir work"))) {
        FsRequest::MakeDir { name } => assert_eq!(to_string(&name), "work"),
        _ => panic!("expected a mkdir request"),
    }
    match request_of(dispatch(&cv("rmdir work"))) {
        FsRequest::RemoveDir { name } => assert_eq!(to_string(&name), "work"),
        _ => panic!("expected a rmdir request"),
    }
    match request_of(dispatch(&cv("cd work"))) {
        FsRequest::ChangeDir { name } => assert_eq!(to_string(&name), "work"),
        _ => panic!("expected a cd request"),
    }
    match request_of(dispatch(&cv("rm junk.txt"))) {
        FsRequest::RemoveFile { name } => assert_eq!(to_string(&name), "junk.txt"),
        _ => panic!("expected a rm request"),
    }
}

#[test]
fn dispatch_is_deterministic() {
    let a = dispatch(&cv("touch f.txt \"x y\""));
    let b = dispatch(&cv("touch f.txt \"x y\""));
    match (a, b) {
        (
            Directive::Ask { request: FsRequest::CreateFile { name: n1, payload: p1 } },
            Directive::Ask { request: FsRequest::CreateFile { name: n2, payload: p2 } },
        ) => {
            assert_eq!(n1, n2);
            assert_eq!(p1, p2);
        },
        _ => panic!("expected two create requests"),
    }
}

#[test]
fn respond_passes_output_through() {
    let r = respond(&FsRequest::ListDir, &FsOutcome::Output { text: cv("a.txt\nb.txt") });
    assert_eq!(to_string(&r), "a.txt\nb.txt");
    let r = respond(
        &FsRequest::ReadFile { name: cv("notes.txt") },
        &FsOutcome::Output { text: cv("hello world\n") },
    );
    assert_eq!(to_string(&r), "hello world\n");
}

#[test]
fn respond_formats_success_messages() {
    let r = respond(
        &FsRequest::CreateFile { name: cv("notes.txt"), payload: cv("") },
        &FsOutcome::Done,
    );
    assert_eq!(to_string(&r), "File 'notes.txt' created.");
    let r = respond(&FsRequest::MakeDir { name: cv("work") }, &FsOutcome::Done);
    assert_eq!(to_string(&r), "Directory 'work' created.");
    let r = respond(&FsRequest::RemoveFile { name: cv("junk.txt") }, &FsOutcome::Done);
    assert_eq!(to_string(&r), "File 'junk.txt' deleted.");
    let r = respond(&FsRequest::RemoveDir { name: cv("work") }, &FsOutcome::Done);
    assert_eq!(to_string(&r), "Directory 'work' removed.");
    let r = respond(&FsRequest::ChangeDir { name: cv("work") }, &FsOutcome::Done);
    assert_eq!(to_string(&r), "Changed directory to 'work'.");
}

#[test]
fn respond_formats_failure_messages() {
    let gone = "No such file or directory (os error 2)";
    let r = respond(
        &FsRequest::RemoveFile { name: cv("missing.txt") },
        &FsOutcome::Failed { detail: cv(gone) },
    );
    assert!(to_string(&r).starts_with("Error deleting file 'missing.txt':"));
    assert_eq!(to_string(&r), format!("Error deleting file 'missing.txt': {}", gone));
    let r = respond(
        &FsRequest::ReadFile { name: cv("missing.txt") },
        &FsOutcome::Failed { detail: cv(gone) },
    );
    assert_eq!(to_string(&r), format!("Error reading file 'missing.txt': {}", gone));
    let r = respond(
        &FsRequest::CreateFile { name: cv("f"), payload: cv("x\n") },
        &FsOutcome::Failed { detail: cv("denied") },
    );
    assert_eq!(to_string(&r), "Error creating file 'f': denied");
    let r = respond(
        &FsRequest::CreateFile { name: cv("f"), payload: cv("x\n") },
        &FsOutcome::WriteFailed { detail: cv("denied") },
    );
    assert_eq!(to_string(&r), "Error writing to file 'f': denied");
    let r = respond(
        &FsRequest::MakeDir { name: cv("d") },
        &FsOutcome::Failed { detail: cv("exists") },
    );
    assert_eq!(to_string(&r), "Error creating directory 'd': exists");
    let r = respond(
        &FsRequest::RemoveDir { name: cv("d") },
        &FsOutcome::Failed { detail: cv("not empty") },
    );
    assert_eq!(to_string(&r), "Error removing directory 'd': not empty");
    let r = respond(
        &FsRequest::ChangeDir { name: cv("d") },
        &FsOutcome::Failed { detail: cv("gone") },
    );
    assert_eq!(to_string(&r), "Error changing directory to 'd': gone");
    let r = respond(&FsRequest::ListDir, &FsOutcome::Failed { detail: cv("denied") });
    assert_eq!(to_string(&r), "Error: denied");
    let r = respond(&FsRequest::ShowCwd, &FsOutcome::Failed { detail: cv("denied") });
    assert_eq!(to_string(&r), "Error: denied");
}
