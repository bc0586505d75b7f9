//! Scenario tests driving the session state machine the way the terminal
//! loop does, with a small in-memory stand-in answering the filesystem
//! requests.

use unix_emulator::dispatch::{respond, FsOutcome, FsRequest};
use unix_emulator::session::{Event, Session, StepOutcome};

fn cv(s: &str) -> Vec<char> {
    s.chars().collect()
}

fn to_string(v: &[char]) -> String {
    v.iter().collect()
}

/// An in-memory filesystem: just enough to answer the session's requests.
struct FakeFs {
    files: Vec<(String, String)>,
}

impl FakeFs {
    fn new() -> FakeFs {
        FakeFs { files: Vec::new() }
    }

    fn perform(&mut self, req: &FsRequest) -> FsOutcome {
        match req {
            FsRequest::ListDir => {
                let mut names: Vec<String> = self.files.iter().map(|f| f.0.clone()).collect();
                names.sort();
                FsOutcome::Output { text: cv(&names.join("\n")) }
            },
            FsRequest::ShowCwd => FsOutcome::Output { text: cv("/home/user") },
            FsRequest::ReadFile { name } => {
                let name = to_string(name);
                match self.files.iter().find(|f| f.0 == name) {
                    Some((_, content)) => FsOutcome::Output { text: cv(content) },
                    None => FsOutcome::Failed { detail: cv("No such file or directory (os error 2)") },
                }
            },
            FsRequest::CreateFile { name, payload } => {
                self.files.push((to_string(name), to_string(payload)));
                FsOutcome::Done
            },
            FsRequest::MakeDir { .. } => FsOutcome::Done,
            FsRequest::RemoveFile { name } => {
                let name = to_string(name);
                match self.files.iter().position(|f| f.0 == name) {
                    Some(i) => {
                        self.files.remove(i);
                        FsOutcome::Done
                    },
                    None => FsOutcome::Failed { detail: cv("No such file or directory (os error 2)") },
                }
            },
            FsRequest::RemoveDir { .. } => FsOutcome::Done,
            FsRequest::ChangeDir { .. } => {
                FsOutcome::Failed { detail: cv("No such file or directory (os error 2)") }
            },
        }
    }
}

/// Types `line`, presses Enter, and answers any filesystem request exactly
/// once, as the terminal loop would. Returns the reply text recorded in
/// the transcript, if any.
fn submit(session: &mut Session, fs: &mut FakeFs, cwd: &str, line: &str) -> Option<String> {
    let cwd = cv(cwd);
    for c in line.chars() {
        match session.step(Event::Typed(c), &cwd) {
            StepOutcome::Continue => {},
            _ => panic!("typing must continue the session"),
        }
    }
    match session.step(Event::Enter, &cwd) {
        StepOutcome::Continue => None,
        StepOutcome::Quit => None,
        StepOutcome::Ask { request } => {
            let outcome = fs.perform(&request);
            let reply = respond(&request, &outcome);
            let text = to_string(&reply);
            session.record_reply(reply);
            Some(text)
        },
    }
}

fn last_entry(session: &Session) -> String {
    let entries = session.transcript.entries();
    to_string(entries.last().expect("transcript is empty"))
}

#[test]
fn touch_then_cat_round_trip() {
    let mut session = Session::new();
    let mut fs = FakeFs::new();
    let reply = submit(&mut session, &mut fs, "/home/user", "touch notes.txt \"hello world\"");
    assert_eq!(reply.as_deref(), Some("File 'notes.txt' created."));
    assert_eq!(last_entry(&session), "File 'notes.txt' created.");
    let reply = submit(&mut session, &mut fs, "/home/user", "cat notes.txt");
    assert_eq!(reply.as_deref(), Some("hello world\n"));
    assert_eq!(last_entry(&session), "hello world\n");
}

#[test]
fn rm_missing_file_reports_the_error() {
    let mut session = Session::new();
    let mut fs = FakeFs::new();
    let reply = submit(&mut session, &mut fs, "/home/user", "rm missing.txt").unwrap();
    assert!(reply.starts_with("Error deleting file 'missing.txt':"));
}

#[test]
fn twenty_five_commands_keep_the_twenty_most_recent_lines() {
    let mut session = Session::new();
    let mut fs = FakeFs::new();
    for i in 1..=25 {
        let line = format!("echo cmd{}", i);
        submit(&mut session, &mut fs, "/home/user", &line);
    }
    let entries = session.transcript.entries();
    assert_eq!(entries.len(), 20);
    // 50 lines were appended in all; the oldest 30 are gone, so the view
    // starts with the echo of the sixteenth command.
    assert_eq!(to_string(&entries[0]), "> /home/user echo cmd16");
    assert_eq!(to_string(&entries[1]), "cmd16");
    assert_eq!(to_string(&entries[18]), "> /home/user echo cmd25");
    assert_eq!(to_string(&entries[19]), "cmd25");
}

#[test]
fn blank_lines_leave_the_transcript_alone() {
    let mut session = Session::new();
    let mut fs = FakeFs::new();
    assert_eq!(submit(&mut session, &mut fs, "/home/user", ""), None);
    assert_eq!(session.transcript.len(), 0);
    assert_eq!(submit(&mut session, &mut fs, "/home/user", "   \t  "), None);
    assert_eq!(session.transcript.len(), 0);
    assert_eq!(submit(&mut session, &mut fs, "/home/user", "\u{000B}\u{00A0}\u{2003}"), None);
    assert_eq!(session.transcript.len(), 0);
    assert_eq!(session.render(&cv("/home/user")).len(), 3);
}

#[test]
fn failed_cd_keeps_the_prompt_directory() {
    let mut session = Session::new();
    let mut fs = FakeFs::new();
    let reply = submit(&mut session, &mut fs, "/home/user", "cd nonexistent_dir").unwrap();
    assert!(reply.starts_with("Error changing directory to 'nonexistent_dir':"));
    // The driver re-reads the working directory each cycle; it did not
    // change, so the next frame's prompt still shows it.
    let rows = session.render(&cv("/home/user"));
    assert_eq!(to_string(rows.last().unwrap()), "> /home/user ");
}

#[test]
fn clear_empties_the_transcript_and_appends_nothing() {
    let mut session = Session::new();
    let mut fs = FakeFs::new();
    submit(&mut session, &mut fs, "/home/user", "echo one");
    submit(&mut session, &mut fs, "/home/user", "echo two");
    assert_eq!(session.transcript.len(), 4);
    assert_eq!(submit(&mut session, &mut fs, "/home/user", "clear"), None);
    assert_eq!(session.transcript.len(), 0);
}

#[test]
fn escape_and_exit_end_the_session() {
    let mut session = Session::new();
    let cwd = cv("/home/user");
    assert!(matches!(session.step(Event::Escape, &cwd), StepOutcome::Quit));

    let mut session = Session::new();
    for c in "exit".chars() {
        session.step(Event::Typed(c), &cwd);
    }
    assert!(matches!(session.step(Event::Enter, &cwd), StepOutcome::Quit));
    assert_eq!(session.transcript.len(), 0);
}

#[test]
fn backspace_edits_the_line() {
    let mut session = Session::new();
    let cwd = cv("/home/user");
    for c in "lsx".chars() {
        session.step(Event::Typed(c), &cwd);
    }
    session.step(Event::Backspace, &cwd);
    assert_eq!(to_string(session.editor.contents()), "ls");
    session.step(Event::Other, &cwd);
    assert_eq!(to_string(session.editor.contents()), "ls");
}

#[test]
fn render_lays_the_frame_out_row_by_row() {
    let mut session = Session::new();
    let mut fs = FakeFs::new();
    submit(&mut session, &mut fs, "/home/user", "echo hi");
    let cwd = cv("/home/user");
    for c in "pw".chars() {
        session.step(Event::Typed(c), &cwd);
    }
    let rows = session.render(&cwd);
    assert_eq!(rows.len(), 2 + 2 + 1);
    assert_eq!(to_string(&rows[0]), "Welcome to the Unix Emulator");
    assert_eq!(to_string(&rows[1]), "------------------------------");
    assert_eq!(to_string(&rows[2]), "> /home/user echo hi");
    assert_eq!(to_string(&rows[3]), "hi");
    assert_eq!(to_string(&rows[4]), "> /home/user pw");
}

#[test]
fn echoed_command_lines_carry_the_working_directory() {
    let mut session = Session::new();
    let mut fs = FakeFs::new();
    submit(&mut session, &mut fs, "/tmp", "ls");
    let entries = session.transcript.entries();
    assert_eq!(to_string(&entries[0]), "> /tmp ls");
}
