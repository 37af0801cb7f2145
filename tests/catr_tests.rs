use catr::config::{is_stdin, Config, ConfigError};
use catr::emit::{render_source, LineCounter};
use catr::format::{decimal_len, push_decimal, push_end_marker, push_number_prefix};
use catr::session::{open_failure_message, Event, Next, Phase, Session};

fn strings(v: &[&str]) -> Vec<String> {
    v.iter().map(|s| s.to_string()).collect()
}

fn config(files: &[&str], n: bool, b: bool, e: bool) -> Config {
    match Config::new(strings(files), n, b, e) {
        Ok(c) => c,
        Err(_) => panic!("configuration refused"),
    }
}

/// Drives a session over inputs: `None` is an input that cannot be opened,
/// `Some(lines)` one that holds these lines; `fail_after` makes the read after
/// that many lines of an input fail.
fn drive(config: Config, inputs: Vec<Option<Vec<&str>>>, fail_after: Option<usize>) -> (String, String, i32) {
    let mut session = Session::new(config);
    let mut out = String::new();
    let mut err = String::new();
    let mut input = 0;
    let mut line = 0;
    let mut next = Next::Open;
    loop {
        let event = match next {
            Next::Open => {
                assert_eq!(session.phase(), Phase::Opening);
                line = 0;
                match &inputs[input] {
                    None => Event::OpenFailed("No such file or directory (os error 2)".to_string()),
                    Some(_) => Event::Opened,
                }
            }
            Next::ReadLine => {
                let lines = inputs[input].as_ref().unwrap();
                if fail_after == Some(line) {
                    Event::ReadFailed("stream did not contain valid UTF-8".to_string())
                } else if line < lines.len() {
                    line += 1;
                    Event::Line(lines[line - 1].to_string())
                } else {
                    Event::EndOfSource
                }
            }
            Next::Exit(code) => return (out, err, code),
        };
        let advances = matches!(event, Event::OpenFailed(_) | Event::EndOfSource);
        let step = session.step(event);
        if let Some(s) = step.stdout {
            out.push_str(&s);
        }
        if let Some(s) = step.stderr {
            err.push_str(&s);
            err.push('\n');
        }
        if advances {
            input += 1;
        }
        next = step.next;
    }
}

#[test]
fn number_lines_with_ends() {
    let c = config(&["f"], true, false, true);
    let (out, err, code) = drive(c, vec![Some(vec!["a", "", "b"])], None);
    assert_eq!(out, "     1\ta$\n     2\t$\n     3\tb$\n");
    assert_eq!(err, "");
    assert_eq!(code, 0);
}

#[test]
fn number_nonblank_lines_skips_blank() {
    let c = config(&["f"], false, true, false);
    let (out, _, code) = drive(c, vec![Some(vec!["a", "", "b"])], None);
    assert_eq!(out, "     1\ta\n\n     2\tb\n");
    assert_eq!(code, 0);
}

#[test]
fn number_nonblank_lines_with_ends() {
    let c = config(&["f"], false, true, true);
    let (out, _, _) = drive(c, vec![Some(vec!["", "x", "", "", "y"])], None);
    assert_eq!(out, "$\n     1\tx$\n$\n$\n     2\ty$\n");
}

#[test]
fn missing_first_input_then_valid() {
    let c = config(&["missing.txt", "f"], false, false, false);
    let (out, err, code) = drive(c, vec![None, Some(vec!["hello", "world"])], None);
    assert_eq!(out, "hello\nworld\n");
    assert_eq!(err, "Failed to open missing.txt: No such file or directory (os error 2)\n");
    assert_eq!(code, 0);
}

#[test]
fn all_inputs_missing_still_succeeds() {
    let c = config(&["x", "y"], true, false, false);
    let (out, err, code) = drive(c, vec![None, None], None);
    assert_eq!(out, "");
    assert_eq!(err.lines().count(), 2);
    assert!(err.starts_with("Failed to open x: "));
    assert_eq!(code, 0);
}

#[test]
fn plain_output_is_verbatim() {
    let c = config(&["f"], false, false, false);
    let (out, _, _) = drive(c, vec![Some(vec!["  spaced\t", "", "last"])], None);
    assert_eq!(out, "  spaced\t\n\nlast\n");
}

#[test]
fn plain_output_shows_ends() {
    let c = config(&["f"], false, false, true);
    let (out, _, _) = drive(c, vec![Some(vec!["a", ""])], None);
    assert_eq!(out, "a$\n$\n");
}

#[test]
fn counters_restart_for_each_input() {
    let c = config(&["f", "g"], true, false, false);
    let (out, _, _) = drive(c, vec![Some(vec!["a", "b"]), Some(vec!["c"])], None);
    assert_eq!(out, "     1\ta\n     2\tb\n     1\tc\n");
    let c = config(&["f", "g"], false, true, false);
    let (out, _, _) = drive(c, vec![Some(vec!["a", "", "b"]), Some(vec!["", "c"])], None);
    assert_eq!(out, "     1\ta\n\n     2\tb\n\n     1\tc\n");
}

#[test]
fn read_error_is_fatal() {
    let c = config(&["f", "g"], false, false, false);
    let (out, err, code) = drive(c, vec![Some(vec!["a", "b"]), Some(vec!["c"])], Some(1));
    assert_eq!(out, "a\n");
    assert_eq!(err, "stream did not contain valid UTF-8\n");
    assert_eq!(code, 1);
}

#[test]
fn conflicting_numbering_is_refused() {
    assert!(matches!(
        Config::new(strings(&["f"]), true, true, false),
        Err(ConfigError::ConflictingNumbering)
    ));
    assert!(matches!(Config::new(vec![], true, true, true), Err(ConfigError::ConflictingNumbering)));
}

#[test]
fn no_inputs_means_stdin() {
    let c = config(&[], false, false, false);
    assert_eq!(c.files(), &vec!["-".to_string()]);
    assert!(is_stdin(&c.files()[0]));
    let c = config(&["a", "-"], true, false, true);
    assert_eq!(c.files(), &strings(&["a", "-"]));
    assert!(c.number_lines());
    assert!(!c.number_nonblank_lines());
    assert!(c.show_ends());
}

#[test]
fn stdin_name_is_a_lone_dash() {
    assert!(is_stdin(&"-".to_string()));
    assert!(!is_stdin(&"--".to_string()));
    assert!(!is_stdin(&"".to_string()));
    assert!(!is_stdin(&"./-".to_string()));
}

#[test]
fn open_failure_message_names_input() {
    let m = open_failure_message(&"dir/no file".to_string(), &"Permission denied (os error 13)".to_string());
    assert_eq!(m, "Failed to open dir/no file: Permission denied (os error 13)");
}

#[test]
fn session_reports_current_name() {
    let c = config(&["first", "second"], false, false, false);
    let mut s = Session::new(c);
    assert_eq!(s.current_name(), "first");
    let step = s.step(Event::Opened);
    assert_eq!(step.next, Next::ReadLine);
    assert_eq!(s.phase(), Phase::Reading);
    let step = s.step(Event::Line("x".to_string()));
    assert_eq!(s.lines_read(), 1);
    assert_eq!(step.stdout.as_deref(), Some("x\n"));
    let step = s.step(Event::EndOfSource);
    assert_eq!(step.next, Next::Open);
    assert_eq!(s.current_name(), "second");
    assert_eq!(s.lines_read(), 0);
    let step = s.step(Event::EndOfSource);
    assert_eq!(step.next, Next::Exit(0));
    assert_eq!(s.phase(), Phase::Finished);
    assert!(!s.config().show_ends());
}

#[test]
fn number_prefix_is_right_aligned() {
    let mut s = String::new();
    push_number_prefix(&mut s, 1);
    assert_eq!(s, "     1\t");
    let mut s = String::from(">");
    push_number_prefix(&mut s, 123456);
    assert_eq!(s, ">123456\t");
    let mut s = String::new();
    push_number_prefix(&mut s, 1234567);
    assert_eq!(s, "1234567\t");
    let mut s = String::new();
    push_number_prefix(&mut s, 0);
    assert_eq!(s, "     0\t");
    let mut s = String::new();
    push_number_prefix(&mut s, 42);
    assert_eq!(s, format!("{:>6}\t", 42));
}

#[test]
fn decimal_digits() {
    let mut s = String::new();
    push_decimal(&mut s, 0);
    assert_eq!(s, "0");
    let mut s = String::from("n=");
    push_decimal(&mut s, 9876543210);
    assert_eq!(s, "n=9876543210");
    let mut s = String::new();
    push_decimal(&mut s, u64::MAX);
    assert_eq!(s, u64::MAX.to_string());
    assert_eq!(decimal_len(0), 1);
    assert_eq!(decimal_len(9), 1);
    assert_eq!(decimal_len(10), 2);
    assert_eq!(decimal_len(999999), 6);
    assert_eq!(decimal_len(u64::MAX), 20);
}

#[test]
fn end_markers() {
    let mut s = String::from("x");
    push_end_marker(&mut s, true);
    assert_eq!(s, "x$\n");
    let mut s = String::from("x");
    push_end_marker(&mut s, false);
    assert_eq!(s, "x\n");
}

#[test]
fn format_line_counts() {
    let c = config(&["f"], false, true, false);
    let mut counter = LineCounter::new();
    assert_eq!(counter.format_line(&c, &"".to_string()), "\n");
    assert_eq!(counter.format_line(&c, &"q".to_string()), "     1\tq\n");
    assert_eq!(counter.lines(), 2);
}

#[test]
fn render_whole_source() {
    let c = config(&["f"], true, false, true);
    let r = render_source(&c, &strings(&["a", "", "b"]));
    assert_eq!(r, strings(&["     1\ta$\n", "     2\t$\n", "     3\tb$\n"]));
    let c = config(&["f"], false, true, false);
    let r = render_source(&c, &strings(&["a", "", "b"]));
    assert_eq!(r, strings(&["     1\ta\n", "\n", "     2\tb\n"]));
    let r = render_source(&c, &vec![]);
    assert!(r.is_empty());
}
