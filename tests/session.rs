use aiome::reply::{prompt, response_to, route_for, ReadOutcome, Response, Route, Sink};
use aiome::session::{Session, Status};

fn line(s: &str) -> ReadOutcome {
    ReadOutcome::Line(s.to_string())
}

fn output_of(rs: &[Response]) -> String {
    let mut out = String::new();
    for r in rs {
        if r.route != Route::Stderr {
            out.push_str(&r.text);
        }
    }
    out
}

fn errors_of(rs: &[Response]) -> String {
    let mut out = String::new();
    for r in rs {
        if r.route == Route::Stderr {
            out.push_str(&r.text);
        }
    }
    out
}

#[test]
fn prompt_is_fixed() {
    assert_eq!(prompt(), "aiome> ");
}

#[test]
fn line_is_echoed_and_recorded() {
    let mut s = Session::new(Sink::Direct);
    let r = s.handle(&line("abc def"));
    assert_eq!(r.text, "abc def\n");
    assert_eq!(r.route, Route::Stdout);
    assert_eq!(r.recall, Some("abc def".to_string()));
    assert!(s.history().is_empty());
    assert!(!s.is_ready());
    s.delivered();
    assert!(s.is_ready());
    assert_eq!(s.history(), &vec!["abc def".to_string()]);
    assert!(s.is_running());
}

#[test]
fn empty_line_is_echoed_and_recorded() {
    let mut s = Session::new(Sink::Direct);
    let r = s.handle(&line(""));
    assert_eq!(r.text, "\n");
    s.delivered();
    assert_eq!(s.history(), &vec![String::new()]);
}

#[test]
fn unicode_line_is_kept_verbatim() {
    let mut s = Session::new(Sink::Channel);
    let r = s.handle(&line("héllo wörld ✓"));
    assert_eq!(r.text, "héllo wörld ✓\n");
    assert_eq!(r.route, Route::Printer);
    s.delivered();
    assert_eq!(s.history(), &vec!["héllo wörld ✓".to_string()]);
}

#[test]
fn history_keeps_order_and_duplicates() {
    let mut s = Session::new(Sink::Direct);
    for t in ["b", "a", "a", "c", "a"] {
        s.handle(&line(t));
        s.delivered();
    }
    let expected: Vec<String> = ["b", "a", "a", "c", "a"].iter().map(|t| t.to_string()).collect();
    assert_eq!(s.history(), &expected);
    assert_eq!(s.history().len(), 5);
}

#[test]
fn interrupt_prints_notice_and_keeps_history() {
    let mut s = Session::new(Sink::Direct);
    s.handle(&line("x"));
    s.delivered();
    let r = s.handle(&ReadOutcome::Interrupted);
    s.delivered();
    assert_eq!(r.text, "^C\n");
    assert_eq!(r.route, Route::Stdout);
    assert_eq!(r.recall, None);
    assert_eq!(s.history().len(), 1);
    assert_eq!(s.status(), Status::Running);
}

#[test]
fn end_of_input_prints_newline_and_finishes() {
    let mut s = Session::new(Sink::Channel);
    let r = s.handle(&ReadOutcome::EndOfInput);
    assert_eq!(r.text, "\n");
    assert_eq!(r.route, Route::Printer);
    assert_eq!(s.status(), Status::Finished);
    assert!(!s.is_running());
}

#[test]
fn read_error_is_reported_and_fails() {
    let mut s = Session::new(Sink::Channel);
    let r = s.handle(&ReadOutcome::Error("boom".to_string()));
    assert_eq!(r.text, "error: boom\n");
    assert_eq!(r.route, Route::Stderr);
    assert_eq!(s.status(), Status::Failed);
    assert!(s.history().is_empty());
}

#[test]
fn delivery_failure_aborts_the_session() {
    let mut s = Session::new(Sink::Channel);
    s.handle(&line("kept"));
    s.delivered();
    s.handle(&line("lost"));
    let r = s.abort("channel closed");
    assert_eq!(r.text, "error: channel closed\n");
    assert_eq!(r.route, Route::Stderr);
    assert_eq!(s.status(), Status::Failed);
    assert_eq!(s.history(), &vec!["kept".to_string()]);
    assert!(!s.is_ready());
}

#[test]
fn undelivered_first_line_leaves_history_empty() {
    let mut s = Session::new(Sink::Direct);
    let r = s.handle(&line("hello"));
    assert_eq!(r.text, "hello\n");
    s.abort("broken pipe");
    assert!(s.history().is_empty());
    assert_eq!(s.status(), Status::Failed);
}

#[test]
fn delivered_without_a_line_changes_nothing() {
    let mut s = Session::new(Sink::Direct);
    s.handle(&ReadOutcome::Interrupted);
    s.delivered();
    assert!(s.history().is_empty());
    assert!(s.is_ready());
}

#[test]
fn routes_follow_the_sink() {
    assert_eq!(route_for(Sink::Direct), Route::Stdout);
    assert_eq!(route_for(Sink::Channel), Route::Printer);
    let r = response_to(Sink::Direct, &line("q"));
    assert_eq!(r.text, "q\n");
}

#[test]
fn hello_world_transcript() {
    let mut s = Session::new(Sink::Direct);
    let input = vec![line("hello"), ReadOutcome::Interrupted, line("world"), ReadOutcome::EndOfInput];
    let rs = s.replay(&input);
    assert_eq!(rs.len(), 4);
    assert_eq!(output_of(&rs), "hello\n^C\nworld\n\n");
    assert_eq!(errors_of(&rs), "");
    assert_eq!(s.history(), &vec!["hello".to_string(), "world".to_string()]);
    assert_eq!(s.status(), Status::Finished);
}

#[test]
fn both_sinks_agree() {
    let input = vec![line("A"), ReadOutcome::Interrupted, line("B"), ReadOutcome::EndOfInput];
    let mut direct = Session::new(Sink::Direct);
    let mut channel = Session::new(Sink::Channel);
    let rd = direct.replay(&input);
    let rc = channel.replay(&input);
    assert_eq!(direct.history(), &vec!["A".to_string(), "B".to_string()]);
    assert_eq!(direct.history(), channel.history());
    assert_eq!(output_of(&rd), output_of(&rc));
    assert_eq!(output_of(&rc), "A\n^C\nB\n\n");
    assert_eq!(direct.status(), channel.status());
    assert!(rc.iter().all(|r| r.route == Route::Printer));
    assert!(rd.iter().all(|r| r.route == Route::Stdout));
}

#[test]
fn immediate_end_of_input() {
    let mut s = Session::new(Sink::Direct);
    let rs = s.replay(&vec![ReadOutcome::EndOfInput]);
    assert_eq!(output_of(&rs), "\n");
    assert!(s.history().is_empty());
    assert_eq!(s.status(), Status::Finished);
}

#[test]
fn nothing_is_read_after_end_of_input() {
    let mut s = Session::new(Sink::Direct);
    let input = vec![line("a"), ReadOutcome::EndOfInput, line("b"), ReadOutcome::Interrupted];
    let rs = s.replay(&input);
    assert_eq!(rs.len(), 2);
    assert_eq!(output_of(&rs), "a\n\n");
    assert_eq!(s.history(), &vec!["a".to_string()]);
}

#[test]
fn nothing_is_read_after_a_read_error() {
    let mut s = Session::new(Sink::Direct);
    let input = vec![line("a"), ReadOutcome::Error("bad fd".to_string()), line("b")];
    let rs = s.replay(&input);
    assert_eq!(rs.len(), 2);
    assert_eq!(output_of(&rs), "a\n");
    assert_eq!(errors_of(&rs), "error: bad fd\n");
    assert_eq!(s.history(), &vec!["a".to_string()]);
    assert_eq!(s.status(), Status::Failed);
}

#[test]
fn replay_of_nothing_keeps_running() {
    let mut s = Session::new(Sink::Direct);
    let rs = s.replay(&Vec::new());
    assert!(rs.is_empty());
    assert!(s.is_running());
}

#[test]
fn many_lines_grow_history_by_count() {
    let mut s = Session::new(Sink::Channel);
    let input: Vec<ReadOutcome> = (0..50).map(|i| line(&format!("l{i}"))).collect();
    let rs = s.replay(&input);
    assert_eq!(rs.len(), 50);
    assert_eq!(s.history().len(), 50);
    assert_eq!(s.history()[0], "l0");
    assert_eq!(s.history()[49], "l49");
}
