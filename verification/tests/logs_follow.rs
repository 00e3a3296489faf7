use katana_hypervisor::follow::{FollowEvent, FollowState, PollOutcome};
use katana_hypervisor::logs::{
    default_stream_tail, default_tail, find_tail_start, logs_response, split_lines,
    tail_byte_lines, tail_lines,
};

fn line(s: &str) -> Vec<u8> {
    s.as_bytes().to_vec()
}

#[test]
fn split_lines_basic() {
    let data = b"one\ntwo\nthree\n".to_vec();
    assert_eq!(split_lines(&data), vec![line("one"), line("two"), line("three")]);
}

#[test]
fn split_lines_unterminated_tail_counts() {
    let data = b"one\ntwo".to_vec();
    assert_eq!(split_lines(&data), vec![line("one"), line("two")]);
}

#[test]
fn split_lines_strips_carriage_returns() {
    let data = b"one\r\ntwo\r\n".to_vec();
    assert_eq!(split_lines(&data), vec![line("one"), line("two")]);
}

#[test]
fn split_lines_empty_input_and_empty_lines() {
    assert_eq!(split_lines(&Vec::new()), Vec::<Vec<u8>>::new());
    let data = b"\n\n".to_vec();
    assert_eq!(split_lines(&data), vec![line(""), line("")]);
}

#[test]
fn tail_five_of_a_thousand_lines() {
    // A log of lines L1..L1000: tail=5 returns exactly L996..L1000.
    let lines: Vec<String> = (1..=1000).map(|i| format!("L{}", i)).collect();
    let tail = tail_lines(&lines, 5);
    assert_eq!(tail, vec!["L996", "L997", "L998", "L999", "L1000"]);
}

#[test]
fn tail_of_shorter_file_returns_everything() {
    let lines: Vec<String> = vec!["a".to_string(), "b".to_string()];
    assert_eq!(tail_lines(&lines, 5), vec!["a", "b"]);
    assert_eq!(tail_lines(&lines, 0), Vec::<String>::new());
}

#[test]
fn tail_byte_lines_matches_string_tail() {
    let lines = vec![line("a"), line("b"), line("c"), line("d")];
    assert_eq!(tail_byte_lines(&lines, 2), vec![line("c"), line("d")]);
}

#[test]
fn logs_response_slices_and_counts() {
    let lines: Vec<String> = (1..=10).map(|i| format!("L{}", i)).collect();
    let response = logs_response("a".to_string(), &lines, 3);
    assert_eq!(response.instance_name, "a");
    assert_eq!(response.total_lines, 10);
    assert_eq!(response.lines, vec!["L8", "L9", "L10"]);
}

#[test]
fn default_tail_depths() {
    assert_eq!(default_tail(), 100);
    assert_eq!(default_stream_tail(), 20);
}

#[test]
fn find_tail_start_counts_newlines_from_the_end() {
    // "a\nb\nc\n": the offset just past the 2nd newline from the end is 4.
    let data = b"a\nb\nc\n".to_vec();
    assert_eq!(find_tail_start(&data, 1), 6);
    assert_eq!(find_tail_start(&data, 2), 4);
    assert_eq!(find_tail_start(&data, 3), 2);
    // Fewer newlines than asked: start from the beginning.
    assert_eq!(find_tail_start(&data, 4), 0);
    assert_eq!(find_tail_start(&data, 0), 0);
}

#[test]
fn follow_stream_on_deleted_file_terminates() {
    let mut st = FollowState::new(11, 100);
    let outcome = st.poll_step(false, 11, 100);
    assert!(matches!(outcome, PollOutcome::Terminate));
    assert!(st.done);
}

#[test]
fn follow_stream_on_rotated_file_restarts_at_zero() {
    // Inode change: the classic rename-and-recreate rotation.
    let mut st = FollowState::new(11, 100);
    let outcome = st.poll_step(true, 12, 40);
    assert!(matches!(outcome, PollOutcome::Rotated));
    assert_eq!(st.last_pos, 0);
    assert_eq!(st.inode, 12);
    assert!(!st.done);

    // The same wake then reads the new file from byte 0.
    let data = b"fresh\n".to_vec();
    let lines = st.ingest_data(&data, 6);
    assert_eq!(lines, vec![line("fresh")]);
    assert_eq!(st.last_pos, 6);
}

#[test]
fn follow_stream_detects_truncation() {
    // Same inode, size below the cursor: the copy-then-truncate rotation.
    let mut st = FollowState::new(11, 100);
    let outcome = st.poll_step(true, 11, 20);
    assert!(matches!(outcome, PollOutcome::Rotated));
    assert_eq!(st.last_pos, 0);
}

#[test]
fn follow_stream_continues_on_growth() {
    let mut st = FollowState::new(11, 10);
    let outcome = st.poll_step(true, 11, 25);
    assert!(matches!(outcome, PollOutcome::Continue));
    assert_eq!(st.last_pos, 10);

    let lines = st.ingest_data(&b"hello\nworld\n".to_vec(), 22);
    assert_eq!(lines, vec![line("hello"), line("world")]);
    assert_eq!(st.last_pos, 22);
}

#[test]
fn follow_event_kinds() {
    assert_eq!(FollowEvent::Init { instance: "a".to_string(), tail: 5 }.kind(), "init");
    assert_eq!(FollowEvent::Log { line: line("x") }.kind(), "log");
    assert_eq!(FollowEvent::Heartbeat { timestamp: 1 }.kind(), "heartbeat");
    assert_eq!(FollowEvent::Info { message: "rotated".to_string() }.kind(), "info");
    assert_eq!(FollowEvent::Error { message: "deleted".to_string() }.kind(), "error");
}

#[test]
fn heartbeat_after_thirty_seconds() {
    assert!(!katana_hypervisor::follow::heartbeat_due(29));
    assert!(katana_hypervisor::follow::heartbeat_due(30));
    assert!(katana_hypervisor::follow::heartbeat_due(31));
}
