use honeypot::capture::{Phase, Session, Step, READ_BUFFER_SIZE};

fn record(step: Step) -> (Vec<u8>, String) {
    match step {
        Step::Record { raw, notice } => (raw, notice),
        other => panic!("expected a record, got {:?}", other),
    }
}

/// Runs a session over the given reads, as the handler loop does, and returns
/// the bytes handed out for the log file, in order, and the last step.
fn run(session: &mut Session, reads: Vec<Result<Vec<u8>, String>>) -> (Vec<u8>, Option<Step>) {
    let mut log = Vec::new();
    let mut last = None;
    for read in reads {
        if session.phase != Phase::Capturing {
            break;
        }
        let step = session.on_read(read);
        if let Step::Record { raw, .. } = &step {
            log.extend_from_slice(raw);
        }
        last = Some(step);
    }
    (log, last)
}

#[test]
fn new_session_names_its_log_file() {
    let s = Session::new(1700000000, Some("192.168.1.7:40112".to_string()));
    assert_eq!(s.peer, "192.168.1.7:40112");
    assert_eq!(s.log_file, "1700000000_192.168.1.7:40112.log");
    assert_eq!(s.phase, Phase::Capturing);
}

#[test]
fn unresolved_peer_is_unknown() {
    let s = Session::new(5, None);
    assert_eq!(s.peer, "Unknown");
    assert_eq!(s.log_file, "5_Unknown.log");
}

#[test]
fn connection_notice_names_the_peer() {
    let s = Session::new(5, Some("10.0.0.1:1".to_string()));
    assert_eq!(s.connection_notice(), "Received connection from 10.0.0.1:1");
}

#[test]
fn bytes_are_recorded_as_sent_in_order() {
    let mut s = Session::new(10, Some("1.2.3.4:99".to_string()));
    let chunks: Vec<Vec<u8>> = vec![b"GET / HTTP/1.1\r\n".to_vec(), vec![0xff, 0x00, 0xc3], b"tail".to_vec()];
    let mut reads: Vec<Result<Vec<u8>, String>> = chunks.iter().cloned().map(Ok).collect();
    reads.push(Ok(Vec::new()));
    let (log, last) = run(&mut s, reads);
    let sent: Vec<u8> = chunks.concat();
    assert_eq!(log, sent);
    assert!(matches!(last, Some(Step::Close { .. })));
    assert_eq!(s.phase, Phase::Closed);
}

#[test]
fn empty_connection_closes_cleanly() {
    let mut s = Session::new(10, Some("1.2.3.4:99".to_string()));
    match s.on_read(Ok(Vec::new())) {
        Step::Close { notice } => assert_eq!(notice, "Connection closed by 1.2.3.4:99"),
        other => panic!("expected a close, got {:?}", other),
    }
    assert_eq!(s.phase, Phase::Closed);
}

#[test]
fn invalid_text_is_shown_with_placeholder_and_kept_raw() {
    let mut s = Session::new(10, Some("p".to_string()));
    let bytes = vec![b'a', b'b', 0xff, b'c'];
    let (raw, notice) = record(s.on_read(Ok(bytes.clone())));
    assert_eq!(raw, bytes);
    assert_eq!(notice, "Received request from p: ab\u{FFFD}c");
    assert_eq!(s.phase, Phase::Capturing);
}

#[test]
fn valid_text_is_shown_as_sent() {
    let mut s = Session::new(10, Some("p".to_string()));
    let (raw, notice) = record(s.on_read(Ok("héllo".as_bytes().to_vec())));
    assert_eq!(raw, "héllo".as_bytes().to_vec());
    assert_eq!(notice, "Received request from p: héllo");
}

#[test]
fn read_error_ends_the_connection() {
    let mut s = Session::new(10, Some("p".to_string()));
    let _ = record(s.on_read(Ok(b"x".to_vec())));
    match s.on_read(Err("connection reset".to_string())) {
        Step::Fail { notice } => assert_eq!(notice, "Error reading from p: connection reset"),
        other => panic!("expected a failure, got {:?}", other),
    }
    assert_eq!(s.phase, Phase::Errored);
}

#[test]
fn log_error_ends_only_that_connection() {
    let mut a = Session::new(10, Some("a:1".to_string()));
    let mut b = Session::new(10, Some("b:2".to_string()));
    match a.on_log_error("disk full".to_string()) {
        Step::Fail { notice } => assert_eq!(notice, "Could not write log of a:1: disk full"),
        other => panic!("expected a failure, got {:?}", other),
    }
    assert_eq!(a.phase, Phase::Errored);
    let (raw, _) = record(b.on_read(Ok(b"still here".to_vec())));
    assert_eq!(raw, b"still here".to_vec());
    assert_eq!(b.phase, Phase::Capturing);
}

#[test]
fn same_peer_same_second_shares_one_file() {
    let mut file: Vec<u8> = Vec::new();
    let mut first = Session::new(1234, Some("9.9.9.9:7".to_string()));
    let (log, _) = run(&mut first, vec![Ok(b"one".to_vec()), Ok(Vec::new())]);
    file.extend_from_slice(&log);
    let mut second = Session::new(1234, Some("9.9.9.9:7".to_string()));
    assert_eq!(first.log_file, second.log_file);
    let (log, _) = run(&mut second, vec![Ok(b"two".to_vec()), Ok(Vec::new())]);
    file.extend_from_slice(&log);
    assert_eq!(file, b"onetwo".to_vec());
}

#[test]
fn many_peers_keep_their_own_payloads() {
    let mut names = std::collections::HashSet::new();
    for i in 0..50u32 {
        let peer = format!("10.0.{}.{}:{}", i / 10, i % 10, 40000 + i);
        let payload = format!("payload-{}", i).into_bytes();
        let mut s = Session::new(1700000000, Some(peer.clone()));
        let (log, _) = run(&mut s, vec![Ok(payload.clone()), Ok(Vec::new())]);
        assert_eq!(log, payload);
        assert_eq!(s.log_file, format!("1700000000_{}.log", peer));
        assert!(names.insert(s.log_file.clone()));
    }
    assert_eq!(names.len(), 50);
}

#[test]
fn read_buffer_holds_a_kilobyte() {
    assert_eq!(READ_BUFFER_SIZE, 1024);
}
