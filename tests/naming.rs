use honeypot::clock::{epoch_seconds, get_epoch_time, read_clock};
use honeypot::listener::{banner, bind_address, on_accept, AcceptStep};
use honeypot::naming::{log_file_name, peer_label};
use honeypot::text::push_decimal;

#[test]
fn decimal_text_of_numbers() {
    for (n, text) in [(0u64, "0"), (7, "7"), (10, "10"), (2222, "2222"), (u64::MAX, "18446744073709551615")] {
        let mut s = String::from("x");
        push_decimal(&mut s, n);
        assert_eq!(s, format!("x{}", text));
    }
}

#[test]
fn log_file_name_joins_time_and_peer() {
    assert_eq!(log_file_name(0, "[::1]:8080"), "0_[::1]:8080.log");
    assert_eq!(log_file_name(1712345678, "203.0.113.5:51000"), "1712345678_203.0.113.5:51000.log");
}

#[test]
fn log_file_names_differ_by_second_and_by_peer() {
    assert_ne!(log_file_name(100, "a:1"), log_file_name(101, "a:1"));
    assert_ne!(log_file_name(100, "a:1"), log_file_name(100, "a:2"));
    assert_ne!(log_file_name(1, "0_a:1"), log_file_name(10, "a:1"));
}

#[test]
fn peer_label_falls_back_to_unknown() {
    assert_eq!(peer_label(None), "Unknown");
    assert_eq!(peer_label(Some("1.1.1.1:53".to_string())), "1.1.1.1:53");
}

#[test]
fn listens_on_every_interface_at_2222() {
    assert_eq!(bind_address(), "0.0.0.0:2222");
    assert_eq!(banner(), "Honeypot is Listening on port 2222");
}

#[test]
fn accept_errors_do_not_stop_the_loop() {
    match on_accept(Err("too many open files".to_string())) {
        AcceptStep::Report { notice } => assert_eq!(notice, "Error: too many open files"),
        other => panic!("expected a report, got {:?}", other),
    }
    match on_accept(Err("again".to_string())) {
        AcceptStep::Report { notice } => assert_eq!(notice, "Error: again"),
        other => panic!("expected a report, got {:?}", other),
    }
    assert!(matches!(on_accept(Ok(())), AcceptStep::Dispatch));
}

#[test]
fn epoch_time_is_after_2020() {
    let now = get_epoch_time().expect("clock before the epoch");
    assert!(now > 1_577_836_800);
}

#[test]
fn epoch_seconds_drop_the_fraction() {
    assert_eq!(epoch_seconds(Some((1_700_000_000, 999_999_999))), Some(1_700_000_000));
    assert_eq!(epoch_seconds(Some((0, 0))), Some(0));
    assert_eq!(epoch_seconds(None), None);
}

#[test]
fn later_readings_give_no_fewer_seconds() {
    let a = epoch_seconds(Some((41, 999_999_999))).unwrap();
    let b = epoch_seconds(Some((42, 0))).unwrap();
    let c = epoch_seconds(Some((42, 5))).unwrap();
    assert!(a <= b && b <= c);
}

#[test]
fn clock_reading_has_sub_second_nanos() {
    let (secs, nanos) = read_clock().expect("clock before the epoch");
    assert!(nanos < 1_000_000_000);
    assert!(secs > 1_577_836_800);
}

#[test]
fn accept_loop_goes_on_after_errors() {
    let outcomes: Vec<Result<(), String>> =
        vec![Err("a".to_string()), Ok(()), Err("b".to_string()), Err("c".to_string()), Ok(())];
    let mut started = 0;
    for outcome in outcomes {
        if let AcceptStep::Dispatch = on_accept(outcome) {
            started += 1;
        }
    }
    assert_eq!(started, 2);
}
