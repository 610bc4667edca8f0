use hello_drain::digits::{parse_u64_numeral, u64_to_decimal};
use hello_drain::query::lookup_wait;
use hello_drain::startup::{
    check_socket_count, ready_notify_fatal, stopping_notify_fatal, NotifyOutcome,
};

#[test]
fn one_socket_is_accepted() {
    assert!(check_socket_count(1).is_ok());
}

#[test]
fn zero_sockets_fail_startup() {
    let err = check_socket_count(0).unwrap_err();
    assert_eq!(err, "want 1 activated socket, but got 0 socket(s)");
}

#[test]
fn two_sockets_fail_startup() {
    let err = check_socket_count(2).unwrap_err();
    assert_eq!(err, "want 1 activated socket, but got 2 socket(s)");
}

#[test]
fn socket_count_message_renders_multi_digit_counts() {
    let err = check_socket_count(23).unwrap_err();
    assert_eq!(err, "want 1 activated socket, but got 23 socket(s)");
}

#[test]
fn decimal_rendering_is_exact() {
    assert_eq!(u64_to_decimal(0), "0");
    assert_eq!(u64_to_decimal(9), "9");
    assert_eq!(u64_to_decimal(10), "10");
    assert_eq!(u64_to_decimal(907), "907");
    assert_eq!(u64_to_decimal(u64::MAX), "18446744073709551615");
}

#[test]
fn numeral_parsing_matches_u64_from_str() {
    for s in [
        "0",
        "1",
        "42",
        "007",
        "+5",
        "18446744073709551615",
        "18446744073709551616",
        "99999999999999999999999",
        "",
        "+",
        "++1",
        "-1",
        "1 2",
        "4a",
        "a4",
        " 4",
    ] {
        assert_eq!(parse_u64_numeral(s), s.parse::<u64>().ok(), "input {:?}", s);
    }
}

#[test]
fn lookup_wait_takes_the_last_occurrence() {
    assert_eq!(lookup_wait("wait=1&wait=2"), Some("2".to_string()));
    assert_eq!(lookup_wait("a=1&wait=3&b=2"), Some("3".to_string()));
    assert_eq!(lookup_wait("a=1&b=2"), None);
    assert_eq!(lookup_wait(""), None);
    assert_eq!(lookup_wait("wait="), Some("".to_string()));
}

#[test]
fn ready_notification_failure_is_fatal() {
    assert!(ready_notify_fatal(NotifyOutcome::SendFailed));
    assert!(!ready_notify_fatal(NotifyOutcome::Sent));
    assert!(!ready_notify_fatal(NotifyOutcome::NoSupervisor));
}

#[test]
fn stopping_notification_failure_is_never_fatal() {
    assert!(!stopping_notify_fatal(NotifyOutcome::SendFailed));
    assert!(!stopping_notify_fatal(NotifyOutcome::Sent));
    assert!(!stopping_notify_fatal(NotifyOutcome::NoSupervisor));
}
