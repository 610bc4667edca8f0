use hello_drain::handler::{handle_request, STATUS_OK, STATUS_UNPROCESSABLE};

const HELLO: &str = "Hello, World!!\n";
const INVALID: &str = "\"wait\" query parameter must be unsigned integer for seconds";

#[test]
fn no_query_is_immediate_success() {
    let r = handle_request(None);
    assert_eq!(r.status, STATUS_OK);
    assert_eq!(r.body, HELLO);
    assert_eq!(r.delay_seconds, 0);
}

#[test]
fn empty_query_is_immediate_success() {
    let r = handle_request(Some(""));
    assert_eq!(r.status, STATUS_OK);
    assert_eq!(r.body, HELLO);
    assert_eq!(r.delay_seconds, 0);
}

#[test]
fn absent_wait_key_is_immediate_success() {
    let r = handle_request(Some("foo=1&bar=2"));
    assert_eq!(r.status, STATUS_OK);
    assert_eq!(r.body, HELLO);
    assert_eq!(r.delay_seconds, 0);
}

#[test]
fn wait_zero_is_immediate_success() {
    let r = handle_request(Some("wait=0"));
    assert_eq!(r.status, STATUS_OK);
    assert_eq!(r.body, HELLO);
    assert_eq!(r.delay_seconds, 0);
}

#[test]
fn wait_five_delays_five_seconds() {
    let r = handle_request(Some("wait=5"));
    assert_eq!(r.status, STATUS_OK);
    assert_eq!(r.body, HELLO);
    assert_eq!(r.delay_seconds, 5);
}

#[test]
fn literal_plus_decodes_to_space_and_is_unprocessable() {
    // In a query string a bare `+` stands for a space, so the handler sees
    // " 7", which is not a numeral.
    let r = handle_request(Some("wait=+7"));
    assert_eq!(r.status, STATUS_UNPROCESSABLE);
    assert_eq!(r.body, INVALID);
    assert_eq!(r.delay_seconds, 0);
}

#[test]
fn percent_encoded_plus_sign_parses() {
    let r = handle_request(Some("wait=%2B7"));
    assert_eq!(r.status, STATUS_OK);
    assert_eq!(r.delay_seconds, 7);
}

#[test]
fn wait_with_leading_zeros_parses() {
    let r = handle_request(Some("wait=007"));
    assert_eq!(r.status, STATUS_OK);
    assert_eq!(r.delay_seconds, 7);
}

#[test]
fn negative_wait_is_unprocessable() {
    let r = handle_request(Some("wait=-1"));
    assert_eq!(r.status, STATUS_UNPROCESSABLE);
    assert_eq!(r.body, INVALID);
    assert_eq!(r.delay_seconds, 0);
}

#[test]
fn non_integer_wait_is_unprocessable() {
    let r = handle_request(Some("wait=abc"));
    assert_eq!(r.status, STATUS_UNPROCESSABLE);
    assert_eq!(r.body, INVALID);
    assert_eq!(r.delay_seconds, 0);
}

#[test]
fn empty_wait_value_is_unprocessable() {
    let r = handle_request(Some("wait="));
    assert_eq!(r.status, STATUS_UNPROCESSABLE);
    assert_eq!(r.body, INVALID);
    assert_eq!(r.delay_seconds, 0);
}

#[test]
fn bare_plus_wait_value_is_unprocessable() {
    let r = handle_request(Some("wait=%2B"));
    assert_eq!(r.status, STATUS_UNPROCESSABLE);
    assert_eq!(r.body, INVALID);
}

#[test]
fn largest_wait_value_parses() {
    let r = handle_request(Some("wait=18446744073709551615"));
    assert_eq!(r.status, STATUS_OK);
    assert_eq!(r.delay_seconds, u64::MAX);
}

#[test]
fn overflowing_wait_value_is_unprocessable() {
    let r = handle_request(Some("wait=18446744073709551616"));
    assert_eq!(r.status, STATUS_UNPROCESSABLE);
    assert_eq!(r.body, INVALID);
    assert_eq!(r.delay_seconds, 0);
}

#[test]
fn repeated_wait_key_last_one_wins() {
    let r = handle_request(Some("wait=abc&wait=4"));
    assert_eq!(r.status, STATUS_OK);
    assert_eq!(r.delay_seconds, 4);

    let r = handle_request(Some("wait=4&wait=abc"));
    assert_eq!(r.status, STATUS_UNPROCESSABLE);
    assert_eq!(r.body, INVALID);
    assert_eq!(r.delay_seconds, 0);
}

#[test]
fn percent_encoded_wait_value_is_decoded() {
    let r = handle_request(Some("wait=%34"));
    assert_eq!(r.status, STATUS_OK);
    assert_eq!(r.delay_seconds, 4);
}

#[test]
fn percent_encoded_wait_key_is_decoded() {
    let r = handle_request(Some("%77ait=3"));
    assert_eq!(r.status, STATUS_OK);
    assert_eq!(r.delay_seconds, 3);
}

#[test]
fn non_ascii_digit_is_unprocessable() {
    let r = handle_request(Some("wait=%D9%A3"));
    assert_eq!(r.status, STATUS_UNPROCESSABLE);
    assert_eq!(r.body, INVALID);
}
