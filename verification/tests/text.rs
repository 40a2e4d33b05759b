use informarr::config::{
    api_base_path, first_page, next_page, service_url, should_stop, DEFAULT_PORT,
    REQUEST_BATCH_SIZE, SCAN_INTERVAL_SECONDS,
};
use informarr::response::{webhook_reply, MessageResponse, WebhookOutcome};
use informarr::text::{decimal, digits, join_numbers, trimmed};

#[test]
fn decimal_writes_as_the_standard_library_does() {
    for n in [0, 1, 9, 10, 11, 99, 100, 101, 12345, -1, -10, -987, i32::MAX, i32::MIN] {
        assert_eq!(decimal(n), n.to_string());
    }
    assert_eq!(decimal(-2147483648), "-2147483648");
    assert_eq!(decimal(7), "7");
}

#[test]
fn digits_of_large_numbers() {
    assert_eq!(digits(0), "0");
    assert_eq!(digits(u64::MAX), "18446744073709551615");
    assert_eq!(digits(1000), "1000");
}

#[test]
fn join_numbers_puts_commas_between() {
    assert_eq!(join_numbers(&vec![]), "");
    assert_eq!(join_numbers(&vec![4]), "4");
    assert_eq!(join_numbers(&vec![1, 2, 10]), "1, 2, 10");
    assert_eq!(join_numbers(&vec![-1, 0]), "-1, 0");
}

#[test]
fn trimmed_drops_white_space_at_both_ends() {
    assert_eq!(trimmed(&"  a b\n\n".to_string()), "a b");
    assert_eq!(trimmed(&"\t\n ".to_string()), "");
    assert_eq!(trimmed(&"ab".to_string()), "ab");
    assert_eq!(trimmed(&"\u{a0}\u{2003}a \u{3000}b\u{2028}\r\n".to_string()), "a \u{3000}b");
    assert_eq!(trimmed(&"".to_string()), "");
    assert_eq!(trimmed(&"\u{200b}a\u{200b}".to_string()), "\u{200b}a\u{200b}");
}

#[test]
fn service_url_has_scheme_host_and_port() {
    assert_eq!(service_url(true, "sonarr.local", 8989), "https://sonarr.local:8989");
    assert_eq!(service_url(false, "10.0.0.2", 80), "http://10.0.0.2:80");
    assert_eq!(service_url(false, "h", 65535), "http://h:65535");
    assert_eq!(service_url(false, "h", 0), "http://h:0");
}

#[test]
fn api_base_path_is_below_the_address() {
    assert_eq!(api_base_path("http://portal:5055"), "http://portal:5055/api/v1");
    assert_eq!(api_base_path(""), "/api/v1");
}

#[test]
fn pages_begin_every_hundred_entries() {
    assert_eq!(REQUEST_BATCH_SIZE, 100);
    assert_eq!(first_page(0), None);
    assert_eq!(first_page(1), Some(0));
    assert_eq!(next_page(0, 100), None);
    assert_eq!(next_page(0, 101), Some(100));
    assert_eq!(next_page(100, 101), None);
    assert_eq!(next_page(100, 250), Some(200));
    assert_eq!(next_page(200, 250), None);
    assert_eq!(next_page(u64::MAX - 5, u64::MAX), None);
    let mut offsets = Vec::new();
    let mut page = first_page(250);
    while let Some(offset) = page {
        offsets.push(offset);
        page = next_page(offset, 250);
    }
    assert_eq!(offsets, vec![0, 100, 200]);
}

#[test]
fn constants_of_the_loop() {
    assert_eq!(SCAN_INTERVAL_SECONDS, 30 * 60);
    assert_eq!(DEFAULT_PORT, 7532);
}

#[test]
fn the_loop_stops_on_a_raised_signal_only() {
    assert!(should_stop(true, true));
    assert!(!should_stop(true, false));
    assert!(!should_stop(false, true));
    assert!(!should_stop(false, false));
}

#[test]
fn message_response_new_and_ok() {
    assert_eq!(MessageResponse::new("hello".to_string()).message, "hello");
    assert_eq!(MessageResponse::ok().message, "ok");
}

#[test]
fn webhook_replies() {
    let reply = webhook_reply(WebhookOutcome::Accepted);
    assert_eq!((reply.status, reply.body.message.as_str(), reply.close), (200, "ok", false));
    let reply = webhook_reply(WebhookOutcome::Malformed("bad json".to_string()));
    assert_eq!((reply.status, reply.body.message.as_str(), reply.close), (400, "bad json", false));
    let reply = webhook_reply(WebhookOutcome::Undeliverable("closed".to_string()));
    assert_eq!((reply.status, reply.body.message.as_str(), reply.close), (500, "closed", true));
}
