use feed_relay::backend::{
    check_status, is_success_status, mark_posted_url, unposted_url, BackendError,
};
use feed_relay::config::{parse_channel_id, parse_interval, parse_positive_u64, ConfigError};
use feed_relay::item::{format_message, format_parsed, timestamp_or_now, FeedItem, ACCENT_COLOR};
use feed_relay::tick::{Action, Tick};

fn item(n: u32) -> FeedItem {
    FeedItem {
        title: format!("Title {}", n),
        link: format!("https://example.com/{}", n),
        description: format!("About {}", n),
        pub_date: "Wed, 02 Oct 2024 15:00:00 +0000".to_string(),
        posted: false,
    }
}

/// What one tick did against a chat channel whose sends succeed per `oks`.
struct Trace {
    sent: Vec<usize>,
    pauses: usize,
    acks: Vec<Vec<String>>,
    pauses_before_end: usize,
}

fn drive(items: Vec<FeedItem>, oks: &[bool]) -> Trace {
    let mut tick = Tick::new(items);
    let mut trace = Trace { sent: Vec::new(), pauses: 0, acks: Vec::new(), pauses_before_end: 0 };
    loop {
        match tick.next_action() {
            Action::Send(i) => {
                trace.sent.push(i);
                tick.on_sent(oks[i]);
            }
            Action::Pause => {
                trace.pauses += 1;
                tick.on_paused();
            }
            Action::MarkPosted => {
                trace.pauses_before_end = trace.pauses;
                trace.acks.push(tick.ack_request().links);
                tick.on_acknowledged();
            }
            Action::Finish => {
                if trace.acks.is_empty() {
                    trace.pauses_before_end = trace.pauses;
                }
                return trace;
            }
        }
    }
}

fn link(n: u32) -> String {
    format!("https://example.com/{}", n)
}

#[test]
fn empty_response_sends_nothing() {
    let t = drive(Vec::new(), &[]);
    assert!(t.sent.is_empty());
    assert!(t.acks.is_empty());
    assert_eq!(t.pauses, 0);
}

#[test]
fn batch_holds_the_delivered_links_in_order() {
    let t = drive(vec![item(1), item(2), item(3), item(4)], &[true, false, false, true]);
    assert_eq!(t.sent, vec![0, 1, 2, 3]);
    assert_eq!(t.acks, vec![vec![link(1), link(4)]]);
}

#[test]
fn no_ack_when_every_send_fails() {
    let t = drive(vec![item(1), item(2)], &[false, false]);
    assert_eq!(t.sent, vec![0, 1]);
    assert!(t.acks.is_empty());
}

#[test]
fn one_failure_excludes_only_its_link() {
    let t = drive(vec![item(1), item(2), item(3)], &[true, false, true]);
    assert_eq!(t.acks, vec![vec![link(1), link(3)]]);
}

#[test]
fn failed_ack_leads_to_redelivery() {
    // A backend double whose acknowledgement fails: it keeps the items unposted.
    let unposted = vec![1u32, 2];
    let first = drive(unposted.iter().map(|n| item(*n)).collect(), &[true, true]);
    assert_eq!(first.acks.len(), 1);
    let ack_succeeded = false;
    let remaining: Vec<u32> = if ack_succeeded { Vec::new() } else { unposted.clone() };
    let second = drive(remaining.iter().map(|n| item(*n)).collect(), &[true, true]);
    assert_eq!(second.sent, vec![0, 1]);
    assert_eq!(second.acks, vec![vec![link(1), link(2)]]);
}

#[test]
fn three_items_pause_after_each_send() {
    let t = drive(vec![item(1), item(2), item(3)], &[true, true, false]);
    assert_eq!(t.pauses, 3);
    assert!(t.pauses_before_end >= 2);
}

#[test]
fn two_items_end_to_end() {
    let mut backend: Vec<u32> = vec![1, 2];
    let t = drive(backend.iter().map(|n| item(*n)).collect(), &[true, true]);
    assert_eq!(t.sent, vec![0, 1]);
    assert_eq!(t.acks, vec![vec![link(1), link(2)]]);
    for acked in &t.acks[0] {
        backend.retain(|n| &link(*n) != acked);
    }
    assert!(backend.is_empty());
    let next = drive(Vec::new(), &[]);
    assert!(next.sent.is_empty());
    assert!(next.acks.is_empty());
}

#[test]
fn rfc2822_date_gives_its_instant() {
    let m = format_message(&item(7), 5);
    assert_eq!(m.timestamp, 1727881200);
    assert_eq!(m.title, "Title 7");
    assert_eq!(m.url, "https://example.com/7");
    assert_eq!(m.description, "About 7");
    assert_eq!(m.color, 0x00FF00);
}

#[test]
fn bad_date_falls_back_to_now() {
    let mut it = item(1);
    it.pub_date = "not-a-date".to_string();
    let m = format_message(&it, 1_700_000_123);
    assert_eq!(m.timestamp, 1_700_000_123);
}

#[test]
fn offset_date_is_converted_to_utc() {
    let mut it = item(1);
    it.pub_date = "Wed, 02 Oct 2024 17:00:00 +0200".to_string();
    assert_eq!(format_message(&it, 0).timestamp, 1727881200);
}

#[test]
fn timestamp_choice() {
    assert_eq!(timestamp_or_now(Some(42), 7), 42);
    assert_eq!(timestamp_or_now(None, 7), 7);
    let m = format_parsed(&item(2), None, 99);
    assert_eq!(m.timestamp, 99);
    assert_eq!(m.color, ACCENT_COLOR);
}

#[test]
fn status_classification() {
    assert!(is_success_status(200));
    assert!(is_success_status(204));
    assert!(is_success_status(299));
    assert!(!is_success_status(199));
    assert!(!is_success_status(300));
    assert_eq!(check_status(201), Ok(()));
    assert_eq!(check_status(500), Err(BackendError::Status(500)));
    assert_eq!(check_status(404), Err(BackendError::Status(404)));
}

#[test]
fn backend_urls() {
    assert_eq!(unposted_url("http://127.0.0.1:8080"), "http://127.0.0.1:8080/items/unposted");
    assert_eq!(mark_posted_url("http://127.0.0.1:8080"), "http://127.0.0.1:8080/items/mark-posted");
}

#[test]
fn numbers_in_configuration() {
    assert_eq!(parse_positive_u64("60"), Some(60));
    assert_eq!(parse_positive_u64("18446744073709551615"), Some(u64::MAX));
    assert_eq!(parse_positive_u64("18446744073709551616"), None);
    assert_eq!(parse_positive_u64("0"), None);
    assert_eq!(parse_positive_u64(""), None);
    assert_eq!(parse_positive_u64("12a"), None);
    assert_eq!(parse_channel_id("123456789012345678"), Ok(123456789012345678));
    assert_eq!(parse_channel_id("abc"), Err(ConfigError::InvalidChannelId));
    assert_eq!(parse_interval(None), Ok(60));
    assert_eq!(parse_interval(Some("15")), Ok(15));
    assert_eq!(parse_interval(Some("0")), Err(ConfigError::InvalidInterval));
    assert_eq!(parse_interval(Some("-5")), Err(ConfigError::InvalidInterval));
}

#[test]
fn tick_accessors() {
    let mut tick = Tick::new(vec![item(1), item(2)]);
    assert_eq!(tick.len(), 2);
    assert_eq!(tick.item(1).link, link(2));
    assert_eq!(tick.next_action(), Action::Send(0));
    tick.on_sent(true);
    assert_eq!(tick.next_action(), Action::Pause);
    assert_eq!(tick.batch(), &vec![link(1)]);
}
