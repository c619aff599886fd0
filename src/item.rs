use vstd::prelude::*;

verus! {

/// Accent colour of every delivered message: plain green, 0x00FF00.
pub const ACCENT_COLOR: u32 = 0x00FF00;

/// One unposted entry as the backend reports it.
pub struct FeedItem {
    pub title: String,
    pub link: String,
    pub description: String,
    /// Publication date, meant to be RFC 2822 but not guaranteed to parse.
    pub pub_date: String,
    /// The backend's own flag; the relay trusts the backend's filter instead.
    pub posted: bool,
}

/// The chat payload built from one item: an embed with a fixed colour.
pub struct ChatMessage {
    pub title: String,
    pub url: String,
    pub description: String,
    /// Seconds since the Unix epoch.
    pub timestamp: i64,
    pub color: u32,
}

/// Seconds since the Unix epoch of an RFC 2822 date, or `None` where chrono
/// refuses the text.
pub uninterp spec fn rfc2822_seconds(s: Seq<char>) -> Option<int>;

/// An optional machine integer as an optional mathematical one.
pub open spec fn opt_int(o: Option<i64>) -> Option<int> {
    match o {
        Some(v) => Some(v as int),
        None => None,
    }
}

/// Relies on chrono's `DateTime::parse_from_rfc2822` and `DateTime::timestamp`:
/// the instant of the date, as whole seconds since the epoch, when it parses.
#[verifier::external_body]
fn parse_rfc2822_seconds(s: &str) -> (r: Option<i64>)
    ensures
        opt_int(r) == rfc2822_seconds(s@),
{
    chrono::DateTime::parse_from_rfc2822(s).ok().map(|d| d.timestamp())
}

/// The timestamp a message carries: the parsed instant, else the given `now`.
pub open spec fn stamp(parsed: Option<int>, now: int) -> int {
    match parsed {
        Some(t) => t,
        None => now,
    }
}

/// What `format_message` builds for `item`, once its date has been read as `parsed`.
pub open spec fn message_of(item: FeedItem, parsed: Option<int>, now: int, m: ChatMessage) -> bool {
    &&& m.title@ == item.title@
    &&& m.url@ == item.link@
    &&& m.description@ == item.description@
    &&& m.timestamp as int == stamp(parsed, now)
    &&& m.color == ACCENT_COLOR
}

/// Picks the instant of a message: the parsed date where there is one, else `now`.
/// A date that does not parse never blocks delivery.
pub fn timestamp_or_now(parsed: Option<i64>, now: i64) -> (r: i64)
    ensures
        r as int == stamp(opt_int(parsed), now as int),
{
    match parsed {
        Some(t) => t,
        None => now,
    }
}

/// Builds the message for `item` from an already parsed publication date.
pub fn format_parsed(item: &FeedItem, parsed: Option<i64>, now: i64) -> (m: ChatMessage)
    ensures
        message_of(*item, opt_int(parsed), now as int, m),
{
    ChatMessage {
        title: item.title.clone(),
        url: item.link.clone(),
        description: item.description.clone(),
        timestamp: timestamp_or_now(parsed, now),
        color: ACCENT_COLOR,
    }
}

/// Builds the message for `item`; `now` stands in where its date does not parse.
pub fn format_message(item: &FeedItem, now: i64) -> (m: ChatMessage)
    ensures
        message_of(*item, rfc2822_seconds(item.pub_date@), now as int, m),
{
    let parsed = parse_rfc2822_seconds(item.pub_date.as_str());
    format_parsed(item, parsed, now)
}

} // verus!
