use mimo::holiday_feed::{
    document_holidays, entries_to_import, fetch_step, holiday_entries, holiday_feed_url,
    join_year_entries, refresh_years, FeedDay, FeedDocument, FetchAction, FetchEvent, FetchState,
    HolidayEntry,
};

fn day(date: Option<&str>, name: Option<&str>, off: Option<bool>) -> FeedDay {
    FeedDay {
        date: date.map(|s| s.to_string()),
        name: name.map(|s| s.to_string()),
        is_off_day: off,
    }
}

fn entry(d: &str, t: &str, n: &str) -> HolidayEntry {
    (d.to_string(), t.to_string(), n.to_string())
}

#[test]
fn feed_url_of_a_year() {
    assert_eq!(
        holiday_feed_url(2024),
        "https://cdn.jsdelivr.net/gh/NateScarlet/holiday-cn@master/2024.json"
    );
}

#[test]
fn feed_url_writes_the_year_as_format_does() {
    for y in [0, 7, 10, 99, 100, 2025, -1, -2024, i32::MAX, i32::MIN] {
        assert_eq!(
            holiday_feed_url(y),
            format!("https://cdn.jsdelivr.net/gh/NateScarlet/holiday-cn@master/{}.json", y)
        );
    }
}

#[test]
fn entries_keep_feed_order_and_types() {
    let days = vec![
        day(Some("2025-01-01"), Some("元旦"), Some(true)),
        day(Some("2025-01-26"), Some("春节"), Some(false)),
        day(Some("2025-01-28"), Some("春节"), None),
    ];
    assert_eq!(
        holiday_entries(&days),
        vec![
            entry("2025-01-01", "rest", "元旦"),
            entry("2025-01-26", "overtime", "春节"),
            entry("2025-01-28", "rest", "春节"),
        ]
    );
}

#[test]
fn days_without_a_date_are_skipped() {
    let days = vec![
        day(None, Some("x"), Some(true)),
        day(Some(""), Some("y"), Some(false)),
        day(Some("2025-05-01"), None, Some(true)),
    ];
    assert_eq!(holiday_entries(&days), vec![entry("2025-05-01", "rest", "")]);
}

#[test]
fn a_document_without_days_gives_nothing() {
    assert!(document_holidays(&FeedDocument { days: None }).is_empty());
    assert!(document_holidays(&FeedDocument { days: Some(vec![]) }).is_empty());
}

#[test]
fn successful_status_reads_the_body() {
    for status in [200u16, 204, 299] {
        assert!(matches!(
            fetch_step(FetchState::AwaitingResponse, FetchEvent::Responded { status }),
            FetchAction::ReadBody
        ));
    }
}

#[test]
fn failures_end_with_no_entries() {
    for status in [199u16, 300, 404, 500] {
        match fetch_step(FetchState::AwaitingResponse, FetchEvent::Responded { status }) {
            FetchAction::Finish(v) => assert!(v.is_empty()),
            FetchAction::ReadBody => panic!("status {} must not be read", status),
        }
    }
    match fetch_step(FetchState::AwaitingResponse, FetchEvent::RequestFailed) {
        FetchAction::Finish(v) => assert!(v.is_empty()),
        FetchAction::ReadBody => panic!("a failed request has no body"),
    }
    match fetch_step(FetchState::AwaitingBody, FetchEvent::BodyUnreadable) {
        FetchAction::Finish(v) => assert!(v.is_empty()),
        FetchAction::ReadBody => panic!("an unreadable body ends the fetch"),
    }
}

#[test]
fn a_read_body_gives_its_entries() {
    let document = FeedDocument { days: Some(vec![day(Some("2025-10-01"), Some("国庆节"), Some(true))]) };
    match fetch_step(FetchState::AwaitingBody, FetchEvent::BodyRead { document }) {
        FetchAction::Finish(v) => assert_eq!(v, vec![entry("2025-10-01", "rest", "国庆节")]),
        FetchAction::ReadBody => panic!("the body was already read"),
    }
}

#[test]
fn refresh_covers_this_year_and_the_next() {
    assert_eq!(refresh_years(2025), (2025, 2026));
    let joined = join_year_entries(
        vec![entry("2025-01-01", "rest", "a")],
        vec![entry("2026-01-01", "rest", "b"), entry("2026-01-02", "overtime", "c")],
    );
    assert_eq!(
        joined,
        vec![
            entry("2025-01-01", "rest", "a"),
            entry("2026-01-01", "rest", "b"),
            entry("2026-01-02", "overtime", "c"),
        ]
    );
}

#[test]
fn nothing_fetched_means_nothing_imported() {
    assert!(entries_to_import(vec![]).is_none());
    let some = entries_to_import(vec![entry("2025-01-01", "rest", "a")]);
    assert_eq!(some, Some(vec![entry("2025-01-01", "rest", "a")]));
}

#[test]
fn success_is_what_reqwest_calls_success() {
    for status in 100u16..600 {
        let code = reqwest::StatusCode::from_u16(status).unwrap();
        let reads = matches!(
            fetch_step(FetchState::AwaitingResponse, FetchEvent::Responded { status }),
            FetchAction::ReadBody
        );
        assert_eq!(reads, code.is_success(), "status {}", status);
    }
}
