use rss_notifier::rss_sites::{add, RssSites};
use rss_notifier::time::{Timestamp, MAX_SECONDS, MIN_SECONDS};

fn at(seconds: i64, nanos: u32) -> Timestamp {
    Timestamp::new(seconds, nanos).unwrap()
}

#[test]
fn timestamp_keeps_its_parts() {
    let t = at(1589709600, 5);
    assert_eq!(t.seconds(), 1589709600);
    assert_eq!(t.nanos(), 5);
    assert_eq!(Timestamp::new(t.seconds(), t.nanos()), Some(t));
}

#[test]
fn timestamp_stays_in_the_calendar() {
    assert!(Timestamp::new(MIN_SECONDS, 0).is_some());
    assert!(Timestamp::new(MIN_SECONDS - 1, 0).is_none());
    assert!(Timestamp::new(MAX_SECONDS, 999_999_999).is_some());
    assert!(Timestamp::new(MAX_SECONDS + 1, 0).is_none());
    assert!(Timestamp::new(0, 2_000_000_000).is_none());
}

#[test]
fn timestamp_range_is_that_of_chrono() {
    for seconds in [MIN_SECONDS - 1, MIN_SECONDS, -1, 0, 59, 60, MAX_SECONDS, MAX_SECONDS + 1] {
        for nanos in [0, 999_999_999, 1_000_000_000, 1_999_999_999, 2_000_000_000] {
            assert_eq!(
                Timestamp::new(seconds, nanos).is_some(),
                chrono::DateTime::from_timestamp(seconds, nanos).is_some(),
            );
        }
    }
}

#[test]
fn leap_second_is_in_the_last_second_of_a_minute() {
    assert!(Timestamp::new(59, 1_000_000_000).is_some());
    assert!(Timestamp::new(-1, 1_000_000_000).is_some());
    assert!(Timestamp::new(58, 1_000_000_000).is_none());
    assert!(Timestamp::new(60, 1_000_000_000).is_none());
}

#[test]
fn later_goes_by_seconds_then_nanos() {
    assert!(at(2, 0).is_later_than(&at(1, 999_999_999)));
    assert!(at(1, 2).is_later_than(&at(1, 1)));
    assert!(!at(1, 1).is_later_than(&at(1, 1)));
    assert!(!at(1, 1).is_later_than(&at(1, 2)));
    assert!(at(60, 0).is_later_than(&at(59, 1_500_000_000)));
    assert!(at(59, 1_500_000_000).is_later_than(&at(59, 999_999_999)));
}

#[test]
fn later_agrees_with_chrono() {
    let instants = [at(-5, 3), at(0, 0), at(0, 1), at(59, 1_200_000_000), at(60, 0)];
    for a in instants {
        for b in instants {
            let x = chrono::DateTime::from_timestamp(a.seconds(), a.nanos()).unwrap();
            let y = chrono::DateTime::from_timestamp(b.seconds(), b.nanos()).unwrap();
            assert_eq!(a.is_later_than(&b), x > y);
        }
    }
}

#[test]
fn instant_is_written_as_chrono_serializes_it() {
    assert_eq!(at(1589709600, 0).to_text(), "2020-05-17T10:00:00Z");
    assert_eq!(at(1589709600, 250_000_000).to_text(), "2020-05-17T10:00:00.250Z");
    assert_eq!(at(MIN_SECONDS, 0).to_text(), "-262143-01-01T00:00:00Z");
    for t in [at(MIN_SECONDS, 0), at(0, 7), at(59, 1_000_000_000), at(1589709600, 1_000)] {
        let date = chrono::DateTime::from_timestamp(t.seconds(), t.nanos()).unwrap();
        let json = serde_json::to_value(date).unwrap();
        assert_eq!(json.as_str().unwrap(), t.to_text());
    }
}

#[test]
fn site_never_accessed_is_from_the_beginning_of_the_calendar() {
    let mut sites = RssSites::new(Vec::new());
    add(&mut sites, None, "http://example.com/".to_string());
    let never = sites.sites[0].last_accessed;
    assert_eq!(never.seconds(), chrono::DateTime::<chrono::Utc>::MIN_UTC.timestamp());
    assert_eq!(never.nanos(), 0);
}
