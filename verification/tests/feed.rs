use rss_notifier::email::{generate_email, Update};
use rss_notifier::feed::{
    check_channel, check_site, publication_date, publication_dates, select_new_items,
    try_check_site, CheckSiteError, FeedItem,
};
use rss_notifier::rss_sites::Site;
use rss_notifier::templates::Templates;
use rss_notifier::time::{Timestamp, MIN_SECONDS};

// 2020-05-17T10:00:00Z
const TEN: i64 = 1589709600;

fn site(last: i64) -> Site {
    Site {
        uuid: 1,
        name: None,
        url: "http://example.com/feed".to_string(),
        last_accessed: Timestamp::new(last, 0).unwrap(),
    }
}

fn item(title: &str, date: Option<&str>) -> FeedItem {
    FeedItem {
        title: Some(title.to_string()),
        pub_date: date.map(|d| d.to_string()),
        fields: "{}".to_string(),
    }
}

fn feed(items: &str) -> Vec<u8> {
    let mut text = String::from("<rss version=\"2.0\"><channel><title>T</title>");
    text.push_str("<link>http://example.com/</link><description>D</description>");
    text.push_str(items);
    text.push_str("</channel></rss>");
    text.into_bytes()
}

fn two_items() -> Vec<u8> {
    feed(
        "<item><title>Old</title><pubDate>Sun, 17 May 2020 12:00:00 +0200</pubDate></item>\
         <item><title>New</title><link>http://example.com/new</link>\
         <pubDate>Sun, 17 May 2020 10:00:01 GMT</pubDate></item>",
    )
}

fn titles(items: &[FeedItem]) -> Vec<String> {
    items.iter().map(|i| i.title.clone().unwrap()).collect()
}

#[test]
fn items_after_the_last_access_are_new() {
    let new = try_check_site(&site(TEN), &Ok(two_items())).unwrap();
    assert_eq!(titles(&new), ["New"]);
    let new = try_check_site(&site(TEN - 1), &Ok(two_items())).unwrap();
    assert_eq!(titles(&new), ["Old", "New"]);
    let new = try_check_site(&site(TEN + 1), &Ok(two_items())).unwrap();
    assert!(new.is_empty());
}

#[test]
fn items_keep_their_fields() {
    let new = try_check_site(&site(TEN), &Ok(two_items())).unwrap();
    assert_eq!(new[0].pub_date.as_deref(), Some("Sun, 17 May 2020 10:00:01 GMT"));
    let fields: serde_json::Value = serde_json::from_str(&new[0].fields).unwrap();
    assert_eq!(fields["title"], "New");
    assert_eq!(fields["link"], "http://example.com/new");
    assert!(fields["author"].is_null());
    let channel = rss::Channel::read_from(two_items().as_slice()).unwrap();
    assert_eq!(fields, serde_json::to_value(&channel.items()[1]).unwrap());
}

#[test]
fn failed_request_is_reported() {
    let outcome = try_check_site(&site(TEN), &Err("refused".to_string()));
    assert!(matches!(outcome, Err(CheckSiteError::Request(m)) if m == "refused"));
}

#[test]
fn document_that_is_no_feed_is_reported() {
    let outcome = try_check_site(&site(TEN), &Ok(b"<html></html>".to_vec()));
    assert!(matches!(outcome, Err(CheckSiteError::Rss(_))));
    let outcome = try_check_site(&site(TEN), &Ok(Vec::new()));
    assert!(matches!(outcome, Err(CheckSiteError::Rss(_))));
}

#[test]
fn item_without_a_date_is_reported() {
    let bytes = feed(
        "<item><title>A</title><pubDate>Sun, 17 May 2020 10:00:01 GMT</pubDate></item>\
         <item><title>B</title></item>",
    );
    let outcome = try_check_site(&site(TEN), &Ok(bytes));
    assert!(matches!(outcome, Err(CheckSiteError::Chrono(_))));
    let bytes = feed("<item><title>A</title><pubDate>yesterday</pubDate></item>");
    let outcome = try_check_site(&site(TEN), &Ok(bytes));
    assert!(matches!(outcome, Err(CheckSiteError::Chrono(_))));
}

#[test]
fn old_item_without_a_date_hides_the_feed() {
    let bytes = feed(
        "<item><title>B</title></item>\
         <item><title>A</title><pubDate>Sun, 17 May 2020 10:00:01 GMT</pubDate></item>",
    );
    let check = check_site(&site(TEN), &Ok(bytes));
    assert!(check.new_items.is_empty());
    assert!(matches!(check.failure, Some(CheckSiteError::Chrono(_))));
}

#[test]
fn site_that_cannot_be_checked_has_nothing_new() {
    let check = check_site(&site(TEN), &Err("refused".to_string()));
    assert!(check.new_items.is_empty());
    assert!(matches!(check.failure, Some(CheckSiteError::Request(_))));
    let check = check_site(&site(TEN), &Ok(two_items()));
    assert_eq!(titles(&check.new_items), ["New"]);
    assert!(check.failure.is_none());
}

#[test]
fn date_is_brought_to_utc() {
    let date = publication_date(&item("A", Some("Sun, 17 May 2020 12:00:00 +0200"))).unwrap();
    assert_eq!((date.seconds(), date.nanos()), (TEN, 0));
    let date = publication_date(&item("A", Some("31 Dec 2016 23:59:60 +0000"))).unwrap();
    assert_eq!((date.seconds(), date.nanos()), (1483228799, 1_000_000_000));
    assert!(publication_date(&item("A", None)).is_err());
}

#[test]
fn date_is_what_chrono_reads() {
    for text in [
        "Sun, 17 May 2020 10:00:01 EST",
        "17 May 2020 10:00 Z",
        "Mon, 17 May 2020 10:00:01 GMT",
        "1 Jan 262142 00:00:00 +0000",
        "31 Dec 262142 23:59:59 -0100",
        "",
    ] {
        let ours = publication_date(&item("A", Some(text)));
        match chrono::DateTime::parse_from_rfc2822(text) {
            Ok(date) => assert_eq!(
                ours.map(|t| (t.seconds(), t.nanos())),
                Ok((date.timestamp(), date.timestamp_subsec_nanos())),
            ),
            Err(error) => assert_eq!(ours, Err(error)),
        }
    }
}

#[test]
fn dates_are_read_all_or_none() {
    let good = item("A", Some("Sun, 17 May 2020 10:00:01 GMT"));
    let bad = item("B", Some("never"));
    assert_eq!(publication_dates(&vec![good.clone(), good.clone()]).unwrap().len(), 2);
    assert!(publication_dates(&vec![good, bad]).is_err());
    assert!(publication_dates(&Vec::new()).unwrap().is_empty());
}

#[test]
fn selection_keeps_the_order() {
    let items = vec![item("A", None), item("B", None), item("C", None), item("D", None)];
    let dates: Vec<Timestamp> =
        [5, 1, 7, 4].iter().map(|s| Timestamp::new(*s, 0).unwrap()).collect();
    let new = select_new_items(&items, &dates, &Timestamp::new(4, 0).unwrap());
    assert_eq!(titles(&new), ["A", "C"]);
}

#[test]
fn nothing_is_new_after_a_later_access() {
    let items = vec![
        item("A", Some("Sun, 17 May 2020 10:00:01 GMT")),
        item("B", Some("Sun, 17 May 2020 10:00:02 GMT")),
    ];
    let first = Timestamp::new(TEN + 1, 0).unwrap();
    let second = Timestamp::new(TEN + 2, 0).unwrap();
    assert_eq!(titles(&check_channel(&items, &first).unwrap()), ["B"]);
    assert!(check_channel(&items, &second).unwrap().is_empty());
    let since_first = check_channel(&items, &first).unwrap();
    assert!(check_channel(&since_first, &second).unwrap().is_empty());
}

#[test]
fn everything_is_new_at_a_site_never_accessed() {
    let items = vec![
        item("A", Some("Sun, 17 May 2020 10:00:01 GMT")),
        item("B", Some("1 Jan 1000 00:00:00 +0000")),
    ];
    let never = Timestamp::new(MIN_SECONDS, 0).unwrap();
    assert_eq!(titles(&check_channel(&items, &never).unwrap()), ["A", "B"]);
}

#[test]
fn check_errors_are_wrapped() {
    let bad_date = chrono::DateTime::parse_from_rfc2822("never").unwrap_err();
    assert!(matches!(CheckSiteError::from(bad_date), CheckSiteError::Chrono(_)));
    let no_feed = rss::Channel::read_from(&b""[..]).unwrap_err();
    assert!(matches!(CheckSiteError::from(no_feed), CheckSiteError::Rss(_)));
}

#[test]
fn deeply_nested_items_are_rendered() {
    let mut extension = String::new();
    for _ in 0..200 {
        extension.push_str("<x:a>");
    }
    extension.push_str("deep");
    for _ in 0..200 {
        extension.push_str("</x:a>");
    }
    let text = format!(
        "<rss version=\"2.0\" xmlns:x=\"urn:x\"><channel><title>T</title><link>l</link>\
         <description>D</description><item><title>Deep</title>\
         <pubDate>Sun, 17 May 2020 10:00:01 GMT</pubDate>{}</item></channel></rss>",
        extension
    );
    let watched = site(TEN);
    let new = try_check_site(&watched, &Ok(text.into_bytes())).unwrap();
    assert!(new[0].fields.contains("deep"));
    let template = "{{#each this}}{{#each this.[1]}}{{title}}{{/each}}{{/each}}";
    let templates = Templates::new(template, "page").unwrap();
    let updates = vec![Update { site: &watched, items: &new }];
    let (_, body) = generate_email(&templates, &updates).unwrap();
    assert_eq!(body, "Deep");
}
