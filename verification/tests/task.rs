use rss_notifier::errors::{IoError, IoErrorKind, JsonError, JsonErrorKind, SitesIoError};
use rss_notifier::mail::SendEmailError;
use rss_notifier::rss_sites::{add, RssSites, Site};
use rss_notifier::feed::{CheckSiteError, FeedItem, SiteCheck};
use rss_notifier::task::{
    mark_accessed, mark_updated, Action, EmailTask, Event, Phase, CHECK_INTERVAL_SECONDS,
};
use rss_notifier::templates::Templates;
use rss_notifier::time::Timestamp;

// 2020-05-17T10:00:00Z
const TEN: i64 = 1589709600;

fn site(uuid: u128, last: i64) -> Site {
    Site {
        uuid,
        name: Some("Site".to_string()),
        url: format!("http://example.com/{}", uuid),
        last_accessed: Timestamp::new(last, 0).unwrap(),
    }
}

fn templates() -> Templates {
    let email = "{{#each this}}{{this.[0].url}} {{#each this.[1]}}{{title}} {{/each}}{{/each}}";
    Templates::new(email, "page").unwrap()
}

fn feed(title: &str) -> Vec<u8> {
    format!(
        "<rss version=\"2.0\"><channel><title>T</title><link>l</link><description>D</description>\
         <item><title>{}</title><pubDate>Sun, 17 May 2020 10:00:01 GMT</pubDate></item>\
         </channel></rss>",
        title
    )
    .into_bytes()
}

fn not_json() -> SitesIoError {
    SitesIoError::Serde(JsonError { kind: JsonErrorKind::Syntax, message: "no".to_string() })
}

fn go(task: EmailTask, event: Event) -> (EmailTask, Action) {
    assert!(task.awaits(&event));
    task.step(event, &templates())
}

/// A task that has fetched the feeds of two sites, the second of which has a new item.
fn sending() -> (EmailTask, Action) {
    let task = EmailTask::new(Vec::new());
    let (task, _) = go(task, Event::Tick);
    let (task, _) = go(task, Event::Loaded(Ok(vec![site(1, TEN + 1), site(2, TEN)])));
    go(task, Event::Fetched(vec![Ok(feed("A")), Ok(feed("B"))]))
}

#[test]
fn check_is_due_every_hour() {
    assert_eq!(CHECK_INTERVAL_SECONDS, 3600);
}

#[test]
fn tick_loads_the_sites() {
    let task = EmailTask::new(vec![site(1, TEN)]);
    assert_eq!(task.phase(), Phase::Waiting);
    let (task, action) = go(task, Event::Tick);
    assert!(matches!(action, Action::Load));
    assert_eq!(task.phase(), Phase::Loading);
    assert_eq!(task.sites().len(), 1);
}

#[test]
fn loaded_sites_are_fetched() {
    let task = EmailTask::new(vec![site(1, TEN)]);
    let (task, _) = go(task, Event::Tick);
    let (task, action) = go(task, Event::Loaded(Ok(vec![site(2, TEN), site(3, TEN)])));
    assert!(matches!(
        action,
        Action::Fetch(urls) if urls == ["http://example.com/2", "http://example.com/3"]
    ));
    assert_eq!(task.phase(), Phase::Fetching);
}

#[test]
fn sites_that_cannot_be_loaded_are_kept() {
    let task = EmailTask::new(vec![site(1, TEN)]);
    let (task, _) = go(task, Event::Tick);
    let error = IoError { kind: IoErrorKind::PermissionDenied, message: "no".to_string() };
    let (task, action) = go(task, Event::Loaded(Err(SitesIoError::TokioIo(error))));
    assert!(matches!(action, Action::Fetch(urls) if urls == ["http://example.com/1"]));
    assert_eq!(task.sites()[0].uuid, 1);
}

#[test]
fn nothing_new_is_nothing_to_send() {
    let task = EmailTask::new(Vec::new());
    let (task, _) = go(task, Event::Tick);
    let (task, _) = go(task, Event::Loaded(Ok(vec![site(1, TEN + 1), site(2, TEN)])));
    let failed = Err("refused".to_string());
    let (task, action) = go(task, Event::Fetched(vec![Ok(feed("A")), failed]));
    assert!(matches!(action, Action::Wait));
    assert_eq!(task.phase(), Phase::Waiting);
    assert!(task.checks()[0].failure.is_none());
    assert!(task.checks()[1].failure.is_some());
}

#[test]
fn something_new_is_sent() {
    let (task, action) = sending();
    assert!(matches!(
        action,
        Action::Send(subject, body)
            if subject == "New updates from Site" && body == "http://example.com/2 B "
    ));
    assert_eq!(task.phase(), Phase::Sending);
    assert_eq!(task.sites()[1].last_accessed.seconds(), TEN);
}

#[test]
fn failed_email_leaves_the_sites_as_they_are() {
    let (task, _) = sending();
    let (task, action) = go(task, Event::Sent(Err(SendEmailError::Smtp("no".to_string()))));
    assert!(matches!(action, Action::Wait));
    assert_eq!(task.sites()[0].last_accessed.seconds(), TEN + 1);
    assert_eq!(task.sites()[1].last_accessed.seconds(), TEN);
    let (task, _) = go(task, Event::Tick);
    let (task, _) = go(task, Event::Loaded(Err(not_json())));
    let (_, action) = go(task, Event::Fetched(vec![Ok(feed("A")), Ok(feed("B"))]));
    assert!(matches!(action, Action::Send(_, body) if body == "http://example.com/2 B "));
}

#[test]
fn sent_email_moves_the_last_access() {
    let before = chrono::Utc::now().timestamp();
    let (task, _) = sending();
    let (task, action) = go(task, Event::Sent(Ok(())));
    assert!(matches!(action, Action::Save));
    assert_eq!(task.phase(), Phase::Saving);
    assert_eq!(task.sites()[0].last_accessed.seconds(), TEN + 1);
    let accessed = task.sites()[1].last_accessed.seconds();
    assert!(before <= accessed && accessed <= chrono::Utc::now().timestamp());
    assert_eq!(task.sites()[1].uuid, 2);
}

#[test]
fn sent_items_are_not_sent_again() {
    let (task, _) = sending();
    let (task, _) = go(task, Event::Sent(Ok(())));
    let (task, action) = go(task, Event::Saved(Err(not_json())));
    assert!(matches!(action, Action::Wait));
    let (task, _) = go(task, Event::Tick);
    let (task, _) = go(task, Event::Loaded(Err(not_json())));
    let (_, action) = go(task, Event::Fetched(vec![Ok(feed("A")), Ok(feed("B"))]));
    assert!(matches!(action, Action::Wait));
}

#[test]
fn email_that_cannot_be_written_stops_the_task() {
    let broken = Templates::new("{{nothing}}", "page").unwrap();
    let task = EmailTask::new(Vec::new());
    let (task, _) = go(task, Event::Tick);
    let (task, _) = go(task, Event::Loaded(Ok(vec![site(2, TEN)])));
    let (task, action) = task.step(Event::Fetched(vec![Ok(feed("B"))]), &broken);
    assert!(matches!(action, Action::Stop(_)));
    assert_eq!(task.phase(), Phase::Stopped);
    assert!(!task.awaits(&Event::Tick));
}

#[test]
fn only_what_was_asked_for_is_awaited() {
    let task = EmailTask::new(vec![site(1, TEN)]);
    assert!(task.awaits(&Event::Tick));
    assert!(!task.awaits(&Event::Sent(Ok(()))));
    let (task, _) = go(task, Event::Tick);
    assert!(!task.awaits(&Event::Tick));
    let (task, _) = go(task, Event::Loaded(Ok(vec![site(1, TEN)])));
    assert!(!task.awaits(&Event::Fetched(Vec::new())));
    assert!(task.awaits(&Event::Fetched(vec![Err("e".to_string())])));
    let (task, _) = sending();
    assert!(task.awaits(&Event::Sent(Ok(()))));
    assert!(!task.awaits(&Event::Saved(Ok(()))));
}

#[test]
fn access_changes_nothing_but_the_time() {
    let mut s = site(7, TEN);
    mark_accessed(&mut s, Timestamp::new(TEN + 5, 6).unwrap());
    assert_eq!((s.last_accessed.seconds(), s.last_accessed.nanos()), (TEN + 5, 6));
    assert_eq!(s.uuid, 7);
    assert_eq!(s.name.as_deref(), Some("Site"));
    assert_eq!(s.url, "http://example.com/7");
}

#[test]
fn updated_sites_are_marked_each_at_its_time() {
    let item = FeedItem { title: None, pub_date: None, fields: "{}".to_string() };
    let mut sites = vec![site(1, TEN), site(2, TEN), site(3, TEN)];
    let checks: Vec<SiteCheck> = [vec![item.clone()], Vec::new(), vec![item]]
        .into_iter()
        .map(|new_items| SiteCheck { new_items, failure: None })
        .collect();
    let times: Vec<Timestamp> =
        [7, 8, 9].iter().map(|s| Timestamp::new(*s, 0).unwrap()).collect();
    mark_updated(&mut sites, &checks, &times);
    let seconds: Vec<i64> = sites.iter().map(|s| s.last_accessed.seconds()).collect();
    assert_eq!(seconds, [7, TEN, 9]);
}

#[test]
fn failures_are_kept_with_the_checks() {
    let task = EmailTask::new(Vec::new());
    let (task, _) = go(task, Event::Tick);
    let sites = vec![site(1, TEN), site(2, TEN), site(3, TEN)];
    let (task, _) = go(task, Event::Loaded(Ok(sites)));
    let feeds = vec![Err("refused".to_string()), Ok(Vec::new()), Ok(feed("C"))];
    let (task, _) = go(task, Event::Fetched(feeds));
    let checks = task.checks();
    assert!(matches!(&checks[0].failure, Some(CheckSiteError::Request(m)) if m == "refused"));
    assert!(matches!(&checks[1].failure, Some(CheckSiteError::Rss(_))));
    assert!(checks[2].failure.is_none());
}

#[test]
fn first_check_of_an_added_site_finds_its_whole_feed() {
    let mut added = RssSites::new(Vec::new());
    add(&mut added, None, "http://example.com/".to_string());
    let task = EmailTask::new(Vec::new());
    let (task, _) = go(task, Event::Tick);
    let (task, _) = go(task, Event::Loaded(Ok(added.sites)));
    let text = String::from_utf8(feed("A")).unwrap().replace(
        "</channel>",
        "<item><title>B</title><pubDate>1 Jan 0000 00:00:00 +2359</pubDate></item></channel>",
    );
    let (task, _) = go(task, Event::Fetched(vec![Ok(text.into_bytes())]));
    assert_eq!(task.checks()[0].new_items.len(), 2);
}
