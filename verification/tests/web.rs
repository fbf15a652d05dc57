use rss_notifier::errors::{AddSiteError, IoError, IoErrorKind, SitesIoError};
use rss_notifier::rss_sites::Site;
use rss_notifier::templates::Templates;
use rss_notifier::time::Timestamp;
use rss_notifier::webserver::{
    add_site, add_site_response, index, static_file, NewSite, STYLE_SHEET,
};

fn io() -> IoError {
    IoError { kind: IoErrorKind::PermissionDenied, message: "m".to_string() }
}

#[test]
fn page_is_rendered_from_the_template() {
    let page = "<p>{{#if this}}a{{else}}b{{/if}}</p>";
    let templates = Templates::new("mail", page).unwrap();
    let response = index(&templates).unwrap();
    assert_eq!(response.status, 200);
    assert_eq!(response.content_type.as_deref(), Some("text/html"));
    assert_eq!(response.body, "<p>b</p>");
}

#[test]
fn page_that_cannot_be_rendered_is_an_error() {
    let templates = Templates::new("mail", "{{name}}").unwrap();
    assert!(index(&templates).is_err());
}

#[test]
fn style_sheet_is_served_as_css() {
    let response = static_file(STYLE_SHEET, "a { }".to_string());
    assert_eq!(response.status, 200);
    assert_eq!(response.content_type.as_deref(), Some("text/css"));
    assert_eq!(response.body, "a { }");
}

#[test]
fn unknown_file_is_served_as_bytes() {
    let response = static_file("noextension", String::new());
    assert_eq!(response.content_type.as_deref(), Some("application/octet-stream"));
}

#[test]
fn asked_for_site_is_added_as_accessed_now() {
    let before = chrono::Utc::now().timestamp();
    let first = Site {
        uuid: 1,
        name: None,
        url: "http://a/".to_string(),
        last_accessed: Timestamp::new(5, 0).unwrap(),
    };
    let new = NewSite { name: Some("N".to_string()), url: "http://b/".to_string() };
    let sites = add_site(Ok(vec![first]), new).unwrap();
    assert_eq!(sites.len(), 2);
    assert_eq!(sites[0].uuid, 1);
    assert_eq!(sites[0].last_accessed.seconds(), 5);
    assert_eq!(sites[1].name.as_deref(), Some("N"));
    assert_eq!(sites[1].url, "http://b/");
    let accessed = sites[1].last_accessed.seconds();
    assert!(before <= accessed && accessed <= chrono::Utc::now().timestamp());
    assert_eq!(uuid::Uuid::from_u128(sites[1].uuid).get_version_num(), 4);
}

#[test]
fn site_is_not_added_to_a_list_that_was_not_loaded() {
    let new = NewSite { name: None, url: "http://b/".to_string() };
    let outcome = add_site(Err(io()), new);
    assert!(matches!(outcome, Err(AddSiteError::Io(e)) if e.kind == IoErrorKind::PermissionDenied));
}

#[test]
fn added_site_is_answered_as_created() {
    let response = add_site_response(Ok(()));
    assert_eq!(response.status, 201);
    assert_eq!(response.body, "");
    assert!(response.content_type.is_none());
}

#[test]
fn failure_is_answered_as_an_internal_error() {
    for error in [
        AddSiteError::Io(io()),
        AddSiteError::RssSitesDb(SitesIoError::TokioIo(io())),
    ] {
        assert_eq!(error.to_string(), "<h1>internal server error</h1>");
        let response = add_site_response(Err(error));
        assert_eq!(response.status, 500);
        assert_eq!(response.body, "<h1>internal server error</h1>");
    }
}
