use rss_notifier::cli::{job, log_filter_to_set, Job, Opt};
use rss_notifier::config::{load_config, Config, Credentials};
use rss_notifier::errors::{
    AddSiteError, ConfigLoadError, ErrorString, IoError, IoErrorKind, JsonError, JsonErrorKind,
    RunError, SitesIoError, WebserverError,
};
use rss_notifier::rss_sites::{
    add, load_step, push_site, save_sites, LoadAction, LoadEvent, RssSites, Site,
};
use rss_notifier::site;
use rss_notifier::time::Timestamp;

fn io(kind: IoErrorKind) -> IoError {
    IoError { kind, message: "m".to_string() }
}

fn json(kind: JsonErrorKind, message: &str) -> JsonError {
    JsonError { kind, message: message.to_string() }
}

fn config() -> Config {
    Config {
        credentials: Credentials {
            username: "user@example.com".to_string(),
            password: "pass".to_string(),
            domain: "mail.example.com".to_string(),
        },
        recipients: vec!["me@example.com".to_string()],
        webserver_address: "127.0.0.1:8080".to_string(),
    }
}

fn a_site() -> Site {
    Site {
        uuid: 3,
        name: None,
        url: "u".to_string(),
        last_accessed: Timestamp::new(1, 2).unwrap(),
    }
}

#[test]
fn error_string_shows_its_message() {
    assert_eq!(ErrorString("oops".to_string()).to_string(), "oops");
}

#[test]
fn file_that_was_read_is_parsed() {
    let action = load_step(LoadEvent::Read(Ok(vec![1, 2])));
    assert!(matches!(action, LoadAction::Parse(bytes) if bytes == [1, 2]));
    let action = load_step(LoadEvent::Parsed(Ok(vec![a_site()])));
    assert!(matches!(action, LoadAction::Return(Ok(sites)) if sites.len() == 1));
}

#[test]
fn missing_file_is_created_empty() {
    let action = load_step(LoadEvent::Read(Err(io(IoErrorKind::NotFound))));
    assert!(matches!(action, LoadAction::Create));
    let action = load_step(LoadEvent::Created(Ok(Ok(()))));
    assert!(matches!(action, LoadAction::Return(Ok(sites)) if sites.is_empty()));
}

#[test]
fn other_failures_end_the_loading() {
    let action = load_step(LoadEvent::Read(Err(io(IoErrorKind::PermissionDenied))));
    assert!(matches!(
        action,
        LoadAction::Return(Err(SitesIoError::TokioIo(e))) if e.kind == IoErrorKind::PermissionDenied
    ));
    let action = load_step(LoadEvent::Created(Err(io(IoErrorKind::NotFound))));
    assert!(matches!(action, LoadAction::Return(Err(SitesIoError::TokioIo(_)))));
    let action = load_step(LoadEvent::Created(Ok(Err(json(JsonErrorKind::Io(IoErrorKind::Other), "full")))));
    assert!(matches!(action, LoadAction::Return(Err(SitesIoError::Serde(e))) if e.message == "full"));
    let action = load_step(LoadEvent::Parsed(Err(json(JsonErrorKind::Data, "bad"))));
    assert!(matches!(action, LoadAction::Return(Err(SitesIoError::Serde(e))) if e.message == "bad"));
}

#[test]
fn saving_tells_what_failed() {
    assert!(matches!(save_sites(Ok(Ok(()))), Ok(())));
    assert!(matches!(
        save_sites(Ok(Err(json(JsonErrorKind::Io(IoErrorKind::Other), "full")))),
        Err(SitesIoError::Serde(e)) if e.message == "full"
    ));
    assert!(matches!(
        save_sites(Err(io(IoErrorKind::PermissionDenied))),
        Err(SitesIoError::TokioIo(_))
    ));
}

#[test]
fn sites_error_becomes_an_io_error() {
    let error = SitesIoError::TokioIo(io(IoErrorKind::AlreadyExists)).into_io_error();
    assert_eq!(error.kind, IoErrorKind::AlreadyExists);
    for (kind, expected) in [
        (JsonErrorKind::Io(IoErrorKind::PermissionDenied), IoErrorKind::PermissionDenied),
        (JsonErrorKind::Syntax, IoErrorKind::InvalidData),
        (JsonErrorKind::Data, IoErrorKind::InvalidData),
        (JsonErrorKind::Eof, IoErrorKind::UnexpectedEof),
    ] {
        let error = SitesIoError::Serde(json(kind, "bad")).into_io_error();
        assert_eq!(error.kind, expected);
        assert_eq!(error.message, "bad");
    }
}

#[test]
fn json_errors_convert_as_those_of_serde_json() {
    for (text, kind) in [
        ("[1,", JsonErrorKind::Eof),
        ("[1;", JsonErrorKind::Syntax),
        ("{}", JsonErrorKind::Data),
    ] {
        let error = serde_json::from_str::<Vec<u8>>(text).unwrap_err();
        let ours = json(kind, &error.to_string()).into_io_error();
        let theirs = std::io::Error::from(error);
        assert_eq!(ours.message, theirs.to_string());
        assert_eq!(
            ours.kind == IoErrorKind::UnexpectedEof,
            theirs.kind() == std::io::ErrorKind::UnexpectedEof,
        );
        assert_eq!(
            ours.kind == IoErrorKind::InvalidData,
            theirs.kind() == std::io::ErrorKind::InvalidData,
        );
    }
}

#[test]
fn added_site_comes_last() {
    let mut sites = RssSites::new(vec![a_site()]);
    add(&mut sites, Some("N".to_string()), "http://n/".to_string());
    assert_eq!(sites.sites.len(), 2);
    assert_eq!(sites.sites[0].uuid, 3);
    let added = &sites.sites[1];
    assert_eq!(added.name.as_deref(), Some("N"));
    assert_eq!(added.url, "http://n/");
    assert_eq!(uuid::Uuid::from_u128(added.uuid).get_version_num(), 4);
}

#[test]
fn added_sites_have_identifiers_of_their_own() {
    let mut sites = RssSites::new(Vec::new());
    add(&mut sites, None, "http://n/".to_string());
    add(&mut sites, None, "http://n/".to_string());
    assert_ne!(sites.sites[0].uuid, sites.sites[1].uuid);
}

#[test]
fn pushed_site_is_as_given() {
    let mut sites = Vec::new();
    push_site(&mut sites, 9, None, "u".to_string(), Timestamp::new(4, 5).unwrap());
    assert_eq!(sites[0].uuid, 9);
    assert_eq!(sites[0].last_accessed, Timestamp::new(4, 5).unwrap());
}

#[test]
fn first_form_of_the_list_may_be_missing() {
    assert!(matches!(site::load(Err(io(IoErrorKind::NotFound))), Ok(s) if s.is_empty()));
    assert!(matches!(
        site::load(Err(io(IoErrorKind::PermissionDenied))),
        Err(e) if e.kind == IoErrorKind::PermissionDenied
    ));
    let one = site::Site { url: "u".to_string(), last_checked: Timestamp::new(1, 0).unwrap() };
    assert!(matches!(site::load(Ok(Ok(vec![one]))), Ok(s) if s.len() == 1));
    assert!(matches!(
        site::load(Ok(Err(json(JsonErrorKind::Io(IoErrorKind::NotFound), "m")))),
        Err(e) if e.kind == IoErrorKind::NotFound
    ));
}

#[test]
fn first_form_of_the_list_is_saved() {
    assert!(site::save(Ok(Ok(()))).is_ok());
    assert!(matches!(
        site::save(Ok(Err(json(JsonErrorKind::Eof, "full")))),
        Err(e) if e.kind == IoErrorKind::Other && e.message == "full"
    ));
    assert!(matches!(
        site::save(Err(io(IoErrorKind::PermissionDenied))),
        Err(e) if e.kind == IoErrorKind::PermissionDenied
    ));
}

#[test]
fn configuration_is_loaded() {
    assert!(matches!(load_config(Ok(Ok(config()))), Ok(c) if c.recipients == ["me@example.com"]));
    assert!(matches!(
        load_config(Ok(Err("bad".to_string()))),
        Err(ConfigLoadError::Toml(m)) if m == "bad"
    ));
    assert!(matches!(
        load_config(Err(io(IoErrorKind::NotFound))),
        Err(ConfigLoadError::Io(e)) if e.kind == IoErrorKind::NotFound
    ));
}

#[test]
fn credentials_give_the_login() {
    let login = config().credentials.into();
    assert_eq!(login, ("user@example.com".to_string(), "pass".to_string()));
}

#[test]
fn errors_are_wrapped_on_their_way_up() {
    let config_error = ConfigLoadError::from(io(IoErrorKind::NotFound));
    let web_error = WebserverError::from(config_error);
    let run_error = RunError::from(web_error);
    assert!(matches!(
        run_error,
        RunError::Webserver(WebserverError::Config(ConfigLoadError::Io(_)))
    ));
    assert!(matches!(WebserverError::from(io(IoErrorKind::Other)), WebserverError::Io(_)));
    assert!(matches!(RunError::from(io(IoErrorKind::Other)), RunError::Io(_)));
    assert!(matches!(SitesIoError::from(io(IoErrorKind::Other)), SitesIoError::TokioIo(_)));
    assert!(matches!(AddSiteError::from(io(IoErrorKind::Other)), AddSiteError::Io(_)));
    assert!(matches!(
        AddSiteError::from(SitesIoError::from(json(JsonErrorKind::Data, "m"))),
        AddSiteError::RssSitesDb(_)
    ));
}

#[test]
fn command_line_says_what_is_done() {
    assert!(matches!(job(Opt::List), Job::Nothing));
    assert!(matches!(job(Opt::Run { no_webserver: true }), Job::Run { with_webserver: false }));
    assert!(matches!(job(Opt::Run { no_webserver: false }), Job::Run { with_webserver: true }));
    let add = Opt::Add { name: None, url: "u".to_string() };
    assert!(matches!(job(add), Job::Add { name: None, url } if url == "u"));
}

#[test]
fn log_filter_is_set_unless_there_is_one() {
    assert_eq!(log_filter_to_set(false), Some("rss_notifier,actix_web"));
    assert_eq!(log_filter_to_set(true), None);
}
