//! What holds of loading, of saving and of the errors on the way.

use crate::cli::{job_of, Opt, DEFAULT_LOG_FILTER};
use crate::config::{config_result, Config, CONFIG_FILE};
use crate::errors::{
    io_kind, sites_io_error, AddSiteError, ConfigLoadError, IoError, IoErrorKind, JsonError,
    JsonErrorKind, RunError, SitesIoError, WebserverError,
};
use crate::feed::CheckSiteError;
use crate::mail::SendEmailError;
use crate::rss_sites::{load_follows, save_result, LoadAction, LoadEvent, Site, SITES_PATH};
use crate::site::SITES_FILENAME;
use crate::webserver::{is_file_name, STATIC_DIR, STYLE_SHEET};
use vstd::prelude::*;
use vstd::std_specs::convert::FromSpec;

verus! {

/// What was read is what is parsed, and what was parsed is what is loaded.
pub proof fn loading_hands_on(bytes: Vec<u8>, sites: Vec<Site>, action: LoadAction)
    ensures
        load_follows(LoadEvent::Read(Ok(bytes)), action) ==> action is Parse
            && action->Parse_0@ == bytes@,
        load_follows(LoadEvent::Parsed(Ok(sites)), action) ==> action is Return
            && action->Return_0 is Ok && action->Return_0->Ok_0@ == sites@,
        load_follows(LoadEvent::Created(Ok(Ok(()))), action) ==> action is Return
            && action->Return_0 is Ok && action->Return_0->Ok_0@.len() == 0,
{
}

/// A file is created only where there was none, and any other failure is handed up as it is.
pub proof fn loading_fails_as_its_steps(error: IoError, fault: JsonError, action: LoadAction)
    ensures
        load_follows(LoadEvent::Read(Err(error)), action) ==> (action is Create <==> error.kind
            == IoErrorKind::NotFound),
        load_follows(LoadEvent::Read(Err(error)), action) && error.kind != IoErrorKind::NotFound
            ==> action == LoadAction::Return(Err(SitesIoError::TokioIo(error))),
        load_follows(LoadEvent::Created(Err(error)), action) ==> action == LoadAction::Return(
            Err(SitesIoError::TokioIo(error)),
        ),
        load_follows(LoadEvent::Created(Ok(Err(fault))), action) ==> action
            == LoadAction::Return(Err(SitesIoError::Serde(fault))),
        load_follows(LoadEvent::Parsed(Err(fault)), action) ==> action == LoadAction::Return(
            Err(SitesIoError::Serde(fault)),
        ),
{
}

/// Saving succeeds if and only if the file was created and written, and fails as the step that
/// failed.
pub proof fn saving_fails_as_its_steps(error: IoError, fault: JsonError)
    ensures
        save_result(Ok(Ok(()))) is Ok,
        save_result(Ok(Err(fault))) == Err::<(), SitesIoError>(SitesIoError::Serde(fault)),
        save_result(Err(error)) == Err::<(), SitesIoError>(SitesIoError::TokioIo(error)),
        crate::site::save_result(Ok(Ok(()))) is Ok,
        crate::site::save_result(Ok(Err(fault))) is Err,
        crate::site::save_result(Ok(Err(fault)))->Err_0.kind == IoErrorKind::Other,
        crate::site::save_result(Ok(Err(fault)))->Err_0.message == fault.message,
        crate::site::save_result(Err(error)) == Err::<(), IoError>(error),
{
}

/// The configuration that was read is the one that is loaded; loading fails as reading or
/// parsing did.
pub proof fn configuration_is_loaded_as_it_is(config: Config, message: String, error: IoError)
    ensures
        config_result(Ok(Ok(config))) == Ok::<Config, ConfigLoadError>(config),
        config_result(Ok(Err(message))) == Err::<Config, ConfigLoadError>(
            ConfigLoadError::Toml(message),
        ),
        config_result(Err(error)) == Err::<Config, ConfigLoadError>(ConfigLoadError::Io(error)),
{
}

/// An error of JSON keeps its message as an error of reading or writing, and its kind where it
/// came from there; a text that ends too early is told from one that is wrong.
pub proof fn json_errors_keep_their_meaning(kind: IoErrorKind, fault: JsonError, error: IoError)
    ensures
        io_kind(JsonErrorKind::Io(kind)) == kind,
        io_kind(JsonErrorKind::Syntax) == IoErrorKind::InvalidData,
        io_kind(JsonErrorKind::Data) == IoErrorKind::InvalidData,
        io_kind(JsonErrorKind::Eof) == IoErrorKind::UnexpectedEof,
        sites_io_error(SitesIoError::TokioIo(error)) == error,
        sites_io_error(SitesIoError::Serde(fault)).message == fault.message,
        fault.kind == JsonErrorKind::Io(kind) ==> sites_io_error(SitesIoError::Serde(fault)).kind
            == kind,
        fault.kind == JsonErrorKind::Eof ==> sites_io_error(SitesIoError::Serde(fault)).kind
            == IoErrorKind::UnexpectedEof,
        fault.kind == JsonErrorKind::Syntax || fault.kind == JsonErrorKind::Data
            ==> sites_io_error(SitesIoError::Serde(fault)).kind == IoErrorKind::InvalidData,
{
}

/// An error that is wrapped on its way up is in there as it was.
pub proof fn errors_are_wrapped_as_they_are(
    error: IoError,
    fault: JsonError,
    config: ConfigLoadError,
    webserver: WebserverError,
    sites: SitesIoError,
)
    ensures
        <ConfigLoadError as FromSpec<IoError>>::from_spec(error) == ConfigLoadError::Io(error),
        <SitesIoError as FromSpec<IoError>>::from_spec(error) == SitesIoError::TokioIo(error),
        <SitesIoError as FromSpec<JsonError>>::from_spec(fault) == SitesIoError::Serde(fault),
        <WebserverError as FromSpec<ConfigLoadError>>::from_spec(config)
            == WebserverError::Config(config),
        <WebserverError as FromSpec<IoError>>::from_spec(error) == WebserverError::Io(error),
        <RunError as FromSpec<IoError>>::from_spec(error) == RunError::Io(error),
        <RunError as FromSpec<WebserverError>>::from_spec(webserver) == RunError::Webserver(
            webserver,
        ),
        <AddSiteError as FromSpec<IoError>>::from_spec(error) == AddSiteError::Io(error),
        <AddSiteError as FromSpec<SitesIoError>>::from_spec(sites) == AddSiteError::RssSitesDb(
            sites,
        ),
        <SendEmailError as FromSpec<IoError>>::from_spec(error) == SendEmailError::Io(error),
        <SendEmailError as FromSpec<ConfigLoadError>>::from_spec(config)
            == SendEmailError::Config(config),
{
}

/// The errors of the outside are wrapped as they are too.
pub proof fn outside_errors_are_wrapped_as_they_are(
    no_feed: rss::Error,
    no_date: chrono::ParseError,
    no_email: lettre_email::error::Error,
)
    ensures
        <CheckSiteError as FromSpec<rss::Error>>::from_spec(no_feed) == CheckSiteError::Rss(
            no_feed,
        ),
        <CheckSiteError as FromSpec<chrono::ParseError>>::from_spec(no_date)
            == CheckSiteError::Chrono(no_date),
        <SendEmailError as FromSpec<lettre_email::error::Error>>::from_spec(no_email)
            == SendEmailError::Lettre(no_email),
{
}

/// The files are where they are looked for, by their names.
pub proof fn files_have_their_names()
    ensures
        SITES_PATH@ == "sites_v2.json"@,
        SITES_FILENAME@ == "sites.json"@,
        CONFIG_FILE@ == "cfg.toml"@,
        STATIC_DIR@ == "static/"@,
        STYLE_SHEET@ == "98.css"@,
        DEFAULT_LOG_FILTER@ == "rss_notifier,actix_web"@,
{
}

/// The bare name of a file is one without slashes, backslashes and colons, and any such name is.
pub proof fn file_names_have_no_directories(name: Seq<char>, i: int)
    ensures
        is_file_name(name) && 0 <= i < name.len() ==> name[i] != '/' && name[i] != '\\' && name[i]
            != ':',
        !is_file_name(name) ==> name.contains('/') || name.contains('\\') || name.contains(':'),
{
    if !is_file_name(name) {
        let k = choose|k: int|
            0 <= k < name.len() && !(#[trigger] name[k] != '/' && name[k] != '\\' && name[k]
                != ':');
        assert(name.contains(name[k]));
    }
}

/// The program does what it is asked: it runs with the web server unless told not to, and adds
/// the site that is given, with its name and address.
pub proof fn program_does_what_it_is_asked(no_webserver: bool, name: Option<String>, url: String)
    ensures
        job_of(Opt::List) is Nothing,
        job_of(Opt::Run { no_webserver }) is Run,
        job_of(Opt::Run { no_webserver })->with_webserver <==> !no_webserver,
        job_of(Opt::Add { name, url }) is Add,
        job_of(Opt::Add { name, url })->name == name,
        job_of(Opt::Add { name, url })->url == url,
{
}

} // verus!
