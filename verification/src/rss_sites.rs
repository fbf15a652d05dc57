//! The sites that are watched, and how their list is loaded, extended and saved.

use crate::errors::{IoError, IoErrorKind, JsonError, SitesIoError};
use crate::ids::RandomId;
use crate::text::{hex_digit, optional_text};
use crate::time::{beginning, min_date_midnight, Timestamp};
use vstd::arithmetic::power::pow;
use vstd::prelude::*;

verus! {

/// The file that holds the sites.
pub const SITES_PATH: &'static str = "sites_v2.json";

/// A site that is watched.
#[derive(Debug)]
pub struct Site {
    pub uuid: u128,
    pub name: Option<String>,
    pub url: String,
    pub last_accessed: Timestamp,
}

/// What a site is known by: its fields, the texts as characters and the time as an instant.
pub struct SiteView {
    pub uuid: u128,
    pub name: Option<Seq<char>>,
    pub url: Seq<char>,
    pub last_accessed: (int, int),
}

impl View for Site {
    type V = SiteView;

    open spec fn view(&self) -> SiteView {
        SiteView {
            uuid: self.uuid,
            name: optional_text(self.name),
            url: self.url@,
            last_accessed: self.last_accessed@,
        }
    }
}

/// What the sites of a list are known by.
pub open spec fn site_views(sites: Seq<Site>) -> Seq<SiteView> {
    sites.map_values(|site: Site| site@)
}

/// Whether `id` is marked as a random identifier: version 4, variant 1.
pub open spec fn is_random_id(id: u128) -> bool {
    &&& (id / 0x1000_0000_0000_0000_0000) % 16 == 4
    &&& (id / 0x4000_0000_0000_0000) % 4 == 2
}

/// `uuid::Uuid::new_v4`: a new random identifier.
///
/// Trusted: the version and the variant are set. The other bits are random, and nothing is
/// said of them. The call panics only where the operating system has no random bytes to give.
#[verifier::external_body]
pub(crate) fn new_v4() -> (id: RandomId)
    ensures
        is_random_id(id@),
{
    RandomId::drawn(uuid::Uuid::new_v4().as_u128())
}

/// The `k`-th of the 32 hexadecimal digits of `id`, most significant first, as a number.
pub open spec fn nibble(id: u128, k: int) -> int {
    (id as int / pow(16, (31 - k) as nat)) % 16
}

/// `id` in its usual form: groups of 8, 4, 4, 4 and 12 hexadecimal digits, hyphens between.
pub open spec fn hyphenated(id: u128) -> Seq<char> {
    Seq::new(
        36,
        |i: int|
            if i == 8 || i == 13 || i == 18 || i == 23 {
                '-'
            } else if i < 8 {
                hex_digit(nibble(id, i))
            } else if i < 13 {
                hex_digit(nibble(id, i - 1))
            } else if i < 18 {
                hex_digit(nibble(id, i - 2))
            } else if i < 23 {
                hex_digit(nibble(id, i - 3))
            } else {
                hex_digit(nibble(id, i - 4))
            },
    )
}

/// `uuid::Uuid::from_u128` and `to_string`: the identifier as text.
///
/// Trusted: the text is the hyphenated form in lower case.
#[verifier::external_body]
pub(crate) fn id_text(id: u128) -> (text: String)
    ensures
        text@ == hyphenated(id),
{
    uuid::Uuid::from_u128(id).to_string()
}

/// Puts a site at the end of `sites`.
pub fn push_site(
    sites: &mut Vec<Site>,
    uuid: u128,
    name: Option<String>,
    url: String,
    last_accessed: Timestamp,
)
    ensures
        final(sites)@ == old(sites)@.push((Site { uuid, name, url, last_accessed })),
{
    sites.push(Site { uuid, name, url, last_accessed });
}

/// The sites that the program works on.
#[derive(Debug)]
pub struct RssSites {
    pub sites: Vec<Site>,
}

impl RssSites {
    /// The sites as they were loaded.
    pub fn new(loaded: Vec<Site>) -> (rss_sites: RssSites)
        ensures
            rss_sites.sites@ == loaded@,
    {
        RssSites { sites: loaded }
    }
}

/// Adds a site that was never accessed: its last access is the beginning of the calendar.
pub fn add(rss_sites: &mut RssSites, name: Option<String>, url: String)
    ensures
        final(rss_sites).sites@.len() == old(rss_sites).sites@.len() + 1,
        final(rss_sites).sites@.drop_last() == old(rss_sites).sites@,
        is_random_id(final(rss_sites).sites@.last().uuid),
        exists|id: RandomId| (#[trigger] id@) == final(rss_sites).sites@.last().uuid,
        final(rss_sites).sites@.last().name == name,
        final(rss_sites).sites@.last().url == url,
        final(rss_sites).sites@.last().last_accessed@ == beginning(),
{
    let id = new_v4();
    let uuid = id.number();
    let never = min_date_midnight();
    push_site(&mut rss_sites.sites, uuid, name, url, never);
}

/// What has happened while the sites are loaded.
#[derive(Debug)]
pub enum LoadEvent {
    /// The file was read, or could not be.
    Read(Result<Vec<u8>, IoError>),
    /// A new file was created, or could not be; an empty list was written into it, or could
    /// not be.
    Created(Result<Result<(), JsonError>, IoError>),
    /// The bytes of the file were read as sites, or are none.
    Parsed(Result<Vec<Site>, JsonError>),
}

/// What is to be done next to load the sites.
#[derive(Debug)]
pub enum LoadAction {
    /// Create the file, with an empty list of sites in it.
    Create,
    /// Read these bytes as sites.
    Parse(Vec<u8>),
    /// Loading has ended so.
    Return(Result<Vec<Site>, SitesIoError>),
}

/// What follows on what, while the sites are loaded: a file that is not there is created and
/// counts as empty, any other failure ends the loading.
pub open spec fn load_follows(event: LoadEvent, action: LoadAction) -> bool {
    match event {
        LoadEvent::Read(Ok(bytes)) => action == LoadAction::Parse(bytes),
        LoadEvent::Read(Err(error)) => if error.kind == IoErrorKind::NotFound {
            action == LoadAction::Create
        } else {
            action == LoadAction::Return(Err(SitesIoError::TokioIo(error)))
        },
        LoadEvent::Created(Ok(Ok(()))) => {
            &&& action is Return
            &&& action->Return_0 is Ok
            &&& action->Return_0->Ok_0@ == Seq::<Site>::empty()
        },
        LoadEvent::Created(Ok(Err(error))) => action == LoadAction::Return(
            Err(SitesIoError::Serde(error)),
        ),
        LoadEvent::Created(Err(error)) => action == LoadAction::Return(
            Err(SitesIoError::TokioIo(error)),
        ),
        LoadEvent::Parsed(Ok(sites)) => action == LoadAction::Return(Ok(sites)),
        LoadEvent::Parsed(Err(error)) => action == LoadAction::Return(
            Err(SitesIoError::Serde(error)),
        ),
    }
}

/// Decides how the loading of the sites goes on.
pub fn load_step(event: LoadEvent) -> (action: LoadAction)
    ensures
        load_follows(event, action),
{
    match event {
        LoadEvent::Read(Ok(bytes)) => LoadAction::Parse(bytes),
        LoadEvent::Read(Err(error)) => {
            if error.kind == IoErrorKind::NotFound {
                LoadAction::Create
            } else {
                LoadAction::Return(Err(SitesIoError::TokioIo(error)))
            }
        },
        LoadEvent::Created(Ok(Ok(()))) => LoadAction::Return(Ok(Vec::new())),
        LoadEvent::Created(Ok(Err(error))) => LoadAction::Return(
            Err(SitesIoError::Serde(error)),
        ),
        LoadEvent::Created(Err(error)) => LoadAction::Return(Err(SitesIoError::TokioIo(error))),
        LoadEvent::Parsed(Ok(sites)) => LoadAction::Return(Ok(sites)),
        LoadEvent::Parsed(Err(error)) => LoadAction::Return(Err(SitesIoError::Serde(error))),
    }
}

/// What becomes of a file that was created, or could not be, and into which the sites were
/// written, or could not be.
pub open spec fn save_result(created: Result<Result<(), JsonError>, IoError>) -> Result<
    (),
    SitesIoError,
> {
    match created {
        Ok(Ok(())) => Ok(()),
        Ok(Err(error)) => Err(SitesIoError::Serde(error)),
        Err(error) => Err(SitesIoError::TokioIo(error)),
    }
}

/// How saving has ended: the file was created, or could not be; the sites were written into
/// it, or could not be.
pub fn save_sites(created: Result<Result<(), JsonError>, IoError>) -> (saved: Result<
    (),
    SitesIoError,
>)
    ensures
        saved == save_result(created),
{
    match created {
        Ok(Ok(())) => Ok(()),
        Ok(Err(error)) => Err(SitesIoError::Serde(error)),
        Err(error) => Err(SitesIoError::TokioIo(error)),
    }
}

} // verus!
