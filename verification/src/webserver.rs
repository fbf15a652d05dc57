//! The web server's answers.

use crate::errors::{AddSiteError, IoError};
use crate::feed::{is_new, item_date, ItemView};
use crate::ids::RandomId;
use crate::rss_sites::{is_random_id, new_v4, push_site, Site};
use crate::templates::{rendered, rendering_ends, Templates, INDEX_TEMPLATE};
use crate::time::{is_clock_time, utc_now, Reading};
use vstd::prelude::*;

verus! {

/// The directory that the files are served from.
pub const STATIC_DIR: &'static str = "static/";

/// The file that is served as it is.
pub const STYLE_SHEET: &'static str = "98.css";

/// An answer to a request.
#[derive(Debug)]
pub struct Response {
    pub status: u16,
    /// The content type, where one is set.
    pub content_type: Option<String>,
    pub body: String,
}

/// The web page, or the reason why it cannot be rendered.
pub fn index(templates: &Templates) -> (response: Result<Response, handlebars::RenderError>)
    requires
        rendering_ends(templates.texts(), INDEX_TEMPLATE@),
    ensures
        response is Ok <==> rendered(templates.texts(), INDEX_TEMPLATE@, true, "null"@) is Some,
        response is Ok ==> {
            &&& response->Ok_0.status == 200
            &&& response->Ok_0.content_type is Some
            &&& response->Ok_0.content_type->0@ == "text/html"@
            &&& Some(response->Ok_0.body@) == rendered(templates.texts(), INDEX_TEMPLATE@, true, "null"@)
        },
{
    match templates.render_index() {
        Ok(body) => Ok(
            Response { status: 200, content_type: Some("text/html".to_string()), body },
        ),
        Err(error) => Err(error),
    }
}

/// Whether `name` is the bare name of a file, without drive or directories.
pub open spec fn is_file_name(name: Seq<char>) -> bool {
    forall|i: int|
        0 <= i < name.len() ==> #[trigger] name[i] != '/' && name[i] != '\\' && name[i] != ':'
}

/// The media type that `mime_guess` gives a file of this name, `application/octet-stream`
/// where it knows none.
pub uninterp spec fn guessed_type(name: Seq<char>) -> Seq<char>;

/// `mime_guess::from_path` and `first_or_octet_stream`: the media type of a file.
///
/// Trusted: the type depends on the name alone. Names with a drive or directories are left
/// out, since systems differ in what parts them.
#[verifier::external_body]
fn guess_type(name: &str) -> (content_type: String)
    requires
        is_file_name(name@),
    ensures
        content_type@ == guessed_type(name@),
{
    mime_guess::from_path(name).first_or_octet_stream().to_string()
}

/// A file as it is, under the media type that its name suggests.
pub fn static_file(name: &str, contents: String) -> (response: Response)
    requires
        is_file_name(name@),
    ensures
        response.status == 200,
        response.content_type is Some,
        response.content_type->0@ == guessed_type(name@),
        response.body == contents,
{
    let content_type = guess_type(name);
    Response { status: 200, content_type: Some(content_type), body: contents }
}

/// A site that somebody asks to be added.
#[derive(Debug)]
pub struct NewSite {
    pub name: Option<String>,
    pub url: String,
}

/// Adds a site to the list as it was loaded. What the site has published so far is not new: it
/// counts as accessed now.
pub fn add_site(loaded: Result<Vec<Site>, IoError>, new_site: NewSite) -> (sites: Result<
    Vec<Site>,
    AddSiteError,
>)
    ensures
        loaded is Err ==> sites == Err::<Vec<Site>, AddSiteError>(
            AddSiteError::Io(loaded->Err_0),
        ),
        loaded is Ok ==> sites is Ok,
        loaded is Ok ==> {
            &&& sites->Ok_0@.len() == loaded->Ok_0@.len() + 1
            &&& sites->Ok_0@.drop_last() == loaded->Ok_0@
            &&& is_random_id(sites->Ok_0@.last().uuid)
            &&& sites->Ok_0@.last().name == new_site.name
            &&& sites->Ok_0@.last().url == new_site.url
            &&& is_clock_time(sites->Ok_0@.last().last_accessed@)
            &&& exists|now: Reading| (#[trigger] now@) == sites->Ok_0@.last().last_accessed@
            &&& exists|id: RandomId| (#[trigger] id@) == sites->Ok_0@.last().uuid
            &&& forall|item: ItemView|
                item_date(item) is Some && ((item_date(item)->0).0
                    < sites->Ok_0@.last().last_accessed@.0 || ((item_date(item)->0).0
                    == sites->Ok_0@.last().last_accessed@.0 && (item_date(item)->0).1
                    <= sites->Ok_0@.last().last_accessed@.1)) ==> !#[trigger] is_new(
                    item,
                    sites->Ok_0@.last().last_accessed@,
                )
        },
{
    match loaded {
        Ok(mut sites) => {
            let id = new_v4();
            let now = utc_now();
            push_site(&mut sites, id.number(), new_site.name, new_site.url, now.time());
            Ok(sites)
        },
        Err(error) => Err(AddSiteError::from(error)),
    }
}

impl AddSiteError {
    /// What is shown of the error.
    pub fn to_string(&self) -> (text: String)
        ensures
            text@ == "<h1>internal server error</h1>"@,
    {
        "<h1>internal server error</h1>".to_string()
    }

    /// The answer to a request that failed.
    pub fn error_response(&self) -> (response: Response)
        ensures
            response.status == 500,
            response.content_type is None,
            response.body@ == "<h1>internal server error</h1>"@,
    {
        Response { status: 500, content_type: None, body: self.to_string() }
    }
}

/// The answer to a request to add a site.
pub fn add_site_response(outcome: Result<(), AddSiteError>) -> (response: Response)
    ensures
        response.content_type is None,
        outcome is Ok ==> response.status == 201 && response.body@ == ""@,
        outcome is Err ==> response.status == 500 && response.body@
            == "<h1>internal server error</h1>"@,
{
    match outcome {
        Ok(()) => Response { status: 201, content_type: None, body: "".to_string() },
        Err(error) => error.error_response(),
    }
}

} // verus!
