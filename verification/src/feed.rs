//! Feeds: which items of a site's feed are new.

use crate::rss_sites::Site;
use crate::text::optional_text;
use crate::time::{beginning, later, parse_from_rfc2822, rfc2822_instant, Timestamp};
use vstd::prelude::*;

verus! {

/// An item of a feed.
#[derive(Debug)]
pub struct FeedItem {
    /// The title of the item.
    pub title: Option<String>,
    /// The date of publication, as the feed writes it.
    pub pub_date: Option<String>,
    /// All fields of the item, as a JSON object.
    pub fields: String,
}

/// What an item holds, as characters.
pub struct ItemView {
    pub title: Option<Seq<char>>,
    pub pub_date: Option<Seq<char>>,
    pub fields: Seq<char>,
}

impl View for FeedItem {
    type V = ItemView;

    open spec fn view(&self) -> ItemView {
        ItemView {
            title: optional_text(self.title),
            pub_date: optional_text(self.pub_date),
            fields: self.fields@,
        }
    }
}

impl Clone for FeedItem {
    fn clone(&self) -> (copy: FeedItem)
        ensures
            copy@ == self@,
    {
        let title = match &self.title {
            Some(title) => Some(title.clone()),
            None => None,
        };
        let pub_date = match &self.pub_date {
            Some(pub_date) => Some(pub_date.clone()),
            None => None,
        };
        FeedItem { title, pub_date, fields: self.fields.clone() }
    }
}

/// What the items of a list hold.
pub open spec fn item_views(items: Seq<FeedItem>) -> Seq<ItemView> {
    items.map_values(|item: FeedItem| item@)
}

/// The error of a document that is no feed.
#[verifier::external_type_specification]
#[verifier::external_body]
pub struct ExRssError(rss::Error);

/// The items of the feed that `rss::Channel::read_from` reads in `bytes`, in their order: of
/// each the title, the date of publication, and all fields as `serde_json` writes them. `None`
/// where `bytes` is no feed.
pub uninterp spec fn channel_items(bytes: Seq<u8>) -> Option<Seq<ItemView>>;

/// `rss::Channel::read_from`, with the items of the channel as plain texts.
///
/// Trusted: the outcome depends on the bytes alone. The reader takes stack in proportion to
/// how deep extension elements are nested in the feed.
#[verifier::external_body]
fn read_channel(bytes: &[u8]) -> (items: Result<Vec<FeedItem>, rss::Error>)
    ensures
        items is Ok <==> channel_items(bytes@) is Some,
        items is Ok ==> Some(item_views(items->Ok_0@)) == channel_items(bytes@),
{
    let channel = rss::Channel::read_from(std::io::BufReader::new(bytes))?;
    Ok(channel.items().iter().map(|item| FeedItem {
        title: item.title().map(str::to_owned),
        pub_date: item.pub_date().map(str::to_owned),
        fields: serde_json::to_string(item).unwrap(),
    }).collect())
}

/// The instant at which an item was published, if its date is one. An item without a date
/// counts as one with an empty date.
pub open spec fn item_date(item: ItemView) -> Option<(int, int)> {
    match item.pub_date {
        Some(text) => rfc2822_instant(text),
        None => rfc2822_instant(Seq::empty()),
    }
}

/// Whether the date of every item is one.
pub open spec fn all_dated(items: Seq<ItemView>) -> bool {
    forall|i: int| 0 <= i < items.len() ==> item_date(#[trigger] items[i]) is Some
}

/// Whether an item was published after `last`.
pub open spec fn is_new(item: ItemView, last: (int, int)) -> bool {
    item_date(item) is Some && later(item_date(item)->0, last)
}

/// The items that were published after `last`, in their order.
pub open spec fn new_items(items: Seq<ItemView>, last: (int, int)) -> Seq<ItemView> {
    items.filter(|item: ItemView| is_new(item, last))
}

/// Reads the date of publication of an item.
pub fn publication_date(item: &FeedItem) -> (date: Result<Timestamp, chrono::ParseError>)
    ensures
        date is Ok <==> item_date(item@) is Some,
        date is Ok ==> Some(date->Ok_0@) == item_date(item@),
        date is Ok ==> later(date->Ok_0@, beginning()),
{
    match &item.pub_date {
        Some(text) => parse_from_rfc2822(text.as_str()),
        None => {
            let none = String::new();
            parse_from_rfc2822(none.as_str())
        },
    }
}

/// The instants that timestamps stand for.
pub open spec fn instants(dates: Seq<Timestamp>) -> Seq<(int, int)> {
    dates.map_values(|date: Timestamp| date@)
}

/// Reads the dates of publication of all items; fails if one of them is none.
pub fn publication_dates(items: &Vec<FeedItem>) -> (dates: Result<
    Vec<Timestamp>,
    chrono::ParseError,
>)
    ensures
        dates is Ok <==> all_dated(item_views(items@)),
        dates is Ok ==> dates->Ok_0@.len() == items@.len(),
        dates is Ok ==> forall|i: int|
            0 <= i < items@.len() ==> Some((#[trigger] dates->Ok_0@[i])@) == item_date(
                items@[i]@,
            ),
        dates is Ok ==> forall|i: int|
            0 <= i < items@.len() ==> later((#[trigger] dates->Ok_0@[i])@, beginning()),
{
    let mut dates: Vec<Timestamp> = Vec::new();
    let mut i: usize = 0;
    while i < items.len()
        invariant
            i <= items.len(),
            dates@.len() == i,
            forall|j: int| 0 <= j < i ==> Some((#[trigger] dates@[j])@) == item_date(items@[j]@),
            forall|j: int| 0 <= j < i ==> later((#[trigger] dates@[j])@, beginning()),
        decreases items.len() - i,
    {
        match publication_date(&items[i]) {
            Ok(date) => dates.push(date),
            Err(error) => {
                assert(item_views(items@)[i as int] == items@[i as int]@);
                return Err(error);
            },
        }
        i += 1;
    }
    assert forall|j: int| 0 <= j < items@.len() implies item_date(
        #[trigger] item_views(items@)[j],
    ) is Some by {
        assert(Some(dates@[j]@) == item_date(items@[j]@));
    }
    Ok(dates)
}

/// The items whose dates are after `last`, in their order.
pub open spec fn items_dated_after(
    items: Seq<ItemView>,
    dates: Seq<(int, int)>,
    last: (int, int),
) -> Seq<ItemView>
    decreases items.len(),
{
    if items.len() == 0 {
        Seq::empty()
    } else {
        let before = items_dated_after(items.drop_last(), dates.drop_last(), last);
        if later(dates.last(), last) {
            before.push(items.last())
        } else {
            before
        }
    }
}

/// Picks the items whose dates are after `last`; `dates` holds the date of each item.
pub fn select_new_items(items: &Vec<FeedItem>, dates: &Vec<Timestamp>, last: &Timestamp) -> (new:
    Vec<FeedItem>)
    requires
        items@.len() == dates@.len(),
    ensures
        item_views(new@) == items_dated_after(item_views(items@), instants(dates@), last@),
{
    let mut new: Vec<FeedItem> = Vec::new();
    let mut i: usize = 0;
    assert(item_views(new@) == items_dated_after(
        item_views(items@).take(0),
        instants(dates@).take(0),
        last@,
    ));
    while i < items.len()
        invariant
            i <= items.len(),
            items@.len() == dates@.len(),
            item_views(new@) == items_dated_after(
                item_views(items@).take(i as int),
                instants(dates@).take(i as int),
                last@,
            ),
        decreases items.len() - i,
    {
        proof {
            let views = item_views(items@).take(i + 1);
            let times = instants(dates@).take(i + 1);
            assert(views.drop_last() == item_views(items@).take(i as int));
            assert(times.drop_last() == instants(dates@).take(i as int));
            assert(views.last() == items@[i as int]@);
            assert(times.last() == dates@[i as int]@);
        }
        if dates[i].is_later_than(last) {
            let ghost before = new@;
            let copy = items[i].clone();
            new.push(copy);
            assert(item_views(new@) == item_views(before).push(items@[i as int]@));
        }
        i += 1;
    }
    assert(item_views(items@).take(items.len() as int) == item_views(items@));
    assert(instants(dates@).take(items.len() as int) == instants(dates@));
    new
}

/// With the dates that the items carry, the items dated after `last` are the new items.
proof fn dated_after_is_new(items: Seq<ItemView>, dates: Seq<(int, int)>, last: (int, int))
    requires
        items.len() == dates.len(),
        forall|i: int| 0 <= i < items.len() ==> Some(#[trigger] dates[i]) == item_date(items[i]),
    ensures
        items_dated_after(items, dates, last) == new_items(items, last),
    decreases items.len(),
{
    reveal(Seq::filter);
    if items.len() > 0 {
        dated_after_is_new(items.drop_last(), dates.drop_last(), last);
        assert(Some(dates.last()) == item_date(items.last()));
    }
}

/// Where every item is new, the new items are all items.
proof fn all_are_new(items: Seq<ItemView>, last: (int, int))
    requires
        forall|i: int| 0 <= i < items.len() ==> is_new(#[trigger] items[i], last),
    ensures
        new_items(items, last) == items,
    decreases items.len(),
{
    reveal(Seq::filter);
    if items.len() > 0 {
        let before = items.drop_last();
        assert forall|i: int| 0 <= i < before.len() implies is_new(#[trigger] before[i], last) by {
            assert(is_new(items[i], last));
        }
        all_are_new(before, last);
        assert(is_new(items[items.len() - 1], last));
        assert(items == before.push(items.last()));
    }
}

/// The items of a channel that are new to somebody who was there last at `last`; fails if the
/// date of any item, new or not, is none. To somebody who was never there, all items are new.
pub fn check_channel(items: &Vec<FeedItem>, last: &Timestamp) -> (new: Result<
    Vec<FeedItem>,
    chrono::ParseError,
>)
    ensures
        new is Ok <==> all_dated(item_views(items@)),
        new is Ok ==> item_views(new->Ok_0@) == new_items(item_views(items@), last@),
        new is Ok && last@ == beginning() ==> item_views(new->Ok_0@) == item_views(items@),
{
    match publication_dates(items) {
        Ok(dates) => {
            proof {
                let views = item_views(items@);
                let times = instants(dates@);
                assert forall|i: int| 0 <= i < views.len() implies Some(#[trigger] times[i])
                    == item_date(views[i]) by {
                    assert(Some(dates@[i]@) == item_date(items@[i]@));
                }
                dated_after_is_new(views, times, last@);
                if last@ == beginning() {
                    assert forall|i: int| 0 <= i < views.len() implies is_new(
                        #[trigger] views[i],
                        last@,
                    ) by {
                        assert(later(dates@[i]@, beginning()));
                        assert(Some(times[i]) == item_date(views[i]));
                    }
                    all_are_new(views, last@);
                }
            }
            Ok(select_new_items(items, &dates, last))
        },
        Err(error) => Err(error),
    }
}

/// Why a site could not be checked.
#[derive(Debug)]
pub enum CheckSiteError {
    /// The feed could not be fetched.
    Request(String),
    /// What was fetched is no feed.
    Rss(rss::Error),
    /// An item has no date.
    Chrono(chrono::ParseError),
}

impl From<rss::Error> for CheckSiteError {
    fn from(error: rss::Error) -> (wrapped: CheckSiteError) {
        CheckSiteError::Rss(error)
    }
}

impl vstd::std_specs::convert::FromSpecImpl<rss::Error> for CheckSiteError {
    open spec fn obeys_from_spec() -> bool {
        true
    }

    open spec fn from_spec(error: rss::Error) -> CheckSiteError {
        CheckSiteError::Rss(error)
    }
}

impl From<chrono::ParseError> for CheckSiteError {
    fn from(error: chrono::ParseError) -> (wrapped: CheckSiteError) {
        CheckSiteError::Chrono(error)
    }
}

impl vstd::std_specs::convert::FromSpecImpl<chrono::ParseError> for CheckSiteError {
    open spec fn obeys_from_spec() -> bool {
        true
    }

    open spec fn from_spec(error: chrono::ParseError) -> CheckSiteError {
        CheckSiteError::Chrono(error)
    }
}

/// The bytes that were fetched, if any were.
pub open spec fn fetched_bytes(fetched: Result<Vec<u8>, String>) -> Option<Seq<u8>> {
    match fetched {
        Ok(bytes) => Some(bytes@),
        Err(_) => None,
    }
}

/// The items that a check finds in what was fetched, or `None` where the check fails.
pub open spec fn checked_items(bytes: Option<Seq<u8>>, last: (int, int)) -> Option<Seq<ItemView>> {
    match bytes {
        None => None,
        Some(bytes) => match channel_items(bytes) {
            None => None,
            Some(items) => if all_dated(items) {
                Some(new_items(items, last))
            } else {
                None
            },
        },
    }
}

/// Whether `error` is the reason why the check of what was fetched fails, if it does.
pub open spec fn is_reason(error: CheckSiteError, fetched: Result<Vec<u8>, String>) -> bool {
    match fetched {
        Err(message) => error == CheckSiteError::Request(message),
        Ok(bytes) => if channel_items(bytes@) is None {
            error is Rss
        } else {
            error is Chrono
        },
    }
}

/// Finds the items that are new since the site was last accessed, in what was fetched from it.
/// At a site that was never accessed, these are all items of the feed.
pub fn try_check_site(site: &Site, fetched: &Result<Vec<u8>, String>) -> (new: Result<
    Vec<FeedItem>,
    CheckSiteError,
>)
    ensures
        new is Ok <==> checked_items(fetched_bytes(*fetched), site@.last_accessed) is Some,
        new is Ok ==> Some(item_views(new->Ok_0@)) == checked_items(
            fetched_bytes(*fetched),
            site@.last_accessed,
        ),
        new is Ok && site@.last_accessed == beginning() ==> Some(item_views(new->Ok_0@))
            == channel_items(fetched_bytes(*fetched)->0),
        new is Err ==> is_reason(new->Err_0, *fetched),
{
    match fetched {
        Err(message) => Err(CheckSiteError::Request(message.clone())),
        Ok(bytes) => match read_channel(bytes.as_slice()) {
            Err(error) => Err(CheckSiteError::from(error)),
            Ok(items) => match check_channel(&items, &site.last_accessed) {
                Err(error) => Err(CheckSiteError::from(error)),
                Ok(new) => Ok(new),
            },
        },
    }
}

/// What a check of a site has found, and why it has failed if it has.
#[derive(Debug)]
pub struct SiteCheck {
    pub new_items: Vec<FeedItem>,
    pub failure: Option<CheckSiteError>,
}

/// The items that a check finds in what was fetched: none where the check fails.
pub open spec fn found_items(bytes: Option<Seq<u8>>, last: (int, int)) -> Seq<ItemView> {
    match checked_items(bytes, last) {
        Some(items) => items,
        None => Seq::empty(),
    }
}

/// Checks a site; one that cannot be checked has no new items.
pub fn check_site(site: &Site, fetched: &Result<Vec<u8>, String>) -> (check: SiteCheck)
    ensures
        item_views(check.new_items@) == found_items(fetched_bytes(*fetched), site@.last_accessed),
        check.failure is None <==> checked_items(fetched_bytes(*fetched), site@.last_accessed)
            is Some,
        check.failure is None && site@.last_accessed == beginning() ==> Some(
            item_views(check.new_items@),
        ) == channel_items(fetched_bytes(*fetched)->0),
        check.failure is Some ==> is_reason(check.failure->0, *fetched),
{
    match try_check_site(site, fetched) {
        Ok(new_items) => SiteCheck { new_items, failure: None },
        Err(error) => {
            let new_items: Vec<FeedItem> = Vec::new();
            assert(item_views(new_items@) == Seq::<ItemView>::empty());
            SiteCheck { new_items, failure: Some(error) }
        },
    }
}

} // verus!
