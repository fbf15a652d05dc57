//! What holds of a check: which items it finds, and what becomes of the sites.

use crate::errors::SitesIoError;
use crate::feed::{
    all_dated, channel_items, checked_items, fetched_bytes, found_items, instants, is_new,
    is_reason, item_date, item_views, items_dated_after, new_items, CheckSiteError, FeedItem,
    ItemView, SiteCheck,
};
use crate::email::{email_data, found_by, subject_of, updates_of};
use crate::mail::SendEmailError;
use crate::rss_sites::{site_views, Site, SiteView};
use crate::task::{
    accessed, accessed_at, failures_of, follows, found_at, is_awaited, urls_of, Action, Event,
    Phase, TaskView,
};
use crate::templates::{rendered, Templates};
use crate::time::{
    beginning, is_clock_time, is_instant, later, rfc2822_instant, Reading, Timestamp, MAX_SECONDS,
    MIN_SECONDS,
};
use vstd::prelude::*;

verus! {

/// Later goes by the time line: more seconds since 1970 are later, and of the instants in one
/// second those with more nanoseconds.
pub proof fn later_follows_the_time_line(a: (int, int), b: (int, int))
    ensures
        a.0 > b.0 ==> later(a, b),
        a.0 < b.0 ==> !later(a, b),
        a.0 == b.0 ==> (later(a, b) <==> a.1 > b.1),
{
}

/// The calendar has every nanosecond from its first second to its last, and none before or
/// after. A second is prolonged by a leap second only where the next one begins a minute.
pub proof fn calendar_has_no_gaps(seconds: int, nanos: int)
    ensures
        0 <= nanos < 1_000_000_000 ==> (is_instant(seconds, nanos) <==> MIN_SECONDS <= seconds
            <= MAX_SECONDS),
        1_000_000_000 <= nanos < 2_000_000_000 ==> (is_instant(seconds, nanos) <==> MIN_SECONDS
            <= seconds <= MAX_SECONDS && (seconds + 1) % 60 == 0),
        nanos < 0 || nanos >= 2_000_000_000 ==> !is_instant(seconds, nanos),
        beginning().0 == MIN_SECONDS && beginning().1 == 0,
        is_instant(beginning().0, beginning().1),
        is_clock_time((seconds, nanos)) <==> seconds >= 0 && nanos < 1_000_000_000,
{
}

/// The date of an item is what its text is read as; an item without one counts as one with an
/// empty text.
pub proof fn date_is_read(item: ItemView, items: Seq<ItemView>)
    ensures
        item.pub_date is Some ==> item_date(item) == rfc2822_instant(item.pub_date->0),
        item.pub_date is None ==> item_date(item) == rfc2822_instant(Seq::<char>::empty()),
        all_dated(items) <==> forall|i: int|
            0 <= i < items.len() ==> item_date(#[trigger] items[i]) is Some,
{
}

/// An item is new if and only if it has a date, with more seconds than the last access, or as
/// many and more nanoseconds.
pub proof fn new_is_by_time(item: ItemView, last: (int, int))
    ensures
        item_date(item) is None ==> !is_new(item, last),
        item_date(item) is Some && (item_date(item)->0).0 > last.0 ==> is_new(item, last),
        item_date(item) is Some && (item_date(item)->0).0 < last.0 ==> !is_new(item, last),
        item_date(item) is Some && (item_date(item)->0).0 == last.0 ==> (is_new(item, last)
            <==> (item_date(item)->0).1 > last.1),
{
}

/// The new items of a feed are those of its first part and then those of the rest; an item alone
/// is kept, as it is, if its date comes after the last access, and left out if not.
pub proof fn new_items_follow_the_feed(
    items: Seq<ItemView>,
    more: Seq<ItemView>,
    item: ItemView,
    last: (int, int),
)
    ensures
        new_items(Seq::<ItemView>::empty(), last).len() == 0,
        item_date(item) is Some && ((item_date(item)->0).0 > last.0 || ((item_date(item)->0).0
            == last.0 && (item_date(item)->0).1 > last.1)) ==> new_items(seq![item], last) == seq![
            item,
        ],
        item_date(item) is None || (item_date(item)->0).0 < last.0 || ((item_date(item)->0).0
            == last.0 && (item_date(item)->0).1 <= last.1) ==> new_items(seq![item], last).len()
            == 0,
        new_items(items + more, last) == new_items(items, last) + new_items(more, last),
    decreases more.len(),
{
    reveal(Seq::filter);
    assert(seq![item].drop_last() == Seq::<ItemView>::empty());
    assert(new_items(Seq::<ItemView>::empty(), last) == Seq::<ItemView>::empty());
    if is_new(item, last) {
        assert(new_items(seq![item], last) == seq![item]);
    }
    if more.len() == 0 {
        assert(items + more == items);
        assert(new_items(more, last) == Seq::<ItemView>::empty());
    } else {
        assert((items + more).drop_last() == items + more.drop_last());
        assert((items + more).last() == more.last());
        new_items_follow_the_feed(items, more.drop_last(), item, last);
        assert(new_items(items + more, last) == new_items(items, last) + new_items(more, last));
    }
}

/// The same of items whose dates were read before.
pub proof fn dated_items_follow_the_feed(
    items: Seq<ItemView>,
    dates: Seq<(int, int)>,
    more: Seq<ItemView>,
    more_dates: Seq<(int, int)>,
    item: ItemView,
    date: (int, int),
    last: (int, int),
)
    requires
        items.len() == dates.len(),
        more.len() == more_dates.len(),
    ensures
        date.0 > last.0 || (date.0 == last.0 && date.1 > last.1) ==> items_dated_after(
            seq![item],
            seq![date],
            last,
        ) == seq![item],
        date.0 < last.0 || (date.0 == last.0 && date.1 <= last.1) ==> items_dated_after(
            seq![item],
            seq![date],
            last,
        ).len() == 0,
        items_dated_after(items + more, dates + more_dates, last) == items_dated_after(
            items,
            dates,
            last,
        ) + items_dated_after(more, more_dates, last),
    decreases more.len(),
{
    assert(seq![item].drop_last() == Seq::<ItemView>::empty());
    assert(items_dated_after(seq![item].drop_last(), seq![date].drop_last(), last) == Seq::<
        ItemView,
    >::empty());
    if later(date, last) {
        assert(items_dated_after(seq![item], seq![date], last) == seq![item]);
    }
    if more.len() == 0 {
        assert(items + more == items);
        assert(dates + more_dates == dates);
        assert(items_dated_after(more, more_dates, last) == Seq::<ItemView>::empty());
    } else {
        assert((items + more).drop_last() == items + more.drop_last());
        assert((dates + more_dates).drop_last() == dates + more_dates.drop_last());
        assert((items + more).last() == more.last());
        assert((dates + more_dates).last() == more_dates.last());
        dated_items_follow_the_feed(
            items,
            dates,
            more.drop_last(),
            more_dates.drop_last(),
            item,
            date,
            last,
        );
        assert(items_dated_after(items + more, dates + more_dates, last) == items_dated_after(
            items,
            dates,
            last,
        ) + items_dated_after(more, more_dates, last));
    }
}

/// What is found in what was fetched: where that is a feed with a date on each item, its new
/// items; else nothing, and the check fails.
pub proof fn check_reads_the_feed(fetched: Result<Vec<u8>, String>, last: (int, int))
    ensures
        ({
            let bytes = fetched_bytes(fetched);
            &&& fetched is Ok ==> bytes == Some(fetched->Ok_0@)
            &&& fetched is Err ==> bytes is None
            &&& if fetched is Ok && channel_items(fetched->Ok_0@) is Some && (forall|k: int|
                0 <= k < channel_items(fetched->Ok_0@)->0.len() ==> item_date(
                    #[trigger] channel_items(fetched->Ok_0@)->0[k],
                ) is Some) {
                &&& checked_items(bytes, last) is Some
                &&& checked_items(bytes, last)->0 == new_items(
                    channel_items(fetched->Ok_0@)->0,
                    last,
                )
                &&& found_items(bytes, last) == new_items(channel_items(fetched->Ok_0@)->0, last)
            } else {
                &&& checked_items(bytes, last) is None
                &&& found_items(bytes, last).len() == 0
            }
        }),
{
}

/// Why a check fails: the message of the request where that failed, else that the document is no
/// feed, else that an item has no date.
pub proof fn reasons_are_told_apart(error: CheckSiteError, fetched: Result<Vec<u8>, String>)
    requires
        is_reason(error, fetched),
    ensures
        fetched is Err ==> error == CheckSiteError::Request(fetched->Err_0),
        fetched is Ok && channel_items(fetched->Ok_0@) is None ==> error is Rss,
        fetched is Ok && channel_items(fetched->Ok_0@) is Some ==> error is Chrono,
{
}

/// Lists are known by what their entries are known by, one by one.
pub proof fn lists_are_their_entries(
    sites: Seq<Site>,
    items: Seq<FeedItem>,
    dates: Seq<Timestamp>,
    checks: Seq<SiteCheck>,
    i: int,
)
    ensures
        site_views(sites).len() == sites.len(),
        0 <= i < sites.len() ==> site_views(sites)[i] == sites[i]@,
        item_views(items).len() == items.len(),
        0 <= i < items.len() ==> item_views(items)[i] == items[i]@,
        instants(dates).len() == dates.len(),
        0 <= i < dates.len() ==> instants(dates)[i] == dates[i]@,
        found_by(checks).len() == checks.len(),
        0 <= i < checks.len() ==> found_by(checks)[i].len() == checks[i].new_items@.len(),
        0 <= i < checks.len() ==> found_by(checks)[i] == item_views(checks[i].new_items@),
        failures_of(checks).len() == checks.len(),
        0 <= i < checks.len() ==> failures_of(checks)[i] == checks[i].failure,
{
}

/// When it is time, the sites are loaded, and nothing else changes.
pub proof fn tick_loads(before: TaskView, templates: Templates, after: TaskView, action: Action)
    requires
        follows(before, Event::Tick, templates, after, action),
    ensures
        action is Load,
        after.phase == Phase::Loading,
        after.sites == before.sites,
        after.found == before.found,
        after.failures == before.failures,
{
}

/// Once the sites were loaded, each is fetched at its own address, in the order of the list;
/// where they could not be loaded, those that were known are.
pub proof fn sites_are_fetched_at_their_addresses(
    before: TaskView,
    loaded: Result<Vec<Site>, SitesIoError>,
    templates: Templates,
    after: TaskView,
    action: Action,
    i: int,
)
    requires
        follows(before, Event::Loaded(loaded), templates, after, action),
    ensures
        action is Fetch,
        after.phase == Phase::Fetching,
        after.found.len() == 0,
        after.failures.len() == 0,
        loaded is Ok ==> action->Fetch_0@.len() == loaded->Ok_0@.len(),
        loaded is Ok ==> after.sites.len() == loaded->Ok_0@.len(),
        loaded is Ok && 0 <= i < loaded->Ok_0@.len() ==> {
            &&& action->Fetch_0@[i]@ == loaded->Ok_0@[i].url@
            &&& after.sites[i] == loaded->Ok_0@[i]@
        },
        loaded is Err ==> after.sites == before.sites,
        loaded is Err ==> action->Fetch_0@.len() == before.sites.len(),
        loaded is Err && 0 <= i < before.sites.len() ==> action->Fetch_0@[i]@
            == before.sites[i].url,
        urls_of(after.sites).len() == after.sites.len(),
        0 <= i < after.sites.len() ==> urls_of(after.sites)[i] == after.sites[i].url,
{
    let urls = action->Fetch_0@;
    assert(crate::text::texts(urls).len() == urls.len());
    if 0 <= i < after.sites.len() {
        assert(crate::text::texts(urls)[i] == urls[i]@);
        if loaded is Ok {
            assert(site_views(loaded->Ok_0@)[i] == loaded->Ok_0@[i]@);
        }
    }
}

/// Each site is checked in its own feed, and by its own last access: where that is a feed with a
/// date on each item, what is found are its new items; else nothing. The sites stay as they are.
pub proof fn sites_are_checked_in_their_feeds(
    before: TaskView,
    feeds: Vec<Result<Vec<u8>, String>>,
    templates: Templates,
    after: TaskView,
    action: Action,
    i: int,
)
    requires
        is_awaited(before, Event::Fetched(feeds)),
        follows(before, Event::Fetched(feeds), templates, after, action),
        0 <= i < before.sites.len(),
    ensures
        after.sites == before.sites,
        after.found.len() == before.sites.len(),
        after.failures.len() == before.sites.len(),
        feeds@.len() == before.sites.len(),
        if feeds@[i] is Ok && channel_items(feeds@[i]->Ok_0@) is Some && (forall|k: int|
            0 <= k < channel_items(feeds@[i]->Ok_0@)->0.len() ==> item_date(
                #[trigger] channel_items(feeds@[i]->Ok_0@)->0[k],
            ) is Some) {
            &&& after.found[i] == new_items(
                channel_items(feeds@[i]->Ok_0@)->0,
                before.sites[i].last_accessed,
            )
            &&& after.failures[i] is None
        } else {
            &&& after.found[i].len() == 0
            &&& after.failures[i] is Some
            &&& is_reason(after.failures[i]->0, feeds@[i])
        },
        found_at(before.sites, feeds@) == after.found,
{
    check_reads_the_feed(feeds@[i], before.sites[i].last_accessed);
    crate::laws::failures_are_told(before, feeds, templates, after, action, i);
}

/// What is sent after a check: nothing where nothing was found, and the task waits; else an email
/// with the subject of all updates, and the template rendered with the data of all updates. Where
/// it cannot be rendered, the task stops.
pub proof fn email_tells_the_updates(
    before: TaskView,
    feeds: Vec<Result<Vec<u8>, String>>,
    templates: Templates,
    after: TaskView,
    action: Action,
)
    requires
        follows(before, Event::Fetched(feeds), templates, after, action),
    ensures
        ({
            let updates = updates_of(before.sites, after.found);
            let body = rendered(templates.texts(), "email"@, true, email_data(updates));
            if updates.len() == 0 {
                action is Wait && after.phase == Phase::Waiting
            } else if body is Some {
                &&& action is Send
                &&& action->Send_0@ == subject_of(updates)
                &&& action->Send_1@ == body->0
                &&& after.phase == Phase::Sending
            } else {
                action is Stop && after.phase == Phase::Stopped
            }
        }),
{
}

/// Once the email was sent, a site that it told of has a last access that the clock has shown:
/// no item is new there whose date is not after that. All else of it stays, and so does every
/// other site.
pub proof fn told_sites_are_accessed_by_the_clock(
    before: TaskView,
    templates: Templates,
    after: TaskView,
    action: Action,
    i: int,
)
    requires
        follows(before, Event::Sent(Ok(())), templates, after, action),
        0 <= i < before.sites.len(),
    ensures
        action is Save,
        after.phase == Phase::Saving,
        after.found == before.found,
        after.failures == before.failures,
        after.sites.len() == before.sites.len(),
        after.sites[i].uuid == before.sites[i].uuid,
        after.sites[i].name == before.sites[i].name,
        after.sites[i].url == before.sites[i].url,
        before.found[i].len() == 0 ==> after.sites[i].last_accessed
            == before.sites[i].last_accessed,
        before.found[i].len() > 0 ==> exists|now: Reading|
            {
                &&& (#[trigger] now@) == after.sites[i].last_accessed
                &&& now@.0 >= 0
                &&& now@.1 < 1_000_000_000
                &&& forall|item: ItemView|
                    item_date(item) is Some && ((item_date(item)->0).0 < now@.0 || ((item_date(item)->0).0 == now@.0 && (item_date(item)->0).1 <= now@.1)) ==> !#[trigger] is_new(
                        item,
                        after.sites[i].last_accessed,
                    )
            },
{
    assert(accessed(before.sites, before.found, after.sites));
    if before.found[i].len() > 0 {
        assert(after.sites[i].url == before.sites[i].url);
        let now = choose|now: Reading| (#[trigger] now@) == after.sites[i].last_accessed;
        assert(now@ == after.sites[i].last_accessed);
        assert(is_clock_time(now@));
    } else {
        assert(after.sites[i] == before.sites[i]);
    }
}

/// Sites are marked as accessed each at its own time, where something was found, and are as they
/// were where nothing was.
pub proof fn marks_are_at_their_times(
    before: Seq<SiteView>,
    found: Seq<Seq<ItemView>>,
    times: Seq<(int, int)>,
    i: int,
)
    requires
        0 <= i < before.len(),
    ensures
        accessed_at(before, found, times).len() == before.len(),
        accessed_at(before, found, times)[i].uuid == before[i].uuid,
        accessed_at(before, found, times)[i].name == before[i].name,
        accessed_at(before, found, times)[i].url == before[i].url,
        found[i].len() > 0 ==> accessed_at(before, found, times)[i].last_accessed == times[i],
        found[i].len() == 0 ==> accessed_at(before, found, times)[i].last_accessed
            == before[i].last_accessed,
{
}

/// An email that was not sent, and sites that were saved or not, leave all that the task knows
/// as it is; the task waits for the next check.
pub proof fn other_ends_change_nothing(
    before: TaskView,
    error: SendEmailError,
    saved: Result<(), SitesIoError>,
    templates: Templates,
    after: TaskView,
    action: Action,
)
    requires
        follows(before, Event::Sent(Err(error)), templates, after, action) || follows(
            before,
            Event::Saved(saved),
            templates,
            after,
            action,
        ),
    ensures
        action is Wait,
        after.phase == Phase::Waiting,
        after.sites == before.sites,
        after.found == before.found,
        after.failures == before.failures,
{
}

/// Each phase awaits one kind of event; feeds must be as many as sites.
pub proof fn phases_await_their_events(task: TaskView, event: Event)
    ensures
        event is Tick ==> (is_awaited(task, event) <==> task.phase == Phase::Waiting),
        event is Loaded ==> (is_awaited(task, event) <==> task.phase == Phase::Loading),
        event is Fetched ==> (is_awaited(task, event) <==> task.phase == Phase::Fetching
            && event->Fetched_0@.len() == task.sites.len()),
        event is Sent ==> (is_awaited(task, event) <==> task.phase == Phase::Sending),
        event is Saved ==> (is_awaited(task, event) <==> task.phase == Phase::Saving),
{
}

} // verus!
