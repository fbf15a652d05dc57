//! What holds of the notifier as a whole.

use crate::email::{updates_of, UpdateView};
use crate::errors::{IoError, IoErrorKind, SitesIoError};
use crate::feed::{
    all_dated, channel_items, checked_items, fetched_bytes, found_items, is_new, is_reason,
    item_date, new_items, ItemView,
};
use crate::mail::{
    delivery_follows, settings_for, Delivery, DeliveryAction, Mechanism, Message, Outgoing,
    Security, SendEmailError,
};
use crate::rss_sites::{load_follows, site_views, LoadAction, LoadEvent, SiteView};
use crate::task::{
    accessed, are_reasons, follows, found_at, is_awaited, Action, Event, TaskView,
};
use crate::templates::Templates;
use crate::time::{beginning, later};
use vstd::prelude::*;

verus! {

/// Instants are in one line: of two different ones, one is later, and no two are later than
/// each other; what is later than a later instant is later.
pub proof fn instants_are_ordered(a: (int, int), b: (int, int), c: (int, int))
    ensures
        a == b || later(a, b) || later(b, a),
        !(later(a, b) && later(b, a)),
        later(a, b) && later(b, c) ==> later(a, c),
{
}

/// An item is reported if and only if it is in the feed and was published after the last
/// access.
pub proof fn reported_iff_published_since(items: Seq<ItemView>, last: (int, int), item: ItemView)
    ensures
        new_items(items, last).contains(item) <==> items.contains(item) && is_new(item, last),
    decreases items.len(),
{
    reveal(Seq::filter);
    if items.len() > 0 {
        let before = items.drop_last();
        reported_iff_published_since(before, last, item);
        assert(items == before.push(items.last()));
        if items.contains(item) {
            let i = choose|i: int| 0 <= i < items.len() && items[i] == item;
            if i < before.len() {
                assert(before[i] == item);
            }
        }
        if before.contains(item) {
            let i = choose|i: int| 0 <= i < before.len() && before[i] == item;
            assert(items[i] == item);
        }
        assert(items[items.len() - 1] == items.last());
        let kept = new_items(before, last);
        if is_new(items.last(), last) {
            assert(new_items(items, last) == kept.push(items.last()));
            assert(kept.push(items.last())[kept.len() as int] == items.last());
            if kept.contains(item) {
                let i = choose|i: int| 0 <= i < kept.len() && kept[i] == item;
                assert(kept.push(items.last())[i] == item);
            }
            if new_items(items, last).contains(item) {
                let all = new_items(items, last);
                let i = choose|i: int| 0 <= i < all.len() && all[i] == item;
                if i < kept.len() {
                    assert(kept[i] == item);
                }
            }
        } else {
            assert(new_items(items, last) == kept);
        }
    }
}

/// A feed in which nothing is later than the last access has nothing new: an item is not
/// reported again once the site was accessed at or after its publication.
pub proof fn nothing_is_reported_twice(items: Seq<ItemView>, last: (int, int))
    requires
        forall|i: int| 0 <= i < items.len() ==> !is_new(#[trigger] items[i], last),
    ensures
        new_items(items, last) == Seq::<ItemView>::empty(),
    decreases items.len(),
{
    reveal(Seq::filter);
    if items.len() > 0 {
        assert(!is_new(items[items.len() - 1], last));
        assert forall|i: int| 0 <= i < items.drop_last().len() implies !is_new(
            #[trigger] items.drop_last()[i],
            last,
        ) by {
            assert(!is_new(items[i], last));
        }
        nothing_is_reported_twice(items.drop_last(), last);
    }
}

/// What is new since a later access is what is new, among what was new since an earlier one.
pub proof fn later_access_reports_less(
    items: Seq<ItemView>,
    earlier_access: (int, int),
    later_access: (int, int),
)
    requires
        !later(earlier_access, later_access),
    ensures
        new_items(new_items(items, earlier_access), later_access) == new_items(
            items,
            later_access,
        ),
    decreases items.len(),
{
    reveal(Seq::filter);
    if items.len() > 0 {
        later_access_reports_less(items.drop_last(), earlier_access, later_access);
        let kept = new_items(items.drop_last(), earlier_access);
        if is_new(items.last(), earlier_access) {
            assert(kept.push(items.last()).drop_last() == kept);
        }
    }
}

/// One item without a date is enough for a whole feed to be passed over.
pub proof fn undated_item_hides_feed(bytes: Seq<u8>, last: (int, int), i: int)
    requires
        channel_items(bytes) is Some,
        0 <= i < channel_items(bytes)->0.len(),
        item_date(channel_items(bytes)->0[i]) is None,
    ensures
        found_items(Some(bytes), last) == Seq::<ItemView>::empty(),
{
}

/// A site is told of if and only if something was found there, and then with all that was
/// found.
pub proof fn updates_tell_all(
    sites: Seq<SiteView>,
    found: Seq<Seq<ItemView>>,
    update: UpdateView,
)
    requires
        sites.len() == found.len(),
    ensures
        updates_of(sites, found).contains(update) <==> exists|i: int|
            0 <= i < sites.len() && found[i].len() > 0 && update == (UpdateView {
                site: #[trigger] sites[i],
                items: found[i],
            }),
    decreases sites.len(),
{
    if sites.len() > 0 {
        let n = sites.len() - 1;
        let fewer_sites = sites.drop_last();
        let fewer_found = found.drop_last();
        updates_tell_all(fewer_sites, fewer_found, update);
        let before = updates_of(fewer_sites, fewer_found);
        let all = updates_of(sites, found);
        let last = UpdateView { site: sites[n], items: found[n] };
        if all.contains(update) {
            let k = choose|k: int| 0 <= k < all.len() && all[k] == update;
            if k < before.len() {
                assert(before[k] == update);
                let i = choose|i: int|
                    0 <= i < fewer_sites.len() && fewer_found[i].len() > 0 && update == (UpdateView {
                        site: #[trigger] fewer_sites[i],
                        items: fewer_found[i],
                    });
                assert(sites[i] == fewer_sites[i]);
            } else {
                assert(update == last);
                assert(sites[n] == update.site);
            }
        }
        if exists|i: int|
            0 <= i < sites.len() && found[i].len() > 0 && update == (UpdateView {
                site: #[trigger] sites[i],
                items: found[i],
            }) {
            let i = choose|i: int|
                0 <= i < sites.len() && found[i].len() > 0 && update == (UpdateView {
                    site: #[trigger] sites[i],
                    items: found[i],
                });
            if i < n {
                assert(fewer_sites[i] == update.site);
                let k = choose|k: int| 0 <= k < before.len() && before[k] == update;
                assert(all[k] == update);
            } else {
                assert(all[before.len() as int] == update);
            }
        }
    }
}

/// There is nothing to tell if and only if nothing was found at any site.
pub proof fn no_updates_iff_nothing_found(sites: Seq<SiteView>, found: Seq<Seq<ItemView>>)
    requires
        sites.len() == found.len(),
    ensures
        updates_of(sites, found).len() == 0 <==> forall|i: int|
            0 <= i < found.len() ==> (#[trigger] found[i]).len() == 0,
    decreases sites.len(),
{
    if sites.len() > 0 {
        let fewer = found.drop_last();
        no_updates_iff_nothing_found(sites.drop_last(), fewer);
        if forall|i: int| 0 <= i < found.len() ==> (#[trigger] found[i]).len() == 0 {
            assert(found[found.len() - 1].len() == 0);
            assert forall|i: int| 0 <= i < fewer.len() implies (#[trigger] fewer[i]).len()
                == 0 by {
                assert(found[i].len() == 0);
            }
        }
        if updates_of(sites, found).len() == 0 {
            assert forall|i: int| 0 <= i < found.len() implies (#[trigger] found[i]).len()
                == 0 by {
                if i < fewer.len() {
                    assert(fewer[i].len() == 0);
                }
            }
        }
    }
}

/// After a check, nothing is sent if and only if nothing was found at any site.
pub proof fn silent_iff_nothing_new(
    before: TaskView,
    feeds: Vec<Result<Vec<u8>, String>>,
    templates: Templates,
    after: TaskView,
    action: Action,
)
    requires
        is_awaited(before, Event::Fetched(feeds)),
        follows(before, Event::Fetched(feeds), templates, after, action),
    ensures
        action is Wait <==> forall|i: int|
            0 <= i < before.sites.len() ==> (#[trigger] found_items(
                fetched_bytes(feeds@[i]),
                before.sites[i].last_accessed,
            )).len() == 0,
{
    let found = found_at(before.sites, feeds@);
    no_updates_iff_nothing_found(before.sites, found);
    if forall|i: int| 0 <= i < found.len() ==> (#[trigger] found[i]).len() == 0 {
        assert forall|i: int| 0 <= i < before.sites.len() implies (#[trigger] found_items(
            fetched_bytes(feeds@[i]),
            before.sites[i].last_accessed,
        )).len() == 0 by {
            assert(found[i].len() == 0);
        }
    }
}

/// An item that is new in the feed of a site is told of: there is something to send, and among
/// the updates is one of that site that holds the item. The feed must be readable, with a date
/// on each item.
pub proof fn new_item_is_told(
    before: TaskView,
    feeds: Vec<Result<Vec<u8>, String>>,
    templates: Templates,
    after: TaskView,
    action: Action,
    i: int,
    item: ItemView,
)
    requires
        is_awaited(before, Event::Fetched(feeds)),
        follows(before, Event::Fetched(feeds), templates, after, action),
        0 <= i < before.sites.len(),
        fetched_bytes(feeds@[i]) is Some,
        channel_items(fetched_bytes(feeds@[i])->0) is Some,
        all_dated(channel_items(fetched_bytes(feeds@[i])->0)->0),
        channel_items(fetched_bytes(feeds@[i])->0)->0.contains(item),
        is_new(item, before.sites[i].last_accessed),
    ensures
        action is Send || action is Stop,
        updates_of(before.sites, after.found).contains(
            (UpdateView { site: before.sites[i], items: after.found[i] }),
        ),
        after.found[i].contains(item),
{
    let items = channel_items(fetched_bytes(feeds@[i])->0)->0;
    reported_iff_published_since(items, before.sites[i].last_accessed, item);
    let update = UpdateView { site: before.sites[i], items: after.found[i] };
    updates_tell_all(before.sites, after.found, update);
    assert(update.site == before.sites[i]);
}

/// What is told of is new: an update is of a site that was checked, and each item that it holds
/// stands in the feed of that site and was published after the last access.
pub proof fn only_new_items_are_told(
    before: TaskView,
    feeds: Vec<Result<Vec<u8>, String>>,
    templates: Templates,
    after: TaskView,
    action: Action,
    update: UpdateView,
)
    requires
        is_awaited(before, Event::Fetched(feeds)),
        follows(before, Event::Fetched(feeds), templates, after, action),
        updates_of(before.sites, after.found).contains(update),
    ensures
        exists|i: int|
            {
                &&& 0 <= i < before.sites.len()
                &&& update.site == #[trigger] before.sites[i]
                &&& fetched_bytes(feeds@[i]) is Some
                &&& channel_items(fetched_bytes(feeds@[i])->0) is Some
                &&& update.items == new_items(
                    channel_items(fetched_bytes(feeds@[i])->0)->0,
                    update.site.last_accessed,
                )
            },
        forall|item: ItemView| #[trigger]
            update.items.contains(item) ==> is_new(item, update.site.last_accessed),
{
    updates_tell_all(before.sites, after.found, update);
    let i = choose|i: int|
        0 <= i < before.sites.len() && after.found[i].len() > 0 && update == (UpdateView {
            site: #[trigger] before.sites[i],
            items: after.found[i],
        });
    let items = channel_items(fetched_bytes(feeds@[i])->0)->0;
    assert(update.items == new_items(items, update.site.last_accessed));
    assert forall|item: ItemView| #[trigger] update.items.contains(item) implies is_new(
        item,
        update.site.last_accessed,
    ) by {
        reported_iff_published_since(items, update.site.last_accessed, item);
    }
}

/// The first check of a site that was never accessed, as one is that was just added, finds its
/// whole feed: all items, in their order. The feed must be readable, with a date on each item.
pub proof fn first_check_finds_whole_feed(
    before: TaskView,
    feeds: Vec<Result<Vec<u8>, String>>,
    templates: Templates,
    after: TaskView,
    action: Action,
    i: int,
)
    requires
        is_awaited(before, Event::Fetched(feeds)),
        follows(before, Event::Fetched(feeds), templates, after, action),
        0 <= i < before.sites.len(),
        before.sites[i].last_accessed == beginning(),
        fetched_bytes(feeds@[i]) is Some,
        channel_items(fetched_bytes(feeds@[i])->0) is Some,
        all_dated(channel_items(fetched_bytes(feeds@[i])->0)->0),
    ensures
        after.found[i] == channel_items(fetched_bytes(feeds@[i])->0)->0,
{
    assert(Some(after.found[i]) == channel_items(fetched_bytes(feeds@[i])->0));
}

/// A check says of each site why it has failed, and says nothing where it has not.
pub proof fn failures_are_told(
    before: TaskView,
    feeds: Vec<Result<Vec<u8>, String>>,
    templates: Templates,
    after: TaskView,
    action: Action,
    i: int,
)
    requires
        is_awaited(before, Event::Fetched(feeds)),
        follows(before, Event::Fetched(feeds), templates, after, action),
        0 <= i < before.sites.len(),
    ensures
        after.failures[i] is None <==> checked_items(
            fetched_bytes(feeds@[i]),
            before.sites[i].last_accessed,
        ) is Some,
        after.failures[i] is Some ==> is_reason(after.failures[i]->0, feeds@[i]),
        after.failures[i] is Some ==> after.found[i] == Seq::<ItemView>::empty(),
{
    assert(are_reasons(after.failures, before.sites, feeds@));
    assert(after.failures[i] is None || after.failures[i] is Some);
}

/// An email that could not be sent leaves every site as it was, so that a new check of the same
/// feeds finds the same again.
pub proof fn failed_email_loses_nothing(
    before: TaskView,
    error: SendEmailError,
    templates: Templates,
    after: TaskView,
    action: Action,
    feeds: Seq<Result<Vec<u8>, String>>,
)
    requires
        follows(before, Event::Sent(Err(error)), templates, after, action),
    ensures
        after.sites == before.sites,
        found_at(after.sites, feeds) == found_at(before.sites, feeds),
        action is Wait,
{
}

/// How sending ends: `Ok` if all steps succeed, else with the error of the first step that fails.
pub open spec fn delivery_result(
    secured: Result<(), String>,
    opened: Result<(), String>,
    submitted: Result<(), String>,
) -> Result<(), SendEmailError> {
    match (secured, opened, submitted) {
        (Err(error), _, _) => Err(SendEmailError::Tls(error)),
        (Ok(()), Err(error), _) => Err(SendEmailError::Smtp(error)),
        (Ok(()), Ok(()), Err(error)) => Err(SendEmailError::Smtp(error)),
        (Ok(()), Ok(()), Ok(())) => Ok(()),
    }
}

/// An email that was prepared is sent if and only if secure connections could be prepared, the
/// client could be set up and the mail server took the message; the first step that fails says
/// why it was not. The message is handed to the mail server only once the steps before have
/// succeeded, and as it was prepared; the connection is closed before sending ends well.
pub proof fn sent_iff_all_steps_succeed(
    outgoing: Outgoing,
    message: Message,
    secured: Result<(), String>,
    opened: Result<(), String>,
    submitted: Result<(), String>,
    first: (Delivery, DeliveryAction),
    second: (Delivery, DeliveryAction),
    third: (Delivery, DeliveryAction),
    closed: Result<(), String>,
    fourth: (Delivery, DeliveryAction),
)
    requires
        delivery_follows(Delivery::Securing(outgoing, message), secured, first.0, first.1),
        first.0 !is Ended ==> delivery_follows(first.0, opened, second.0, second.1),
        first.0 !is Ended && second.0 !is Ended ==> delivery_follows(
            second.0,
            submitted,
            third.0,
            third.1,
        ),
        first.0 !is Ended && second.0 !is Ended && third.0 !is Ended ==> delivery_follows(
            third.0,
            closed,
            fourth.0,
            fourth.1,
        ),
    ensures
        ({
            let result = DeliveryAction::Return(delivery_result(secured, opened, submitted));
            if secured is Err {
                first == (Delivery::Ended, result)
            } else if opened is Err {
                &&& first.1 == DeliveryAction::Open(settings_for(outgoing))
                &&& second == (Delivery::Ended, result)
            } else if submitted is Err {
                &&& first.1 == DeliveryAction::Open(settings_for(outgoing))
                &&& second.1 == DeliveryAction::Submit(message)
                &&& third == (Delivery::Ended, result)
            } else {
                &&& first.1 == DeliveryAction::Open(settings_for(outgoing))
                &&& second.1 == DeliveryAction::Submit(message)
                &&& third.1 is Close
                &&& fourth == (Delivery::Ended, result)
            }
        }),
{
}

/// The password goes over no connection but one that is encrypted from the first byte, to the
/// server whose certificate is for the account's domain: it is handed out only to set up such a
/// client, once secure connections have been prepared.
pub proof fn password_is_sent_encrypted(
    delivery: Delivery,
    outcome: Result<(), String>,
    next: Delivery,
    action: DeliveryAction,
)
    requires
        delivery_follows(delivery, outcome, next, action),
    ensures
        action is Open ==> {
            &&& delivery is Securing
            &&& outcome is Ok
            &&& action->Open_0.security == Security::Wrapper
            &&& action->Open_0.tls_domain == action->Open_0.host
            &&& action->Open_0.host == delivery->Securing_0.host
            &&& action->Open_0.mechanism == Mechanism::Login
            &&& action->Open_0.login == (
                delivery->Securing_0.credentials.username,
                delivery->Securing_0.credentials.password,
            )
        },
        action !is Secure,
{
}

/// Once the email was sent, a site that it told of has nothing new in the same feed, unless
/// the feed holds an item from after the access; the sites that it did not tell of are as they
/// were.
pub proof fn sent_items_are_not_found_again(
    before: TaskView,
    templates: Templates,
    after: TaskView,
    action: Action,
    feeds: Seq<Result<Vec<u8>, String>>,
    i: int,
)
    requires
        follows(before, Event::Sent(Ok(())), templates, after, action),
        0 <= i < before.sites.len(),
    ensures
        before.found[i].len() == 0 ==> after.sites[i] == before.sites[i],
        before.found[i].len() > 0 && (fetched_bytes(feeds[i]) is Some && channel_items(
            fetched_bytes(feeds[i])->0,
        ) is Some ==> forall|k: int|
            0 <= k < channel_items(fetched_bytes(feeds[i])->0)->0.len() ==> !is_new(
                #[trigger] channel_items(fetched_bytes(feeds[i])->0)->0[k],
                after.sites[i].last_accessed,
            )) ==> found_at(after.sites, feeds)[i] == Seq::<ItemView>::empty(),
{
    assert(accessed(before.sites, before.found, after.sites));
    let bytes = fetched_bytes(feeds[i]);
    let last = after.sites[i].last_accessed;
    if bytes is Some && channel_items(bytes->0) is Some {
        let items = channel_items(bytes->0)->0;
        if forall|k: int| 0 <= k < items.len() ==> !is_new(#[trigger] items[k], last) {
            nothing_is_reported_twice(items, last);
        }
    }
}

/// Between two loadings the task neither adds nor drops nor renames a site, whatever happens.
pub proof fn sites_keep_their_identity(
    before: TaskView,
    event: Event,
    templates: Templates,
    after: TaskView,
    action: Action,
    i: int,
)
    requires
        is_awaited(before, event),
        follows(before, event, templates, after, action),
        event !is Loaded,
        0 <= i < before.sites.len(),
    ensures
        after.sites.len() == before.sites.len(),
        after.sites[i].uuid == before.sites[i].uuid,
        after.sites[i].name == before.sites[i].name,
        after.sites[i].url == before.sites[i].url,
{
    if event is Sent && event->Sent_0 is Ok {
        assert(accessed(before.sites, before.found, after.sites));
        assert(after.sites[i].url == before.sites[i].url);
    }
}

/// Sites that cannot be loaded are not forgotten: the check goes on with those known before.
pub proof fn failed_loading_keeps_sites(
    before: TaskView,
    error: SitesIoError,
    templates: Templates,
    after: TaskView,
    action: Action,
)
    requires
        follows(before, Event::Loaded(Err(error)), templates, after, action),
    ensures
        after.sites == before.sites,
        action is Fetch,
{
}

/// The task waits for the outcome of what it asks for, and for nothing else; it stops for good
/// only where the email cannot be written.
pub proof fn task_awaits_what_it_asks_for(
    before: TaskView,
    event: Event,
    templates: Templates,
    after: TaskView,
    action: Action,
    next: Event,
)
    requires
        is_awaited(before, event),
        follows(before, event, templates, after, action),
    ensures
        is_awaited(after, next) <==> match action {
            Action::Wait => next is Tick,
            Action::Load => next is Loaded,
            Action::Fetch(urls) => next is Fetched && next->Fetched_0@.len() == urls@.len(),
            Action::Send(_, _) => next is Sent,
            Action::Save => next is Saved,
            Action::Stop(_) => false,
        },
        action is Stop ==> event is Fetched,
{
    if event is Loaded {
        assert(crate::text::texts(action->Fetch_0@).len() == crate::task::urls_of(
            after.sites,
        ).len());
    }
}

/// A list of sites that is not there is made, and is then empty.
pub proof fn missing_list_is_empty(
    error: IoError,
    first: LoadAction,
    then: LoadAction,
)
    requires
        error.kind == IoErrorKind::NotFound,
        load_follows(LoadEvent::Read(Err(error)), first),
        load_follows(LoadEvent::Created(Ok(Ok(()))), then),
    ensures
        first is Create,
        then is Return,
        then->Return_0 is Ok,
        site_views(then->Return_0->Ok_0@) == Seq::<SiteView>::empty(),
{
}

/// Loading comes to an end after at most one more step: what follows on creating or on reading
/// the bytes is the outcome.
pub proof fn loading_ends(event: LoadEvent, action: LoadAction)
    requires
        load_follows(event, action),
    ensures
        event !is Read ==> action is Return,
        event is Read && action is Return ==> action->Return_0 is Err,
{
}

} // verus!
