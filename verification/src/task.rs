//! The task that checks the sites from time to time and sends an email about what is new.
//!
//! The task itself does no input and no output. It is told what has happened, and says what is
//! to be done next.

use crate::email::{
    body_of, collect_updates, found_by, generate_email, subject_of, update_views, updates_of,
};
use crate::errors::SitesIoError;
use crate::feed::{
    channel_items, check_site, checked_items, fetched_bytes, found_items, instants, is_reason,
    item_views, CheckSiteError, ItemView, SiteCheck,
};
use crate::mail::SendEmailError;
use crate::rss_sites::{site_views, Site, SiteView};
use crate::templates::{rendering_ends, Templates, EMAIL_TEMPLATE};
use crate::text::texts;
use crate::time::{beginning, is_clock_time, utc_now, Reading, Timestamp};
use vstd::prelude::*;

verus! {

/// The seconds from one check of the sites to the next.
pub const CHECK_INTERVAL_SECONDS: u64 = 60 * 60;

/// What the task is waiting for.
#[derive(Debug, Clone, Copy, PartialEq, Eq, Structural)]
pub enum Phase {
    /// The time of the next check.
    Waiting,
    /// The list of sites.
    Loading,
    /// The feeds of the sites.
    Fetching,
    /// The email to be sent.
    Sending,
    /// The list of sites to be saved.
    Saving,
    /// Nothing any more: the email could not be written.
    Stopped,
}

/// What has happened.
#[derive(Debug)]
pub enum Event {
    /// It is time for a check.
    Tick,
    /// The list of sites was loaded, or could not be.
    Loaded(Result<Vec<Site>, SitesIoError>),
    /// The feed of each site was fetched, or could not be.
    Fetched(Vec<Result<Vec<u8>, String>>),
    /// The email was sent, or could not be.
    Sent(Result<(), SendEmailError>),
    /// The list of sites was saved, or could not be.
    Saved(Result<(), SitesIoError>),
}

/// What is to be done.
#[derive(Debug)]
pub enum Action {
    /// Wait until it is time for the next check.
    Wait,
    /// Load the list of sites.
    Load,
    /// Fetch the feeds at these addresses.
    Fetch(Vec<String>),
    /// Send an email with this subject and this body.
    Send(String, String),
    /// Save the list of sites.
    Save,
    /// Give up: the email could not be written.
    Stop(handlebars::RenderError),
}

/// The task.
#[derive(Debug)]
pub struct EmailTask {
    phase: Phase,
    sites: Vec<Site>,
    checks: Vec<SiteCheck>,
}

/// What the task knows: what it waits for, the sites, the new items that the last check has
/// found at each site, and why it has failed there if it has.
pub struct TaskView {
    pub phase: Phase,
    pub sites: Seq<SiteView>,
    pub found: Seq<Seq<ItemView>>,
    pub failures: Seq<Option<CheckSiteError>>,
}

/// Why checks have failed, if they have, check by check.
pub open spec fn failures_of(checks: Seq<SiteCheck>) -> Seq<Option<CheckSiteError>> {
    checks.map_values(|check: SiteCheck| check.failure)
}

impl View for EmailTask {
    type V = TaskView;

    closed spec fn view(&self) -> TaskView {
        TaskView {
            phase: self.phase,
            sites: site_views(self.sites@),
            found: found_by(self.checks@),
            failures: failures_of(self.checks@),
        }
    }
}

/// Whether `event` is what the task waits for.
pub open spec fn is_awaited(task: TaskView, event: Event) -> bool {
    match event {
        Event::Tick => task.phase == Phase::Waiting,
        Event::Loaded(_) => task.phase == Phase::Loading,
        Event::Fetched(feeds) => task.phase == Phase::Fetching && feeds@.len()
            == task.sites.len(),
        Event::Sent(_) => task.phase == Phase::Sending,
        Event::Saved(_) => task.phase == Phase::Saving,
    }
}

/// The addresses of the sites.
pub open spec fn urls_of(sites: Seq<SiteView>) -> Seq<Seq<char>> {
    sites.map_values(|site: SiteView| site.url)
}

/// What a check finds at each site, in the feeds that were fetched.
pub open spec fn found_at(sites: Seq<SiteView>, feeds: Seq<Result<Vec<u8>, String>>) -> Seq<
    Seq<ItemView>,
> {
    Seq::new(
        sites.len(),
        |i: int| found_items(fetched_bytes(feeds[i]), sites[i].last_accessed),
    )
}

/// Whether `failures` says of each site why its check has failed, if it has.
pub open spec fn are_reasons(
    failures: Seq<Option<CheckSiteError>>,
    sites: Seq<SiteView>,
    feeds: Seq<Result<Vec<u8>, String>>,
) -> bool {
    &&& failures.len() == sites.len()
    &&& forall|i: int|
        0 <= i < sites.len() ==> match #[trigger] failures[i] {
            None => checked_items(fetched_bytes(feeds[i]), sites[i].last_accessed) is Some,
            Some(error) => {
                &&& checked_items(fetched_bytes(feeds[i]), sites[i].last_accessed) is None
                &&& is_reason(error, feeds[i])
            },
        }
}

/// Whether all items of the feed were found at each site that was never accessed, unless its
/// check has failed.
pub open spec fn all_found_at_first(
    found: Seq<Seq<ItemView>>,
    sites: Seq<SiteView>,
    feeds: Seq<Result<Vec<u8>, String>>,
) -> bool {
    forall|i: int|
        0 <= i < sites.len() && sites[i].last_accessed == beginning() && checked_items(
            fetched_bytes(feeds[i]),
            sites[i].last_accessed,
        ) is Some ==> Some(#[trigger] found[i]) == channel_items(fetched_bytes(feeds[i])->0)
}

/// The sites of `before` once those where something was found have been accessed, each at its
/// time.
pub open spec fn accessed_at(
    before: Seq<SiteView>,
    found: Seq<Seq<ItemView>>,
    times: Seq<(int, int)>,
) -> Seq<SiteView> {
    Seq::new(
        before.len(),
        |i: int|
            if found[i].len() > 0 {
                SiteView { last_accessed: times[i], ..before[i] }
            } else {
                before[i]
            },
    )
}

/// Whether `after` are the sites of `before` once those where something was found have been
/// accessed: at those the time of the last access is that of a clock, all else is as it was.
pub open spec fn accessed(
    before: Seq<SiteView>,
    found: Seq<Seq<ItemView>>,
    after: Seq<SiteView>,
) -> bool {
    &&& after.len() == before.len()
    &&& forall|i: int|
        0 <= i < before.len() ==> if found[i].len() > 0 {
            &&& (#[trigger] after[i]) == SiteView {
                last_accessed: after[i].last_accessed,
                ..before[i]
            }
            &&& is_clock_time(after[i].last_accessed)
            &&& exists|now: Reading| (#[trigger] now@) == after[i].last_accessed
        } else {
            after[i] == before[i]
        }
}

/// What follows on an event that the task has waited for: what the task is to do, and what it
/// knows then.
pub open spec fn follows(
    before: TaskView,
    event: Event,
    templates: Templates,
    after: TaskView,
    action: Action,
) -> bool {
    match event {
        // It is time: the sites are loaded anew.
        Event::Tick => {
            &&& action == Action::Load
            &&& after == TaskView { phase: Phase::Loading, ..before }
        },
        // Sites that could not be loaded are checked as they were known before.
        Event::Loaded(loaded) => {
            &&& after.phase == Phase::Fetching
            &&& after.sites == match loaded {
                Ok(sites) => site_views(sites@),
                Err(_) => before.sites,
            }
            &&& after.found == Seq::<Seq<ItemView>>::empty()
            &&& after.failures == Seq::<Option<CheckSiteError>>::empty()
            &&& action is Fetch
            &&& texts(action->Fetch_0@) == urls_of(after.sites)
        },
        // Nothing new is nothing to tell; else the email tells of every site with new items.
        Event::Fetched(feeds) => {
            let updates = updates_of(before.sites, after.found);
            &&& after.sites == before.sites
            &&& after.found == found_at(before.sites, feeds@)
            &&& all_found_at_first(after.found, before.sites, feeds@)
            &&& are_reasons(after.failures, before.sites, feeds@)
            &&& if updates.len() == 0 {
                after.phase == Phase::Waiting && action == Action::Wait
            } else if body_of(templates, updates) is Some {
                &&& after.phase == Phase::Sending
                &&& action is Send
                &&& action->Send_0@ == subject_of(updates)
                &&& Some(action->Send_1@) == body_of(templates, updates)
            } else {
                after.phase == Phase::Stopped && action is Stop
            }
        },
        // An email that was not sent is as if nothing had been found.
        Event::Sent(Err(_)) => {
            &&& action == Action::Wait
            &&& after == TaskView { phase: Phase::Waiting, ..before }
        },
        // The sites that the email told of have been accessed.
        Event::Sent(Ok(())) => {
            &&& action == Action::Save
            &&& after.phase == Phase::Saving
            &&& after.found == before.found
            &&& after.failures == before.failures
            &&& accessed(before.sites, before.found, after.sites)
        },
        // Whether the sites were saved or not, the next check is awaited.
        Event::Saved(_) => {
            &&& action == Action::Wait
            &&& after == TaskView { phase: Phase::Waiting, ..before }
        },
    }
}

/// Notes that a site was accessed at `now`.
pub fn mark_accessed(site: &mut Site, now: Timestamp)
    ensures
        *final(site) == (Site { last_accessed: now, ..*old(site) }),
{
    site.last_accessed = now;
}

/// Notes that the sites with new items were accessed, each at its time; `checks` holds the check
/// of each site, and `times` a time for each.
pub fn mark_updated(sites: &mut Vec<Site>, checks: &Vec<SiteCheck>, times: &Vec<Timestamp>)
    requires
        old(sites)@.len() == checks@.len(),
        old(sites)@.len() == times@.len(),
    ensures
        site_views(final(sites)@) == accessed_at(
            site_views(old(sites)@),
            found_by(checks@),
            instants(times@),
        ),
{
    let ghost expected = accessed_at(site_views(sites@), found_by(checks@), instants(times@));
    let mut i: usize = 0;
    while i < sites.len()
        invariant
            i <= sites.len(),
            sites@.len() == checks@.len(),
            sites@.len() == times@.len(),
            sites@.len() == old(sites)@.len(),
            expected == accessed_at(
                site_views(old(sites)@),
                found_by(checks@),
                instants(times@),
            ),
            forall|j: int| i <= j < sites@.len() ==> #[trigger] sites@[j] == old(sites)@[j],
            forall|j: int| 0 <= j < i ==> (#[trigger] sites@[j])@ == expected[j],
        decreases sites.len() - i,
    {
        assert(found_by(checks@)[i as int] == item_views(checks@[i as int].new_items@));
        assert(sites@[i as int] == old(sites)@[i as int]);
        if checks[i].new_items.len() > 0 {
            let now = times[i];
            mark_accessed(&mut sites[i], now);
        }
        assert(sites@[i as int]@ == expected[i as int]);
        i += 1;
    }
    assert(site_views(sites@) == expected);
}

/// Reads the clock `count` times.
fn clock_times(count: usize) -> (times: Vec<Timestamp>)
    ensures
        times@.len() == count,
        forall|i: int|
            0 <= i < count ==> {
                &&& is_clock_time((#[trigger] times@[i])@)
                &&& exists|now: Reading| (#[trigger] now@) == times@[i]@
            },
{
    let mut times: Vec<Timestamp> = Vec::new();
    while times.len() < count
        invariant
            times@.len() <= count,
            forall|i: int|
                0 <= i < times@.len() ==> {
                    &&& is_clock_time((#[trigger] times@[i])@)
                    &&& exists|now: Reading| (#[trigger] now@) == times@[i]@
                },
        decreases count - times.len(),
    {
        let now = utc_now();
        times.push(now.time());
        assert(now@ == times@.last()@);
    }
    times
}

/// Copies the addresses of the sites.
fn copy_urls(sites: &Vec<Site>) -> (urls: Vec<String>)
    ensures
        texts(urls@) == urls_of(site_views(sites@)),
{
    let mut urls: Vec<String> = Vec::new();
    let mut i: usize = 0;
    while i < sites.len()
        invariant
            i <= sites.len(),
            urls@.len() == i,
            forall|j: int| 0 <= j < i ==> (#[trigger] urls@[j])@ == sites@[j].url@,
        decreases sites.len() - i,
    {
        urls.push(sites[i].url.clone());
        i += 1;
    }
    assert(texts(urls@) == urls_of(site_views(sites@)));
    urls
}

/// Checks every site, in the feeds that were fetched.
fn check_sites(sites: &Vec<Site>, feeds: &Vec<Result<Vec<u8>, String>>) -> (checks: Vec<SiteCheck>)
    requires
        sites@.len() == feeds@.len(),
    ensures
        checks@.len() == sites@.len(),
        found_by(checks@) == found_at(site_views(sites@), feeds@),
        all_found_at_first(found_by(checks@), site_views(sites@), feeds@),
        are_reasons(failures_of(checks@), site_views(sites@), feeds@),
{
    let mut checks: Vec<SiteCheck> = Vec::new();
    let mut i: usize = 0;
    while i < sites.len()
        invariant
            i <= sites.len(),
            sites@.len() == feeds@.len(),
            checks@.len() == i,
            forall|j: int|
                0 <= j < i ==> item_views((#[trigger] checks@[j]).new_items@) == found_items(
                    fetched_bytes(feeds@[j]),
                    sites@[j]@.last_accessed,
                ),
            forall|j: int|
                0 <= j < i && sites@[j]@.last_accessed == beginning() && (
                #[trigger] checks@[j]).failure is None ==> Some(item_views(checks@[j].new_items@))
                    == channel_items(fetched_bytes(feeds@[j])->0),
            forall|j: int|
                0 <= j < i ==> match (#[trigger] checks@[j]).failure {
                    None => checked_items(fetched_bytes(feeds@[j]), sites@[j]@.last_accessed)
                        is Some,
                    Some(error) => {
                        &&& checked_items(fetched_bytes(feeds@[j]), sites@[j]@.last_accessed)
                            is None
                        &&& is_reason(error, feeds@[j])
                    },
                },
        decreases sites.len() - i,
    {
        let check = check_site(&sites[i], &feeds[i]);
        checks.push(check);
        i += 1;
    }
    assert(found_by(checks@) == found_at(site_views(sites@), feeds@));
    proof {
        let views = site_views(sites@);
        let found = found_by(checks@);
        let failures = failures_of(checks@);
        assert forall|j: int|
            0 <= j < views.len() && views[j].last_accessed == beginning() && checked_items(
                fetched_bytes(feeds@[j]),
                views[j].last_accessed,
            ) is Some implies Some(#[trigger] found[j]) == channel_items(
            fetched_bytes(feeds@[j])->0,
        ) by {
            assert(checks@[j].failure is None);
        }
        assert forall|j: int| 0 <= j < views.len() implies match #[trigger] failures[j] {
            None => checked_items(fetched_bytes(feeds@[j]), views[j].last_accessed) is Some,
            Some(error) => {
                &&& checked_items(fetched_bytes(feeds@[j]), views[j].last_accessed) is None
                &&& is_reason(error, feeds@[j])
            },
        } by {
            assert(failures[j] == checks@[j].failure);
        }
    }
    checks
}

impl EmailTask {
    #[verifier::type_invariant]
    spec fn well_formed(self) -> bool {
        self.phase == Phase::Sending ==> self.checks@.len() == self.sites@.len()
    }

    /// The task at its start, with the sites as they were loaded first.
    pub fn new(sites: Vec<Site>) -> (task: EmailTask)
        ensures
            task@ == (TaskView {
                phase: Phase::Waiting,
                sites: site_views(sites@),
                found: Seq::empty(),
                failures: Seq::empty(),
            }),
    {
        let checks: Vec<SiteCheck> = Vec::new();
        assert(found_by(checks@) == Seq::<Seq<ItemView>>::empty());
        assert(failures_of(checks@) == Seq::<Option<CheckSiteError>>::empty());
        EmailTask { phase: Phase::Waiting, sites, checks }
    }

    /// What the task waits for.
    pub fn phase(&self) -> (phase: Phase)
        ensures
            phase == self@.phase,
    {
        self.phase
    }

    /// The sites that the task knows.
    pub fn sites(&self) -> (sites: &Vec<Site>)
        ensures
            site_views(sites@) == self@.sites,
    {
        &self.sites
    }

    /// What the last check has found at each site, and why it has failed there if it has.
    pub fn checks(&self) -> (checks: &Vec<SiteCheck>)
        ensures
            found_by(checks@) == self@.found,
            failures_of(checks@) == self@.failures,
    {
        &self.checks
    }

    /// Whether `event` is what the task waits for.
    pub fn awaits(&self, event: &Event) -> (answer: bool)
        ensures
            answer == is_awaited(self@, *event),
    {
        match event {
            Event::Tick => self.phase == Phase::Waiting,
            Event::Loaded(_) => self.phase == Phase::Loading,
            Event::Fetched(feeds) => self.phase == Phase::Fetching && feeds.len()
                == self.sites.len(),
            Event::Sent(_) => self.phase == Phase::Sending,
            Event::Saved(_) => self.phase == Phase::Saving,
        }
    }

    /// Tells the task what has happened: it goes on, and says what is to be done next.
    pub fn step(self, event: Event, templates: &Templates) -> (next: (EmailTask, Action))
        requires
            is_awaited(self@, event),
            event is Fetched ==> rendering_ends(templates.texts(), EMAIL_TEMPLATE@),
        ensures
            follows(self@, event, *templates, next.0@, next.1),
            event == Event::Sent(Ok(())) ==> forall|i: int|
                0 <= i < self@.sites.len() && self@.found[i].len() > 0 ==> {
                    &&& is_clock_time((#[trigger] next.0@.sites[i]).last_accessed)
                    &&& exists|now: Reading| (#[trigger] now@) == next.0@.sites[i].last_accessed
                },
    {
        proof {
            use_type_invariant(&self);
        }
        let EmailTask { phase: _, mut sites, checks } = self;
        match event {
            Event::Tick => (EmailTask { phase: Phase::Loading, sites, checks }, Action::Load),
            Event::Loaded(loaded) => {
                match loaded {
                    Ok(new_sites) => {
                        sites = new_sites;
                    },
                    Err(_) => {},
                }
                let urls = copy_urls(&sites);
                let none: Vec<SiteCheck> = Vec::new();
                assert(found_by(none@) == Seq::<Seq<ItemView>>::empty());
                assert(failures_of(none@) == Seq::<Option<CheckSiteError>>::empty());
                (
                    EmailTask { phase: Phase::Fetching, sites, checks: none },
                    Action::Fetch(urls),
                )
            },
            Event::Fetched(feeds) => {
                let checks = check_sites(&sites, &feeds);
                let updates = collect_updates(&sites, &checks);
                assert(updates@.len() == update_views(updates@).len());
                if updates.len() == 0 {
                    (EmailTask { phase: Phase::Waiting, sites, checks }, Action::Wait)
                } else {
                    match generate_email(templates, &updates) {
                        Ok((subject, body)) => (
                            EmailTask { phase: Phase::Sending, sites, checks },
                            Action::Send(subject, body),
                        ),
                        Err(error) => (
                            EmailTask { phase: Phase::Stopped, sites, checks },
                            Action::Stop(error),
                        ),
                    }
                }
            },
            Event::Sent(Err(_)) => (
                EmailTask { phase: Phase::Waiting, sites, checks },
                Action::Wait,
            ),
            Event::Sent(Ok(())) => {
                let times = clock_times(sites.len());
                let ghost before = site_views(sites@);
                mark_updated(&mut sites, &checks, &times);
                proof {
                    let after = site_views(sites@);
                    assert forall|i: int|
                        0 <= i < before.len() && found_by(checks@)[i].len() > 0 implies (
                    #[trigger] after[i]).last_accessed == times@[i]@ by {}
                }
                (EmailTask { phase: Phase::Saving, sites, checks }, Action::Save)
            },
            Event::Saved(_) => (EmailTask { phase: Phase::Waiting, sites, checks }, Action::Wait),
        }
    }
}

} // verus!
