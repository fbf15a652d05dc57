//! The email that tells of new items.

use crate::feed::{item_views, FeedItem, ItemView, SiteCheck};
use crate::rss_sites::{hyphenated, id_text, site_views, Site, SiteView};
use crate::templates::{rendered, rendering_ends, Templates, EMAIL_TEMPLATE};
use crate::text::{
    comma_separated, decimal, json_string, quote, separate_by_commas, texts, to_decimal,
};
use crate::time::rfc3339_text;
use vstd::prelude::*;

verus! {

/// A site, and the items that are new there.
#[derive(Debug)]
pub struct Update<'a> {
    pub site: &'a Site,
    pub items: &'a Vec<FeedItem>,
}

/// What an update tells.
pub struct UpdateView {
    pub site: SiteView,
    pub items: Seq<ItemView>,
}

impl<'a> View for Update<'a> {
    type V = UpdateView;

    open spec fn view(&self) -> UpdateView {
        UpdateView { site: self.site@, items: item_views(self.items@) }
    }
}

/// What the updates of a list tell.
pub open spec fn update_views(updates: Seq<Update>) -> Seq<UpdateView> {
    updates.map_values(|update: Update| update@)
}

/// The sites at which something was found, in their order, with what was found; `found` holds
/// the items found at each site.
pub open spec fn updates_of(sites: Seq<SiteView>, found: Seq<Seq<ItemView>>) -> Seq<UpdateView>
    decreases sites.len(),
{
    if sites.len() == 0 {
        Seq::empty()
    } else {
        let before = updates_of(sites.drop_last(), found.drop_last());
        if found.last().len() > 0 {
            before.push(UpdateView { site: sites.last(), items: found.last() })
        } else {
            before
        }
    }
}

/// The items that checks have found, check by check.
pub open spec fn found_by(checks: Seq<SiteCheck>) -> Seq<Seq<ItemView>> {
    checks.map_values(|check: SiteCheck| item_views(check.new_items@))
}

/// Picks the sites at which something new was found; `checks` holds the check of each site.
pub fn collect_updates<'a>(sites: &'a Vec<Site>, checks: &'a Vec<SiteCheck>) -> (updates: Vec<
    Update<'a>,
>)
    requires
        sites@.len() == checks@.len(),
    ensures
        update_views(updates@) == updates_of(site_views(sites@), found_by(checks@)),
{
    let mut updates: Vec<Update<'a>> = Vec::new();
    let mut i: usize = 0;
    assert(update_views(updates@) == updates_of(
        site_views(sites@).take(0),
        found_by(checks@).take(0),
    ));
    while i < sites.len()
        invariant
            i <= sites.len(),
            sites@.len() == checks@.len(),
            update_views(updates@) == updates_of(
                site_views(sites@).take(i as int),
                found_by(checks@).take(i as int),
            ),
        decreases sites.len() - i,
    {
        proof {
            let longer = site_views(sites@).take(i + 1);
            let found = found_by(checks@).take(i + 1);
            assert(longer.drop_last() == site_views(sites@).take(i as int));
            assert(found.drop_last() == found_by(checks@).take(i as int));
            assert(longer.last() == sites@[i as int]@);
            assert(found.last() == item_views(checks@[i as int].new_items@));
        }
        if checks[i].new_items.len() > 0 {
            let ghost before = updates@;
            let update = Update { site: &sites[i], items: &checks[i].new_items };
            updates.push(update);
            assert(update_views(updates@) == update_views(before).push(update@));
        }
        i += 1;
    }
    assert(site_views(sites@).take(sites.len() as int) == site_views(sites@));
    assert(found_by(checks@).take(sites.len() as int) == found_by(checks@));
    updates
}

/// What a site is called: its name, or its address where it has none.
pub open spec fn display_name(site: SiteView) -> Seq<char> {
    match site.name {
        Some(name) => name,
        None => site.url,
    }
}

/// The subject of the email: the site if there is one, else how many there are.
pub open spec fn subject_of(updates: Seq<UpdateView>) -> Seq<char> {
    if updates.len() == 1 {
        "New updates from "@ + display_name(updates[0].site)
    } else {
        "New updates from "@ + decimal(updates.len()) + " feeds"@
    }
}

/// Writes the subject of the email.
pub fn email_subject(updates: &Vec<Update>) -> (subject: String)
    ensures
        subject@ == subject_of(update_views(updates@)),
{
    let mut subject = "New updates from ".to_string();
    if updates.len() == 1 {
        assert(update_views(updates@)[0] == updates@[0]@);
        match &updates[0].site.name {
            Some(name) => subject.append(name.as_str()),
            None => subject.append(updates[0].site.url.as_str()),
        }
    } else {
        subject.append(to_decimal(updates.len()).as_str());
        subject.append(" feeds");
    }
    subject
}

/// The name of a site as JSON.
pub open spec fn name_json(name: Option<Seq<char>>) -> Seq<char> {
    match name {
        Some(name) => json_string(name),
        None => "null"@,
    }
}

/// A site as a JSON object.
pub open spec fn site_json(site: SiteView) -> Seq<char> {
    "{\"uuid\":"@ + json_string(hyphenated(site.uuid)) + ",\"name\":"@ + name_json(site.name)
        + ",\"url\":"@ + json_string(site.url) + ",\"last_accessed\":"@ + json_string(
        rfc3339_text(site.last_accessed.0, site.last_accessed.1),
    ) + "}"@
}

/// Writes a site as a JSON object.
pub fn site_to_json(site: &Site) -> (json: String)
    ensures
        json@ == site_json(site@),
{
    let mut json = "{\"uuid\":".to_string();
    json.append(quote(id_text(site.uuid).as_str()).as_str());
    json.append(",\"name\":");
    match &site.name {
        Some(name) => json.append(quote(name.as_str()).as_str()),
        None => json.append("null"),
    }
    json.append(",\"url\":");
    json.append(quote(site.url.as_str()).as_str());
    json.append(",\"last_accessed\":");
    json.append(quote(site.last_accessed.to_text().as_str()).as_str());
    json.append("}");
    json
}

/// The JSON objects of items.
pub open spec fn item_fields(items: Seq<ItemView>) -> Seq<Seq<char>> {
    items.map_values(|item: ItemView| item.fields)
}

/// An update as JSON: the site and the array of its items, in an array.
pub open spec fn update_json(update: UpdateView) -> Seq<char> {
    "["@ + site_json(update.site) + ",["@ + comma_separated(item_fields(update.items)) + "]]"@
}

/// Writes an update as JSON.
pub fn update_to_json(update: &Update) -> (json: String)
    ensures
        json@ == update_json(update@),
{
    let mut fields: Vec<String> = Vec::new();
    let mut i: usize = 0;
    while i < update.items.len()
        invariant
            i <= update.items.len(),
            fields@.len() == i,
            forall|j: int| 0 <= j < i ==> (#[trigger] fields@[j])@ == update.items@[j].fields@,
        decreases update.items.len() - i,
    {
        fields.push(update.items[i].fields.clone());
        i += 1;
    }
    assert(texts(fields@) == item_fields(update@.items));
    let mut json = "[".to_string();
    json.append(site_to_json(update.site).as_str());
    json.append(",[");
    json.append(separate_by_commas(&fields).as_str());
    json.append("]]");
    json
}

/// What the email's template is rendered with: a JSON array of the updates.
pub open spec fn email_data(updates: Seq<UpdateView>) -> Seq<char> {
    "["@ + comma_separated(updates.map_values(|update: UpdateView| update_json(update))) + "]"@
}

/// Writes what the email's template is rendered with.
pub fn email_data_json(updates: &Vec<Update>) -> (json: String)
    ensures
        json@ == email_data(update_views(updates@)),
{
    let mut parts: Vec<String> = Vec::new();
    let mut i: usize = 0;
    while i < updates.len()
        invariant
            i <= updates.len(),
            parts@.len() == i,
            forall|j: int| 0 <= j < i ==> (#[trigger] parts@[j])@ == update_json(updates@[j]@),
        decreases updates.len() - i,
    {
        parts.push(update_to_json(&updates[i]));
        i += 1;
    }
    assert(texts(parts@) == update_views(updates@).map_values(
        |update: UpdateView| update_json(update),
    ));
    let mut json = "[".to_string();
    json.append(separate_by_commas(&parts).as_str());
    json.append("]");
    json
}

/// The body of the email, or `None` where the template cannot be rendered.
pub open spec fn body_of(templates: Templates, updates: Seq<UpdateView>) -> Option<Seq<char>> {
    rendered(templates.texts(), EMAIL_TEMPLATE@, true, email_data(updates))
}

/// Writes the email that tells of `updates`: its subject and its body.
pub fn generate_email(templates: &Templates, updates: &Vec<Update>) -> (email: Result<
    (String, String),
    handlebars::RenderError,
>)
    requires
        rendering_ends(templates.texts(), EMAIL_TEMPLATE@),
    ensures
        email is Ok <==> body_of(*templates, update_views(updates@)) is Some,
        email is Ok ==> email->Ok_0.0@ == subject_of(update_views(updates@)),
        email is Ok ==> Some(email->Ok_0.1@) == body_of(*templates, update_views(updates@)),
{
    let subject = email_subject(updates);
    let data = email_data_json(updates);
    match templates.render_email(data.as_str()) {
        Ok(body) => Ok((subject, body)),
        Err(error) => Err(error),
    }
}

} // verus!
