//! What holds of the email: it tells all that it should, and can be read so.

use crate::email::{
    body_of, display_name, email_data, site_json, subject_of, update_json, update_views, updates_of,
    Update, UpdateView,
};
use crate::feed::{FeedItem, ItemView};
use crate::json::{
    array_reads_back, elements, is_array, is_element, is_object, member_is_element,
    object_reads_back, string_is_element, word_is_element,
};
use crate::rss_sites::{hyphenated, Site, SiteView};
use crate::templates::{rendered, Templates};
use crate::text::{comma_separated, decimal, digit, json_string, optional_text, texts};
use crate::time::rfc3339_text;
use vstd::prelude::*;

verus! {

/// What a text of decimal digits stands for.
pub open spec fn number_read(text: Seq<char>) -> int
    decreases text.len(),
{
    if text.len() == 0 {
        0
    } else {
        10 * number_read(text.drop_last()) + (text.last() as int - '0' as int)
    }
}

/// A number in decimal is made of digits, begins with no zero unless it is zero, and reads back
/// as the number.
pub proof fn decimal_reads_back(n: nat)
    ensures
        number_read(decimal(n)) == n,
        decimal(n).len() > 0,
        forall|i: int| 0 <= i < decimal(n).len() ==> '0' <= #[trigger] decimal(n)[i] <= '9',
        n > 0 ==> decimal(n)[0] != '0',
        n == 0 ==> decimal(n).len() == 1,
    decreases n,
{
    if n < 10 {
        let text = seq![digit(n)];
        assert(text.drop_last() == Seq::<char>::empty());
        assert(number_read(Seq::<char>::empty()) == 0);
        assert(number_read(text) == digit(n) as int - '0' as int);
    } else {
        decimal_reads_back(n / 10);
        let text = decimal(n);
        assert(text.drop_last() == decimal(n / 10));
        assert(text.last() == digit(n % 10));
        assert forall|i: int| 0 <= i < text.len() implies '0' <= #[trigger] text[i] <= '9' by {
            if i < decimal(n / 10).len() {
                assert(text[i] == decimal(n / 10)[i]);
            }
        }
        assert(text[0] == decimal(n / 10)[0]);
    }
}

/// Two lists of texts, joined with commas, are joined by one comma; one text alone is joined
/// by none.
pub proof fn joining_joins(a: Seq<Seq<char>>, b: Seq<Seq<char>>, text: Seq<char>)
    ensures
        comma_separated(Seq::<Seq<char>>::empty()) == Seq::<char>::empty(),
        comma_separated(seq![text]) == text,
        a.len() > 0 && b.len() > 0 ==> comma_separated(a + b) == comma_separated(a) + seq![',']
            + comma_separated(b),
    decreases b.len(),
{
    reveal_strlit(",");
    assert(","@ == seq![',']);
    if a.len() > 0 && b.len() > 0 {
        let joined = a + b;
        assert(joined.drop_last() == a + b.drop_last());
        assert(joined.last() == b.last());
        if b.len() == 1 {
            assert(joined.drop_last() == a);
        } else {
            joining_joins(a, b.drop_last(), text);
            assert(comma_separated(joined) == comma_separated(a) + seq![','] + comma_separated(b));
        }
    }
}

/// The subject of an email of one site ends in the site's name, or in its address where it has
/// no name.
pub proof fn subject_names_the_site(update: UpdateView)
    ensures
        update.site.name is Some ==> subject_of(seq![update]) == "New updates from "@
            + update.site.name->0,
        update.site.name is None ==> subject_of(seq![update]) == "New updates from "@
            + update.site.url,
        update.site.name is Some ==> display_name(update.site) == update.site.name->0,
{
}

/// The subject of an email of any other number of sites tells the number, in decimal.
pub proof fn subject_counts_the_sites(updates: Seq<UpdateView>)
    requires
        updates.len() != 1,
    ensures
        exists|count: Seq<char>|
            {
                &&& subject_of(updates) == "New updates from "@ + #[trigger] (count + " feeds"@)
                &&& count.len() > 0
                &&& forall|i: int| 0 <= i < count.len() ==> '0' <= #[trigger] count[i] <= '9'
                &&& updates.len() > 0 ==> count[0] != '0'
                &&& number_read(count) == updates.len()
            },
{
    decimal_reads_back(updates.len());
    let count = decimal(updates.len());
    assert(subject_of(updates) == "New updates from "@ + (count + " feeds"@));
}

/// The members of a site's object.
pub open spec fn site_members(site: SiteView) -> Seq<Seq<char>> {
    seq![
        "\"uuid\":"@ + json_string(hyphenated(site.uuid)),
        "\"name\":"@ + if site.name is Some {
            json_string(site.name->0)
        } else {
            "null"@
        },
        "\"url\":"@ + json_string(site.url),
        "\"last_accessed\":"@ + json_string(
            rfc3339_text(site.last_accessed.0, site.last_accessed.1),
        ),
    ]
}

/// The JSON of a site is an object, which is read as having four members: the identifier, the
/// name or nothing, the address, and the time of the last access.
pub proof fn site_reads_back(site: SiteView)
    ensures
        is_object(site_json(site)),
        is_element(site_json(site)),
        elements(site_json(site)).len() == 4,
        elements(site_json(site))[0] == "\"uuid\":"@ + json_string(hyphenated(site.uuid)),
        elements(site_json(site))[1] == "\"name\":"@ + if site.name is Some {
            json_string(site.name->0)
        } else {
            "null"@
        },
        elements(site_json(site))[2] == "\"url\":"@ + json_string(site.url),
        elements(site_json(site))[3] == "\"last_accessed\":"@ + json_string(
            rfc3339_text(site.last_accessed.0, site.last_accessed.1),
        ),
{
    reveal_strlit("\"uuid\":");
    reveal_strlit("\"name\":");
    reveal_strlit("\"url\":");
    reveal_strlit("\"last_accessed\":");
    reveal_strlit("{\"uuid\":");
    reveal_strlit(",\"name\":");
    reveal_strlit(",\"url\":");
    reveal_strlit(",\"last_accessed\":");
    reveal_strlit("null");
    reveal_strlit("}");
    reveal_strlit(",");
    let id = json_string(hyphenated(site.uuid));
    let name = if site.name is Some {
        json_string(site.name->0)
    } else {
        "null"@
    };
    let url = json_string(site.url);
    let last = json_string(rfc3339_text(site.last_accessed.0, site.last_accessed.1));
    string_is_element(hyphenated(site.uuid));
    string_is_element(site.url);
    string_is_element(rfc3339_text(site.last_accessed.0, site.last_accessed.1));
    if site.name is Some {
        string_is_element(site.name->0);
    } else {
        word_is_element("null"@);
    }
    member_is_element(seq!['u', 'u', 'i', 'd'], id);
    member_is_element(seq!['n', 'a', 'm', 'e'], name);
    member_is_element(seq!['u', 'r', 'l'], url);
    member_is_element(
        seq!['l', 'a', 's', 't', '_', 'a', 'c', 'c', 'e', 's', 's', 'e', 'd'],
        last,
    );
    let quote = seq!['"'];
    let colon = seq!['"', ':'];
    assert("\"uuid\":"@ == quote + seq!['u', 'u', 'i', 'd'] + colon);
    assert("\"name\":"@ == quote + seq!['n', 'a', 'm', 'e'] + colon);
    assert("\"url\":"@ == quote + seq!['u', 'r', 'l'] + colon);
    assert("\"last_accessed\":"@ == quote + seq![
        'l',
        'a',
        's',
        't',
        '_',
        'a',
        'c',
        'c',
        'e',
        's',
        's',
        'e',
        'd',
    ] + colon);
    let members = site_members(site);
    assert(members[0] == "\"uuid\":"@ + id);
    assert(members[1] == "\"name\":"@ + name);
    assert(members[2] == "\"url\":"@ + url);
    assert(members[3] == "\"last_accessed\":"@ + last);
    assert forall|i: int| 0 <= i < members.len() implies is_element(#[trigger] members[i]) by {
        assert(i == 0 || i == 1 || i == 2 || i == 3);
    }
    object_reads_back(members);
    let two = members.drop_last().drop_last();
    assert(two.drop_last() == seq![members[0]]);
    assert(comma_separated(two.drop_last()) == members[0]);
    assert(comma_separated(two) == members[0] + ","@ + members[1]);
    assert(comma_separated(members.drop_last()) == members[0] + ","@ + members[1] + ","@
        + members[2]);
    assert(comma_separated(members) == members[0] + ","@ + members[1] + ","@ + members[2] + ","@
        + members[3]);
    assert("{\"uuid\":"@ == seq!['{'] + "\"uuid\":"@);
    assert(",\"name\":"@ == ","@ + "\"name\":"@);
    assert(",\"url\":"@ == ","@ + "\"url\":"@);
    assert(",\"last_accessed\":"@ == ","@ + "\"last_accessed\":"@);
    assert("}"@ == seq!['}']);
    assert(site_json(site) == seq!['{'] + comma_separated(members) + seq!['}']);
}

/// The JSON of an update is an array of two elements, the site and the array of its items. This
/// holds every item, in order, where the items are JSON themselves.
pub proof fn update_reads_back(update: UpdateView)
    requires
        forall|k: int| 0 <= k < update.items.len() ==> is_element((#[trigger] update.items[k]).fields),
    ensures
        is_array(update_json(update)),
        is_element(update_json(update)),
        elements(update_json(update)).len() == 2,
        elements(update_json(update))[0] == site_json(update.site),
        is_array(elements(update_json(update))[1]),
        elements(elements(update_json(update))[1]).len() == update.items.len(),
        forall|k: int|
            0 <= k < update.items.len() ==> #[trigger] elements(
                elements(update_json(update))[1],
            )[k] == update.items[k].fields,
{
    reveal_strlit("[");
    reveal_strlit(",[");
    reveal_strlit("]]");
    reveal_strlit(",");
    let fields = update.items.map_values(|item: ItemView| item.fields);
    assert forall|k: int| 0 <= k < fields.len() implies is_element(#[trigger] fields[k]) by {
        assert(is_element(update.items[k].fields));
    }
    array_reads_back(fields);
    let items = seq!['['] + comma_separated(fields) + seq![']'];
    site_reads_back(update.site);
    let pair = seq![site_json(update.site), items];
    assert forall|i: int| 0 <= i < pair.len() implies is_element(#[trigger] pair[i]) by {
        assert(i == 0 || i == 1);
    }
    array_reads_back(pair);
    assert(pair.drop_last() == seq![site_json(update.site)]);
    assert(comma_separated(pair.drop_last()) == site_json(update.site));
    assert(comma_separated(pair) == site_json(update.site) + ","@ + items);
    assert("["@ == seq!['[']);
    assert(",["@ == ","@ + seq!['[']);
    assert("]]"@ == seq![']'] + seq![']']);
    assert(update_json(update) == seq!['['] + comma_separated(pair) + seq![']']);
}

/// The data that the email's template is rendered with is an array with an element for each
/// update, in order; the element holds the site and every new item of the update.
pub proof fn email_data_holds_every_item(updates: Seq<UpdateView>)
    requires
        forall|i: int, k: int|
            0 <= i < updates.len() && 0 <= k < updates[i].items.len() ==> is_element(
                (#[trigger] updates[i].items[k]).fields,
            ),
    ensures
        is_array(email_data(updates)),
        elements(email_data(updates)).len() == updates.len(),
        forall|i: int|
            0 <= i < updates.len() ==> {
                let entry = #[trigger] elements(email_data(updates))[i];
                &&& is_array(entry)
                &&& elements(entry).len() == 2
                &&& elements(entry)[0] == site_json(updates[i].site)
                &&& is_array(elements(entry)[1])
                &&& elements(elements(entry)[1]).len() == updates[i].items.len()
                &&& forall|k: int|
                    0 <= k < updates[i].items.len() ==> #[trigger] elements(elements(entry)[1])[k]
                        == updates[i].items[k].fields
            },
{
    reveal_strlit("[");
    reveal_strlit("]");
    let entries = updates.map_values(|update: UpdateView| update_json(update));
    assert forall|i: int| 0 <= i < entries.len() implies is_element(#[trigger] entries[i]) by {
        assert forall|k: int| 0 <= k < updates[i].items.len() implies is_element(
            (#[trigger] updates[i].items[k]).fields,
        ) by {}
        update_reads_back(updates[i]);
    }
    array_reads_back(entries);
    assert("["@ == seq!['[']);
    assert("]"@ == seq![']']);
    assert(email_data(updates) == seq!['['] + comma_separated(entries) + seq![']']);
    assert forall|i: int| 0 <= i < updates.len() implies {
        let entry = #[trigger] elements(email_data(updates))[i];
        &&& is_array(entry)
        &&& elements(entry).len() == 2
        &&& elements(entry)[0] == site_json(updates[i].site)
        &&& is_array(elements(entry)[1])
        &&& elements(elements(entry)[1]).len() == updates[i].items.len()
        &&& forall|k: int|
            0 <= k < updates[i].items.len() ==> #[trigger] elements(elements(entry)[1])[k]
                == updates[i].items[k].fields
    } by {
        assert(entries[i] == update_json(updates[i]));
        assert forall|k: int| 0 <= k < updates[i].items.len() implies is_element(
            (#[trigger] updates[i].items[k]).fields,
        ) by {}
        update_reads_back(updates[i]);
    }
}

/// One more item makes the JSON of an update longer by that item, and by a comma if there were
/// items before; nothing else changes, whatever the items hold.
pub proof fn one_more_item(site: SiteView, items: Seq<ItemView>, item: ItemView)
    ensures
        ({
            let before = update_json(UpdateView { site, items });
            let after = update_json(UpdateView { site, items: items.push(item) });
            let comma = if items.len() == 0 {
                Seq::<char>::empty()
            } else {
                seq![',']
            };
            &&& before.len() >= 2
            &&& after == before.take(before.len() - 2) + comma + item.fields + seq![']', ']']
        }),
{
    reveal_strlit("]]");
    reveal_strlit(",");
    let fields = items.map_values(|item: ItemView| item.fields);
    let longer = items.push(item).map_values(|item: ItemView| item.fields);
    assert(longer.drop_last() == fields);
    assert(longer.last() == item.fields);
    assert("]]"@ == seq![']', ']']);
    assert(","@ == seq![',']);
    let before = update_json(UpdateView { site, items });
    let after = update_json(UpdateView { site, items: items.push(item) });
    let head = "["@ + site_json(site) + ",["@;
    assert(before == head + comma_separated(fields) + "]]"@);
    assert(after == head + comma_separated(longer) + "]]"@);
    assert(before.take(before.len() - 2) == head + comma_separated(fields));
    if items.len() == 0 {
        assert(comma_separated(fields) == Seq::<char>::empty());
        assert(longer == seq![item.fields]);
        assert(comma_separated(longer) == item.fields);
    }
}

/// One more update makes the data of the email longer by that update, and by a comma if there
/// were updates before; nothing else changes.
pub proof fn one_more_update(updates: Seq<UpdateView>, update: UpdateView)
    ensures
        ({
            let before = email_data(updates);
            let after = email_data(updates.push(update));
            let comma = if updates.len() == 0 {
                Seq::<char>::empty()
            } else {
                seq![',']
            };
            &&& before.len() >= 2
            &&& after == before.drop_last() + comma + update_json(update) + seq![']']
        }),
{
    reveal_strlit("[");
    reveal_strlit("]");
    reveal_strlit(",");
    let entries = updates.map_values(|update: UpdateView| update_json(update));
    let longer = updates.push(update).map_values(|update: UpdateView| update_json(update));
    assert(longer.drop_last() == entries);
    assert(longer.last() == update_json(update));
    assert("]"@ == seq![']']);
    assert(","@ == seq![',']);
    let before = email_data(updates);
    let after = email_data(updates.push(update));
    assert(before.drop_last() == "["@ + comma_separated(entries));
    if updates.len() == 0 {
        assert(comma_separated(entries) == Seq::<char>::empty());
        assert(longer == seq![update_json(update)]);
        assert(comma_separated(longer) == update_json(update));
    }
    assert(after == "["@ + comma_separated(longer) + "]"@);
}

/// The body of the email is what the template named `email` gives in strict mode, with the data
/// of all updates.
pub proof fn body_is_rendered(templates: Templates, updates: Seq<UpdateView>)
    ensures
        body_of(templates, updates) == rendered(
            templates.texts(),
            "email"@,
            true,
            email_data(updates),
        ),
{
}

/// Updates of two lists of sites are those of the first and then those of the second; a site
/// alone makes an update if something was found there, with all that was found.
pub proof fn updates_follow_the_sites(
    sites: Seq<SiteView>,
    found: Seq<Seq<ItemView>>,
    more_sites: Seq<SiteView>,
    more_found: Seq<Seq<ItemView>>,
    site: SiteView,
    items: Seq<ItemView>,
)
    requires
        sites.len() == found.len(),
        more_sites.len() == more_found.len(),
    ensures
        updates_of(Seq::<SiteView>::empty(), Seq::<Seq<ItemView>>::empty()).len() == 0,
        items.len() > 0 ==> updates_of(seq![site], seq![items]) == seq![UpdateView { site, items }],
        items.len() == 0 ==> updates_of(seq![site], seq![items]).len() == 0,
        updates_of(sites + more_sites, found + more_found) == updates_of(sites, found)
            + updates_of(more_sites, more_found),
    decreases more_sites.len(),
{
    assert(seq![site].drop_last() == Seq::<SiteView>::empty());
    assert(seq![items].drop_last() == Seq::<Seq<ItemView>>::empty());
    assert(updates_of(Seq::<SiteView>::empty(), Seq::<Seq<ItemView>>::empty()).len() == 0);
    if items.len() > 0 {
        assert(updates_of(seq![site], seq![items]) == seq![UpdateView { site, items }]);
    }
    if more_sites.len() == 0 {
        assert(sites + more_sites == sites);
        assert(found + more_found == found);
        assert(updates_of(more_sites, more_found) == Seq::<UpdateView>::empty());
    } else {
        let all_sites = sites + more_sites;
        let all_found = found + more_found;
        assert(all_sites.drop_last() == sites + more_sites.drop_last());
        assert(all_found.drop_last() == found + more_found.drop_last());
        assert(all_sites.last() == more_sites.last());
        assert(all_found.last() == more_found.last());
        updates_follow_the_sites(
            sites,
            found,
            more_sites.drop_last(),
            more_found.drop_last(),
            site,
            items,
        );
        assert(updates_of(all_sites, all_found) == updates_of(sites, found) + updates_of(
            more_sites,
            more_found,
        ));
    }
}

/// What an update is known by is what its site and its items are known by, one by one.
pub proof fn update_is_its_parts(update: Update, updates: Seq<Update>, i: int)
    ensures
        update@.site == update.site@,
        update@.items.len() == update.items@.len(),
        0 <= i < update.items@.len() ==> update@.items[i] == update.items@[i]@,
        update_views(updates).len() == updates.len(),
        0 <= i < updates.len() ==> update_views(updates)[i] == updates[i]@,
{
}

/// What a site and an item are known by are their fields.
pub proof fn fields_are_seen(site: Site, item: FeedItem, strings: Seq<String>, i: int)
    ensures
        site@.uuid == site.uuid,
        site@.name is Some <==> site.name is Some,
        site.name is Some ==> site@.name->0 == site.name->0@,
        site@.url == site.url@,
        site@.last_accessed == site.last_accessed@,
        item@.title is Some <==> item.title is Some,
        item.title is Some ==> item@.title->0 == item.title->0@,
        item@.pub_date is Some <==> item.pub_date is Some,
        item.pub_date is Some ==> item@.pub_date->0 == item.pub_date->0@,
        item@.fields == item.fields@,
        optional_text(site.name) is Some <==> site.name is Some,
        texts(strings).len() == strings.len(),
        0 <= i < strings.len() ==> texts(strings)[i] == strings[i]@,
{
}

} // verus!
