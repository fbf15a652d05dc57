use rss_notifier::email::{
    collect_updates, email_data_json, email_subject, generate_email, site_to_json, update_to_json,
    Update,
};
use rss_notifier::feed::{FeedItem, SiteCheck};
use rss_notifier::rss_sites::Site;
use rss_notifier::templates::{TemplateFault, Templates};
use rss_notifier::text::{separate_by_commas, to_decimal};
use rss_notifier::time::Timestamp;

const EMAIL: &str = "{{#each this}}{{#with this.[0]}}{{name}}|{{url}}|{{uuid}}|{{last_accessed}}\
                     {{/with}}:{{#each this.[1]}}{{title}};{{/each}}\n{{/each}}";

fn site(name: Option<&str>, url: &str) -> Site {
    Site {
        uuid: 0x936da01f_9abd_4d9d_80c7_02af85c822a8,
        name: name.map(|n| n.to_string()),
        url: url.to_string(),
        last_accessed: Timestamp::new(1589709600, 0).unwrap(),
    }
}

fn item(title: &str) -> FeedItem {
    let mut rss_item = rss::Item::default();
    rss_item.set_title(title.to_string());
    FeedItem {
        title: Some(title.to_string()),
        pub_date: None,
        fields: serde_json::to_string(&rss_item).unwrap(),
    }
}

fn check(titles: &[&str]) -> SiteCheck {
    SiteCheck { new_items: titles.iter().map(|t| item(t)).collect(), failure: None }
}

#[test]
fn numbers_are_written_in_decimal() {
    assert_eq!(to_decimal(0), "0");
    assert_eq!(to_decimal(9), "9");
    assert_eq!(to_decimal(10), "10");
    assert_eq!(to_decimal(1234567890), "1234567890");
    assert_eq!(to_decimal(usize::MAX), usize::MAX.to_string());
}

#[test]
fn texts_are_joined_with_commas() {
    assert_eq!(separate_by_commas(&Vec::new()), "");
    assert_eq!(separate_by_commas(&vec!["a".to_string()]), "a");
    let three = vec!["a".to_string(), "".to_string(), "c".to_string()];
    assert_eq!(separate_by_commas(&three), "a,,c");
}

#[test]
fn subject_names_the_only_site() {
    let named = site(Some("News"), "http://example.com/");
    let unnamed = site(None, "http://example.com/");
    let items = vec![item("A")];
    let subject = |s| email_subject(&vec![Update { site: s, items: &items }]);
    assert_eq!(subject(&named), "New updates from News");
    assert_eq!(subject(&unnamed), "New updates from http://example.com/");
}

#[test]
fn subject_counts_several_sites() {
    let s = site(Some("News"), "http://example.com/");
    let items = vec![item("A")];
    let updates: Vec<Update> = (0..12).map(|_| Update { site: &s, items: &items }).collect();
    assert_eq!(email_subject(&updates), "New updates from 12 feeds");
    assert_eq!(email_subject(&Vec::new()), "New updates from 0 feeds");
}

#[test]
fn only_sites_with_new_items_are_told_of() {
    let sites = vec![site(Some("A"), "a"), site(Some("B"), "b"), site(Some("C"), "c")];
    let checks = vec![check(&["x"]), check(&[]), check(&["y", "z"])];
    let updates = collect_updates(&sites, &checks);
    let names: Vec<&str> = updates.iter().map(|u| u.site.url.as_str()).collect();
    assert_eq!(names, ["a", "c"]);
    assert_eq!(updates[1].items.len(), 2);
}

#[test]
fn site_is_written_as_json() {
    assert_eq!(
        site_to_json(&site(None, "http://example.com/")),
        "{\"uuid\":\"936da01f-9abd-4d9d-80c7-02af85c822a8\",\"name\":null,\
         \"url\":\"http://example.com/\",\"last_accessed\":\"2020-05-17T10:00:00Z\"}",
    );
}

#[test]
fn names_are_escaped_in_json() {
    let json = site_to_json(&site(Some("a\"b\\c\n\u{1}\u{e9}"), "u"));
    let value: serde_json::Value = serde_json::from_str(&json).unwrap();
    assert_eq!(value["name"], "a\"b\\c\n\u{1}\u{e9}");
    assert!(json.contains("\"name\":\"a\\\"b\\\\c\\n\\u0001\u{e9}\""));
}

#[test]
fn control_characters_are_escaped_in_json() {
    let json = site_to_json(&site(Some("\u{8}\t\n\u{c}\r\u{1f}\u{7f}/\u{1F600}"), "u"));
    assert!(json.contains("\"name\":\"\\b\\t\\n\\f\\r\\u001f\u{7f}/\u{1F600}\""));
}

#[test]
fn identifier_is_written_as_uuid_does() {
    for id in [0u128, 1, u128::MAX, 0x0123456789abcdef_fedcba9876543210] {
        let mut s = site(None, "u");
        s.uuid = id;
        let value: serde_json::Value = serde_json::from_str(&site_to_json(&s)).unwrap();
        assert_eq!(value["uuid"], serde_json::to_value(uuid::Uuid::from_u128(id)).unwrap());
    }
}

#[test]
fn update_is_a_pair_of_site_and_items() {
    let s = site(Some("News"), "http://example.com/");
    let items = vec![item("A"), item("B")];
    let json = update_to_json(&Update { site: &s, items: &items });
    let value: serde_json::Value = serde_json::from_str(&json).unwrap();
    assert_eq!(value[0]["name"], "News");
    assert_eq!(value[1].as_array().unwrap().len(), 2);
    assert_eq!(value[1][1]["title"], "B");
    assert_eq!(email_data_json(&Vec::new()), "[]");
}

#[test]
fn email_is_rendered_from_the_template() {
    let templates = Templates::new(EMAIL, "page").unwrap();
    let first = site(Some("<News>"), "http://a/");
    let second = site(None, "http://b/");
    let (a, b) = (vec![item("x"), item("y")], vec![item("z")]);
    let updates = vec![Update { site: &first, items: &a }, Update { site: &second, items: &b }];
    let (subject, body) = generate_email(&templates, &updates).unwrap();
    assert_eq!(subject, "New updates from 2 feeds");
    assert_eq!(
        body,
        "&lt;News&gt;|http://a/|936da01f-9abd-4d9d-80c7-02af85c822a8|2020-05-17T10:00:00Z:x;y;\n\
         |http://b/|936da01f-9abd-4d9d-80c7-02af85c822a8|2020-05-17T10:00:00Z:z;\n",
    );
}

#[test]
fn email_is_what_handlebars_renders() {
    let first = site(Some("News"), "http://a/");
    let items = vec![item("x")];
    let updates = vec![Update { site: &first, items: &items }];
    let value: serde_json::Value = serde_json::from_str(&email_data_json(&updates)).unwrap();
    let mut registry = handlebars::Handlebars::new();
    registry.set_strict_mode(true);
    registry.register_template_string("email", EMAIL).unwrap();
    let templates = Templates::new(EMAIL, "page").unwrap();
    let (_, body) = generate_email(&templates, &updates).unwrap();
    assert_eq!(body, registry.render("email", &value).unwrap());
}

#[test]
fn value_that_is_not_there_is_an_error() {
    let templates = Templates::new("{{nothing}}", "page").unwrap();
    assert!(generate_email(&templates, &Vec::new()).is_err());
}

#[test]
fn item_that_is_no_json_is_an_error() {
    let templates = Templates::new("hello", "page").unwrap();
    let s = site(None, "u");
    let mut bad = item("x");
    bad.fields = "{".to_string();
    let items = vec![bad];
    assert!(generate_email(&templates, &vec![Update { site: &s, items: &items }]).is_err());
    let (_, body) = generate_email(&templates, &Vec::new()).unwrap();
    assert_eq!(body, "hello");
}

#[test]
fn template_that_does_not_compile_is_refused() {
    assert!(matches!(Templates::new("{{#if}", "page"), Err(TemplateFault::Email(_))));
    assert!(matches!(Templates::new("{{", "{{"), Err(TemplateFault::Email(_))));
    assert!(matches!(Templates::new("mail", "{{"), Err(TemplateFault::Index(_))));
}

#[test]
fn template_that_includes_the_other_is_rendered() {
    let templates = Templates::new("<{{> index}}>", "page").unwrap();
    assert!(templates.email_ends());
    assert!(templates.index_ends());
    let (_, body) = generate_email(&templates, &Vec::new()).unwrap();
    assert_eq!(body, "<page>");
}

#[test]
fn template_with_a_block_is_rendered() {
    let templates =
        Templates::new("{{#> index}}inner{{/index}}", "a {{> @partial-block}} b").unwrap();
    assert!(templates.email_ends());
    let (_, body) = generate_email(&templates, &Vec::new()).unwrap();
    assert_eq!(body, "a inner b");
}

#[test]
fn tag_that_is_only_shown_is_plain_text() {
    let templates = Templates::new("\\{{> index}}{{!-- {{> nav}} --}}", "page").unwrap();
    assert!(templates.email_ends());
    let (_, body) = generate_email(&templates, &Vec::new()).unwrap();
    assert_eq!(body, "{{> index}}");
}

#[test]
fn template_that_includes_what_is_not_there_is_an_error() {
    let templates = Templates::new("{{> index2}}", "page").unwrap();
    assert!(templates.email_ends());
    assert!(generate_email(&templates, &Vec::new()).is_err());
}

#[test]
fn circles_of_templates_are_found() {
    let ends = |email: &str, index: &str| {
        let templates = Templates::new(email, index).unwrap();
        (templates.email_ends(), templates.index_ends())
    };
    assert_eq!(ends("{{> index}}", "{{> email}}"), (false, false));
    assert_eq!(ends("{{> email}}", "page"), (false, true));
    assert_eq!(ends("{{#if this}}{{~> email}}{{/if}}", "page"), (false, true));
    assert_eq!(ends("mail", "{{#>\n index}}{{/index}}"), (true, false));
    assert_eq!(ends("{{> (lookup this \"a\")}}", "page"), (false, true));
    assert_eq!(ends("{{> index}}", "{{> emails}}"), (true, true));
    assert_eq!(ends("\\{{> email}}", "page"), (true, true));
    assert_eq!(ends("\\\\{{> email}}", "page"), (false, true));
    assert_eq!(ends("{{> index}}", "{{> ./email}}"), (true, true));
    assert_eq!(ends("{{#*inline \"a\"}}{{/inline}}", "page"), (true, true));
    assert_eq!(ends("{{#*inline \"a\"}}{{> b}}{{/inline}}", "page"), (false, true));
    assert_eq!(ends("<p>{{#each this}}{{this}} > {{/each}}</p>", ""), (true, true));
}
