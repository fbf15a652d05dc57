//! The templates of the email and of the web page.

use vstd::prelude::*;

verus! {

/// The name of the email's template.
pub const EMAIL_TEMPLATE: &'static str = "email";

/// The name of the web page's template.
pub const INDEX_TEMPLATE: &'static str = "index";

/// White space, as it may stand in a tag.
pub open spec fn is_space(c: char) -> bool {
    c == ' ' || c == '\t' || c == '\n' || c == '\r'
}

/// A character that may stand between the braces that open a tag and the sign that says what
/// tag it is.
pub open spec fn is_filler(c: char) -> bool {
    c == '~' || c == '#' || is_space(c)
}

/// Whether a single backslash before `i` makes braces there plain text. Two or more do not.
pub open spec fn is_escaped(text: Seq<char>, i: int) -> bool {
    i >= 1 && text[i - 1] == '\\' && !(i >= 2 && text[i - 2] == '\\')
}

/// Whether the braces at `i` open a tag, with nothing but fillers up to `end`.
pub open spec fn opens_tag(text: Seq<char>, i: int, end: int) -> bool {
    &&& 0 <= i && i + 2 <= end <= text.len()
    &&& text[i] == '{' && text[i + 1] == '{'
    &&& !is_escaped(text, i)
    &&& forall|k: int| i + 2 <= k < end ==> is_filler(#[trigger] text[k])
}

/// Whether a tag was opened before `end`, with nothing but fillers since.
pub open spec fn tag_opened(text: Seq<char>, end: int) -> bool {
    exists|i: int| opens_tag(text, i, end)
}

/// Whether a tag of the kind that `sign` marks ends its opening at `end`.
pub open spec fn tag_at(text: Seq<char>, end: int, sign: char) -> bool {
    &&& 0 <= end < text.len()
    &&& text[end] == sign
    &&& tag_opened(text, end)
}

/// Whether a text has tags of the kind that `sign` marks.
pub open spec fn has_tags(text: Seq<char>, sign: char) -> bool {
    exists|end: int| tag_at(text, end, sign)
}

/// A character that may stand in the name of an included template.
pub open spec fn is_name_char(c: char) -> bool {
    ||| '0' <= c <= '9'
    ||| 'a' <= c <= 'z'
    ||| 'A' <= c <= 'Z'
    ||| c == '-' || c == '_' || c == '@' || c == '/' || c == '.'
    ||| c >= '\u{80}'
}

/// Whether what stands at `k` in a tag may be the name `name`: it is that name, or an expression
/// that is evaluated to some name.
pub open spec fn may_name(text: Seq<char>, k: int, name: Seq<char>) -> bool {
    let after = k + name.len();
    &&& 0 <= k < text.len()
    &&& text[k] == '(' || {
        &&& after <= text.len()
        &&& text.subrange(k, after) == name
        &&& after == text.len() || !is_name_char(text[after])
    }
}

/// Whether a tag that includes a template ends its opening at `end`, and what follows at `k` may
/// be the name `name`.
pub open spec fn includes_at(text: Seq<char>, end: int, k: int, name: Seq<char>) -> bool {
    &&& tag_at(text, end, '>')
    &&& end < k
    &&& forall|j: int| end < j < k ==> is_space(#[trigger] text[j])
    &&& may_name(text, k, name)
}

/// Whether a template may include the template `name`, as `{{> name}}` does.
pub open spec fn may_include(text: Seq<char>, name: Seq<char>) -> bool {
    exists|end: int, k: int| includes_at(text, end, k, name)
}

/// Whether every template has a higher level than those that it may include.
pub open spec fn goes_down(
    templates: Map<Seq<char>, Seq<char>>,
    level: Map<Seq<char>, nat>,
) -> bool {
    forall|a: Seq<char>, b: Seq<char>|
        templates.contains_key(a) && templates.contains_key(b) && #[trigger] may_include(
            templates[a],
            b,
        ) ==> level[b] < level[a]
}

/// Whether no template may include itself, neither at once nor by way of others.
pub open spec fn no_circle(templates: Map<Seq<char>, Seq<char>>) -> bool {
    exists|level: Map<Seq<char>, nat>| goes_down(templates, level)
}

/// Whether the texts tell that rendering the template `name` comes to an end, whatever the data:
/// it includes no template, or templates are not included in a circle and none are defined
/// inside others, as `{{#*inline "name"}}` does.
pub open spec fn rendering_ends(templates: Map<Seq<char>, Seq<char>>, name: Seq<char>) -> bool {
    ||| !has_tags(templates[name], '>')
    ||| {
        &&& no_circle(templates)
        &&& forall|a: Seq<char>|
            templates.contains_key(a) ==> !has_tags(#[trigger] templates[a], '*')
    }
}

/// The characters of a text.
fn chars_of(text: &str) -> (chars: Vec<char>)
    ensures
        chars@ == text@,
{
    let mut chars: Vec<char> = Vec::new();
    for c in it: text.chars()
        invariant
            it.seq() == text@,
            chars@ == text@.take(it.index() as int),
    {
        assert(c == text@[it.index() as int]);
        chars.push(c);
        assert(chars@ == text@.take(it.index() + 1));
    }
    assert(text@.take(text@.len() as int) == text@);
    chars
}

/// Where the tags of the kind that `sign` marks end their opening.
fn find_tags(text: &Vec<char>, sign: char) -> (ends: Vec<usize>)
    ensures
        forall|i: int| 0 <= i < ends@.len() ==> tag_at(text@, #[trigger] ends@[i] as int, sign),
        forall|end: int| #[trigger]
            tag_at(text@, end, sign) ==> exists|i: int|
                0 <= i < ends@.len() && #[trigger] ends@[i] == end,
{
    let mut ends: Vec<usize> = Vec::new();
    let mut in_tag = false;
    let mut n: usize = 0;
    while n < text.len()
        invariant
            n <= text.len(),
            in_tag == tag_opened(text@, n as int),
            forall|i: int|
                0 <= i < ends@.len() ==> tag_at(text@, #[trigger] ends@[i] as int, sign),
            forall|end: int|
                end < n && #[trigger] tag_at(text@, end, sign) ==> exists|i: int|
                    0 <= i < ends@.len() && #[trigger] ends@[i] == end,
        decreases text.len() - n,
    {
        let c = text[n];
        let ghost before = ends@;
        if in_tag && c == sign {
            ends.push(n);
        }
        proof {
            assert forall|end: int| end < n + 1 && #[trigger] tag_at(text@, end, sign) implies exists|
                i: int,
            |
                0 <= i < ends@.len() && #[trigger] ends@[i] == end by {
                if end < n {
                    let i = choose|i: int| 0 <= i < before.len() && #[trigger] before[i] == end;
                    assert(ends@[i] == end);
                } else {
                    assert(ends@[before.len() as int] == end);
                }
            }
            if in_tag && is_filler(c) {
                let i = choose|i: int| opens_tag(text@, i, n as int);
                assert(opens_tag(text@, i, n + 1));
            }
            if n > 0 && c == '{' && text@[n - 1] == '{' && !is_escaped(text@, n - 1) {
                assert(opens_tag(text@, n - 1, n + 1));
            }
            if tag_opened(text@, n + 1) {
                let next: int = n + 1;
                let i = choose|i: int| opens_tag(text@, i, next);
                if i + 2 < next {
                    assert(is_filler(text@[n as int]));
                    assert(opens_tag(text@, i, n as int));
                } else {
                    assert(text@[i + 1] == '{' && text@[i] == '{');
                }
            }
        }
        let filler = c == '~' || c == '#' || c == ' ' || c == '\t' || c == '\n' || c == '\r';
        let escaped = n >= 2 && text[n - 2] == '\\' && !(n >= 3 && text[n - 3] == '\\');
        in_tag = (in_tag && filler) || (n > 0 && c == '{' && text[n - 1] == '{' && !escaped);
        n += 1;
    }
    ends
}

/// Finds out whether a text has tags of the kind that `sign` marks.
fn finds_tags(text: &Vec<char>, sign: char) -> (answer: bool)
    ensures
        answer == has_tags(text@, sign),
{
    let ends = find_tags(text, sign);
    proof {
        if ends@.len() > 0 {
            assert(tag_at(text@, ends@[0] as int, sign));
        }
    }
    ends.len() > 0
}

/// Whether `name` stands at `k` in `text`.
fn stands_at(text: &Vec<char>, k: usize, name: &Vec<char>) -> (answer: bool)
    requires
        k <= text@.len(),
    ensures
        answer == (k + name@.len() <= text@.len() && text@.subrange(k as int, k + name@.len())
            == name@),
{
    if text.len() - k < name.len() {
        return false;
    }
    let ghost part = text@.subrange(k as int, k + name@.len());
    let mut i: usize = 0;
    while i < name.len()
        invariant
            i <= name.len(),
            k + name.len() <= text.len(),
            part == text@.subrange(k as int, k + name@.len()),
            forall|j: int| 0 <= j < i ==> part[j] == name@[j],
        decreases name.len() - i,
    {
        if text[k + i] != name[i] {
            assert(part[i as int] != name@[i as int]);
            return false;
        }
        i += 1;
    }
    assert(part == name@);
    true
}

/// Finds out whether a template may include the template `name`.
fn finds_inclusion(text: &Vec<char>, name: &Vec<char>) -> (answer: bool)
    requires
        name@.len() > 0,
        !is_space(name@[0]),
    ensures
        answer == may_include(text@, name@),
{
    let ends = find_tags(text, '>');
    let mut i: usize = 0;
    while i < ends.len()
        invariant
            i <= ends.len(),
            name@.len() > 0,
            !is_space(name@[0]),
            forall|i: int| 0 <= i < ends@.len() ==> tag_at(text@, #[trigger] ends@[i] as int, '>'),
            forall|j: int, k: int|
                0 <= j < i ==> !#[trigger] includes_at(text@, ends@[j] as int, k, name@),
        decreases ends.len() - i,
    {
        let end = ends[i];
        assert(tag_at(text@, end as int, '>'));
        assert(end < text.len());
        let mut k: usize = end + 1;
        while k < text.len() && (text[k] == ' ' || text[k] == '\t' || text[k] == '\n' || text[k]
            == '\r')
            invariant
                end < k <= text.len(),
                forall|j: int| end < j < k ==> is_space(#[trigger] text@[j]),
            ensures
                k < text.len() ==> !is_space(text@[k as int]),
            decreases text.len() - k,
        {
            k += 1;
        }
        if k < text.len() {
            if text[k] == '(' {
                assert(includes_at(text@, end as int, k as int, name@));
                return true;
            }
            if stands_at(text, k, name) {
                let after: usize = k + name.len();
                if after == text.len() || !continues_name(text[after]) {
                    assert(includes_at(text@, end as int, k as int, name@));
                    return true;
                }
            }
        }
        assert forall|other: int| !includes_at(text@, end as int, other, name@) by {
            if includes_at(text@, end as int, other, name@) {
                assert(text@[other] == '(' || text@[other] == text@.subrange(
                    other,
                    other + name@.len(),
                )[0]);
                assert(!is_space(text@[other]));
                if other < k {
                    assert(is_space(text@[other]));
                } else if k < other {
                    assert(is_space(text@[k as int]));
                }
                assert(other == k);
            }
        }
        i += 1;
    }
    proof {
        if may_include(text@, name@) {
            let (end, k) = choose|end: int, k: int| includes_at(text@, end, k, name@);
            assert(tag_at(text@, end, '>'));
            let j = choose|j: int| 0 <= j < ends@.len() && #[trigger] ends@[j] == end;
            assert(!includes_at(text@, ends@[j] as int, k, name@));
        }
    }
    false
}

/// Whether a character may stand in the name of an included template.
fn continues_name(c: char) -> (answer: bool)
    ensures
        answer == is_name_char(c),
{
    ('0' <= c && c <= '9') || ('a' <= c && c <= 'z') || ('A' <= c && c <= 'Z') || c == '-' || c
        == '_' || c == '@' || c == '/' || c == '.' || c >= '\u{80}'
}

/// The templates of the email and of the web page, by name.
pub open spec fn both_templates(email: Seq<char>, index: Seq<char>) -> Map<Seq<char>, Seq<char>> {
    map![EMAIL_TEMPLATE@ => email, INDEX_TEMPLATE@ => index]
}

/// Of two templates, neither is included in a circle unless one may include itself or both may
/// include each other.
proof fn circle_of_two(email: Seq<char>, index: Seq<char>)
    ensures
        no_circle(both_templates(email, index)) <==> {
            &&& !may_include(email, EMAIL_TEMPLATE@)
            &&& !may_include(index, INDEX_TEMPLATE@)
            &&& !(may_include(email, INDEX_TEMPLATE@) && may_include(index, EMAIL_TEMPLATE@))
        },
{
    names_differ();
    let both = both_templates(email, index);
    assert(both[EMAIL_TEMPLATE@] == email && both[INDEX_TEMPLATE@] == index);
    if no_circle(both) {
        let level = choose|level: Map<Seq<char>, nat>| goes_down(both, level);
        assert(may_include(both[EMAIL_TEMPLATE@], EMAIL_TEMPLATE@) ==> false);
        assert(may_include(both[INDEX_TEMPLATE@], INDEX_TEMPLATE@) ==> false);
        assert(may_include(both[EMAIL_TEMPLATE@], INDEX_TEMPLATE@) ==> level[INDEX_TEMPLATE@]
            < level[EMAIL_TEMPLATE@]);
        assert(may_include(both[INDEX_TEMPLATE@], EMAIL_TEMPLATE@) ==> level[EMAIL_TEMPLATE@]
            < level[INDEX_TEMPLATE@]);
    }
    if !may_include(email, EMAIL_TEMPLATE@) && !may_include(index, INDEX_TEMPLATE@) && !(
    may_include(email, INDEX_TEMPLATE@) && may_include(index, EMAIL_TEMPLATE@)) {
        let level: Map<Seq<char>, nat> = if may_include(email, INDEX_TEMPLATE@) {
            map![EMAIL_TEMPLATE@ => 1nat, INDEX_TEMPLATE@ => 0nat]
        } else {
            map![EMAIL_TEMPLATE@ => 0nat, INDEX_TEMPLATE@ => 1nat]
        };
        assert(goes_down(both, level));
    }
}

/// The two templates have different names.
proof fn names_differ()
    ensures
        EMAIL_TEMPLATE@ != INDEX_TEMPLATE@,
        EMAIL_TEMPLATE@.len() == 5,
        INDEX_TEMPLATE@.len() == 5,
        EMAIL_TEMPLATE@[0] == 'e',
        INDEX_TEMPLATE@[0] == 'i',
{
    reveal_strlit("email");
    reveal_strlit("index");
    assert(EMAIL_TEMPLATE@[0] != INDEX_TEMPLATE@[0]);
}

/// A registry of compiled templates.
#[verifier::external_type_specification]
#[verifier::external_body]
pub struct ExHandlebars<'reg>(handlebars::Handlebars<'reg>);

/// The error of a text that is no template.
#[verifier::external_type_specification]
#[verifier::external_body]
pub struct ExTemplateError(handlebars::TemplateError);

/// The error of a template that could not be rendered.
#[verifier::external_type_specification]
#[verifier::external_body]
pub struct ExRenderError(handlebars::RenderError);

/// The templates in a registry: the text that each was compiled from, by name.
pub uninterp spec fn registered(registry: handlebars::Handlebars<'static>) -> Map<
    Seq<char>,
    Seq<char>,
>;

/// Whether a registry is strict: a template that names a value that is not there is an error.
pub uninterp spec fn is_strict(registry: handlebars::Handlebars<'static>) -> bool;

/// Whether a registry has the helpers, the escaping and the other settings (strictness apart)
/// that `handlebars::Handlebars::new` gives it, and no others.
pub uninterp spec fn is_stock(registry: handlebars::Handlebars<'static>) -> bool;

/// Whether `handlebars` can compile `text` as a template.
pub uninterp spec fn compiles(text: Seq<char>) -> bool;

/// What `handlebars::Handlebars::render` makes of the template `name` of `templates` and the JSON
/// document `data`, strict or not. `None` where rendering fails, or `data` is no JSON document
/// that `serde_json` reads.
pub uninterp spec fn rendered(
    templates: Map<Seq<char>, Seq<char>>,
    name: Seq<char>,
    strict: bool,
    data: Seq<char>,
) -> Option<Seq<char>>;

/// `handlebars::Handlebars::new`: a registry without templates.
///
/// Trusted: it holds no template, is not strict, and has the stock settings.
#[verifier::external_body]
fn new_registry() -> (registry: handlebars::Handlebars<'static>)
    ensures
        registered(registry).dom() == Set::<Seq<char>>::empty(),
        !is_strict(registry),
        is_stock(registry),
{
    handlebars::Handlebars::new()
}

/// `handlebars::Handlebars::set_strict_mode`.
///
/// Trusted: strictness is set, and nothing else changes.
#[verifier::external_body]
fn set_strict_mode(registry: &mut handlebars::Handlebars<'static>, enabled: bool)
    ensures
        is_strict(*final(registry)) == enabled,
        registered(*final(registry)) == registered(*old(registry)),
        is_stock(*final(registry)) == is_stock(*old(registry)),
{
    registry.set_strict_mode(enabled)
}

/// `handlebars::Handlebars::register_template_string`: compiles a template and puts it into the
/// registry.
///
/// Trusted: whether a text compiles depends on the text alone (given the stack that the parser
/// takes for nested tags). One that does replaces what was under its name, one that does not
/// changes nothing.
#[verifier::external_body]
fn register_template_string(
    registry: &mut handlebars::Handlebars<'static>,
    name: &str,
    text: &str,
) -> (outcome: Result<(), handlebars::TemplateError>)
    ensures
        outcome is Ok <==> compiles(text@),
        outcome is Ok ==> registered(*final(registry)) == registered(*old(registry)).insert(
            name@,
            text@,
        ),
        outcome is Err ==> registered(*final(registry)) == registered(*old(registry)),
        is_strict(*final(registry)) == is_strict(*old(registry)),
        is_stock(*final(registry)) == is_stock(*old(registry)),
{
    registry.register_template_string(name, text)
}

/// `handlebars::Handlebars::render`, of the value that `serde_json::Deserializer` reads in `data`,
/// without a limit to how deep values are nested.
///
/// Trusted: with the stock settings, the result depends on the templates, on strictness and on
/// the data alone. Where the texts do not tell that rendering comes to an end nothing is said,
/// and the call is left out: templates that include each other may be rendered without end.
/// Reading and rendering take stack in proportion to how deep values and tags are nested.
#[verifier::external_body]
fn render(registry: &handlebars::Handlebars<'static>, name: &str, data: &str) -> (text: Result<
    String,
    handlebars::RenderError,
>)
    requires
        is_stock(*registry),
        registered(*registry).contains_key(name@),
        rendering_ends(registered(*registry), name@),
    ensures
        text is Ok <==> rendered(registered(*registry), name@, is_strict(*registry), data@)
            is Some,
        text is Ok ==> Some(text->Ok_0@) == rendered(
            registered(*registry),
            name@,
            is_strict(*registry),
            data@,
        ),
{
    let mut reader = serde_json::Deserializer::from_str(data);
    reader.disable_recursion_limit();
    let value: serde_json::Value = serde::Deserialize::deserialize(&mut reader).map_err(
        handlebars::RenderErrorReason::from,
    )?;
    reader.end().map_err(handlebars::RenderErrorReason::from)?;
    registry.render(name, &value)
}

/// Why the templates cannot be used.
#[derive(Debug)]
pub enum TemplateFault {
    /// The email's template does not compile.
    Email(handlebars::TemplateError),
    /// The web page's template does not compile.
    Index(handlebars::TemplateError),
}

/// The templates of the email and of the web page, ready to be rendered in strict mode.
pub struct Templates {
    registry: handlebars::Handlebars<'static>,
    email_ends: bool,
    index_ends: bool,
}

impl Templates {
    #[verifier::type_invariant]
    spec fn well_formed(self) -> bool {
        &&& is_stock(self.registry)
        &&& is_strict(self.registry)
        &&& registered(self.registry).contains_key(EMAIL_TEMPLATE@)
        &&& registered(self.registry).contains_key(INDEX_TEMPLATE@)
        &&& self.email_ends == rendering_ends(registered(self.registry), EMAIL_TEMPLATE@)
        &&& self.index_ends == rendering_ends(registered(self.registry), INDEX_TEMPLATE@)
    }

    /// The texts of the templates, by name.
    pub closed spec fn texts(self) -> Map<Seq<char>, Seq<char>> {
        registered(self.registry)
    }

    /// Compiles the two templates, the email's first.
    pub fn new(email: &str, index: &str) -> (templates: Result<Templates, TemplateFault>)
        ensures
            templates is Ok <==> compiles(email@) && compiles(index@),
            templates is Ok ==> templates->Ok_0.texts() == both_templates(email@, index@),
            templates is Err ==> (templates->Err_0 is Email <==> !compiles(email@)),
    {
        let mut registry = new_registry();
        set_strict_mode(&mut registry, true);
        match register_template_string(&mut registry, EMAIL_TEMPLATE, email) {
            Ok(()) => {},
            Err(error) => return Err(TemplateFault::Email(error)),
        }
        match register_template_string(&mut registry, INDEX_TEMPLATE, index) {
            Ok(()) => {},
            Err(error) => return Err(TemplateFault::Index(error)),
        }
        let email_name = chars_of(EMAIL_TEMPLATE);
        let index_name = chars_of(INDEX_TEMPLATE);
        let email_text = chars_of(email);
        let index_text = chars_of(index);
        proof {
            names_differ();
            circle_of_two(email@, index@);
        }
        let circle = finds_inclusion(&email_text, &email_name) || finds_inclusion(
            &index_text,
            &index_name,
        ) || (finds_inclusion(&email_text, &index_name) && finds_inclusion(
            &index_text,
            &email_name,
        ));
        let email_includes = finds_tags(&email_text, '>');
        let index_includes = finds_tags(&index_text, '>');
        let defines = finds_tags(&email_text, '*') || finds_tags(&index_text, '*');
        proof {
            let both = both_templates(email@, index@);
            assert(registered(registry) == both);
            assert(both[EMAIL_TEMPLATE@] == email@ && both[INDEX_TEMPLATE@] == index@);
        }
        Ok(
            Templates {
                registry,
                email_ends: !email_includes || (!circle && !defines),
                index_ends: !index_includes || (!circle && !defines),
            },
        )
    }

    /// Whether the templates tell that rendering the email comes to an end.
    pub fn email_ends(&self) -> (answer: bool)
        ensures
            answer == rendering_ends(self.texts(), EMAIL_TEMPLATE@),
    {
        proof {
            use_type_invariant(self);
        }
        self.email_ends
    }

    /// Whether the templates tell that rendering the web page comes to an end.
    pub fn index_ends(&self) -> (answer: bool)
        ensures
            answer == rendering_ends(self.texts(), INDEX_TEMPLATE@),
    {
        proof {
            use_type_invariant(self);
        }
        self.index_ends
    }

    /// Renders the email's template with the JSON document `data`.
    pub fn render_email(&self, data: &str) -> (text: Result<String, handlebars::RenderError>)
        requires
            rendering_ends(self.texts(), EMAIL_TEMPLATE@),
        ensures
            text is Ok <==> rendered(self.texts(), EMAIL_TEMPLATE@, true, data@) is Some,
            text is Ok ==> Some(text->Ok_0@) == rendered(
                self.texts(),
                EMAIL_TEMPLATE@,
                true,
                data@,
            ),
    {
        proof {
            use_type_invariant(self);
        }
        render(&self.registry, EMAIL_TEMPLATE, data)
    }

    /// Renders the web page's template, which has nothing to show but itself.
    pub fn render_index(&self) -> (text: Result<String, handlebars::RenderError>)
        requires
            rendering_ends(self.texts(), INDEX_TEMPLATE@),
        ensures
            text is Ok <==> rendered(self.texts(), INDEX_TEMPLATE@, true, "null"@) is Some,
            text is Ok ==> Some(text->Ok_0@) == rendered(
                self.texts(),
                INDEX_TEMPLATE@,
                true,
                "null"@,
            ),
    {
        proof {
            use_type_invariant(self);
        }
        render(&self.registry, INDEX_TEMPLATE, "null")
    }
}

} // verus!
