//! What holds of outgoing mail and of its templates.

use crate::mail::{
    carries, delivery_follows, gives_up, is_message, settings_for, ConnectionReuse, Delivery,
    DeliveryAction, Mechanism, Message, Outgoing, Security, SendEmailError, TlsProtocol,
    MINIMUM_PROTOCOL,
};
use crate::templates::{
    both_templates, goes_down, has_tags, includes_at, is_escaped, may_include, no_circle, opens_tag,
    rendering_ends, tag_at, tag_opened, EMAIL_TEMPLATE, INDEX_TEMPLATE,
};
use vstd::prelude::*;

verus! {

/// A message that carries an email goes to its one recipient, from its sender, and was built of
/// its subject and its body.
pub proof fn message_goes_where_it_should(message: Message, outgoing: Outgoing)
    requires
        carries(message, outgoing),
    ensures
        message.recipients@.len() == 1,
        message.recipients@[0]@ == outgoing.to@,
        message.sender is Some,
        message.sender->0@ == outgoing.from@,
        is_message(
            message.bytes@,
            message.id@,
            outgoing.to@,
            outgoing.from@,
            outgoing.subject@,
            outgoing.html@,
        ),
{
}

/// The client talks to the server of the email, encrypted from the first byte with a certificate
/// for that server, and logs in with the account of the email.
pub proof fn client_is_set_up_for_the_email(outgoing: Outgoing)
    ensures
        settings_for(outgoing).host == outgoing.host,
        settings_for(outgoing).port == outgoing.port,
        settings_for(outgoing).tls_domain == outgoing.host,
        settings_for(outgoing).security == Security::Wrapper,
        settings_for(outgoing).mechanism == Mechanism::Login,
        settings_for(outgoing).login.0 == outgoing.credentials.username,
        settings_for(outgoing).login.1 == outgoing.credentials.password,
        settings_for(outgoing).reuse == ConnectionReuse::Unlimited,
        MINIMUM_PROTOCOL == TlsProtocol::Tlsv10,
{
}

/// Each step of sending goes on to the next if it succeeds, and ends the sending with its error
/// if not. Sending gives up in no other way.
pub proof fn steps_of_sending(
    outgoing: Outgoing,
    message: Message,
    error: String,
    next: Delivery,
    action: DeliveryAction,
)
    ensures
        delivery_follows(Delivery::Securing(outgoing, message), Ok(()), next, action) ==> next
            == Delivery::Opening(message) && action is Open,
        delivery_follows(Delivery::Opening(message), Ok(()), next, action) ==> next is Submitting
            && action == DeliveryAction::Submit(message),
        delivery_follows(Delivery::Submitting, Ok(()), next, action) ==> next is Closing
            && action is Close,
        delivery_follows(Delivery::Closing, Ok(()), next, action) ==> next is Ended && action
            == DeliveryAction::Return(Ok(())),
        delivery_follows(Delivery::Securing(outgoing, message), Err(error), next, action)
            ==> next is Ended && action == DeliveryAction::Return(
            Err(SendEmailError::Tls(error)),
        ),
        delivery_follows(Delivery::Opening(message), Err(error), next, action) ==> next is Ended
            && action == DeliveryAction::Return(Err(SendEmailError::Smtp(error))),
        delivery_follows(Delivery::Submitting, Err(error), next, action) ==> next is Ended
            && action == DeliveryAction::Return(Err(SendEmailError::Smtp(error))),
{
}

/// Giving up is to end with the error.
pub proof fn giving_up_tells_the_error(
    error: SendEmailError,
    next: Delivery,
    action: DeliveryAction,
)
    ensures
        gives_up(error, next, action) <==> next is Ended && action is Return
            && action->Return_0 is Err && action->Return_0->Err_0 == error,
{
}

/// The two templates are kept under their names, and there are no others.
pub proof fn templates_are_kept_by_name(email: Seq<char>, index: Seq<char>, name: Seq<char>)
    ensures
        both_templates(email, index).contains_key("email"@),
        both_templates(email, index).contains_key("index"@),
        both_templates(email, index)["email"@] == email,
        both_templates(email, index)["index"@] == index,
        both_templates(email, index).contains_key(name) ==> name == "email"@ || name == "index"@,
{
    reveal_strlit("email");
    reveal_strlit("index");
    assert("email"@[0] != "index"@[0]);
}

/// A template in which no `>` stands is rendered to its end, whatever else it holds.
pub proof fn plain_templates_end(templates: Map<Seq<char>, Seq<char>>, name: Seq<char>)
    requires
        forall|k: int| 0 <= k < templates[name].len() ==> #[trigger] templates[name][k] != '>',
    ensures
        rendering_ends(templates, name),
{
}

/// A tag is seen: two braces, not behind a single backslash, then any of `~`, `#` and white
/// space, then its sign.
pub proof fn tag_is_seen(text: Seq<char>, i: int, end: int, sign: char)
    requires
        0 <= i,
        i + 2 <= end < text.len(),
        text[i] == '{' && text[i + 1] == '{',
        i == 0 || text[i - 1] != '\\' || (i >= 2 && text[i - 2] == '\\'),
        forall|k: int|
            i + 2 <= k < end ==> {
                ||| (#[trigger] text[k]) == '~'
                ||| text[k] == '#'
                ||| text[k] == ' '
                ||| text[k] == '\t'
                ||| text[k] == '\n'
                ||| text[k] == '\r'
            },
        text[end] == sign,
    ensures
        tag_at(text, end, sign),
        has_tags(text, sign),
{
    assert(!is_escaped(text, i));
    assert(opens_tag(text, i, end));
    assert(tag_opened(text, end));
    assert(tag_at(text, end, sign));
}

/// A tag that includes a template is seen: the sign is `>`, and the name follows, with white
/// space before it or not, and what cannot be part of it behind. An expression in place of the
/// name may stand for any.
pub proof fn inclusion_is_seen(text: Seq<char>, i: int, end: int, k: int, name: Seq<char>)
    requires
        0 <= i,
        i + 2 <= end < k,
        k + name.len() < text.len(),
        text[i] == '{' && text[i + 1] == '{',
        i == 0 || text[i - 1] != '\\' || (i >= 2 && text[i - 2] == '\\'),
        forall|j: int|
            i + 2 <= j < end ==> {
                ||| (#[trigger] text[j]) == '~'
                ||| text[j] == '#'
                ||| text[j] == ' '
                ||| text[j] == '\t'
                ||| text[j] == '\n'
                ||| text[j] == '\r'
            },
        text[end] == '>',
        forall|j: int|
            end < j < k ==> {
                ||| (#[trigger] text[j]) == ' '
                ||| text[j] == '\t'
                ||| text[j] == '\n'
                ||| text[j] == '\r'
            },
        text[k] == '(' || {
            &&& text.subrange(k, k + name.len()) == name
            &&& text[k + name.len()] == '}' || text[k + name.len()] == ' ' || text[k + name.len()]
                == '~' || text[k + name.len()] == '\n'
        },
    ensures
        may_include(text, name),
        has_tags(text, '>'),
{
    tag_is_seen(text, i, end, '>');
    assert(includes_at(text, end, k, name));
}

/// A text in which the name does not occur, and no expression could stand for it, is not taken
/// for including the template of that name.
pub proof fn other_texts_include_nothing(text: Seq<char>, name: Seq<char>)
    requires
        forall|k: int| 0 <= k < text.len() ==> #[trigger] text[k] != '(',
        forall|k: int|
            0 <= k <= text.len() - name.len() ==> #[trigger] text.subrange(k, k + name.len())
                != name,
    ensures
        !may_include(text, name),
{
    if may_include(text, name) {
        let (end, k) = choose|end: int, k: int| includes_at(text, end, k, name);
        assert(text[k] != '(');
        assert(text.subrange(k, k + name.len()) != name);
    }
}

/// Where a template defines others, one that includes any is not taken for ending.
pub proof fn definitions_are_not_taken_for_ending(
    templates: Map<Seq<char>, Seq<char>>,
    name: Seq<char>,
    other: Seq<char>,
)
    requires
        templates.contains_key(other),
        has_tags(templates[name], '>'),
        has_tags(templates[other], '*'),
    ensures
        !rendering_ends(templates, name),
{
}

/// A template that includes itself, or two that include each other, are not taken for ending.
pub proof fn circles_are_not_taken_for_ending(
    templates: Map<Seq<char>, Seq<char>>,
    a: Seq<char>,
    b: Seq<char>,
)
    requires
        templates.contains_key(a),
        templates.contains_key(b),
        may_include(templates[a], b),
        may_include(templates[b], a),
    ensures
        !rendering_ends(templates, a),
        !no_circle(templates),
{
    let (end, k) = choose|end: int, k: int| includes_at(templates[a], end, k, b);
    assert(tag_at(templates[a], end, '>'));
    if no_circle(templates) {
        let level = choose|level: Map<Seq<char>, nat>| goes_down(templates, level);
        assert(level[b] < level[a]);
        assert(level[a] < level[b]);
    }
}

/// Two templates of which at most one includes the other, and neither itself, are taken for
/// ending, where none is defined inside them.
pub proof fn one_inclusion_is_taken_for_ending(email: Seq<char>, index: Seq<char>)
    requires
        !may_include(email, EMAIL_TEMPLATE@),
        !may_include(index, INDEX_TEMPLATE@),
        !may_include(index, EMAIL_TEMPLATE@),
        forall|k: int| 0 <= k < email.len() ==> #[trigger] email[k] != '*',
        forall|k: int| 0 <= k < index.len() ==> #[trigger] index[k] != '*',
    ensures
        rendering_ends(both_templates(email, index), EMAIL_TEMPLATE@),
        rendering_ends(both_templates(email, index), INDEX_TEMPLATE@),
{
    let both = both_templates(email, index);
    templates_are_kept_by_name(email, index, EMAIL_TEMPLATE@);
    let level: Map<Seq<char>, nat> = map![EMAIL_TEMPLATE@ => 1nat, INDEX_TEMPLATE@ => 0nat];
    assert forall|a: Seq<char>, b: Seq<char>|
        both.contains_key(a) && both.contains_key(b) && #[trigger] may_include(
            both[a],
            b,
        ) implies level[b] < level[a] by {
        templates_are_kept_by_name(email, index, a);
        templates_are_kept_by_name(email, index, b);
        reveal_strlit("email");
        reveal_strlit("index");
        assert("email"@[0] != "index"@[0]);
    }
    assert(goes_down(both, level));
}

} // verus!
