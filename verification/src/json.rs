//! How JSON is read: where its arrays and objects have their parts.
//!
//! Nothing here knows how the texts are written that it reads.

use crate::text::{comma_separated, hex_digit, json_char, json_chars, json_string};
use vstd::prelude::*;

verus! {

/// A place in a JSON text: how many arrays and objects are open there, whether it is inside a
/// string, and whether there behind a backslash.
pub struct Place {
    pub depth: int,
    pub quoted: bool,
    pub escaped: bool,
}

/// The place before a text.
pub open spec fn start() -> Place {
    Place { depth: 0, quoted: false, escaped: false }
}

/// The place behind a character.
pub open spec fn behind_char(place: Place, c: char) -> Place {
    if place.quoted {
        if place.escaped {
            Place { escaped: false, ..place }
        } else if c == '\\' {
            Place { escaped: true, ..place }
        } else if c == '"' {
            Place { quoted: false, ..place }
        } else {
            place
        }
    } else if c == '"' {
        Place { quoted: true, ..place }
    } else if c == '[' || c == '{' {
        Place { depth: place.depth + 1, ..place }
    } else if c == ']' || c == '}' {
        Place { depth: place.depth - 1, ..place }
    } else {
        place
    }
}

/// The place behind a text.
pub open spec fn behind(place: Place, text: Seq<char>) -> Place
    decreases text.len(),
{
    if text.len() == 0 {
        place
    } else {
        behind_char(behind(place, text.drop_last()), text.last())
    }
}

/// Whether a comma at a place parts the text.
pub open spec fn parts_at(place: Place) -> bool {
    place.depth == 0 && !place.quoted
}

/// What the commas part a text into, but for commas in strings and in nested arrays and objects.
pub open spec fn parts(text: Seq<char>) -> Seq<Seq<char>>
    decreases text.len(),
{
    if text.len() == 0 {
        seq![Seq::<char>::empty()]
    } else {
        let before = parts(text.drop_last());
        if text.last() == ',' && parts_at(behind(start(), text.drop_last())) {
            before.push(Seq::<char>::empty())
        } else {
            before.drop_last().push(before.last().push(text.last()))
        }
    }
}

/// The elements of an array, or the members of an object: what stands between the first and
/// the last character, parted by commas. Where nothing stands there, there are none.
pub open spec fn elements(text: Seq<char>) -> Seq<Seq<char>> {
    let inside = text.subrange(1, text.len() - 1);
    if inside.len() == 0 {
        Seq::empty()
    } else {
        parts(inside)
    }
}

/// Whether a text is between the brackets of an array.
pub open spec fn is_array(text: Seq<char>) -> bool {
    text.len() >= 2 && text[0] == '[' && text.last() == ']'
}

/// Whether a text is between the braces of an object.
pub open spec fn is_object(text: Seq<char>) -> bool {
    text.len() >= 2 && text[0] == '{' && text.last() == '}'
}

/// Whether a text closes all that it opens, and nothing else.
pub open spec fn is_nested(text: Seq<char>) -> bool {
    &&& behind(start(), text) == start()
    &&& forall|k: int|
        0 <= k <= text.len() ==> (#[trigger] behind(start(), text.take(k))).depth >= 0
}

/// Whether a text can be an element of an array or a member of an object: it is not empty,
/// closes all that it opens, and no comma parts it.
pub open spec fn is_element(text: Seq<char>) -> bool {
    &&& text.len() > 0
    &&& is_nested(text)
    &&& forall|k: int|
        0 <= k < text.len() && text[k] == ',' ==> !parts_at(
            #[trigger] behind(start(), text.take(k)),
        )
}

/// The place behind two texts is that behind the second, read from behind the first.
proof fn behind_both(place: Place, a: Seq<char>, b: Seq<char>)
    ensures
        behind(place, a + b) == behind(behind(place, a), b),
    decreases b.len(),
{
    if b.len() == 0 {
        assert(a + b == a);
    } else {
        behind_both(place, a, b.drop_last());
        assert((a + b).drop_last() == a + b.drop_last());
        assert((a + b).last() == b.last());
    }
}

/// What is open around a text stays open behind it.
proof fn behind_deeper(place: Place, d: int, text: Seq<char>)
    ensures
        behind(Place { depth: place.depth + d, ..place }, text) == (Place {
            depth: behind(place, text).depth + d,
            ..behind(place, text)
        }),
    decreases text.len(),
{
    if text.len() > 0 {
        behind_deeper(place, d, text.drop_last());
    }
}

proof fn has_parts(text: Seq<char>)
    ensures
        parts(text).len() >= 1,
    decreases text.len(),
{
    if text.len() > 0 {
        has_parts(text.drop_last());
    }
}

/// A comma behind a text that closes all that it opens parts it from what follows.
proof fn comma_parts(a: Seq<char>, b: Seq<char>)
    requires
        behind(start(), a) == start(),
    ensures
        parts(a + seq![','] + b) == parts(a) + parts(b),
    decreases b.len(),
{
    let joined = a + seq![','] + b;
    if b.len() == 0 {
        assert(joined.drop_last() == a);
        assert(joined.last() == ',');
        assert(parts(joined) == parts(a).push(Seq::<char>::empty()));
        assert(parts(a) + parts(b) == parts(a).push(Seq::<char>::empty()));
    } else {
        let shorter = b.drop_last();
        comma_parts(a, shorter);
        has_parts(shorter);
        assert(joined.drop_last() == a + seq![','] + shorter);
        assert(joined.last() == b.last());
        behind_both(start(), a + seq![','], shorter);
        behind_both(start(), a, seq![',']);
        assert(seq![','].drop_last() == Seq::<char>::empty());
        assert(behind(start(), Seq::<char>::empty()) == start());
        assert(behind(start(), seq![',']) == start());
        assert(behind(start(), joined.drop_last()) == behind(start(), shorter));
        let before = parts(a) + parts(shorter);
        assert(before.last() == parts(shorter).last());
        assert(before.drop_last() == parts(a) + parts(shorter).drop_last());
        assert(parts(joined) == parts(a) + parts(b));
    }
}

/// A text that no comma parts is its only part.
proof fn one_part(text: Seq<char>)
    requires
        forall|k: int|
            0 <= k < text.len() && text[k] == ',' ==> !parts_at(
                #[trigger] behind(start(), text.take(k)),
            ),
    ensures
        parts(text) == seq![text],
    decreases text.len(),
{
    if text.len() > 0 {
        let shorter = text.drop_last();
        assert forall|k: int| 0 <= k < shorter.len() && shorter[k] == ',' implies !parts_at(
            #[trigger] behind(start(), shorter.take(k)),
        ) by {
            assert(shorter.take(k) == text.take(k));
            assert(text[k] == ',');
        }
        one_part(shorter);
        assert(text.take(text.len() - 1) == shorter);
        assert(shorter.push(text.last()) == text);
        assert(parts(text) == seq![text]);
    } else {
        assert(text == Seq::<char>::empty());
    }
}

/// Two texts that close all that they open do so together.
proof fn nested_both(a: Seq<char>, b: Seq<char>)
    requires
        is_nested(a),
        is_nested(b),
    ensures
        is_nested(a + b),
{
    let text = a + b;
    behind_both(start(), a, b);
    assert forall|k: int| 0 <= k <= text.len() implies (#[trigger] behind(
        start(),
        text.take(k),
    )).depth >= 0 by {
        if k <= a.len() {
            assert(text.take(k) == a.take(k));
        } else {
            assert(text.take(k) == a + b.take(k - a.len()));
            behind_both(start(), a, b.take(k - a.len()));
            assert(behind(start(), b.take(k - a.len())).depth >= 0);
        }
    }
}

/// Two elements written one after the other can be one element.
proof fn element_both(a: Seq<char>, b: Seq<char>)
    requires
        is_element(a),
        is_element(b),
    ensures
        is_element(a + b),
{
    let text = a + b;
    nested_both(a, b);
    assert forall|k: int| 0 <= k < text.len() && text[k] == ',' implies !parts_at(
        #[trigger] behind(start(), text.take(k)),
    ) by {
        if k < a.len() {
            assert(text.take(k) == a.take(k));
            assert(a[k] == ',');
        } else {
            assert(text.take(k) == a + b.take(k - a.len()));
            behind_both(start(), a, b.take(k - a.len()));
            assert(b[k - a.len()] == ',');
        }
    }
}

/// What is put in brackets or braces can be an element.
proof fn element_in_brackets(open: char, inside: Seq<char>, close: char)
    requires
        is_nested(inside),
        (open == '[' && close == ']') || (open == '{' && close == '}'),
    ensures
        is_element(seq![open] + inside + seq![close]),
{
    let text = seq![open] + inside + seq![close];
    let opened = Place { depth: 1, quoted: false, escaped: false };
    assert(seq![open].drop_last() == Seq::<char>::empty());
    assert(behind(start(), Seq::<char>::empty()) == start());
    assert(behind(start(), seq![open]) == opened);
    assert forall|k: int| 0 < k < text.len() implies (#[trigger] behind(
        start(),
        text.take(k),
    )).depth >= 1 by {
        assert(text.take(k) == seq![open] + inside.take(k - 1));
        behind_both(start(), seq![open], inside.take(k - 1));
        behind_deeper(start(), 1, inside.take(k - 1));
        assert(behind(start(), inside.take(k - 1)).depth >= 0);
    }
    assert(text.take(text.len() - 1) == seq![open] + inside);
    behind_both(start(), seq![open], inside);
    behind_deeper(start(), 1, inside);
    assert(text.drop_last() == seq![open] + inside);
    assert(behind(start(), text) == start());
    assert(text.take(0) == Seq::<char>::empty());
    assert(text.take(text.len() as int) == text);
    assert forall|k: int| 0 <= k <= text.len() implies (#[trigger] behind(
        start(),
        text.take(k),
    )).depth >= 0 by {
        if 0 < k < text.len() {
            assert(behind(start(), text.take(k)).depth >= 1);
        }
    }
    assert forall|k: int| 0 <= k < text.len() && text[k] == ',' implies !parts_at(
        #[trigger] behind(start(), text.take(k)),
    ) by {
        if k > 0 {
            assert(behind(start(), text.take(k)).depth >= 1);
        }
    }
}

/// Elements that are written with commas between them are read back, one by one.
pub proof fn list_reads_back(list: Seq<Seq<char>>)
    requires
        forall|i: int| 0 <= i < list.len() ==> is_element(#[trigger] list[i]),
    ensures
        list.len() > 0 ==> parts(comma_separated(list)) == list,
        list.len() > 0 ==> comma_separated(list).len() > 0,
        is_nested(comma_separated(list)),
    decreases list.len(),
{
    if list.len() == 0 {
        assert forall|k: int| 0 <= k <= 0 implies (#[trigger] behind(
            start(),
            Seq::<char>::empty().take(k),
        )).depth >= 0 by {
            assert(Seq::<char>::empty().take(k) == Seq::<char>::empty());
        }
    } else if list.len() == 1 {
        assert(is_element(list[0]));
        one_part(list[0]);
        assert(list == seq![list[0]]);
    } else {
        let fewer = list.drop_last();
        assert forall|i: int| 0 <= i < fewer.len() implies is_element(#[trigger] fewer[i]) by {
            assert(is_element(list[i]));
        }
        list_reads_back(fewer);
        assert(is_element(list[list.len() - 1]));
        reveal_strlit(",");
        assert(","@ == seq![',']);
        let a = comma_separated(fewer);
        comma_parts(a, list.last());
        one_part(list.last());
        assert(fewer + seq![list.last()] == list);
        comma_is_nested();
        nested_both(a, seq![',']);
        nested_both(a + seq![','], list.last());
    }
}

proof fn comma_is_nested()
    ensures
        is_nested(seq![',']),
{
    let text = seq![','];
    assert(text.drop_last() == Seq::<char>::empty());
    assert(behind(start(), Seq::<char>::empty()) == start());
    assert forall|k: int| 0 <= k <= text.len() implies (#[trigger] behind(
        start(),
        text.take(k),
    )).depth >= 0 by {
        if k == 0 {
            assert(text.take(k) == Seq::<char>::empty());
        } else {
            assert(text.take(k) == text);
        }
    }
}

/// A list in brackets is an array of its elements, and can be an element itself.
pub proof fn array_reads_back(list: Seq<Seq<char>>)
    requires
        forall|i: int| 0 <= i < list.len() ==> is_element(#[trigger] list[i]),
    ensures
        is_array(seq!['['] + comma_separated(list) + seq![']']),
        elements(seq!['['] + comma_separated(list) + seq![']']) == list,
        is_element(seq!['['] + comma_separated(list) + seq![']']),
{
    list_reads_back(list);
    element_in_brackets('[', comma_separated(list), ']');
    let text = seq!['['] + comma_separated(list) + seq![']'];
    assert(text.subrange(1, text.len() - 1) == comma_separated(list));
    if list.len() == 0 {
        assert(elements(text) == list);
    }
}

/// A list in braces is an object with its members, and can be an element.
pub proof fn object_reads_back(list: Seq<Seq<char>>)
    requires
        forall|i: int| 0 <= i < list.len() ==> is_element(#[trigger] list[i]),
    ensures
        is_object(seq!['{'] + comma_separated(list) + seq!['}']),
        elements(seq!['{'] + comma_separated(list) + seq!['}']) == list,
        is_element(seq!['{'] + comma_separated(list) + seq!['}']),
{
    list_reads_back(list);
    element_in_brackets('{', comma_separated(list), '}');
    let text = seq!['{'] + comma_separated(list) + seq!['}'];
    assert(text.subrange(1, text.len() - 1) == comma_separated(list));
    if list.len() == 0 {
        assert(elements(text) == list);
    }
}

/// The place at the beginning of a string.
pub open spec fn in_string() -> Place {
    Place { depth: 0, quoted: true, escaped: false }
}

/// Whether a text in a string leaves the string open, all the way.
spec fn stays_quoted(text: Seq<char>) -> bool {
    &&& behind(in_string(), text) == in_string()
    &&& forall|k: int|
        0 <= k <= text.len() ==> (#[trigger] behind(in_string(), text.take(k))).quoted && behind(
            in_string(),
            text.take(k),
        ).depth == 0
}

proof fn stays_quoted_both(a: Seq<char>, b: Seq<char>)
    requires
        stays_quoted(a),
        stays_quoted(b),
    ensures
        stays_quoted(a + b),
{
    let text = a + b;
    behind_both(in_string(), a, b);
    assert forall|k: int| 0 <= k <= text.len() implies (#[trigger] behind(
        in_string(),
        text.take(k),
    )).quoted && behind(in_string(), text.take(k)).depth == 0 by {
        if k <= a.len() {
            assert(text.take(k) == a.take(k));
        } else {
            assert(text.take(k) == a + b.take(k - a.len()));
            behind_both(in_string(), a, b.take(k - a.len()));
        }
    }
}

proof fn nothing_stays_quoted()
    ensures
        stays_quoted(Seq::<char>::empty()),
{
    assert forall|k: int| 0 <= k <= 0 implies (#[trigger] behind(
        in_string(),
        Seq::<char>::empty().take(k),
    )).quoted && behind(in_string(), Seq::<char>::empty().take(k)).depth == 0 by {
        assert(Seq::<char>::empty().take(k) == Seq::<char>::empty());
    }
}

proof fn char_stays_quoted(c: char)
    requires
        c != '"' && c != '\\',
    ensures
        stays_quoted(seq![c]),
{
    let text = seq![c];
    assert(text.drop_last() == Seq::<char>::empty());
    assert(behind(in_string(), Seq::<char>::empty()) == in_string());
    assert forall|k: int| 0 <= k <= text.len() implies (#[trigger] behind(
        in_string(),
        text.take(k),
    )).quoted && behind(in_string(), text.take(k)).depth == 0 by {
        if k == 0 {
            assert(text.take(k) == Seq::<char>::empty());
        } else {
            assert(text.take(k) == text);
        }
    }
}

proof fn escape_stays_quoted(c: char)
    ensures
        stays_quoted(seq!['\\', c]),
{
    let text = seq!['\\', c];
    let first = seq!['\\'];
    assert(first.drop_last() == Seq::<char>::empty());
    assert(behind(in_string(), Seq::<char>::empty()) == in_string());
    assert(behind(in_string(), first) == (Place { depth: 0, quoted: true, escaped: true }));
    assert(text.drop_last() == first);
    assert forall|k: int| 0 <= k <= text.len() implies (#[trigger] behind(
        in_string(),
        text.take(k),
    )).quoted && behind(in_string(), text.take(k)).depth == 0 by {
        if k == 0 {
            assert(text.take(k) == Seq::<char>::empty());
        } else if k == 1 {
            assert(text.take(k) == first);
        } else {
            assert(text.take(k) == text);
        }
    }
}

proof fn hex_digit_is_plain(d: int)
    requires
        0 <= d < 16,
    ensures
        hex_digit(d) != '"' && hex_digit(d) != '\\',
{
    reveal_strlit("0123456789abcdef");
}

proof fn json_char_stays_quoted(c: char)
    ensures
        stays_quoted(json_char(c)),
{
    escape_stays_quoted(c);
    escape_stays_quoted('b');
    escape_stays_quoted('t');
    escape_stays_quoted('n');
    escape_stays_quoted('f');
    escape_stays_quoted('r');
    if c <= '\u{1f}' {
        let high = hex_digit(c as int / 16);
        let low = hex_digit(c as int % 16);
        hex_digit_is_plain(c as int / 16);
        hex_digit_is_plain(c as int % 16);
        escape_stays_quoted('u');
        char_stays_quoted('0');
        char_stays_quoted(high);
        char_stays_quoted(low);
        let first = seq!['\\', 'u'];
        stays_quoted_both(first, seq!['0']);
        stays_quoted_both(first + seq!['0'], seq!['0']);
        stays_quoted_both(first + seq!['0'] + seq!['0'], seq![high]);
        stays_quoted_both(first + seq!['0'] + seq!['0'] + seq![high], seq![low]);
        assert(first + seq!['0'] + seq!['0'] + seq![high] + seq![low] == seq![
            '\\',
            'u',
            '0',
            '0',
            high,
            low,
        ]);
    } else if c != '"' && c != '\\' {
        char_stays_quoted(c);
    }
}

proof fn json_chars_stay_quoted(text: Seq<char>)
    ensures
        stays_quoted(json_chars(text)),
    decreases text.len(),
{
    if text.len() == 0 {
        nothing_stays_quoted();
    } else {
        json_chars_stay_quoted(text.drop_last());
        json_char_stays_quoted(text.last());
        stays_quoted_both(json_chars(text.drop_last()), json_char(text.last()));
    }
}

/// What is put in quotes can be an element, if nothing in it ends the string.
proof fn quotes_make_element(inside: Seq<char>)
    requires
        stays_quoted(inside),
    ensures
        is_element(seq!['"'] + inside + seq!['"']),
{
    let quote = seq!['"'];
    let text = quote + inside + quote;
    assert(quote.drop_last() == Seq::<char>::empty());
    assert(behind(start(), Seq::<char>::empty()) == start());
    assert(behind(start(), quote) == in_string());
    assert forall|k: int| 0 < k < text.len() implies (#[trigger] behind(
        start(),
        text.take(k),
    )).quoted && behind(start(), text.take(k)).depth == 0 by {
        assert(text.take(k) == quote + inside.take(k - 1));
        behind_both(start(), quote, inside.take(k - 1));
        assert(behind(in_string(), inside.take(k - 1)).quoted);
    }
    behind_both(start(), quote, inside);
    assert(text.drop_last() == quote + inside);
    assert(behind(start(), text) == start());
    assert(text.take(0) == Seq::<char>::empty());
    assert(text.take(text.len() as int) == text);
    assert forall|k: int| 0 <= k <= text.len() implies (#[trigger] behind(
        start(),
        text.take(k),
    )).depth >= 0 by {
        if 0 < k < text.len() {
            assert(behind(start(), text.take(k)).quoted);
        }
    }
    assert forall|k: int| 0 <= k < text.len() && text[k] == ',' implies !parts_at(
        #[trigger] behind(start(), text.take(k)),
    ) by {
        if k > 0 {
            assert(behind(start(), text.take(k)).quoted);
        }
    }
}

/// A JSON string can be an element, whatever text it stands for.
pub proof fn string_is_element(text: Seq<char>)
    ensures
        is_element(json_string(text)),
{
    json_chars_stay_quoted(text);
    quotes_make_element(json_chars(text));
}

/// A text of letters can be an element.
pub proof fn word_is_element(word: Seq<char>)
    requires
        word.len() > 0,
        forall|i: int| 0 <= i < word.len() ==> is_plain(#[trigger] word[i]),
    ensures
        is_element(word),
{
    plain_stays(start(), word);
    assert forall|k: int| 0 <= k <= word.len() implies (#[trigger] behind(
        start(),
        word.take(k),
    )).depth >= 0 by {
        plain_stays(start(), word.take(k));
    }
}

/// Whether a character has no meaning for where a text is parted.
pub open spec fn is_plain(c: char) -> bool {
    c != '"' && c != '\\' && c != '[' && c != ']' && c != '{' && c != '}' && c != ','
}

proof fn plain_stays(place: Place, word: Seq<char>)
    requires
        forall|i: int| 0 <= i < word.len() ==> is_plain(#[trigger] word[i]),
        !place.escaped,
    ensures
        behind(place, word) == place,
    decreases word.len(),
{
    if word.len() > 0 {
        let shorter = word.drop_last();
        assert forall|i: int| 0 <= i < shorter.len() implies is_plain(#[trigger] shorter[i]) by {
            assert(is_plain(word[i]));
        }
        plain_stays(place, shorter);
        assert(is_plain(word[word.len() - 1]));
    }
}

/// A member of an object can be an element: a name in quotes, a colon, and a value.
pub proof fn member_is_element(name: Seq<char>, value: Seq<char>)
    requires
        forall|i: int| 0 <= i < name.len() ==> is_plain(#[trigger] name[i]),
        is_element(value),
    ensures
        is_element(seq!['"'] + name + seq!['"', ':'] + value),
{
    plain_stays(in_string(), name);
    assert forall|k: int| 0 <= k <= name.len() implies (#[trigger] behind(
        in_string(),
        name.take(k),
    )).quoted && behind(in_string(), name.take(k)).depth == 0 by {
        plain_stays(in_string(), name.take(k));
    }
    quotes_make_element(name);
    word_is_element(seq![':']);
    let quoted = seq!['"'] + name + seq!['"'];
    element_both(quoted, seq![':']);
    element_both(quoted + seq![':'], value);
    assert(quoted + seq![':'] + value == seq!['"'] + name + seq!['"', ':'] + value);
}

} // verus!
