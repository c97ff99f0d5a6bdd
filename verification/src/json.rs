//! JSON values as `serde_json` holds them.
//!
//! A `serde_json::Value` is carried through the library unopened. What the
//! contracts say of one, they say of its compact text.

use vstd::prelude::*;

verus! {

/// `serde_json::Value`: any JSON value. Nothing is known of what is inside one.
#[verifier::external_type_specification]
#[verifier::external_body]
pub struct ExValue(serde_json::Value);

/// `serde_json::Error`: why JSON could not be read or written.
#[verifier::external_type_specification]
#[verifier::external_body]
pub struct ExJsonError(serde_json::Error);

/// The compact JSON text of a value, as `serde_json::to_string` writes it.
pub uninterp spec fn json_text(value: serde_json::Value) -> Seq<char>;

/// The compact text of the value that `serde_json::from_str` reads from
/// `text`, or `None` where it refuses `text`.
pub uninterp spec fn json_parse(text: Seq<char>) -> Option<Seq<char>>;

/// The digit of `d` in base sixteen, in lower case.
pub open spec fn hex_digit(d: int) -> char {
    seq!['0', '1', '2', '3', '4', '5', '6', '7', '8', '9', 'a', 'b', 'c', 'd', 'e', 'f'][d]
}

/// One character of a string as JSON text holds it: the quote and the
/// backslash behind a backslash; backspace, tab, line feed, form feed and
/// carriage return by their letters; any other control character by its
/// code in four hex digits; every other character as it is.
pub open spec fn escaped(c: char) -> Seq<char> {
    if c == '"' {
        seq!['\\', '"']
    } else if c == '\\' {
        seq!['\\', '\\']
    } else if c == '\u{8}' {
        seq!['\\', 'b']
    } else if c == '\u{9}' {
        seq!['\\', 't']
    } else if c == '\u{a}' {
        seq!['\\', 'n']
    } else if c == '\u{c}' {
        seq!['\\', 'f']
    } else if c == '\u{d}' {
        seq!['\\', 'r']
    } else if (c as u32) < 0x20 {
        let code = (c as u32) as int;
        seq!['\\', 'u', '0', '0', hex_digit(code / 16), hex_digit(code % 16)]
    } else {
        seq![c]
    }
}

/// The JSON string literal for a string with this content: its characters,
/// each as `escaped` gives it, between quotes.
pub open spec fn string_text(content: Seq<char>) -> Seq<char> {
    seq!['"'] + content.map_values(|c: char| escaped(c)).flatten() + seq!['"']
}

/// A string in which no character needs an escape stands between its quotes
/// as it is.
pub proof fn lemma_plain_string_text(content: Seq<char>)
    requires
        forall|i: int| 0 <= i < content.len() ==> escaped(#[trigger] content[i]) == seq![content[i]],
    ensures
        string_text(content) == seq!['"'] + content + seq!['"'],
{
    lemma_plain_pieces(content);
}

/// The characters of a string in which none needs an escape, each as
/// `escaped` gives it, are the string.
proof fn lemma_plain_pieces(content: Seq<char>)
    requires
        forall|i: int| 0 <= i < content.len() ==> escaped(#[trigger] content[i]) == seq![content[i]],
    ensures
        content.map_values(|c: char| escaped(c)).flatten() == content,
    decreases content.len(),
{
    let pieces = content.map_values(|c: char| escaped(c));
    if content.len() == 0 {
        assert(pieces.flatten() =~= content);
    } else {
        let front = content.drop_last();
        lemma_plain_pieces(front);
        let front_pieces = front.map_values(|c: char| escaped(c));
        front_pieces.lemma_flatten_push(seq![content.last()]);
        assert(pieces =~= front_pieces.push(seq![content.last()]));
        assert(pieces.flatten() =~= content);
    }
}

/// Whether `a` comes before `b` in the order of `String`: at the first place
/// where they differ `a` has the smaller character, or `a` ends first.
pub open spec fn text_before(a: Seq<char>, b: Seq<char>) -> bool
    decreases a.len(),
{
    if b.len() == 0 {
        false
    } else if a.len() == 0 {
        true
    } else if a[0] != b[0] {
        (a[0] as u32) < (b[0] as u32)
    } else {
        text_before(a.drop_first(), b.drop_first())
    }
}

/// Whether the keys of `members` stand in strictly ascending order.
pub open spec fn ascending_keys(members: Seq<(Seq<char>, Seq<char>)>) -> bool {
    forall|i: int, j: int|
        0 <= i < j < members.len() ==> text_before(#[trigger] members[i].0, #[trigger] members[j].0)
}

/// The texts of `items` with commas between them.
pub open spec fn joined(items: Seq<Seq<char>>) -> Seq<char>
    decreases items.len(),
{
    if items.len() == 0 {
        Seq::empty()
    } else if items.len() == 1 {
        items[0]
    } else {
        joined(items.drop_last()) + seq![','] + items.last()
    }
}

/// One member of an object: its quoted key, a colon and the text of its value.
pub open spec fn member_text(member: (Seq<char>, Seq<char>)) -> Seq<char> {
    string_text(member.0) + seq![':'] + member.1
}

/// The compact text of the object with the given members, each a key and the
/// text of its value.
pub open spec fn object_text(members: Seq<(Seq<char>, Seq<char>)>) -> Seq<char> {
    seq!['{'] + joined(members.map_values(|member: (Seq<char>, Seq<char>)| member_text(member)))
        + seq!['}']
}

/// The compact text of the array whose items have the given texts.
pub open spec fn array_text(items: Seq<Seq<char>>) -> Seq<char> {
    seq!['['] + joined(items) + seq![']']
}

/// The text of a JSON boolean.
pub open spec fn bool_text(value: bool) -> Seq<char> {
    if value {
        seq!['t', 'r', 'u', 'e']
    } else {
        seq!['f', 'a', 'l', 's', 'e']
    }
}

/// The decimal digits of a natural number, without leading zeros.
pub open spec fn natural_text(n: nat) -> Seq<char>
    decreases n,
{
    let digit = seq!['0', '1', '2', '3', '4', '5', '6', '7', '8', '9'][n as int % 10];
    if n < 10 {
        seq![digit]
    } else {
        natural_text(n / 10).push(digit)
    }
}

/// The text of a JSON integer: its decimal digits, behind a minus sign
/// where it is negative.
pub open spec fn integer_text(n: int) -> Seq<char> {
    if n < 0 {
        seq!['-'] + natural_text((-n) as nat)
    } else {
        natural_text(n as nat)
    }
}

/// The texts of a list of values.
pub open spec fn value_texts(values: Seq<serde_json::Value>) -> Seq<Seq<char>> {
    values.map_values(|value: serde_json::Value| json_text(value))
}

/// The keys of `members` with the texts of their values.
pub open spec fn member_texts(members: Seq<(String, serde_json::Value)>) -> Seq<
    (Seq<char>, Seq<char>),
> {
    members.map_values(|member: (String, serde_json::Value)| (member.0@, json_text(member.1)))
}

/// Calls `serde_json::from_str` for a `Value`. The contract names the text of
/// what was read; it claims that the outcome depends on `text` alone.
#[verifier::external_body]
pub(crate) fn parse(text: &str) -> (r: Result<serde_json::Value, serde_json::Error>)
    ensures
        match r {
            Ok(value) => json_parse(text@) == Some(json_text(value)),
            Err(_) => json_parse(text@) is None,
        },
{
    serde_json::from_str::<serde_json::Value>(text)
}

/// Calls `serde_json::to_string` on a `Value`. The contract claims that
/// writing a `Value` succeeds: the writer is a buffer in memory, which takes
/// every write, and no kind of value refuses to be written. It claims too
/// that the text written depends on the value alone.
#[verifier::external_body]
pub(crate) fn to_text(value: &serde_json::Value) -> (r: Result<String, serde_json::Error>)
    ensures
        r is Ok,
        r matches Ok(text) ==> text@ == json_text(*value),
{
    serde_json::to_string(value)
}

/// Renders a `serde_json::Error` through its `Display`. Nothing is claimed of the text.
#[verifier::external_body]
pub(crate) fn error_message(error: &serde_json::Error) -> (r: String) {
    error.to_string()
}

/// Calls `Clone::clone` of `serde_json::Value`. The contract claims that the
/// copy has the text of the value that was copied.
#[verifier::external_body]
pub(crate) fn clone_value(value: &serde_json::Value) -> (r: serde_json::Value)
    ensures
        json_text(r) == json_text(*value),
{
    value.clone()
}

/// Calls `Default::default` of `serde_json::Value`, which is JSON's null.
/// The contract gives its text.
#[verifier::external_body]
pub(crate) fn null_value() -> (r: serde_json::Value)
    ensures
        json_text(r) == seq!['n', 'u', 'l', 'l'],
{
    serde_json::Value::default()
}

/// Calls `From<&str>` of `serde_json::Value`, which makes a JSON string. The
/// contract claims that its text is the string literal that JSON has for
/// the content, with the escapes that `serde_json` writes.
#[verifier::external_body]
pub(crate) fn string_value(content: &str) -> (r: serde_json::Value)
    ensures
        json_text(r) == string_text(content@),
{
    serde_json::Value::from(content)
}

/// Collects key-value pairs into a `serde_json::Value`, which makes a JSON
/// object. `serde_json` keeps the members of an object sorted by key, or in
/// the order of insertion where it is built to preserve that; for keys
/// given in strictly ascending order both are the order given. The contract
/// claims, for such keys, that the object's text holds the members in that
/// order, as `serde_json`'s compact form writes them.
#[verifier::external_body]
pub(crate) fn object_value(members: Vec<(String, serde_json::Value)>) -> (r: serde_json::Value)
    ensures
        ascending_keys(member_texts(members@)) ==> json_text(r) == object_text(
            member_texts(members@),
        ),
{
    members.into_iter().collect()
}

/// Calls `From<Vec<Value>>` of `serde_json::Value`, which makes a JSON
/// array. The contract claims that the array's text holds the items in
/// their order, as `serde_json`'s compact form writes them.
#[verifier::external_body]
pub(crate) fn array_value(items: Vec<serde_json::Value>) -> (r: serde_json::Value)
    ensures
        json_text(r) == array_text(value_texts(items@)),
{
    serde_json::Value::from(items)
}

/// Calls `From<bool>` of `serde_json::Value`. The contract gives its text.
#[verifier::external_body]
pub(crate) fn bool_value(value: bool) -> (r: serde_json::Value)
    ensures
        json_text(r) == bool_text(value),
{
    serde_json::Value::from(value)
}

/// Calls `From<i64>` of `serde_json::Value`, which makes a JSON number. The
/// contract claims that its text is the number in decimal.
#[verifier::external_body]
pub(crate) fn integer_value(value: i64) -> (r: serde_json::Value)
    ensures
        json_text(r) == integer_text(value as int),
{
    serde_json::Value::from(value)
}

} // verus!
