//! What the library takes from other crates and from std, and what is claimed of it.
//!
//! Nothing in this file is proved: every contract here is believed.

use crate::text::decimal;
use base64::Engine;
use vstd::prelude::*;
use vstd::utf8::encode_utf8;

verus! {

// std
// ---------------------------------------------------------------------------------------------
/// `String::push` adds one character at the end.
pub assume_specification[ String::push ](text: &mut String, ch: char)
    ensures
        final(text)@ == old(text)@.push(ch),
;

// rand
// ---------------------------------------------------------------------------------------------
/// Calls `rand::random`. Any number may come back.
#[verifier::external_body]
pub(crate) fn random_number() -> (number: u64) {
    rand::random::<u64>()
}

// urlencoding
// ---------------------------------------------------------------------------------------------
/// A hexadecimal digit in upper case.
pub open spec fn upper_hex(value: int) -> char {
    if value < 10 {
        ('0' as int + value) as char
    } else {
        ('A' as int + (value - 10)) as char
    }
}

/// The bytes that stand for themselves in a URL component: letters, digits, `-`, `.`, `_` and `~`.
pub open spec fn is_unreserved(byte: u8) -> bool {
    ||| 48 <= byte <= 57
    ||| 65 <= byte <= 90
    ||| 97 <= byte <= 122
    ||| byte == 45
    ||| byte == 46
    ||| byte == 95
    ||| byte == 126
}

/// Bytes in a URL component: the unreserved ones as they are, the others as `%` and two digits.
pub open spec fn percent_encoded(bytes: Seq<u8>) -> Seq<char>
    decreases bytes.len(),
{
    if bytes.len() == 0 {
        Seq::empty()
    } else if is_unreserved(bytes.last()) {
        percent_encoded(bytes.drop_last()) + seq![bytes.last() as char]
    } else {
        percent_encoded(bytes.drop_last()) + seq![
            '%',
            upper_hex(bytes.last() as int / 16),
            upper_hex(bytes.last() as int % 16),
        ]
    }
}

/// Calls `urlencoding::encode`, which percent-encodes every byte of the UTF-8 form of a text
/// except letters, digits, `-`, `.`, `_` and `~`.
#[verifier::external_body]
pub(crate) fn encode_component(text: &str) -> (encoded: String)
    ensures
        encoded@ == percent_encoded(encode_utf8(text@)),
{
    urlencoding::encode(text).into_owned()
}

// base64
// ---------------------------------------------------------------------------------------------
/// The character for six bits in the standard alphabet.
pub open spec fn base64_digit(bits: int) -> char {
    if bits < 26 {
        ('A' as int + bits) as char
    } else if bits < 52 {
        ('a' as int + (bits - 26)) as char
    } else if bits < 62 {
        ('0' as int + (bits - 52)) as char
    } else if bits == 62 {
        '+'
    } else {
        '/'
    }
}

/// Bytes in base64 with the standard alphabet: three bytes give four characters, and `=` fills
/// up the last four.
pub open spec fn base64_text(bytes: Seq<u8>) -> Seq<char>
    decreases bytes.len(),
{
    if bytes.len() == 0 {
        Seq::empty()
    } else if bytes.len() == 1 {
        seq![base64_digit(bytes[0] as int / 4), base64_digit(bytes[0] as int % 4 * 16), '=', '=']
    } else if bytes.len() == 2 {
        seq![
            base64_digit(bytes[0] as int / 4),
            base64_digit(bytes[0] as int % 4 * 16 + bytes[1] as int / 16),
            base64_digit(bytes[1] as int % 16 * 4),
            '=',
        ]
    } else {
        seq![
            base64_digit(bytes[0] as int / 4),
            base64_digit(bytes[0] as int % 4 * 16 + bytes[1] as int / 16),
            base64_digit(bytes[1] as int % 16 * 4 + bytes[2] as int / 64),
            base64_digit(bytes[2] as int % 64),
        ] + base64_text(bytes.skip(3))
    }
}

/// Calls `encode` of `base64::engine::general_purpose::STANDARD`, which writes bytes in base64
/// with the standard alphabet and padding.
#[verifier::external_body]
pub(crate) fn encode_base64(bytes: &Vec<u8>) -> (encoded: String)
    ensures
        encoded@ == base64_text(bytes@),
{
    base64::engine::general_purpose::STANDARD.encode(bytes)
}

// serde_json
// ---------------------------------------------------------------------------------------------
/// `serde_json::Value`, a JSON document.
#[verifier::external_type_specification]
#[verifier::external_body]
pub struct ExJsonValue(serde_json::Value);

/// `serde_json::Error`, carried through only.
#[verifier::external_type_specification]
#[verifier::external_body]
pub struct ExJsonError(serde_json::Error);

/// A JSON document written out without blanks.
pub uninterp spec fn json_text(value: serde_json::Value) -> Seq<char>;

/// The document under a name of the object that a text spells; none where the text spells
/// no object or the object lacks the name.
pub uninterp spec fn json_member(text: Seq<char>, name: Seq<char>) -> Option<Seq<char>>;

/// The documents in the array that a text spells; none where it spells no array.
pub uninterp spec fn json_elements(text: Seq<char>) -> Option<Seq<Seq<char>>>;

/// The characters of the string that a text spells; none where it spells no string.
pub uninterp spec fn json_string(text: Seq<char>) -> Option<Seq<char>>;

/// Cloning a `serde_json::Value` gives a document with the same text.
pub assume_specification[ <serde_json::Value as Clone>::clone ](value: &serde_json::Value) -> (copy: serde_json::Value)
    ensures
        json_text(copy) == json_text(*value),
;

/// Calls `serde_json::to_string` on a document. That succeeds: a document has string keys only,
/// and writing to memory does not fail.
#[verifier::external_body]
pub(crate) fn write_json(value: &serde_json::Value) -> (text: Result<String, serde_json::Error>)
    ensures
        text is Ok,
        text->Ok_0@ == json_text(*value),
{
    serde_json::to_string(value)
}

/// The text of the document that some bytes spell; none where they spell no document.
pub uninterp spec fn json_document(bytes: Seq<u8>) -> Option<Seq<char>>;

/// Calls `serde_json::from_slice` for a document. The result is a function of the bytes.
#[verifier::external_body]
pub(crate) fn read_json(bytes: &Vec<u8>) -> (document: Result<serde_json::Value, serde_json::Error>)
    ensures
        document is Ok == json_document(bytes@) is Some,
        document is Ok ==> json_document(bytes@) == Some(json_text(document->Ok_0)),
{
    serde_json::from_slice(bytes)
}

/// Calls `serde_json::Value::get` with a name. The result is a function of the document, which
/// its text determines, and the name.
#[verifier::external_body]
pub(crate) fn get_json_member<'a>(value: &'a serde_json::Value, name: &str) -> (member: Option<&'a serde_json::Value>)
    ensures
        member is Some == json_member(json_text(*value), name@) is Some,
        member is Some ==> json_member(json_text(*value), name@) == Some(json_text(*member->0)),
{
    value.get(name)
}

/// Calls `serde_json::Value::as_array`. The result is a function of the document, which its text
/// determines.
#[verifier::external_body]
pub(crate) fn get_json_elements(value: &serde_json::Value) -> (elements: Option<&Vec<serde_json::Value>>)
    ensures
        elements is Some == json_elements(json_text(*value)) is Some,
        elements is Some ==> json_elements(json_text(*value)) == Some(
            elements->0@.map_values(|element: serde_json::Value| json_text(element)),
        ),
{
    value.as_array()
}

/// Calls `serde_json::Value::as_str`. The result is a function of the document, which its text
/// determines.
#[verifier::external_body]
pub(crate) fn get_json_string(value: &serde_json::Value) -> (string: Option<&str>)
    ensures
        string is Some == json_string(json_text(*value)) is Some,
        string is Some ==> json_string(json_text(*value)) == Some(string->0@),
{
    value.as_str()
}

/// The last document that some members give a name.
pub open spec fn last_named(members: Seq<(Seq<char>, Seq<char>)>, name: Seq<char>) -> Option<Seq<char>>
    decreases members.len(),
{
    if members.len() == 0 {
        None
    } else if members.last().0 == name {
        Some(members.last().1)
    } else {
        last_named(members.drop_last(), name)
    }
}

/// Names and documents, the documents by their texts.
pub open spec fn member_texts(members: Seq<(String, serde_json::Value)>) -> Seq<(Seq<char>, Seq<char>)> {
    members.map_values(|member: (String, serde_json::Value)| (member.0@, json_text(member.1)))
}

/// Whether a JSON text is that of an object: no other document begins with a brace.
pub open spec fn begins_object(text: Seq<char>) -> bool {
    text.len() > 0 && text[0] == '{'
}

/// Collects a `serde_json::Map` from names and documents and makes a `serde_json::Value` of it. The
/// object has those members and no others; where a name occurs twice, the last document counts. Its
/// text begins as that of every object does.
#[verifier::external_body]
pub(crate) fn make_json_object(members: Vec<(String, serde_json::Value)>) -> (object: serde_json::Value)
    ensures
        forall|name: Seq<char>| #[trigger]
            json_member(json_text(object), name) == last_named(member_texts(members@), name),
        begins_object(json_text(object)),
{
    serde_json::Value::Object(members.into_iter().collect::<serde_json::Map<String, serde_json::Value>>())
}

/// Makes a `serde_json::Value` of a text. Reading it as a string gives the text.
#[verifier::external_body]
pub(crate) fn make_json_string(text: &str) -> (string: serde_json::Value)
    ensures
        json_string(json_text(string)) == Some(text@),
{
    serde_json::Value::from(text)
}

/// Makes a `serde_json::Value` of a number, which is written in decimal.
#[verifier::external_body]
pub(crate) fn make_json_number(number: u32) -> (value: serde_json::Value)
    ensures
        json_text(value) == decimal(number as nat),
{
    serde_json::Value::from(number)
}

// http
// ---------------------------------------------------------------------------------------------
/// `http::HeaderMap`, header names with their values.
#[verifier::external_type_specification]
#[verifier::external_body]
#[verifier::reject_recursive_types(T)]
pub struct ExHeaderMap<T>(http::HeaderMap<T>);

/// `http::HeaderValue`, the value of a header.
#[verifier::external_type_specification]
#[verifier::external_body]
pub struct ExHeaderValue(http::HeaderValue);

/// The characters of a token: letters, digits and fifteen signs.
pub open spec fn is_token_char(ch: char) -> bool {
    ||| '0' <= ch <= '9'
    ||| 'A' <= ch <= 'Z'
    ||| 'a' <= ch <= 'z'
    ||| ch == '!' || ch == '#' || ch == '$' || ch == '%' || ch == '&' || ch == '\'' || ch == '*' || ch == '+'
    ||| ch == '-' || ch == '.' || ch == '^' || ch == '_' || ch == '`' || ch == '|' || ch == '~'
}

/// A text of token characters, at least one.
pub open spec fn is_token(text: Seq<char>) -> bool {
    &&& text.len() > 0
    &&& forall|i: int| 0 <= i < text.len() ==> is_token_char(#[trigger] text[i])
}

/// A text that can be the name of a header.
pub open spec fn is_header_name(text: Seq<char>) -> bool {
    is_token(text) && text.len() <= 65535
}

/// A text that can be the value of a header: no control character but the tab.
pub open spec fn is_header_value(text: Seq<char>) -> bool {
    forall|i: int|
        0 <= i < text.len() ==> {
            ||| (#[trigger] text[i]) as u32 >= 32 && text[i] as u32 != 127
            ||| text[i] as u32 == 9
        }
}

/// A character with the letters `A` to `Z` made small.
pub open spec fn small_letter(ch: char) -> char {
    if 'A' <= ch <= 'Z' {
        (ch as u32 + 32) as char
    } else {
        ch
    }
}

/// A text with the letters `A` to `Z` made small.
pub open spec fn small_letters(text: Seq<char>) -> Seq<char> {
    text.map_values(|ch: char| small_letter(ch))
}

/// A byte that a header value may hold where it is to be read as text: visible ASCII, the blank
/// and the tab.
pub open spec fn is_readable(byte: u8) -> bool {
    32 <= byte < 127 || byte == 9
}

/// Bytes read as characters, one for one.
pub open spec fn ascii_text(bytes: Seq<u8>) -> Seq<char> {
    bytes.map_values(|byte: u8| byte as char)
}

/// The pairs that a header map hands out when it is walked: a name once per value, the values of
/// a name next to each other and in the order in which they were added.
pub uninterp spec fn header_pairs(map: http::HeaderMap<http::HeaderValue>) -> Seq<(Seq<char>, Seq<u8>)>;

/// Pairs with a value added to a name: behind the values that the name has, or else at the end.
pub open spec fn with_pair(pairs: Seq<(Seq<char>, Seq<u8>)>, name: Seq<char>, value: Seq<u8>) -> Seq<
    (Seq<char>, Seq<u8>),
>
    decreases pairs.len(),
{
    if pairs.len() == 0 || pairs.last().0 == name || !names_pair(pairs, name) {
        pairs.push((name, value))
    } else {
        with_pair(pairs.drop_last(), name, value).push(pairs.last())
    }
}

/// Whether a name has a value among some pairs.
pub open spec fn names_pair(pairs: Seq<(Seq<char>, Seq<u8>)>, name: Seq<char>) -> bool {
    exists|i: int| 0 <= i < pairs.len() && (#[trigger] pairs[i]).0 == name
}

/// The number of pairs below which a header map always takes another one.
pub open spec fn header_room() -> nat {
    6554
}

/// Calls `parse` for `http::Method`, which takes any token.
#[verifier::external_body]
pub(crate) fn parses_as_method(text: &str) -> (parses: bool)
    ensures
        parses == is_token(text@),
{
    text.parse::<http::Method>().is_ok()
}

/// Whether `http::Uri` takes a text.
pub uninterp spec fn is_uri(text: Seq<char>) -> bool;

/// Calls `parse` for `http::Uri`.
#[verifier::external_body]
pub(crate) fn parses_as_uri(text: &str) -> (parses: bool)
    ensures
        parses == is_uri(text@),
{
    text.parse::<http::Uri>().is_ok()
}

/// Calls `parse` for `http::HeaderValue`, which takes any text without control characters other
/// than the tab.
#[verifier::external_body]
pub(crate) fn parses_as_header_value(text: &str) -> (parses: bool)
    ensures
        parses == is_header_value(text@),
{
    text.parse::<http::HeaderValue>().is_ok()
}

/// Calls `http::HeaderMap::new`, which gives an empty map.
#[verifier::external_body]
pub(crate) fn new_header_map() -> (map: http::HeaderMap)
    ensures
        header_pairs(map) == Seq::<(Seq<char>, Seq<u8>)>::empty(),
{
    http::HeaderMap::new()
}

/// Calls `http::HeaderMap::try_append` with a name and a value made from two texts. Where the first
/// text is no name, the second no value, or the map too full, it fails with the text of the error
/// that says so, in this order. A map with fewer pairs than [`header_room`] is not too full; whether
/// a fuller one is may depend on chance and is left open. Names are kept in small letters, values as
/// UTF-8. A failure leaves the pairs as they were.
#[verifier::external_body]
pub(crate) fn append_header(map: &mut http::HeaderMap, name: &str, value: &str) -> (appended: Result<(), String>)
    ensures
        !is_header_name(name@) ==> appended is Err && appended->Err_0@ == "invalid HTTP header name"@,
        is_header_name(name@) && !is_header_value(value@) ==> appended is Err && appended->Err_0@
            == "failed to parse header value"@,
        is_header_name(name@) && is_header_value(value@) && appended is Err ==> appended->Err_0@ == "max size reached"@,
        is_header_name(name@) && is_header_value(value@) && header_pairs(*old(map)).len() < header_room()
            ==> appended is Ok,
        appended is Ok ==> header_pairs(*final(map)) == with_pair(
            header_pairs(*old(map)),
            small_letters(name@),
            encode_utf8(value@),
        ),
        appended is Err ==> header_pairs(*final(map)) == header_pairs(*old(map)),
{
    let name = name.parse::<http::HeaderName>().map_err(|error| error.to_string())?;
    let value = value.parse::<http::HeaderValue>().map_err(|error| error.to_string())?;
    map.try_append(name, value).map_err(|error| error.to_string())?;
    Ok(())
}

/// Walks an `http::HeaderMap` with `iter`.
#[verifier::external_body]
pub(crate) fn list_headers(map: &http::HeaderMap) -> (pairs: Vec<(String, Vec<u8>)>)
    ensures
        pairs.deep_view() == header_pairs(*map),
{
    map.iter().map(|(name, value)| (name.to_string(), value.as_bytes().to_vec())).collect()
}

/// Calls `http::HeaderValue::to_str` on the value that holds some bytes. It succeeds where every
/// byte is visible ASCII, a blank or a tab, and gives the bytes as characters.
#[verifier::external_body]
pub(crate) fn read_header_value(bytes: &Vec<u8>) -> (text: Option<String>)
    ensures
        text is Some == (forall|i: int| 0 <= i < bytes@.len() ==> is_readable(#[trigger] bytes@[i])),
        text is Some ==> text->0@ == ascii_text(bytes@),
{
    let value = http::HeaderValue::from_bytes(bytes).ok()?;
    value.to_str().ok().map(|text| text.to_string())
}

} // verus!
