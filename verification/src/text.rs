//! Text: digits, replacement and trimming.

use crate::duplicate::lemma_bytes_deep_view;
use vstd::prelude::*;
use vstd::string::StringExecFns;
use vstd::utf8::encode_utf8;

verus! {

broadcast use vstd::seq::group_seq_axioms;

/// The character for a digit below sixteen, in lower case.
pub open spec fn digit(value: nat) -> char {
    if value < 10 {
        ('0' as nat + value) as char
    } else {
        ('a' as nat + (value - 10)) as char
    }
}

/// A number written out in the given base, without leading zeros.
pub open spec fn digits(number: nat, base: nat) -> Seq<char>
    decreases number,
{
    if base < 2 || number < base {
        seq![digit(number)]
    } else {
        proof {
            assert(number / base < number) by (nonlinear_arith)
                requires
                    number >= base,
                    base >= 2,
            ;
        }
        digits(number / base, base).push(digit(number % base))
    }
}

/// A number in decimal.
pub open spec fn decimal(number: nat) -> Seq<char> {
    digits(number, 10)
}

/// `text`, with zeros in front until it is `width` characters long.
pub open spec fn zero_padded(text: Seq<char>, width: nat) -> Seq<char>
    decreases width - text.len(),
{
    if text.len() < width {
        zero_padded(seq!['0'] + text, width)
    } else {
        text
    }
}

/// `text` with every occurrence of `from`, found from left to right, replaced by `to`.
pub open spec fn replaced(text: Seq<char>, from: Seq<char>, to: Seq<char>) -> Seq<char>
    decreases text.len(),
{
    if from.len() == 0 || text.len() < from.len() {
        text
    } else if text.take(from.len() as int) == from {
        to + replaced(text.skip(from.len() as int), from, to)
    } else {
        seq![text[0]] + replaced(text.skip(1), from, to)
    }
}

/// `text` without the run of `unwanted` at its end.
pub open spec fn trimmed_end(text: Seq<char>, unwanted: char) -> Seq<char>
    decreases text.len(),
{
    if text.len() > 0 && text.last() == unwanted {
        trimmed_end(text.drop_last(), unwanted)
    } else {
        text
    }
}

/// Texts with a comma and a blank between them.
pub open spec fn with_commas(texts: Seq<Seq<char>>) -> Seq<char>
    decreases texts.len(),
{
    if texts.len() == 0 {
        Seq::empty()
    } else if texts.len() == 1 {
        texts[0]
    } else {
        with_commas(texts.drop_last()) + ", "@ + texts.last()
    }
}

/// Texts as a list in square brackets.
pub open spec fn bracketed(texts: Seq<Seq<char>>) -> Seq<char> {
    "["@ + with_commas(texts) + "]"@
}

/// Bytes as a list of decimal numbers.
pub open spec fn bytes_listed(bytes: Seq<u8>) -> Seq<char> {
    bracketed(bytes.map_values(|byte: u8| decimal(byte as nat)))
}

/// Runs of bytes as a list of lists.
pub open spec fn byte_runs_listed(runs: Seq<Seq<u8>>) -> Seq<char> {
    bracketed(runs.map_values(|bytes: Seq<u8>| bytes_listed(bytes)))
}

fn digit_char(value: u8) -> (ch: char)
    requires
        value < 16,
    ensures
        ch == digit(value as nat),
{
    if value < 10 {
        (48 + value) as char
    } else {
        (87 + value) as char
    }
}

/// Writes a number in the given base.
pub(crate) fn number_text(number: u64, base: u8) -> (text: String)
    requires
        2 <= base <= 16,
    ensures
        text@ == digits(number as nat, base as nat),
    decreases number,
{
    if number < base as u64 {
        let mut text = String::new();
        text.push(digit_char(number as u8));
        assert(text@ =~= seq![digit(number as nat)]);
        text
    } else {
        assert(number / (base as u64) < number) by (nonlinear_arith)
            requires
                number >= base,
                base >= 2,
        ;
        let mut text = number_text(number / base as u64, base);
        let last: u8 = (number % base as u64) as u8;
        text.push(digit_char(last));
        text
    }
}

/// Writes a number in decimal.
pub(crate) fn decimal_text(number: u64) -> (text: String)
    ensures
        text@ == decimal(number as nat),
{
    number_text(number, 10)
}

/// Puts zeros in front of `text` until it is `width` characters long.
pub(crate) fn pad_with_zeros(text: String, width: usize) -> (padded: String)
    ensures
        padded@ == zero_padded(text@, width as nat),
{
    let mut padded = text;
    let mut length: usize = padded.as_str().unicode_len();
    while length < width
        invariant
            length == padded@.len(),
            zero_padded(padded@, width as nat) == zero_padded(text@, width as nat),
        decreases width - length,
    {
        let mut longer = String::new();
        longer.push('0');
        longer.append(padded.as_str());
        proof {
            assert(longer@ =~= seq!['0'] + padded@);
        }
        padded = longer;
        length = length + 1;
    }
    padded
}

/// The characters of a text.
pub(crate) fn characters(text: &str) -> (chars: Vec<char>)
    ensures
        chars@ == text@,
{
    let mut chars: Vec<char> = Vec::new();
    for ch in it: text.chars()
        invariant
            chars@ == it.seq().take(it.index() as int),
            it.seq() == text@,
    {
        chars.push(ch);
    }
    chars
}

/// Adds characters at the end of a text.
fn append_characters(text: &mut String, chars: &Vec<char>)
    ensures
        final(text)@ == old(text)@ + chars@,
{
    let mut at: usize = 0;
    while at < chars.len()
        invariant
            at <= chars.len(),
            text@ == old(text)@ + chars@.take(at as int),
        decreases chars.len() - at,
    {
        text.push(chars[at]);
        assert(chars@.take(at + 1) =~= chars@.take(at as int).push(chars@[at as int]));
        at = at + 1;
    }
    assert(chars@.take(at as int) =~= chars@);
}

/// Whether `part` stands in `text` at position `at`.
fn stands_at(text: &Vec<char>, part: &Vec<char>, at: usize) -> (found: bool)
    requires
        at + part.len() <= text.len(),
    ensures
        found == (text@.skip(at as int).take(part.len() as int) == part@),
{
    let mut offset: usize = 0;
    while offset < part.len()
        invariant
            offset <= part.len(),
            at + part.len() <= text.len(),
            forall|i: int| 0 <= i < offset ==> text@[at + i] == part@[i],
        decreases part.len() - offset,
    {
        if text[at + offset] != part[offset] {
            assert(text@.skip(at as int).take(part.len() as int)[offset as int] != part@[offset as int]);
            return false;
        }
        offset = offset + 1;
    }
    assert(text@.skip(at as int).take(part.len() as int) =~= part@);
    true
}

/// Replaces every occurrence of `from` in `text` by `to`.
pub(crate) fn replace_all(text: &str, from: &str, to: &str) -> (result: String)
    requires
        from@.len() > 0,
    ensures
        result@ == replaced(text@, from@, to@),
{
    let chars = characters(text);
    let pattern = characters(from);
    let mut result = String::new();
    let mut at: usize = 0;
    assert(chars@.skip(0) =~= chars@);
    assert(result@ + replaced(text@, from@, to@) =~= replaced(text@, from@, to@));
    while chars.len() - at >= pattern.len()
        invariant
            at <= chars.len(),
            chars@ == text@,
            pattern@ == from@,
            pattern.len() > 0,
            replaced(text@, from@, to@) == result@ + replaced(text@.skip(at as int), from@, to@),
        decreases chars.len() - at,
    {
        let ghost rest = text@.skip(at as int);
        if stands_at(&chars, &pattern, at) {
            let ghost before = result@;
            result.append(to);
            proof {
                assert(rest.skip(from@.len() as int) =~= text@.skip(at + from@.len()));
                let tail = replaced(text@.skip(at + from@.len()), from@, to@);
                assert(before + (to@ + tail) =~= (before + to@) + tail);
            }
            at = at + pattern.len();
        } else {
            let ghost before = result@;
            result.push(chars[at]);
            proof {
                assert(rest.skip(1) =~= text@.skip(at + 1));
                let tail = replaced(text@.skip(at + 1), from@, to@);
                assert(before + (seq![rest[0]] + tail) =~= before.push(rest[0]) + tail);
            }
            at = at + 1;
        }
    }
    while at < chars.len()
        invariant
            at <= chars.len(),
            chars@ == text@,
            replaced(text@, from@, to@) == result@ + text@.skip(at as int),
        decreases chars.len() - at,
    {
        let ghost before = result@;
        result.push(chars[at]);
        proof {
            assert(before + text@.skip(at as int) =~= before.push(text@[at as int]) + text@.skip(at + 1));
        }
        at = at + 1;
    }
    assert(result@ + text@.skip(at as int) =~= result@);
    result
}

/// Drops the run of `unwanted` at the end of a text.
pub(crate) fn trim_end(text: &str, unwanted: char) -> (result: String)
    ensures
        result@ == trimmed_end(text@, unwanted),
{
    let mut chars = characters(text);
    while chars.len() > 0 && chars[chars.len() - 1] == unwanted
        invariant
            trimmed_end(chars@, unwanted) == trimmed_end(text@, unwanted),
        decreases chars.len(),
    {
        chars.pop();
    }
    let mut result = String::new();
    append_characters(&mut result, &chars);
    assert(result@ =~= chars@);
    result
}

/// Joins two texts.
pub(crate) fn join(first: &str, second: &str) -> (result: String)
    ensures
        result@ == first@ + second@,
{
    let mut result = first.to_owned();
    result.append(second);
    result
}

/// Adds a text to a list of texts that are parted by commas.
fn append_with_comma(list: &mut String, first: bool, text: &str, texts: Ghost<Seq<Seq<char>>>)
    requires
        old(list)@ == with_commas(texts@),
        first == (texts@.len() == 0),
    ensures
        final(list)@ == with_commas(texts@.push(text@)),
{
    if !first {
        list.append(", ");
    }
    list.append(text);
    proof {
        assert(texts@.push(text@).drop_last() =~= texts@);
        assert(Seq::<char>::empty() + text@ =~= text@);
    }
}

/// Writes bytes as a list of decimal numbers.
pub(crate) fn list_bytes(bytes: &Vec<u8>) -> (text: String)
    ensures
        text@ == bytes_listed(bytes@),
{
    let mut list = String::new();
    let mut at: usize = 0;
    let ghost texts = bytes@.map_values(|byte: u8| decimal(byte as nat));
    while at < bytes.len()
        invariant
            at <= bytes.len(),
            texts == bytes@.map_values(|byte: u8| decimal(byte as nat)),
            list@ == with_commas(texts.take(at as int)),
        decreases bytes.len() - at,
    {
        let text = decimal_text(bytes[at] as u64);
        append_with_comma(&mut list, at == 0, text.as_str(), Ghost(texts.take(at as int)));
        assert(texts.take(at + 1) =~= texts.take(at as int).push(text@));
        at = at + 1;
    }
    assert(texts.take(at as int) =~= texts);
    join("[", list.as_str()).concat("]")
}

/// Writes runs of bytes as a list of lists.
pub(crate) fn list_byte_runs(runs: &Vec<Vec<u8>>) -> (text: String)
    ensures
        text@ == byte_runs_listed(runs.deep_view()),
{
    broadcast use lemma_bytes_deep_view;

    let mut list = String::new();
    let mut at: usize = 0;
    let ghost texts = runs.deep_view().map_values(|bytes: Seq<u8>| bytes_listed(bytes));
    while at < runs.len()
        invariant
            at <= runs.len(),
            texts == runs.deep_view().map_values(|bytes: Seq<u8>| bytes_listed(bytes)),
            list@ == with_commas(texts.take(at as int)),
        decreases runs.len() - at,
    {
        let text = list_bytes(&runs[at]);
        assert(runs.deep_view()[at as int] == runs@[at as int].deep_view());
        assert(runs@[at as int].deep_view() == runs@[at as int]@);
        assert(texts[at as int] == text@);
        append_with_comma(&mut list, at == 0, text.as_str(), Ghost(texts.take(at as int)));
        assert(texts.take(at + 1) =~= texts.take(at as int).push(text@));
        at = at + 1;
    }
    assert(texts.take(at as int) =~= texts);
    join("[", list.as_str()).concat("]")
}

/// The UTF-8 form of a text.
pub(crate) fn utf8_bytes(text: &str) -> (bytes: Vec<u8>)
    ensures
        bytes@ == encode_utf8(text@),
{
    let source = text.as_bytes();
    let mut bytes: Vec<u8> = Vec::new();
    let mut at: usize = 0;
    while at < source.len()
        invariant
            at <= source@.len(),
            bytes@ == source@.take(at as int),
        decreases source@.len() - at,
    {
        bytes.push(source[at]);
        at = at + 1;
        assert(source@.take(at as int) =~= source@.take(at - 1).push(source@[at - 1]));
    }
    assert(source@.take(at as int) =~= source@);
    bytes
}

} // verus!
