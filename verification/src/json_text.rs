//! The JSON text of a value of the data model.
//!
//! These spec functions say, character by character, what the JSON
//! serializer writes for each [`Data`] value; its output bytes are the UTF-8
//! encoding of this text.
use vstd::prelude::*;

use crate::data::Data;

verus! {

/// The decimal digit character for `d` in `0..10`.
pub open spec fn digit(d: int) -> char
    recommends
        0 <= d < 10,
{
    (d + 48) as char
}

/// The decimal digits of `n`, most significant first, without leading zeros.
pub open spec fn digits(n: nat) -> Seq<char>
    decreases n,
{
    if n < 10 {
        seq![digit(n as int)]
    } else {
        digits(n / 10).push(digit((n % 10) as int))
    }
}

/// The decimal text of an integer: a minus sign for negative values, then the
/// digits of its magnitude.
pub open spec fn decimal(i: int) -> Seq<char> {
    if i < 0 {
        seq!['-'] + digits((-i) as nat)
    } else {
        digits(i as nat)
    }
}

/// The lower-case hexadecimal digit character for `d` in `0..16`.
pub open spec fn hex_digit(d: int) -> char
    recommends
        0 <= d < 16,
{
    if d < 10 {
        (d + 48) as char
    } else {
        (d + 87) as char
    }
}

/// How one character stands inside a JSON string: backslash and quote are
/// escaped with a backslash; the control characters below U+0020 are
/// escaped as `\b`, `\t`, `\n`, `\f`, `\r` where those exist and as `\u00XX`
/// otherwise; every other character stands as itself.
pub open spec fn escape_char(c: char) -> Seq<char> {
    if c == '\\' {
        seq!['\\', '\\']
    } else if c == '"' {
        seq!['\\', '"']
    } else if c == '\n' {
        seq!['\\', 'n']
    } else if c == '\r' {
        seq!['\\', 'r']
    } else if c == '\t' {
        seq!['\\', 't']
    } else if c == '\u{8}' {
        seq!['\\', 'b']
    } else if c == '\u{c}' {
        seq!['\\', 'f']
    } else if (c as u32) < 0x20 {
        seq![
            '\\',
            'u',
            '0',
            '0',
            hex_digit((c as u32 / 16) as int),
            hex_digit((c as u32 % 16) as int),
        ]
    } else {
        seq![c]
    }
}

/// The escaped form of a whole character sequence.
pub open spec fn escaped(s: Seq<char>) -> Seq<char>
    decreases s.len(),
{
    if s.len() == 0 {
        Seq::empty()
    } else {
        escaped(s.drop_last()) + escape_char(s.last())
    }
}

/// A JSON string literal: the escaped characters between double quotes.
pub open spec fn json_string(s: Seq<char>) -> Seq<char> {
    seq!['"'] + escaped(s) + seq!['"']
}

/// The comma-separated decimal values of a byte sequence.
pub open spec fn byte_list(b: Seq<u8>) -> Seq<char>
    decreases b.len(),
{
    if b.len() == 0 {
        Seq::empty()
    } else if b.len() == 1 {
        digits(b[0] as nat)
    } else {
        byte_list(b.drop_last()) + seq![','] + digits(b.last() as nat)
    }
}

/// The text `null`.
pub open spec fn null_text() -> Seq<char> {
    seq!['n', 'u', 'l', 'l']
}

/// The text `true` or `false`.
pub open spec fn bool_text(b: bool) -> Seq<char> {
    if b {
        seq!['t', 'r', 'u', 'e']
    } else {
        seq!['f', 'a', 'l', 's', 'e']
    }
}

/// The JSON text of a value.
///
/// Optional values and newtypes are written as what they hold, units as
/// `null`, variants as an object with the variant name as its only key, lists
/// as arrays, maps and structs as objects.
pub open spec fn json_text(d: Data) -> Seq<char>
    decreases d,
{
    match d {
        Data::Bool(b) => bool_text(b),
        Data::I8(v) => decimal(v as int),
        Data::I16(v) => decimal(v as int),
        Data::I32(v) => decimal(v as int),
        Data::I64(v) => decimal(v as int),
        Data::I128(v) => decimal(v as int),
        Data::U8(v) => decimal(v as int),
        Data::U16(v) => decimal(v as int),
        Data::U32(v) => decimal(v as int),
        Data::U64(v) => decimal(v as int),
        Data::U128(v) => decimal(v as int),
        Data::Char(c) => json_string(seq![c]),
        Data::Str(s) => json_string(s),
        Data::Bytes(b) => seq!['['] + byte_list(b) + seq![']'],
        Data::NoneValue => null_text(),
        Data::SomeValue(v) => json_text(*v),
        Data::Unit => null_text(),
        Data::UnitStruct(_) => null_text(),
        Data::UnitVariant(_, _, v) => json_string(v),
        Data::NewtypeStruct(_, v) => json_text(*v),
        Data::NewtypeVariant(_, _, name, v) => seq!['{'] + json_string(name) + seq![':'] + json_text(
            *v,
        ) + seq!['}'],
        Data::Sequence(s) => seq!['['] + json_list(s) + seq![']'],
        Data::Tuple(s) => seq!['['] + json_list(s) + seq![']'],
        Data::TupleStruct(_, s) => seq!['['] + json_list(s) + seq![']'],
        Data::TupleVariant(_, _, name, s) => seq!['{'] + json_string(name) + seq![':', '[']
            + json_list(s) + seq![']', '}'],
        Data::Entries(e) => seq!['{'] + json_entries(e) + seq!['}'],
        Data::Struct(_, f) => seq!['{'] + json_fields(f) + seq!['}'],
        Data::StructVariant(_, _, name, f) => seq!['{'] + json_string(name) + seq![':', '{']
            + json_fields(f) + seq!['}', '}'],
    }
}

/// The comma-separated JSON texts of a list of values.
pub open spec fn json_list(s: Seq<Data>) -> Seq<char>
    decreases s,
{
    if s.len() == 0 {
        Seq::empty()
    } else if s.len() == 1 {
        json_text(s[0])
    } else {
        json_list(s.subrange(0, s.len() - 1)) + seq![','] + json_text(s[s.len() - 1])
    }
}

/// The comma-separated `key:value` texts of map entries.
pub open spec fn json_entries(e: Seq<(Data, Data)>) -> Seq<char>
    decreases e,
{
    if e.len() == 0 {
        Seq::empty()
    } else {
        let last = e[e.len() - 1];
        let rest = e.subrange(0, e.len() - 1);
        let entry = json_text(last.0) + seq![':'] + json_text(last.1);
        if e.len() == 1 {
            entry
        } else {
            json_entries(rest) + seq![','] + entry
        }
    }
}

/// The comma-separated `"name":value` texts of named fields.
pub open spec fn json_fields(f: Seq<(Seq<char>, Data)>) -> Seq<char>
    decreases f,
{
    if f.len() == 0 {
        Seq::empty()
    } else {
        let last = f[f.len() - 1];
        let rest = f.subrange(0, f.len() - 1);
        let field = json_string(last.0) + seq![':'] + json_text(last.1);
        if f.len() == 1 {
            field
        } else {
            json_fields(rest) + seq![','] + field
        }
    }
}

/// The comma that precedes an item when `n` items came before it.
pub open spec fn separator(n: nat) -> Seq<char> {
    if n == 0 {
        Seq::empty()
    } else {
        seq![',']
    }
}

/// The text of a compound value before its closing brackets: what stands
/// written while its elements, fields or entries are still being added.
/// For any other value it is the whole text.
pub open spec fn json_open(d: Data) -> Seq<char> {
    match d {
        Data::Sequence(s) => seq!['['] + json_list(s),
        Data::Tuple(s) => seq!['['] + json_list(s),
        Data::TupleStruct(_, s) => seq!['['] + json_list(s),
        Data::TupleVariant(_, _, name, s) => seq!['{'] + json_string(name) + seq![':', '[']
            + json_list(s),
        Data::Entries(e) => seq!['{'] + json_entries(e),
        Data::Struct(_, f) => seq!['{'] + json_fields(f),
        Data::StructVariant(_, _, name, f) => seq!['{'] + json_string(name) + seq![':', '{']
            + json_fields(f),
        _ => json_text(d),
    }
}

/// The closing brackets of a compound value; empty for any other value.
pub open spec fn json_close(d: Data) -> Seq<char> {
    match d {
        Data::Sequence(_) => seq![']'],
        Data::Tuple(_) => seq![']'],
        Data::TupleStruct(_, _) => seq![']'],
        Data::TupleVariant(_, _, _, _) => seq![']', '}'],
        Data::Entries(_) => seq!['}'],
        Data::Struct(_, _) => seq!['}'],
        Data::StructVariant(_, _, _, _) => seq!['}', '}'],
        _ => Seq::empty(),
    }
}

/// A character is written as a one-character string.
pub proof fn lemma_char_text(c: char)
    ensures
        json_text(Data::Char(c)) == json_string(seq![c]),
        json_string(seq![c]) == seq!['"'] + escape_char(c) + seq!['"'],
{
    assert(seq![c].drop_last() =~= Seq::<char>::empty());
    assert(seq![c].last() == c);
    assert(escaped(Seq::<char>::empty()) =~= Seq::<char>::empty());
    assert(escaped(seq![c]) =~= escape_char(c));
}

/// A value's text is its open part followed by its closing brackets.
pub proof fn lemma_open_close(d: Data)
    ensures
        json_text(d) == json_open(d) + json_close(d),
{
    assert(json_text(d) =~= json_open(d) + json_close(d));
}

/// Adding an element to a list adds a separator and the element's text.
pub proof fn lemma_list_push(s: Seq<Data>, e: Data)
    ensures
        json_list(s.push(e)) == json_list(s) + separator(s.len()) + json_text(e),
{
    let t = s.push(e);
    assert(t.subrange(0, t.len() - 1) =~= s);
    assert(t[t.len() - 1] == e);
    if s.len() == 0 {
        assert(json_list(s) =~= Seq::<char>::empty());
    }
    assert(json_list(t) =~= json_list(s) + separator(s.len()) + json_text(e));
}

/// Adding an entry to a map adds a separator and `key:value`.
pub proof fn lemma_entries_push(e: Seq<(Data, Data)>, k: Data, v: Data)
    ensures
        json_entries(e.push((k, v))) == json_entries(e) + separator(e.len()) + json_text(k)
            + seq![':'] + json_text(v),
{
    let t = e.push((k, v));
    assert(t.subrange(0, t.len() - 1) =~= e);
    assert(t[t.len() - 1] == (k, v));
    if e.len() == 0 {
        assert(json_entries(e) =~= Seq::<char>::empty());
    }
    assert(json_entries(t) =~= json_entries(e) + separator(e.len()) + json_text(k) + seq![':']
        + json_text(v));
}

/// Adding a field to a struct adds a separator and `"name":value`.
pub proof fn lemma_fields_push(f: Seq<(Seq<char>, Data)>, k: Seq<char>, v: Data)
    ensures
        json_fields(f.push((k, v))) == json_fields(f) + separator(f.len()) + json_string(k)
            + seq![':'] + json_text(v),
{
    let t = f.push((k, v));
    assert(t.subrange(0, t.len() - 1) =~= f);
    assert(t[t.len() - 1] == (k, v));
    if f.len() == 0 {
        assert(json_fields(f) =~= Seq::<char>::empty());
    }
    assert(json_fields(t) =~= json_fields(f) + separator(f.len()) + json_string(k) + seq![':']
        + json_text(v));
}

/// Adding an element to a list value extends its open text.
pub proof fn lemma_open_with_element(d: Data, e: Data)
    requires
        d.is_list(),
    ensures
        json_open(d.with_element(e)) == json_open(d) + separator(d.elements().len()) + json_text(
            e,
        ),
        json_close(d.with_element(e)) == json_close(d),
        d.with_element(e).is_list(),
        d.with_element(e).elements().len() == d.elements().len() + 1,
{
    lemma_list_push(d.elements(), e);
    assert(json_open(d.with_element(e)) =~= json_open(d) + separator(d.elements().len())
        + json_text(e));
}

/// Adding a field to a record value extends its open text.
pub proof fn lemma_open_with_field(d: Data, k: Seq<char>, v: Data)
    requires
        d.is_record(),
    ensures
        json_open(d.with_field(k, v)) == json_open(d) + separator(d.fields().len()) + json_string(
            k,
        ) + seq![':'] + json_text(v),
        json_close(d.with_field(k, v)) == json_close(d),
        d.with_field(k, v).is_record(),
        d.with_field(k, v).fields().len() == d.fields().len() + 1,
{
    lemma_fields_push(d.fields(), k, v);
    assert(json_open(d.with_field(k, v)) =~= json_open(d) + separator(d.fields().len())
        + json_string(k) + seq![':'] + json_text(v));
}

/// Adding an entry to a map value extends its open text.
pub proof fn lemma_open_with_entry(d: Data, k: Data, v: Data)
    requires
        d is Entries,
    ensures
        json_open(d.with_entry(k, v)) == json_open(d) + separator(d.entries().len()) + json_text(
            k,
        ) + seq![':'] + json_text(v),
        d.with_entry(k, v) is Entries,
        d.with_entry(k, v).entries().len() == d.entries().len() + 1,
{
    lemma_entries_push(d.entries(), k, v);
    assert(json_open(d.with_entry(k, v)) =~= json_open(d) + separator(d.entries().len())
        + json_text(k) + seq![':'] + json_text(v));
}

} // verus!
