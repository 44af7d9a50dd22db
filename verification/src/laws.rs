//! Properties of the JSON serializer that span calls: what its buffer holds
//! after any sequence of writes, and that the text it writes for strings and
//! numbers reads back as what was written.
use vstd::prelude::*;
use vstd::utf8::{
    char_u32_cast, decode_utf8, decode_utf8_encode_utf8, encode_utf8, encode_utf8_decode_utf8,
    encode_utf8_valid_utf8, valid_utf8,
};

use crate::data::Data;
use crate::json::{
    map_pending_text, JsonSerializeMap, JsonSerializeSeq, JsonSerializeStruct,
    JsonSerializeStructVariant, JsonSerializeTuple, JsonSerializeTupleStruct,
    JsonSerializeTupleVariant, JsonSerializer,
};
use crate::json_text::{
    decimal, digit, digits, escape_char, escaped, hex_digit, json_list, json_open, json_string,
    json_text, null_text,
};
use crate::write::{lemma_encode_ascii, lemma_encode_concat};
use crate::{
    Ser, SerializeMap, SerializeSeq, SerializeStruct, SerializeStructVariant, SerializeTuple,
    SerializeTupleStruct, SerializeTupleVariant, SerializerBase,
};

verus! {

/// Appending the encoding of a text to bytes that hold text gives bytes that
/// hold both texts, one after the other.
proof fn lemma_text_append(start: Seq<u8>, t: Seq<char>)
    requires
        valid_utf8(start),
    ensures
        valid_utf8(start + encode_utf8(t)),
        decode_utf8(start + encode_utf8(t)) == decode_utf8(start) + t,
{
    let p = decode_utf8(start);
    decode_utf8_encode_utf8(start);
    lemma_encode_concat(p, t);
    encode_utf8_valid_utf8(p + t);
    encode_utf8_decode_utf8(p + t);
}

/// Writing a value to a JSON serializer whose buffer holds text leaves text
/// in it: the old text followed by the value's JSON text. So `as_str` may be
/// called after any number of writes to a fresh serializer, and gives back
/// exactly the JSON texts of the values written, in order.
pub proof fn law_written_text(before: JsonSerializer, after: JsonSerializer, d: Data)
    requires
        valid_utf8(before@),
        JsonSerializer::writes(before, after, d),
    ensures
        valid_utf8(after@),
        decode_utf8(after@) == decode_utf8(before@) + json_text(d),
{
    lemma_text_append(before@, json_text(d));
}

/// A fresh serializer that has written one value holds exactly that value's
/// JSON text.
pub proof fn law_fresh_text(before: JsonSerializer, after: JsonSerializer, d: Data)
    requires
        before@ == Seq::<u8>::empty(),
        JsonSerializer::writes(before, after, d),
    ensures
        valid_utf8(after@),
        decode_utf8(after@) == json_text(d),
{
    assert(encode_utf8(Seq::<char>::empty()) =~= Seq::<u8>::empty());
    encode_utf8_valid_utf8(Seq::<char>::empty());
    encode_utf8_decode_utf8(Seq::<char>::empty());
    law_written_text(before, after, d);
    assert(decode_utf8(before@) + json_text(d) =~= json_text(d));
}

/// Whether a character is a hexadecimal digit, in either case.
pub open spec fn is_hex(c: char) -> bool {
    (48 <= c as int && c as int <= 57) || (97 <= c as int && c as int <= 102) || (65 <= c as int
        && c as int <= 70)
}

/// The value of a hexadecimal digit character.
pub open spec fn hex_value(c: char) -> int {
    if c as int <= 57 {
        c as int - 48
    } else if c as int <= 70 {
        c as int - 55
    } else {
        c as int - 87
    }
}

/// Whether a text begins with `\u` and four hexadecimal digits.
pub open spec fn starts_with_code_escape(t: Seq<char>) -> bool {
    &&& t.len() >= 6
    &&& t[0] == '\\'
    &&& t[1] == 'u'
    &&& is_hex(t[2])
    &&& is_hex(t[3])
    &&& is_hex(t[4])
    &&& is_hex(t[5])
}

/// The code written by the four hexadecimal digits of a `\uXXXX` escape.
pub open spec fn code_escape_value(t: Seq<char>) -> int {
    hex_value(t[2]) * 4096 + hex_value(t[3]) * 256 + hex_value(t[4]) * 16 + hex_value(t[5])
}

/// Reads the contents of a JSON string back: `\u` and four hexadecimal
/// digits stand for the character with that code; a backslash followed by
/// `b`, `f`, `n`, `r` or `t` stands for the control character it names, and
/// followed by any other character for that character; any other character
/// stands for itself.
pub open spec fn unescaped(t: Seq<char>) -> Seq<char>
    decreases t.len(),
{
    if t.len() == 0 {
        Seq::empty()
    } else if starts_with_code_escape(t) {
        seq![code_escape_value(t) as char] + unescaped(t.subrange(6, t.len() as int))
    } else if t[0] == '\\' && t.len() >= 2 {
        let c = t[1];
        let r = if c == 'n' {
            '\n'
        } else if c == 'r' {
            '\r'
        } else if c == 't' {
            '\t'
        } else if c == 'b' {
            '\u{8}'
        } else if c == 'f' {
            '\u{c}'
        } else {
            c
        };
        seq![r] + unescaped(t.subrange(2, t.len() as int))
    } else {
        seq![t[0]] + unescaped(t.drop_first())
    }
}

/// The hexadecimal digit written for `d` reads back as `d`.
proof fn lemma_hex_digit(d: int)
    requires
        0 <= d < 16,
    ensures
        is_hex(hex_digit(d)),
        hex_value(hex_digit(d)) == d,
{
}

/// The escaped form of a sequence is the escaped first character followed by
/// the escaped rest.
proof fn lemma_escaped_front(s: Seq<char>)
    requires
        s.len() > 0,
    ensures
        escaped(s) == escape_char(s[0]) + escaped(s.drop_first()),
    decreases s.len(),
{
    if s.len() == 1 {
        assert(s.drop_last() =~= Seq::<char>::empty());
        assert(s.drop_first() =~= Seq::<char>::empty());
        assert(escaped(Seq::<char>::empty()) =~= Seq::<char>::empty());
        assert(escaped(s) =~= escape_char(s[0]) + escaped(s.drop_first()));
    } else {
        let init = s.drop_last();
        lemma_escaped_front(init);
        assert(init.drop_first() =~= s.drop_first().drop_last());
        assert(s.drop_first().last() == s.last());
        assert(init[0] == s[0]);
        assert(escaped(s) =~= escape_char(s[0]) + escaped(s.drop_first()));
    }
}

/// The text written inside a JSON string reads back as the string: escaping
/// loses nothing.
pub proof fn law_unescape_escaped(s: Seq<char>)
    ensures
        unescaped(escaped(s)) == s,
    decreases s.len(),
{
    if s.len() == 0 {
        assert(escaped(s) =~= Seq::<char>::empty());
    } else {
        lemma_escaped_front(s);
        let c = s[0];
        let e = escape_char(c);
        let rest = escaped(s.drop_first());
        let t = e + rest;
        law_unescape_escaped(s.drop_first());
        if c == '\\' || c == '"' || c == '\n' || c == '\r' || c == '\t' || c == '\u{8}' || c
            == '\u{c}' {
            assert(t[0] == '\\' && t[1] != 'u');
            assert(t.subrange(2, t.len() as int) =~= rest);
        } else if (c as u32) < 0x20 {
            let u = c as u32;
            lemma_hex_digit((u / 16) as int);
            lemma_hex_digit((u % 16) as int);
            assert(t.subrange(6, t.len() as int) =~= rest);
            assert(starts_with_code_escape(t));
            assert(code_escape_value(t) == u as int);
            char_u32_cast(c, u);
        } else {
            assert(t[0] == c);
            assert(t.drop_first() =~= rest);
        }
        assert(unescaped(t) =~= s);
    }
}

/// The value of a text of decimal digits, most significant first.
pub open spec fn digits_value(t: Seq<char>) -> int
    decreases t.len(),
{
    if t.len() == 0 {
        0
    } else {
        digits_value(t.drop_last()) * 10 + (t.last() as int - 48)
    }
}

/// The value of a decimal text: a leading minus sign negates the digits after it.
pub open spec fn decimal_value(t: Seq<char>) -> int {
    if t.len() > 0 && t[0] == '-' {
        -digits_value(t.drop_first())
    } else {
        digits_value(t)
    }
}

/// The digits of a number read back as the number.
pub proof fn lemma_digits_value(n: nat)
    ensures
        digits_value(digits(n)) == n,
        digits(n).len() > 0,
        digits(n)[0] != '-',
    decreases n,
{
    if n < 10 {
        assert(digits(n) =~= seq![digit(n as int)]);
        assert(seq![digit(n as int)].drop_last() =~= Seq::<char>::empty());
        assert(digit(n as int) as int == n + 48);
        assert(digits_value(Seq::<char>::empty()) == 0);
    } else {
        lemma_digits_value(n / 10);
        let t = digits(n);
        assert(t.drop_last() =~= digits(n / 10));
        assert(t[0] == digits(n / 10)[0]);
        assert(t.last() == digit((n % 10) as int));
        assert(digit((n % 10) as int) as int == n % 10 + 48);
        assert(n == (n / 10) * 10 + n % 10) by (nonlinear_arith);
    }
}

/// The decimal text written for an integer reads back as that integer.
pub proof fn law_decimal_reads_back(i: int)
    ensures
        decimal_value(decimal(i)) == i,
{
    if i < 0 {
        lemma_digits_value((-i) as nat);
        let t = decimal(i);
        assert(t.drop_first() =~= digits((-i) as nat));
    } else {
        lemma_digits_value(i as nat);
    }
}

/// While a sequence is being written, a buffer that held text before it began
/// still holds text: the old text followed by the sequence's text so far. With
/// [`law_written_text`] this covers every call, so the buffer holds text after
/// any sequence of them.
pub proof fn law_text_while_writing_seq(state: &JsonSerializeSeq, serializer: JsonSerializer)
    requires
        SerializeSeq::wf(state, serializer),
        valid_utf8(SerializeSeq::start(state)@),
    ensures
        valid_utf8(serializer@),
        decode_utf8(serializer@) == decode_utf8(SerializeSeq::start(state)@) + json_open(
            SerializeSeq::value(state),
        ),
{
    state.lemma_written(serializer);
    lemma_text_append(SerializeSeq::start(state)@, json_open(SerializeSeq::value(state)));
}

/// While a tuple is being written, a buffer that held text before it began
/// still holds text: the old text followed by the tuple's text so far. With
/// [`law_written_text`] this covers every call, so the buffer holds text after
/// any sequence of them.
pub proof fn law_text_while_writing_tuple(state: &JsonSerializeTuple, serializer: JsonSerializer)
    requires
        SerializeTuple::wf(state, serializer),
        valid_utf8(SerializeTuple::start(state)@),
    ensures
        valid_utf8(serializer@),
        decode_utf8(serializer@) == decode_utf8(SerializeTuple::start(state)@) + json_open(
            SerializeTuple::value(state),
        ),
{
    state.lemma_written(serializer);
    lemma_text_append(SerializeTuple::start(state)@, json_open(SerializeTuple::value(state)));
}

/// While a tuple struct is being written, a buffer that held text before it began
/// still holds text: the old text followed by the tuple struct's text so far. With
/// [`law_written_text`] this covers every call, so the buffer holds text after
/// any sequence of them.
pub proof fn law_text_while_writing_tuple_struct(state: &JsonSerializeTupleStruct, serializer: JsonSerializer)
    requires
        SerializeTupleStruct::wf(state, serializer),
        valid_utf8(SerializeTupleStruct::start(state)@),
    ensures
        valid_utf8(serializer@),
        decode_utf8(serializer@) == decode_utf8(SerializeTupleStruct::start(state)@) + json_open(
            SerializeTupleStruct::value(state),
        ),
{
    state.lemma_written(serializer);
    lemma_text_append(SerializeTupleStruct::start(state)@, json_open(SerializeTupleStruct::value(state)));
}

/// While a tuple variant is being written, a buffer that held text before it began
/// still holds text: the old text followed by the tuple variant's text so far. With
/// [`law_written_text`] this covers every call, so the buffer holds text after
/// any sequence of them.
pub proof fn law_text_while_writing_tuple_variant(state: &JsonSerializeTupleVariant, serializer: JsonSerializer)
    requires
        SerializeTupleVariant::wf(state, serializer),
        valid_utf8(SerializeTupleVariant::start(state)@),
    ensures
        valid_utf8(serializer@),
        decode_utf8(serializer@) == decode_utf8(SerializeTupleVariant::start(state)@) + json_open(
            SerializeTupleVariant::value(state),
        ),
{
    state.lemma_written(serializer);
    lemma_text_append(SerializeTupleVariant::start(state)@, json_open(SerializeTupleVariant::value(state)));
}

/// While a struct is being written, a buffer that held text before it began
/// still holds text: the old text followed by the struct's text so far. With
/// [`law_written_text`] this covers every call, so the buffer holds text after
/// any sequence of them.
pub proof fn law_text_while_writing_struct(state: &JsonSerializeStruct, serializer: JsonSerializer)
    requires
        SerializeStruct::wf(state, serializer),
        valid_utf8(SerializeStruct::start(state)@),
    ensures
        valid_utf8(serializer@),
        decode_utf8(serializer@) == decode_utf8(SerializeStruct::start(state)@) + json_open(
            SerializeStruct::value(state),
        ),
{
    state.lemma_written(serializer);
    lemma_text_append(SerializeStruct::start(state)@, json_open(SerializeStruct::value(state)));
}

/// While a struct variant is being written, a buffer that held text before it began
/// still holds text: the old text followed by the struct variant's text so far. With
/// [`law_written_text`] this covers every call, so the buffer holds text after
/// any sequence of them.
pub proof fn law_text_while_writing_struct_variant(state: &JsonSerializeStructVariant, serializer: JsonSerializer)
    requires
        SerializeStructVariant::wf(state, serializer),
        valid_utf8(SerializeStructVariant::start(state)@),
    ensures
        valid_utf8(serializer@),
        decode_utf8(serializer@) == decode_utf8(SerializeStructVariant::start(state)@) + json_open(
            SerializeStructVariant::value(state),
        ),
{
    state.lemma_written(serializer);
    lemma_text_append(SerializeStructVariant::start(state)@, json_open(SerializeStructVariant::value(state)));
}

/// While a map is being written, a buffer that held text before it began
/// still holds text: the old text, the entries so far and any pending key.
pub proof fn law_text_while_writing_map(state: &JsonSerializeMap, serializer: JsonSerializer)
    requires
        SerializeMap::wf(state, serializer),
        valid_utf8(SerializeMap::start(state)@),
    ensures
        valid_utf8(serializer@),
        decode_utf8(serializer@) == decode_utf8(SerializeMap::start(state)@) + json_open(
            SerializeMap::value(state),
        ) + map_pending_text(SerializeMap::value(state), SerializeMap::pending_key(state)),
{
    state.lemma_written(serializer);
    let t = json_open(SerializeMap::value(state)) + map_pending_text(
        SerializeMap::value(state),
        SerializeMap::pending_key(state),
    );
    lemma_text_append(SerializeMap::start(state)@, t);
    assert(decode_utf8(SerializeMap::start(state)@) + t =~= decode_utf8(
        SerializeMap::start(state)@,
    ) + json_open(SerializeMap::value(state)) + map_pending_text(
        SerializeMap::value(state),
        SerializeMap::pending_key(state),
    ));
}

/// The bytes a sequence state has written depend only on the buffer it began
/// from and the elements written since: how the sequence was begun, its
/// length hint included, leaves no trace. (`serialize_seq` states nothing of
/// the hint, so two sequences begun with different hints and given the same
/// elements write the same bytes.)
pub proof fn law_seq_hint_free(
    s1: &JsonSerializeSeq,
    a1: JsonSerializer,
    s2: &JsonSerializeSeq,
    a2: JsonSerializer,
)
    requires
        SerializeSeq::wf(s1, a1),
        SerializeSeq::wf(s2, a2),
        SerializeSeq::start(s1)@ == SerializeSeq::start(s2)@,
        SerializeSeq::value(s1) == SerializeSeq::value(s2),
    ensures
        a1@ == a2@,
{
    s1.lemma_written(a1);
    s2.lemma_written(a2);
}

/// The bytes a map state has written depend only on the buffer it began from,
/// the entries written since and the pending key: the length hint leaves no
/// trace.
pub proof fn law_map_hint_free(
    m1: &JsonSerializeMap,
    a1: JsonSerializer,
    m2: &JsonSerializeMap,
    a2: JsonSerializer,
)
    requires
        SerializeMap::wf(m1, a1),
        SerializeMap::wf(m2, a2),
        SerializeMap::start(m1)@ == SerializeMap::start(m2)@,
        SerializeMap::value(m1) == SerializeMap::value(m2),
        SerializeMap::pending_key(m1) == SerializeMap::pending_key(m2),
    ensures
        a1@ == a2@,
{
    m1.lemma_written(a1);
    m2.lemma_written(a2);
}

/// Texts joined by commas: none before the first, none after the last.
pub open spec fn joined(parts: Seq<Seq<char>>) -> Seq<char>
    decreases parts.len(),
{
    if parts.len() == 0 {
        Seq::empty()
    } else if parts.len() == 1 {
        parts[0]
    } else {
        joined(parts.drop_last()) + seq![','] + parts.last()
    }
}

/// The JSON texts of values, in order.
pub open spec fn texts(s: Seq<Data>) -> Seq<Seq<char>> {
    s.map_values(|d: Data| json_text(d))
}

/// A list's text is its elements' texts joined by commas.
proof fn lemma_list_joined(s: Seq<Data>)
    ensures
        json_list(s) == joined(texts(s)),
    decreases s.len(),
{
    if s.len() > 1 {
        let init = s.subrange(0, s.len() - 1);
        lemma_list_joined(init);
        assert(texts(s).drop_last() =~= texts(init));
    } else if s.len() == 1 {
        assert(texts(s)[0] == json_text(s[0]));
    }
}

/// After elements `x_1 .. x_k` have been written to a sequence, the buffer
/// holds what it held before, `[`, and the elements' texts joined by commas:
/// `k - 1` commas, none before the first element or after the last.
pub proof fn law_seq_text(state: &JsonSerializeSeq, serializer: JsonSerializer)
    requires
        SerializeSeq::wf(state, serializer),
    ensures
        serializer@ == SerializeSeq::start(state)@ + encode_utf8(
            seq!['['] + joined(texts(SerializeSeq::value(state).elements())),
        ),
{
    state.lemma_written(serializer);
    lemma_list_joined(SerializeSeq::value(state).elements());
    assert(json_open(SerializeSeq::value(state)) == seq!['['] + json_list(
        SerializeSeq::value(state).elements(),
    ));
}

/// A tuple state and a sequence state that began from the same bytes and
/// were given the same elements have written the same bytes, and finish with
/// the same text.
pub proof fn law_tuple_writes_as_seq(
    t: &JsonSerializeTuple,
    a1: JsonSerializer,
    q: &JsonSerializeSeq,
    a2: JsonSerializer,
)
    requires
        SerializeTuple::wf(t, a1),
        SerializeSeq::wf(q, a2),
        SerializeTuple::start(t)@ == SerializeSeq::start(q)@,
        SerializeTuple::value(t).elements() == SerializeSeq::value(q).elements(),
    ensures
        a1@ == a2@,
        json_text(SerializeTuple::value(t)) == json_text(SerializeSeq::value(q)),
{
    t.lemma_written(a1);
    q.lemma_written(a2);
    assert(json_open(SerializeTuple::value(t)) == json_open(SerializeSeq::value(q)));
    assert(json_text(SerializeTuple::value(t)) =~= json_text(SerializeSeq::value(q)));
}

/// `serialize_entry` writes what `serialize_key` followed by
/// `serialize_value` writes: the states after either path, begun from the
/// same map state `m` with the same key and value, hold the same bytes.
pub proof fn law_map_entry_is_key_then_value(
    m: &JsonSerializeMap,
    after_entry: &JsonSerializeMap,
    a_entry: JsonSerializer,
    after_key_value: &JsonSerializeMap,
    a_key_value: JsonSerializer,
    k: Data,
    v: Data,
)
    requires
        SerializeMap::wf(after_entry, a_entry),
        SerializeMap::wf(after_key_value, a_key_value),
        SerializeMap::start(after_entry) == SerializeMap::start(m),
        SerializeMap::start(after_key_value) == SerializeMap::start(m),
        SerializeMap::value(after_entry) == SerializeMap::value(m).with_entry(k, v),
        SerializeMap::value(after_key_value) == SerializeMap::value(m).with_entry(k, v),
        SerializeMap::pending_key(after_entry) is None,
        SerializeMap::pending_key(after_key_value) is None,
    ensures
        a_entry@ == a_key_value@,
{
    law_map_hint_free(after_entry, a_entry, after_key_value, a_key_value);
}

/// An option writes `null` when absent and exactly what it holds when
/// present.
pub proof fn law_option_text<T: Ser<JsonSerializer>>(o: Option<T>)
    ensures
        o matches Some(x) ==> json_text(o.data()) == json_text(x.data()),
        o is None ==> json_text(o.data()) == null_text(),
        o matches Some(x) ==> forall|b: JsonSerializer, a: JsonSerializer|
            JsonSerializer::writes(b, a, o.data()) == JsonSerializer::writes(b, a, x.data()),
{
}

/// Escaping goes character by character: the escaped form of a
/// concatenation is the concatenation of the escaped forms.
proof fn lemma_escaped_concat(a: Seq<char>, b: Seq<char>)
    ensures
        escaped(a + b) == escaped(a) + escaped(b),
    decreases b.len(),
{
    if b.len() == 0 {
        assert(a + b =~= a);
        assert(escaped(a) + escaped(b) =~= escaped(a));
    } else {
        lemma_escaped_concat(a, b.drop_last());
        assert((a + b).drop_last() =~= a + b.drop_last());
        assert((a + b).last() == b.last());
        assert(escaped(a + b) =~= escaped(a) + escaped(b));
    }
}

/// The string written for a concatenation `a + b` is the string written for
/// `a` without its closing quote followed by the string written for `b`
/// without its opening quote, as text and as bytes.
pub proof fn law_string_concat(a: Seq<char>, b: Seq<char>)
    ensures
        escaped(a + b) == escaped(a) + escaped(b),
        json_string(a + b) == json_string(a).drop_last() + json_string(b).drop_first(),
        encode_utf8(json_string(a + b)) == encode_utf8(json_string(a)).drop_last() + encode_utf8(
            json_string(b),
        ).drop_first(),
{
    lemma_escaped_concat(a, b);
    let ea = seq!['"'] + escaped(a);
    let eb = escaped(b) + seq!['"'];
    assert(json_string(a).drop_last() =~= ea);
    assert(json_string(b).drop_first() =~= eb);
    assert(json_string(a + b) =~= ea + eb);
    lemma_encode_concat(ea, seq!['"']);
    lemma_encode_concat(seq!['"'], eb);
    lemma_encode_concat(ea, eb);
    assert(json_string(a) =~= ea + seq!['"']);
    assert(json_string(b) =~= seq!['"'] + eb);
    lemma_encode_ascii('"');
    let q = encode_utf8(seq!['"']);
    assert((encode_utf8(ea) + q).drop_last() =~= encode_utf8(ea));
    assert((q + encode_utf8(eb)).drop_first() =~= encode_utf8(eb));
}

/// A character is written as the one-character string that holds it: for
/// any buffers, `serialize_char(c)` and `serialize_str` of that string
/// describe the same write.
pub proof fn law_char_as_string(c: char)
    ensures
        json_text(Data::Char(c)) == json_text(Data::Str(seq![c])),
        forall|b: JsonSerializer, a: JsonSerializer|
            JsonSerializer::writes(b, a, Data::Char(c)) == JsonSerializer::writes(
                b,
                a,
                Data::Str(seq![c]),
            ),
{
}

/// A character that may stand unescaped in a JSON string: anything but the
/// control characters below U+0020.
pub open spec fn unescaped_allowed(c: char) -> bool {
    (c as u32) >= 0x20
}

/// A letter that may follow a backslash in a JSON string (RFC 8259); `u`
/// is not among them, as it takes four hexadecimal digits after it.
pub open spec fn escape_letter(c: char) -> bool {
    c == '"' || c == '\\' || c == '/' || c == 'b' || c == 'f' || c == 'n' || c == 'r' || c == 't'
}

/// The characters between the quotes of a JSON string literal (RFC 8259):
/// escape sequences, and unescaped characters other than `"`, `\` and the
/// control characters.
pub open spec fn json_string_body(t: Seq<char>) -> bool
    decreases t.len(),
{
    if t.len() == 0 {
        true
    } else if starts_with_code_escape(t) {
        json_string_body(t.subrange(6, t.len() as int))
    } else if t[0] == '\\' {
        t.len() >= 2 && escape_letter(t[1]) && json_string_body(t.subrange(2, t.len() as int))
    } else {
        t[0] != '"' && unescaped_allowed(t[0]) && json_string_body(t.drop_first())
    }
}

/// The text written for any string is a JSON string literal by RFC 8259:
/// quotes around escape sequences and characters that may stand unescaped.
pub proof fn law_string_literal(s: Seq<char>)
    ensures
        json_string(s) == seq!['"'] + escaped(s) + seq!['"'],
        json_string_body(escaped(s)),
    decreases s.len(),
{
    if s.len() > 0 {
        lemma_escaped_front(s);
        let c = s[0];
        let rest = s.drop_first();
        law_string_literal(rest);
        let t = escape_char(c) + escaped(rest);
        if c == '\\' || c == '"' || c == '\n' || c == '\r' || c == '\t' || c == '\u{8}' || c
            == '\u{c}' {
            assert(t[1] != 'u');
            assert(t.subrange(2, t.len() as int) =~= escaped(rest));
        } else if (c as u32) < 0x20 {
            let u = c as u32;
            lemma_hex_digit((u / 16) as int);
            lemma_hex_digit((u % 16) as int);
            assert(t.subrange(6, t.len() as int) =~= escaped(rest));
            assert(starts_with_code_escape(t));
        } else {
            assert(t.drop_first() =~= escaped(rest));
        }
    } else {
        assert(escaped(s) =~= Seq::<char>::empty());
    }
}

} // verus!
