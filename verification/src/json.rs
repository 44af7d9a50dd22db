//! The JSON serializer: writes values of the data model as JSON text, UTF-8
//! encoded, into a byte buffer.
use vstd::prelude::*;
use vstd::utf8::{decode_utf8, encode_utf8, valid_utf8};

use crate::data::Data;
use crate::json_text::{
    json_close, json_open, json_string, json_text, lemma_open_close, lemma_open_with_element,
    lemma_open_with_entry, lemma_open_with_field, separator,
};
use crate::write::{
    lemma_extend, push_ascii, push_escaped, push_escaped_char, push_signed, push_str,
    push_unsigned,
};
use crate::{
    Ser, SerializeError, SerializeMap, SerializeSeq, SerializeStruct, SerializeStructVariant,
    SerializeTuple, SerializeTupleStruct, SerializeTupleVariant, Serializer, SerializerBase,
};

verus! {

/// `std::io::Error`, the error a writer reports; carried as an opaque value.
#[verifier::external_type_specification]
#[verifier::external_body]
pub struct ExIoError(std::io::Error);

/// `std::str::from_utf8`: succeeds exactly on valid UTF-8, and the string it
/// gives back holds the characters that the bytes encode.
#[verifier::external_body]
fn str_from_utf8(bytes: &[u8]) -> (r: Option<&str>)
    ensures
        r is Some <==> valid_utf8(bytes@),
        r matches Some(s) ==> s@ == decode_utf8(bytes@),
{
    std::str::from_utf8(bytes).ok()
}

/// `String::from_utf8`: succeeds exactly on valid UTF-8, and the string it
/// gives back holds the characters that the bytes encode.
#[verifier::external_body]
fn string_from_utf8(bytes: Vec<u8>) -> (r: Option<String>)
    ensures
        r is Some <==> valid_utf8(bytes@),
        r matches Some(s) ==> s@ == decode_utf8(bytes@),
{
    String::from_utf8(bytes).ok()
}

/// A serializer that writes JSON text into a byte buffer.
///
/// Its view is the buffer's contents. Writing a value `d` appends the UTF-8
/// encoding of `json_text(d)`; nothing it writes ever fails, and by the
/// [`Ser`] contract no value written to it may fail either. Map keys are
/// written as their own JSON text, so only string keys give a JSON object.
pub struct JsonSerializer {
    writer: Vec<u8>,
}

impl View for JsonSerializer {
    type V = Seq<u8>;

    closed spec fn view(&self) -> Seq<u8> {
        self.writer@
    }
}

/// The error of the JSON serializer: a failure of the writer it writes to.
#[derive(Debug)]
pub enum JsonSerializeError {
    Io(std::io::Error),
}

impl SerializeError for JsonSerializeError {
}

impl From<std::io::Error> for JsonSerializeError {
    fn from(err: std::io::Error) -> (r: Self) {
        JsonSerializeError::Io(err)
    }
}

impl vstd::std_specs::convert::FromSpecImpl<std::io::Error> for JsonSerializeError {
    open spec fn obeys_from_spec() -> bool {
        true
    }

    open spec fn from_spec(err: std::io::Error) -> Self {
        JsonSerializeError::Io(err)
    }
}

impl JsonSerializer {
    /// A serializer that appends to the given buffer.
    pub fn new(writer: Vec<u8>) -> (r: Self)
        ensures
            r@ == writer@,
    {
        Self { writer }
    }

    /// The buffer, with everything written to it.
    pub fn into_inner(self) -> (r: Vec<u8>)
        ensures
            r@ == self@,
    {
        self.writer
    }

    /// A serializer with an empty buffer.
    pub fn new_vec() -> (r: Self)
        ensures
            r@ == Seq::<u8>::empty(),
    {
        Self { writer: Vec::new() }
    }

    /// The buffer, with everything written to it.
    pub fn into_vec(self) -> (r: Vec<u8>)
        ensures
            r@ == self@,
    {
        self.writer
    }

    /// The bytes written so far.
    pub fn as_bytes(&self) -> (r: &[u8])
        ensures
            r@ == self@,
    {
        self.writer.as_slice()
    }

    /// The text written so far; the buffer must hold valid UTF-8.
    pub fn as_str(&self) -> (r: &str)
        requires
            valid_utf8(self@),
        ensures
            r@ == decode_utf8(self@),
    {
        match str_from_utf8(self.writer.as_slice()) {
            Some(s) => s,
            None => vstd::pervasive::unreached(),
        }
    }

    /// The text written, as an owned string; the buffer must hold valid UTF-8.
    pub fn into_string(self) -> (r: String)
        requires
            valid_utf8(self@),
        ensures
            r@ == decode_utf8(self@),
    {
        match string_from_utf8(self.writer) {
            Some(s) => s,
            None => vstd::pervasive::unreached(),
        }
    }

    /// Appends one character below 128.
    fn put(&mut self, c: char)
        requires
            (c as u32) < 128,
        ensures
            final(self)@ == old(self)@ + encode_utf8(seq![c]),
    {
        push_ascii(&mut self.writer, c);
    }

    /// Appends a string as a JSON string literal.
    fn put_string(&mut self, v: &str)
        ensures
            final(self)@ == old(self)@ + encode_utf8(json_string(v@)),
    {
        let ghost b = self@;
        self.put('"');
        push_escaped(&mut self.writer, v);
        self.put('"');
        proof {
            lemma_extend(b, seq!['"'], crate::json_text::escaped(v@));
            lemma_extend(b, seq!['"'] + crate::json_text::escaped(v@), seq!['"']);
        }
    }
}

impl SerializerBase for JsonSerializer {
    type Ok = ();

    type Error = JsonSerializeError;

    open spec fn writes(before: Self, after: Self, d: Data) -> bool {
        after@ == before@ + encode_utf8(json_text(d))
    }

    open spec fn infallible() -> bool {
        true
    }
}


impl JsonSerializer {
    /// Appends the decimal text of a signed value.
    fn put_signed(&mut self, v: i128)
        ensures
            final(self)@ == old(self)@ + encode_utf8(crate::json_text::decimal(v as int)),
    {
        push_signed(&mut self.writer, v);
    }

    /// Appends the decimal text of an unsigned value.
    fn put_unsigned(&mut self, v: u128)
        ensures
            final(self)@ == old(self)@ + encode_utf8(crate::json_text::decimal(v as int)),
    {
        push_unsigned(&mut self.writer, v);
    }

    /// Appends the text `null`.
    fn put_null(&mut self)
        ensures
            final(self)@ == old(self)@ + encode_utf8(crate::json_text::null_text()),
    {
        push_str(&mut self.writer, "null");
        proof {
            reveal_strlit("null");
            assert("null"@ =~= crate::json_text::null_text());
        }
    }
}

impl Serializer for JsonSerializer {
    type SerializeSeq = JsonSerializeSeq;

    type SerializeTuple = JsonSerializeTuple;

    type SerializeTupleStruct = JsonSerializeTupleStruct;

    type SerializeTupleVariant = JsonSerializeTupleVariant;

    type SerializeMap = JsonSerializeMap;

    type SerializeStruct = JsonSerializeStruct;

    type SerializeStructVariant = JsonSerializeStructVariant;

    fn serialize_bool(&mut self, v: bool) -> (r: Result<(), JsonSerializeError>) {
        if v {
            push_str(&mut self.writer, "true");
            proof {
                reveal_strlit("true");
                assert("true"@ =~= crate::json_text::bool_text(true));
            }
        } else {
            push_str(&mut self.writer, "false");
            proof {
                reveal_strlit("false");
                assert("false"@ =~= crate::json_text::bool_text(false));
            }
        }
        Ok(())
    }

    fn serialize_i8(&mut self, v: i8) -> (r: Result<(), JsonSerializeError>) {
        self.put_signed(v as i128);
        Ok(())
    }

    fn serialize_i16(&mut self, v: i16) -> (r: Result<(), JsonSerializeError>) {
        self.put_signed(v as i128);
        Ok(())
    }

    fn serialize_i32(&mut self, v: i32) -> (r: Result<(), JsonSerializeError>) {
        self.put_signed(v as i128);
        Ok(())
    }

    fn serialize_i64(&mut self, v: i64) -> (r: Result<(), JsonSerializeError>) {
        self.put_signed(v as i128);
        Ok(())
    }

    fn serialize_i128(&mut self, v: i128) -> (r: Result<(), JsonSerializeError>) {
        self.put_signed(v);
        Ok(())
    }

    fn serialize_u8(&mut self, v: u8) -> (r: Result<(), JsonSerializeError>) {
        self.put_unsigned(v as u128);
        Ok(())
    }

    fn serialize_u16(&mut self, v: u16) -> (r: Result<(), JsonSerializeError>) {
        self.put_unsigned(v as u128);
        Ok(())
    }

    fn serialize_u32(&mut self, v: u32) -> (r: Result<(), JsonSerializeError>) {
        self.put_unsigned(v as u128);
        Ok(())
    }

    fn serialize_u64(&mut self, v: u64) -> (r: Result<(), JsonSerializeError>) {
        self.put_unsigned(v as u128);
        Ok(())
    }

    fn serialize_u128(&mut self, v: u128) -> (r: Result<(), JsonSerializeError>) {
        self.put_unsigned(v);
        Ok(())
    }

    fn serialize_char(&mut self, v: char) -> (r: Result<(), JsonSerializeError>) {
        let ghost b = self@;
        self.put('"');
        push_escaped_char(&mut self.writer, v);
        self.put('"');
        proof {
            let e = crate::json_text::escape_char(v);
            crate::json_text::lemma_char_text(v);
            lemma_extend(b, seq!['"'], e);
            lemma_extend(b, seq!['"'] + e, seq!['"']);
        }
        Ok(())
    }

    fn serialize_str(&mut self, v: &str) -> (r: Result<(), JsonSerializeError>) {
        self.put_string(v);
        Ok(())
    }

    fn serialize_bytes(&mut self, v: &[u8]) -> (r: Result<(), JsonSerializeError>) {
        let ghost b = self@;
        self.put('[');
        let mut i: usize = 0;
        proof {
            assert(v@.take(0) =~= Seq::<u8>::empty());
        }
        while i < v.len()
            invariant
                i <= v.len(),
                self@ == b + encode_utf8(seq!['['] + crate::json_text::byte_list(
                    v@.take(i as int),
                )),
            decreases v.len() - i,
        {
            let ghost mid = self@;
            let ghost sep = separator(i as nat);
            if i > 0 {
                self.put(',');
            } else {
                assert(encode_utf8(Seq::<char>::empty()) =~= Seq::<u8>::empty());
                assert(self@ =~= mid + encode_utf8(sep));
            }
            let ghost mid2 = self@;
            crate::write::push_digits(&mut self.writer, v[i] as u128);
            proof {
                let t = v@.take(i + 1);
                assert(t.drop_last() =~= v@.take(i as int));
                assert(t.last() == v@[i as int]);
                let prev = seq!['['] + crate::json_text::byte_list(v@.take(i as int));
                let dg = crate::json_text::digits(v@[i as int] as nat);
                if i == 0 {
                    assert(crate::json_text::byte_list(t) == dg);
                    assert(crate::json_text::byte_list(v@.take(0)) =~= Seq::<char>::empty());
                } else {
                    assert(crate::json_text::byte_list(t) == crate::json_text::byte_list(
                        v@.take(i as int),
                    ) + seq![','] + dg);
                }
                lemma_extend(b, prev, sep);
                lemma_extend(b, prev + sep, dg);
                assert(prev + sep + dg =~= seq!['['] + crate::json_text::byte_list(t));
            }
            i = i + 1;
        }
        let ghost body = seq!['['] + crate::json_text::byte_list(v@);
        self.put(']');
        proof {
            assert(v@.take(v@.len() as int) =~= v@);
            lemma_extend(b, body, seq![']']);
        }
        Ok(())
    }

    fn serialize_none(&mut self) -> (r: Result<(), JsonSerializeError>) {
        self.put_null();
        Ok(())
    }

    fn serialize_some<T: Ser<Self>>(&mut self, value: &T) -> (r: Result<(), JsonSerializeError>) {
        value.serialize(self)
    }

    fn serialize_unit(&mut self) -> (r: Result<(), JsonSerializeError>) {
        self.put_null();
        Ok(())
    }

    fn serialize_unit_struct(&mut self, _name: &'static str) -> (r: Result<
        (),
        JsonSerializeError,
    >) {
        self.serialize_unit()
    }

    fn serialize_unit_variant(
        &mut self,
        _name: &'static str,
        _variant_index: u32,
        variant: &'static str,
    ) -> (r: Result<(), JsonSerializeError>) {
        self.serialize_str(variant)
    }

    fn serialize_newtype_struct<T: Ser<Self>>(&mut self, _name: &'static str, value: &T) -> (r:
        Result<(), JsonSerializeError>) {
        value.serialize(self)
    }

    fn serialize_newtype_variant<T: Ser<Self>>(
        &mut self,
        _name: &'static str,
        _variant_index: u32,
        variant: &'static str,
        value: &T,
    ) -> (r: Result<(), JsonSerializeError>) {
        let ghost b = self@;
        self.put('{');
        self.put_string(variant);
        self.put(':');
        match value.serialize(self) {
            Ok(()) => {},
            Err(e) => {
                return Err(e);
            },
        }
        self.put('}');
        proof {
            let t1 = seq!['{'];
            let t2 = json_string(variant@);
            let t3 = seq![':'];
            let t4 = json_text(value.data());
            let t5 = seq!['}'];
            lemma_extend(b, t1, t2);
            lemma_extend(b, t1 + t2, t3);
            lemma_extend(b, t1 + t2 + t3, t4);
            lemma_extend(b, t1 + t2 + t3 + t4, t5);
        }
        Ok(())
    }

    fn serialize_seq(&mut self, _len: Option<usize>) -> (r: Result<
        JsonSerializeSeq,
        JsonSerializeError,
    >) {
        let ghost st = *self;
        self.put('[');
        let ghost d = Data::Sequence(Seq::empty());
        proof {
            assert(json_open(d) =~= seq!['[']);
        }
        Ok(JsonSerializeSeq { first: true, start: Ghost(st), value: Ghost(d) })
    }

    fn serialize_tuple(&mut self, _len: usize) -> (r: Result<
        JsonSerializeTuple,
        JsonSerializeError,
    >) {
        let ghost st = *self;
        self.put('[');
        let ghost d = Data::Tuple(Seq::empty());
        proof {
            assert(json_open(d) =~= seq!['[']);
        }
        Ok(JsonSerializeTuple { first: true, start: Ghost(st), value: Ghost(d) })
    }

    fn serialize_tuple_struct(&mut self, name: &'static str, _len: usize) -> (r: Result<
        JsonSerializeTupleStruct,
        JsonSerializeError,
    >) {
        let ghost st = *self;
        self.put('[');
        let ghost d = Data::TupleStruct(name@, Seq::empty());
        proof {
            assert(json_open(d) =~= seq!['[']);
        }
        Ok(JsonSerializeTupleStruct { first: true, start: Ghost(st), value: Ghost(d) })
    }

    fn serialize_tuple_variant(
        &mut self,
        name: &'static str,
        variant_index: u32,
        variant: &'static str,
        _len: usize,
    ) -> (r: Result<JsonSerializeTupleVariant, JsonSerializeError>) {
        let ghost st = *self;
        let ghost b = self@;
        self.put('{');
        self.put_string(variant);
        self.put(':');
        self.put('[');
        let ghost d = Data::TupleVariant(name@, variant_index, variant@, Seq::empty());
        proof {
            let t1 = seq!['{'];
            let t2 = json_string(variant@);
            lemma_extend(b, t1, t2);
            lemma_extend(b, t1 + t2, seq![':']);
            lemma_extend(b, t1 + t2 + seq![':'], seq!['[']);
            assert(json_open(d) =~= t1 + t2 + seq![':'] + seq!['[']);
        }
        Ok(JsonSerializeTupleVariant { first: true, start: Ghost(st), value: Ghost(d) })
    }

    fn serialize_map(&mut self, _len: Option<usize>) -> (r: Result<
        JsonSerializeMap,
        JsonSerializeError,
    >) {
        let ghost st = *self;
        self.put('{');
        let ghost d = Data::Entries(Seq::empty());
        proof {
            assert(json_open(d) =~= seq!['{']);
            assert(seq!['{'] + map_pending_text(d, None) =~= seq!['{']);
        }
        Ok(JsonSerializeMap { first: true, start: Ghost(st), value: Ghost(d), pending: Ghost(None) })
    }

    fn serialize_struct(&mut self, name: &'static str, _len: usize) -> (r: Result<
        JsonSerializeStruct,
        JsonSerializeError,
    >) {
        let ghost st = *self;
        self.put('{');
        let ghost d = Data::Struct(name@, Seq::empty());
        proof {
            assert(json_open(d) =~= seq!['{']);
        }
        Ok(JsonSerializeStruct { first: true, start: Ghost(st), value: Ghost(d) })
    }

    fn serialize_struct_variant(
        &mut self,
        name: &'static str,
        variant_index: u32,
        variant: &'static str,
        _len: usize,
    ) -> (r: Result<JsonSerializeStructVariant, JsonSerializeError>) {
        let ghost st = *self;
        let ghost b = self@;
        self.put('{');
        self.put_string(variant);
        self.put(':');
        self.put('{');
        let ghost d = Data::StructVariant(name@, variant_index, variant@, Seq::empty());
        proof {
            let t1 = seq!['{'];
            let t2 = json_string(variant@);
            lemma_extend(b, t1, t2);
            lemma_extend(b, t1 + t2, seq![':']);
            lemma_extend(b, t1 + t2 + seq![':'], seq!['{']);
            assert(json_open(d) =~= t1 + t2 + seq![':'] + seq!['{']);
        }
        Ok(JsonSerializeStructVariant { first: true, start: Ghost(st), value: Ghost(d) })
    }
}

/// The text of a map's pending key, if any: separator, key and colon.
pub open spec fn map_pending_text(d: Data, pending: Option<Data>) -> Seq<char> {
    match pending {
        Some(k) => separator(d.entries().len()) + json_text(k) + seq![':'],
        None => Seq::empty(),
    }
}

/// Writes one element of a list value: a comma unless it is the first, then
/// the element.
fn write_element<T: Ser<JsonSerializer> + ?Sized>(
    first: &mut bool,
    serializer: &mut JsonSerializer,
    value: &T,
    Ghost(start): Ghost<Seq<u8>>,
    Ghost(d): Ghost<Data>,
) -> (r: Result<(), JsonSerializeError>)
    requires
        d.is_list(),
        old(serializer)@ == start + encode_utf8(json_open(d)),
        *old(first) <==> d.elements().len() == 0,
    ensures
        final(serializer)@ == start + encode_utf8(json_open(d.with_element(value.data()))),
        !*final(first),
        r is Ok,
{
    let ghost sep = separator(d.elements().len());
    let ghost mid = serializer@;
    if *first {
        *first = false;
        assert(encode_utf8(Seq::<char>::empty()) =~= Seq::<u8>::empty());
        assert(serializer@ =~= mid + encode_utf8(sep));
    } else {
        serializer.put(',');
    }
    match value.serialize(serializer) {
        Ok(()) => {},
        Err(e) => {
            return Err(e);
        },
    }
    proof {
        lemma_open_with_element(d, value.data());
        lemma_extend(start, json_open(d), sep);
        lemma_extend(start, json_open(d) + sep, json_text(value.data()));
    }
    Ok(())
}

/// Writes one named field of a record value: a comma unless it is the
/// first, the name as a string, a colon, then the value.
fn write_field<T: Ser<JsonSerializer> + ?Sized>(
    first: &mut bool,
    serializer: &mut JsonSerializer,
    key: &'static str,
    value: &T,
    Ghost(start): Ghost<Seq<u8>>,
    Ghost(d): Ghost<Data>,
) -> (r: Result<(), JsonSerializeError>)
    requires
        d.is_record(),
        old(serializer)@ == start + encode_utf8(json_open(d)),
        *old(first) <==> d.fields().len() == 0,
    ensures
        final(serializer)@ == start + encode_utf8(json_open(d.with_field(key@, value.data()))),
        !*final(first),
        r is Ok,
{
    let ghost sep = separator(d.fields().len());
    let ghost mid = serializer@;
    if *first {
        *first = false;
        assert(encode_utf8(Seq::<char>::empty()) =~= Seq::<u8>::empty());
        assert(serializer@ =~= mid + encode_utf8(sep));
    } else {
        serializer.put(',');
    }
    serializer.put_string(key);
    serializer.put(':');
    match value.serialize(serializer) {
        Ok(()) => {},
        Err(e) => {
            return Err(e);
        },
    }
    proof {
        let o = json_open(d);
        let ks = json_string(key@);
        lemma_open_with_field(d, key@, value.data());
        lemma_extend(start, o, sep);
        lemma_extend(start, o + sep, ks);
        lemma_extend(start, o + sep + ks, seq![':']);
        lemma_extend(start, o + sep + ks + seq![':'], json_text(value.data()));
    }
    Ok(())
}

/// Writes the closing bracket of a compound value that ends in one.
fn close_one(serializer: &mut JsonSerializer, c: char, Ghost(start): Ghost<Seq<u8>>, Ghost(d): Ghost<Data>)
    requires
        (c as u32) < 128,
        json_close(d) == seq![c],
        old(serializer)@ == start + encode_utf8(json_open(d)),
    ensures
        final(serializer)@ == start + encode_utf8(json_text(d)),
{
    serializer.put(c);
    proof {
        lemma_open_close(d);
        lemma_extend(start, json_open(d), seq![c]);
    }
}

/// Writes the closing brackets of a compound value that ends in two.
fn close_two(
    serializer: &mut JsonSerializer,
    c1: char,
    c2: char,
    Ghost(start): Ghost<Seq<u8>>,
    Ghost(d): Ghost<Data>,
)
    requires
        (c1 as u32) < 128,
        (c2 as u32) < 128,
        json_close(d) == seq![c1, c2],
        old(serializer)@ == start + encode_utf8(json_open(d)),
    ensures
        final(serializer)@ == start + encode_utf8(json_text(d)),
{
    serializer.put(c1);
    serializer.put(c2);
    proof {
        lemma_open_close(d);
        lemma_extend(start, json_open(d), seq![c1]);
        lemma_extend(start, json_open(d) + seq![c1], seq![c2]);
        assert(seq![c1] + seq![c2] =~= seq![c1, c2]);
        assert(json_open(d) + seq![c1] + seq![c2] =~= json_open(d) + json_close(d));
    }
}

/// State of a JSON array being written for a sequence.
pub struct JsonSerializeSeq {
    first: bool,
    start: Ghost<JsonSerializer>,
    value: Ghost<Data>,
}

impl SerializeSeq for JsonSerializeSeq {
    type Serializer = JsonSerializer;

    closed spec fn wf(&self, serializer: JsonSerializer) -> bool {
        &&& self.value@ is Sequence
        &&& serializer@ == self.start@@ + encode_utf8(json_open(self.value@))
        &&& self.first <==> self.value@.elements().len() == 0
    }

    closed spec fn start(&self) -> JsonSerializer {
        self.start@
    }

    closed spec fn value(&self) -> Data {
        self.value@
    }

    fn serialize_element<T: Ser<JsonSerializer> + ?Sized>(
        &mut self,
        serializer: &mut JsonSerializer,
        value: &T,
    ) -> (r: Result<(), JsonSerializeError>) {
        match write_element(&mut self.first, serializer, value, Ghost(self.start@@), Ghost(self.value@)) {
            Ok(()) => {},
            Err(e) => {
                return Err(e);
            },
        }
        proof {
            lemma_open_with_element(self.value@, value.data());
            self.value@ = self.value@.with_element(value.data());
        }
        Ok(())
    }

    fn end(self, serializer: &mut JsonSerializer) -> (r: Result<(), JsonSerializeError>) {
        close_one(serializer, ']', Ghost(self.start@@), Ghost(self.value@));
        Ok(())
    }
}

/// State of a JSON array being written for a tuple.
pub struct JsonSerializeTuple {
    first: bool,
    start: Ghost<JsonSerializer>,
    value: Ghost<Data>,
}

impl SerializeTuple for JsonSerializeTuple {
    type Serializer = JsonSerializer;

    closed spec fn wf(&self, serializer: JsonSerializer) -> bool {
        &&& self.value@ is Tuple
        &&& serializer@ == self.start@@ + encode_utf8(json_open(self.value@))
        &&& self.first <==> self.value@.elements().len() == 0
    }

    closed spec fn start(&self) -> JsonSerializer {
        self.start@
    }

    closed spec fn value(&self) -> Data {
        self.value@
    }

    fn serialize_element<T: Ser<JsonSerializer> + ?Sized>(
        &mut self,
        serializer: &mut JsonSerializer,
        value: &T,
    ) -> (r: Result<(), JsonSerializeError>) {
        match write_element(&mut self.first, serializer, value, Ghost(self.start@@), Ghost(self.value@)) {
            Ok(()) => {},
            Err(e) => {
                return Err(e);
            },
        }
        proof {
            lemma_open_with_element(self.value@, value.data());
            self.value@ = self.value@.with_element(value.data());
        }
        Ok(())
    }

    fn end(self, serializer: &mut JsonSerializer) -> (r: Result<(), JsonSerializeError>) {
        close_one(serializer, ']', Ghost(self.start@@), Ghost(self.value@));
        Ok(())
    }
}

/// State of a JSON array being written for a tuple struct.
pub struct JsonSerializeTupleStruct {
    first: bool,
    start: Ghost<JsonSerializer>,
    value: Ghost<Data>,
}

impl SerializeTupleStruct for JsonSerializeTupleStruct {
    type Serializer = JsonSerializer;

    closed spec fn wf(&self, serializer: JsonSerializer) -> bool {
        &&& self.value@ is TupleStruct
        &&& serializer@ == self.start@@ + encode_utf8(json_open(self.value@))
        &&& self.first <==> self.value@.elements().len() == 0
    }

    closed spec fn start(&self) -> JsonSerializer {
        self.start@
    }

    closed spec fn value(&self) -> Data {
        self.value@
    }

    fn serialize_field<T: Ser<JsonSerializer> + ?Sized>(
        &mut self,
        serializer: &mut JsonSerializer,
        value: &T,
    ) -> (r: Result<(), JsonSerializeError>) {
        match write_element(&mut self.first, serializer, value, Ghost(self.start@@), Ghost(self.value@)) {
            Ok(()) => {},
            Err(e) => {
                return Err(e);
            },
        }
        proof {
            lemma_open_with_element(self.value@, value.data());
            self.value@ = self.value@.with_element(value.data());
        }
        Ok(())
    }

    fn end(self, serializer: &mut JsonSerializer) -> (r: Result<(), JsonSerializeError>) {
        close_one(serializer, ']', Ghost(self.start@@), Ghost(self.value@));
        Ok(())
    }
}

/// State of a JSON object `{"variant":[..]}` being written for a tuple variant.
pub struct JsonSerializeTupleVariant {
    first: bool,
    start: Ghost<JsonSerializer>,
    value: Ghost<Data>,
}

impl SerializeTupleVariant for JsonSerializeTupleVariant {
    type Serializer = JsonSerializer;

    closed spec fn wf(&self, serializer: JsonSerializer) -> bool {
        &&& self.value@ is TupleVariant
        &&& serializer@ == self.start@@ + encode_utf8(json_open(self.value@))
        &&& self.first <==> self.value@.elements().len() == 0
    }

    closed spec fn start(&self) -> JsonSerializer {
        self.start@
    }

    closed spec fn value(&self) -> Data {
        self.value@
    }

    fn serialize_field<T: Ser<JsonSerializer> + ?Sized>(
        &mut self,
        serializer: &mut JsonSerializer,
        value: &T,
    ) -> (r: Result<(), JsonSerializeError>) {
        match write_element(&mut self.first, serializer, value, Ghost(self.start@@), Ghost(self.value@)) {
            Ok(()) => {},
            Err(e) => {
                return Err(e);
            },
        }
        proof {
            lemma_open_with_element(self.value@, value.data());
            self.value@ = self.value@.with_element(value.data());
        }
        Ok(())
    }

    fn end(self, serializer: &mut JsonSerializer) -> (r: Result<(), JsonSerializeError>) {
        close_two(serializer, ']', '}', Ghost(self.start@@), Ghost(self.value@));
        Ok(())
    }
}

/// State of a JSON object being written for a map.
pub struct JsonSerializeMap {
    first: bool,
    start: Ghost<JsonSerializer>,
    value: Ghost<Data>,
    pending: Ghost<Option<Data>>,
}

impl SerializeMap for JsonSerializeMap {
    type Serializer = JsonSerializer;

    closed spec fn wf(&self, serializer: JsonSerializer) -> bool {
        &&& self.value@ is Entries
        &&& serializer@ == self.start@@ + encode_utf8(
            json_open(self.value@) + map_pending_text(self.value@, self.pending@),
        )
        &&& self.first <==> (self.value@.entries().len() == 0 && self.pending@ is None)
    }

    closed spec fn start(&self) -> JsonSerializer {
        self.start@
    }

    closed spec fn value(&self) -> Data {
        self.value@
    }

    closed spec fn pending_key(&self) -> Option<Data> {
        self.pending@
    }

    fn serialize_key<K: Ser<JsonSerializer> + ?Sized>(
        &mut self,
        serializer: &mut JsonSerializer,
        key: &K,
    ) -> (r: Result<(), JsonSerializeError>) {
        let ghost d = self.value@;
        let ghost b = self.start@@;
        let ghost o = json_open(d);
        let ghost sep = separator(d.entries().len());
        proof {
            assert(o + map_pending_text(d, None) =~= o);
        }
        let ghost mid = serializer@;
        if self.first {
            self.first = false;
            assert(encode_utf8(Seq::<char>::empty()) =~= Seq::<u8>::empty());
            assert(serializer@ =~= mid + encode_utf8(sep));
        } else {
            serializer.put(',');
        }
        match key.serialize(serializer) {
            Ok(()) => {},
            Err(e) => {
                return Err(e);
            },
        }
        serializer.put(':');
        proof {
            let kt = json_text(key.data());
            lemma_extend(b, o, sep);
            lemma_extend(b, o + sep, kt);
            lemma_extend(b, o + sep + kt, seq![':']);
            self.pending@ = Some(key.data());
            assert(o + sep + kt + seq![':'] =~= o + map_pending_text(d, self.pending@));
        }
        Ok(())
    }

    fn serialize_value<V: Ser<JsonSerializer> + ?Sized>(
        &mut self,
        serializer: &mut JsonSerializer,
        value: &V,
    ) -> (r: Result<(), JsonSerializeError>) {
        let ghost d = self.value@;
        let ghost k = self.pending@->0;
        let ghost b = self.start@@;
        let ghost pre = json_open(d) + map_pending_text(d, self.pending@);
        match value.serialize(serializer) {
            Ok(()) => {},
            Err(e) => {
                return Err(e);
            },
        }
        proof {
            let vt = json_text(value.data());
            lemma_extend(b, pre, vt);
            lemma_open_with_entry(d, k, value.data());
            assert(pre + vt =~= json_open(d.with_entry(k, value.data())));
            self.value@ = d.with_entry(k, value.data());
            self.pending@ = None;
            assert(json_open(self.value@) + map_pending_text(self.value@, None) =~= json_open(
                self.value@,
            ));
        }
        Ok(())
    }

    fn end(self, serializer: &mut JsonSerializer) -> (r: Result<(), JsonSerializeError>) {
        proof {
            assert(json_open(self.value@) + map_pending_text(self.value@, None) =~= json_open(
                self.value@,
            ));
        }
        close_one(serializer, '}', Ghost(self.start@@), Ghost(self.value@));
        Ok(())
    }
}

/// State of a JSON object being written for a struct.
pub struct JsonSerializeStruct {
    first: bool,
    start: Ghost<JsonSerializer>,
    value: Ghost<Data>,
}

impl SerializeStruct for JsonSerializeStruct {
    type Serializer = JsonSerializer;

    closed spec fn wf(&self, serializer: JsonSerializer) -> bool {
        &&& self.value@ is Struct
        &&& serializer@ == self.start@@ + encode_utf8(json_open(self.value@))
        &&& self.first <==> self.value@.fields().len() == 0
    }

    closed spec fn start(&self) -> JsonSerializer {
        self.start@
    }

    closed spec fn value(&self) -> Data {
        self.value@
    }

    fn serialize_field<T: Ser<JsonSerializer> + ?Sized>(
        &mut self,
        serializer: &mut JsonSerializer,
        key: &'static str,
        value: &T,
    ) -> (r: Result<(), JsonSerializeError>) {
        match write_field(&mut self.first, serializer, key, value, Ghost(self.start@@), Ghost(self.value@)) {
            Ok(()) => {},
            Err(e) => {
                return Err(e);
            },
        }
        proof {
            lemma_open_with_field(self.value@, key@, value.data());
            self.value@ = self.value@.with_field(key@, value.data());
        }
        Ok(())
    }

    fn end(self, serializer: &mut JsonSerializer) -> (r: Result<(), JsonSerializeError>) {
        close_one(serializer, '}', Ghost(self.start@@), Ghost(self.value@));
        Ok(())
    }
}

/// State of a JSON object `{"variant":{..}}` being written for a struct variant.
pub struct JsonSerializeStructVariant {
    first: bool,
    start: Ghost<JsonSerializer>,
    value: Ghost<Data>,
}

impl SerializeStructVariant for JsonSerializeStructVariant {
    type Serializer = JsonSerializer;

    closed spec fn wf(&self, serializer: JsonSerializer) -> bool {
        &&& self.value@ is StructVariant
        &&& serializer@ == self.start@@ + encode_utf8(json_open(self.value@))
        &&& self.first <==> self.value@.fields().len() == 0
    }

    closed spec fn start(&self) -> JsonSerializer {
        self.start@
    }

    closed spec fn value(&self) -> Data {
        self.value@
    }

    fn serialize_field<T: Ser<JsonSerializer> + ?Sized>(
        &mut self,
        serializer: &mut JsonSerializer,
        key: &'static str,
        value: &T,
    ) -> (r: Result<(), JsonSerializeError>) {
        match write_field(&mut self.first, serializer, key, value, Ghost(self.start@@), Ghost(self.value@)) {
            Ok(()) => {},
            Err(e) => {
                return Err(e);
            },
        }
        proof {
            lemma_open_with_field(self.value@, key@, value.data());
            self.value@ = self.value@.with_field(key@, value.data());
        }
        Ok(())
    }

    fn end(self, serializer: &mut JsonSerializer) -> (r: Result<(), JsonSerializeError>) {
        close_two(serializer, '}', '}', Ghost(self.start@@), Ghost(self.value@));
        Ok(())
    }
}

impl JsonSerializeSeq {
    /// While a sequence is being written, the buffer holds what stood before it
    /// followed by the value's text so far, without its closing brackets.
    pub proof fn lemma_written(&self, serializer: JsonSerializer)
        requires
            SerializeSeq::wf(self, serializer),
        ensures
            SerializeSeq::value(self) is Sequence,
            serializer@ == SerializeSeq::start(self)@ + encode_utf8(json_open(SerializeSeq::value(self))),
    {
    }
}

impl JsonSerializeTuple {
    /// While a tuple is being written, the buffer holds what stood before it
    /// followed by the value's text so far, without its closing brackets.
    pub proof fn lemma_written(&self, serializer: JsonSerializer)
        requires
            SerializeTuple::wf(self, serializer),
        ensures
            SerializeTuple::value(self) is Tuple,
            serializer@ == SerializeTuple::start(self)@ + encode_utf8(json_open(SerializeTuple::value(self))),
    {
    }
}

impl JsonSerializeTupleStruct {
    /// While a tuple struct is being written, the buffer holds what stood before it
    /// followed by the value's text so far, without its closing brackets.
    pub proof fn lemma_written(&self, serializer: JsonSerializer)
        requires
            SerializeTupleStruct::wf(self, serializer),
        ensures
            SerializeTupleStruct::value(self) is TupleStruct,
            serializer@ == SerializeTupleStruct::start(self)@ + encode_utf8(json_open(SerializeTupleStruct::value(self))),
    {
    }
}

impl JsonSerializeTupleVariant {
    /// While a tuple variant is being written, the buffer holds what stood before it
    /// followed by the value's text so far, without its closing brackets.
    pub proof fn lemma_written(&self, serializer: JsonSerializer)
        requires
            SerializeTupleVariant::wf(self, serializer),
        ensures
            SerializeTupleVariant::value(self) is TupleVariant,
            serializer@ == SerializeTupleVariant::start(self)@ + encode_utf8(json_open(SerializeTupleVariant::value(self))),
    {
    }
}

impl JsonSerializeStruct {
    /// While a struct is being written, the buffer holds what stood before it
    /// followed by the value's text so far, without its closing brackets.
    pub proof fn lemma_written(&self, serializer: JsonSerializer)
        requires
            SerializeStruct::wf(self, serializer),
        ensures
            SerializeStruct::value(self) is Struct,
            serializer@ == SerializeStruct::start(self)@ + encode_utf8(json_open(SerializeStruct::value(self))),
    {
    }
}

impl JsonSerializeStructVariant {
    /// While a struct variant is being written, the buffer holds what stood before it
    /// followed by the value's text so far, without its closing brackets.
    pub proof fn lemma_written(&self, serializer: JsonSerializer)
        requires
            SerializeStructVariant::wf(self, serializer),
        ensures
            SerializeStructVariant::value(self) is StructVariant,
            serializer@ == SerializeStructVariant::start(self)@ + encode_utf8(json_open(SerializeStructVariant::value(self))),
    {
    }
}

impl JsonSerializeMap {
    /// While a map is being written, the buffer holds what stood before it
    /// followed by the entries' text so far and, after a key, that key and a
    /// colon.
    pub proof fn lemma_written(&self, serializer: JsonSerializer)
        requires
            SerializeMap::wf(self, serializer),
        ensures
            SerializeMap::value(self) is Entries,
            serializer@ == SerializeMap::start(self)@ + encode_utf8(
                json_open(SerializeMap::value(self)) + map_pending_text(
                    SerializeMap::value(self),
                    SerializeMap::pending_key(self),
                ),
            ),
    {
    }
}

} // verus!
