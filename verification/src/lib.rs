//! A serialization framework: values describe themselves to a serializer
//! through [`Ser`], and a serializer such as [`json::JsonSerializer`] turns
//! those calls into output.
//!
//! What a value writes is stated in the data model of [`data::Data`]: each
//! `Ser` impl names the `Data` value it presents, and each serializer states,
//! through [`SerializerBase::writes`], what writing a `Data` value does to it.
use vstd::prelude::*;

pub mod data;
pub mod json;

pub mod json_text;
pub mod laws;

pub mod write;
mod impls;
pub mod ordered;
pub mod values;


pub use data::Data;
pub use impls::serialize_map_entries;

verus! {

/// Marker trait for serialization error types.
pub trait SerializeError {
}

/// The result types of a serializer, and what writing a value means for it.
///
/// `writes(before, after, d)` holds when a serializer in state `before` has
/// become `after` by writing the value `d`.
pub trait SerializerBase: Sized {
    /// The type returned on successful serialization.
    type Ok;

    /// The error type returned when serialization fails.
    type Error: SerializeError;

    /// The serializer went from `before` to `after` by writing `d`.
    spec fn writes(before: Self, after: Self, d: Data) -> bool;

    /// The serializer never reports an error.
    spec fn infallible() -> bool;
}

/// The core serialization trait: a value that can write itself to `S`.
pub trait Ser<S: SerializerBase> {
    /// The value this is, in the data model.
    spec fn data(&self) -> Data;

    /// Serializes `self` into the given serializer.
    ///
    /// A value must not fail on a serializer that never fails
    /// (`S::infallible()`): every impl owes `Ok` there, so a value written to
    /// the JSON serializer always succeeds. On a serializer that can fail,
    /// the impls of this library pass an error of a nested value back as it
    /// came and write nothing more after it.
    fn serialize(&self, serializer: &mut S) -> (r: Result<S::Ok, S::Error>)
        ensures
            S::infallible() ==> r is Ok,
            r is Ok ==> S::writes(*old(serializer), *final(serializer), self.data()),
    ;
}

/// Lets a type provide its own serialization for a particular serializer,
/// in place of the one its structure would give.
pub trait SpecializedSer<S: SerializerBase> {
    /// The value this is, in the data model, for this serializer.
    spec fn specialized_data(&self) -> Data;

    /// Serializes `self` using the type-specific logic. As with
    /// [`Ser::serialize`], it must not fail on a serializer that never fails.
    fn specialized_serialize(&self, serializer: &mut S) -> (r: Result<S::Ok, S::Error>)
        ensures
            S::infallible() ==> r is Ok,
            r is Ok ==> S::writes(*old(serializer), *final(serializer), self.specialized_data()),
    ;
}

/// A value written through its [`SpecializedSer`] impl instead of [`Ser`]:
/// where a value of a type with a specialized serialization is to be
/// written, wrapping it in `Specialized` selects that serialization.
pub struct Specialized<'a, T: ?Sized>(pub &'a T);

impl<'a, S: SerializerBase, T: SpecializedSer<S> + ?Sized> Ser<S> for Specialized<'a, T> {
    open spec fn data(&self) -> Data {
        self.0.specialized_data()
    }

    fn serialize(&self, serializer: &mut S) -> (r: Result<S::Ok, S::Error>) {
        self.0.specialized_serialize(serializer)
    }
}

/// A data format that can serialize any value implementing [`Ser`].
///
/// Each method writes one value of the data model. The compound values
/// (sequences, tuples, maps, structs and their variant forms) are written by
/// a state object that the `serialize_*` method returns: its methods take the
/// serializer again for each element, and `end` finishes the value.
pub trait Serializer: SerializerBase {
    /// State for a variable-length sequence.
    type SerializeSeq: SerializeSeq<Serializer = Self>;

    /// State for a fixed-size tuple.
    type SerializeTuple: SerializeTuple<Serializer = Self>;

    /// State for a named tuple struct.
    type SerializeTupleStruct: SerializeTupleStruct<Serializer = Self>;

    /// State for a tuple variant of an enum.
    type SerializeTupleVariant: SerializeTupleVariant<Serializer = Self>;

    /// State for a key-value map.
    type SerializeMap: SerializeMap<Serializer = Self>;

    /// State for a struct with named fields.
    type SerializeStruct: SerializeStruct<Serializer = Self>;

    /// State for a struct variant of an enum.
    type SerializeStructVariant: SerializeStructVariant<Serializer = Self>;

    /// Serializes a `bool` value.
    fn serialize_bool(&mut self, v: bool) -> (r: Result<Self::Ok, Self::Error>)
        ensures
            Self::infallible() ==> r is Ok,
            r is Ok ==> Self::writes(*old(self), *final(self), Data::Bool(v)),
    ;

    /// Serializes an `i8` value.
    fn serialize_i8(&mut self, v: i8) -> (r: Result<Self::Ok, Self::Error>)
        ensures
            Self::infallible() ==> r is Ok,
            r is Ok ==> Self::writes(*old(self), *final(self), Data::I8(v)),
    ;

    /// Serializes an `i16` value.
    fn serialize_i16(&mut self, v: i16) -> (r: Result<Self::Ok, Self::Error>)
        ensures
            Self::infallible() ==> r is Ok,
            r is Ok ==> Self::writes(*old(self), *final(self), Data::I16(v)),
    ;

    /// Serializes an `i32` value.
    fn serialize_i32(&mut self, v: i32) -> (r: Result<Self::Ok, Self::Error>)
        ensures
            Self::infallible() ==> r is Ok,
            r is Ok ==> Self::writes(*old(self), *final(self), Data::I32(v)),
    ;

    /// Serializes an `i64` value.
    fn serialize_i64(&mut self, v: i64) -> (r: Result<Self::Ok, Self::Error>)
        ensures
            Self::infallible() ==> r is Ok,
            r is Ok ==> Self::writes(*old(self), *final(self), Data::I64(v)),
    ;

    /// Serializes an `i128` value.
    fn serialize_i128(&mut self, v: i128) -> (r: Result<Self::Ok, Self::Error>)
        ensures
            Self::infallible() ==> r is Ok,
            r is Ok ==> Self::writes(*old(self), *final(self), Data::I128(v)),
    ;

    /// Serializes a `u8` value.
    fn serialize_u8(&mut self, v: u8) -> (r: Result<Self::Ok, Self::Error>)
        ensures
            Self::infallible() ==> r is Ok,
            r is Ok ==> Self::writes(*old(self), *final(self), Data::U8(v)),
    ;

    /// Serializes a `u16` value.
    fn serialize_u16(&mut self, v: u16) -> (r: Result<Self::Ok, Self::Error>)
        ensures
            Self::infallible() ==> r is Ok,
            r is Ok ==> Self::writes(*old(self), *final(self), Data::U16(v)),
    ;

    /// Serializes a `u32` value.
    fn serialize_u32(&mut self, v: u32) -> (r: Result<Self::Ok, Self::Error>)
        ensures
            Self::infallible() ==> r is Ok,
            r is Ok ==> Self::writes(*old(self), *final(self), Data::U32(v)),
    ;

    /// Serializes a `u64` value.
    fn serialize_u64(&mut self, v: u64) -> (r: Result<Self::Ok, Self::Error>)
        ensures
            Self::infallible() ==> r is Ok,
            r is Ok ==> Self::writes(*old(self), *final(self), Data::U64(v)),
    ;

    /// Serializes a `u128` value.
    fn serialize_u128(&mut self, v: u128) -> (r: Result<Self::Ok, Self::Error>)
        ensures
            Self::infallible() ==> r is Ok,
            r is Ok ==> Self::writes(*old(self), *final(self), Data::U128(v)),
    ;

    /// Serializes a `char` value.
    fn serialize_char(&mut self, v: char) -> (r: Result<Self::Ok, Self::Error>)
        ensures
            Self::infallible() ==> r is Ok,
            r is Ok ==> Self::writes(*old(self), *final(self), Data::Char(v)),
    ;

    /// Serializes a string slice.
    fn serialize_str(&mut self, v: &str) -> (r: Result<Self::Ok, Self::Error>)
        ensures
            Self::infallible() ==> r is Ok,
            r is Ok ==> Self::writes(*old(self), *final(self), Data::Str(v@)),
    ;

    /// Serializes a byte slice.
    fn serialize_bytes(&mut self, v: &[u8]) -> (r: Result<Self::Ok, Self::Error>)
        ensures
            Self::infallible() ==> r is Ok,
            r is Ok ==> Self::writes(*old(self), *final(self), Data::Bytes(v@)),
    ;

    /// Serializes a `None` value.
    fn serialize_none(&mut self) -> (r: Result<Self::Ok, Self::Error>)
        ensures
            Self::infallible() ==> r is Ok,
            r is Ok ==> Self::writes(*old(self), *final(self), Data::NoneValue),
    ;

    /// Serializes a `Some(value)`.
    fn serialize_some<T: Ser<Self>>(&mut self, value: &T) -> (r: Result<Self::Ok, Self::Error>)
        ensures
            Self::infallible() ==> r is Ok,
            r is Ok ==> Self::writes(
                *old(self),
                *final(self),
                Data::SomeValue(Box::new(value.data())),
            ),
    ;

    /// Serializes the unit type `()`.
    fn serialize_unit(&mut self) -> (r: Result<Self::Ok, Self::Error>)
        ensures
            Self::infallible() ==> r is Ok,
            r is Ok ==> Self::writes(*old(self), *final(self), Data::Unit),
    ;

    /// Serializes a unit struct (e.g. `struct Unit;`).
    fn serialize_unit_struct(&mut self, name: &'static str) -> (r: Result<Self::Ok, Self::Error>)
        ensures
            Self::infallible() ==> r is Ok,
            r is Ok ==> Self::writes(*old(self), *final(self), Data::UnitStruct(name@)),
    ;

    /// Serializes a unit variant of an enum (e.g. `Color::Red`).
    fn serialize_unit_variant(
        &mut self,
        name: &'static str,
        variant_index: u32,
        variant: &'static str,
    ) -> (r: Result<Self::Ok, Self::Error>)
        ensures
            Self::infallible() ==> r is Ok,
            r is Ok ==> Self::writes(
                *old(self),
                *final(self),
                Data::UnitVariant(name@, variant_index, variant@),
            ),
    ;

    /// Serializes a newtype struct (e.g. `struct Inches(u32)`).
    fn serialize_newtype_struct<T: Ser<Self>>(&mut self, name: &'static str, value: &T) -> (r:
        Result<Self::Ok, Self::Error>)
        ensures
            Self::infallible() ==> r is Ok,
            r is Ok ==> Self::writes(
                *old(self),
                *final(self),
                Data::NewtypeStruct(name@, Box::new(value.data())),
            ),
    ;

    /// Serializes a newtype variant of an enum (e.g. `Value::Int(i32)`).
    fn serialize_newtype_variant<T: Ser<Self>>(
        &mut self,
        name: &'static str,
        variant_index: u32,
        variant: &'static str,
        value: &T,
    ) -> (r: Result<Self::Ok, Self::Error>)
        ensures
            Self::infallible() ==> r is Ok,
            r is Ok ==> Self::writes(
                *old(self),
                *final(self),
                Data::NewtypeVariant(name@, variant_index, variant@, Box::new(value.data())),
            ),
    ;

    /// Begins a variable-length sequence. `len` is a hint if known.
    fn serialize_seq(&mut self, len: Option<usize>) -> (r: Result<Self::SerializeSeq, Self::Error>)
        ensures
            Self::infallible() ==> r is Ok,
            r matches Ok(state) ==> {
                &&& state.wf(*final(self))
                &&& state.start() == *old(self)
                &&& state.value() == Data::Sequence(Seq::empty())
            },
    ;

    /// Begins a fixed-length tuple of `len` elements.
    fn serialize_tuple(&mut self, len: usize) -> (r: Result<Self::SerializeTuple, Self::Error>)
        ensures
            Self::infallible() ==> r is Ok,
            r matches Ok(state) ==> {
                &&& state.wf(*final(self))
                &&& state.start() == *old(self)
                &&& state.value() == Data::Tuple(Seq::empty())
            },
    ;

    /// Begins a named tuple struct with `len` fields.
    fn serialize_tuple_struct(&mut self, name: &'static str, len: usize) -> (r: Result<
        Self::SerializeTupleStruct,
        Self::Error,
    >)
        ensures
            Self::infallible() ==> r is Ok,
            r matches Ok(state) ==> {
                &&& state.wf(*final(self))
                &&& state.start() == *old(self)
                &&& state.value() == Data::TupleStruct(name@, Seq::empty())
            },
    ;

    /// Begins a tuple variant of an enum with `len` fields.
    fn serialize_tuple_variant(
        &mut self,
        name: &'static str,
        variant_index: u32,
        variant: &'static str,
        len: usize,
    ) -> (r: Result<Self::SerializeTupleVariant, Self::Error>)
        ensures
            Self::infallible() ==> r is Ok,
            r matches Ok(state) ==> {
                &&& state.wf(*final(self))
                &&& state.start() == *old(self)
                &&& state.value() == Data::TupleVariant(
                    name@,
                    variant_index,
                    variant@,
                    Seq::empty(),
                )
            },
    ;

    /// Begins a map. `len` is a hint if known.
    fn serialize_map(&mut self, len: Option<usize>) -> (r: Result<Self::SerializeMap, Self::Error>)
        ensures
            Self::infallible() ==> r is Ok,
            r matches Ok(state) ==> {
                &&& state.wf(*final(self))
                &&& state.start() == *old(self)
                &&& state.value() == Data::Entries(Seq::empty())
                &&& state.pending_key() is None
            },
    ;

    /// Begins a named struct with `len` fields.
    fn serialize_struct(&mut self, name: &'static str, len: usize) -> (r: Result<
        Self::SerializeStruct,
        Self::Error,
    >)
        ensures
            Self::infallible() ==> r is Ok,
            r matches Ok(state) ==> {
                &&& state.wf(*final(self))
                &&& state.start() == *old(self)
                &&& state.value() == Data::Struct(name@, Seq::empty())
            },
    ;

    /// Begins a struct variant of an enum with `len` fields.
    fn serialize_struct_variant(
        &mut self,
        name: &'static str,
        variant_index: u32,
        variant: &'static str,
        len: usize,
    ) -> (r: Result<Self::SerializeStructVariant, Self::Error>)
        ensures
            Self::infallible() ==> r is Ok,
            r matches Ok(state) ==> {
                &&& state.wf(*final(self))
                &&& state.start() == *old(self)
                &&& state.value() == Data::StructVariant(
                    name@,
                    variant_index,
                    variant@,
                    Seq::empty(),
                )
            },
    ;
}

/// Returned by [`Serializer::serialize_seq`]: writes a sequence element by
/// element, then finishes it with [`end`](SerializeSeq::end).
///
/// `wf(s)` holds while the state belongs to serializer `s`; `start()` is the
/// serializer before the sequence began, `value()` the sequence so far.
pub trait SerializeSeq: Sized {
    /// The serializer this state writes to.
    type Serializer: SerializerBase;

    /// The state and the serializer it writes to agree.
    spec fn wf(&self, serializer: Self::Serializer) -> bool;

    /// The serializer as it was before the sequence began.
    spec fn start(&self) -> Self::Serializer;

    /// The sequence written so far.
    spec fn value(&self) -> Data;

    /// Serializes one element of the sequence.
    fn serialize_element<T: Ser<Self::Serializer> + ?Sized>(
        &mut self,
        serializer: &mut Self::Serializer,
        value: &T,
    ) -> (r: Result<(), <Self::Serializer as SerializerBase>::Error>)
        requires
            old(self).wf(*old(serializer)),
        ensures
            final(self).start() == old(self).start(),
            <Self::Serializer as SerializerBase>::infallible() ==> r is Ok,
            r is Ok ==> final(self).wf(*final(serializer)),
            r is Ok ==> final(self).value() == old(self).value().with_element(value.data()),
    ;

    /// Finishes the sequence.
    fn end(self, serializer: &mut Self::Serializer) -> (r: Result<
        <Self::Serializer as SerializerBase>::Ok,
        <Self::Serializer as SerializerBase>::Error,
    >)
        requires
            self.wf(*old(serializer)),
        ensures
            <Self::Serializer as SerializerBase>::infallible() ==> r is Ok,
            r is Ok ==> <Self::Serializer as SerializerBase>::writes(
                self.start(),
                *final(serializer),
                self.value(),
            ),
    ;
}

/// Returned by [`Serializer::serialize_tuple`]: writes a tuple element by
/// element, then finishes it with [`end`](SerializeTuple::end).
pub trait SerializeTuple: Sized {
    /// The serializer this state writes to.
    type Serializer: SerializerBase;

    /// The state and the serializer it writes to agree.
    spec fn wf(&self, serializer: Self::Serializer) -> bool;

    /// The serializer as it was before the tuple began.
    spec fn start(&self) -> Self::Serializer;

    /// The tuple written so far.
    spec fn value(&self) -> Data;

    /// Serializes one element of the tuple.
    fn serialize_element<T: Ser<Self::Serializer> + ?Sized>(
        &mut self,
        serializer: &mut Self::Serializer,
        value: &T,
    ) -> (r: Result<(), <Self::Serializer as SerializerBase>::Error>)
        requires
            old(self).wf(*old(serializer)),
        ensures
            final(self).start() == old(self).start(),
            <Self::Serializer as SerializerBase>::infallible() ==> r is Ok,
            r is Ok ==> final(self).wf(*final(serializer)),
            r is Ok ==> final(self).value() == old(self).value().with_element(value.data()),
    ;

    /// Finishes the tuple.
    fn end(self, serializer: &mut Self::Serializer) -> (r: Result<
        <Self::Serializer as SerializerBase>::Ok,
        <Self::Serializer as SerializerBase>::Error,
    >)
        requires
            self.wf(*old(serializer)),
        ensures
            <Self::Serializer as SerializerBase>::infallible() ==> r is Ok,
            r is Ok ==> <Self::Serializer as SerializerBase>::writes(
                self.start(),
                *final(serializer),
                self.value(),
            ),
    ;
}

/// Returned by [`Serializer::serialize_tuple_struct`]: writes a named tuple
/// struct field by field, then finishes it with [`end`](SerializeTupleStruct::end).
pub trait SerializeTupleStruct: Sized {
    /// The serializer this state writes to.
    type Serializer: SerializerBase;

    /// The state and the serializer it writes to agree.
    spec fn wf(&self, serializer: Self::Serializer) -> bool;

    /// The serializer as it was before the tuple struct began.
    spec fn start(&self) -> Self::Serializer;

    /// The tuple struct written so far.
    spec fn value(&self) -> Data;

    /// Serializes one field of the tuple struct.
    fn serialize_field<T: Ser<Self::Serializer> + ?Sized>(
        &mut self,
        serializer: &mut Self::Serializer,
        value: &T,
    ) -> (r: Result<(), <Self::Serializer as SerializerBase>::Error>)
        requires
            old(self).wf(*old(serializer)),
        ensures
            final(self).start() == old(self).start(),
            <Self::Serializer as SerializerBase>::infallible() ==> r is Ok,
            r is Ok ==> final(self).wf(*final(serializer)),
            r is Ok ==> final(self).value() == old(self).value().with_element(value.data()),
    ;

    /// Finishes the tuple struct.
    fn end(self, serializer: &mut Self::Serializer) -> (r: Result<
        <Self::Serializer as SerializerBase>::Ok,
        <Self::Serializer as SerializerBase>::Error,
    >)
        requires
            self.wf(*old(serializer)),
        ensures
            <Self::Serializer as SerializerBase>::infallible() ==> r is Ok,
            r is Ok ==> <Self::Serializer as SerializerBase>::writes(
                self.start(),
                *final(serializer),
                self.value(),
            ),
    ;
}

/// Returned by [`Serializer::serialize_tuple_variant`]: writes an enum's tuple
/// variant field by field, then finishes it with [`end`](SerializeTupleVariant::end).
pub trait SerializeTupleVariant: Sized {
    /// The serializer this state writes to.
    type Serializer: SerializerBase;

    /// The state and the serializer it writes to agree.
    spec fn wf(&self, serializer: Self::Serializer) -> bool;

    /// The serializer as it was before the variant began.
    spec fn start(&self) -> Self::Serializer;

    /// The tuple variant written so far.
    spec fn value(&self) -> Data;

    /// Serializes one field of the tuple variant.
    fn serialize_field<T: Ser<Self::Serializer> + ?Sized>(
        &mut self,
        serializer: &mut Self::Serializer,
        value: &T,
    ) -> (r: Result<(), <Self::Serializer as SerializerBase>::Error>)
        requires
            old(self).wf(*old(serializer)),
        ensures
            final(self).start() == old(self).start(),
            <Self::Serializer as SerializerBase>::infallible() ==> r is Ok,
            r is Ok ==> final(self).wf(*final(serializer)),
            r is Ok ==> final(self).value() == old(self).value().with_element(value.data()),
    ;

    /// Finishes the tuple variant.
    fn end(self, serializer: &mut Self::Serializer) -> (r: Result<
        <Self::Serializer as SerializerBase>::Ok,
        <Self::Serializer as SerializerBase>::Error,
    >)
        requires
            self.wf(*old(serializer)),
        ensures
            <Self::Serializer as SerializerBase>::infallible() ==> r is Ok,
            r is Ok ==> <Self::Serializer as SerializerBase>::writes(
                self.start(),
                *final(serializer),
                self.value(),
            ),
    ;
}

/// Returned by [`Serializer::serialize_map`]: writes a map entry by entry,
/// each as a key followed by its value, then finishes it with
/// [`end`](SerializeMap::end).
pub trait SerializeMap: Sized {
    /// The serializer this state writes to.
    type Serializer: SerializerBase;

    /// The state and the serializer it writes to agree.
    spec fn wf(&self, serializer: Self::Serializer) -> bool;

    /// The serializer as it was before the map began.
    spec fn start(&self) -> Self::Serializer;

    /// The entries written so far, key and value both.
    spec fn value(&self) -> Data;

    /// A key written whose value is still to come.
    spec fn pending_key(&self) -> Option<Data>;

    /// Serializes a map key. Must be followed by a
    /// [`serialize_value`](SerializeMap::serialize_value) call.
    fn serialize_key<K: Ser<Self::Serializer> + ?Sized>(
        &mut self,
        serializer: &mut Self::Serializer,
        key: &K,
    ) -> (r: Result<(), <Self::Serializer as SerializerBase>::Error>)
        requires
            old(self).wf(*old(serializer)),
            old(self).pending_key() is None,
        ensures
            final(self).start() == old(self).start(),
            <Self::Serializer as SerializerBase>::infallible() ==> r is Ok,
            r is Ok ==> final(self).wf(*final(serializer)),
            r is Ok ==> final(self).value() == old(self).value(),
            r is Ok ==> final(self).pending_key() == Some(key.data()),
    ;

    /// Serializes a map value. Must be called after
    /// [`serialize_key`](SerializeMap::serialize_key).
    fn serialize_value<V: Ser<Self::Serializer> + ?Sized>(
        &mut self,
        serializer: &mut Self::Serializer,
        value: &V,
    ) -> (r: Result<(), <Self::Serializer as SerializerBase>::Error>)
        requires
            old(self).wf(*old(serializer)),
            old(self).pending_key() is Some,
        ensures
            final(self).start() == old(self).start(),
            <Self::Serializer as SerializerBase>::infallible() ==> r is Ok,
            r is Ok ==> final(self).wf(*final(serializer)),
            r is Ok ==> final(self).value() == old(self).value().with_entry(
                old(self).pending_key()->0,
                value.data(),
            ),
            r is Ok ==> final(self).pending_key() is None,
    ;

    /// Serializes a key-value pair in one call.
    fn serialize_entry<K: Ser<Self::Serializer> + ?Sized, V: Ser<Self::Serializer> + ?Sized>(
        &mut self,
        serializer: &mut Self::Serializer,
        key: &K,
        value: &V,
    ) -> (r: Result<(), <Self::Serializer as SerializerBase>::Error>)
        requires
            old(self).wf(*old(serializer)),
            old(self).pending_key() is None,
        ensures
            final(self).start() == old(self).start(),
            <Self::Serializer as SerializerBase>::infallible() ==> r is Ok,
            r is Ok ==> final(self).wf(*final(serializer)),
            r is Ok ==> final(self).value() == old(self).value().with_entry(
                key.data(),
                value.data(),
            ),
            r is Ok ==> final(self).pending_key() is None,
    {
        let r = self.serialize_key(serializer, key);
        match r {
            Ok(()) => {},
            Err(e) => {
                return Err(e);
            },
        }
        self.serialize_value(serializer, value)
    }

    /// Finishes the map.
    fn end(self, serializer: &mut Self::Serializer) -> (r: Result<
        <Self::Serializer as SerializerBase>::Ok,
        <Self::Serializer as SerializerBase>::Error,
    >)
        requires
            self.wf(*old(serializer)),
            self.pending_key() is None,
        ensures
            <Self::Serializer as SerializerBase>::infallible() ==> r is Ok,
            r is Ok ==> <Self::Serializer as SerializerBase>::writes(
                self.start(),
                *final(serializer),
                self.value(),
            ),
    ;
}

/// Returned by [`Serializer::serialize_struct`]: writes a named struct field
/// by field, with field names, then finishes it with [`end`](SerializeStruct::end).
pub trait SerializeStruct: Sized {
    /// The serializer this state writes to.
    type Serializer: SerializerBase;

    /// The state and the serializer it writes to agree.
    spec fn wf(&self, serializer: Self::Serializer) -> bool;

    /// The serializer as it was before the struct began.
    spec fn start(&self) -> Self::Serializer;

    /// The struct written so far.
    spec fn value(&self) -> Data;

    /// Serializes one named field of the struct.
    fn serialize_field<T: Ser<Self::Serializer> + ?Sized>(
        &mut self,
        serializer: &mut Self::Serializer,
        key: &'static str,
        value: &T,
    ) -> (r: Result<(), <Self::Serializer as SerializerBase>::Error>)
        requires
            old(self).wf(*old(serializer)),
        ensures
            final(self).start() == old(self).start(),
            <Self::Serializer as SerializerBase>::infallible() ==> r is Ok,
            r is Ok ==> final(self).wf(*final(serializer)),
            r is Ok ==> final(self).value() == old(self).value().with_field(key@, value.data()),
    ;

    /// Finishes the struct.
    fn end(self, serializer: &mut Self::Serializer) -> (r: Result<
        <Self::Serializer as SerializerBase>::Ok,
        <Self::Serializer as SerializerBase>::Error,
    >)
        requires
            self.wf(*old(serializer)),
        ensures
            <Self::Serializer as SerializerBase>::infallible() ==> r is Ok,
            r is Ok ==> <Self::Serializer as SerializerBase>::writes(
                self.start(),
                *final(serializer),
                self.value(),
            ),
    ;
}

/// Returned by [`Serializer::serialize_struct_variant`]: writes an enum's
/// struct variant field by field, with field names, then finishes it with
/// [`end`](SerializeStructVariant::end).
pub trait SerializeStructVariant: Sized {
    /// The serializer this state writes to.
    type Serializer: SerializerBase;

    /// The state and the serializer it writes to agree.
    spec fn wf(&self, serializer: Self::Serializer) -> bool;

    /// The serializer as it was before the variant began.
    spec fn start(&self) -> Self::Serializer;

    /// The struct variant written so far.
    spec fn value(&self) -> Data;

    /// Serializes one named field of the struct variant.
    fn serialize_field<T: Ser<Self::Serializer> + ?Sized>(
        &mut self,
        serializer: &mut Self::Serializer,
        key: &'static str,
        value: &T,
    ) -> (r: Result<(), <Self::Serializer as SerializerBase>::Error>)
        requires
            old(self).wf(*old(serializer)),
        ensures
            final(self).start() == old(self).start(),
            <Self::Serializer as SerializerBase>::infallible() ==> r is Ok,
            r is Ok ==> final(self).wf(*final(serializer)),
            r is Ok ==> final(self).value() == old(self).value().with_field(key@, value.data()),
    ;

    /// Finishes the struct variant.
    fn end(self, serializer: &mut Self::Serializer) -> (r: Result<
        <Self::Serializer as SerializerBase>::Ok,
        <Self::Serializer as SerializerBase>::Error,
    >)
        requires
            self.wf(*old(serializer)),
        ensures
            <Self::Serializer as SerializerBase>::infallible() ==> r is Ok,
            r is Ok ==> <Self::Serializer as SerializerBase>::writes(
                self.start(),
                *final(serializer),
                self.value(),
            ),
    ;
}

} // verus!
