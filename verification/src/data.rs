//! The data model: the shape in which a value presents itself to a serializer.
//!
//! Every serializer method corresponds to one variant here, so a value's
//! [`Data`](Data) says exactly which calls writing it makes, and with which
//! arguments.
use vstd::prelude::*;

verus! {

/// A value as a serializer sees it.
///
/// Names (of types, variants and fields) are kept as character sequences;
/// integers keep their width, since a format may write them differently.
#[verifier::ext_equal]
pub enum Data {
    Bool(bool),
    I8(i8),
    I16(i16),
    I32(i32),
    I64(i64),
    I128(i128),
    U8(u8),
    U16(u16),
    U32(u32),
    U64(u64),
    U128(u128),
    Char(char),
    Str(Seq<char>),
    Bytes(Seq<u8>),
    /// An absent optional value.
    NoneValue,
    /// A present optional value.
    SomeValue(Box<Data>),
    Unit,
    /// `struct Name;`
    UnitStruct(Seq<char>),
    /// A variant without data: type name, variant index, variant name.
    UnitVariant(Seq<char>, u32, Seq<char>),
    /// `struct Name(T);`
    NewtypeStruct(Seq<char>, Box<Data>),
    /// A variant holding one value.
    NewtypeVariant(Seq<char>, u32, Seq<char>, Box<Data>),
    /// A sequence of any length.
    Sequence(Seq<Data>),
    /// A tuple of fixed length.
    Tuple(Seq<Data>),
    /// `struct Name(A, B, ..);`
    TupleStruct(Seq<char>, Seq<Data>),
    /// A variant holding a tuple.
    TupleVariant(Seq<char>, u32, Seq<char>, Seq<Data>),
    /// Key-value pairs, in the order they were written.
    Entries(Seq<(Data, Data)>),
    /// `struct Name { a: A, .. }`: type name and named fields in order.
    Struct(Seq<char>, Seq<(Seq<char>, Data)>),
    /// A variant holding named fields.
    StructVariant(Seq<char>, u32, Seq<char>, Seq<(Seq<char>, Data)>),
}

impl Data {
    /// Whether this value is a sequence, tuple, tuple struct or tuple variant,
    /// the values that are built element by element.
    pub open spec fn is_list(self) -> bool {
        ||| self is Sequence
        ||| self is Tuple
        ||| self is TupleStruct
        ||| self is TupleVariant
    }

    /// Whether this value is a struct or struct variant, built field by field.
    pub open spec fn is_record(self) -> bool {
        self is Struct || self is StructVariant
    }

    /// The elements of a list value.
    pub open spec fn elements(self) -> Seq<Data> {
        match self {
            Data::Sequence(s) => s,
            Data::Tuple(s) => s,
            Data::TupleStruct(_, s) => s,
            Data::TupleVariant(_, _, _, s) => s,
            _ => Seq::empty(),
        }
    }

    /// The named fields of a record value.
    pub open spec fn fields(self) -> Seq<(Seq<char>, Data)> {
        match self {
            Data::Struct(_, f) => f,
            Data::StructVariant(_, _, _, f) => f,
            _ => Seq::empty(),
        }
    }

    /// The entries of a map value.
    pub open spec fn entries(self) -> Seq<(Data, Data)> {
        match self {
            Data::Entries(e) => e,
            _ => Seq::empty(),
        }
    }

    /// This list value with one more element at its end.
    pub open spec fn with_element(self, e: Data) -> Data {
        match self {
            Data::Sequence(s) => Data::Sequence(s.push(e)),
            Data::Tuple(s) => Data::Tuple(s.push(e)),
            Data::TupleStruct(n, s) => Data::TupleStruct(n, s.push(e)),
            Data::TupleVariant(n, i, v, s) => Data::TupleVariant(n, i, v, s.push(e)),
            _ => self,
        }
    }

    /// This record value with one more named field at its end.
    pub open spec fn with_field(self, key: Seq<char>, value: Data) -> Data {
        match self {
            Data::Struct(n, f) => Data::Struct(n, f.push((key, value))),
            Data::StructVariant(n, i, v, f) => Data::StructVariant(n, i, v, f.push((key, value))),
            _ => self,
        }
    }

    /// This map value with one more entry at its end.
    pub open spec fn with_entry(self, key: Data, value: Data) -> Data {
        match self {
            Data::Entries(e) => Data::Entries(e.push((key, value))),
            _ => self,
        }
    }
}

} // verus!
