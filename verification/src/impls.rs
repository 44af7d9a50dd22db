//! [`Ser`] for the standard types: primitives, strings, references and
//! smart pointers, slices, arrays and vectors, options and tuples.
use std::borrow::Cow;
use std::collections::VecDeque;
use std::mem::ManuallyDrop;
use std::ops::Deref;
use std::rc::Rc;
use std::sync::Arc;

use vstd::prelude::*;
use vstd::std_specs::manually_drop::ManuallyDropAdditionalFns;

use crate::data::Data;
use crate::{
    Ser, SerializeMap, SerializeSeq, SerializeTuple, Serializer, SerializerBase, SpecializedSer,
};

verus! {

/// A `bool` is written as itself.
impl<S: Serializer> Ser<S> for bool {
    open spec fn data(&self) -> Data {
        Data::Bool(*self)
    }

    fn serialize(&self, serializer: &mut S) -> (r: Result<S::Ok, S::Error>) {
        serializer.serialize_bool(*self)
    }
}

/// A `i8` is written as itself.
impl<S: Serializer> Ser<S> for i8 {
    open spec fn data(&self) -> Data {
        Data::I8(*self)
    }

    fn serialize(&self, serializer: &mut S) -> (r: Result<S::Ok, S::Error>) {
        serializer.serialize_i8(*self)
    }
}

/// A `i16` is written as itself.
impl<S: Serializer> Ser<S> for i16 {
    open spec fn data(&self) -> Data {
        Data::I16(*self)
    }

    fn serialize(&self, serializer: &mut S) -> (r: Result<S::Ok, S::Error>) {
        serializer.serialize_i16(*self)
    }
}

/// A `i32` is written as itself.
impl<S: Serializer> Ser<S> for i32 {
    open spec fn data(&self) -> Data {
        Data::I32(*self)
    }

    fn serialize(&self, serializer: &mut S) -> (r: Result<S::Ok, S::Error>) {
        serializer.serialize_i32(*self)
    }
}

/// A `i64` is written as itself.
impl<S: Serializer> Ser<S> for i64 {
    open spec fn data(&self) -> Data {
        Data::I64(*self)
    }

    fn serialize(&self, serializer: &mut S) -> (r: Result<S::Ok, S::Error>) {
        serializer.serialize_i64(*self)
    }
}

/// A `i128` is written as itself.
impl<S: Serializer> Ser<S> for i128 {
    open spec fn data(&self) -> Data {
        Data::I128(*self)
    }

    fn serialize(&self, serializer: &mut S) -> (r: Result<S::Ok, S::Error>) {
        serializer.serialize_i128(*self)
    }
}

/// A `u8` is written as itself.
impl<S: Serializer> Ser<S> for u8 {
    open spec fn data(&self) -> Data {
        Data::U8(*self)
    }

    fn serialize(&self, serializer: &mut S) -> (r: Result<S::Ok, S::Error>) {
        serializer.serialize_u8(*self)
    }
}

/// A `u16` is written as itself.
impl<S: Serializer> Ser<S> for u16 {
    open spec fn data(&self) -> Data {
        Data::U16(*self)
    }

    fn serialize(&self, serializer: &mut S) -> (r: Result<S::Ok, S::Error>) {
        serializer.serialize_u16(*self)
    }
}

/// A `u32` is written as itself.
impl<S: Serializer> Ser<S> for u32 {
    open spec fn data(&self) -> Data {
        Data::U32(*self)
    }

    fn serialize(&self, serializer: &mut S) -> (r: Result<S::Ok, S::Error>) {
        serializer.serialize_u32(*self)
    }
}

/// A `u64` is written as itself.
impl<S: Serializer> Ser<S> for u64 {
    open spec fn data(&self) -> Data {
        Data::U64(*self)
    }

    fn serialize(&self, serializer: &mut S) -> (r: Result<S::Ok, S::Error>) {
        serializer.serialize_u64(*self)
    }
}

/// A `u128` is written as itself.
impl<S: Serializer> Ser<S> for u128 {
    open spec fn data(&self) -> Data {
        Data::U128(*self)
    }

    fn serialize(&self, serializer: &mut S) -> (r: Result<S::Ok, S::Error>) {
        serializer.serialize_u128(*self)
    }
}

/// A `char` is written as itself.
impl<S: Serializer> Ser<S> for char {
    open spec fn data(&self) -> Data {
        Data::Char(*self)
    }

    fn serialize(&self, serializer: &mut S) -> (r: Result<S::Ok, S::Error>) {
        serializer.serialize_char(*self)
    }
}

/// An `isize` is written as the signed integer of its width: 32 bits where
/// `isize` has 32, 64 bits otherwise.
impl<S: Serializer> Ser<S> for isize {
    open spec fn data(&self) -> Data {
        if isize::BITS == 32 {
            Data::I32(*self as i32)
        } else {
            Data::I64(*self as i64)
        }
    }

    fn serialize(&self, serializer: &mut S) -> (r: Result<S::Ok, S::Error>) {
        if isize::BITS == 32 {
            serializer.serialize_i32(*self as i32)
        } else {
            serializer.serialize_i64(*self as i64)
        }
    }
}

/// A `usize` is written as the unsigned integer of its width: 32 bits where
/// `usize` has 32, 64 bits otherwise.
impl<S: Serializer> Ser<S> for usize {
    open spec fn data(&self) -> Data {
        if usize::BITS == 32 {
            Data::U32(*self as u32)
        } else {
            Data::U64(*self as u64)
        }
    }

    fn serialize(&self, serializer: &mut S) -> (r: Result<S::Ok, S::Error>) {
        if usize::BITS == 32 {
            serializer.serialize_u32(*self as u32)
        } else {
            serializer.serialize_u64(*self as u64)
        }
    }
}

/// A string slice is written as a string.
impl<S: Serializer> Ser<S> for str {
    open spec fn data(&self) -> Data {
        Data::Str(self@)
    }

    fn serialize(&self, serializer: &mut S) -> (r: Result<S::Ok, S::Error>) {
        serializer.serialize_str(self)
    }
}

/// A `String` is written as the string slice it holds.
impl<S: Serializer> Ser<S> for String {
    open spec fn data(&self) -> Data {
        Data::Str(self@)
    }

    fn serialize(&self, serializer: &mut S) -> (r: Result<S::Ok, S::Error>) {
        serializer.serialize_str(self.as_str())
    }
}

/// A copy-on-write string is written as the string it holds, borrowed or
/// owned.
impl<'a, S: Serializer> Ser<S> for Cow<'a, str> {
    open spec fn data(&self) -> Data {
        Data::Str(self@)
    }

    fn serialize(&self, serializer: &mut S) -> (r: Result<S::Ok, S::Error>) {
        match self {
            Cow::Borrowed(b) => serializer.serialize_str(b),
            Cow::Owned(o) => serializer.serialize_str(o.as_str()),
        }
    }
}

/// A copy-on-write slice is written as a sequence of the elements it holds,
/// borrowed or owned.
impl<'a, S: Serializer, T: Clone + Ser<S>> Ser<S> for Cow<'a, [T]> {
    open spec fn data(&self) -> Data {
        match self {
            Cow::Borrowed(b) => Data::Sequence(data_of::<S, T>(b@)),
            Cow::Owned(o) => Data::Sequence(data_of::<S, T>(o@)),
        }
    }

    fn serialize(&self, serializer: &mut S) -> (r: Result<S::Ok, S::Error>) {
        match self {
            Cow::Borrowed(b) => b.serialize(serializer),
            Cow::Owned(o) => o.as_slice().serialize(serializer),
        }
    }
}

/// A reference is written as what it refers to.
impl<'a, S: Serializer, T: Ser<S> + ?Sized> Ser<S> for &'a T {
    open spec fn data(&self) -> Data {
        (**self).data()
    }

    fn serialize(&self, serializer: &mut S) -> (r: Result<S::Ok, S::Error>) {
        (**self).serialize(serializer)
    }
}

/// A mutable reference is written as what it refers to.
impl<'a, S: Serializer, T: Ser<S> + ?Sized> Ser<S> for &'a mut T {
    open spec fn data(&self) -> Data {
        (**self).data()
    }

    fn serialize(&self, serializer: &mut S) -> (r: Result<S::Ok, S::Error>) {
        (**self).serialize(serializer)
    }
}

/// A box is written as what it holds.
impl<S: Serializer, T: Ser<S> + ?Sized> Ser<S> for Box<T> {
    open spec fn data(&self) -> Data {
        (**self).data()
    }

    fn serialize(&self, serializer: &mut S) -> (r: Result<S::Ok, S::Error>) {
        (**self).serialize(serializer)
    }
}

/// An `Rc` is written as what it holds.
impl<S: Serializer, T: Ser<S>> Ser<S> for Rc<T> {
    open spec fn data(&self) -> Data {
        (**self).data()
    }

    fn serialize(&self, serializer: &mut S) -> (r: Result<S::Ok, S::Error>) {
        (**self).serialize(serializer)
    }
}

/// An `Arc` is written as what it holds.
impl<S: Serializer, T: Ser<S>> Ser<S> for Arc<T> {
    open spec fn data(&self) -> Data {
        (**self).data()
    }

    fn serialize(&self, serializer: &mut S) -> (r: Result<S::Ok, S::Error>) {
        (**self).serialize(serializer)
    }
}

/// A `ManuallyDrop` is written as what it holds.
impl<S: Serializer, T: Ser<S> + ?Sized> Ser<S> for ManuallyDrop<T> {
    open spec fn data(&self) -> Data {
        self.view_ref().data()
    }

    fn serialize(&self, serializer: &mut S) -> (r: Result<S::Ok, S::Error>) {
        self.deref().serialize(serializer)
    }
}

/// The unit value is a tuple without fields, and is written as one.
impl<S: Serializer> Ser<S> for () {
    open spec fn data(&self) -> Data {
        Data::Tuple(Seq::empty())
    }

    fn serialize(&self, serializer: &mut S) -> (r: Result<S::Ok, S::Error>) {
        let tup = match serializer.serialize_tuple(0) {
            Ok(state) => state,
            Err(e) => {
                return Err(e);
            },
        };
        tup.end(serializer)
    }
}

/// An option has its own serialization: `None`, or `Some` of what it holds.
impl<S: Serializer, T: Ser<S>> SpecializedSer<S> for Option<T> {
    open spec fn specialized_data(&self) -> Data {
        match self {
            Some(v) => Data::SomeValue(Box::new(v.data())),
            None => Data::NoneValue,
        }
    }

    fn specialized_serialize(&self, serializer: &mut S) -> (r: Result<S::Ok, S::Error>) {
        match self {
            Some(v) => serializer.serialize_some(v),
            None => serializer.serialize_none(),
        }
    }
}

/// An option is written through its specialized serialization.
impl<S: Serializer, T: Ser<S>> Ser<S> for Option<T> {
    open spec fn data(&self) -> Data {
        self.specialized_data()
    }

    fn serialize(&self, serializer: &mut S) -> (r: Result<S::Ok, S::Error>) {
        self.specialized_serialize(serializer)
    }
}

/// The values of a sequence of serializable items, in order.
pub open spec fn data_of<S: SerializerBase, T: Ser<S>>(items: Seq<T>) -> Seq<Data> {
    items.map_values(|x: T| x.data())
}

/// The values of key-value pairs, in order.
pub open spec fn entries_data<S: SerializerBase, K: Ser<S>, V: Ser<S>>(entries: Seq<(K, V)>) -> Seq<
    (Data, Data),
> {
    entries.map_values(|e: (K, V)| (e.0.data(), e.1.data()))
}

/// Serializes key-value pairs as a map, in the order given: the way a map
/// collection is written once its entries are listed.
pub fn serialize_map_entries<S: Serializer, K: Ser<S>, V: Ser<S>>(
    serializer: &mut S,
    entries: &[(K, V)],
) -> (r: Result<S::Ok, S::Error>)
    ensures
        S::infallible() ==> r is Ok,
        r is Ok ==> S::writes(
            *old(serializer),
            *final(serializer),
            Data::Entries(entries_data::<S, K, V>(entries@)),
        ),
{
    let mut map = match serializer.serialize_map(Some(entries.len())) {
        Ok(state) => state,
        Err(e) => {
            return Err(e);
        },
    };
    let mut i: usize = 0;
    proof {
        assert(entries_data::<S, K, V>(entries@.take(0)) =~= Seq::<(Data, Data)>::empty());
    }
    while i < entries.len()
        invariant
            i <= entries.len(),
            map.wf(*serializer),
            map.start() == *old(serializer),
            map.pending_key() is None,
            map.value() == Data::Entries(entries_data::<S, K, V>(entries@.take(i as int))),
        decreases entries.len() - i,
    {
        let entry = &entries[i];
        match map.serialize_entry(serializer, &entry.0, &entry.1) {
            Ok(()) => {},
            Err(e) => {
                return Err(e);
            },
        }
        proof {
            assert(entries_data::<S, K, V>(entries@.take(i + 1)) =~= entries_data::<S, K, V>(
                entries@.take(i as int),
            ).push((entries@[i as int].0.data(), entries@[i as int].1.data())));
        }
        i = i + 1;
    }
    proof {
        assert(entries@.take(i as int) =~= entries@);
    }
    map.end(serializer)
}

/// A slice is written as a sequence of its elements.
impl<S: Serializer, T: Ser<S>> Ser<S> for [T] {
    open spec fn data(&self) -> Data {
        Data::Sequence(data_of::<S, T>(self@))
    }

    fn serialize(&self, serializer: &mut S) -> (r: Result<S::Ok, S::Error>) {
        let mut seq = match serializer.serialize_seq(Some(self.len())) {
            Ok(state) => state,
            Err(e) => {
                return Err(e);
            },
        };
        let mut i: usize = 0;
        proof {
            assert(data_of::<S, T>(self@.take(0)) =~= Seq::<Data>::empty());
        }
        while i < self.len()
            invariant
                i <= self.len(),
                seq.wf(*serializer),
                seq.start() == *old(serializer),
                seq.value() == Data::Sequence(data_of::<S, T>(self@.take(i as int))),
            decreases self.len() - i,
        {
            match seq.serialize_element(serializer, &self[i]) {
                Ok(()) => {},
                Err(e) => {
                    return Err(e);
                },
            }
            proof {
                assert(data_of::<S, T>(self@.take(i + 1)) =~= data_of::<S, T>(
                    self@.take(i as int),
                ).push(self@[i as int].data()));
            }
            i = i + 1;
        }
        proof {
            assert(self@.take(i as int) =~= self@);
        }
        seq.end(serializer)
    }
}

/// A vector is written as a sequence of its elements.
impl<S: Serializer, T: Ser<S>> Ser<S> for Vec<T> {
    open spec fn data(&self) -> Data {
        Data::Sequence(data_of::<S, T>(self@))
    }

    fn serialize(&self, serializer: &mut S) -> (r: Result<S::Ok, S::Error>) {
        self.as_slice().serialize(serializer)
    }
}

/// An array is written as a sequence of its elements.
impl<S: Serializer, T: Ser<S>, const N: usize> Ser<S> for [T; N] {
    open spec fn data(&self) -> Data {
        Data::Sequence(data_of::<S, T>(self@))
    }

    fn serialize(&self, serializer: &mut S) -> (r: Result<S::Ok, S::Error>) {
        self.as_slice().serialize(serializer)
    }
}

/// A double-ended queue is written as a sequence of its elements, front first.
impl<S: Serializer, T: Ser<S>> Ser<S> for VecDeque<T> {
    open spec fn data(&self) -> Data {
        Data::Sequence(data_of::<S, T>(self@))
    }

    fn serialize(&self, serializer: &mut S) -> (r: Result<S::Ok, S::Error>) {
        let mut seq = match serializer.serialize_seq(Some(self.len())) {
            Ok(state) => state,
            Err(e) => {
                return Err(e);
            },
        };
        let mut i: usize = 0;
        proof {
            assert(data_of::<S, T>(self@.take(0)) =~= Seq::<Data>::empty());
        }
        while i < self.len()
            invariant
                i <= self.len(),
                seq.wf(*serializer),
                seq.start() == *old(serializer),
                seq.value() == Data::Sequence(data_of::<S, T>(self@.take(i as int))),
            decreases self.len() - i,
        {
            match seq.serialize_element(serializer, &self[i]) {
                Ok(()) => {},
                Err(e) => {
                    return Err(e);
                },
            }
            proof {
                assert(data_of::<S, T>(self@.take(i + 1)) =~= data_of::<S, T>(
                    self@.take(i as int),
                ).push(self@[i as int].data()));
            }
            i = i + 1;
        }
        proof {
            assert(self@.take(i as int) =~= self@);
        }
        seq.end(serializer)
    }
}

/// A tuple of 1 is written as a tuple of its fields.
impl<S: Serializer, T1: Ser<S>> Ser<S> for (T1,) {
    open spec fn data(&self) -> Data {
        Data::Tuple(seq![self.0.data()])
    }

    fn serialize(&self, serializer: &mut S) -> (r: Result<S::Ok, S::Error>) {
        let mut tup = match serializer.serialize_tuple(1) {
            Ok(state) => state,
            Err(e) => {
                return Err(e);
            },
        };
        match tup.serialize_element(serializer, &self.0) {
            Ok(()) => {},
            Err(e) => {
                return Err(e);
            },
        }
        proof {
            assert(tup.value() == Data::Tuple(Seq::<Data>::empty()).with_element(self.0.data()));
            assert(Seq::<Data>::empty().push(self.0.data()) =~= seq![self.0.data()]);
        }
        tup.end(serializer)
    }
}

/// A tuple of 2 is written as a tuple of its fields.
impl<S: Serializer, T1: Ser<S>, T2: Ser<S>> Ser<S> for (T1, T2) {
    open spec fn data(&self) -> Data {
        Data::Tuple(seq![self.0.data(), self.1.data()])
    }

    fn serialize(&self, serializer: &mut S) -> (r: Result<S::Ok, S::Error>) {
        let mut tup = match serializer.serialize_tuple(2) {
            Ok(state) => state,
            Err(e) => {
                return Err(e);
            },
        };
        match tup.serialize_element(serializer, &self.0) {
            Ok(()) => {},
            Err(e) => {
                return Err(e);
            },
        }
        proof {
            assert(tup.value() == Data::Tuple(Seq::<Data>::empty()).with_element(self.0.data()));
            assert(Seq::<Data>::empty().push(self.0.data()) =~= seq![self.0.data()]);
        }
        match tup.serialize_element(serializer, &self.1) {
            Ok(()) => {},
            Err(e) => {
                return Err(e);
            },
        }
        proof {
            assert(tup.value() == Data::Tuple(seq![self.0.data()]).with_element(self.1.data()));
            assert(seq![self.0.data()].push(self.1.data()) =~= seq![self.0.data(), self.1.data()]);
        }
        tup.end(serializer)
    }
}

/// A tuple of 3 is written as a tuple of its fields.
impl<S: Serializer, T1: Ser<S>, T2: Ser<S>, T3: Ser<S>> Ser<S> for (T1, T2, T3) {
    open spec fn data(&self) -> Data {
        Data::Tuple(seq![self.0.data(), self.1.data(), self.2.data()])
    }

    fn serialize(&self, serializer: &mut S) -> (r: Result<S::Ok, S::Error>) {
        let mut tup = match serializer.serialize_tuple(3) {
            Ok(state) => state,
            Err(e) => {
                return Err(e);
            },
        };
        match tup.serialize_element(serializer, &self.0) {
            Ok(()) => {},
            Err(e) => {
                return Err(e);
            },
        }
        proof {
            assert(tup.value() == Data::Tuple(Seq::<Data>::empty()).with_element(self.0.data()));
            assert(Seq::<Data>::empty().push(self.0.data()) =~= seq![self.0.data()]);
        }
        match tup.serialize_element(serializer, &self.1) {
            Ok(()) => {},
            Err(e) => {
                return Err(e);
            },
        }
        proof {
            assert(tup.value() == Data::Tuple(seq![self.0.data()]).with_element(self.1.data()));
            assert(seq![self.0.data()].push(self.1.data()) =~= seq![self.0.data(), self.1.data()]);
        }
        match tup.serialize_element(serializer, &self.2) {
            Ok(()) => {},
            Err(e) => {
                return Err(e);
            },
        }
        proof {
            assert(tup.value() == Data::Tuple(seq![self.0.data(), self.1.data()]).with_element(self.2.data()));
            assert(seq![self.0.data(), self.1.data()].push(self.2.data()) =~= seq![self.0.data(), self.1.data(), self.2.data()]);
        }
        tup.end(serializer)
    }
}

/// A tuple of 4 is written as a tuple of its fields.
impl<S: Serializer, T1: Ser<S>, T2: Ser<S>, T3: Ser<S>, T4: Ser<S>> Ser<S> for (T1, T2, T3, T4) {
    open spec fn data(&self) -> Data {
        Data::Tuple(seq![self.0.data(), self.1.data(), self.2.data(), self.3.data()])
    }

    fn serialize(&self, serializer: &mut S) -> (r: Result<S::Ok, S::Error>) {
        let mut tup = match serializer.serialize_tuple(4) {
            Ok(state) => state,
            Err(e) => {
                return Err(e);
            },
        };
        match tup.serialize_element(serializer, &self.0) {
            Ok(()) => {},
            Err(e) => {
                return Err(e);
            },
        }
        proof {
            assert(tup.value() == Data::Tuple(Seq::<Data>::empty()).with_element(self.0.data()));
            assert(Seq::<Data>::empty().push(self.0.data()) =~= seq![self.0.data()]);
        }
        match tup.serialize_element(serializer, &self.1) {
            Ok(()) => {},
            Err(e) => {
                return Err(e);
            },
        }
        proof {
            assert(tup.value() == Data::Tuple(seq![self.0.data()]).with_element(self.1.data()));
            assert(seq![self.0.data()].push(self.1.data()) =~= seq![self.0.data(), self.1.data()]);
        }
        match tup.serialize_element(serializer, &self.2) {
            Ok(()) => {},
            Err(e) => {
                return Err(e);
            },
        }
        proof {
            assert(tup.value() == Data::Tuple(seq![self.0.data(), self.1.data()]).with_element(self.2.data()));
            assert(seq![self.0.data(), self.1.data()].push(self.2.data()) =~= seq![self.0.data(), self.1.data(), self.2.data()]);
        }
        match tup.serialize_element(serializer, &self.3) {
            Ok(()) => {},
            Err(e) => {
                return Err(e);
            },
        }
        proof {
            assert(tup.value() == Data::Tuple(seq![self.0.data(), self.1.data(), self.2.data()]).with_element(self.3.data()));
            assert(seq![self.0.data(), self.1.data(), self.2.data()].push(self.3.data()) =~= seq![self.0.data(), self.1.data(), self.2.data(), self.3.data()]);
        }
        tup.end(serializer)
    }
}

/// A tuple of 5 is written as a tuple of its fields.
impl<S: Serializer, T1: Ser<S>, T2: Ser<S>, T3: Ser<S>, T4: Ser<S>, T5: Ser<S>> Ser<S> for (T1, T2, T3, T4, T5) {
    open spec fn data(&self) -> Data {
        Data::Tuple(seq![self.0.data(), self.1.data(), self.2.data(), self.3.data(), self.4.data()])
    }

    fn serialize(&self, serializer: &mut S) -> (r: Result<S::Ok, S::Error>) {
        let mut tup = match serializer.serialize_tuple(5) {
            Ok(state) => state,
            Err(e) => {
                return Err(e);
            },
        };
        match tup.serialize_element(serializer, &self.0) {
            Ok(()) => {},
            Err(e) => {
                return Err(e);
            },
        }
        proof {
            assert(tup.value() == Data::Tuple(Seq::<Data>::empty()).with_element(self.0.data()));
            assert(Seq::<Data>::empty().push(self.0.data()) =~= seq![self.0.data()]);
        }
        match tup.serialize_element(serializer, &self.1) {
            Ok(()) => {},
            Err(e) => {
                return Err(e);
            },
        }
        proof {
            assert(tup.value() == Data::Tuple(seq![self.0.data()]).with_element(self.1.data()));
            assert(seq![self.0.data()].push(self.1.data()) =~= seq![self.0.data(), self.1.data()]);
        }
        match tup.serialize_element(serializer, &self.2) {
            Ok(()) => {},
            Err(e) => {
                return Err(e);
            },
        }
        proof {
            assert(tup.value() == Data::Tuple(seq![self.0.data(), self.1.data()]).with_element(self.2.data()));
            assert(seq![self.0.data(), self.1.data()].push(self.2.data()) =~= seq![self.0.data(), self.1.data(), self.2.data()]);
        }
        match tup.serialize_element(serializer, &self.3) {
            Ok(()) => {},
            Err(e) => {
                return Err(e);
            },
        }
        proof {
            assert(tup.value() == Data::Tuple(seq![self.0.data(), self.1.data(), self.2.data()]).with_element(self.3.data()));
            assert(seq![self.0.data(), self.1.data(), self.2.data()].push(self.3.data()) =~= seq![self.0.data(), self.1.data(), self.2.data(), self.3.data()]);
        }
        match tup.serialize_element(serializer, &self.4) {
            Ok(()) => {},
            Err(e) => {
                return Err(e);
            },
        }
        proof {
            assert(tup.value() == Data::Tuple(seq![self.0.data(), self.1.data(), self.2.data(), self.3.data()]).with_element(self.4.data()));
            assert(seq![self.0.data(), self.1.data(), self.2.data(), self.3.data()].push(self.4.data()) =~= seq![self.0.data(), self.1.data(), self.2.data(), self.3.data(), self.4.data()]);
        }
        tup.end(serializer)
    }
}

/// A tuple of 6 is written as a tuple of its fields.
impl<S: Serializer, T1: Ser<S>, T2: Ser<S>, T3: Ser<S>, T4: Ser<S>, T5: Ser<S>, T6: Ser<S>> Ser<S> for (T1, T2, T3, T4, T5, T6) {
    open spec fn data(&self) -> Data {
        Data::Tuple(seq![self.0.data(), self.1.data(), self.2.data(), self.3.data(), self.4.data(), self.5.data()])
    }

    fn serialize(&self, serializer: &mut S) -> (r: Result<S::Ok, S::Error>) {
        let mut tup = match serializer.serialize_tuple(6) {
            Ok(state) => state,
            Err(e) => {
                return Err(e);
            },
        };
        match tup.serialize_element(serializer, &self.0) {
            Ok(()) => {},
            Err(e) => {
                return Err(e);
            },
        }
        proof {
            assert(tup.value() == Data::Tuple(Seq::<Data>::empty()).with_element(self.0.data()));
            assert(Seq::<Data>::empty().push(self.0.data()) =~= seq![self.0.data()]);
        }
        match tup.serialize_element(serializer, &self.1) {
            Ok(()) => {},
            Err(e) => {
                return Err(e);
            },
        }
        proof {
            assert(tup.value() == Data::Tuple(seq![self.0.data()]).with_element(self.1.data()));
            assert(seq![self.0.data()].push(self.1.data()) =~= seq![self.0.data(), self.1.data()]);
        }
        match tup.serialize_element(serializer, &self.2) {
            Ok(()) => {},
            Err(e) => {
                return Err(e);
            },
        }
        proof {
            assert(tup.value() == Data::Tuple(seq![self.0.data(), self.1.data()]).with_element(self.2.data()));
            assert(seq![self.0.data(), self.1.data()].push(self.2.data()) =~= seq![self.0.data(), self.1.data(), self.2.data()]);
        }
        match tup.serialize_element(serializer, &self.3) {
            Ok(()) => {},
            Err(e) => {
                return Err(e);
            },
        }
        proof {
            assert(tup.value() == Data::Tuple(seq![self.0.data(), self.1.data(), self.2.data()]).with_element(self.3.data()));
            assert(seq![self.0.data(), self.1.data(), self.2.data()].push(self.3.data()) =~= seq![self.0.data(), self.1.data(), self.2.data(), self.3.data()]);
        }
        match tup.serialize_element(serializer, &self.4) {
            Ok(()) => {},
            Err(e) => {
                return Err(e);
            },
        }
        proof {
            assert(tup.value() == Data::Tuple(seq![self.0.data(), self.1.data(), self.2.data(), self.3.data()]).with_element(self.4.data()));
            assert(seq![self.0.data(), self.1.data(), self.2.data(), self.3.data()].push(self.4.data()) =~= seq![self.0.data(), self.1.data(), self.2.data(), self.3.data(), self.4.data()]);
        }
        match tup.serialize_element(serializer, &self.5) {
            Ok(()) => {},
            Err(e) => {
                return Err(e);
            },
        }
        proof {
            assert(tup.value() == Data::Tuple(seq![self.0.data(), self.1.data(), self.2.data(), self.3.data(), self.4.data()]).with_element(self.5.data()));
            assert(seq![self.0.data(), self.1.data(), self.2.data(), self.3.data(), self.4.data()].push(self.5.data()) =~= seq![self.0.data(), self.1.data(), self.2.data(), self.3.data(), self.4.data(), self.5.data()]);
        }
        tup.end(serializer)
    }
}

/// A tuple of 7 is written as a tuple of its fields.
impl<S: Serializer, T1: Ser<S>, T2: Ser<S>, T3: Ser<S>, T4: Ser<S>, T5: Ser<S>, T6: Ser<S>, T7: Ser<S>> Ser<S> for (T1, T2, T3, T4, T5, T6, T7) {
    open spec fn data(&self) -> Data {
        Data::Tuple(seq![self.0.data(), self.1.data(), self.2.data(), self.3.data(), self.4.data(), self.5.data(), self.6.data()])
    }

    fn serialize(&self, serializer: &mut S) -> (r: Result<S::Ok, S::Error>) {
        let mut tup = match serializer.serialize_tuple(7) {
            Ok(state) => state,
            Err(e) => {
                return Err(e);
            },
        };
        match tup.serialize_element(serializer, &self.0) {
            Ok(()) => {},
            Err(e) => {
                return Err(e);
            },
        }
        proof {
            assert(tup.value() == Data::Tuple(Seq::<Data>::empty()).with_element(self.0.data()));
            assert(Seq::<Data>::empty().push(self.0.data()) =~= seq![self.0.data()]);
        }
        match tup.serialize_element(serializer, &self.1) {
            Ok(()) => {},
            Err(e) => {
                return Err(e);
            },
        }
        proof {
            assert(tup.value() == Data::Tuple(seq![self.0.data()]).with_element(self.1.data()));
            assert(seq![self.0.data()].push(self.1.data()) =~= seq![self.0.data(), self.1.data()]);
        }
        match tup.serialize_element(serializer, &self.2) {
            Ok(()) => {},
            Err(e) => {
                return Err(e);
            },
        }
        proof {
            assert(tup.value() == Data::Tuple(seq![self.0.data(), self.1.data()]).with_element(self.2.data()));
            assert(seq![self.0.data(), self.1.data()].push(self.2.data()) =~= seq![self.0.data(), self.1.data(), self.2.data()]);
        }
        match tup.serialize_element(serializer, &self.3) {
            Ok(()) => {},
            Err(e) => {
                return Err(e);
            },
        }
        proof {
            assert(tup.value() == Data::Tuple(seq![self.0.data(), self.1.data(), self.2.data()]).with_element(self.3.data()));
            assert(seq![self.0.data(), self.1.data(), self.2.data()].push(self.3.data()) =~= seq![self.0.data(), self.1.data(), self.2.data(), self.3.data()]);
        }
        match tup.serialize_element(serializer, &self.4) {
            Ok(()) => {},
            Err(e) => {
                return Err(e);
            },
        }
        proof {
            assert(tup.value() == Data::Tuple(seq![self.0.data(), self.1.data(), self.2.data(), self.3.data()]).with_element(self.4.data()));
            assert(seq![self.0.data(), self.1.data(), self.2.data(), self.3.data()].push(self.4.data()) =~= seq![self.0.data(), self.1.data(), self.2.data(), self.3.data(), self.4.data()]);
        }
        match tup.serialize_element(serializer, &self.5) {
            Ok(()) => {},
            Err(e) => {
                return Err(e);
            },
        }
        proof {
            assert(tup.value() == Data::Tuple(seq![self.0.data(), self.1.data(), self.2.data(), self.3.data(), self.4.data()]).with_element(self.5.data()));
            assert(seq![self.0.data(), self.1.data(), self.2.data(), self.3.data(), self.4.data()].push(self.5.data()) =~= seq![self.0.data(), self.1.data(), self.2.data(), self.3.data(), self.4.data(), self.5.data()]);
        }
        match tup.serialize_element(serializer, &self.6) {
            Ok(()) => {},
            Err(e) => {
                return Err(e);
            },
        }
        proof {
            assert(tup.value() == Data::Tuple(seq![self.0.data(), self.1.data(), self.2.data(), self.3.data(), self.4.data(), self.5.data()]).with_element(self.6.data()));
            assert(seq![self.0.data(), self.1.data(), self.2.data(), self.3.data(), self.4.data(), self.5.data()].push(self.6.data()) =~= seq![self.0.data(), self.1.data(), self.2.data(), self.3.data(), self.4.data(), self.5.data(), self.6.data()]);
        }
        tup.end(serializer)
    }
}

/// A tuple of 8 is written as a tuple of its fields.
impl<S: Serializer, T1: Ser<S>, T2: Ser<S>, T3: Ser<S>, T4: Ser<S>, T5: Ser<S>, T6: Ser<S>, T7: Ser<S>, T8: Ser<S>> Ser<S> for (T1, T2, T3, T4, T5, T6, T7, T8) {
    open spec fn data(&self) -> Data {
        Data::Tuple(seq![self.0.data(), self.1.data(), self.2.data(), self.3.data(), self.4.data(), self.5.data(), self.6.data(), self.7.data()])
    }

    fn serialize(&self, serializer: &mut S) -> (r: Result<S::Ok, S::Error>) {
        let mut tup = match serializer.serialize_tuple(8) {
            Ok(state) => state,
            Err(e) => {
                return Err(e);
            },
        };
        match tup.serialize_element(serializer, &self.0) {
            Ok(()) => {},
            Err(e) => {
                return Err(e);
            },
        }
        proof {
            assert(tup.value() == Data::Tuple(Seq::<Data>::empty()).with_element(self.0.data()));
            assert(Seq::<Data>::empty().push(self.0.data()) =~= seq![self.0.data()]);
        }
        match tup.serialize_element(serializer, &self.1) {
            Ok(()) => {},
            Err(e) => {
                return Err(e);
            },
        }
        proof {
            assert(tup.value() == Data::Tuple(seq![self.0.data()]).with_element(self.1.data()));
            assert(seq![self.0.data()].push(self.1.data()) =~= seq![self.0.data(), self.1.data()]);
        }
        match tup.serialize_element(serializer, &self.2) {
            Ok(()) => {},
            Err(e) => {
                return Err(e);
            },
        }
        proof {
            assert(tup.value() == Data::Tuple(seq![self.0.data(), self.1.data()]).with_element(self.2.data()));
            assert(seq![self.0.data(), self.1.data()].push(self.2.data()) =~= seq![self.0.data(), self.1.data(), self.2.data()]);
        }
        match tup.serialize_element(serializer, &self.3) {
            Ok(()) => {},
            Err(e) => {
                return Err(e);
            },
        }
        proof {
            assert(tup.value() == Data::Tuple(seq![self.0.data(), self.1.data(), self.2.data()]).with_element(self.3.data()));
            assert(seq![self.0.data(), self.1.data(), self.2.data()].push(self.3.data()) =~= seq![self.0.data(), self.1.data(), self.2.data(), self.3.data()]);
        }
        match tup.serialize_element(serializer, &self.4) {
            Ok(()) => {},
            Err(e) => {
                return Err(e);
            },
        }
        proof {
            assert(tup.value() == Data::Tuple(seq![self.0.data(), self.1.data(), self.2.data(), self.3.data()]).with_element(self.4.data()));
            assert(seq![self.0.data(), self.1.data(), self.2.data(), self.3.data()].push(self.4.data()) =~= seq![self.0.data(), self.1.data(), self.2.data(), self.3.data(), self.4.data()]);
        }
        match tup.serialize_element(serializer, &self.5) {
            Ok(()) => {},
            Err(e) => {
                return Err(e);
            },
        }
        proof {
            assert(tup.value() == Data::Tuple(seq![self.0.data(), self.1.data(), self.2.data(), self.3.data(), self.4.data()]).with_element(self.5.data()));
            assert(seq![self.0.data(), self.1.data(), self.2.data(), self.3.data(), self.4.data()].push(self.5.data()) =~= seq![self.0.data(), self.1.data(), self.2.data(), self.3.data(), self.4.data(), self.5.data()]);
        }
        match tup.serialize_element(serializer, &self.6) {
            Ok(()) => {},
            Err(e) => {
                return Err(e);
            },
        }
        proof {
            assert(tup.value() == Data::Tuple(seq![self.0.data(), self.1.data(), self.2.data(), self.3.data(), self.4.data(), self.5.data()]).with_element(self.6.data()));
            assert(seq![self.0.data(), self.1.data(), self.2.data(), self.3.data(), self.4.data(), self.5.data()].push(self.6.data()) =~= seq![self.0.data(), self.1.data(), self.2.data(), self.3.data(), self.4.data(), self.5.data(), self.6.data()]);
        }
        match tup.serialize_element(serializer, &self.7) {
            Ok(()) => {},
            Err(e) => {
                return Err(e);
            },
        }
        proof {
            assert(tup.value() == Data::Tuple(seq![self.0.data(), self.1.data(), self.2.data(), self.3.data(), self.4.data(), self.5.data(), self.6.data()]).with_element(self.7.data()));
            assert(seq![self.0.data(), self.1.data(), self.2.data(), self.3.data(), self.4.data(), self.5.data(), self.6.data()].push(self.7.data()) =~= seq![self.0.data(), self.1.data(), self.2.data(), self.3.data(), self.4.data(), self.5.data(), self.6.data(), self.7.data()]);
        }
        tup.end(serializer)
    }
}

/// A tuple of 9 is written as a tuple of its fields.
impl<S: Serializer, T1: Ser<S>, T2: Ser<S>, T3: Ser<S>, T4: Ser<S>, T5: Ser<S>, T6: Ser<S>, T7: Ser<S>, T8: Ser<S>, T9: Ser<S>> Ser<S> for (T1, T2, T3, T4, T5, T6, T7, T8, T9) {
    open spec fn data(&self) -> Data {
        Data::Tuple(seq![self.0.data(), self.1.data(), self.2.data(), self.3.data(), self.4.data(), self.5.data(), self.6.data(), self.7.data(), self.8.data()])
    }

    fn serialize(&self, serializer: &mut S) -> (r: Result<S::Ok, S::Error>) {
        let mut tup = match serializer.serialize_tuple(9) {
            Ok(state) => state,
            Err(e) => {
                return Err(e);
            },
        };
        match tup.serialize_element(serializer, &self.0) {
            Ok(()) => {},
            Err(e) => {
                return Err(e);
            },
        }
        proof {
            assert(tup.value() == Data::Tuple(Seq::<Data>::empty()).with_element(self.0.data()));
            assert(Seq::<Data>::empty().push(self.0.data()) =~= seq![self.0.data()]);
        }
        match tup.serialize_element(serializer, &self.1) {
            Ok(()) => {},
            Err(e) => {
                return Err(e);
            },
        }
        proof {
            assert(tup.value() == Data::Tuple(seq![self.0.data()]).with_element(self.1.data()));
            assert(seq![self.0.data()].push(self.1.data()) =~= seq![self.0.data(), self.1.data()]);
        }
        match tup.serialize_element(serializer, &self.2) {
            Ok(()) => {},
            Err(e) => {
                return Err(e);
            },
        }
        proof {
            assert(tup.value() == Data::Tuple(seq![self.0.data(), self.1.data()]).with_element(self.2.data()));
            assert(seq![self.0.data(), self.1.data()].push(self.2.data()) =~= seq![self.0.data(), self.1.data(), self.2.data()]);
        }
        match tup.serialize_element(serializer, &self.3) {
            Ok(()) => {},
            Err(e) => {
                return Err(e);
            },
        }
        proof {
            assert(tup.value() == Data::Tuple(seq![self.0.data(), self.1.data(), self.2.data()]).with_element(self.3.data()));
            assert(seq![self.0.data(), self.1.data(), self.2.data()].push(self.3.data()) =~= seq![self.0.data(), self.1.data(), self.2.data(), self.3.data()]);
        }
        match tup.serialize_element(serializer, &self.4) {
            Ok(()) => {},
            Err(e) => {
                return Err(e);
            },
        }
        proof {
            assert(tup.value() == Data::Tuple(seq![self.0.data(), self.1.data(), self.2.data(), self.3.data()]).with_element(self.4.data()));
            assert(seq![self.0.data(), self.1.data(), self.2.data(), self.3.data()].push(self.4.data()) =~= seq![self.0.data(), self.1.data(), self.2.data(), self.3.data(), self.4.data()]);
        }
        match tup.serialize_element(serializer, &self.5) {
            Ok(()) => {},
            Err(e) => {
                return Err(e);
            },
        }
        proof {
            assert(tup.value() == Data::Tuple(seq![self.0.data(), self.1.data(), self.2.data(), self.3.data(), self.4.data()]).with_element(self.5.data()));
            assert(seq![self.0.data(), self.1.data(), self.2.data(), self.3.data(), self.4.data()].push(self.5.data()) =~= seq![self.0.data(), self.1.data(), self.2.data(), self.3.data(), self.4.data(), self.5.data()]);
        }
        match tup.serialize_element(serializer, &self.6) {
            Ok(()) => {},
            Err(e) => {
                return Err(e);
            },
        }
        proof {
            assert(tup.value() == Data::Tuple(seq![self.0.data(), self.1.data(), self.2.data(), self.3.data(), self.4.data(), self.5.data()]).with_element(self.6.data()));
            assert(seq![self.0.data(), self.1.data(), self.2.data(), self.3.data(), self.4.data(), self.5.data()].push(self.6.data()) =~= seq![self.0.data(), self.1.data(), self.2.data(), self.3.data(), self.4.data(), self.5.data(), self.6.data()]);
        }
        match tup.serialize_element(serializer, &self.7) {
            Ok(()) => {},
            Err(e) => {
                return Err(e);
            },
        }
        proof {
            assert(tup.value() == Data::Tuple(seq![self.0.data(), self.1.data(), self.2.data(), self.3.data(), self.4.data(), self.5.data(), self.6.data()]).with_element(self.7.data()));
            assert(seq![self.0.data(), self.1.data(), self.2.data(), self.3.data(), self.4.data(), self.5.data(), self.6.data()].push(self.7.data()) =~= seq![self.0.data(), self.1.data(), self.2.data(), self.3.data(), self.4.data(), self.5.data(), self.6.data(), self.7.data()]);
        }
        match tup.serialize_element(serializer, &self.8) {
            Ok(()) => {},
            Err(e) => {
                return Err(e);
            },
        }
        proof {
            assert(tup.value() == Data::Tuple(seq![self.0.data(), self.1.data(), self.2.data(), self.3.data(), self.4.data(), self.5.data(), self.6.data(), self.7.data()]).with_element(self.8.data()));
            assert(seq![self.0.data(), self.1.data(), self.2.data(), self.3.data(), self.4.data(), self.5.data(), self.6.data(), self.7.data()].push(self.8.data()) =~= seq![self.0.data(), self.1.data(), self.2.data(), self.3.data(), self.4.data(), self.5.data(), self.6.data(), self.7.data(), self.8.data()]);
        }
        tup.end(serializer)
    }
}

/// A tuple of 10 is written as a tuple of its fields.
impl<S: Serializer, T1: Ser<S>, T2: Ser<S>, T3: Ser<S>, T4: Ser<S>, T5: Ser<S>, T6: Ser<S>, T7: Ser<S>, T8: Ser<S>, T9: Ser<S>, T10: Ser<S>> Ser<S> for (T1, T2, T3, T4, T5, T6, T7, T8, T9, T10) {
    open spec fn data(&self) -> Data {
        Data::Tuple(seq![self.0.data(), self.1.data(), self.2.data(), self.3.data(), self.4.data(), self.5.data(), self.6.data(), self.7.data(), self.8.data(), self.9.data()])
    }

    fn serialize(&self, serializer: &mut S) -> (r: Result<S::Ok, S::Error>) {
        let mut tup = match serializer.serialize_tuple(10) {
            Ok(state) => state,
            Err(e) => {
                return Err(e);
            },
        };
        match tup.serialize_element(serializer, &self.0) {
            Ok(()) => {},
            Err(e) => {
                return Err(e);
            },
        }
        proof {
            assert(tup.value() == Data::Tuple(Seq::<Data>::empty()).with_element(self.0.data()));
            assert(Seq::<Data>::empty().push(self.0.data()) =~= seq![self.0.data()]);
        }
        match tup.serialize_element(serializer, &self.1) {
            Ok(()) => {},
            Err(e) => {
                return Err(e);
            },
        }
        proof {
            assert(tup.value() == Data::Tuple(seq![self.0.data()]).with_element(self.1.data()));
            assert(seq![self.0.data()].push(self.1.data()) =~= seq![self.0.data(), self.1.data()]);
        }
        match tup.serialize_element(serializer, &self.2) {
            Ok(()) => {},
            Err(e) => {
                return Err(e);
            },
        }
        proof {
            assert(tup.value() == Data::Tuple(seq![self.0.data(), self.1.data()]).with_element(self.2.data()));
            assert(seq![self.0.data(), self.1.data()].push(self.2.data()) =~= seq![self.0.data(), self.1.data(), self.2.data()]);
        }
        match tup.serialize_element(serializer, &self.3) {
            Ok(()) => {},
            Err(e) => {
                return Err(e);
            },
        }
        proof {
            assert(tup.value() == Data::Tuple(seq![self.0.data(), self.1.data(), self.2.data()]).with_element(self.3.data()));
            assert(seq![self.0.data(), self.1.data(), self.2.data()].push(self.3.data()) =~= seq![self.0.data(), self.1.data(), self.2.data(), self.3.data()]);
        }
        match tup.serialize_element(serializer, &self.4) {
            Ok(()) => {},
            Err(e) => {
                return Err(e);
            },
        }
        proof {
            assert(tup.value() == Data::Tuple(seq![self.0.data(), self.1.data(), self.2.data(), self.3.data()]).with_element(self.4.data()));
            assert(seq![self.0.data(), self.1.data(), self.2.data(), self.3.data()].push(self.4.data()) =~= seq![self.0.data(), self.1.data(), self.2.data(), self.3.data(), self.4.data()]);
        }
        match tup.serialize_element(serializer, &self.5) {
            Ok(()) => {},
            Err(e) => {
                return Err(e);
            },
        }
        proof {
            assert(tup.value() == Data::Tuple(seq![self.0.data(), self.1.data(), self.2.data(), self.3.data(), self.4.data()]).with_element(self.5.data()));
            assert(seq![self.0.data(), self.1.data(), self.2.data(), self.3.data(), self.4.data()].push(self.5.data()) =~= seq![self.0.data(), self.1.data(), self.2.data(), self.3.data(), self.4.data(), self.5.data()]);
        }
        match tup.serialize_element(serializer, &self.6) {
            Ok(()) => {},
            Err(e) => {
                return Err(e);
            },
        }
        proof {
            assert(tup.value() == Data::Tuple(seq![self.0.data(), self.1.data(), self.2.data(), self.3.data(), self.4.data(), self.5.data()]).with_element(self.6.data()));
            assert(seq![self.0.data(), self.1.data(), self.2.data(), self.3.data(), self.4.data(), self.5.data()].push(self.6.data()) =~= seq![self.0.data(), self.1.data(), self.2.data(), self.3.data(), self.4.data(), self.5.data(), self.6.data()]);
        }
        match tup.serialize_element(serializer, &self.7) {
            Ok(()) => {},
            Err(e) => {
                return Err(e);
            },
        }
        proof {
            assert(tup.value() == Data::Tuple(seq![self.0.data(), self.1.data(), self.2.data(), self.3.data(), self.4.data(), self.5.data(), self.6.data()]).with_element(self.7.data()));
            assert(seq![self.0.data(), self.1.data(), self.2.data(), self.3.data(), self.4.data(), self.5.data(), self.6.data()].push(self.7.data()) =~= seq![self.0.data(), self.1.data(), self.2.data(), self.3.data(), self.4.data(), self.5.data(), self.6.data(), self.7.data()]);
        }
        match tup.serialize_element(serializer, &self.8) {
            Ok(()) => {},
            Err(e) => {
                return Err(e);
            },
        }
        proof {
            assert(tup.value() == Data::Tuple(seq![self.0.data(), self.1.data(), self.2.data(), self.3.data(), self.4.data(), self.5.data(), self.6.data(), self.7.data()]).with_element(self.8.data()));
            assert(seq![self.0.data(), self.1.data(), self.2.data(), self.3.data(), self.4.data(), self.5.data(), self.6.data(), self.7.data()].push(self.8.data()) =~= seq![self.0.data(), self.1.data(), self.2.data(), self.3.data(), self.4.data(), self.5.data(), self.6.data(), self.7.data(), self.8.data()]);
        }
        match tup.serialize_element(serializer, &self.9) {
            Ok(()) => {},
            Err(e) => {
                return Err(e);
            },
        }
        proof {
            assert(tup.value() == Data::Tuple(seq![self.0.data(), self.1.data(), self.2.data(), self.3.data(), self.4.data(), self.5.data(), self.6.data(), self.7.data(), self.8.data()]).with_element(self.9.data()));
            assert(seq![self.0.data(), self.1.data(), self.2.data(), self.3.data(), self.4.data(), self.5.data(), self.6.data(), self.7.data(), self.8.data()].push(self.9.data()) =~= seq![self.0.data(), self.1.data(), self.2.data(), self.3.data(), self.4.data(), self.5.data(), self.6.data(), self.7.data(), self.8.data(), self.9.data()]);
        }
        tup.end(serializer)
    }
}

/// A tuple of 11 is written as a tuple of its fields.
impl<S: Serializer, T1: Ser<S>, T2: Ser<S>, T3: Ser<S>, T4: Ser<S>, T5: Ser<S>, T6: Ser<S>, T7: Ser<S>, T8: Ser<S>, T9: Ser<S>, T10: Ser<S>, T11: Ser<S>> Ser<S> for (T1, T2, T3, T4, T5, T6, T7, T8, T9, T10, T11) {
    open spec fn data(&self) -> Data {
        Data::Tuple(seq![self.0.data(), self.1.data(), self.2.data(), self.3.data(), self.4.data(), self.5.data(), self.6.data(), self.7.data(), self.8.data(), self.9.data(), self.10.data()])
    }

    fn serialize(&self, serializer: &mut S) -> (r: Result<S::Ok, S::Error>) {
        let mut tup = match serializer.serialize_tuple(11) {
            Ok(state) => state,
            Err(e) => {
                return Err(e);
            },
        };
        match tup.serialize_element(serializer, &self.0) {
            Ok(()) => {},
            Err(e) => {
                return Err(e);
            },
        }
        proof {
            assert(tup.value() == Data::Tuple(Seq::<Data>::empty()).with_element(self.0.data()));
            assert(Seq::<Data>::empty().push(self.0.data()) =~= seq![self.0.data()]);
        }
        match tup.serialize_element(serializer, &self.1) {
            Ok(()) => {},
            Err(e) => {
                return Err(e);
            },
        }
        proof {
            assert(tup.value() == Data::Tuple(seq![self.0.data()]).with_element(self.1.data()));
            assert(seq![self.0.data()].push(self.1.data()) =~= seq![self.0.data(), self.1.data()]);
        }
        match tup.serialize_element(serializer, &self.2) {
            Ok(()) => {},
            Err(e) => {
                return Err(e);
            },
        }
        proof {
            assert(tup.value() == Data::Tuple(seq![self.0.data(), self.1.data()]).with_element(self.2.data()));
            assert(seq![self.0.data(), self.1.data()].push(self.2.data()) =~= seq![self.0.data(), self.1.data(), self.2.data()]);
        }
        match tup.serialize_element(serializer, &self.3) {
            Ok(()) => {},
            Err(e) => {
                return Err(e);
            },
        }
        proof {
            assert(tup.value() == Data::Tuple(seq![self.0.data(), self.1.data(), self.2.data()]).with_element(self.3.data()));
            assert(seq![self.0.data(), self.1.data(), self.2.data()].push(self.3.data()) =~= seq![self.0.data(), self.1.data(), self.2.data(), self.3.data()]);
        }
        match tup.serialize_element(serializer, &self.4) {
            Ok(()) => {},
            Err(e) => {
                return Err(e);
            },
        }
        proof {
            assert(tup.value() == Data::Tuple(seq![self.0.data(), self.1.data(), self.2.data(), self.3.data()]).with_element(self.4.data()));
            assert(seq![self.0.data(), self.1.data(), self.2.data(), self.3.data()].push(self.4.data()) =~= seq![self.0.data(), self.1.data(), self.2.data(), self.3.data(), self.4.data()]);
        }
        match tup.serialize_element(serializer, &self.5) {
            Ok(()) => {},
            Err(e) => {
                return Err(e);
            },
        }
        proof {
            assert(tup.value() == Data::Tuple(seq![self.0.data(), self.1.data(), self.2.data(), self.3.data(), self.4.data()]).with_element(self.5.data()));
            assert(seq![self.0.data(), self.1.data(), self.2.data(), self.3.data(), self.4.data()].push(self.5.data()) =~= seq![self.0.data(), self.1.data(), self.2.data(), self.3.data(), self.4.data(), self.5.data()]);
        }
        match tup.serialize_element(serializer, &self.6) {
            Ok(()) => {},
            Err(e) => {
                return Err(e);
            },
        }
        proof {
            assert(tup.value() == Data::Tuple(seq![self.0.data(), self.1.data(), self.2.data(), self.3.data(), self.4.data(), self.5.data()]).with_element(self.6.data()));
            assert(seq![self.0.data(), self.1.data(), self.2.data(), self.3.data(), self.4.data(), self.5.data()].push(self.6.data()) =~= seq![self.0.data(), self.1.data(), self.2.data(), self.3.data(), self.4.data(), self.5.data(), self.6.data()]);
        }
        match tup.serialize_element(serializer, &self.7) {
            Ok(()) => {},
            Err(e) => {
                return Err(e);
            },
        }
        proof {
            assert(tup.value() == Data::Tuple(seq![self.0.data(), self.1.data(), self.2.data(), self.3.data(), self.4.data(), self.5.data(), self.6.data()]).with_element(self.7.data()));
            assert(seq![self.0.data(), self.1.data(), self.2.data(), self.3.data(), self.4.data(), self.5.data(), self.6.data()].push(self.7.data()) =~= seq![self.0.data(), self.1.data(), self.2.data(), self.3.data(), self.4.data(), self.5.data(), self.6.data(), self.7.data()]);
        }
        match tup.serialize_element(serializer, &self.8) {
            Ok(()) => {},
            Err(e) => {
                return Err(e);
            },
        }
        proof {
            assert(tup.value() == Data::Tuple(seq![self.0.data(), self.1.data(), self.2.data(), self.3.data(), self.4.data(), self.5.data(), self.6.data(), self.7.data()]).with_element(self.8.data()));
            assert(seq![self.0.data(), self.1.data(), self.2.data(), self.3.data(), self.4.data(), self.5.data(), self.6.data(), self.7.data()].push(self.8.data()) =~= seq![self.0.data(), self.1.data(), self.2.data(), self.3.data(), self.4.data(), self.5.data(), self.6.data(), self.7.data(), self.8.data()]);
        }
        match tup.serialize_element(serializer, &self.9) {
            Ok(()) => {},
            Err(e) => {
                return Err(e);
            },
        }
        proof {
            assert(tup.value() == Data::Tuple(seq![self.0.data(), self.1.data(), self.2.data(), self.3.data(), self.4.data(), self.5.data(), self.6.data(), self.7.data(), self.8.data()]).with_element(self.9.data()));
            assert(seq![self.0.data(), self.1.data(), self.2.data(), self.3.data(), self.4.data(), self.5.data(), self.6.data(), self.7.data(), self.8.data()].push(self.9.data()) =~= seq![self.0.data(), self.1.data(), self.2.data(), self.3.data(), self.4.data(), self.5.data(), self.6.data(), self.7.data(), self.8.data(), self.9.data()]);
        }
        match tup.serialize_element(serializer, &self.10) {
            Ok(()) => {},
            Err(e) => {
                return Err(e);
            },
        }
        proof {
            assert(tup.value() == Data::Tuple(seq![self.0.data(), self.1.data(), self.2.data(), self.3.data(), self.4.data(), self.5.data(), self.6.data(), self.7.data(), self.8.data(), self.9.data()]).with_element(self.10.data()));
            assert(seq![self.0.data(), self.1.data(), self.2.data(), self.3.data(), self.4.data(), self.5.data(), self.6.data(), self.7.data(), self.8.data(), self.9.data()].push(self.10.data()) =~= seq![self.0.data(), self.1.data(), self.2.data(), self.3.data(), self.4.data(), self.5.data(), self.6.data(), self.7.data(), self.8.data(), self.9.data(), self.10.data()]);
        }
        tup.end(serializer)
    }
}

/// A tuple of 12 is written as a tuple of its fields.
impl<S: Serializer, T1: Ser<S>, T2: Ser<S>, T3: Ser<S>, T4: Ser<S>, T5: Ser<S>, T6: Ser<S>, T7: Ser<S>, T8: Ser<S>, T9: Ser<S>, T10: Ser<S>, T11: Ser<S>, T12: Ser<S>> Ser<S> for (T1, T2, T3, T4, T5, T6, T7, T8, T9, T10, T11, T12) {
    open spec fn data(&self) -> Data {
        Data::Tuple(seq![self.0.data(), self.1.data(), self.2.data(), self.3.data(), self.4.data(), self.5.data(), self.6.data(), self.7.data(), self.8.data(), self.9.data(), self.10.data(), self.11.data()])
    }

    fn serialize(&self, serializer: &mut S) -> (r: Result<S::Ok, S::Error>) {
        let mut tup = match serializer.serialize_tuple(12) {
            Ok(state) => state,
            Err(e) => {
                return Err(e);
            },
        };
        match tup.serialize_element(serializer, &self.0) {
            Ok(()) => {},
            Err(e) => {
                return Err(e);
            },
        }
        proof {
            assert(tup.value() == Data::Tuple(Seq::<Data>::empty()).with_element(self.0.data()));
            assert(Seq::<Data>::empty().push(self.0.data()) =~= seq![self.0.data()]);
        }
        match tup.serialize_element(serializer, &self.1) {
            Ok(()) => {},
            Err(e) => {
                return Err(e);
            },
        }
        proof {
            assert(tup.value() == Data::Tuple(seq![self.0.data()]).with_element(self.1.data()));
            assert(seq![self.0.data()].push(self.1.data()) =~= seq![self.0.data(), self.1.data()]);
        }
        match tup.serialize_element(serializer, &self.2) {
            Ok(()) => {},
            Err(e) => {
                return Err(e);
            },
        }
        proof {
            assert(tup.value() == Data::Tuple(seq![self.0.data(), self.1.data()]).with_element(self.2.data()));
            assert(seq![self.0.data(), self.1.data()].push(self.2.data()) =~= seq![self.0.data(), self.1.data(), self.2.data()]);
        }
        match tup.serialize_element(serializer, &self.3) {
            Ok(()) => {},
            Err(e) => {
                return Err(e);
            },
        }
        proof {
            assert(tup.value() == Data::Tuple(seq![self.0.data(), self.1.data(), self.2.data()]).with_element(self.3.data()));
            assert(seq![self.0.data(), self.1.data(), self.2.data()].push(self.3.data()) =~= seq![self.0.data(), self.1.data(), self.2.data(), self.3.data()]);
        }
        match tup.serialize_element(serializer, &self.4) {
            Ok(()) => {},
            Err(e) => {
                return Err(e);
            },
        }
        proof {
            assert(tup.value() == Data::Tuple(seq![self.0.data(), self.1.data(), self.2.data(), self.3.data()]).with_element(self.4.data()));
            assert(seq![self.0.data(), self.1.data(), self.2.data(), self.3.data()].push(self.4.data()) =~= seq![self.0.data(), self.1.data(), self.2.data(), self.3.data(), self.4.data()]);
        }
        match tup.serialize_element(serializer, &self.5) {
            Ok(()) => {},
            Err(e) => {
                return Err(e);
            },
        }
        proof {
            assert(tup.value() == Data::Tuple(seq![self.0.data(), self.1.data(), self.2.data(), self.3.data(), self.4.data()]).with_element(self.5.data()));
            assert(seq![self.0.data(), self.1.data(), self.2.data(), self.3.data(), self.4.data()].push(self.5.data()) =~= seq![self.0.data(), self.1.data(), self.2.data(), self.3.data(), self.4.data(), self.5.data()]);
        }
        match tup.serialize_element(serializer, &self.6) {
            Ok(()) => {},
            Err(e) => {
                return Err(e);
            },
        }
        proof {
            assert(tup.value() == Data::Tuple(seq![self.0.data(), self.1.data(), self.2.data(), self.3.data(), self.4.data(), self.5.data()]).with_element(self.6.data()));
            assert(seq![self.0.data(), self.1.data(), self.2.data(), self.3.data(), self.4.data(), self.5.data()].push(self.6.data()) =~= seq![self.0.data(), self.1.data(), self.2.data(), self.3.data(), self.4.data(), self.5.data(), self.6.data()]);
        }
        match tup.serialize_element(serializer, &self.7) {
            Ok(()) => {},
            Err(e) => {
                return Err(e);
            },
        }
        proof {
            assert(tup.value() == Data::Tuple(seq![self.0.data(), self.1.data(), self.2.data(), self.3.data(), self.4.data(), self.5.data(), self.6.data()]).with_element(self.7.data()));
            assert(seq![self.0.data(), self.1.data(), self.2.data(), self.3.data(), self.4.data(), self.5.data(), self.6.data()].push(self.7.data()) =~= seq![self.0.data(), self.1.data(), self.2.data(), self.3.data(), self.4.data(), self.5.data(), self.6.data(), self.7.data()]);
        }
        match tup.serialize_element(serializer, &self.8) {
            Ok(()) => {},
            Err(e) => {
                return Err(e);
            },
        }
        proof {
            assert(tup.value() == Data::Tuple(seq![self.0.data(), self.1.data(), self.2.data(), self.3.data(), self.4.data(), self.5.data(), self.6.data(), self.7.data()]).with_element(self.8.data()));
            assert(seq![self.0.data(), self.1.data(), self.2.data(), self.3.data(), self.4.data(), self.5.data(), self.6.data(), self.7.data()].push(self.8.data()) =~= seq![self.0.data(), self.1.data(), self.2.data(), self.3.data(), self.4.data(), self.5.data(), self.6.data(), self.7.data(), self.8.data()]);
        }
        match tup.serialize_element(serializer, &self.9) {
            Ok(()) => {},
            Err(e) => {
                return Err(e);
            },
        }
        proof {
            assert(tup.value() == Data::Tuple(seq![self.0.data(), self.1.data(), self.2.data(), self.3.data(), self.4.data(), self.5.data(), self.6.data(), self.7.data(), self.8.data()]).with_element(self.9.data()));
            assert(seq![self.0.data(), self.1.data(), self.2.data(), self.3.data(), self.4.data(), self.5.data(), self.6.data(), self.7.data(), self.8.data()].push(self.9.data()) =~= seq![self.0.data(), self.1.data(), self.2.data(), self.3.data(), self.4.data(), self.5.data(), self.6.data(), self.7.data(), self.8.data(), self.9.data()]);
        }
        match tup.serialize_element(serializer, &self.10) {
            Ok(()) => {},
            Err(e) => {
                return Err(e);
            },
        }
        proof {
            assert(tup.value() == Data::Tuple(seq![self.0.data(), self.1.data(), self.2.data(), self.3.data(), self.4.data(), self.5.data(), self.6.data(), self.7.data(), self.8.data(), self.9.data()]).with_element(self.10.data()));
            assert(seq![self.0.data(), self.1.data(), self.2.data(), self.3.data(), self.4.data(), self.5.data(), self.6.data(), self.7.data(), self.8.data(), self.9.data()].push(self.10.data()) =~= seq![self.0.data(), self.1.data(), self.2.data(), self.3.data(), self.4.data(), self.5.data(), self.6.data(), self.7.data(), self.8.data(), self.9.data(), self.10.data()]);
        }
        match tup.serialize_element(serializer, &self.11) {
            Ok(()) => {},
            Err(e) => {
                return Err(e);
            },
        }
        proof {
            assert(tup.value() == Data::Tuple(seq![self.0.data(), self.1.data(), self.2.data(), self.3.data(), self.4.data(), self.5.data(), self.6.data(), self.7.data(), self.8.data(), self.9.data(), self.10.data()]).with_element(self.11.data()));
            assert(seq![self.0.data(), self.1.data(), self.2.data(), self.3.data(), self.4.data(), self.5.data(), self.6.data(), self.7.data(), self.8.data(), self.9.data(), self.10.data()].push(self.11.data()) =~= seq![self.0.data(), self.1.data(), self.2.data(), self.3.data(), self.4.data(), self.5.data(), self.6.data(), self.7.data(), self.8.data(), self.9.data(), self.10.data(), self.11.data()]);
        }
        tup.end(serializer)
    }
}

/// A tuple of 13 is written as a tuple of its fields.
impl<S: Serializer, T1: Ser<S>, T2: Ser<S>, T3: Ser<S>, T4: Ser<S>, T5: Ser<S>, T6: Ser<S>, T7: Ser<S>, T8: Ser<S>, T9: Ser<S>, T10: Ser<S>, T11: Ser<S>, T12: Ser<S>, T13: Ser<S>> Ser<S> for (T1, T2, T3, T4, T5, T6, T7, T8, T9, T10, T11, T12, T13) {
    open spec fn data(&self) -> Data {
        Data::Tuple(seq![self.0.data(), self.1.data(), self.2.data(), self.3.data(), self.4.data(), self.5.data(), self.6.data(), self.7.data(), self.8.data(), self.9.data(), self.10.data(), self.11.data(), self.12.data()])
    }

    fn serialize(&self, serializer: &mut S) -> (r: Result<S::Ok, S::Error>) {
        let mut tup = match serializer.serialize_tuple(13) {
            Ok(state) => state,
            Err(e) => {
                return Err(e);
            },
        };
        match tup.serialize_element(serializer, &self.0) {
            Ok(()) => {},
            Err(e) => {
                return Err(e);
            },
        }
        proof {
            assert(tup.value() == Data::Tuple(Seq::<Data>::empty()).with_element(self.0.data()));
            assert(Seq::<Data>::empty().push(self.0.data()) =~= seq![self.0.data()]);
        }
        match tup.serialize_element(serializer, &self.1) {
            Ok(()) => {},
            Err(e) => {
                return Err(e);
            },
        }
        proof {
            assert(tup.value() == Data::Tuple(seq![self.0.data()]).with_element(self.1.data()));
            assert(seq![self.0.data()].push(self.1.data()) =~= seq![self.0.data(), self.1.data()]);
        }
        match tup.serialize_element(serializer, &self.2) {
            Ok(()) => {},
            Err(e) => {
                return Err(e);
            },
        }
        proof {
            assert(tup.value() == Data::Tuple(seq![self.0.data(), self.1.data()]).with_element(self.2.data()));
            assert(seq![self.0.data(), self.1.data()].push(self.2.data()) =~= seq![self.0.data(), self.1.data(), self.2.data()]);
        }
        match tup.serialize_element(serializer, &self.3) {
            Ok(()) => {},
            Err(e) => {
                return Err(e);
            },
        }
        proof {
            assert(tup.value() == Data::Tuple(seq![self.0.data(), self.1.data(), self.2.data()]).with_element(self.3.data()));
            assert(seq![self.0.data(), self.1.data(), self.2.data()].push(self.3.data()) =~= seq![self.0.data(), self.1.data(), self.2.data(), self.3.data()]);
        }
        match tup.serialize_element(serializer, &self.4) {
            Ok(()) => {},
            Err(e) => {
                return Err(e);
            },
        }
        proof {
            assert(tup.value() == Data::Tuple(seq![self.0.data(), self.1.data(), self.2.data(), self.3.data()]).with_element(self.4.data()));
            assert(seq![self.0.data(), self.1.data(), self.2.data(), self.3.data()].push(self.4.data()) =~= seq![self.0.data(), self.1.data(), self.2.data(), self.3.data(), self.4.data()]);
        }
        match tup.serialize_element(serializer, &self.5) {
            Ok(()) => {},
            Err(e) => {
                return Err(e);
            },
        }
        proof {
            assert(tup.value() == Data::Tuple(seq![self.0.data(), self.1.data(), self.2.data(), self.3.data(), self.4.data()]).with_element(self.5.data()));
            assert(seq![self.0.data(), self.1.data(), self.2.data(), self.3.data(), self.4.data()].push(self.5.data()) =~= seq![self.0.data(), self.1.data(), self.2.data(), self.3.data(), self.4.data(), self.5.data()]);
        }
        match tup.serialize_element(serializer, &self.6) {
            Ok(()) => {},
            Err(e) => {
                return Err(e);
            },
        }
        proof {
            assert(tup.value() == Data::Tuple(seq![self.0.data(), self.1.data(), self.2.data(), self.3.data(), self.4.data(), self.5.data()]).with_element(self.6.data()));
            assert(seq![self.0.data(), self.1.data(), self.2.data(), self.3.data(), self.4.data(), self.5.data()].push(self.6.data()) =~= seq![self.0.data(), self.1.data(), self.2.data(), self.3.data(), self.4.data(), self.5.data(), self.6.data()]);
        }
        match tup.serialize_element(serializer, &self.7) {
            Ok(()) => {},
            Err(e) => {
                return Err(e);
            },
        }
        proof {
            assert(tup.value() == Data::Tuple(seq![self.0.data(), self.1.data(), self.2.data(), self.3.data(), self.4.data(), self.5.data(), self.6.data()]).with_element(self.7.data()));
            assert(seq![self.0.data(), self.1.data(), self.2.data(), self.3.data(), self.4.data(), self.5.data(), self.6.data()].push(self.7.data()) =~= seq![self.0.data(), self.1.data(), self.2.data(), self.3.data(), self.4.data(), self.5.data(), self.6.data(), self.7.data()]);
        }
        match tup.serialize_element(serializer, &self.8) {
            Ok(()) => {},
            Err(e) => {
                return Err(e);
            },
        }
        proof {
            assert(tup.value() == Data::Tuple(seq![self.0.data(), self.1.data(), self.2.data(), self.3.data(), self.4.data(), self.5.data(), self.6.data(), self.7.data()]).with_element(self.8.data()));
            assert(seq![self.0.data(), self.1.data(), self.2.data(), self.3.data(), self.4.data(), self.5.data(), self.6.data(), self.7.data()].push(self.8.data()) =~= seq![self.0.data(), self.1.data(), self.2.data(), self.3.data(), self.4.data(), self.5.data(), self.6.data(), self.7.data(), self.8.data()]);
        }
        match tup.serialize_element(serializer, &self.9) {
            Ok(()) => {},
            Err(e) => {
                return Err(e);
            },
        }
        proof {
            assert(tup.value() == Data::Tuple(seq![self.0.data(), self.1.data(), self.2.data(), self.3.data(), self.4.data(), self.5.data(), self.6.data(), self.7.data(), self.8.data()]).with_element(self.9.data()));
            assert(seq![self.0.data(), self.1.data(), self.2.data(), self.3.data(), self.4.data(), self.5.data(), self.6.data(), self.7.data(), self.8.data()].push(self.9.data()) =~= seq![self.0.data(), self.1.data(), self.2.data(), self.3.data(), self.4.data(), self.5.data(), self.6.data(), self.7.data(), self.8.data(), self.9.data()]);
        }
        match tup.serialize_element(serializer, &self.10) {
            Ok(()) => {},
            Err(e) => {
                return Err(e);
            },
        }
        proof {
            assert(tup.value() == Data::Tuple(seq![self.0.data(), self.1.data(), self.2.data(), self.3.data(), self.4.data(), self.5.data(), self.6.data(), self.7.data(), self.8.data(), self.9.data()]).with_element(self.10.data()));
            assert(seq![self.0.data(), self.1.data(), self.2.data(), self.3.data(), self.4.data(), self.5.data(), self.6.data(), self.7.data(), self.8.data(), self.9.data()].push(self.10.data()) =~= seq![self.0.data(), self.1.data(), self.2.data(), self.3.data(), self.4.data(), self.5.data(), self.6.data(), self.7.data(), self.8.data(), self.9.data(), self.10.data()]);
        }
        match tup.serialize_element(serializer, &self.11) {
            Ok(()) => {},
            Err(e) => {
                return Err(e);
            },
        }
        proof {
            assert(tup.value() == Data::Tuple(seq![self.0.data(), self.1.data(), self.2.data(), self.3.data(), self.4.data(), self.5.data(), self.6.data(), self.7.data(), self.8.data(), self.9.data(), self.10.data()]).with_element(self.11.data()));
            assert(seq![self.0.data(), self.1.data(), self.2.data(), self.3.data(), self.4.data(), self.5.data(), self.6.data(), self.7.data(), self.8.data(), self.9.data(), self.10.data()].push(self.11.data()) =~= seq![self.0.data(), self.1.data(), self.2.data(), self.3.data(), self.4.data(), self.5.data(), self.6.data(), self.7.data(), self.8.data(), self.9.data(), self.10.data(), self.11.data()]);
        }
        match tup.serialize_element(serializer, &self.12) {
            Ok(()) => {},
            Err(e) => {
                return Err(e);
            },
        }
        proof {
            assert(tup.value() == Data::Tuple(seq![self.0.data(), self.1.data(), self.2.data(), self.3.data(), self.4.data(), self.5.data(), self.6.data(), self.7.data(), self.8.data(), self.9.data(), self.10.data(), self.11.data()]).with_element(self.12.data()));
            assert(seq![self.0.data(), self.1.data(), self.2.data(), self.3.data(), self.4.data(), self.5.data(), self.6.data(), self.7.data(), self.8.data(), self.9.data(), self.10.data(), self.11.data()].push(self.12.data()) =~= seq![self.0.data(), self.1.data(), self.2.data(), self.3.data(), self.4.data(), self.5.data(), self.6.data(), self.7.data(), self.8.data(), self.9.data(), self.10.data(), self.11.data(), self.12.data()]);
        }
        tup.end(serializer)
    }
}

/// A tuple of 14 is written as a tuple of its fields.
impl<S: Serializer, T1: Ser<S>, T2: Ser<S>, T3: Ser<S>, T4: Ser<S>, T5: Ser<S>, T6: Ser<S>, T7: Ser<S>, T8: Ser<S>, T9: Ser<S>, T10: Ser<S>, T11: Ser<S>, T12: Ser<S>, T13: Ser<S>, T14: Ser<S>> Ser<S> for (T1, T2, T3, T4, T5, T6, T7, T8, T9, T10, T11, T12, T13, T14) {
    open spec fn data(&self) -> Data {
        Data::Tuple(seq![self.0.data(), self.1.data(), self.2.data(), self.3.data(), self.4.data(), self.5.data(), self.6.data(), self.7.data(), self.8.data(), self.9.data(), self.10.data(), self.11.data(), self.12.data(), self.13.data()])
    }

    fn serialize(&self, serializer: &mut S) -> (r: Result<S::Ok, S::Error>) {
        let mut tup = match serializer.serialize_tuple(14) {
            Ok(state) => state,
            Err(e) => {
                return Err(e);
            },
        };
        match tup.serialize_element(serializer, &self.0) {
            Ok(()) => {},
            Err(e) => {
                return Err(e);
            },
        }
        proof {
            assert(tup.value() == Data::Tuple(Seq::<Data>::empty()).with_element(self.0.data()));
            assert(Seq::<Data>::empty().push(self.0.data()) =~= seq![self.0.data()]);
        }
        match tup.serialize_element(serializer, &self.1) {
            Ok(()) => {},
            Err(e) => {
                return Err(e);
            },
        }
        proof {
            assert(tup.value() == Data::Tuple(seq![self.0.data()]).with_element(self.1.data()));
            assert(seq![self.0.data()].push(self.1.data()) =~= seq![self.0.data(), self.1.data()]);
        }
        match tup.serialize_element(serializer, &self.2) {
            Ok(()) => {},
            Err(e) => {
                return Err(e);
            },
        }
        proof {
            assert(tup.value() == Data::Tuple(seq![self.0.data(), self.1.data()]).with_element(self.2.data()));
            assert(seq![self.0.data(), self.1.data()].push(self.2.data()) =~= seq![self.0.data(), self.1.data(), self.2.data()]);
        }
        match tup.serialize_element(serializer, &self.3) {
            Ok(()) => {},
            Err(e) => {
                return Err(e);
            },
        }
        proof {
            assert(tup.value() == Data::Tuple(seq![self.0.data(), self.1.data(), self.2.data()]).with_element(self.3.data()));
            assert(seq![self.0.data(), self.1.data(), self.2.data()].push(self.3.data()) =~= seq![self.0.data(), self.1.data(), self.2.data(), self.3.data()]);
        }
        match tup.serialize_element(serializer, &self.4) {
            Ok(()) => {},
            Err(e) => {
                return Err(e);
            },
        }
        proof {
            assert(tup.value() == Data::Tuple(seq![self.0.data(), self.1.data(), self.2.data(), self.3.data()]).with_element(self.4.data()));
            assert(seq![self.0.data(), self.1.data(), self.2.data(), self.3.data()].push(self.4.data()) =~= seq![self.0.data(), self.1.data(), self.2.data(), self.3.data(), self.4.data()]);
        }
        match tup.serialize_element(serializer, &self.5) {
            Ok(()) => {},
            Err(e) => {
                return Err(e);
            },
        }
        proof {
            assert(tup.value() == Data::Tuple(seq![self.0.data(), self.1.data(), self.2.data(), self.3.data(), self.4.data()]).with_element(self.5.data()));
            assert(seq![self.0.data(), self.1.data(), self.2.data(), self.3.data(), self.4.data()].push(self.5.data()) =~= seq![self.0.data(), self.1.data(), self.2.data(), self.3.data(), self.4.data(), self.5.data()]);
        }
        match tup.serialize_element(serializer, &self.6) {
            Ok(()) => {},
            Err(e) => {
                return Err(e);
            },
        }
        proof {
            assert(tup.value() == Data::Tuple(seq![self.0.data(), self.1.data(), self.2.data(), self.3.data(), self.4.data(), self.5.data()]).with_element(self.6.data()));
            assert(seq![self.0.data(), self.1.data(), self.2.data(), self.3.data(), self.4.data(), self.5.data()].push(self.6.data()) =~= seq![self.0.data(), self.1.data(), self.2.data(), self.3.data(), self.4.data(), self.5.data(), self.6.data()]);
        }
        match tup.serialize_element(serializer, &self.7) {
            Ok(()) => {},
            Err(e) => {
                return Err(e);
            },
        }
        proof {
            assert(tup.value() == Data::Tuple(seq![self.0.data(), self.1.data(), self.2.data(), self.3.data(), self.4.data(), self.5.data(), self.6.data()]).with_element(self.7.data()));
            assert(seq![self.0.data(), self.1.data(), self.2.data(), self.3.data(), self.4.data(), self.5.data(), self.6.data()].push(self.7.data()) =~= seq![self.0.data(), self.1.data(), self.2.data(), self.3.data(), self.4.data(), self.5.data(), self.6.data(), self.7.data()]);
        }
        match tup.serialize_element(serializer, &self.8) {
            Ok(()) => {},
            Err(e) => {
                return Err(e);
            },
        }
        proof {
            assert(tup.value() == Data::Tuple(seq![self.0.data(), self.1.data(), self.2.data(), self.3.data(), self.4.data(), self.5.data(), self.6.data(), self.7.data()]).with_element(self.8.data()));
            assert(seq![self.0.data(), self.1.data(), self.2.data(), self.3.data(), self.4.data(), self.5.data(), self.6.data(), self.7.data()].push(self.8.data()) =~= seq![self.0.data(), self.1.data(), self.2.data(), self.3.data(), self.4.data(), self.5.data(), self.6.data(), self.7.data(), self.8.data()]);
        }
        match tup.serialize_element(serializer, &self.9) {
            Ok(()) => {},
            Err(e) => {
                return Err(e);
            },
        }
        proof {
            assert(tup.value() == Data::Tuple(seq![self.0.data(), self.1.data(), self.2.data(), self.3.data(), self.4.data(), self.5.data(), self.6.data(), self.7.data(), self.8.data()]).with_element(self.9.data()));
            assert(seq![self.0.data(), self.1.data(), self.2.data(), self.3.data(), self.4.data(), self.5.data(), self.6.data(), self.7.data(), self.8.data()].push(self.9.data()) =~= seq![self.0.data(), self.1.data(), self.2.data(), self.3.data(), self.4.data(), self.5.data(), self.6.data(), self.7.data(), self.8.data(), self.9.data()]);
        }
        match tup.serialize_element(serializer, &self.10) {
            Ok(()) => {},
            Err(e) => {
                return Err(e);
            },
        }
        proof {
            assert(tup.value() == Data::Tuple(seq![self.0.data(), self.1.data(), self.2.data(), self.3.data(), self.4.data(), self.5.data(), self.6.data(), self.7.data(), self.8.data(), self.9.data()]).with_element(self.10.data()));
            assert(seq![self.0.data(), self.1.data(), self.2.data(), self.3.data(), self.4.data(), self.5.data(), self.6.data(), self.7.data(), self.8.data(), self.9.data()].push(self.10.data()) =~= seq![self.0.data(), self.1.data(), self.2.data(), self.3.data(), self.4.data(), self.5.data(), self.6.data(), self.7.data(), self.8.data(), self.9.data(), self.10.data()]);
        }
        match tup.serialize_element(serializer, &self.11) {
            Ok(()) => {},
            Err(e) => {
                return Err(e);
            },
        }
        proof {
            assert(tup.value() == Data::Tuple(seq![self.0.data(), self.1.data(), self.2.data(), self.3.data(), self.4.data(), self.5.data(), self.6.data(), self.7.data(), self.8.data(), self.9.data(), self.10.data()]).with_element(self.11.data()));
            assert(seq![self.0.data(), self.1.data(), self.2.data(), self.3.data(), self.4.data(), self.5.data(), self.6.data(), self.7.data(), self.8.data(), self.9.data(), self.10.data()].push(self.11.data()) =~= seq![self.0.data(), self.1.data(), self.2.data(), self.3.data(), self.4.data(), self.5.data(), self.6.data(), self.7.data(), self.8.data(), self.9.data(), self.10.data(), self.11.data()]);
        }
        match tup.serialize_element(serializer, &self.12) {
            Ok(()) => {},
            Err(e) => {
                return Err(e);
            },
        }
        proof {
            assert(tup.value() == Data::Tuple(seq![self.0.data(), self.1.data(), self.2.data(), self.3.data(), self.4.data(), self.5.data(), self.6.data(), self.7.data(), self.8.data(), self.9.data(), self.10.data(), self.11.data()]).with_element(self.12.data()));
            assert(seq![self.0.data(), self.1.data(), self.2.data(), self.3.data(), self.4.data(), self.5.data(), self.6.data(), self.7.data(), self.8.data(), self.9.data(), self.10.data(), self.11.data()].push(self.12.data()) =~= seq![self.0.data(), self.1.data(), self.2.data(), self.3.data(), self.4.data(), self.5.data(), self.6.data(), self.7.data(), self.8.data(), self.9.data(), self.10.data(), self.11.data(), self.12.data()]);
        }
        match tup.serialize_element(serializer, &self.13) {
            Ok(()) => {},
            Err(e) => {
                return Err(e);
            },
        }
        proof {
            assert(tup.value() == Data::Tuple(seq![self.0.data(), self.1.data(), self.2.data(), self.3.data(), self.4.data(), self.5.data(), self.6.data(), self.7.data(), self.8.data(), self.9.data(), self.10.data(), self.11.data(), self.12.data()]).with_element(self.13.data()));
            assert(seq![self.0.data(), self.1.data(), self.2.data(), self.3.data(), self.4.data(), self.5.data(), self.6.data(), self.7.data(), self.8.data(), self.9.data(), self.10.data(), self.11.data(), self.12.data()].push(self.13.data()) =~= seq![self.0.data(), self.1.data(), self.2.data(), self.3.data(), self.4.data(), self.5.data(), self.6.data(), self.7.data(), self.8.data(), self.9.data(), self.10.data(), self.11.data(), self.12.data(), self.13.data()]);
        }
        tup.end(serializer)
    }
}

/// A tuple of 15 is written as a tuple of its fields.
impl<S: Serializer, T1: Ser<S>, T2: Ser<S>, T3: Ser<S>, T4: Ser<S>, T5: Ser<S>, T6: Ser<S>, T7: Ser<S>, T8: Ser<S>, T9: Ser<S>, T10: Ser<S>, T11: Ser<S>, T12: Ser<S>, T13: Ser<S>, T14: Ser<S>, T15: Ser<S>> Ser<S> for (T1, T2, T3, T4, T5, T6, T7, T8, T9, T10, T11, T12, T13, T14, T15) {
    open spec fn data(&self) -> Data {
        Data::Tuple(seq![self.0.data(), self.1.data(), self.2.data(), self.3.data(), self.4.data(), self.5.data(), self.6.data(), self.7.data(), self.8.data(), self.9.data(), self.10.data(), self.11.data(), self.12.data(), self.13.data(), self.14.data()])
    }

    fn serialize(&self, serializer: &mut S) -> (r: Result<S::Ok, S::Error>) {
        let mut tup = match serializer.serialize_tuple(15) {
            Ok(state) => state,
            Err(e) => {
                return Err(e);
            },
        };
        match tup.serialize_element(serializer, &self.0) {
            Ok(()) => {},
            Err(e) => {
                return Err(e);
            },
        }
        proof {
            assert(tup.value() == Data::Tuple(Seq::<Data>::empty()).with_element(self.0.data()));
            assert(Seq::<Data>::empty().push(self.0.data()) =~= seq![self.0.data()]);
        }
        match tup.serialize_element(serializer, &self.1) {
            Ok(()) => {},
            Err(e) => {
                return Err(e);
            },
        }
        proof {
            assert(tup.value() == Data::Tuple(seq![self.0.data()]).with_element(self.1.data()));
            assert(seq![self.0.data()].push(self.1.data()) =~= seq![self.0.data(), self.1.data()]);
        }
        match tup.serialize_element(serializer, &self.2) {
            Ok(()) => {},
            Err(e) => {
                return Err(e);
            },
        }
        proof {
            assert(tup.value() == Data::Tuple(seq![self.0.data(), self.1.data()]).with_element(self.2.data()));
            assert(seq![self.0.data(), self.1.data()].push(self.2.data()) =~= seq![self.0.data(), self.1.data(), self.2.data()]);
        }
        match tup.serialize_element(serializer, &self.3) {
            Ok(()) => {},
            Err(e) => {
                return Err(e);
            },
        }
        proof {
            assert(tup.value() == Data::Tuple(seq![self.0.data(), self.1.data(), self.2.data()]).with_element(self.3.data()));
            assert(seq![self.0.data(), self.1.data(), self.2.data()].push(self.3.data()) =~= seq![self.0.data(), self.1.data(), self.2.data(), self.3.data()]);
        }
        match tup.serialize_element(serializer, &self.4) {
            Ok(()) => {},
            Err(e) => {
                return Err(e);
            },
        }
        proof {
            assert(tup.value() == Data::Tuple(seq![self.0.data(), self.1.data(), self.2.data(), self.3.data()]).with_element(self.4.data()));
            assert(seq![self.0.data(), self.1.data(), self.2.data(), self.3.data()].push(self.4.data()) =~= seq![self.0.data(), self.1.data(), self.2.data(), self.3.data(), self.4.data()]);
        }
        match tup.serialize_element(serializer, &self.5) {
            Ok(()) => {},
            Err(e) => {
                return Err(e);
            },
        }
        proof {
            assert(tup.value() == Data::Tuple(seq![self.0.data(), self.1.data(), self.2.data(), self.3.data(), self.4.data()]).with_element(self.5.data()));
            assert(seq![self.0.data(), self.1.data(), self.2.data(), self.3.data(), self.4.data()].push(self.5.data()) =~= seq![self.0.data(), self.1.data(), self.2.data(), self.3.data(), self.4.data(), self.5.data()]);
        }
        match tup.serialize_element(serializer, &self.6) {
            Ok(()) => {},
            Err(e) => {
                return Err(e);
            },
        }
        proof {
            assert(tup.value() == Data::Tuple(seq![self.0.data(), self.1.data(), self.2.data(), self.3.data(), self.4.data(), self.5.data()]).with_element(self.6.data()));
            assert(seq![self.0.data(), self.1.data(), self.2.data(), self.3.data(), self.4.data(), self.5.data()].push(self.6.data()) =~= seq![self.0.data(), self.1.data(), self.2.data(), self.3.data(), self.4.data(), self.5.data(), self.6.data()]);
        }
        match tup.serialize_element(serializer, &self.7) {
            Ok(()) => {},
            Err(e) => {
                return Err(e);
            },
        }
        proof {
            assert(tup.value() == Data::Tuple(seq![self.0.data(), self.1.data(), self.2.data(), self.3.data(), self.4.data(), self.5.data(), self.6.data()]).with_element(self.7.data()));
            assert(seq![self.0.data(), self.1.data(), self.2.data(), self.3.data(), self.4.data(), self.5.data(), self.6.data()].push(self.7.data()) =~= seq![self.0.data(), self.1.data(), self.2.data(), self.3.data(), self.4.data(), self.5.data(), self.6.data(), self.7.data()]);
        }
        match tup.serialize_element(serializer, &self.8) {
            Ok(()) => {},
            Err(e) => {
                return Err(e);
            },
        }
        proof {
            assert(tup.value() == Data::Tuple(seq![self.0.data(), self.1.data(), self.2.data(), self.3.data(), self.4.data(), self.5.data(), self.6.data(), self.7.data()]).with_element(self.8.data()));
            assert(seq![self.0.data(), self.1.data(), self.2.data(), self.3.data(), self.4.data(), self.5.data(), self.6.data(), self.7.data()].push(self.8.data()) =~= seq![self.0.data(), self.1.data(), self.2.data(), self.3.data(), self.4.data(), self.5.data(), self.6.data(), self.7.data(), self.8.data()]);
        }
        match tup.serialize_element(serializer, &self.9) {
            Ok(()) => {},
            Err(e) => {
                return Err(e);
            },
        }
        proof {
            assert(tup.value() == Data::Tuple(seq![self.0.data(), self.1.data(), self.2.data(), self.3.data(), self.4.data(), self.5.data(), self.6.data(), self.7.data(), self.8.data()]).with_element(self.9.data()));
            assert(seq![self.0.data(), self.1.data(), self.2.data(), self.3.data(), self.4.data(), self.5.data(), self.6.data(), self.7.data(), self.8.data()].push(self.9.data()) =~= seq![self.0.data(), self.1.data(), self.2.data(), self.3.data(), self.4.data(), self.5.data(), self.6.data(), self.7.data(), self.8.data(), self.9.data()]);
        }
        match tup.serialize_element(serializer, &self.10) {
            Ok(()) => {},
            Err(e) => {
                return Err(e);
            },
        }
        proof {
            assert(tup.value() == Data::Tuple(seq![self.0.data(), self.1.data(), self.2.data(), self.3.data(), self.4.data(), self.5.data(), self.6.data(), self.7.data(), self.8.data(), self.9.data()]).with_element(self.10.data()));
            assert(seq![self.0.data(), self.1.data(), self.2.data(), self.3.data(), self.4.data(), self.5.data(), self.6.data(), self.7.data(), self.8.data(), self.9.data()].push(self.10.data()) =~= seq![self.0.data(), self.1.data(), self.2.data(), self.3.data(), self.4.data(), self.5.data(), self.6.data(), self.7.data(), self.8.data(), self.9.data(), self.10.data()]);
        }
        match tup.serialize_element(serializer, &self.11) {
            Ok(()) => {},
            Err(e) => {
                return Err(e);
            },
        }
        proof {
            assert(tup.value() == Data::Tuple(seq![self.0.data(), self.1.data(), self.2.data(), self.3.data(), self.4.data(), self.5.data(), self.6.data(), self.7.data(), self.8.data(), self.9.data(), self.10.data()]).with_element(self.11.data()));
            assert(seq![self.0.data(), self.1.data(), self.2.data(), self.3.data(), self.4.data(), self.5.data(), self.6.data(), self.7.data(), self.8.data(), self.9.data(), self.10.data()].push(self.11.data()) =~= seq![self.0.data(), self.1.data(), self.2.data(), self.3.data(), self.4.data(), self.5.data(), self.6.data(), self.7.data(), self.8.data(), self.9.data(), self.10.data(), self.11.data()]);
        }
        match tup.serialize_element(serializer, &self.12) {
            Ok(()) => {},
            Err(e) => {
                return Err(e);
            },
        }
        proof {
            assert(tup.value() == Data::Tuple(seq![self.0.data(), self.1.data(), self.2.data(), self.3.data(), self.4.data(), self.5.data(), self.6.data(), self.7.data(), self.8.data(), self.9.data(), self.10.data(), self.11.data()]).with_element(self.12.data()));
            assert(seq![self.0.data(), self.1.data(), self.2.data(), self.3.data(), self.4.data(), self.5.data(), self.6.data(), self.7.data(), self.8.data(), self.9.data(), self.10.data(), self.11.data()].push(self.12.data()) =~= seq![self.0.data(), self.1.data(), self.2.data(), self.3.data(), self.4.data(), self.5.data(), self.6.data(), self.7.data(), self.8.data(), self.9.data(), self.10.data(), self.11.data(), self.12.data()]);
        }
        match tup.serialize_element(serializer, &self.13) {
            Ok(()) => {},
            Err(e) => {
                return Err(e);
            },
        }
        proof {
            assert(tup.value() == Data::Tuple(seq![self.0.data(), self.1.data(), self.2.data(), self.3.data(), self.4.data(), self.5.data(), self.6.data(), self.7.data(), self.8.data(), self.9.data(), self.10.data(), self.11.data(), self.12.data()]).with_element(self.13.data()));
            assert(seq![self.0.data(), self.1.data(), self.2.data(), self.3.data(), self.4.data(), self.5.data(), self.6.data(), self.7.data(), self.8.data(), self.9.data(), self.10.data(), self.11.data(), self.12.data()].push(self.13.data()) =~= seq![self.0.data(), self.1.data(), self.2.data(), self.3.data(), self.4.data(), self.5.data(), self.6.data(), self.7.data(), self.8.data(), self.9.data(), self.10.data(), self.11.data(), self.12.data(), self.13.data()]);
        }
        match tup.serialize_element(serializer, &self.14) {
            Ok(()) => {},
            Err(e) => {
                return Err(e);
            },
        }
        proof {
            assert(tup.value() == Data::Tuple(seq![self.0.data(), self.1.data(), self.2.data(), self.3.data(), self.4.data(), self.5.data(), self.6.data(), self.7.data(), self.8.data(), self.9.data(), self.10.data(), self.11.data(), self.12.data(), self.13.data()]).with_element(self.14.data()));
            assert(seq![self.0.data(), self.1.data(), self.2.data(), self.3.data(), self.4.data(), self.5.data(), self.6.data(), self.7.data(), self.8.data(), self.9.data(), self.10.data(), self.11.data(), self.12.data(), self.13.data()].push(self.14.data()) =~= seq![self.0.data(), self.1.data(), self.2.data(), self.3.data(), self.4.data(), self.5.data(), self.6.data(), self.7.data(), self.8.data(), self.9.data(), self.10.data(), self.11.data(), self.12.data(), self.13.data(), self.14.data()]);
        }
        tup.end(serializer)
    }
}

/// A tuple of 16 is written as a tuple of its fields.
impl<S: Serializer, T1: Ser<S>, T2: Ser<S>, T3: Ser<S>, T4: Ser<S>, T5: Ser<S>, T6: Ser<S>, T7: Ser<S>, T8: Ser<S>, T9: Ser<S>, T10: Ser<S>, T11: Ser<S>, T12: Ser<S>, T13: Ser<S>, T14: Ser<S>, T15: Ser<S>, T16: Ser<S>> Ser<S> for (T1, T2, T3, T4, T5, T6, T7, T8, T9, T10, T11, T12, T13, T14, T15, T16) {
    open spec fn data(&self) -> Data {
        Data::Tuple(seq![self.0.data(), self.1.data(), self.2.data(), self.3.data(), self.4.data(), self.5.data(), self.6.data(), self.7.data(), self.8.data(), self.9.data(), self.10.data(), self.11.data(), self.12.data(), self.13.data(), self.14.data(), self.15.data()])
    }

    fn serialize(&self, serializer: &mut S) -> (r: Result<S::Ok, S::Error>) {
        let mut tup = match serializer.serialize_tuple(16) {
            Ok(state) => state,
            Err(e) => {
                return Err(e);
            },
        };
        match tup.serialize_element(serializer, &self.0) {
            Ok(()) => {},
            Err(e) => {
                return Err(e);
            },
        }
        proof {
            assert(tup.value() == Data::Tuple(Seq::<Data>::empty()).with_element(self.0.data()));
            assert(Seq::<Data>::empty().push(self.0.data()) =~= seq![self.0.data()]);
        }
        match tup.serialize_element(serializer, &self.1) {
            Ok(()) => {},
            Err(e) => {
                return Err(e);
            },
        }
        proof {
            assert(tup.value() == Data::Tuple(seq![self.0.data()]).with_element(self.1.data()));
            assert(seq![self.0.data()].push(self.1.data()) =~= seq![self.0.data(), self.1.data()]);
        }
        match tup.serialize_element(serializer, &self.2) {
            Ok(()) => {},
            Err(e) => {
                return Err(e);
            },
        }
        proof {
            assert(tup.value() == Data::Tuple(seq![self.0.data(), self.1.data()]).with_element(self.2.data()));
            assert(seq![self.0.data(), self.1.data()].push(self.2.data()) =~= seq![self.0.data(), self.1.data(), self.2.data()]);
        }
        match tup.serialize_element(serializer, &self.3) {
            Ok(()) => {},
            Err(e) => {
                return Err(e);
            },
        }
        proof {
            assert(tup.value() == Data::Tuple(seq![self.0.data(), self.1.data(), self.2.data()]).with_element(self.3.data()));
            assert(seq![self.0.data(), self.1.data(), self.2.data()].push(self.3.data()) =~= seq![self.0.data(), self.1.data(), self.2.data(), self.3.data()]);
        }
        match tup.serialize_element(serializer, &self.4) {
            Ok(()) => {},
            Err(e) => {
                return Err(e);
            },
        }
        proof {
            assert(tup.value() == Data::Tuple(seq![self.0.data(), self.1.data(), self.2.data(), self.3.data()]).with_element(self.4.data()));
            assert(seq![self.0.data(), self.1.data(), self.2.data(), self.3.data()].push(self.4.data()) =~= seq![self.0.data(), self.1.data(), self.2.data(), self.3.data(), self.4.data()]);
        }
        match tup.serialize_element(serializer, &self.5) {
            Ok(()) => {},
            Err(e) => {
                return Err(e);
            },
        }
        proof {
            assert(tup.value() == Data::Tuple(seq![self.0.data(), self.1.data(), self.2.data(), self.3.data(), self.4.data()]).with_element(self.5.data()));
            assert(seq![self.0.data(), self.1.data(), self.2.data(), self.3.data(), self.4.data()].push(self.5.data()) =~= seq![self.0.data(), self.1.data(), self.2.data(), self.3.data(), self.4.data(), self.5.data()]);
        }
        match tup.serialize_element(serializer, &self.6) {
            Ok(()) => {},
            Err(e) => {
                return Err(e);
            },
        }
        proof {
            assert(tup.value() == Data::Tuple(seq![self.0.data(), self.1.data(), self.2.data(), self.3.data(), self.4.data(), self.5.data()]).with_element(self.6.data()));
            assert(seq![self.0.data(), self.1.data(), self.2.data(), self.3.data(), self.4.data(), self.5.data()].push(self.6.data()) =~= seq![self.0.data(), self.1.data(), self.2.data(), self.3.data(), self.4.data(), self.5.data(), self.6.data()]);
        }
        match tup.serialize_element(serializer, &self.7) {
            Ok(()) => {},
            Err(e) => {
                return Err(e);
            },
        }
        proof {
            assert(tup.value() == Data::Tuple(seq![self.0.data(), self.1.data(), self.2.data(), self.3.data(), self.4.data(), self.5.data(), self.6.data()]).with_element(self.7.data()));
            assert(seq![self.0.data(), self.1.data(), self.2.data(), self.3.data(), self.4.data(), self.5.data(), self.6.data()].push(self.7.data()) =~= seq![self.0.data(), self.1.data(), self.2.data(), self.3.data(), self.4.data(), self.5.data(), self.6.data(), self.7.data()]);
        }
        match tup.serialize_element(serializer, &self.8) {
            Ok(()) => {},
            Err(e) => {
                return Err(e);
            },
        }
        proof {
            assert(tup.value() == Data::Tuple(seq![self.0.data(), self.1.data(), self.2.data(), self.3.data(), self.4.data(), self.5.data(), self.6.data(), self.7.data()]).with_element(self.8.data()));
            assert(seq![self.0.data(), self.1.data(), self.2.data(), self.3.data(), self.4.data(), self.5.data(), self.6.data(), self.7.data()].push(self.8.data()) =~= seq![self.0.data(), self.1.data(), self.2.data(), self.3.data(), self.4.data(), self.5.data(), self.6.data(), self.7.data(), self.8.data()]);
        }
        match tup.serialize_element(serializer, &self.9) {
            Ok(()) => {},
            Err(e) => {
                return Err(e);
            },
        }
        proof {
            assert(tup.value() == Data::Tuple(seq![self.0.data(), self.1.data(), self.2.data(), self.3.data(), self.4.data(), self.5.data(), self.6.data(), self.7.data(), self.8.data()]).with_element(self.9.data()));
            assert(seq![self.0.data(), self.1.data(), self.2.data(), self.3.data(), self.4.data(), self.5.data(), self.6.data(), self.7.data(), self.8.data()].push(self.9.data()) =~= seq![self.0.data(), self.1.data(), self.2.data(), self.3.data(), self.4.data(), self.5.data(), self.6.data(), self.7.data(), self.8.data(), self.9.data()]);
        }
        match tup.serialize_element(serializer, &self.10) {
            Ok(()) => {},
            Err(e) => {
                return Err(e);
            },
        }
        proof {
            assert(tup.value() == Data::Tuple(seq![self.0.data(), self.1.data(), self.2.data(), self.3.data(), self.4.data(), self.5.data(), self.6.data(), self.7.data(), self.8.data(), self.9.data()]).with_element(self.10.data()));
            assert(seq![self.0.data(), self.1.data(), self.2.data(), self.3.data(), self.4.data(), self.5.data(), self.6.data(), self.7.data(), self.8.data(), self.9.data()].push(self.10.data()) =~= seq![self.0.data(), self.1.data(), self.2.data(), self.3.data(), self.4.data(), self.5.data(), self.6.data(), self.7.data(), self.8.data(), self.9.data(), self.10.data()]);
        }
        match tup.serialize_element(serializer, &self.11) {
            Ok(()) => {},
            Err(e) => {
                return Err(e);
            },
        }
        proof {
            assert(tup.value() == Data::Tuple(seq![self.0.data(), self.1.data(), self.2.data(), self.3.data(), self.4.data(), self.5.data(), self.6.data(), self.7.data(), self.8.data(), self.9.data(), self.10.data()]).with_element(self.11.data()));
            assert(seq![self.0.data(), self.1.data(), self.2.data(), self.3.data(), self.4.data(), self.5.data(), self.6.data(), self.7.data(), self.8.data(), self.9.data(), self.10.data()].push(self.11.data()) =~= seq![self.0.data(), self.1.data(), self.2.data(), self.3.data(), self.4.data(), self.5.data(), self.6.data(), self.7.data(), self.8.data(), self.9.data(), self.10.data(), self.11.data()]);
        }
        match tup.serialize_element(serializer, &self.12) {
            Ok(()) => {},
            Err(e) => {
                return Err(e);
            },
        }
        proof {
            assert(tup.value() == Data::Tuple(seq![self.0.data(), self.1.data(), self.2.data(), self.3.data(), self.4.data(), self.5.data(), self.6.data(), self.7.data(), self.8.data(), self.9.data(), self.10.data(), self.11.data()]).with_element(self.12.data()));
            assert(seq![self.0.data(), self.1.data(), self.2.data(), self.3.data(), self.4.data(), self.5.data(), self.6.data(), self.7.data(), self.8.data(), self.9.data(), self.10.data(), self.11.data()].push(self.12.data()) =~= seq![self.0.data(), self.1.data(), self.2.data(), self.3.data(), self.4.data(), self.5.data(), self.6.data(), self.7.data(), self.8.data(), self.9.data(), self.10.data(), self.11.data(), self.12.data()]);
        }
        match tup.serialize_element(serializer, &self.13) {
            Ok(()) => {},
            Err(e) => {
                return Err(e);
            },
        }
        proof {
            assert(tup.value() == Data::Tuple(seq![self.0.data(), self.1.data(), self.2.data(), self.3.data(), self.4.data(), self.5.data(), self.6.data(), self.7.data(), self.8.data(), self.9.data(), self.10.data(), self.11.data(), self.12.data()]).with_element(self.13.data()));
            assert(seq![self.0.data(), self.1.data(), self.2.data(), self.3.data(), self.4.data(), self.5.data(), self.6.data(), self.7.data(), self.8.data(), self.9.data(), self.10.data(), self.11.data(), self.12.data()].push(self.13.data()) =~= seq![self.0.data(), self.1.data(), self.2.data(), self.3.data(), self.4.data(), self.5.data(), self.6.data(), self.7.data(), self.8.data(), self.9.data(), self.10.data(), self.11.data(), self.12.data(), self.13.data()]);
        }
        match tup.serialize_element(serializer, &self.14) {
            Ok(()) => {},
            Err(e) => {
                return Err(e);
            },
        }
        proof {
            assert(tup.value() == Data::Tuple(seq![self.0.data(), self.1.data(), self.2.data(), self.3.data(), self.4.data(), self.5.data(), self.6.data(), self.7.data(), self.8.data(), self.9.data(), self.10.data(), self.11.data(), self.12.data(), self.13.data()]).with_element(self.14.data()));
            assert(seq![self.0.data(), self.1.data(), self.2.data(), self.3.data(), self.4.data(), self.5.data(), self.6.data(), self.7.data(), self.8.data(), self.9.data(), self.10.data(), self.11.data(), self.12.data(), self.13.data()].push(self.14.data()) =~= seq![self.0.data(), self.1.data(), self.2.data(), self.3.data(), self.4.data(), self.5.data(), self.6.data(), self.7.data(), self.8.data(), self.9.data(), self.10.data(), self.11.data(), self.12.data(), self.13.data(), self.14.data()]);
        }
        match tup.serialize_element(serializer, &self.15) {
            Ok(()) => {},
            Err(e) => {
                return Err(e);
            },
        }
        proof {
            assert(tup.value() == Data::Tuple(seq![self.0.data(), self.1.data(), self.2.data(), self.3.data(), self.4.data(), self.5.data(), self.6.data(), self.7.data(), self.8.data(), self.9.data(), self.10.data(), self.11.data(), self.12.data(), self.13.data(), self.14.data()]).with_element(self.15.data()));
            assert(seq![self.0.data(), self.1.data(), self.2.data(), self.3.data(), self.4.data(), self.5.data(), self.6.data(), self.7.data(), self.8.data(), self.9.data(), self.10.data(), self.11.data(), self.12.data(), self.13.data(), self.14.data()].push(self.15.data()) =~= seq![self.0.data(), self.1.data(), self.2.data(), self.3.data(), self.4.data(), self.5.data(), self.6.data(), self.7.data(), self.8.data(), self.9.data(), self.10.data(), self.11.data(), self.12.data(), self.13.data(), self.14.data(), self.15.data()]);
        }
        tup.end(serializer)
    }
}

/// A tuple of 17 is written as a tuple of its fields.
impl<S: Serializer, T1: Ser<S>, T2: Ser<S>, T3: Ser<S>, T4: Ser<S>, T5: Ser<S>, T6: Ser<S>, T7: Ser<S>, T8: Ser<S>, T9: Ser<S>, T10: Ser<S>, T11: Ser<S>, T12: Ser<S>, T13: Ser<S>, T14: Ser<S>, T15: Ser<S>, T16: Ser<S>, T17: Ser<S>> Ser<S> for (T1, T2, T3, T4, T5, T6, T7, T8, T9, T10, T11, T12, T13, T14, T15, T16, T17) {
    open spec fn data(&self) -> Data {
        Data::Tuple(seq![self.0.data(), self.1.data(), self.2.data(), self.3.data(), self.4.data(), self.5.data(), self.6.data(), self.7.data(), self.8.data(), self.9.data(), self.10.data(), self.11.data(), self.12.data(), self.13.data(), self.14.data(), self.15.data(), self.16.data()])
    }

    fn serialize(&self, serializer: &mut S) -> (r: Result<S::Ok, S::Error>) {
        let mut tup = match serializer.serialize_tuple(17) {
            Ok(state) => state,
            Err(e) => {
                return Err(e);
            },
        };
        match tup.serialize_element(serializer, &self.0) {
            Ok(()) => {},
            Err(e) => {
                return Err(e);
            },
        }
        proof {
            assert(tup.value() == Data::Tuple(Seq::<Data>::empty()).with_element(self.0.data()));
            assert(Seq::<Data>::empty().push(self.0.data()) =~= seq![self.0.data()]);
        }
        match tup.serialize_element(serializer, &self.1) {
            Ok(()) => {},
            Err(e) => {
                return Err(e);
            },
        }
        proof {
            assert(tup.value() == Data::Tuple(seq![self.0.data()]).with_element(self.1.data()));
            assert(seq![self.0.data()].push(self.1.data()) =~= seq![self.0.data(), self.1.data()]);
        }
        match tup.serialize_element(serializer, &self.2) {
            Ok(()) => {},
            Err(e) => {
                return Err(e);
            },
        }
        proof {
            assert(tup.value() == Data::Tuple(seq![self.0.data(), self.1.data()]).with_element(self.2.data()));
            assert(seq![self.0.data(), self.1.data()].push(self.2.data()) =~= seq![self.0.data(), self.1.data(), self.2.data()]);
        }
        match tup.serialize_element(serializer, &self.3) {
            Ok(()) => {},
            Err(e) => {
                return Err(e);
            },
        }
        proof {
            assert(tup.value() == Data::Tuple(seq![self.0.data(), self.1.data(), self.2.data()]).with_element(self.3.data()));
            assert(seq![self.0.data(), self.1.data(), self.2.data()].push(self.3.data()) =~= seq![self.0.data(), self.1.data(), self.2.data(), self.3.data()]);
        }
        match tup.serialize_element(serializer, &self.4) {
            Ok(()) => {},
            Err(e) => {
                return Err(e);
            },
        }
        proof {
            assert(tup.value() == Data::Tuple(seq![self.0.data(), self.1.data(), self.2.data(), self.3.data()]).with_element(self.4.data()));
            assert(seq![self.0.data(), self.1.data(), self.2.data(), self.3.data()].push(self.4.data()) =~= seq![self.0.data(), self.1.data(), self.2.data(), self.3.data(), self.4.data()]);
        }
        match tup.serialize_element(serializer, &self.5) {
            Ok(()) => {},
            Err(e) => {
                return Err(e);
            },
        }
        proof {
            assert(tup.value() == Data::Tuple(seq![self.0.data(), self.1.data(), self.2.data(), self.3.data(), self.4.data()]).with_element(self.5.data()));
            assert(seq![self.0.data(), self.1.data(), self.2.data(), self.3.data(), self.4.data()].push(self.5.data()) =~= seq![self.0.data(), self.1.data(), self.2.data(), self.3.data(), self.4.data(), self.5.data()]);
        }
        match tup.serialize_element(serializer, &self.6) {
            Ok(()) => {},
            Err(e) => {
                return Err(e);
            },
        }
        proof {
            assert(tup.value() == Data::Tuple(seq![self.0.data(), self.1.data(), self.2.data(), self.3.data(), self.4.data(), self.5.data()]).with_element(self.6.data()));
            assert(seq![self.0.data(), self.1.data(), self.2.data(), self.3.data(), self.4.data(), self.5.data()].push(self.6.data()) =~= seq![self.0.data(), self.1.data(), self.2.data(), self.3.data(), self.4.data(), self.5.data(), self.6.data()]);
        }
        match tup.serialize_element(serializer, &self.7) {
            Ok(()) => {},
            Err(e) => {
                return Err(e);
            },
        }
        proof {
            assert(tup.value() == Data::Tuple(seq![self.0.data(), self.1.data(), self.2.data(), self.3.data(), self.4.data(), self.5.data(), self.6.data()]).with_element(self.7.data()));
            assert(seq![self.0.data(), self.1.data(), self.2.data(), self.3.data(), self.4.data(), self.5.data(), self.6.data()].push(self.7.data()) =~= seq![self.0.data(), self.1.data(), self.2.data(), self.3.data(), self.4.data(), self.5.data(), self.6.data(), self.7.data()]);
        }
        match tup.serialize_element(serializer, &self.8) {
            Ok(()) => {},
            Err(e) => {
                return Err(e);
            },
        }
        proof {
            assert(tup.value() == Data::Tuple(seq![self.0.data(), self.1.data(), self.2.data(), self.3.data(), self.4.data(), self.5.data(), self.6.data(), self.7.data()]).with_element(self.8.data()));
            assert(seq![self.0.data(), self.1.data(), self.2.data(), self.3.data(), self.4.data(), self.5.data(), self.6.data(), self.7.data()].push(self.8.data()) =~= seq![self.0.data(), self.1.data(), self.2.data(), self.3.data(), self.4.data(), self.5.data(), self.6.data(), self.7.data(), self.8.data()]);
        }
        match tup.serialize_element(serializer, &self.9) {
            Ok(()) => {},
            Err(e) => {
                return Err(e);
            },
        }
        proof {
            assert(tup.value() == Data::Tuple(seq![self.0.data(), self.1.data(), self.2.data(), self.3.data(), self.4.data(), self.5.data(), self.6.data(), self.7.data(), self.8.data()]).with_element(self.9.data()));
            assert(seq![self.0.data(), self.1.data(), self.2.data(), self.3.data(), self.4.data(), self.5.data(), self.6.data(), self.7.data(), self.8.data()].push(self.9.data()) =~= seq![self.0.data(), self.1.data(), self.2.data(), self.3.data(), self.4.data(), self.5.data(), self.6.data(), self.7.data(), self.8.data(), self.9.data()]);
        }
        match tup.serialize_element(serializer, &self.10) {
            Ok(()) => {},
            Err(e) => {
                return Err(e);
            },
        }
        proof {
            assert(tup.value() == Data::Tuple(seq![self.0.data(), self.1.data(), self.2.data(), self.3.data(), self.4.data(), self.5.data(), self.6.data(), self.7.data(), self.8.data(), self.9.data()]).with_element(self.10.data()));
            assert(seq![self.0.data(), self.1.data(), self.2.data(), self.3.data(), self.4.data(), self.5.data(), self.6.data(), self.7.data(), self.8.data(), self.9.data()].push(self.10.data()) =~= seq![self.0.data(), self.1.data(), self.2.data(), self.3.data(), self.4.data(), self.5.data(), self.6.data(), self.7.data(), self.8.data(), self.9.data(), self.10.data()]);
        }
        match tup.serialize_element(serializer, &self.11) {
            Ok(()) => {},
            Err(e) => {
                return Err(e);
            },
        }
        proof {
            assert(tup.value() == Data::Tuple(seq![self.0.data(), self.1.data(), self.2.data(), self.3.data(), self.4.data(), self.5.data(), self.6.data(), self.7.data(), self.8.data(), self.9.data(), self.10.data()]).with_element(self.11.data()));
            assert(seq![self.0.data(), self.1.data(), self.2.data(), self.3.data(), self.4.data(), self.5.data(), self.6.data(), self.7.data(), self.8.data(), self.9.data(), self.10.data()].push(self.11.data()) =~= seq![self.0.data(), self.1.data(), self.2.data(), self.3.data(), self.4.data(), self.5.data(), self.6.data(), self.7.data(), self.8.data(), self.9.data(), self.10.data(), self.11.data()]);
        }
        match tup.serialize_element(serializer, &self.12) {
            Ok(()) => {},
            Err(e) => {
                return Err(e);
            },
        }
        proof {
            assert(tup.value() == Data::Tuple(seq![self.0.data(), self.1.data(), self.2.data(), self.3.data(), self.4.data(), self.5.data(), self.6.data(), self.7.data(), self.8.data(), self.9.data(), self.10.data(), self.11.data()]).with_element(self.12.data()));
            assert(seq![self.0.data(), self.1.data(), self.2.data(), self.3.data(), self.4.data(), self.5.data(), self.6.data(), self.7.data(), self.8.data(), self.9.data(), self.10.data(), self.11.data()].push(self.12.data()) =~= seq![self.0.data(), self.1.data(), self.2.data(), self.3.data(), self.4.data(), self.5.data(), self.6.data(), self.7.data(), self.8.data(), self.9.data(), self.10.data(), self.11.data(), self.12.data()]);
        }
        match tup.serialize_element(serializer, &self.13) {
            Ok(()) => {},
            Err(e) => {
                return Err(e);
            },
        }
        proof {
            assert(tup.value() == Data::Tuple(seq![self.0.data(), self.1.data(), self.2.data(), self.3.data(), self.4.data(), self.5.data(), self.6.data(), self.7.data(), self.8.data(), self.9.data(), self.10.data(), self.11.data(), self.12.data()]).with_element(self.13.data()));
            assert(seq![self.0.data(), self.1.data(), self.2.data(), self.3.data(), self.4.data(), self.5.data(), self.6.data(), self.7.data(), self.8.data(), self.9.data(), self.10.data(), self.11.data(), self.12.data()].push(self.13.data()) =~= seq![self.0.data(), self.1.data(), self.2.data(), self.3.data(), self.4.data(), self.5.data(), self.6.data(), self.7.data(), self.8.data(), self.9.data(), self.10.data(), self.11.data(), self.12.data(), self.13.data()]);
        }
        match tup.serialize_element(serializer, &self.14) {
            Ok(()) => {},
            Err(e) => {
                return Err(e);
            },
        }
        proof {
            assert(tup.value() == Data::Tuple(seq![self.0.data(), self.1.data(), self.2.data(), self.3.data(), self.4.data(), self.5.data(), self.6.data(), self.7.data(), self.8.data(), self.9.data(), self.10.data(), self.11.data(), self.12.data(), self.13.data()]).with_element(self.14.data()));
            assert(seq![self.0.data(), self.1.data(), self.2.data(), self.3.data(), self.4.data(), self.5.data(), self.6.data(), self.7.data(), self.8.data(), self.9.data(), self.10.data(), self.11.data(), self.12.data(), self.13.data()].push(self.14.data()) =~= seq![self.0.data(), self.1.data(), self.2.data(), self.3.data(), self.4.data(), self.5.data(), self.6.data(), self.7.data(), self.8.data(), self.9.data(), self.10.data(), self.11.data(), self.12.data(), self.13.data(), self.14.data()]);
        }
        match tup.serialize_element(serializer, &self.15) {
            Ok(()) => {},
            Err(e) => {
                return Err(e);
            },
        }
        proof {
            assert(tup.value() == Data::Tuple(seq![self.0.data(), self.1.data(), self.2.data(), self.3.data(), self.4.data(), self.5.data(), self.6.data(), self.7.data(), self.8.data(), self.9.data(), self.10.data(), self.11.data(), self.12.data(), self.13.data(), self.14.data()]).with_element(self.15.data()));
            assert(seq![self.0.data(), self.1.data(), self.2.data(), self.3.data(), self.4.data(), self.5.data(), self.6.data(), self.7.data(), self.8.data(), self.9.data(), self.10.data(), self.11.data(), self.12.data(), self.13.data(), self.14.data()].push(self.15.data()) =~= seq![self.0.data(), self.1.data(), self.2.data(), self.3.data(), self.4.data(), self.5.data(), self.6.data(), self.7.data(), self.8.data(), self.9.data(), self.10.data(), self.11.data(), self.12.data(), self.13.data(), self.14.data(), self.15.data()]);
        }
        match tup.serialize_element(serializer, &self.16) {
            Ok(()) => {},
            Err(e) => {
                return Err(e);
            },
        }
        proof {
            assert(tup.value() == Data::Tuple(seq![self.0.data(), self.1.data(), self.2.data(), self.3.data(), self.4.data(), self.5.data(), self.6.data(), self.7.data(), self.8.data(), self.9.data(), self.10.data(), self.11.data(), self.12.data(), self.13.data(), self.14.data(), self.15.data()]).with_element(self.16.data()));
            assert(seq![self.0.data(), self.1.data(), self.2.data(), self.3.data(), self.4.data(), self.5.data(), self.6.data(), self.7.data(), self.8.data(), self.9.data(), self.10.data(), self.11.data(), self.12.data(), self.13.data(), self.14.data(), self.15.data()].push(self.16.data()) =~= seq![self.0.data(), self.1.data(), self.2.data(), self.3.data(), self.4.data(), self.5.data(), self.6.data(), self.7.data(), self.8.data(), self.9.data(), self.10.data(), self.11.data(), self.12.data(), self.13.data(), self.14.data(), self.15.data(), self.16.data()]);
        }
        tup.end(serializer)
    }
}

/// A tuple of 18 is written as a tuple of its fields.
impl<S: Serializer, T1: Ser<S>, T2: Ser<S>, T3: Ser<S>, T4: Ser<S>, T5: Ser<S>, T6: Ser<S>, T7: Ser<S>, T8: Ser<S>, T9: Ser<S>, T10: Ser<S>, T11: Ser<S>, T12: Ser<S>, T13: Ser<S>, T14: Ser<S>, T15: Ser<S>, T16: Ser<S>, T17: Ser<S>, T18: Ser<S>> Ser<S> for (T1, T2, T3, T4, T5, T6, T7, T8, T9, T10, T11, T12, T13, T14, T15, T16, T17, T18) {
    open spec fn data(&self) -> Data {
        Data::Tuple(seq![self.0.data(), self.1.data(), self.2.data(), self.3.data(), self.4.data(), self.5.data(), self.6.data(), self.7.data(), self.8.data(), self.9.data(), self.10.data(), self.11.data(), self.12.data(), self.13.data(), self.14.data(), self.15.data(), self.16.data(), self.17.data()])
    }

    fn serialize(&self, serializer: &mut S) -> (r: Result<S::Ok, S::Error>) {
        let mut tup = match serializer.serialize_tuple(18) {
            Ok(state) => state,
            Err(e) => {
                return Err(e);
            },
        };
        match tup.serialize_element(serializer, &self.0) {
            Ok(()) => {},
            Err(e) => {
                return Err(e);
            },
        }
        proof {
            assert(tup.value() == Data::Tuple(Seq::<Data>::empty()).with_element(self.0.data()));
            assert(Seq::<Data>::empty().push(self.0.data()) =~= seq![self.0.data()]);
        }
        match tup.serialize_element(serializer, &self.1) {
            Ok(()) => {},
            Err(e) => {
                return Err(e);
            },
        }
        proof {
            assert(tup.value() == Data::Tuple(seq![self.0.data()]).with_element(self.1.data()));
            assert(seq![self.0.data()].push(self.1.data()) =~= seq![self.0.data(), self.1.data()]);
        }
        match tup.serialize_element(serializer, &self.2) {
            Ok(()) => {},
            Err(e) => {
                return Err(e);
            },
        }
        proof {
            assert(tup.value() == Data::Tuple(seq![self.0.data(), self.1.data()]).with_element(self.2.data()));
            assert(seq![self.0.data(), self.1.data()].push(self.2.data()) =~= seq![self.0.data(), self.1.data(), self.2.data()]);
        }
        match tup.serialize_element(serializer, &self.3) {
            Ok(()) => {},
            Err(e) => {
                return Err(e);
            },
        }
        proof {
            assert(tup.value() == Data::Tuple(seq![self.0.data(), self.1.data(), self.2.data()]).with_element(self.3.data()));
            assert(seq![self.0.data(), self.1.data(), self.2.data()].push(self.3.data()) =~= seq![self.0.data(), self.1.data(), self.2.data(), self.3.data()]);
        }
        match tup.serialize_element(serializer, &self.4) {
            Ok(()) => {},
            Err(e) => {
                return Err(e);
            },
        }
        proof {
            assert(tup.value() == Data::Tuple(seq![self.0.data(), self.1.data(), self.2.data(), self.3.data()]).with_element(self.4.data()));
            assert(seq![self.0.data(), self.1.data(), self.2.data(), self.3.data()].push(self.4.data()) =~= seq![self.0.data(), self.1.data(), self.2.data(), self.3.data(), self.4.data()]);
        }
        match tup.serialize_element(serializer, &self.5) {
            Ok(()) => {},
            Err(e) => {
                return Err(e);
            },
        }
        proof {
            assert(tup.value() == Data::Tuple(seq![self.0.data(), self.1.data(), self.2.data(), self.3.data(), self.4.data()]).with_element(self.5.data()));
            assert(seq![self.0.data(), self.1.data(), self.2.data(), self.3.data(), self.4.data()].push(self.5.data()) =~= seq![self.0.data(), self.1.data(), self.2.data(), self.3.data(), self.4.data(), self.5.data()]);
        }
        match tup.serialize_element(serializer, &self.6) {
            Ok(()) => {},
            Err(e) => {
                return Err(e);
            },
        }
        proof {
            assert(tup.value() == Data::Tuple(seq![self.0.data(), self.1.data(), self.2.data(), self.3.data(), self.4.data(), self.5.data()]).with_element(self.6.data()));
            assert(seq![self.0.data(), self.1.data(), self.2.data(), self.3.data(), self.4.data(), self.5.data()].push(self.6.data()) =~= seq![self.0.data(), self.1.data(), self.2.data(), self.3.data(), self.4.data(), self.5.data(), self.6.data()]);
        }
        match tup.serialize_element(serializer, &self.7) {
            Ok(()) => {},
            Err(e) => {
                return Err(e);
            },
        }
        proof {
            assert(tup.value() == Data::Tuple(seq![self.0.data(), self.1.data(), self.2.data(), self.3.data(), self.4.data(), self.5.data(), self.6.data()]).with_element(self.7.data()));
            assert(seq![self.0.data(), self.1.data(), self.2.data(), self.3.data(), self.4.data(), self.5.data(), self.6.data()].push(self.7.data()) =~= seq![self.0.data(), self.1.data(), self.2.data(), self.3.data(), self.4.data(), self.5.data(), self.6.data(), self.7.data()]);
        }
        match tup.serialize_element(serializer, &self.8) {
            Ok(()) => {},
            Err(e) => {
                return Err(e);
            },
        }
        proof {
            assert(tup.value() == Data::Tuple(seq![self.0.data(), self.1.data(), self.2.data(), self.3.data(), self.4.data(), self.5.data(), self.6.data(), self.7.data()]).with_element(self.8.data()));
            assert(seq![self.0.data(), self.1.data(), self.2.data(), self.3.data(), self.4.data(), self.5.data(), self.6.data(), self.7.data()].push(self.8.data()) =~= seq![self.0.data(), self.1.data(), self.2.data(), self.3.data(), self.4.data(), self.5.data(), self.6.data(), self.7.data(), self.8.data()]);
        }
        match tup.serialize_element(serializer, &self.9) {
            Ok(()) => {},
            Err(e) => {
                return Err(e);
            },
        }
        proof {
            assert(tup.value() == Data::Tuple(seq![self.0.data(), self.1.data(), self.2.data(), self.3.data(), self.4.data(), self.5.data(), self.6.data(), self.7.data(), self.8.data()]).with_element(self.9.data()));
            assert(seq![self.0.data(), self.1.data(), self.2.data(), self.3.data(), self.4.data(), self.5.data(), self.6.data(), self.7.data(), self.8.data()].push(self.9.data()) =~= seq![self.0.data(), self.1.data(), self.2.data(), self.3.data(), self.4.data(), self.5.data(), self.6.data(), self.7.data(), self.8.data(), self.9.data()]);
        }
        match tup.serialize_element(serializer, &self.10) {
            Ok(()) => {},
            Err(e) => {
                return Err(e);
            },
        }
        proof {
            assert(tup.value() == Data::Tuple(seq![self.0.data(), self.1.data(), self.2.data(), self.3.data(), self.4.data(), self.5.data(), self.6.data(), self.7.data(), self.8.data(), self.9.data()]).with_element(self.10.data()));
            assert(seq![self.0.data(), self.1.data(), self.2.data(), self.3.data(), self.4.data(), self.5.data(), self.6.data(), self.7.data(), self.8.data(), self.9.data()].push(self.10.data()) =~= seq![self.0.data(), self.1.data(), self.2.data(), self.3.data(), self.4.data(), self.5.data(), self.6.data(), self.7.data(), self.8.data(), self.9.data(), self.10.data()]);
        }
        match tup.serialize_element(serializer, &self.11) {
            Ok(()) => {},
            Err(e) => {
                return Err(e);
            },
        }
        proof {
            assert(tup.value() == Data::Tuple(seq![self.0.data(), self.1.data(), self.2.data(), self.3.data(), self.4.data(), self.5.data(), self.6.data(), self.7.data(), self.8.data(), self.9.data(), self.10.data()]).with_element(self.11.data()));
            assert(seq![self.0.data(), self.1.data(), self.2.data(), self.3.data(), self.4.data(), self.5.data(), self.6.data(), self.7.data(), self.8.data(), self.9.data(), self.10.data()].push(self.11.data()) =~= seq![self.0.data(), self.1.data(), self.2.data(), self.3.data(), self.4.data(), self.5.data(), self.6.data(), self.7.data(), self.8.data(), self.9.data(), self.10.data(), self.11.data()]);
        }
        match tup.serialize_element(serializer, &self.12) {
            Ok(()) => {},
            Err(e) => {
                return Err(e);
            },
        }
        proof {
            assert(tup.value() == Data::Tuple(seq![self.0.data(), self.1.data(), self.2.data(), self.3.data(), self.4.data(), self.5.data(), self.6.data(), self.7.data(), self.8.data(), self.9.data(), self.10.data(), self.11.data()]).with_element(self.12.data()));
            assert(seq![self.0.data(), self.1.data(), self.2.data(), self.3.data(), self.4.data(), self.5.data(), self.6.data(), self.7.data(), self.8.data(), self.9.data(), self.10.data(), self.11.data()].push(self.12.data()) =~= seq![self.0.data(), self.1.data(), self.2.data(), self.3.data(), self.4.data(), self.5.data(), self.6.data(), self.7.data(), self.8.data(), self.9.data(), self.10.data(), self.11.data(), self.12.data()]);
        }
        match tup.serialize_element(serializer, &self.13) {
            Ok(()) => {},
            Err(e) => {
                return Err(e);
            },
        }
        proof {
            assert(tup.value() == Data::Tuple(seq![self.0.data(), self.1.data(), self.2.data(), self.3.data(), self.4.data(), self.5.data(), self.6.data(), self.7.data(), self.8.data(), self.9.data(), self.10.data(), self.11.data(), self.12.data()]).with_element(self.13.data()));
            assert(seq![self.0.data(), self.1.data(), self.2.data(), self.3.data(), self.4.data(), self.5.data(), self.6.data(), self.7.data(), self.8.data(), self.9.data(), self.10.data(), self.11.data(), self.12.data()].push(self.13.data()) =~= seq![self.0.data(), self.1.data(), self.2.data(), self.3.data(), self.4.data(), self.5.data(), self.6.data(), self.7.data(), self.8.data(), self.9.data(), self.10.data(), self.11.data(), self.12.data(), self.13.data()]);
        }
        match tup.serialize_element(serializer, &self.14) {
            Ok(()) => {},
            Err(e) => {
                return Err(e);
            },
        }
        proof {
            assert(tup.value() == Data::Tuple(seq![self.0.data(), self.1.data(), self.2.data(), self.3.data(), self.4.data(), self.5.data(), self.6.data(), self.7.data(), self.8.data(), self.9.data(), self.10.data(), self.11.data(), self.12.data(), self.13.data()]).with_element(self.14.data()));
            assert(seq![self.0.data(), self.1.data(), self.2.data(), self.3.data(), self.4.data(), self.5.data(), self.6.data(), self.7.data(), self.8.data(), self.9.data(), self.10.data(), self.11.data(), self.12.data(), self.13.data()].push(self.14.data()) =~= seq![self.0.data(), self.1.data(), self.2.data(), self.3.data(), self.4.data(), self.5.data(), self.6.data(), self.7.data(), self.8.data(), self.9.data(), self.10.data(), self.11.data(), self.12.data(), self.13.data(), self.14.data()]);
        }
        match tup.serialize_element(serializer, &self.15) {
            Ok(()) => {},
            Err(e) => {
                return Err(e);
            },
        }
        proof {
            assert(tup.value() == Data::Tuple(seq![self.0.data(), self.1.data(), self.2.data(), self.3.data(), self.4.data(), self.5.data(), self.6.data(), self.7.data(), self.8.data(), self.9.data(), self.10.data(), self.11.data(), self.12.data(), self.13.data(), self.14.data()]).with_element(self.15.data()));
            assert(seq![self.0.data(), self.1.data(), self.2.data(), self.3.data(), self.4.data(), self.5.data(), self.6.data(), self.7.data(), self.8.data(), self.9.data(), self.10.data(), self.11.data(), self.12.data(), self.13.data(), self.14.data()].push(self.15.data()) =~= seq![self.0.data(), self.1.data(), self.2.data(), self.3.data(), self.4.data(), self.5.data(), self.6.data(), self.7.data(), self.8.data(), self.9.data(), self.10.data(), self.11.data(), self.12.data(), self.13.data(), self.14.data(), self.15.data()]);
        }
        match tup.serialize_element(serializer, &self.16) {
            Ok(()) => {},
            Err(e) => {
                return Err(e);
            },
        }
        proof {
            assert(tup.value() == Data::Tuple(seq![self.0.data(), self.1.data(), self.2.data(), self.3.data(), self.4.data(), self.5.data(), self.6.data(), self.7.data(), self.8.data(), self.9.data(), self.10.data(), self.11.data(), self.12.data(), self.13.data(), self.14.data(), self.15.data()]).with_element(self.16.data()));
            assert(seq![self.0.data(), self.1.data(), self.2.data(), self.3.data(), self.4.data(), self.5.data(), self.6.data(), self.7.data(), self.8.data(), self.9.data(), self.10.data(), self.11.data(), self.12.data(), self.13.data(), self.14.data(), self.15.data()].push(self.16.data()) =~= seq![self.0.data(), self.1.data(), self.2.data(), self.3.data(), self.4.data(), self.5.data(), self.6.data(), self.7.data(), self.8.data(), self.9.data(), self.10.data(), self.11.data(), self.12.data(), self.13.data(), self.14.data(), self.15.data(), self.16.data()]);
        }
        match tup.serialize_element(serializer, &self.17) {
            Ok(()) => {},
            Err(e) => {
                return Err(e);
            },
        }
        proof {
            assert(tup.value() == Data::Tuple(seq![self.0.data(), self.1.data(), self.2.data(), self.3.data(), self.4.data(), self.5.data(), self.6.data(), self.7.data(), self.8.data(), self.9.data(), self.10.data(), self.11.data(), self.12.data(), self.13.data(), self.14.data(), self.15.data(), self.16.data()]).with_element(self.17.data()));
            assert(seq![self.0.data(), self.1.data(), self.2.data(), self.3.data(), self.4.data(), self.5.data(), self.6.data(), self.7.data(), self.8.data(), self.9.data(), self.10.data(), self.11.data(), self.12.data(), self.13.data(), self.14.data(), self.15.data(), self.16.data()].push(self.17.data()) =~= seq![self.0.data(), self.1.data(), self.2.data(), self.3.data(), self.4.data(), self.5.data(), self.6.data(), self.7.data(), self.8.data(), self.9.data(), self.10.data(), self.11.data(), self.12.data(), self.13.data(), self.14.data(), self.15.data(), self.16.data(), self.17.data()]);
        }
        tup.end(serializer)
    }
}

/// A tuple of 19 is written as a tuple of its fields.
impl<S: Serializer, T1: Ser<S>, T2: Ser<S>, T3: Ser<S>, T4: Ser<S>, T5: Ser<S>, T6: Ser<S>, T7: Ser<S>, T8: Ser<S>, T9: Ser<S>, T10: Ser<S>, T11: Ser<S>, T12: Ser<S>, T13: Ser<S>, T14: Ser<S>, T15: Ser<S>, T16: Ser<S>, T17: Ser<S>, T18: Ser<S>, T19: Ser<S>> Ser<S> for (T1, T2, T3, T4, T5, T6, T7, T8, T9, T10, T11, T12, T13, T14, T15, T16, T17, T18, T19) {
    open spec fn data(&self) -> Data {
        Data::Tuple(seq![self.0.data(), self.1.data(), self.2.data(), self.3.data(), self.4.data(), self.5.data(), self.6.data(), self.7.data(), self.8.data(), self.9.data(), self.10.data(), self.11.data(), self.12.data(), self.13.data(), self.14.data(), self.15.data(), self.16.data(), self.17.data(), self.18.data()])
    }

    fn serialize(&self, serializer: &mut S) -> (r: Result<S::Ok, S::Error>) {
        let mut tup = match serializer.serialize_tuple(19) {
            Ok(state) => state,
            Err(e) => {
                return Err(e);
            },
        };
        match tup.serialize_element(serializer, &self.0) {
            Ok(()) => {},
            Err(e) => {
                return Err(e);
            },
        }
        proof {
            assert(tup.value() == Data::Tuple(Seq::<Data>::empty()).with_element(self.0.data()));
            assert(Seq::<Data>::empty().push(self.0.data()) =~= seq![self.0.data()]);
        }
        match tup.serialize_element(serializer, &self.1) {
            Ok(()) => {},
            Err(e) => {
                return Err(e);
            },
        }
        proof {
            assert(tup.value() == Data::Tuple(seq![self.0.data()]).with_element(self.1.data()));
            assert(seq![self.0.data()].push(self.1.data()) =~= seq![self.0.data(), self.1.data()]);
        }
        match tup.serialize_element(serializer, &self.2) {
            Ok(()) => {},
            Err(e) => {
                return Err(e);
            },
        }
        proof {
            assert(tup.value() == Data::Tuple(seq![self.0.data(), self.1.data()]).with_element(self.2.data()));
            assert(seq![self.0.data(), self.1.data()].push(self.2.data()) =~= seq![self.0.data(), self.1.data(), self.2.data()]);
        }
        match tup.serialize_element(serializer, &self.3) {
            Ok(()) => {},
            Err(e) => {
                return Err(e);
            },
        }
        proof {
            assert(tup.value() == Data::Tuple(seq![self.0.data(), self.1.data(), self.2.data()]).with_element(self.3.data()));
            assert(seq![self.0.data(), self.1.data(), self.2.data()].push(self.3.data()) =~= seq![self.0.data(), self.1.data(), self.2.data(), self.3.data()]);
        }
        match tup.serialize_element(serializer, &self.4) {
            Ok(()) => {},
            Err(e) => {
                return Err(e);
            },
        }
        proof {
            assert(tup.value() == Data::Tuple(seq![self.0.data(), self.1.data(), self.2.data(), self.3.data()]).with_element(self.4.data()));
            assert(seq![self.0.data(), self.1.data(), self.2.data(), self.3.data()].push(self.4.data()) =~= seq![self.0.data(), self.1.data(), self.2.data(), self.3.data(), self.4.data()]);
        }
        match tup.serialize_element(serializer, &self.5) {
            Ok(()) => {},
            Err(e) => {
                return Err(e);
            },
        }
        proof {
            assert(tup.value() == Data::Tuple(seq![self.0.data(), self.1.data(), self.2.data(), self.3.data(), self.4.data()]).with_element(self.5.data()));
            assert(seq![self.0.data(), self.1.data(), self.2.data(), self.3.data(), self.4.data()].push(self.5.data()) =~= seq![self.0.data(), self.1.data(), self.2.data(), self.3.data(), self.4.data(), self.5.data()]);
        }
        match tup.serialize_element(serializer, &self.6) {
            Ok(()) => {},
            Err(e) => {
                return Err(e);
            },
        }
        proof {
            assert(tup.value() == Data::Tuple(seq![self.0.data(), self.1.data(), self.2.data(), self.3.data(), self.4.data(), self.5.data()]).with_element(self.6.data()));
            assert(seq![self.0.data(), self.1.data(), self.2.data(), self.3.data(), self.4.data(), self.5.data()].push(self.6.data()) =~= seq![self.0.data(), self.1.data(), self.2.data(), self.3.data(), self.4.data(), self.5.data(), self.6.data()]);
        }
        match tup.serialize_element(serializer, &self.7) {
            Ok(()) => {},
            Err(e) => {
                return Err(e);
            },
        }
        proof {
            assert(tup.value() == Data::Tuple(seq![self.0.data(), self.1.data(), self.2.data(), self.3.data(), self.4.data(), self.5.data(), self.6.data()]).with_element(self.7.data()));
            assert(seq![self.0.data(), self.1.data(), self.2.data(), self.3.data(), self.4.data(), self.5.data(), self.6.data()].push(self.7.data()) =~= seq![self.0.data(), self.1.data(), self.2.data(), self.3.data(), self.4.data(), self.5.data(), self.6.data(), self.7.data()]);
        }
        match tup.serialize_element(serializer, &self.8) {
            Ok(()) => {},
            Err(e) => {
                return Err(e);
            },
        }
        proof {
            assert(tup.value() == Data::Tuple(seq![self.0.data(), self.1.data(), self.2.data(), self.3.data(), self.4.data(), self.5.data(), self.6.data(), self.7.data()]).with_element(self.8.data()));
            assert(seq![self.0.data(), self.1.data(), self.2.data(), self.3.data(), self.4.data(), self.5.data(), self.6.data(), self.7.data()].push(self.8.data()) =~= seq![self.0.data(), self.1.data(), self.2.data(), self.3.data(), self.4.data(), self.5.data(), self.6.data(), self.7.data(), self.8.data()]);
        }
        match tup.serialize_element(serializer, &self.9) {
            Ok(()) => {},
            Err(e) => {
                return Err(e);
            },
        }
        proof {
            assert(tup.value() == Data::Tuple(seq![self.0.data(), self.1.data(), self.2.data(), self.3.data(), self.4.data(), self.5.data(), self.6.data(), self.7.data(), self.8.data()]).with_element(self.9.data()));
            assert(seq![self.0.data(), self.1.data(), self.2.data(), self.3.data(), self.4.data(), self.5.data(), self.6.data(), self.7.data(), self.8.data()].push(self.9.data()) =~= seq![self.0.data(), self.1.data(), self.2.data(), self.3.data(), self.4.data(), self.5.data(), self.6.data(), self.7.data(), self.8.data(), self.9.data()]);
        }
        match tup.serialize_element(serializer, &self.10) {
            Ok(()) => {},
            Err(e) => {
                return Err(e);
            },
        }
        proof {
            assert(tup.value() == Data::Tuple(seq![self.0.data(), self.1.data(), self.2.data(), self.3.data(), self.4.data(), self.5.data(), self.6.data(), self.7.data(), self.8.data(), self.9.data()]).with_element(self.10.data()));
            assert(seq![self.0.data(), self.1.data(), self.2.data(), self.3.data(), self.4.data(), self.5.data(), self.6.data(), self.7.data(), self.8.data(), self.9.data()].push(self.10.data()) =~= seq![self.0.data(), self.1.data(), self.2.data(), self.3.data(), self.4.data(), self.5.data(), self.6.data(), self.7.data(), self.8.data(), self.9.data(), self.10.data()]);
        }
        match tup.serialize_element(serializer, &self.11) {
            Ok(()) => {},
            Err(e) => {
                return Err(e);
            },
        }
        proof {
            assert(tup.value() == Data::Tuple(seq![self.0.data(), self.1.data(), self.2.data(), self.3.data(), self.4.data(), self.5.data(), self.6.data(), self.7.data(), self.8.data(), self.9.data(), self.10.data()]).with_element(self.11.data()));
            assert(seq![self.0.data(), self.1.data(), self.2.data(), self.3.data(), self.4.data(), self.5.data(), self.6.data(), self.7.data(), self.8.data(), self.9.data(), self.10.data()].push(self.11.data()) =~= seq![self.0.data(), self.1.data(), self.2.data(), self.3.data(), self.4.data(), self.5.data(), self.6.data(), self.7.data(), self.8.data(), self.9.data(), self.10.data(), self.11.data()]);
        }
        match tup.serialize_element(serializer, &self.12) {
            Ok(()) => {},
            Err(e) => {
                return Err(e);
            },
        }
        proof {
            assert(tup.value() == Data::Tuple(seq![self.0.data(), self.1.data(), self.2.data(), self.3.data(), self.4.data(), self.5.data(), self.6.data(), self.7.data(), self.8.data(), self.9.data(), self.10.data(), self.11.data()]).with_element(self.12.data()));
            assert(seq![self.0.data(), self.1.data(), self.2.data(), self.3.data(), self.4.data(), self.5.data(), self.6.data(), self.7.data(), self.8.data(), self.9.data(), self.10.data(), self.11.data()].push(self.12.data()) =~= seq![self.0.data(), self.1.data(), self.2.data(), self.3.data(), self.4.data(), self.5.data(), self.6.data(), self.7.data(), self.8.data(), self.9.data(), self.10.data(), self.11.data(), self.12.data()]);
        }
        match tup.serialize_element(serializer, &self.13) {
            Ok(()) => {},
            Err(e) => {
                return Err(e);
            },
        }
        proof {
            assert(tup.value() == Data::Tuple(seq![self.0.data(), self.1.data(), self.2.data(), self.3.data(), self.4.data(), self.5.data(), self.6.data(), self.7.data(), self.8.data(), self.9.data(), self.10.data(), self.11.data(), self.12.data()]).with_element(self.13.data()));
            assert(seq![self.0.data(), self.1.data(), self.2.data(), self.3.data(), self.4.data(), self.5.data(), self.6.data(), self.7.data(), self.8.data(), self.9.data(), self.10.data(), self.11.data(), self.12.data()].push(self.13.data()) =~= seq![self.0.data(), self.1.data(), self.2.data(), self.3.data(), self.4.data(), self.5.data(), self.6.data(), self.7.data(), self.8.data(), self.9.data(), self.10.data(), self.11.data(), self.12.data(), self.13.data()]);
        }
        match tup.serialize_element(serializer, &self.14) {
            Ok(()) => {},
            Err(e) => {
                return Err(e);
            },
        }
        proof {
            assert(tup.value() == Data::Tuple(seq![self.0.data(), self.1.data(), self.2.data(), self.3.data(), self.4.data(), self.5.data(), self.6.data(), self.7.data(), self.8.data(), self.9.data(), self.10.data(), self.11.data(), self.12.data(), self.13.data()]).with_element(self.14.data()));
            assert(seq![self.0.data(), self.1.data(), self.2.data(), self.3.data(), self.4.data(), self.5.data(), self.6.data(), self.7.data(), self.8.data(), self.9.data(), self.10.data(), self.11.data(), self.12.data(), self.13.data()].push(self.14.data()) =~= seq![self.0.data(), self.1.data(), self.2.data(), self.3.data(), self.4.data(), self.5.data(), self.6.data(), self.7.data(), self.8.data(), self.9.data(), self.10.data(), self.11.data(), self.12.data(), self.13.data(), self.14.data()]);
        }
        match tup.serialize_element(serializer, &self.15) {
            Ok(()) => {},
            Err(e) => {
                return Err(e);
            },
        }
        proof {
            assert(tup.value() == Data::Tuple(seq![self.0.data(), self.1.data(), self.2.data(), self.3.data(), self.4.data(), self.5.data(), self.6.data(), self.7.data(), self.8.data(), self.9.data(), self.10.data(), self.11.data(), self.12.data(), self.13.data(), self.14.data()]).with_element(self.15.data()));
            assert(seq![self.0.data(), self.1.data(), self.2.data(), self.3.data(), self.4.data(), self.5.data(), self.6.data(), self.7.data(), self.8.data(), self.9.data(), self.10.data(), self.11.data(), self.12.data(), self.13.data(), self.14.data()].push(self.15.data()) =~= seq![self.0.data(), self.1.data(), self.2.data(), self.3.data(), self.4.data(), self.5.data(), self.6.data(), self.7.data(), self.8.data(), self.9.data(), self.10.data(), self.11.data(), self.12.data(), self.13.data(), self.14.data(), self.15.data()]);
        }
        match tup.serialize_element(serializer, &self.16) {
            Ok(()) => {},
            Err(e) => {
                return Err(e);
            },
        }
        proof {
            assert(tup.value() == Data::Tuple(seq![self.0.data(), self.1.data(), self.2.data(), self.3.data(), self.4.data(), self.5.data(), self.6.data(), self.7.data(), self.8.data(), self.9.data(), self.10.data(), self.11.data(), self.12.data(), self.13.data(), self.14.data(), self.15.data()]).with_element(self.16.data()));
            assert(seq![self.0.data(), self.1.data(), self.2.data(), self.3.data(), self.4.data(), self.5.data(), self.6.data(), self.7.data(), self.8.data(), self.9.data(), self.10.data(), self.11.data(), self.12.data(), self.13.data(), self.14.data(), self.15.data()].push(self.16.data()) =~= seq![self.0.data(), self.1.data(), self.2.data(), self.3.data(), self.4.data(), self.5.data(), self.6.data(), self.7.data(), self.8.data(), self.9.data(), self.10.data(), self.11.data(), self.12.data(), self.13.data(), self.14.data(), self.15.data(), self.16.data()]);
        }
        match tup.serialize_element(serializer, &self.17) {
            Ok(()) => {},
            Err(e) => {
                return Err(e);
            },
        }
        proof {
            assert(tup.value() == Data::Tuple(seq![self.0.data(), self.1.data(), self.2.data(), self.3.data(), self.4.data(), self.5.data(), self.6.data(), self.7.data(), self.8.data(), self.9.data(), self.10.data(), self.11.data(), self.12.data(), self.13.data(), self.14.data(), self.15.data(), self.16.data()]).with_element(self.17.data()));
            assert(seq![self.0.data(), self.1.data(), self.2.data(), self.3.data(), self.4.data(), self.5.data(), self.6.data(), self.7.data(), self.8.data(), self.9.data(), self.10.data(), self.11.data(), self.12.data(), self.13.data(), self.14.data(), self.15.data(), self.16.data()].push(self.17.data()) =~= seq![self.0.data(), self.1.data(), self.2.data(), self.3.data(), self.4.data(), self.5.data(), self.6.data(), self.7.data(), self.8.data(), self.9.data(), self.10.data(), self.11.data(), self.12.data(), self.13.data(), self.14.data(), self.15.data(), self.16.data(), self.17.data()]);
        }
        match tup.serialize_element(serializer, &self.18) {
            Ok(()) => {},
            Err(e) => {
                return Err(e);
            },
        }
        proof {
            assert(tup.value() == Data::Tuple(seq![self.0.data(), self.1.data(), self.2.data(), self.3.data(), self.4.data(), self.5.data(), self.6.data(), self.7.data(), self.8.data(), self.9.data(), self.10.data(), self.11.data(), self.12.data(), self.13.data(), self.14.data(), self.15.data(), self.16.data(), self.17.data()]).with_element(self.18.data()));
            assert(seq![self.0.data(), self.1.data(), self.2.data(), self.3.data(), self.4.data(), self.5.data(), self.6.data(), self.7.data(), self.8.data(), self.9.data(), self.10.data(), self.11.data(), self.12.data(), self.13.data(), self.14.data(), self.15.data(), self.16.data(), self.17.data()].push(self.18.data()) =~= seq![self.0.data(), self.1.data(), self.2.data(), self.3.data(), self.4.data(), self.5.data(), self.6.data(), self.7.data(), self.8.data(), self.9.data(), self.10.data(), self.11.data(), self.12.data(), self.13.data(), self.14.data(), self.15.data(), self.16.data(), self.17.data(), self.18.data()]);
        }
        tup.end(serializer)
    }
}

/// A tuple of 20 is written as a tuple of its fields.
impl<S: Serializer, T1: Ser<S>, T2: Ser<S>, T3: Ser<S>, T4: Ser<S>, T5: Ser<S>, T6: Ser<S>, T7: Ser<S>, T8: Ser<S>, T9: Ser<S>, T10: Ser<S>, T11: Ser<S>, T12: Ser<S>, T13: Ser<S>, T14: Ser<S>, T15: Ser<S>, T16: Ser<S>, T17: Ser<S>, T18: Ser<S>, T19: Ser<S>, T20: Ser<S>> Ser<S> for (T1, T2, T3, T4, T5, T6, T7, T8, T9, T10, T11, T12, T13, T14, T15, T16, T17, T18, T19, T20) {
    open spec fn data(&self) -> Data {
        Data::Tuple(seq![self.0.data(), self.1.data(), self.2.data(), self.3.data(), self.4.data(), self.5.data(), self.6.data(), self.7.data(), self.8.data(), self.9.data(), self.10.data(), self.11.data(), self.12.data(), self.13.data(), self.14.data(), self.15.data(), self.16.data(), self.17.data(), self.18.data(), self.19.data()])
    }

    fn serialize(&self, serializer: &mut S) -> (r: Result<S::Ok, S::Error>) {
        let mut tup = match serializer.serialize_tuple(20) {
            Ok(state) => state,
            Err(e) => {
                return Err(e);
            },
        };
        match tup.serialize_element(serializer, &self.0) {
            Ok(()) => {},
            Err(e) => {
                return Err(e);
            },
        }
        proof {
            assert(tup.value() == Data::Tuple(Seq::<Data>::empty()).with_element(self.0.data()));
            assert(Seq::<Data>::empty().push(self.0.data()) =~= seq![self.0.data()]);
        }
        match tup.serialize_element(serializer, &self.1) {
            Ok(()) => {},
            Err(e) => {
                return Err(e);
            },
        }
        proof {
            assert(tup.value() == Data::Tuple(seq![self.0.data()]).with_element(self.1.data()));
            assert(seq![self.0.data()].push(self.1.data()) =~= seq![self.0.data(), self.1.data()]);
        }
        match tup.serialize_element(serializer, &self.2) {
            Ok(()) => {},
            Err(e) => {
                return Err(e);
            },
        }
        proof {
            assert(tup.value() == Data::Tuple(seq![self.0.data(), self.1.data()]).with_element(self.2.data()));
            assert(seq![self.0.data(), self.1.data()].push(self.2.data()) =~= seq![self.0.data(), self.1.data(), self.2.data()]);
        }
        match tup.serialize_element(serializer, &self.3) {
            Ok(()) => {},
            Err(e) => {
                return Err(e);
            },
        }
        proof {
            assert(tup.value() == Data::Tuple(seq![self.0.data(), self.1.data(), self.2.data()]).with_element(self.3.data()));
            assert(seq![self.0.data(), self.1.data(), self.2.data()].push(self.3.data()) =~= seq![self.0.data(), self.1.data(), self.2.data(), self.3.data()]);
        }
        match tup.serialize_element(serializer, &self.4) {
            Ok(()) => {},
            Err(e) => {
                return Err(e);
            },
        }
        proof {
            assert(tup.value() == Data::Tuple(seq![self.0.data(), self.1.data(), self.2.data(), self.3.data()]).with_element(self.4.data()));
            assert(seq![self.0.data(), self.1.data(), self.2.data(), self.3.data()].push(self.4.data()) =~= seq![self.0.data(), self.1.data(), self.2.data(), self.3.data(), self.4.data()]);
        }
        match tup.serialize_element(serializer, &self.5) {
            Ok(()) => {},
            Err(e) => {
                return Err(e);
            },
        }
        proof {
            assert(tup.value() == Data::Tuple(seq![self.0.data(), self.1.data(), self.2.data(), self.3.data(), self.4.data()]).with_element(self.5.data()));
            assert(seq![self.0.data(), self.1.data(), self.2.data(), self.3.data(), self.4.data()].push(self.5.data()) =~= seq![self.0.data(), self.1.data(), self.2.data(), self.3.data(), self.4.data(), self.5.data()]);
        }
        match tup.serialize_element(serializer, &self.6) {
            Ok(()) => {},
            Err(e) => {
                return Err(e);
            },
        }
        proof {
            assert(tup.value() == Data::Tuple(seq![self.0.data(), self.1.data(), self.2.data(), self.3.data(), self.4.data(), self.5.data()]).with_element(self.6.data()));
            assert(seq![self.0.data(), self.1.data(), self.2.data(), self.3.data(), self.4.data(), self.5.data()].push(self.6.data()) =~= seq![self.0.data(), self.1.data(), self.2.data(), self.3.data(), self.4.data(), self.5.data(), self.6.data()]);
        }
        match tup.serialize_element(serializer, &self.7) {
            Ok(()) => {},
            Err(e) => {
                return Err(e);
            },
        }
        proof {
            assert(tup.value() == Data::Tuple(seq![self.0.data(), self.1.data(), self.2.data(), self.3.data(), self.4.data(), self.5.data(), self.6.data()]).with_element(self.7.data()));
            assert(seq![self.0.data(), self.1.data(), self.2.data(), self.3.data(), self.4.data(), self.5.data(), self.6.data()].push(self.7.data()) =~= seq![self.0.data(), self.1.data(), self.2.data(), self.3.data(), self.4.data(), self.5.data(), self.6.data(), self.7.data()]);
        }
        match tup.serialize_element(serializer, &self.8) {
            Ok(()) => {},
            Err(e) => {
                return Err(e);
            },
        }
        proof {
            assert(tup.value() == Data::Tuple(seq![self.0.data(), self.1.data(), self.2.data(), self.3.data(), self.4.data(), self.5.data(), self.6.data(), self.7.data()]).with_element(self.8.data()));
            assert(seq![self.0.data(), self.1.data(), self.2.data(), self.3.data(), self.4.data(), self.5.data(), self.6.data(), self.7.data()].push(self.8.data()) =~= seq![self.0.data(), self.1.data(), self.2.data(), self.3.data(), self.4.data(), self.5.data(), self.6.data(), self.7.data(), self.8.data()]);
        }
        match tup.serialize_element(serializer, &self.9) {
            Ok(()) => {},
            Err(e) => {
                return Err(e);
            },
        }
        proof {
            assert(tup.value() == Data::Tuple(seq![self.0.data(), self.1.data(), self.2.data(), self.3.data(), self.4.data(), self.5.data(), self.6.data(), self.7.data(), self.8.data()]).with_element(self.9.data()));
            assert(seq![self.0.data(), self.1.data(), self.2.data(), self.3.data(), self.4.data(), self.5.data(), self.6.data(), self.7.data(), self.8.data()].push(self.9.data()) =~= seq![self.0.data(), self.1.data(), self.2.data(), self.3.data(), self.4.data(), self.5.data(), self.6.data(), self.7.data(), self.8.data(), self.9.data()]);
        }
        match tup.serialize_element(serializer, &self.10) {
            Ok(()) => {},
            Err(e) => {
                return Err(e);
            },
        }
        proof {
            assert(tup.value() == Data::Tuple(seq![self.0.data(), self.1.data(), self.2.data(), self.3.data(), self.4.data(), self.5.data(), self.6.data(), self.7.data(), self.8.data(), self.9.data()]).with_element(self.10.data()));
            assert(seq![self.0.data(), self.1.data(), self.2.data(), self.3.data(), self.4.data(), self.5.data(), self.6.data(), self.7.data(), self.8.data(), self.9.data()].push(self.10.data()) =~= seq![self.0.data(), self.1.data(), self.2.data(), self.3.data(), self.4.data(), self.5.data(), self.6.data(), self.7.data(), self.8.data(), self.9.data(), self.10.data()]);
        }
        match tup.serialize_element(serializer, &self.11) {
            Ok(()) => {},
            Err(e) => {
                return Err(e);
            },
        }
        proof {
            assert(tup.value() == Data::Tuple(seq![self.0.data(), self.1.data(), self.2.data(), self.3.data(), self.4.data(), self.5.data(), self.6.data(), self.7.data(), self.8.data(), self.9.data(), self.10.data()]).with_element(self.11.data()));
            assert(seq![self.0.data(), self.1.data(), self.2.data(), self.3.data(), self.4.data(), self.5.data(), self.6.data(), self.7.data(), self.8.data(), self.9.data(), self.10.data()].push(self.11.data()) =~= seq![self.0.data(), self.1.data(), self.2.data(), self.3.data(), self.4.data(), self.5.data(), self.6.data(), self.7.data(), self.8.data(), self.9.data(), self.10.data(), self.11.data()]);
        }
        match tup.serialize_element(serializer, &self.12) {
            Ok(()) => {},
            Err(e) => {
                return Err(e);
            },
        }
        proof {
            assert(tup.value() == Data::Tuple(seq![self.0.data(), self.1.data(), self.2.data(), self.3.data(), self.4.data(), self.5.data(), self.6.data(), self.7.data(), self.8.data(), self.9.data(), self.10.data(), self.11.data()]).with_element(self.12.data()));
            assert(seq![self.0.data(), self.1.data(), self.2.data(), self.3.data(), self.4.data(), self.5.data(), self.6.data(), self.7.data(), self.8.data(), self.9.data(), self.10.data(), self.11.data()].push(self.12.data()) =~= seq![self.0.data(), self.1.data(), self.2.data(), self.3.data(), self.4.data(), self.5.data(), self.6.data(), self.7.data(), self.8.data(), self.9.data(), self.10.data(), self.11.data(), self.12.data()]);
        }
        match tup.serialize_element(serializer, &self.13) {
            Ok(()) => {},
            Err(e) => {
                return Err(e);
            },
        }
        proof {
            assert(tup.value() == Data::Tuple(seq![self.0.data(), self.1.data(), self.2.data(), self.3.data(), self.4.data(), self.5.data(), self.6.data(), self.7.data(), self.8.data(), self.9.data(), self.10.data(), self.11.data(), self.12.data()]).with_element(self.13.data()));
            assert(seq![self.0.data(), self.1.data(), self.2.data(), self.3.data(), self.4.data(), self.5.data(), self.6.data(), self.7.data(), self.8.data(), self.9.data(), self.10.data(), self.11.data(), self.12.data()].push(self.13.data()) =~= seq![self.0.data(), self.1.data(), self.2.data(), self.3.data(), self.4.data(), self.5.data(), self.6.data(), self.7.data(), self.8.data(), self.9.data(), self.10.data(), self.11.data(), self.12.data(), self.13.data()]);
        }
        match tup.serialize_element(serializer, &self.14) {
            Ok(()) => {},
            Err(e) => {
                return Err(e);
            },
        }
        proof {
            assert(tup.value() == Data::Tuple(seq![self.0.data(), self.1.data(), self.2.data(), self.3.data(), self.4.data(), self.5.data(), self.6.data(), self.7.data(), self.8.data(), self.9.data(), self.10.data(), self.11.data(), self.12.data(), self.13.data()]).with_element(self.14.data()));
            assert(seq![self.0.data(), self.1.data(), self.2.data(), self.3.data(), self.4.data(), self.5.data(), self.6.data(), self.7.data(), self.8.data(), self.9.data(), self.10.data(), self.11.data(), self.12.data(), self.13.data()].push(self.14.data()) =~= seq![self.0.data(), self.1.data(), self.2.data(), self.3.data(), self.4.data(), self.5.data(), self.6.data(), self.7.data(), self.8.data(), self.9.data(), self.10.data(), self.11.data(), self.12.data(), self.13.data(), self.14.data()]);
        }
        match tup.serialize_element(serializer, &self.15) {
            Ok(()) => {},
            Err(e) => {
                return Err(e);
            },
        }
        proof {
            assert(tup.value() == Data::Tuple(seq![self.0.data(), self.1.data(), self.2.data(), self.3.data(), self.4.data(), self.5.data(), self.6.data(), self.7.data(), self.8.data(), self.9.data(), self.10.data(), self.11.data(), self.12.data(), self.13.data(), self.14.data()]).with_element(self.15.data()));
            assert(seq![self.0.data(), self.1.data(), self.2.data(), self.3.data(), self.4.data(), self.5.data(), self.6.data(), self.7.data(), self.8.data(), self.9.data(), self.10.data(), self.11.data(), self.12.data(), self.13.data(), self.14.data()].push(self.15.data()) =~= seq![self.0.data(), self.1.data(), self.2.data(), self.3.data(), self.4.data(), self.5.data(), self.6.data(), self.7.data(), self.8.data(), self.9.data(), self.10.data(), self.11.data(), self.12.data(), self.13.data(), self.14.data(), self.15.data()]);
        }
        match tup.serialize_element(serializer, &self.16) {
            Ok(()) => {},
            Err(e) => {
                return Err(e);
            },
        }
        proof {
            assert(tup.value() == Data::Tuple(seq![self.0.data(), self.1.data(), self.2.data(), self.3.data(), self.4.data(), self.5.data(), self.6.data(), self.7.data(), self.8.data(), self.9.data(), self.10.data(), self.11.data(), self.12.data(), self.13.data(), self.14.data(), self.15.data()]).with_element(self.16.data()));
            assert(seq![self.0.data(), self.1.data(), self.2.data(), self.3.data(), self.4.data(), self.5.data(), self.6.data(), self.7.data(), self.8.data(), self.9.data(), self.10.data(), self.11.data(), self.12.data(), self.13.data(), self.14.data(), self.15.data()].push(self.16.data()) =~= seq![self.0.data(), self.1.data(), self.2.data(), self.3.data(), self.4.data(), self.5.data(), self.6.data(), self.7.data(), self.8.data(), self.9.data(), self.10.data(), self.11.data(), self.12.data(), self.13.data(), self.14.data(), self.15.data(), self.16.data()]);
        }
        match tup.serialize_element(serializer, &self.17) {
            Ok(()) => {},
            Err(e) => {
                return Err(e);
            },
        }
        proof {
            assert(tup.value() == Data::Tuple(seq![self.0.data(), self.1.data(), self.2.data(), self.3.data(), self.4.data(), self.5.data(), self.6.data(), self.7.data(), self.8.data(), self.9.data(), self.10.data(), self.11.data(), self.12.data(), self.13.data(), self.14.data(), self.15.data(), self.16.data()]).with_element(self.17.data()));
            assert(seq![self.0.data(), self.1.data(), self.2.data(), self.3.data(), self.4.data(), self.5.data(), self.6.data(), self.7.data(), self.8.data(), self.9.data(), self.10.data(), self.11.data(), self.12.data(), self.13.data(), self.14.data(), self.15.data(), self.16.data()].push(self.17.data()) =~= seq![self.0.data(), self.1.data(), self.2.data(), self.3.data(), self.4.data(), self.5.data(), self.6.data(), self.7.data(), self.8.data(), self.9.data(), self.10.data(), self.11.data(), self.12.data(), self.13.data(), self.14.data(), self.15.data(), self.16.data(), self.17.data()]);
        }
        match tup.serialize_element(serializer, &self.18) {
            Ok(()) => {},
            Err(e) => {
                return Err(e);
            },
        }
        proof {
            assert(tup.value() == Data::Tuple(seq![self.0.data(), self.1.data(), self.2.data(), self.3.data(), self.4.data(), self.5.data(), self.6.data(), self.7.data(), self.8.data(), self.9.data(), self.10.data(), self.11.data(), self.12.data(), self.13.data(), self.14.data(), self.15.data(), self.16.data(), self.17.data()]).with_element(self.18.data()));
            assert(seq![self.0.data(), self.1.data(), self.2.data(), self.3.data(), self.4.data(), self.5.data(), self.6.data(), self.7.data(), self.8.data(), self.9.data(), self.10.data(), self.11.data(), self.12.data(), self.13.data(), self.14.data(), self.15.data(), self.16.data(), self.17.data()].push(self.18.data()) =~= seq![self.0.data(), self.1.data(), self.2.data(), self.3.data(), self.4.data(), self.5.data(), self.6.data(), self.7.data(), self.8.data(), self.9.data(), self.10.data(), self.11.data(), self.12.data(), self.13.data(), self.14.data(), self.15.data(), self.16.data(), self.17.data(), self.18.data()]);
        }
        match tup.serialize_element(serializer, &self.19) {
            Ok(()) => {},
            Err(e) => {
                return Err(e);
            },
        }
        proof {
            assert(tup.value() == Data::Tuple(seq![self.0.data(), self.1.data(), self.2.data(), self.3.data(), self.4.data(), self.5.data(), self.6.data(), self.7.data(), self.8.data(), self.9.data(), self.10.data(), self.11.data(), self.12.data(), self.13.data(), self.14.data(), self.15.data(), self.16.data(), self.17.data(), self.18.data()]).with_element(self.19.data()));
            assert(seq![self.0.data(), self.1.data(), self.2.data(), self.3.data(), self.4.data(), self.5.data(), self.6.data(), self.7.data(), self.8.data(), self.9.data(), self.10.data(), self.11.data(), self.12.data(), self.13.data(), self.14.data(), self.15.data(), self.16.data(), self.17.data(), self.18.data()].push(self.19.data()) =~= seq![self.0.data(), self.1.data(), self.2.data(), self.3.data(), self.4.data(), self.5.data(), self.6.data(), self.7.data(), self.8.data(), self.9.data(), self.10.data(), self.11.data(), self.12.data(), self.13.data(), self.14.data(), self.15.data(), self.16.data(), self.17.data(), self.18.data(), self.19.data()]);
        }
        tup.end(serializer)
    }
}

} // verus!
