//! What each standard value is written as, stated over its own contents:
//! integers read back as themselves, strings read back as themselves, and
//! slices, vectors, arrays, queues and tuples are written with every item
//! once, in order.
use std::borrow::Cow;
use std::collections::VecDeque;
use std::mem::ManuallyDrop;
use std::rc::Rc;
use std::sync::Arc;

use vstd::prelude::*;
use vstd::std_specs::manually_drop::ManuallyDropAdditionalFns;

use crate::data::Data;
use crate::json_text::{digits, json_text};
use crate::laws::{
    decimal_value, digits_value, json_string_body, law_decimal_reads_back, law_string_literal,
    law_unescape_escaped, lemma_digits_value, unescaped,
};
use crate::{Ser, Serializer};

verus! {

/// An integer of any width is written as the decimal text of its own value:
/// that text reads back as the integer.
pub proof fn law_integers_read_back<S: Serializer>(
    a: i8,
    b: i16,
    c: i32,
    d: i64,
    e: i128,
    f: isize,
    g: u8,
    h: u16,
    i: u32,
    j: u64,
    k: u128,
    l: usize,
)
    ensures
        decimal_value(json_text(Ser::<S>::data(&a))) == a as int,
        decimal_value(json_text(Ser::<S>::data(&b))) == b as int,
        decimal_value(json_text(Ser::<S>::data(&c))) == c as int,
        decimal_value(json_text(Ser::<S>::data(&d))) == d as int,
        decimal_value(json_text(Ser::<S>::data(&e))) == e as int,
        decimal_value(json_text(Ser::<S>::data(&f))) == f as int,
        decimal_value(json_text(Ser::<S>::data(&g))) == g as int,
        decimal_value(json_text(Ser::<S>::data(&h))) == h as int,
        decimal_value(json_text(Ser::<S>::data(&i))) == i as int,
        decimal_value(json_text(Ser::<S>::data(&j))) == j as int,
        decimal_value(json_text(Ser::<S>::data(&k))) == k as int,
        decimal_value(json_text(Ser::<S>::data(&l))) == l as int,
{
    law_decimal_reads_back(a as int);
    law_decimal_reads_back(b as int);
    law_decimal_reads_back(c as int);
    law_decimal_reads_back(d as int);
    law_decimal_reads_back(e as int);
    law_decimal_reads_back(f as int);
    law_decimal_reads_back(g as int);
    law_decimal_reads_back(h as int);
    law_decimal_reads_back(i as int);
    law_decimal_reads_back(j as int);
    law_decimal_reads_back(k as int);
    law_decimal_reads_back(l as int);
}

/// A text is a JSON string literal that reads back as `s`: quotes around
/// characters that may stand in a JSON string and that unescape to `s`.
pub open spec fn reads_back_as_string(t: Seq<char>, s: Seq<char>) -> bool {
    &&& t.len() >= 2
    &&& t[0] == '"'
    &&& t.last() == '"'
    &&& json_string_body(t.subrange(1, t.len() - 1))
    &&& unescaped(t.subrange(1, t.len() - 1)) == s
}

/// The written text of a string is a JSON string literal that reads back as
/// that string.
proof fn lemma_string_reads_back(s: Seq<char>)
    ensures
        reads_back_as_string(json_text(Data::Str(s)), s),
{
    law_string_literal(s);
    law_unescape_escaped(s);
    let t = json_text(Data::Str(s));
    assert(t.subrange(1, t.len() - 1) =~= crate::json_text::escaped(s));
}

/// Strings, string slices, copy-on-write strings and characters are written
/// as JSON string literals that read back as exactly what was written.
pub proof fn law_strings_read_back<S: Serializer>(s: &str, t: String, w: Cow<str>, c: char)
    ensures
        reads_back_as_string(json_text(Ser::<S>::data(s)), s@),
        reads_back_as_string(json_text(Ser::<S>::data(&t)), t@),
        reads_back_as_string(json_text(Ser::<S>::data(&w)), w@),
        reads_back_as_string(json_text(Ser::<S>::data(&c)), seq![c]),
{
    lemma_string_reads_back(s@);
    lemma_string_reads_back(t@);
    lemma_string_reads_back(w@);
    lemma_string_reads_back(seq![c]);
}

/// `true` and `false` are written as the JSON literals `true` and `false`.
pub proof fn law_bools_written<S: Serializer>()
    ensures
        json_text(Ser::<S>::data(&true)) == seq!['t', 'r', 'u', 'e'],
        json_text(Ser::<S>::data(&false)) == seq!['f', 'a', 'l', 's', 'e'],
{
}

/// A value is a sequence holding, in order, the values of all `items`.
pub open spec fn lists_all<S: Serializer, T: Ser<S>>(d: Data, items: Seq<T>) -> bool {
    &&& d is Sequence
    &&& d->Sequence_0.len() == items.len()
    &&& forall|i: int| 0 <= i < items.len() ==> d->Sequence_0[i] == #[trigger] items[i].data()
}

/// A slice, a vector, an array, a double-ended queue and a copy-on-write
/// slice are written as sequences holding every item once, in order: as
/// many elements as items, the `i`-th being the `i`-th item's value.
pub proof fn law_sequences_list_all<S: Serializer, T: Ser<S> + Clone, const N: usize>(
    s: &[T],
    v: Vec<T>,
    a: [T; N],
    q: VecDeque<T>,
    w: Cow<[T]>,
)
    ensures
        lists_all::<S, T>(Ser::<S>::data(s), s@),
        lists_all::<S, T>(Ser::<S>::data(&v), v@),
        lists_all::<S, T>(Ser::<S>::data(&a), a@),
        lists_all::<S, T>(Ser::<S>::data(&q), q@),
        w matches Cow::Borrowed(b) ==> lists_all::<S, T>(Ser::<S>::data(&w), b@),
        w matches Cow::Owned(o) ==> lists_all::<S, T>(Ser::<S>::data(&w), o@),
{
}

/// The unit value is written as a tuple without fields.
pub proof fn law_unit_is_empty_tuple<S: Serializer>()
    ensures
        Ser::<S>::data(&()) is Tuple,
        Ser::<S>::data(&())->Tuple_0.len() == 0,
{
}

/// References and smart pointers are written as what they point to.
pub proof fn law_pointers_transparent<S: Serializer, T: Ser<S>>(
    x: T,
    r: Rc<T>,
    a: Arc<T>,
    m: ManuallyDrop<T>,
)
    ensures
        Ser::<S>::data(&&x) == x.data(),
        Ser::<S>::data(&Box::new(x)) == x.data(),
        Ser::<S>::data(&r) == (*r).data(),
        Ser::<S>::data(&a) == (*a).data(),
        Ser::<S>::data(&m) == m.view_ref().data(),
        Ser::<S>::data(&Some(x)) is SomeValue,
        json_text(Ser::<S>::data(&Some(x))) == json_text(x.data()),
        json_text(Ser::<S>::data(&None::<T>)) == seq!['n', 'u', 'l', 'l'],
{
}

/// A tuple of 1 is written as a tuple of its 1 field, in order.
pub proof fn law_tuple1_fields<S: Serializer, T1: Ser<S>>(t: &(T1,))
    ensures
        Ser::<S>::data(t) is Tuple,
        Ser::<S>::data(t)->Tuple_0.len() == 1,
        Ser::<S>::data(t)->Tuple_0[0] == t.0.data(),
{
}

/// A tuple of 2 is written as a tuple of its 2 fields, in order.
pub proof fn law_tuple2_fields<S: Serializer, T1: Ser<S>, T2: Ser<S>>(t: &(T1, T2))
    ensures
        Ser::<S>::data(t) is Tuple,
        Ser::<S>::data(t)->Tuple_0.len() == 2,
        Ser::<S>::data(t)->Tuple_0[0] == t.0.data(),
        Ser::<S>::data(t)->Tuple_0[1] == t.1.data(),
{
}

/// A tuple of 3 is written as a tuple of its 3 fields, in order.
pub proof fn law_tuple3_fields<S: Serializer, T1: Ser<S>, T2: Ser<S>, T3: Ser<S>>(t: &(T1, T2, T3))
    ensures
        Ser::<S>::data(t) is Tuple,
        Ser::<S>::data(t)->Tuple_0.len() == 3,
        Ser::<S>::data(t)->Tuple_0[0] == t.0.data(),
        Ser::<S>::data(t)->Tuple_0[1] == t.1.data(),
        Ser::<S>::data(t)->Tuple_0[2] == t.2.data(),
{
}

/// A tuple of 4 is written as a tuple of its 4 fields, in order.
pub proof fn law_tuple4_fields<S: Serializer, T1: Ser<S>, T2: Ser<S>, T3: Ser<S>, T4: Ser<S>>(t: &(T1, T2, T3, T4))
    ensures
        Ser::<S>::data(t) is Tuple,
        Ser::<S>::data(t)->Tuple_0.len() == 4,
        Ser::<S>::data(t)->Tuple_0[0] == t.0.data(),
        Ser::<S>::data(t)->Tuple_0[1] == t.1.data(),
        Ser::<S>::data(t)->Tuple_0[2] == t.2.data(),
        Ser::<S>::data(t)->Tuple_0[3] == t.3.data(),
{
}

/// A tuple of 5 is written as a tuple of its 5 fields, in order.
pub proof fn law_tuple5_fields<S: Serializer, T1: Ser<S>, T2: Ser<S>, T3: Ser<S>, T4: Ser<S>, T5: Ser<S>>(t: &(T1, T2, T3, T4, T5))
    ensures
        Ser::<S>::data(t) is Tuple,
        Ser::<S>::data(t)->Tuple_0.len() == 5,
        Ser::<S>::data(t)->Tuple_0[0] == t.0.data(),
        Ser::<S>::data(t)->Tuple_0[1] == t.1.data(),
        Ser::<S>::data(t)->Tuple_0[2] == t.2.data(),
        Ser::<S>::data(t)->Tuple_0[3] == t.3.data(),
        Ser::<S>::data(t)->Tuple_0[4] == t.4.data(),
{
}

/// A tuple of 6 is written as a tuple of its 6 fields, in order.
pub proof fn law_tuple6_fields<S: Serializer, T1: Ser<S>, T2: Ser<S>, T3: Ser<S>, T4: Ser<S>, T5: Ser<S>, T6: Ser<S>>(t: &(T1, T2, T3, T4, T5, T6))
    ensures
        Ser::<S>::data(t) is Tuple,
        Ser::<S>::data(t)->Tuple_0.len() == 6,
        Ser::<S>::data(t)->Tuple_0[0] == t.0.data(),
        Ser::<S>::data(t)->Tuple_0[1] == t.1.data(),
        Ser::<S>::data(t)->Tuple_0[2] == t.2.data(),
        Ser::<S>::data(t)->Tuple_0[3] == t.3.data(),
        Ser::<S>::data(t)->Tuple_0[4] == t.4.data(),
        Ser::<S>::data(t)->Tuple_0[5] == t.5.data(),
{
}

/// A tuple of 7 is written as a tuple of its 7 fields, in order.
pub proof fn law_tuple7_fields<S: Serializer, T1: Ser<S>, T2: Ser<S>, T3: Ser<S>, T4: Ser<S>, T5: Ser<S>, T6: Ser<S>, T7: Ser<S>>(t: &(T1, T2, T3, T4, T5, T6, T7))
    ensures
        Ser::<S>::data(t) is Tuple,
        Ser::<S>::data(t)->Tuple_0.len() == 7,
        Ser::<S>::data(t)->Tuple_0[0] == t.0.data(),
        Ser::<S>::data(t)->Tuple_0[1] == t.1.data(),
        Ser::<S>::data(t)->Tuple_0[2] == t.2.data(),
        Ser::<S>::data(t)->Tuple_0[3] == t.3.data(),
        Ser::<S>::data(t)->Tuple_0[4] == t.4.data(),
        Ser::<S>::data(t)->Tuple_0[5] == t.5.data(),
        Ser::<S>::data(t)->Tuple_0[6] == t.6.data(),
{
}

/// A tuple of 8 is written as a tuple of its 8 fields, in order.
pub proof fn law_tuple8_fields<S: Serializer, T1: Ser<S>, T2: Ser<S>, T3: Ser<S>, T4: Ser<S>, T5: Ser<S>, T6: Ser<S>, T7: Ser<S>, T8: Ser<S>>(t: &(T1, T2, T3, T4, T5, T6, T7, T8))
    ensures
        Ser::<S>::data(t) is Tuple,
        Ser::<S>::data(t)->Tuple_0.len() == 8,
        Ser::<S>::data(t)->Tuple_0[0] == t.0.data(),
        Ser::<S>::data(t)->Tuple_0[1] == t.1.data(),
        Ser::<S>::data(t)->Tuple_0[2] == t.2.data(),
        Ser::<S>::data(t)->Tuple_0[3] == t.3.data(),
        Ser::<S>::data(t)->Tuple_0[4] == t.4.data(),
        Ser::<S>::data(t)->Tuple_0[5] == t.5.data(),
        Ser::<S>::data(t)->Tuple_0[6] == t.6.data(),
        Ser::<S>::data(t)->Tuple_0[7] == t.7.data(),
{
}

/// A tuple of 9 is written as a tuple of its 9 fields, in order.
pub proof fn law_tuple9_fields<S: Serializer, T1: Ser<S>, T2: Ser<S>, T3: Ser<S>, T4: Ser<S>, T5: Ser<S>, T6: Ser<S>, T7: Ser<S>, T8: Ser<S>, T9: Ser<S>>(t: &(T1, T2, T3, T4, T5, T6, T7, T8, T9))
    ensures
        Ser::<S>::data(t) is Tuple,
        Ser::<S>::data(t)->Tuple_0.len() == 9,
        Ser::<S>::data(t)->Tuple_0[0] == t.0.data(),
        Ser::<S>::data(t)->Tuple_0[1] == t.1.data(),
        Ser::<S>::data(t)->Tuple_0[2] == t.2.data(),
        Ser::<S>::data(t)->Tuple_0[3] == t.3.data(),
        Ser::<S>::data(t)->Tuple_0[4] == t.4.data(),
        Ser::<S>::data(t)->Tuple_0[5] == t.5.data(),
        Ser::<S>::data(t)->Tuple_0[6] == t.6.data(),
        Ser::<S>::data(t)->Tuple_0[7] == t.7.data(),
        Ser::<S>::data(t)->Tuple_0[8] == t.8.data(),
{
}

/// A tuple of 10 is written as a tuple of its 10 fields, in order.
pub proof fn law_tuple10_fields<S: Serializer, T1: Ser<S>, T2: Ser<S>, T3: Ser<S>, T4: Ser<S>, T5: Ser<S>, T6: Ser<S>, T7: Ser<S>, T8: Ser<S>, T9: Ser<S>, T10: Ser<S>>(t: &(T1, T2, T3, T4, T5, T6, T7, T8, T9, T10))
    ensures
        Ser::<S>::data(t) is Tuple,
        Ser::<S>::data(t)->Tuple_0.len() == 10,
        Ser::<S>::data(t)->Tuple_0[0] == t.0.data(),
        Ser::<S>::data(t)->Tuple_0[1] == t.1.data(),
        Ser::<S>::data(t)->Tuple_0[2] == t.2.data(),
        Ser::<S>::data(t)->Tuple_0[3] == t.3.data(),
        Ser::<S>::data(t)->Tuple_0[4] == t.4.data(),
        Ser::<S>::data(t)->Tuple_0[5] == t.5.data(),
        Ser::<S>::data(t)->Tuple_0[6] == t.6.data(),
        Ser::<S>::data(t)->Tuple_0[7] == t.7.data(),
        Ser::<S>::data(t)->Tuple_0[8] == t.8.data(),
        Ser::<S>::data(t)->Tuple_0[9] == t.9.data(),
{
}

/// A tuple of 11 is written as a tuple of its 11 fields, in order.
pub proof fn law_tuple11_fields<S: Serializer, T1: Ser<S>, T2: Ser<S>, T3: Ser<S>, T4: Ser<S>, T5: Ser<S>, T6: Ser<S>, T7: Ser<S>, T8: Ser<S>, T9: Ser<S>, T10: Ser<S>, T11: Ser<S>>(t: &(T1, T2, T3, T4, T5, T6, T7, T8, T9, T10, T11))
    ensures
        Ser::<S>::data(t) is Tuple,
        Ser::<S>::data(t)->Tuple_0.len() == 11,
        Ser::<S>::data(t)->Tuple_0[0] == t.0.data(),
        Ser::<S>::data(t)->Tuple_0[1] == t.1.data(),
        Ser::<S>::data(t)->Tuple_0[2] == t.2.data(),
        Ser::<S>::data(t)->Tuple_0[3] == t.3.data(),
        Ser::<S>::data(t)->Tuple_0[4] == t.4.data(),
        Ser::<S>::data(t)->Tuple_0[5] == t.5.data(),
        Ser::<S>::data(t)->Tuple_0[6] == t.6.data(),
        Ser::<S>::data(t)->Tuple_0[7] == t.7.data(),
        Ser::<S>::data(t)->Tuple_0[8] == t.8.data(),
        Ser::<S>::data(t)->Tuple_0[9] == t.9.data(),
        Ser::<S>::data(t)->Tuple_0[10] == t.10.data(),
{
}

/// A tuple of 12 is written as a tuple of its 12 fields, in order.
pub proof fn law_tuple12_fields<S: Serializer, T1: Ser<S>, T2: Ser<S>, T3: Ser<S>, T4: Ser<S>, T5: Ser<S>, T6: Ser<S>, T7: Ser<S>, T8: Ser<S>, T9: Ser<S>, T10: Ser<S>, T11: Ser<S>, T12: Ser<S>>(t: &(T1, T2, T3, T4, T5, T6, T7, T8, T9, T10, T11, T12))
    ensures
        Ser::<S>::data(t) is Tuple,
        Ser::<S>::data(t)->Tuple_0.len() == 12,
        Ser::<S>::data(t)->Tuple_0[0] == t.0.data(),
        Ser::<S>::data(t)->Tuple_0[1] == t.1.data(),
        Ser::<S>::data(t)->Tuple_0[2] == t.2.data(),
        Ser::<S>::data(t)->Tuple_0[3] == t.3.data(),
        Ser::<S>::data(t)->Tuple_0[4] == t.4.data(),
        Ser::<S>::data(t)->Tuple_0[5] == t.5.data(),
        Ser::<S>::data(t)->Tuple_0[6] == t.6.data(),
        Ser::<S>::data(t)->Tuple_0[7] == t.7.data(),
        Ser::<S>::data(t)->Tuple_0[8] == t.8.data(),
        Ser::<S>::data(t)->Tuple_0[9] == t.9.data(),
        Ser::<S>::data(t)->Tuple_0[10] == t.10.data(),
        Ser::<S>::data(t)->Tuple_0[11] == t.11.data(),
{
}

/// A tuple of 13 is written as a tuple of its 13 fields, in order.
pub proof fn law_tuple13_fields<S: Serializer, T1: Ser<S>, T2: Ser<S>, T3: Ser<S>, T4: Ser<S>, T5: Ser<S>, T6: Ser<S>, T7: Ser<S>, T8: Ser<S>, T9: Ser<S>, T10: Ser<S>, T11: Ser<S>, T12: Ser<S>, T13: Ser<S>>(t: &(T1, T2, T3, T4, T5, T6, T7, T8, T9, T10, T11, T12, T13))
    ensures
        Ser::<S>::data(t) is Tuple,
        Ser::<S>::data(t)->Tuple_0.len() == 13,
        Ser::<S>::data(t)->Tuple_0[0] == t.0.data(),
        Ser::<S>::data(t)->Tuple_0[1] == t.1.data(),
        Ser::<S>::data(t)->Tuple_0[2] == t.2.data(),
        Ser::<S>::data(t)->Tuple_0[3] == t.3.data(),
        Ser::<S>::data(t)->Tuple_0[4] == t.4.data(),
        Ser::<S>::data(t)->Tuple_0[5] == t.5.data(),
        Ser::<S>::data(t)->Tuple_0[6] == t.6.data(),
        Ser::<S>::data(t)->Tuple_0[7] == t.7.data(),
        Ser::<S>::data(t)->Tuple_0[8] == t.8.data(),
        Ser::<S>::data(t)->Tuple_0[9] == t.9.data(),
        Ser::<S>::data(t)->Tuple_0[10] == t.10.data(),
        Ser::<S>::data(t)->Tuple_0[11] == t.11.data(),
        Ser::<S>::data(t)->Tuple_0[12] == t.12.data(),
{
}

/// A tuple of 14 is written as a tuple of its 14 fields, in order.
pub proof fn law_tuple14_fields<S: Serializer, T1: Ser<S>, T2: Ser<S>, T3: Ser<S>, T4: Ser<S>, T5: Ser<S>, T6: Ser<S>, T7: Ser<S>, T8: Ser<S>, T9: Ser<S>, T10: Ser<S>, T11: Ser<S>, T12: Ser<S>, T13: Ser<S>, T14: Ser<S>>(t: &(T1, T2, T3, T4, T5, T6, T7, T8, T9, T10, T11, T12, T13, T14))
    ensures
        Ser::<S>::data(t) is Tuple,
        Ser::<S>::data(t)->Tuple_0.len() == 14,
        Ser::<S>::data(t)->Tuple_0[0] == t.0.data(),
        Ser::<S>::data(t)->Tuple_0[1] == t.1.data(),
        Ser::<S>::data(t)->Tuple_0[2] == t.2.data(),
        Ser::<S>::data(t)->Tuple_0[3] == t.3.data(),
        Ser::<S>::data(t)->Tuple_0[4] == t.4.data(),
        Ser::<S>::data(t)->Tuple_0[5] == t.5.data(),
        Ser::<S>::data(t)->Tuple_0[6] == t.6.data(),
        Ser::<S>::data(t)->Tuple_0[7] == t.7.data(),
        Ser::<S>::data(t)->Tuple_0[8] == t.8.data(),
        Ser::<S>::data(t)->Tuple_0[9] == t.9.data(),
        Ser::<S>::data(t)->Tuple_0[10] == t.10.data(),
        Ser::<S>::data(t)->Tuple_0[11] == t.11.data(),
        Ser::<S>::data(t)->Tuple_0[12] == t.12.data(),
        Ser::<S>::data(t)->Tuple_0[13] == t.13.data(),
{
}

/// A tuple of 15 is written as a tuple of its 15 fields, in order.
pub proof fn law_tuple15_fields<S: Serializer, T1: Ser<S>, T2: Ser<S>, T3: Ser<S>, T4: Ser<S>, T5: Ser<S>, T6: Ser<S>, T7: Ser<S>, T8: Ser<S>, T9: Ser<S>, T10: Ser<S>, T11: Ser<S>, T12: Ser<S>, T13: Ser<S>, T14: Ser<S>, T15: Ser<S>>(t: &(T1, T2, T3, T4, T5, T6, T7, T8, T9, T10, T11, T12, T13, T14, T15))
    ensures
        Ser::<S>::data(t) is Tuple,
        Ser::<S>::data(t)->Tuple_0.len() == 15,
        Ser::<S>::data(t)->Tuple_0[0] == t.0.data(),
        Ser::<S>::data(t)->Tuple_0[1] == t.1.data(),
        Ser::<S>::data(t)->Tuple_0[2] == t.2.data(),
        Ser::<S>::data(t)->Tuple_0[3] == t.3.data(),
        Ser::<S>::data(t)->Tuple_0[4] == t.4.data(),
        Ser::<S>::data(t)->Tuple_0[5] == t.5.data(),
        Ser::<S>::data(t)->Tuple_0[6] == t.6.data(),
        Ser::<S>::data(t)->Tuple_0[7] == t.7.data(),
        Ser::<S>::data(t)->Tuple_0[8] == t.8.data(),
        Ser::<S>::data(t)->Tuple_0[9] == t.9.data(),
        Ser::<S>::data(t)->Tuple_0[10] == t.10.data(),
        Ser::<S>::data(t)->Tuple_0[11] == t.11.data(),
        Ser::<S>::data(t)->Tuple_0[12] == t.12.data(),
        Ser::<S>::data(t)->Tuple_0[13] == t.13.data(),
        Ser::<S>::data(t)->Tuple_0[14] == t.14.data(),
{
}

/// A tuple of 16 is written as a tuple of its 16 fields, in order.
pub proof fn law_tuple16_fields<S: Serializer, T1: Ser<S>, T2: Ser<S>, T3: Ser<S>, T4: Ser<S>, T5: Ser<S>, T6: Ser<S>, T7: Ser<S>, T8: Ser<S>, T9: Ser<S>, T10: Ser<S>, T11: Ser<S>, T12: Ser<S>, T13: Ser<S>, T14: Ser<S>, T15: Ser<S>, T16: Ser<S>>(t: &(T1, T2, T3, T4, T5, T6, T7, T8, T9, T10, T11, T12, T13, T14, T15, T16))
    ensures
        Ser::<S>::data(t) is Tuple,
        Ser::<S>::data(t)->Tuple_0.len() == 16,
        Ser::<S>::data(t)->Tuple_0[0] == t.0.data(),
        Ser::<S>::data(t)->Tuple_0[1] == t.1.data(),
        Ser::<S>::data(t)->Tuple_0[2] == t.2.data(),
        Ser::<S>::data(t)->Tuple_0[3] == t.3.data(),
        Ser::<S>::data(t)->Tuple_0[4] == t.4.data(),
        Ser::<S>::data(t)->Tuple_0[5] == t.5.data(),
        Ser::<S>::data(t)->Tuple_0[6] == t.6.data(),
        Ser::<S>::data(t)->Tuple_0[7] == t.7.data(),
        Ser::<S>::data(t)->Tuple_0[8] == t.8.data(),
        Ser::<S>::data(t)->Tuple_0[9] == t.9.data(),
        Ser::<S>::data(t)->Tuple_0[10] == t.10.data(),
        Ser::<S>::data(t)->Tuple_0[11] == t.11.data(),
        Ser::<S>::data(t)->Tuple_0[12] == t.12.data(),
        Ser::<S>::data(t)->Tuple_0[13] == t.13.data(),
        Ser::<S>::data(t)->Tuple_0[14] == t.14.data(),
        Ser::<S>::data(t)->Tuple_0[15] == t.15.data(),
{
}

/// A tuple of 17 is written as a tuple of its 17 fields, in order.
pub proof fn law_tuple17_fields<S: Serializer, T1: Ser<S>, T2: Ser<S>, T3: Ser<S>, T4: Ser<S>, T5: Ser<S>, T6: Ser<S>, T7: Ser<S>, T8: Ser<S>, T9: Ser<S>, T10: Ser<S>, T11: Ser<S>, T12: Ser<S>, T13: Ser<S>, T14: Ser<S>, T15: Ser<S>, T16: Ser<S>, T17: Ser<S>>(t: &(T1, T2, T3, T4, T5, T6, T7, T8, T9, T10, T11, T12, T13, T14, T15, T16, T17))
    ensures
        Ser::<S>::data(t) is Tuple,
        Ser::<S>::data(t)->Tuple_0.len() == 17,
        Ser::<S>::data(t)->Tuple_0[0] == t.0.data(),
        Ser::<S>::data(t)->Tuple_0[1] == t.1.data(),
        Ser::<S>::data(t)->Tuple_0[2] == t.2.data(),
        Ser::<S>::data(t)->Tuple_0[3] == t.3.data(),
        Ser::<S>::data(t)->Tuple_0[4] == t.4.data(),
        Ser::<S>::data(t)->Tuple_0[5] == t.5.data(),
        Ser::<S>::data(t)->Tuple_0[6] == t.6.data(),
        Ser::<S>::data(t)->Tuple_0[7] == t.7.data(),
        Ser::<S>::data(t)->Tuple_0[8] == t.8.data(),
        Ser::<S>::data(t)->Tuple_0[9] == t.9.data(),
        Ser::<S>::data(t)->Tuple_0[10] == t.10.data(),
        Ser::<S>::data(t)->Tuple_0[11] == t.11.data(),
        Ser::<S>::data(t)->Tuple_0[12] == t.12.data(),
        Ser::<S>::data(t)->Tuple_0[13] == t.13.data(),
        Ser::<S>::data(t)->Tuple_0[14] == t.14.data(),
        Ser::<S>::data(t)->Tuple_0[15] == t.15.data(),
        Ser::<S>::data(t)->Tuple_0[16] == t.16.data(),
{
}

/// A tuple of 18 is written as a tuple of its 18 fields, in order.
pub proof fn law_tuple18_fields<S: Serializer, T1: Ser<S>, T2: Ser<S>, T3: Ser<S>, T4: Ser<S>, T5: Ser<S>, T6: Ser<S>, T7: Ser<S>, T8: Ser<S>, T9: Ser<S>, T10: Ser<S>, T11: Ser<S>, T12: Ser<S>, T13: Ser<S>, T14: Ser<S>, T15: Ser<S>, T16: Ser<S>, T17: Ser<S>, T18: Ser<S>>(t: &(T1, T2, T3, T4, T5, T6, T7, T8, T9, T10, T11, T12, T13, T14, T15, T16, T17, T18))
    ensures
        Ser::<S>::data(t) is Tuple,
        Ser::<S>::data(t)->Tuple_0.len() == 18,
        Ser::<S>::data(t)->Tuple_0[0] == t.0.data(),
        Ser::<S>::data(t)->Tuple_0[1] == t.1.data(),
        Ser::<S>::data(t)->Tuple_0[2] == t.2.data(),
        Ser::<S>::data(t)->Tuple_0[3] == t.3.data(),
        Ser::<S>::data(t)->Tuple_0[4] == t.4.data(),
        Ser::<S>::data(t)->Tuple_0[5] == t.5.data(),
        Ser::<S>::data(t)->Tuple_0[6] == t.6.data(),
        Ser::<S>::data(t)->Tuple_0[7] == t.7.data(),
        Ser::<S>::data(t)->Tuple_0[8] == t.8.data(),
        Ser::<S>::data(t)->Tuple_0[9] == t.9.data(),
        Ser::<S>::data(t)->Tuple_0[10] == t.10.data(),
        Ser::<S>::data(t)->Tuple_0[11] == t.11.data(),
        Ser::<S>::data(t)->Tuple_0[12] == t.12.data(),
        Ser::<S>::data(t)->Tuple_0[13] == t.13.data(),
        Ser::<S>::data(t)->Tuple_0[14] == t.14.data(),
        Ser::<S>::data(t)->Tuple_0[15] == t.15.data(),
        Ser::<S>::data(t)->Tuple_0[16] == t.16.data(),
        Ser::<S>::data(t)->Tuple_0[17] == t.17.data(),
{
}

/// A tuple of 19 is written as a tuple of its 19 fields, in order.
pub proof fn law_tuple19_fields<S: Serializer, T1: Ser<S>, T2: Ser<S>, T3: Ser<S>, T4: Ser<S>, T5: Ser<S>, T6: Ser<S>, T7: Ser<S>, T8: Ser<S>, T9: Ser<S>, T10: Ser<S>, T11: Ser<S>, T12: Ser<S>, T13: Ser<S>, T14: Ser<S>, T15: Ser<S>, T16: Ser<S>, T17: Ser<S>, T18: Ser<S>, T19: Ser<S>>(t: &(T1, T2, T3, T4, T5, T6, T7, T8, T9, T10, T11, T12, T13, T14, T15, T16, T17, T18, T19))
    ensures
        Ser::<S>::data(t) is Tuple,
        Ser::<S>::data(t)->Tuple_0.len() == 19,
        Ser::<S>::data(t)->Tuple_0[0] == t.0.data(),
        Ser::<S>::data(t)->Tuple_0[1] == t.1.data(),
        Ser::<S>::data(t)->Tuple_0[2] == t.2.data(),
        Ser::<S>::data(t)->Tuple_0[3] == t.3.data(),
        Ser::<S>::data(t)->Tuple_0[4] == t.4.data(),
        Ser::<S>::data(t)->Tuple_0[5] == t.5.data(),
        Ser::<S>::data(t)->Tuple_0[6] == t.6.data(),
        Ser::<S>::data(t)->Tuple_0[7] == t.7.data(),
        Ser::<S>::data(t)->Tuple_0[8] == t.8.data(),
        Ser::<S>::data(t)->Tuple_0[9] == t.9.data(),
        Ser::<S>::data(t)->Tuple_0[10] == t.10.data(),
        Ser::<S>::data(t)->Tuple_0[11] == t.11.data(),
        Ser::<S>::data(t)->Tuple_0[12] == t.12.data(),
        Ser::<S>::data(t)->Tuple_0[13] == t.13.data(),
        Ser::<S>::data(t)->Tuple_0[14] == t.14.data(),
        Ser::<S>::data(t)->Tuple_0[15] == t.15.data(),
        Ser::<S>::data(t)->Tuple_0[16] == t.16.data(),
        Ser::<S>::data(t)->Tuple_0[17] == t.17.data(),
        Ser::<S>::data(t)->Tuple_0[18] == t.18.data(),
{
}

/// A tuple of 20 is written as a tuple of its 20 fields, in order.
pub proof fn law_tuple20_fields<S: Serializer, T1: Ser<S>, T2: Ser<S>, T3: Ser<S>, T4: Ser<S>, T5: Ser<S>, T6: Ser<S>, T7: Ser<S>, T8: Ser<S>, T9: Ser<S>, T10: Ser<S>, T11: Ser<S>, T12: Ser<S>, T13: Ser<S>, T14: Ser<S>, T15: Ser<S>, T16: Ser<S>, T17: Ser<S>, T18: Ser<S>, T19: Ser<S>, T20: Ser<S>>(t: &(T1, T2, T3, T4, T5, T6, T7, T8, T9, T10, T11, T12, T13, T14, T15, T16, T17, T18, T19, T20))
    ensures
        Ser::<S>::data(t) is Tuple,
        Ser::<S>::data(t)->Tuple_0.len() == 20,
        Ser::<S>::data(t)->Tuple_0[0] == t.0.data(),
        Ser::<S>::data(t)->Tuple_0[1] == t.1.data(),
        Ser::<S>::data(t)->Tuple_0[2] == t.2.data(),
        Ser::<S>::data(t)->Tuple_0[3] == t.3.data(),
        Ser::<S>::data(t)->Tuple_0[4] == t.4.data(),
        Ser::<S>::data(t)->Tuple_0[5] == t.5.data(),
        Ser::<S>::data(t)->Tuple_0[6] == t.6.data(),
        Ser::<S>::data(t)->Tuple_0[7] == t.7.data(),
        Ser::<S>::data(t)->Tuple_0[8] == t.8.data(),
        Ser::<S>::data(t)->Tuple_0[9] == t.9.data(),
        Ser::<S>::data(t)->Tuple_0[10] == t.10.data(),
        Ser::<S>::data(t)->Tuple_0[11] == t.11.data(),
        Ser::<S>::data(t)->Tuple_0[12] == t.12.data(),
        Ser::<S>::data(t)->Tuple_0[13] == t.13.data(),
        Ser::<S>::data(t)->Tuple_0[14] == t.14.data(),
        Ser::<S>::data(t)->Tuple_0[15] == t.15.data(),
        Ser::<S>::data(t)->Tuple_0[16] == t.16.data(),
        Ser::<S>::data(t)->Tuple_0[17] == t.17.data(),
        Ser::<S>::data(t)->Tuple_0[18] == t.18.data(),
        Ser::<S>::data(t)->Tuple_0[19] == t.19.data(),
{
}

/// The digits written for a number are decimal digit characters.
proof fn lemma_digits_are_digits(n: nat)
    ensures
        forall|i: int|
            0 <= i < digits(n).len() ==> 48 <= #[trigger] digits(n)[i] as int && digits(n)[i] as int
                <= 57,
    decreases n,
{
    if n >= 10 {
        lemma_digits_are_digits(n / 10);
        assert forall|i: int| 0 <= i < digits(n).len() implies 48 <= #[trigger] digits(n)[i] as int
            && digits(n)[i] as int <= 57 by {
            if i < digits(n / 10).len() {
                assert(digits(n)[i] == digits(n / 10)[i]);
            }
        }
    }
}

/// A byte slice is written as a JSON array with one decimal number per byte:
/// no bytes give `[]`, and one more byte `x` adds a comma (unless it is the
/// first) and the decimal digits of `x`, which read back as `x`, before the
/// closing bracket.
pub proof fn law_bytes_one_number_each(b: Seq<u8>, x: u8)
    ensures
        json_text(Data::Bytes(Seq::empty())) == seq!['[', ']'],
        json_text(Data::Bytes(b.push(x))) == json_text(Data::Bytes(b)).drop_last() + (if b.len()
            == 0 {
            Seq::<char>::empty()
        } else {
            seq![',']
        }) + digits(x as nat) + seq![']'],
        digits_value(digits(x as nat)) == x as int,
        forall|i: int|
            0 <= i < digits(x as nat).len() ==> 48 <= #[trigger] digits(x as nat)[i] as int
                && digits(x as nat)[i] as int <= 57,
{
    lemma_digits_value(x as nat);
    lemma_digits_are_digits(x as nat);
    let bb = b.push(x);
    assert(bb.drop_last() =~= b);
    assert(json_text(Data::Bytes(Seq::<u8>::empty())) =~= seq!['[', ']']);
    let prev = json_text(Data::Bytes(b));
    if b.len() == 0 {
        assert(prev.drop_last() =~= seq!['[']);
    } else {
        assert(prev.drop_last() =~= seq!['['] + crate::json_text::byte_list(b));
    }
    assert(json_text(Data::Bytes(bb)) =~= prev.drop_last() + (if b.len() == 0 {
        Seq::<char>::empty()
    } else {
        seq![',']
    }) + digits(x as nat) + seq![']']);
}

/// The comma before an item that follows `n` others.
pub open spec fn comma_after(n: nat) -> Seq<char> {
    if n == 0 {
        Seq::<char>::empty()
    } else {
        seq![',']
    }
}

/// Compound values are written item by item: an empty sequence or tuple is
/// `[]`, an empty map or struct `{}`, and one more element, entry or field
/// adds a comma (unless it is the first) and its own text before the
/// closing bracket. Variants are written as an object whose one key is the
/// variant's name, holding what the variant holds.
pub proof fn law_compound_text_grows(
    s: Seq<Data>,
    d: Data,
    e: Seq<(Data, Data)>,
    k: Data,
    f: Seq<(Seq<char>, Data)>,
    name: Seq<char>,
    index: u32,
    variant: Seq<char>,
)
    ensures
        json_text(Data::Sequence(Seq::empty())) == seq!['[', ']'],
        json_text(Data::Tuple(Seq::empty())) == seq!['[', ']'],
        json_text(Data::Entries(Seq::empty())) == seq!['{', '}'],
        json_text(Data::Struct(name, Seq::empty())) == seq!['{', '}'],
        json_text(Data::Sequence(s.push(d))) == json_text(Data::Sequence(s)).drop_last()
            + comma_after(s.len()) + json_text(d) + seq![']'],
        json_text(Data::Tuple(s.push(d))) == json_text(Data::Sequence(s.push(d))),
        json_text(Data::TupleStruct(name, s)) == json_text(Data::Sequence(s)),
        json_text(Data::Entries(e.push((k, d)))) == json_text(Data::Entries(e)).drop_last()
            + comma_after(e.len()) + json_text(k) + seq![':'] + json_text(d) + seq!['}'],
        json_text(Data::Struct(name, f.push((variant, d)))) == json_text(Data::Struct(name, f)).drop_last()
            + comma_after(f.len()) + json_text(Data::Str(variant)) + seq![':'] + json_text(d) + seq![
            '}',
        ],
        json_text(Data::NewtypeVariant(name, index, variant, Box::new(d))) == seq!['{']
            + json_text(Data::Str(variant)) + seq![':'] + json_text(d) + seq!['}'],
        json_text(Data::TupleVariant(name, index, variant, s)) == seq!['{'] + json_text(
            Data::Str(variant),
        ) + seq![':'] + json_text(Data::Sequence(s)) + seq!['}'],
        json_text(Data::StructVariant(name, index, variant, f)) == seq!['{'] + json_text(
            Data::Str(variant),
        ) + seq![':'] + json_text(Data::Struct(name, f)) + seq!['}'],
{
    assert(crate::json_text::json_list(Seq::<Data>::empty()) =~= Seq::<char>::empty());
    assert(json_text(Data::Sequence(Seq::empty())) =~= seq!['[', ']']);
    assert(json_text(Data::Tuple(Seq::empty())) =~= seq!['[', ']']);
    assert(crate::json_text::json_entries(Seq::<(Data, Data)>::empty()) =~= Seq::<char>::empty());
    assert(json_text(Data::Entries(Seq::empty())) =~= seq!['{', '}']);
    assert(crate::json_text::json_fields(Seq::<(Seq<char>, Data)>::empty()) =~= Seq::<char>::empty());
    assert(json_text(Data::Struct(name, Seq::empty())) =~= seq!['{', '}']);
    lemma_list_push(s, d);
    lemma_entries_push(e, k, d);
    lemma_fields_push(name, f, variant, d);
    assert(json_text(Data::NewtypeVariant(name, index, variant, Box::new(d))) =~= seq!['{']
        + json_text(Data::Str(variant)) + seq![':'] + json_text(d) + seq!['}']);
    assert(json_text(Data::TupleVariant(name, index, variant, s)) =~= seq!['{'] + json_text(
        Data::Str(variant),
    ) + seq![':'] + json_text(Data::Sequence(s)) + seq!['}']);
    assert(json_text(Data::StructVariant(name, index, variant, f)) =~= seq!['{'] + json_text(
        Data::Str(variant),
    ) + seq![':'] + json_text(Data::Struct(name, f)) + seq!['}']);
}

/// One more element of a sequence adds a comma and its text.
proof fn lemma_list_push(s: Seq<Data>, d: Data)
    ensures
        json_text(Data::Sequence(s.push(d))) == json_text(Data::Sequence(s)).drop_last()
            + comma_after(s.len()) + json_text(d) + seq![']'],
{
    let sp = s.push(d);
    assert(sp.subrange(0, sp.len() - 1) =~= s);
    assert(sp[sp.len() - 1] == d);
    let ls = crate::json_text::json_list(s);
    assert(json_text(Data::Sequence(s)).drop_last() =~= seq!['['] + ls);
    if s.len() == 0 {
        assert(ls =~= Seq::<char>::empty());
        assert(crate::json_text::json_list(sp) == json_text(d));
    } else {
        assert(crate::json_text::json_list(sp) == ls + seq![','] + json_text(d));
    }
    assert(json_text(Data::Sequence(sp)) =~= json_text(Data::Sequence(s)).drop_last()
        + comma_after(s.len()) + json_text(d) + seq![']']);
}

/// One more entry of a map adds a comma and its `key:value` text.
proof fn lemma_entries_push(e: Seq<(Data, Data)>, k: Data, d: Data)
    ensures
        json_text(Data::Entries(e.push((k, d)))) == json_text(Data::Entries(e)).drop_last()
            + comma_after(e.len()) + json_text(k) + seq![':'] + json_text(d) + seq!['}'],
{
    let ep = e.push((k, d));
    assert(ep.subrange(0, ep.len() - 1) =~= e);
    assert(ep[ep.len() - 1] == (k, d));
    let le = crate::json_text::json_entries(e);
    assert(json_text(Data::Entries(e)).drop_last() =~= seq!['{'] + le);
    if e.len() == 0 {
        assert(le =~= Seq::<char>::empty());
        assert(crate::json_text::json_entries(ep) == json_text(k) + seq![':'] + json_text(d));
    } else {
        assert(crate::json_text::json_entries(ep) == le + seq![','] + json_text(k) + seq![':']
            + json_text(d));
    }
    assert(json_text(Data::Entries(ep)) =~= json_text(Data::Entries(e)).drop_last()
        + comma_after(e.len()) + json_text(k) + seq![':'] + json_text(d) + seq!['}']);
}

/// One more field of a struct adds a comma and its `"name":value` text.
proof fn lemma_fields_push(name: Seq<char>, f: Seq<(Seq<char>, Data)>, key: Seq<char>, d: Data)
    ensures
        json_text(Data::Struct(name, f.push((key, d)))) == json_text(Data::Struct(name, f)).drop_last()
            + comma_after(f.len()) + json_text(Data::Str(key)) + seq![':'] + json_text(d) + seq![
            '}',
        ],
{
    let fp = f.push((key, d));
    assert(fp.subrange(0, fp.len() - 1) =~= f);
    assert(fp[fp.len() - 1] == (key, d));
    let lf = crate::json_text::json_fields(f);
    let field = crate::json_text::json_string(key) + seq![':'] + json_text(d);
    assert(json_text(Data::Struct(name, f)).drop_last() =~= seq!['{'] + lf);
    if f.len() == 0 {
        assert(lf =~= Seq::<char>::empty());
        assert(crate::json_text::json_fields(fp) == field);
    } else {
        assert(crate::json_text::json_fields(fp) == lf + seq![','] + field);
    }
    assert(json_text(Data::Struct(name, fp)) =~= json_text(Data::Struct(name, f)).drop_last()
        + comma_after(f.len()) + json_text(Data::Str(key)) + seq![':'] + json_text(d) + seq![
        '}',
    ]);
}

/// Key-value pairs handed to `serialize_map_entries` are written whole: one
/// entry per pair, in order, holding the pair's key and value.
pub proof fn law_entries_listed_all<S: Serializer, K: Ser<S>, V: Ser<S>>(entries: Seq<(K, V)>)
    ensures
        crate::impls::entries_data::<S, K, V>(entries).len() == entries.len(),
        forall|i: int|
            0 <= i < entries.len() ==> crate::impls::entries_data::<S, K, V>(entries)[i] == (
                #[trigger] entries[i].0.data(),
                entries[i].1.data(),
            ),
{
}

/// The values without contents are written as `null`, a unit variant as
/// the string of its name, and a newtype struct or a present optional value
/// as what it holds.
pub proof fn law_simple_forms(name: Seq<char>, index: u32, variant: Seq<char>, d: Data)
    ensures
        json_text(Data::Unit) == seq!['n', 'u', 'l', 'l'],
        json_text(Data::NoneValue) == seq!['n', 'u', 'l', 'l'],
        json_text(Data::UnitStruct(name)) == seq!['n', 'u', 'l', 'l'],
        json_text(Data::UnitVariant(name, index, variant)) == json_text(Data::Str(variant)),
        json_text(Data::NewtypeStruct(name, Box::new(d))) == json_text(d),
        json_text(Data::SomeValue(Box::new(d))) == json_text(d),
{
}

} // verus!
