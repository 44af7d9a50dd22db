use std::borrow::Cow;
use std::collections::{BTreeMap, BTreeSet, VecDeque};
use std::mem::ManuallyDrop;
use std::rc::Rc;
use std::sync::Arc;

use poc_typeinfo_new_deser::json::{JsonSerializeError, JsonSerializer};
use poc_typeinfo_new_deser::{
    serialize_map_entries, Ser, SerializeMap, SerializeSeq, SerializeStructVariant, SerializeTuple,
    SerializeTupleStruct, SerializeTupleVariant, Serializer,
};

fn to_json<T: Ser<JsonSerializer> + ?Sized>(value: &T) -> String {
    let mut json = JsonSerializer::new_vec();
    value.serialize(&mut json).unwrap();
    json.into_string()
}

#[test]
fn bools_are_true_and_false() {
    assert_eq!(to_json(&true), "true");
    assert_eq!(to_json(&false), "false");
}

#[test]
fn integers_are_decimal() {
    assert_eq!(to_json(&0u8), "0");
    assert_eq!(to_json(&-5i8), "-5");
    assert_eq!(to_json(&i16::MIN), "-32768");
    assert_eq!(to_json(&1234567i32), "1234567");
    assert_eq!(to_json(&i64::MIN), "-9223372036854775808");
    assert_eq!(to_json(&u64::MAX), "18446744073709551615");
    assert_eq!(to_json(&i128::MIN), "-170141183460469231731687303715884105728");
    assert_eq!(to_json(&u128::MAX), "340282366920938463463374607431768211455");
    assert_eq!(to_json(&7usize), "7");
    assert_eq!(to_json(&-1isize), "-1");
    assert_eq!(to_json(&10u16), "10");
    assert_eq!(to_json(&100u32), "100");
}

#[test]
fn characters_are_strings() {
    assert_eq!(to_json(&'é'), "\"é\"");
    assert_eq!(to_json(&'\u{1F600}'), "\"\u{1F600}\"");
    assert_eq!(to_json(&'"'), "\"\\\"\"");
    assert_eq!(to_json(&'\n'), "\"\\n\"");
}

#[test]
fn strings_escape_five_characters() {
    assert_eq!(to_json("a\\b"), "\"a\\\\b\"");
    assert_eq!(to_json("l1\nl2\r\tend"), "\"l1\\nl2\\r\\tend\"");
    assert_eq!(to_json(""), "\"\"");
    assert_eq!(to_json("\u{7f}ü\u{800}"), "\"\u{7f}ü\u{800}\"");
    assert_eq!(to_json(&String::from("hi")), "\"hi\"");
}

#[test]
fn bytes_are_number_arrays() {
    let mut json = JsonSerializer::new_vec();
    json.serialize_bytes(&[1, 2, 255]).unwrap();
    assert_eq!(json.as_str(), "[1,2,255]");
    let mut json = JsonSerializer::new_vec();
    json.serialize_bytes(&[]).unwrap();
    assert_eq!(json.as_str(), "[]");
}

#[test]
fn options_and_units() {
    assert_eq!(to_json(&None::<u32>), "null");
    assert_eq!(to_json(&Some(3u32)), "3");
    assert_eq!(to_json(&Some(None::<u8>)), "null");
    let mut json = JsonSerializer::new_vec();
    json.serialize_unit().unwrap();
    json.serialize_unit_struct("Unit").unwrap();
    json.serialize_unit_variant("Color", 0, "Red").unwrap();
    assert_eq!(json.as_str(), "nullnull\"Red\"");
}

#[test]
fn newtypes_and_newtype_variants() {
    let mut json = JsonSerializer::new_vec();
    json.serialize_newtype_struct("Inches", &5u32).unwrap();
    assert_eq!(json.as_str(), "5");
    let mut json = JsonSerializer::new_vec();
    json.serialize_newtype_variant("Value", 1, "Int", &-2i32).unwrap();
    assert_eq!(json.as_str(), "{\"Int\":-2}");
}

#[test]
fn tuples_are_arrays() {
    assert_eq!(to_json(&(1u8, "a")), "[1,\"a\"]");
    assert_eq!(to_json(&(true,)), "[true]");
    assert_eq!(to_json(&(1u8, 2u8, 3u8)), "[1,2,3]");
    assert_eq!(to_json(&(1u8, 'x', false, -1i64)), "[1,\"x\",false,-1]");
    assert_eq!(to_json(&()), "[]");
}

#[test]
fn tuple_structs_and_variants() {
    let mut json = JsonSerializer::new_vec();
    let mut s = json.serialize_tuple_struct("Rgb", 3).unwrap();
    s.serialize_field(&mut json, &1u8).unwrap();
    s.serialize_field(&mut json, &2u8).unwrap();
    s.serialize_field(&mut json, &3u8).unwrap();
    s.end(&mut json).unwrap();
    assert_eq!(json.as_str(), "[1,2,3]");

    let mut json = JsonSerializer::new_vec();
    let mut v = json.serialize_tuple_variant("Shape", 1, "Rect", 2).unwrap();
    v.serialize_field(&mut json, &4u32).unwrap();
    v.serialize_field(&mut json, &5u32).unwrap();
    v.end(&mut json).unwrap();
    assert_eq!(json.as_str(), "{\"Rect\":[4,5]}");
}

#[test]
fn maps_are_objects() {
    let mut json = JsonSerializer::new_vec();
    let mut m = json.serialize_map(Some(2)).unwrap();
    m.serialize_key(&mut json, "a").unwrap();
    m.serialize_value(&mut json, &1u8).unwrap();
    m.serialize_entry(&mut json, "b", &vec![2u8]).unwrap();
    m.end(&mut json).unwrap();
    assert_eq!(json.as_str(), "{\"a\":1,\"b\":[2]}");

    let mut json = JsonSerializer::new_vec();
    let mut m = json.serialize_map(None).unwrap();
    m.serialize_entry(&mut json, &1u8, "x").unwrap();
    m.end(&mut json).unwrap();
    assert_eq!(json.as_str(), "{1:\"x\"}");

    let mut json = JsonSerializer::new_vec();
    let m = json.serialize_map(Some(0)).unwrap();
    m.end(&mut json).unwrap();
    assert_eq!(json.as_str(), "{}");
}

#[test]
fn struct_variants_nest_an_object() {
    let mut json = JsonSerializer::new_vec();
    let mut v = json.serialize_struct_variant("Shape", 2, "Circle", 2).unwrap();
    v.serialize_field(&mut json, "r", &3u8).unwrap();
    v.serialize_field(&mut json, "name", "c\"1").unwrap();
    v.end(&mut json).unwrap();
    assert_eq!(json.as_str(), "{\"Circle\":{\"r\":3,\"name\":\"c\\\"1\"}}");
}

#[test]
fn sequences_by_hand_and_nested() {
    let mut json = JsonSerializer::new_vec();
    let mut s = json.serialize_seq(None).unwrap();
    s.serialize_element(&mut json, &1u8).unwrap();
    s.serialize_element(&mut json, "two").unwrap();
    s.end(&mut json).unwrap();
    assert_eq!(json.as_str(), "[1,\"two\"]");

    let mut json = JsonSerializer::new_vec();
    let mut t = json.serialize_tuple(1).unwrap();
    t.serialize_element(&mut json, &[7u8]).unwrap();
    t.end(&mut json).unwrap();
    assert_eq!(json.as_str(), "[[7]]");

    let nested: Vec<Vec<u8>> = vec![vec![1], vec![], vec![2, 3]];
    assert_eq!(to_json(&nested), "[[1],[],[2,3]]");
}

#[test]
fn pointers_write_what_they_hold() {
    assert_eq!(to_json(&Box::new(5u8)), "5");
    assert_eq!(to_json(&Rc::new("r")), "\"r\"");
    assert_eq!(to_json(&Arc::new(vec![1u8, 2])), "[1,2]");
    assert_eq!(to_json(&ManuallyDrop::new(9u8)), "9");
    let boxed: Box<str> = "b".into();
    assert_eq!(to_json(&boxed), "\"b\"");
}

#[test]
fn deques_are_arrays_front_first() {
    let mut d = VecDeque::new();
    d.push_back(2u8);
    d.push_front(1u8);
    d.push_back(3u8);
    assert_eq!(to_json(&d), "[1,2,3]");
}

#[test]
fn buffer_access() {
    let mut json = JsonSerializer::new(b"x=".to_vec());
    1u8.serialize(&mut json).unwrap();
    assert_eq!(json.as_bytes(), b"x=1");
    assert_eq!(json.as_str(), "x=1");
    assert_eq!(json.into_inner(), b"x=1".to_vec());

    let mut json = JsonSerializer::new_vec();
    "é".serialize(&mut json).unwrap();
    assert_eq!(json.into_vec(), vec![0x22, 0xC3, 0xA9, 0x22]);

    let json = JsonSerializer::new(vec![0xC3, 0xA9]);
    assert_eq!(json.as_str(), "é");
    assert_eq!(json.into_string(), String::from("é"));

    assert_eq!(JsonSerializer::new_vec().as_bytes(), b"");
}

#[test]
fn io_errors_convert() {
    let e = JsonSerializeError::from(std::io::Error::other("closed"));
    assert!(matches!(e, JsonSerializeError::Io(_)));
}

#[test]
fn listed_entries_are_a_map_in_order() {
    let mut json = JsonSerializer::new_vec();
    serialize_map_entries(&mut json, &[("z", 1u8), ("a", 2u8)]).unwrap();
    assert_eq!(json.as_str(), "{\"z\":1,\"a\":2}");
    let mut json = JsonSerializer::new_vec();
    let none: [(u8, u8); 0] = [];
    serialize_map_entries(&mut json, &none).unwrap();
    assert_eq!(json.as_str(), "{}");
}

struct Celsius(i32);

impl poc_typeinfo_new_deser::SpecializedSer<JsonSerializer> for Celsius {
    fn specialized_data(&self) -> poc_typeinfo_new_deser::Data {
        panic!("the data model of a value exists for proofs only")
    }

    fn specialized_serialize(&self, serializer: &mut JsonSerializer) -> Result<(), JsonSerializeError> {
        let text = format!("{}C", self.0);
        serializer.serialize_str(&text)
    }
}

#[test]
fn specialized_values_use_their_own_serialization() {
    let t = Celsius(-3);
    assert_eq!(to_json(&poc_typeinfo_new_deser::Specialized(&t)), "\"-3C\"");
    let pair = (1u8, poc_typeinfo_new_deser::Specialized(&t));
    assert_eq!(to_json(&pair), "[1,\"-3C\"]");
}

#[test]
fn long_tuples_and_mutable_references() {
    let t = (1u8, 2u8, 3u8, 4u8, 5u8, 6u8, 7u8, 8u8, 9u8, 10u8, 11u8, "twelve");
    assert_eq!(to_json(&t), "[1,2,3,4,5,6,7,8,9,10,11,\"twelve\"]");
    let mut x = 5u16;
    let r = &mut x;
    assert_eq!(to_json(&r), "5");
}

struct Failing;

impl Ser<JsonSerializer> for Failing {
    fn data(&self) -> poc_typeinfo_new_deser::Data {
        panic!("the data model of a value exists for proofs only")
    }

    fn serialize(&self, serializer: &mut JsonSerializer) -> Result<(), JsonSerializeError> {
        serializer.serialize_u8(7)?;
        Err(JsonSerializeError::Io(std::io::Error::other("refused")))
    }
}

fn prefix_of(json: JsonSerializer) -> Vec<u8> {
    json.into_vec()
}

#[test]
fn errors_of_nested_values_propagate_without_closing() {
    let mut json = JsonSerializer::new_vec();
    let r = json.serialize_newtype_variant("E", 0, "V", &Failing);
    assert!(matches!(r, Err(JsonSerializeError::Io(_))));
    assert_eq!(prefix_of(json), b"{\"V\":7".to_vec());

    let mut json = JsonSerializer::new_vec();
    let r = vec![Failing, Failing].serialize(&mut json);
    assert!(r.is_err());
    assert_eq!(prefix_of(json), b"[7".to_vec());

    let mut json = JsonSerializer::new_vec();
    let mut m = json.serialize_map(None).unwrap();
    assert!(m.serialize_entry(&mut json, &Failing, &1u8).is_err());
    assert_eq!(prefix_of(json), b"{7".to_vec());

    let mut json = JsonSerializer::new_vec();
    let mut s = json.serialize_struct_variant("E", 0, "V", 1).unwrap();
    assert!(s.serialize_field(&mut json, "f", &Failing).is_err());
    assert_eq!(prefix_of(json), b"{\"V\":{\"f\":7".to_vec());
}

#[test]
fn length_hints_leave_no_trace() {
    let mut a = JsonSerializer::new_vec();
    let mut b = JsonSerializer::new_vec();
    let mut sa = a.serialize_seq(Some(99)).unwrap();
    let mut sb = b.serialize_seq(None).unwrap();
    assert_eq!(a.as_bytes(), b"[");
    for x in [1u8, 2, 3] {
        sa.serialize_element(&mut a, &x).unwrap();
        sb.serialize_element(&mut b, &x).unwrap();
        assert_eq!(a.as_bytes(), b.as_bytes());
    }
    let mut c = JsonSerializer::new_vec();
    let mut tc = c.serialize_tuple(3).unwrap();
    for x in [1u8, 2, 3] {
        tc.serialize_element(&mut c, &x).unwrap();
    }
    assert_eq!(a.as_str(), "[1,2,3");
    assert_eq!(c.as_bytes(), a.as_bytes());
    sa.end(&mut a).unwrap();
    sb.end(&mut b).unwrap();
    tc.end(&mut c).unwrap();
    assert_eq!(a.as_str(), "[1,2,3]");
    assert_eq!(b.as_str(), c.as_str());
}

#[test]
fn options_write_what_they_hold() {
    assert_eq!(to_json(&Some(vec![1u8])), to_json(&vec![1u8]));
    assert_eq!(to_json(&Some("s")), to_json("s"));
}

#[test]
fn long_tuples_up_to_twenty() {
    let t = (1u8, 2u8, 3u8, 4u8, 5u8, 6u8, 7u8, 8u8, 9u8, 10u8, 11u8, 12u8, 13u8, 14u8, 15u8, 16u8, 17u8, 18u8, 19u8, 20u8);
    assert_eq!(to_json(&t), "[1,2,3,4,5,6,7,8,9,10,11,12,13,14,15,16,17,18,19,20]");
}

#[test]
fn control_characters_are_escaped() {
    assert_eq!(to_json("a\u{1}b"), "\"a\\u0001b\"");
    assert_eq!(to_json("\u{0}\u{1f}"), "\"\\u0000\\u001f\"");
    assert_eq!(to_json("\u{8}\u{c}"), "\"\\b\\f\"");
    assert_eq!(to_json(&'\u{1b}'), "\"\\u001b\"");
    assert_eq!(to_json("\u{7f}/ "), "\"\u{7f}/ \"");
}

#[test]
fn strings_escape_per_character() {
    let a = "x\"\u{2}";
    let b = "\\y\n";
    let whole = to_json(&format!("{}{}", a, b));
    let ja = to_json(a);
    let jb = to_json(b);
    assert_eq!(whole, format!("{}{}", &ja[..ja.len() - 1], &jb[1..]));
    assert_eq!(whole, "\"x\\\"\\u0002\\\\y\\n\"");
}

#[test]
fn a_char_writes_as_a_one_character_string() {
    for c in ['"', '\\', '\n', '\u{3}', 'a', 'é', '€'] {
        let s = c.to_string();
        assert_eq!(to_json(&c), to_json(s.as_str()));
    }
    assert_eq!(to_json(&'"').as_bytes(), &[0x22, 0x5C, 0x22, 0x22]);
}

#[test]
fn ordered_sets_write_in_increasing_order() {
    let mut set = BTreeSet::new();
    for x in [30u64, 10, 20, 10] {
        set.insert(x);
    }
    assert_eq!(to_json(&set), "[10,20,30]");
    let mut negatives = BTreeSet::new();
    for x in [3i8, -128, 0, 127] {
        negatives.insert(x);
    }
    assert_eq!(to_json(&negatives), "[-128,0,3,127]");
    assert_eq!(to_json(&BTreeSet::<u32>::new()), "[]");
}

#[test]
fn ordered_maps_write_in_increasing_key_order() {
    let mut map = BTreeMap::new();
    map.insert(2usize, "b");
    map.insert(1usize, "a");
    map.insert(2usize, "c");
    assert_eq!(to_json(&map), "{1:\"a\",2:\"c\"}");
    let mut nested: BTreeMap<i64, Vec<u8>> = BTreeMap::new();
    nested.insert(-1, vec![1, 2]);
    nested.insert(-5, vec![]);
    assert_eq!(to_json(&nested), "{-5:[],-1:[1,2]}");
    assert_eq!(to_json(&BTreeMap::<u8, u8>::new()), "{}");
}

#[test]
fn copy_on_write_values_write_what_they_hold() {
    let borrowed: Cow<str> = Cow::Borrowed("a\"b");
    let owned: Cow<str> = Cow::Owned(String::from("a\"b"));
    assert_eq!(to_json(&borrowed), "\"a\\\"b\"");
    assert_eq!(to_json(&owned), to_json(&borrowed));
    let items = [1u16, 2];
    let slice: Cow<[u16]> = Cow::Borrowed(&items);
    let vec: Cow<[u16]> = Cow::Owned(vec![1u16, 2]);
    assert_eq!(to_json(&slice), "[1,2]");
    assert_eq!(to_json(&vec), "[1,2]");
}

#[test]
fn options_have_their_own_serialization() {
    let some = poc_typeinfo_new_deser::Specialized(&Some(5u8));
    let none = poc_typeinfo_new_deser::Specialized(&None::<u8>);
    assert_eq!(to_json(&some), "5");
    assert_eq!(to_json(&none), "null");
    assert_eq!(to_json(&some), to_json(&Some(5u8)));
}
