use poc_typeinfo_new_deser::json::{JsonSerializeError, JsonSerializer};
use poc_typeinfo_new_deser::{Data, Ser, SerializeStruct, Serializer};

#[test]
fn test_u32() {
    let mut json = JsonSerializer::new_vec();
    (6_u32).serialize(&mut json).unwrap();
    assert_eq!(json.as_str(), "6");
}

#[test]
fn test_char() {
    let mut json = JsonSerializer::new_vec();
    ('a').serialize(&mut json).unwrap();
    assert_eq!(json.as_str(), "\"a\"");
}

struct A {
    first: u32,
}

impl Ser<JsonSerializer> for A {
    fn data(&self) -> Data {
        panic!("the data model of a value exists for proofs only")
    }

    fn serialize(&self, serializer: &mut JsonSerializer) -> Result<(), JsonSerializeError> {
        let mut s = serializer.serialize_struct("A", 1)?;
        s.serialize_field(serializer, "first", &self.first)?;
        s.end(serializer)
    }
}

#[test]
fn test_struct() {
    let mut json = JsonSerializer::new_vec();
    (A { first: 1 }).serialize(&mut json).unwrap();
    assert_eq!(json.as_str(), "{\"first\":1}");
}

#[test]
fn test_str() {
    let mut json = JsonSerializer::new_vec();
    ("aaa").serialize(&mut json).unwrap();
    assert_eq!(json.as_str(), "\"aaa\"");
}

#[test]
fn test_str_escape() {
    let mut json = JsonSerializer::new_vec();
    ("aa\"a").serialize(&mut json).unwrap();
    assert_eq!(json.as_str(), "\"aa\\\"a\"");
}

#[test]
fn test_array() {
    let mut json = JsonSerializer::new_vec();
    ([0, 1, 2]).serialize(&mut json).unwrap();
    assert_eq!(json.as_str(), "[0,1,2]");
}

#[test]
fn test_slice() {
    let mut json = JsonSerializer::new_vec();
    let v = [1, 2, 3];
    let s: &[i32] = &v;
    s.serialize(&mut json).unwrap();
    assert_eq!(json.as_str(), "[1,2,3]");
}

#[test]
fn test_vec() {
    let mut json = JsonSerializer::new_vec();
    let v = vec![10, 20, 30];
    v.serialize(&mut json).unwrap();
    assert_eq!(json.as_str(), "[10,20,30]");
}

#[test]
fn test_vec_empty() {
    let mut json = JsonSerializer::new_vec();
    let v: Vec<u32> = vec![];
    v.serialize(&mut json).unwrap();
    assert_eq!(json.as_str(), "[]");
}

#[test]
fn test_ref() {
    let mut json = JsonSerializer::new_vec();
    let ref_int = &&42;
    ref_int.serialize(&mut json).unwrap();
    assert_eq!(json.as_str(), "42");
}
