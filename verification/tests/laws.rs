use poc_typeinfo_new_deser::json::JsonSerializer;
use poc_typeinfo_new_deser::{Ser, SerializeMap, Serializer};

fn unescape(t: &str) -> String {
    let mut out = String::new();
    let mut chars = t.chars();
    while let Some(c) = chars.next() {
        if c == '\\' {
            match chars.next() {
                Some('n') => out.push('\n'),
                Some('r') => out.push('\r'),
                Some('t') => out.push('\t'),
                Some('b') => out.push('\u{8}'),
                Some('f') => out.push('\u{c}'),
                Some('u') => {
                    let hex: String = chars.by_ref().take(4).collect();
                    let code = u32::from_str_radix(&hex, 16).unwrap();
                    out.push(char::from_u32(code).unwrap());
                }
                Some(other) => out.push(other),
                None => out.push('\\'),
            }
        } else {
            out.push(c);
        }
    }
    out
}

#[test]
fn writes_accumulate_as_text() {
    let mut json = JsonSerializer::new_vec();
    1u8.serialize(&mut json).unwrap();
    "é".serialize(&mut json).unwrap();
    vec![true].serialize(&mut json).unwrap();
    assert_eq!(json.as_str(), "1\"é\"[true]");
}

#[test]
fn escaped_strings_read_back() {
    for s in ["plain", "q\"uote", "back\\slash\\", "\n\r\t", "\\n", "ü€\u{1F600}", "", "\u{0}\u{1}\u{8}\u{c}\u{1f}\u{7f}"] {
        let mut json = JsonSerializer::new_vec();
        s.serialize(&mut json).unwrap();
        let text = json.into_string();
        assert!(text.starts_with('"') && text.ends_with('"'));
        assert_eq!(unescape(&text[1..text.len() - 1]), s);
    }
}

#[test]
fn decimals_read_back() {
    for v in [0i128, 9, 10, -1, -10, 99999, i128::MIN, i128::MAX] {
        let mut json = JsonSerializer::new_vec();
        v.serialize(&mut json).unwrap();
        assert_eq!(json.as_str().parse::<i128>().unwrap(), v);
    }
    let mut json = JsonSerializer::new_vec();
    u128::MAX.serialize(&mut json).unwrap();
    assert_eq!(json.as_str().parse::<u128>().unwrap(), u128::MAX);
}

#[test]
fn partial_output_is_text() {
    let mut json = JsonSerializer::new_vec();
    let mut m = json.serialize_map(None).unwrap();
    m.serialize_key(&mut json, "ké").unwrap();
    assert_eq!(json.as_str(), "{\"ké\":");
    m.serialize_value(&mut json, &1u8).unwrap();
    assert_eq!(json.as_str(), "{\"ké\":1");
    m.end(&mut json).unwrap();
    assert_eq!(json.as_str(), "{\"ké\":1}");
}

#[test]
fn string_text_has_no_raw_control_characters() {
    let all: String = (0u32..0x80).filter_map(char::from_u32).collect();
    let mut json = JsonSerializer::new_vec();
    all.serialize(&mut json).unwrap();
    let text = json.into_string();
    assert!(text.chars().all(|c| (c as u32) >= 0x20));
    assert_eq!(unescape(&text[1..text.len() - 1]), all);
}
