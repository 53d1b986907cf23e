use futures_cache::{Cache, Error, KeyFormat, Origin, SweepAction, SweepEvent};

#[test]
fn keys_read_as_json() {
    let cache = match Cache::load().cleanup(SweepEvent::End) {
        SweepAction::Finish(Ok(cache)) => cache,
        _ => unreachable!(),
    };
    let named = cache.namespaced(serde_hashkey::to_key(&"ns")).expect("namespace");
    let key = named.key(serde_hashkey::to_key(&"a")).expect("key");
    assert_eq!(r#"["ns","a"]"#, KeyFormat(&key).text());
}

#[test]
fn malformed_bytes_read_as_hex() {
    assert_eq!("ff00a90f", KeyFormat(&[0xff, 0x00, 0xa9, 0x0f]).text());
    assert_eq!("", KeyFormat(&[]).text());
}

#[test]
fn values_without_json_read_as_hex() {
    // A map from an array to a number.
    assert_eq!("a1810102", KeyFormat(&[0xa1, 0x81, 0x01, 0x02]).text());
}

#[test]
fn the_choice_between_json_and_hex() {
    assert_eq!("{}", KeyFormat(&[0xa0]).or_hex(Some(String::from("{}"))));
    assert_eq!("a0", KeyFormat(&[0xa0]).or_hex(None));
}

#[test]
fn errors_tell_where_they_come_from() {
    let cbor = serde_cbor::from_slice::<u8>(&[]).unwrap_err();
    let text = format!("CBOR error: {}", cbor);
    assert_eq!(text, Error::from(cbor).message());
    let key = serde_hashkey::to_key(&1.5f32).unwrap_err();
    let text = format!("HashKey error: {}", key);
    assert_eq!(text, Error::from(key).message());
    let json = serde_json::from_str::<u8>("").unwrap_err();
    let text = format!("JSON error: {}", json);
    assert_eq!(text, Error::from(json).message());
    let sled = sled::Error::Unsupported(String::from("x"));
    let text = format!("Database error: {}", sled);
    assert_eq!(text, Error::from(sled).message());
    assert_eq!("Operation failed", Error::Failed.message());
}

#[test]
fn errors_are_described_by_their_kind() {
    let sled = Error::from(sled::Error::Unsupported(String::from("x")));
    assert_eq!("Database error: y", sled.describe("y"));
    assert_eq!("Operation failed", Error::Failed.describe("y"));
    assert_eq!(Origin::Sled, sled.origin());
    assert_eq!(Origin::Future, Error::Failed.origin());
    assert_eq!("CBOR error: y", Origin::Cbor.describe("y"));
    assert_eq!("HashKey error: y", Origin::HashKey.describe("y"));
    assert_eq!("JSON error: y", Origin::Json.describe("y"));
}

#[test]
fn errors_convert_by_their_kind() {
    let cbor = serde_cbor::from_slice::<u8>(&[]).unwrap_err();
    assert!(matches!(Error::from(cbor), Error::Cbor(_)));
    let key = serde_hashkey::to_key(&1.5f32).unwrap_err();
    assert!(matches!(Error::from(key), Error::HashKey(_)));
    let json = serde_json::from_str::<u8>("").unwrap_err();
    assert!(matches!(Error::from(json), Error::Json(_)));
    let sled = sled::Error::Unsupported(String::from("x"));
    assert!(matches!(Error::from(sled), Error::Sled(_)));
}
