use nakji::key::{Key, ParseKeyError};

#[test]
fn create_new_key() {
    let key = Key::new("ethereum".to_string(), "Transaction".to_string());
    let expected = Key { namespace: "ethereum".to_string(), subject: "Transaction".to_string() };
    assert_eq!(key, expected);
}

#[test]
fn convert_key_to_bytes() {
    let key = Key::new("ethereum".to_string(), "Transaction".to_string());
    let expected: Vec<u8> = vec![
        101, 116, 104, 101, 114, 101, 117, 109, 46, 84, 114, 97, 110, 115, 97, 99, 116, 105, 111,
        110,
    ];
    assert_eq!(key.to_bytes(), expected);
}

#[test]
fn convert_key_to_string() {
    let key = Key::new("ethereum".to_string(), "Transaction".to_string());
    let expected: String = String::from("ethereum.Transaction");
    assert_eq!(key.to_string(), expected);
}

#[test]
fn parse_key_with_bytes() {
    let key: Vec<u8> = vec![
        101, 116, 104, 101, 114, 101, 117, 109, 46, 84, 114, 97, 110, 115, 97, 99, 116, 105, 111,
        110,
    ];
    let expected = Key { namespace: "ethereum".to_string(), subject: "Transaction".to_string() };
    assert_eq!(Key::parse_key(&key).unwrap(), expected);
}

#[test]
fn parse_key_error() {
    let error_key = vec![0, 159];
    let expected_error = String::from_utf8(error_key.clone()).unwrap_err();
    assert_eq!(
        Key::parse_key(&error_key).unwrap_err(),
        ParseKeyError::ConvertVec(expected_error.into_bytes()),
        "convert vec to String error"
    );

    let error_key: Vec<u8> = vec![
        101, 116, 104, 101, 114, 101, 117, 109, 84, 114, 97, 110, 115, 97, 99, 116, 105, 111, 110,
    ];
    assert_eq!(
        Key::parse_key(&error_key).unwrap_err(),
        ParseKeyError::WrongFormat("ethereumTransaction".to_string()),
        "wrong String format error"
    );
}

#[test]
fn parse_key_rejects_three_segments() {
    let bytes: Vec<u8> = "a.b.c".as_bytes().to_vec();
    assert_eq!(
        Key::parse_key(&bytes).unwrap_err(),
        ParseKeyError::WrongFormat("a.b.c".to_string())
    );
}

#[test]
fn parse_key_empty_input_is_empty_key() {
    let bytes: Vec<u8> = vec![];
    let expected = Key { namespace: String::new(), subject: String::new() };
    assert_eq!(Key::parse_key(&bytes).unwrap(), expected);
}

#[test]
fn parse_key_roundtrip() {
    let cases = vec![
        ("ethereum", "Transaction"),
        ("", ""),
        ("a", ""),
        ("", "b"),
        ("nakji", "chain_Block"),
    ];
    for (ns, subj) in cases {
        let key = Key::new(ns.to_string(), subj.to_string());
        let parsed = Key::parse_key(&key.to_bytes()).unwrap();
        assert_eq!(parsed, key);
    }
}
