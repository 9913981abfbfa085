use awair_local_api::{Json, Number};

fn whole(n: u64) -> Json {
    Json::Number(Number { unsigned: Some(n), signed: Some(n as i64), real: Some((n as f64).to_bits()) })
}

#[test]
fn parse_reads_every_kind_of_value() {
    let doc = Json::parse(br#"{"a": null, "b": true, "c": "x", "d": [1, "y"], "e": {"f": false}}"#).unwrap();
    assert_eq!(doc.get("a"), Some(&Json::Null));
    assert_eq!(doc.get("b"), Some(&Json::Bool(true)));
    assert_eq!(doc.get("c"), Some(&Json::Text("x".to_string())));
    assert_eq!(doc.get("d"), Some(&Json::Array(vec![whole(1), Json::Text("y".to_string())])));
    assert_eq!(doc.get("e"), Some(&Json::Object(vec![("f".to_string(), Json::Bool(false))])));
    assert_eq!(doc.get("g"), None);
}

#[test]
fn parse_reads_a_whole_number_three_ways() {
    let doc = Json::parse(b"612").unwrap();
    assert_eq!(
        doc,
        Json::Number(Number { unsigned: Some(612), signed: Some(612), real: Some(4648594424748572672) })
    );
}

#[test]
fn parse_reads_a_negative_number_as_signed() {
    let doc = Json::parse(b"-5").unwrap();
    assert_eq!(
        doc,
        Json::Number(Number { unsigned: None, signed: Some(-5), real: Some((-5.0f64).to_bits()) })
    );
}

#[test]
fn parse_reads_a_fraction_as_real_only() {
    let doc = Json::parse(b"21.5").unwrap();
    assert_eq!(doc, Json::Number(Number { unsigned: None, signed: None, real: Some(4626744929681408000) }));
    let doc = Json::parse(b"-3.25").unwrap();
    assert_eq!(doc, Json::Number(Number { unsigned: None, signed: None, real: Some(13837872805049270272) }));
    match Json::parse(b"10.26").unwrap() {
        Json::Number(n) => assert_eq!(f64::from_bits(n.real.unwrap()), 10.26),
        other => panic!("not a number: {:?}", other),
    }
}

#[test]
fn parse_reads_the_largest_unsigned_number() {
    let doc = Json::parse(b"18446744073709551615").unwrap();
    match doc {
        Json::Number(n) => {
            assert_eq!(n.unsigned, Some(u64::MAX));
            assert_eq!(n.signed, None);
        }
        other => panic!("not a number: {:?}", other),
    }
}

#[test]
fn parse_refuses_what_is_not_json() {
    let complaint = Json::parse(b"{\"a\": ").unwrap_err();
    assert!(complaint.contains("line 1"), "{}", complaint);
    assert!(Json::parse(b"").is_err());
    assert!(Json::parse(b"not json").is_err());
    assert!(Json::parse(b"{} trailing").is_err());
    assert!(Json::parse(&[0xff, 0xfe]).is_err());
}

#[test]
fn get_finds_the_first_member_of_a_name() {
    let doc = Json::Object(vec![
        ("a".to_string(), whole(1)),
        ("b".to_string(), whole(2)),
        ("a".to_string(), whole(3)),
    ]);
    assert_eq!(doc.get("a"), Some(&whole(1)));
    assert_eq!(doc.get("b"), Some(&whole(2)));
    assert_eq!(doc.get("c"), None);
    assert_eq!(doc.get(""), None);
}

#[test]
fn get_finds_nothing_in_what_is_no_object() {
    assert_eq!(Json::Null.get("a"), None);
    assert_eq!(Json::Text("a".to_string()).get("a"), None);
    assert_eq!(Json::Array(vec![whole(1)]).get("0"), None);
    assert_eq!(Json::Object(Vec::new()).get("a"), None);
}

#[test]
fn get_tells_names_apart_by_every_character() {
    let doc = Json::parse("{\"temp\": 1, \"temp \": 2, \"t\u{e9}mp\": 3}".as_bytes()).unwrap();
    assert_eq!(doc.get("temp"), Some(&whole(1)));
    assert_eq!(doc.get("temp "), Some(&whole(2)));
    assert_eq!(doc.get("t\u{e9}mp"), Some(&whole(3)));
    assert_eq!(doc.get("tem"), None);
}
