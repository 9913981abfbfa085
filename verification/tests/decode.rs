use awair_local_api::{AirData, DecodeError, DeviceConfig, Json, LedConfig, Number, Timestamp};

const SAMPLE: &str = r#"{"timestamp":"2020-08-31T22:07:03.831Z","score":85,"dew_point":10.26,"temp":21.5,"humid":48.9,"abs_humid":9.2,"co2":612,"co2_est":400,"co2_est_baseline":37106,"voc":30,"voc_baseline":2450742,"voc_h2_raw":25,"voc_ethanol_raw":36,"pm25":2,"pm10_est":3}"#;

const CONFIG: &str = r#"{"device_uuid":"awair-element_1234","wifi_mac":"70:88:6B:12:34:56","ssid":"home","ip":"192.168.1.10","netmask":"255.255.255.0","gateway":"192.168.1.1","fw_version":"1.1.5","timezone":"America/Los_Angeles","display":"score","led":{"mode":"auto","brightness":179},"voc_feature_set":34}"#;

fn document(text: &str) -> Json {
    Json::parse(text.as_bytes()).unwrap()
}

fn as_f32(n: Number) -> f32 {
    match (n.unsigned, n.signed, n.real) {
        (Some(u), _, _) => u as f32,
        (None, Some(i), _) => i as f32,
        (None, None, Some(bits)) => f64::from_bits(bits) as f32,
        (None, None, None) => panic!("a number that reads in no way"),
    }
}

fn without(text: &str, name: &str) -> Json {
    match document(text) {
        Json::Object(members) => Json::Object(members.into_iter().filter(|(key, _)| key != name).collect()),
        other => other,
    }
}

fn with(text: &str, name: &str, value: Json) -> Json {
    match document(text) {
        Json::Object(members) => Json::Object(
            members
                .into_iter()
                .map(|(key, old)| if key == name { (key, value_of(&value)) } else { (key, old) })
                .collect(),
        ),
        other => other,
    }
}

fn value_of(value: &Json) -> Json {
    match value {
        Json::Null => Json::Null,
        Json::Bool(b) => Json::Bool(*b),
        Json::Number(n) => Json::Number(*n),
        Json::Text(s) => Json::Text(s.clone()),
        Json::Array(items) => Json::Array(items.iter().map(value_of).collect()),
        Json::Object(members) => Json::Object(members.iter().map(|(k, v)| (k.clone(), value_of(v))).collect()),
    }
}

#[test]
fn sample_decodes_with_every_field() {
    let sample = AirData::from_json(&document(SAMPLE)).unwrap();
    assert_eq!(sample.timestamp, Timestamp { seconds: 1598911623, nanos: 831_000_000 });
    assert_eq!(sample.score, 85);
    assert_eq!(as_f32(sample.dew_point), 10.26f32);
    assert_eq!(as_f32(sample.temperature), 21.5f32);
    assert_eq!(as_f32(sample.humidity), 48.9f32);
    assert_eq!(as_f32(sample.absolute_humidity), 9.2f32);
    assert_eq!(sample.co2, 612);
    assert_eq!(sample.estimated_co2, 400);
    assert_eq!(sample.estimated_co2_baseline, 37106);
    assert_eq!(sample.voc, 30);
    assert_eq!(sample.voc_baseline, 2450742);
    assert_eq!(sample.voc_h2_raw, 25);
    assert_eq!(sample.voc_ethanol_raw, 36);
    assert_eq!(sample.pm25, 2);
    assert_eq!(sample.estimated_pm10, 3);
}

#[test]
fn sample_takes_renamed_members_to_their_fields() {
    let text = r#"{"timestamp":"2021-01-02T03:04:05Z","score":1,"dew_point":2,"temp":3,"humid":4,"abs_humid":5,"co2":6,"co2_est":7,"co2_est_baseline":8,"voc":9,"voc_baseline":10,"voc_h2_raw":11,"voc_ethanol_raw":12,"pm25":13,"pm10_est":14}"#;
    let sample = AirData::from_json(&document(text)).unwrap();
    assert_eq!(sample.score, 1);
    assert_eq!(sample.dew_point.unsigned, Some(2));
    assert_eq!(sample.temperature.unsigned, Some(3));
    assert_eq!(sample.humidity.unsigned, Some(4));
    assert_eq!(sample.absolute_humidity.unsigned, Some(5));
    assert_eq!(sample.co2, 6);
    assert_eq!(sample.estimated_co2, 7);
    assert_eq!(sample.estimated_co2_baseline, 8);
    assert_eq!(sample.voc, 9);
    assert_eq!(sample.voc_baseline, 10);
    assert_eq!(sample.voc_h2_raw, 11);
    assert_eq!(sample.voc_ethanol_raw, 12);
    assert_eq!(sample.pm25, 13);
    assert_eq!(sample.estimated_pm10, 14);
    assert_eq!(as_f32(sample.temperature), 3.0f32);
}

#[test]
fn sample_does_not_read_fields_by_their_own_names() {
    let text = SAMPLE
        .replace("\"temp\"", "\"temperature\"")
        .replace("\"humid\"", "\"humidity\"");
    assert_eq!(AirData::from_json(&document(&text)), Err(DecodeError::Missing("temp")));
    let text = SAMPLE.replace("\"pm10_est\"", "\"estimated_pm10\"");
    assert_eq!(AirData::from_json(&document(&text)), Err(DecodeError::Missing("pm10_est")));
}

#[test]
fn sample_ignores_members_it_does_not_know() {
    let known = AirData::from_json(&document(SAMPLE)).unwrap();
    let text = SAMPLE.replacen('{', r#"{"firmware":{"build":[1,2,3]},"#, 1);
    assert_eq!(AirData::from_json(&document(&text)), Ok(known));
    let text = SAMPLE.replacen('}', r#","lux":null}"#, 1);
    assert_eq!(AirData::from_json(&document(&text)), Ok(known));
}

#[test]
fn sample_needs_every_member() {
    for name in [
        "timestamp", "score", "dew_point", "temp", "humid", "abs_humid", "co2", "co2_est",
        "co2_est_baseline", "voc", "voc_baseline", "voc_h2_raw", "voc_ethanol_raw", "pm25", "pm10_est",
    ] {
        assert_eq!(AirData::from_json(&without(SAMPLE, name)), Err(DecodeError::Missing(name)));
    }
}

#[test]
fn sample_reports_the_first_fault_in_field_order() {
    let doc = without(SAMPLE, "pm25");
    let doc = match doc {
        Json::Object(members) => Json::Object(members.into_iter().filter(|(key, _)| key != "humid").collect()),
        other => other,
    };
    assert_eq!(AirData::from_json(&doc), Err(DecodeError::Missing("humid")));
    let doc = with(SAMPLE, "timestamp", Json::Bool(true));
    let doc = match doc {
        Json::Object(members) => Json::Object(members.into_iter().filter(|(key, _)| key != "score").collect()),
        other => other,
    };
    assert_eq!(AirData::from_json(&doc), Err(DecodeError::Mistyped("timestamp")));
}

#[test]
fn sample_refuses_members_of_the_wrong_kind() {
    let cases = [
        ("timestamp", "\"not a time\""),
        ("timestamp", "1598911623"),
        ("score", "\"85\""),
        ("score", "85.0"),
        ("score", "-1"),
        ("score", "256"),
        ("dew_point", "\"10.26\""),
        ("temp", "null"),
        ("humid", "[48.9]"),
        ("abs_humid", "true"),
        ("co2", "4294967296"),
        ("co2", "612.5"),
        ("co2_est", "-400"),
        ("voc", "{}"),
        ("pm10_est", "null"),
    ];
    for (name, text) in cases {
        let doc = with(SAMPLE, name, document(text));
        assert_eq!(AirData::from_json(&doc), Err(DecodeError::Mistyped(name)), "{} = {}", name, text);
    }
}

#[test]
fn sample_takes_the_ends_of_each_range() {
    let doc = with(SAMPLE, "score", document("255"));
    assert_eq!(AirData::from_json(&doc).unwrap().score, 255);
    let doc = with(SAMPLE, "score", document("0"));
    assert_eq!(AirData::from_json(&doc).unwrap().score, 0);
    let doc = with(SAMPLE, "voc_baseline", document("4294967295"));
    assert_eq!(AirData::from_json(&doc).unwrap().voc_baseline, u32::MAX);
    let doc = with(SAMPLE, "dew_point", document("-3.25"));
    assert_eq!(as_f32(AirData::from_json(&doc).unwrap().dew_point), -3.25f32);
    let doc = with(SAMPLE, "dew_point", document("-3"));
    assert_eq!(as_f32(AirData::from_json(&doc).unwrap().dew_point), -3.0f32);
}

#[test]
fn sample_is_an_object() {
    for text in ["null", "[]", "\"{}\"", "7", "true"] {
        assert_eq!(AirData::from_json(&document(text)), Err(DecodeError::NotAnObject));
    }
    assert_eq!(AirData::from_json(&document("{}")), Err(DecodeError::Missing("timestamp")));
}

#[test]
fn with_timestamp_reads_all_but_the_time() {
    let at = Timestamp { seconds: 7, nanos: 9 };
    let read = AirData::from_json(&document(SAMPLE)).unwrap();
    assert_eq!(AirData::with_timestamp(&document(SAMPLE), at), Ok(AirData { timestamp: at, ..read }));
    assert_eq!(AirData::with_timestamp(&without(SAMPLE, "timestamp"), at), Ok(AirData { timestamp: at, ..read }));
    assert_eq!(AirData::with_timestamp(&without(SAMPLE, "score"), at), Err(DecodeError::Missing("score")));
    assert_eq!(AirData::with_timestamp(&Json::Null, at), Err(DecodeError::Missing("score")));
}

#[test]
fn config_decodes_with_every_field() {
    let config = DeviceConfig::from_json(&document(CONFIG)).unwrap();
    assert_eq!(
        config,
        DeviceConfig {
            device_id: "awair-element_1234".to_string(),
            wifi_mac: "70:88:6B:12:34:56".to_string(),
            ssid: "home".to_string(),
            ip: "192.168.1.10".to_string(),
            netmask: "255.255.255.0".to_string(),
            gateway: "192.168.1.1".to_string(),
            firmware_version: "1.1.5".to_string(),
            timezone: "America/Los_Angeles".to_string(),
            display: "score".to_string(),
            led: LedConfig { mode: "auto".to_string(), brightness: 179 },
            voc_feature_set: 34,
        }
    );
}

#[test]
fn config_does_not_read_fields_by_their_own_names() {
    let text = CONFIG.replace("\"device_uuid\"", "\"device_id\"");
    assert_eq!(DeviceConfig::from_json(&document(&text)), Err(DecodeError::Missing("device_uuid")));
    let text = CONFIG.replace("\"fw_version\"", "\"firmware_version\"");
    assert_eq!(DeviceConfig::from_json(&document(&text)), Err(DecodeError::Missing("fw_version")));
}

#[test]
fn config_ignores_members_it_does_not_know() {
    let known = DeviceConfig::from_json(&document(CONFIG)).unwrap();
    let text = CONFIG.replacen('{', r#"{"power-status":{"battery":100,"plugged":true},"#, 1);
    assert_eq!(DeviceConfig::from_json(&document(&text)), Ok(known.clone()));
    let text = CONFIG.replace(r#""mode":"auto","#, r#""mode":"auto","colour":"green","#);
    assert_eq!(DeviceConfig::from_json(&document(&text)), Ok(known));
}

#[test]
fn config_needs_every_member() {
    for name in [
        "device_uuid", "wifi_mac", "ssid", "ip", "netmask", "gateway", "fw_version", "timezone", "display",
        "led", "voc_feature_set",
    ] {
        assert_eq!(DeviceConfig::from_json(&without(CONFIG, name)), Err(DecodeError::Missing(name)));
    }
}

#[test]
fn config_refuses_members_of_the_wrong_kind() {
    let cases = [
        ("device_uuid", "1234"),
        ("ssid", "null"),
        ("ip", "[192,168,1,10]"),
        ("display", "false"),
        ("led", "\"auto\""),
        ("led", "[]"),
        ("voc_feature_set", "\"34\""),
        ("voc_feature_set", "4294967296"),
        ("voc_feature_set", "-34"),
    ];
    for (name, text) in cases {
        let doc = with(CONFIG, name, document(text));
        assert_eq!(DeviceConfig::from_json(&doc), Err(DecodeError::Mistyped(name)), "{} = {}", name, text);
    }
}

#[test]
fn config_reports_a_fault_in_the_led_after_its_own() {
    let doc = with(CONFIG, "led", document(r#"{"mode":"auto"}"#));
    assert_eq!(DeviceConfig::from_json(&doc), Err(DecodeError::Missing("brightness")));
    let doc = with(CONFIG, "led", document(r#"{"mode":7,"brightness":1}"#));
    assert_eq!(DeviceConfig::from_json(&doc), Err(DecodeError::Mistyped("mode")));
    let doc = with(CONFIG, "led", document("{}"));
    let doc = match doc {
        Json::Object(members) => {
            Json::Object(members.into_iter().filter(|(key, _)| key != "voc_feature_set").collect())
        }
        other => other,
    };
    assert_eq!(DeviceConfig::from_json(&doc), Err(DecodeError::Missing("voc_feature_set")));
}

#[test]
fn led_decodes_alone() {
    let led = LedConfig::from_json(&document(r#"{"brightness":4294967295,"mode":"manual"}"#)).unwrap();
    assert_eq!(led, LedConfig { mode: "manual".to_string(), brightness: u32::MAX });
    assert_eq!(LedConfig::from_json(&document("[]")), Err(DecodeError::NotAnObject));
    assert_eq!(LedConfig::from_json(&document("{}")), Err(DecodeError::Missing("mode")));
    assert_eq!(
        LedConfig::from_json(&document(r#"{"mode":"auto","brightness":1.5}"#)),
        Err(DecodeError::Mistyped("brightness"))
    );
}

fn instant(text: &str) -> Result<Timestamp, DecodeError> {
    let doc = with(SAMPLE, "timestamp", Json::Text(text.to_string()));
    AirData::from_json(&doc).map(|sample| sample.timestamp)
}

#[test]
fn timestamp_reads_rfc3339() {
    assert_eq!(instant("2020-08-31T22:07:03.831Z"), Ok(Timestamp { seconds: 1598911623, nanos: 831_000_000 }));
    assert_eq!(instant("2012-12-12T12:12:12Z"), Ok(Timestamp { seconds: 1355314332, nanos: 0 }));
}

#[test]
fn timestamp_brings_an_offset_to_utc() {
    assert_eq!(instant("2012-12-12T14:12:12+02:00"), Ok(Timestamp { seconds: 1355314332, nanos: 0 }));
    assert_eq!(instant("2012-12-12 12:12:12+0000"), Ok(Timestamp { seconds: 1355314332, nanos: 0 }));
}

#[test]
fn timestamp_counts_into_a_leap_second() {
    assert_eq!(instant("2016-12-31T23:59:60Z"), Ok(Timestamp { seconds: 1483228799, nanos: 1_000_000_000 }));
}

#[test]
fn timestamp_before_the_epoch_is_negative() {
    assert_eq!(instant("1969-12-31T23:59:59.5Z"), Ok(Timestamp { seconds: -1, nanos: 500_000_000 }));
}

#[test]
fn timestamp_refuses_other_text() {
    for text in [
        "",
        "yesterday",
        "2020-08-31",
        "2020-08-31T22:07:03",
        "2020-13-31T22:07:03Z",
        "2020-08-31T22:07:03Z and more",
    ] {
        assert_eq!(instant(text), Err(DecodeError::Mistyped("timestamp")), "{}", text);
    }
}
