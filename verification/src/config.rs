//! The device's configuration and its decoding.

use vstd::prelude::*;
use crate::error::DecodeError;
use crate::json::Json;
use crate::schema::{
    count_at, decoded, first_fault, lemma_first_fault_reads_fields, lemma_missing_member_is_a_fault,
    lemma_other_members_stay, names, read_count, read_record, read_text, record_at, text_at,
    with_member, Field, Kind,
};

verus! {

/// The largest value of a 32-bit setting.
pub const SETTING_MAX: u64 = 4294967295;

/// The state of the device's LED.
#[derive(Clone, Debug, PartialEq, Eq)]
pub struct LedConfig {
    /// The LED's operating mode.
    pub mode: String,
    /// The LED's brightness (unknown units).
    pub brightness: u32,
}

/// The device's active configuration.
#[derive(Clone, Debug, PartialEq, Eq)]
pub struct DeviceConfig {
    /// The device's identifier. The wire calls it a UUID, which it is not.
    pub device_id: String,
    /// The MAC address of the device's WiFi interface.
    pub wifi_mac: String,
    /// The SSID of the WiFi network.
    pub ssid: String,
    /// The device's IP address on the network.
    pub ip: String,
    /// The network's mask, as a dotted quad.
    pub netmask: String,
    /// The network's gateway address.
    pub gateway: String,
    /// The version of the firmware that runs.
    pub firmware_version: String,
    /// The configured time zone, as a TZ database name.
    pub timezone: String,
    /// The current display mode.
    pub display: String,
    /// The state of the LED.
    pub led: LedConfig,
    /// The VOC sensor's feature set, as far as is known (unknown format).
    pub voc_feature_set: u32,
}

/// A [`LedConfig`] with its text as a sequence of characters.
pub struct LedConfigView {
    pub mode: Seq<char>,
    pub brightness: u32,
}

/// A [`DeviceConfig`] with its texts as sequences of characters.
pub struct DeviceConfigView {
    pub device_id: Seq<char>,
    pub wifi_mac: Seq<char>,
    pub ssid: Seq<char>,
    pub ip: Seq<char>,
    pub netmask: Seq<char>,
    pub gateway: Seq<char>,
    pub firmware_version: Seq<char>,
    pub timezone: Seq<char>,
    pub display: Seq<char>,
    pub led: LedConfigView,
    pub voc_feature_set: u32,
}

impl View for LedConfig {
    type V = LedConfigView;

    open spec fn view(&self) -> LedConfigView {
        LedConfigView { mode: self.mode@, brightness: self.brightness }
    }
}

impl View for DeviceConfig {
    type V = DeviceConfigView;

    open spec fn view(&self) -> DeviceConfigView {
        DeviceConfigView {
            device_id: self.device_id@,
            wifi_mac: self.wifi_mac@,
            ssid: self.ssid@,
            ip: self.ip@,
            netmask: self.netmask@,
            gateway: self.gateway@,
            firmware_version: self.firmware_version@,
            timezone: self.timezone@,
            display: self.display@,
            led: self.led@,
            voc_feature_set: self.voc_feature_set,
        }
    }
}

/// The members that the LED's state is read from.
pub open spec fn led_fields() -> Seq<Field> {
    seq![("mode", Kind::Text), ("brightness", Kind::Count(SETTING_MAX))]
}

/// The members that a configuration is read from, by their names on the wire
/// and in the order in which they are checked.
pub open spec fn device_fields() -> Seq<Field> {
    seq![
        ("device_uuid", Kind::Text),
        ("wifi_mac", Kind::Text),
        ("ssid", Kind::Text),
        ("ip", Kind::Text),
        ("netmask", Kind::Text),
        ("gateway", Kind::Text),
        ("fw_version", Kind::Text),
        ("timezone", Kind::Text),
        ("display", Kind::Text),
        ("led", Kind::Record),
        ("voc_feature_set", Kind::Count(SETTING_MAX)),
    ]
}

/// The outcome of decoding `document` as the state of the LED: the fault of
/// the first field that is missing or of the wrong kind, or else the state.
pub open spec fn led_config_of(document: Json) -> Result<LedConfigView, DecodeError> {
    if !(document is Object) {
        Err(DecodeError::NotAnObject)
    } else {
        match first_fault(document, led_fields(), 0) {
            Some(error) => Err(error),
            None => Ok(
                LedConfigView {
                    mode: text_at(document, "mode"@),
                    brightness: count_at(document, "brightness"@) as u32,
                },
            ),
        }
    }
}

/// The outcome of decoding `document` as a configuration: the fault of the
/// first field that is missing or of the wrong kind; where there is none, the
/// fault in the member `led`; or else the configuration.
pub open spec fn device_config_of(document: Json) -> Result<DeviceConfigView, DecodeError> {
    if !(document is Object) {
        Err(DecodeError::NotAnObject)
    } else {
        match first_fault(document, device_fields(), 0) {
            Some(error) => Err(error),
            None => match led_config_of(record_at(document, "led"@)) {
                Err(error) => Err(error),
                Ok(led) => Ok(
                    DeviceConfigView {
                        device_id: text_at(document, "device_uuid"@),
                        wifi_mac: text_at(document, "wifi_mac"@),
                        ssid: text_at(document, "ssid"@),
                        ip: text_at(document, "ip"@),
                        netmask: text_at(document, "netmask"@),
                        gateway: text_at(document, "gateway"@),
                        firmware_version: text_at(document, "fw_version"@),
                        timezone: text_at(document, "timezone"@),
                        display: text_at(document, "display"@),
                        led,
                        voc_feature_set: count_at(document, "voc_feature_set"@) as u32,
                    },
                ),
            },
        }
    }
}

impl LedConfig {
    /// Decodes the state of the LED from a JSON object. Members that the
    /// state does not name are passed over.
    pub fn from_json(document: &Json) -> (outcome: Result<LedConfig, DecodeError>)
        ensures
            decoded(outcome, led_config_of(*document)),
    {
        proof {
            reveal_with_fuel(first_fault, 3);
        }
        match document {
            Json::Object(_) => {
                let mode = read_text(document, "mode")?;
                let brightness = read_count(document, "brightness", SETTING_MAX)?;
                Ok(LedConfig { mode, brightness: brightness as u32 })
            },
            _ => Err(DecodeError::NotAnObject),
        }
    }
}

impl DeviceConfig {
    /// Decodes a configuration from the JSON object that the device sends.
    /// Members that the configuration does not name are passed over.
    pub fn from_json(document: &Json) -> (outcome: Result<DeviceConfig, DecodeError>)
        ensures
            decoded(outcome, device_config_of(*document)),
    {
        proof {
            reveal_with_fuel(first_fault, 12);
        }
        match document {
            Json::Object(_) => {
                let device_id = read_text(document, "device_uuid")?;
                let wifi_mac = read_text(document, "wifi_mac")?;
                let ssid = read_text(document, "ssid")?;
                let ip = read_text(document, "ip")?;
                let netmask = read_text(document, "netmask")?;
                let gateway = read_text(document, "gateway")?;
                let firmware_version = read_text(document, "fw_version")?;
                let timezone = read_text(document, "timezone")?;
                let display = read_text(document, "display")?;
                let led_record = read_record(document, "led")?;
                let voc_feature_set = read_count(document, "voc_feature_set", SETTING_MAX)?;
                let led = LedConfig::from_json(led_record)?;
                Ok(
                    DeviceConfig {
                        device_id,
                        wifi_mac,
                        ssid,
                        ip,
                        netmask,
                        gateway,
                        firmware_version,
                        timezone,
                        display,
                        led,
                        voc_feature_set: voc_feature_set as u32,
                    },
                )
            },
            _ => Err(DecodeError::NotAnObject),
        }
    }
}

/// The members with other names on the wire than in the configuration
/// reach the fields they are meant for: `device_uuid` is the device's
/// identifier and `fw_version` the version of its firmware.
pub proof fn lemma_renamed_members_are_mapped(document: Json)
    requires
        device_config_of(document) is Ok,
    ensures
        ({
            let config = device_config_of(document)->Ok_0;
            &&& document.member("device_uuid"@) matches Some(Json::Text(text)) && text@ == config.device_id
            &&& document.member("fw_version"@) matches Some(Json::Text(text)) && text@
                == config.firmware_version
        }),
{
    reveal_with_fuel(first_fault, 12);
}

/// Decoding passes over what it does not know: an object with one more
/// member, under a name that is no field of the configuration, decodes to
/// what the object decodes to without it.
pub proof fn lemma_unknown_member_is_ignored(before: Json, after: Json, at: int, extra: (String, Json))
    requires
        with_member(before, after, at, extra),
        !names(device_fields(), extra.0@),
    ensures
        device_config_of(after) == device_config_of(before),
{
    let fields = device_fields();
    assert forall|i: int| 0 <= i < fields.len() implies after.member((#[trigger] fields[i]).0@)
        == before.member(fields[i].0@) by {
        lemma_other_members_stay(before, after, at, extra, fields[i].0@);
    }
    lemma_first_fault_reads_fields(after, before, fields, 0);
    assert(fields[0].0 == "device_uuid" && fields[1].0 == "wifi_mac" && fields[2].0 == "ssid");
    assert(fields[3].0 == "ip" && fields[4].0 == "netmask" && fields[5].0 == "gateway");
    assert(fields[6].0 == "fw_version" && fields[7].0 == "timezone" && fields[8].0 == "display");
    assert(fields[9].0 == "led" && fields[10].0 == "voc_feature_set");
}

/// Every field is required: a document that lacks the member of one of
/// them does not decode.
pub proof fn lemma_missing_member_fails(document: Json, which: int)
    requires
        0 <= which < device_fields().len(),
        document.member(device_fields()[which].0@) is None,
    ensures
        device_config_of(document) is Err,
{
    lemma_missing_member_is_a_fault(document, device_fields(), which, 0);
}

} // verus!
