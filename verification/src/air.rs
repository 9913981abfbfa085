//! The air-quality sample and its decoding.

use vstd::prelude::*;
use crate::error::DecodeError;
use crate::json::{Json, Number};
use crate::schema::{
    count_at, fault, first_fault, instant_at, lemma_first_fault_reads_fields,
    lemma_missing_member_is_a_fault, lemma_no_fault_when_all_fit, lemma_other_members_stay,
    measure_at, names, read_count, read_instant, read_measure, with_member, Field, Kind,
};
use crate::time::Timestamp;

verus! {

/// The largest score.
pub const SCORE_MAX: u64 = 255;

/// The largest reading of a counting sensor.
pub const READING_MAX: u64 = 4294967295;

/// A sample of air quality data, as one poll of the device returns it.
#[derive(Clone, Copy, Debug, PartialEq, Eq)]
pub struct AirData {
    /// The time by the device's internal clock.
    pub timestamp: Timestamp,
    /// The Awair Score, from 0 to 100.
    pub score: u8,
    /// The dew point, in degrees Celsius.
    pub dew_point: Number,
    /// The dry bulb temperature, in degrees Celsius.
    pub temperature: Number,
    /// The relative humidity, as a percentage.
    pub humidity: Number,
    /// The absolute humidity.
    pub absolute_humidity: Number,
    /// The CO2 reading, in parts per million.
    pub co2: u32,
    /// The VOC sensor's estimate of CO2, in parts per million.
    pub estimated_co2: u32,
    /// The VOC sensor's CO2 baseline (unitless).
    pub estimated_co2_baseline: u32,
    /// The total VOC reading, in parts per billion.
    pub voc: u32,
    /// The VOC sensor's baseline (unitless).
    pub voc_baseline: u32,
    /// The VOC sensor's raw hydrogen reading (unitless).
    pub voc_h2_raw: u32,
    /// The VOC sensor's raw ethanol reading (unitless).
    pub voc_ethanol_raw: u32,
    /// The PM2.5 reading, in micrograms per cubic metre.
    pub pm25: u32,
    /// The estimate of PM10, in micrograms per cubic metre.
    pub estimated_pm10: u32,
}

/// The members that a sample is read from, by their names on the wire and in
/// the order in which they are checked.
pub open spec fn air_fields() -> Seq<Field> {
    seq![
        ("timestamp", Kind::Instant),
        ("score", Kind::Count(SCORE_MAX)),
        ("dew_point", Kind::Measure),
        ("temp", Kind::Measure),
        ("humid", Kind::Measure),
        ("abs_humid", Kind::Measure),
        ("co2", Kind::Count(READING_MAX)),
        ("co2_est", Kind::Count(READING_MAX)),
        ("co2_est_baseline", Kind::Count(READING_MAX)),
        ("voc", Kind::Count(READING_MAX)),
        ("voc_baseline", Kind::Count(READING_MAX)),
        ("voc_h2_raw", Kind::Count(READING_MAX)),
        ("voc_ethanol_raw", Kind::Count(READING_MAX)),
        ("pm25", Kind::Count(READING_MAX)),
        ("pm10_est", Kind::Count(READING_MAX)),
    ]
}

/// The sample that the members of `document` spell out: each field of the
/// sample with the member it is taken from.
pub open spec fn air_record(document: Json) -> AirData {
    AirData {
        timestamp: instant_at(document, "timestamp"@),
        score: count_at(document, "score"@) as u8,
        dew_point: measure_at(document, "dew_point"@),
        temperature: measure_at(document, "temp"@),
        humidity: measure_at(document, "humid"@),
        absolute_humidity: measure_at(document, "abs_humid"@),
        co2: count_at(document, "co2"@) as u32,
        estimated_co2: count_at(document, "co2_est"@) as u32,
        estimated_co2_baseline: count_at(document, "co2_est_baseline"@) as u32,
        voc: count_at(document, "voc"@) as u32,
        voc_baseline: count_at(document, "voc_baseline"@) as u32,
        voc_h2_raw: count_at(document, "voc_h2_raw"@) as u32,
        voc_ethanol_raw: count_at(document, "voc_ethanol_raw"@) as u32,
        pm25: count_at(document, "pm25"@) as u32,
        estimated_pm10: count_at(document, "pm10_est"@) as u32,
    }
}

/// The outcome of decoding `document` as a sample: the fault of the first
/// field that is missing or of the wrong kind, or else the sample.
pub open spec fn air_data_of(document: Json) -> Result<AirData, DecodeError> {
    if !(document is Object) {
        Err(DecodeError::NotAnObject)
    } else {
        match first_fault(document, air_fields(), 0) {
            Some(error) => Err(error),
            None => Ok(air_record(document)),
        }
    }
}

/// The outcome of decoding the readings of `document` as a sample taken at
/// `timestamp`: as [`air_data_of`], with the time given and not read.
pub open spec fn air_data_at(document: Json, timestamp: Timestamp) -> Result<AirData, DecodeError> {
    match first_fault(document, air_fields(), 1) {
        Some(error) => Err(error),
        None => Ok(AirData { timestamp, ..air_record(document) }),
    }
}

impl AirData {
    /// Decodes the readings of a sample whose time is known: every field but
    /// `timestamp` is read from `document`.
    pub fn with_timestamp(document: &Json, timestamp: Timestamp) -> (outcome: Result<AirData, DecodeError>)
        ensures
            outcome == air_data_at(*document, timestamp),
    {
        proof {
            reveal_with_fuel(first_fault, 16);
        }
        let score = read_count(document, "score", SCORE_MAX)?;
        let dew_point = read_measure(document, "dew_point")?;
        let temperature = read_measure(document, "temp")?;
        let humidity = read_measure(document, "humid")?;
        let absolute_humidity = read_measure(document, "abs_humid")?;
        let co2 = read_count(document, "co2", READING_MAX)?;
        let estimated_co2 = read_count(document, "co2_est", READING_MAX)?;
        let estimated_co2_baseline = read_count(document, "co2_est_baseline", READING_MAX)?;
        let voc = read_count(document, "voc", READING_MAX)?;
        let voc_baseline = read_count(document, "voc_baseline", READING_MAX)?;
        let voc_h2_raw = read_count(document, "voc_h2_raw", READING_MAX)?;
        let voc_ethanol_raw = read_count(document, "voc_ethanol_raw", READING_MAX)?;
        let pm25 = read_count(document, "pm25", READING_MAX)?;
        let estimated_pm10 = read_count(document, "pm10_est", READING_MAX)?;
        Ok(
            AirData {
                timestamp,
                score: score as u8,
                dew_point,
                temperature,
                humidity,
                absolute_humidity,
                co2: co2 as u32,
                estimated_co2: estimated_co2 as u32,
                estimated_co2_baseline: estimated_co2_baseline as u32,
                voc: voc as u32,
                voc_baseline: voc_baseline as u32,
                voc_h2_raw: voc_h2_raw as u32,
                voc_ethanol_raw: voc_ethanol_raw as u32,
                pm25: pm25 as u32,
                estimated_pm10: estimated_pm10 as u32,
            },
        )
    }

    /// Decodes a sample from the JSON object that the device sends. Members
    /// that the sample does not name are passed over.
    pub fn from_json(document: &Json) -> (outcome: Result<AirData, DecodeError>)
        ensures
            outcome == air_data_of(*document),
    {
        proof {
            reveal_with_fuel(first_fault, 2);
        }
        match document {
            Json::Object(_) => {
                let timestamp = read_instant(document, "timestamp")?;
                AirData::with_timestamp(document, timestamp)
            },
            _ => Err(DecodeError::NotAnObject),
        }
    }
}

/// A document decodes exactly when it is an object in which every field
/// finds its member, and of the right kind.
pub proof fn lemma_decodes_when_every_field_fits(document: Json)
    ensures
        air_data_of(document) is Ok <==> document is Object && forall|i: int|
            0 <= i < air_fields().len() ==> fault(document, (#[trigger] air_fields()[i]).0, air_fields()[i].1)
                is None,
{
    lemma_no_fault_when_all_fit(document, air_fields(), 0);
}

/// The members with other names on the wire than in the sample reach the
/// fields they are meant for: `temp` is the temperature, `humid` the
/// humidity, `abs_humid` the absolute humidity, `co2_est` the estimate of
/// CO2, `co2_est_baseline` its baseline and `pm10_est` the estimate of PM10.
pub proof fn lemma_renamed_members_are_mapped(document: Json)
    requires
        air_data_of(document) is Ok,
    ensures
        ({
            let sample = air_data_of(document)->Ok_0;
            &&& document.member("temp"@) == Some(Json::Number(sample.temperature))
            &&& document.member("humid"@) == Some(Json::Number(sample.humidity))
            &&& document.member("abs_humid"@) == Some(Json::Number(sample.absolute_humidity))
            &&& document.member("co2_est"@) matches Some(Json::Number(number)) && number.unsigned == Some(
                sample.estimated_co2 as u64,
            )
            &&& document.member("co2_est_baseline"@) matches Some(Json::Number(number)) && number.unsigned
                == Some(sample.estimated_co2_baseline as u64)
            &&& document.member("pm10_est"@) matches Some(Json::Number(number)) && number.unsigned == Some(
                sample.estimated_pm10 as u64,
            )
        }),
{
    reveal_with_fuel(first_fault, 16);
}

/// Decoding passes over what it does not know: an object with one more
/// member, under a name that is no field of the sample, decodes to what the
/// object decodes to without it.
pub proof fn lemma_unknown_member_is_ignored(before: Json, after: Json, at: int, extra: (String, Json))
    requires
        with_member(before, after, at, extra),
        !names(air_fields(), extra.0@),
    ensures
        air_data_of(after) == air_data_of(before),
{
    let fields = air_fields();
    assert forall|i: int| 0 <= i < fields.len() implies after.member((#[trigger] fields[i]).0@)
        == before.member(fields[i].0@) by {
        lemma_other_members_stay(before, after, at, extra, fields[i].0@);
    }
    lemma_first_fault_reads_fields(after, before, fields, 0);
    assert(fields[0].0 == "timestamp" && fields[1].0 == "score" && fields[2].0 == "dew_point");
    assert(fields[3].0 == "temp" && fields[4].0 == "humid" && fields[5].0 == "abs_humid");
    assert(fields[6].0 == "co2" && fields[7].0 == "co2_est" && fields[8].0 == "co2_est_baseline");
    assert(fields[9].0 == "voc" && fields[10].0 == "voc_baseline" && fields[11].0 == "voc_h2_raw");
    assert(fields[12].0 == "voc_ethanol_raw" && fields[13].0 == "pm25" && fields[14].0 == "pm10_est");
}

/// Every field is required: a document that lacks the member of one of
/// them, `co2` for one, does not decode.
pub proof fn lemma_missing_member_fails(document: Json, which: int)
    requires
        0 <= which < air_fields().len(),
        document.member(air_fields()[which].0@) is None,
    ensures
        air_data_of(document) is Err,
{
    lemma_missing_member_is_a_fault(document, air_fields(), which, 0);
}

} // verus!
