use vstd::prelude::*;

use crate::clock::Timestamp;
use crate::waveplus::RADON_MAX_VALID;
use crate::waveplus::WavePlusRawMeasurementData;

verus! {

/// The transport-level address of the discovered sensor, kept for logging and
/// audit only; the six octets of the radio address, most significant first.
#[derive(Clone, Copy, Debug, PartialEq, Eq)]
pub struct DeviceAddress {
    pub octets: [u8; 6],
}

/// One decoded sensor reading, in fixed-point units so that every field is a
/// plain integer:
/// - `humidity` counts half percentage points of relative humidity,
/// - `temperature` counts hundredths of a degree Celsius,
/// - `pressure` counts fiftieths of a hectopascal,
/// - `co2`, `voc` and the radon fields are unscaled counts.
///
/// An absent radon field means the sensor has not yet computed a valid value,
/// or the scheduling policy withheld it this cycle; the two cases are
/// intentionally indistinguishable downstream.
#[derive(Clone, Copy, Debug, PartialEq, Eq)]
pub struct WavePlusMeasurementData {
    pub version: u8,
    pub humidity: u8,
    pub radon_short: Option<u16>,
    pub radon_long: Option<u16>,
    pub temperature: u16,
    pub pressure: u16,
    pub co2: u16,
    pub voc: u16,
}

/// Where and when a reading was taken: the sensor's configured serial number,
/// its radio address, and the wall-clock time of the decode.
#[derive(Clone, Copy, Debug, PartialEq, Eq)]
pub struct MeasurementMetadata {
    pub serial_number: u32,
    pub address: DeviceAddress,
    pub datetime: Timestamp,
}

/// One sensor reading together with its provenance, constructed once per
/// successful read and immutable thereafter.
#[derive(Clone, Copy, Debug, PartialEq, Eq)]
pub struct WavePlusMeasurement {
    pub metadata: MeasurementMetadata,
    pub data: WavePlusMeasurementData,
}

/// The radon validity rule: a raw value above the sentinel means the sensor
/// has not yet computed a valid reading and decodes to nothing.
pub open spec fn spec_parse_radon(value: u16) -> Option<u16> {
    if value > RADON_MAX_VALID {
        None
    } else {
        Some(value)
    }
}

/// Applies the radon validity rule to one raw radon field.
pub fn parse_radon(value: u16) -> (r: Option<u16>)
    ensures
        r == spec_parse_radon(value),
{
    if value > RADON_MAX_VALID {
        return None;
    }
    Some(value)
}

/// The reading denoted by a raw record: each field carried over at its
/// fixed-point scale, the radon fields put through the validity rule, the
/// reserved fields dropped.
pub open spec fn spec_data_of_raw(raw: WavePlusRawMeasurementData) -> WavePlusMeasurementData {
    WavePlusMeasurementData {
        version: raw.version,
        humidity: raw.humidity,
        radon_short: spec_parse_radon(raw.radon_short),
        radon_long: spec_parse_radon(raw.radon_long),
        temperature: raw.temperature,
        pressure: raw.pressure,
        co2: raw.co2,
        voc: raw.voc,
    }
}

impl WavePlusMeasurementData {
    /// Decodes a raw record into a reading, radon validity applied.
    pub fn from_raw(raw: &WavePlusRawMeasurementData) -> (r: WavePlusMeasurementData)
        ensures
            r == spec_data_of_raw(*raw),
    {
        WavePlusMeasurementData {
            version: raw.version,
            humidity: raw.humidity,
            radon_short: parse_radon(raw.radon_short),
            radon_long: parse_radon(raw.radon_long),
            temperature: raw.temperature,
            pressure: raw.pressure,
            co2: raw.co2,
            voc: raw.voc,
        }
    }
}

impl WavePlusMeasurement {
    /// Whether this measurement carries a radon reading.
    pub open spec fn spec_has_radon(self) -> bool {
        self.data.radon_short is Some
    }

    /// Builds the measurement for one successful read: the identity and time
    /// of the read beside the decoded values, with both radon fields
    /// discarded when the scheduling policy excluded them this cycle,
    /// whatever the sensor reported.
    pub fn new(
        serial_number: u32,
        address: DeviceAddress,
        data: &WavePlusRawMeasurementData,
        include_radon: bool,
        datetime: Timestamp,
    ) -> (r: WavePlusMeasurement)
        ensures
            r.metadata == (MeasurementMetadata { serial_number, address, datetime }),
            include_radon ==> r.data == spec_data_of_raw(*data),
            !include_radon ==> r.data == (WavePlusMeasurementData {
                radon_short: None,
                radon_long: None,
                ..spec_data_of_raw(*data)
            }),
    {
        let mut data = WavePlusMeasurementData::from_raw(data);
        if !include_radon {
            data.radon_long = None;
            data.radon_short = None;
        }
        let metadata = MeasurementMetadata { serial_number, address, datetime };
        WavePlusMeasurement { metadata, data }
    }

    /// Whether this measurement carries a radon reading.
    pub fn has_radon(&self) -> (r: bool)
        ensures
            r == self.spec_has_radon(),
    {
        self.data.radon_short.is_some()
    }
}

} // verus!
