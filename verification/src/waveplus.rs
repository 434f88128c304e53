use vstd::prelude::*;

verus! {

/// The 16-bit manufacturer tag that marks an advertisement as coming from a
/// Wave Plus sensor.
pub const WAVEPLUS_MANUFACTURER_TAG: u16 = 0x0334;

/// Raw radon readings above this sentinel mean the sensor has not yet
/// computed a valid value.
pub const RADON_MAX_VALID: u16 = 16383;

/// A sensor record that could not be decoded.
#[derive(Clone, Copy, Debug, PartialEq, Eq, Structural)]
pub enum DecodeError {
    /// The record did not have the fixed 20-byte length.
    MalformedRecord,
}

/// The fixed-layout 20-byte measurement record, field for field as the sensor
/// sends it, little-endian, with nothing scaled or validated yet.
#[derive(Clone, Copy, Debug, PartialEq, Eq, Structural)]
pub struct WavePlusRawMeasurementData {
    pub version: u8,
    pub humidity: u8,
    pub _unknown1: u16,
    pub radon_short: u16,
    pub radon_long: u16,
    pub temperature: u16,
    pub pressure: u16,
    pub co2: u16,
    pub voc: u16,
    pub _unknown2: u32,
}

/// The identity fields carried by a Wave Plus advertisement: the sensor's
/// serial number, and the trailing byte pair some firmware versions append
/// after it (zero when the advertiser sends none).
#[derive(Clone, Copy, Debug, PartialEq, Eq, Structural)]
pub struct WavePlusManufacturerInfo {
    pub serial_number: u32,
    pub _unknown: u16,
}

/// The 16-bit value encoded little-endian by two bytes.
pub open spec fn u16_le(lo: u8, hi: u8) -> u16 {
    (lo + hi * 0x100) as u16
}

/// The 32-bit value encoded little-endian by four bytes.
pub open spec fn u32_le(b0: u8, b1: u8, b2: u8, b3: u8) -> u32 {
    (b0 + b1 * 0x100 + b2 * 0x1_0000 + b3 * 0x100_0000) as u32
}

/// The record denoted by a 20-byte sequence, read little-endian at the fixed
/// field offsets.
pub open spec fn record_of_bytes(s: Seq<u8>) -> WavePlusRawMeasurementData
    recommends
        s.len() == 20,
{
    WavePlusRawMeasurementData {
        version: s[0],
        humidity: s[1],
        _unknown1: u16_le(s[2], s[3]),
        radon_short: u16_le(s[4], s[5]),
        radon_long: u16_le(s[6], s[7]),
        temperature: u16_le(s[8], s[9]),
        pressure: u16_le(s[10], s[11]),
        co2: u16_le(s[12], s[13]),
        voc: u16_le(s[14], s[15]),
        _unknown2: u32_le(s[16], s[17], s[18], s[19]),
    }
}

/// Reads the little-endian 16-bit field at byte offset `i`.
fn read_u16_le(value: &Vec<u8>, i: usize) -> (r: u16)
    requires
        i + 1 < value@.len(),
        value@.len() <= usize::MAX,
    ensures
        r == u16_le(value@[i as int], value@[i + 1]),
{
    value[i] as u16 + value[i + 1] as u16 * 0x100
}

/// Reads the little-endian 32-bit field at byte offset `i`.
fn read_u32_le(value: &Vec<u8>, i: usize) -> (r: u32)
    requires
        i + 3 < value@.len(),
        value@.len() <= usize::MAX,
    ensures
        r == u32_le(value@[i as int], value@[i + 1], value@[i + 2], value@[i + 3]),
{
    value[i] as u32 + value[i + 1] as u32 * 0x100 + value[i + 2] as u32 * 0x1_0000 + value[i
        + 3] as u32 * 0x100_0000
}

/// Decodes a sensor record. A value of any length other than 20 bytes is
/// malformed and is rejected whole; a 20-byte value decodes to exactly the
/// little-endian fields of the fixed layout.
pub fn parse_value(value: &Vec<u8>) -> (r: Result<WavePlusRawMeasurementData, DecodeError>)
    ensures
        r is Ok <==> value@.len() == 20,
        r matches Ok(d) ==> d == record_of_bytes(value@),
        r matches Err(e) ==> e == DecodeError::MalformedRecord,
{
    if value.len() != 20 {
        return Err(DecodeError::MalformedRecord);
    }
    Ok(
        WavePlusRawMeasurementData {
            version: value[0],
            humidity: value[1],
            _unknown1: read_u16_le(value, 2),
            radon_short: read_u16_le(value, 4),
            radon_long: read_u16_le(value, 6),
            temperature: read_u16_le(value, 8),
            pressure: read_u16_le(value, 10),
            co2: read_u16_le(value, 12),
            voc: read_u16_le(value, 14),
            _unknown2: read_u32_le(value, 16),
        },
    )
}

/// A vendor payload is a candidate advertisement when it is at least six
/// bytes long and its leading 16-bit field is the Wave Plus manufacturer tag.
pub open spec fn is_candidate(s: Seq<u8>) -> bool {
    s.len() >= 6 && u16_le(s[0], s[1]) == WAVEPLUS_MANUFACTURER_TAG
}

/// The serial number a candidate advertisement carries: the 32-bit
/// little-endian field after the manufacturer tag.
pub open spec fn advertised_serial(s: Seq<u8>) -> u32
    recommends
        is_candidate(s),
{
    u32_le(s[2], s[3], s[4], s[5])
}

/// Extracts the identity fields from a vendor-specific advertisement payload.
/// A payload shorter than six bytes, or one whose leading field is not the
/// Wave Plus manufacturer tag, is not a candidate and yields nothing.
pub fn parse_manufacturer_info(payload: &Vec<u8>) -> (r: Option<WavePlusManufacturerInfo>)
    ensures
        r is Some <==> is_candidate(payload@),
        r matches Some(info) ==> {
            &&& info.serial_number == advertised_serial(payload@)
            &&& info._unknown == if payload@.len() >= 8 {
                u16_le(payload@[6], payload@[7])
            } else {
                0u16
            }
        },
{
    if payload.len() < 6 {
        return None;
    }
    if read_u16_le(payload, 0) != WAVEPLUS_MANUFACTURER_TAG {
        return None;
    }
    let trailing: u16 = if payload.len() >= 8 {
        read_u16_le(payload, 6)
    } else {
        0
    };
    Some(
        WavePlusManufacturerInfo { serial_number: read_u32_le(payload, 2), _unknown: trailing },
    )
}

/// The matching rule of device discovery: an advertisement payload matches
/// when it is a candidate and its advertised serial number is the configured
/// one.
pub fn advertisement_matches(payload: &Vec<u8>, serial_number: u32) -> (r: bool)
    ensures
        r == (is_candidate(payload@) && advertised_serial(payload@) == serial_number),
{
    match parse_manufacturer_info(payload) {
        Some(info) => info.serial_number == serial_number,
        None => false,
    }
}

} // verus!
