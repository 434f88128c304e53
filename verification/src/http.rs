use vstd::prelude::*;
use vstd::string::StringExecFns;

use crate::clock::Timestamp;
use crate::measurement::DeviceAddress;
use crate::measurement::WavePlusMeasurement;
use crate::measurement::WavePlusMeasurementData;
use crate::state::Errors;
use crate::state::State;

verus! {

/// Whether an HTTP response status means the dispatch was accepted: exactly
/// the range 200 to 299; everything else, and any transport-level failure,
/// is a dispatch failure.
pub fn is_success_status(status: u16) -> (r: bool)
    ensures
        r == (200 <= status <= 299),
{
    200 <= status && status <= 299
}

/// The character for one digit value, decimal or hexadecimal.
pub open spec fn digit_char(d: int) -> char {
    if d == 0 {
        '0'
    } else if d == 1 {
        '1'
    } else if d == 2 {
        '2'
    } else if d == 3 {
        '3'
    } else if d == 4 {
        '4'
    } else if d == 5 {
        '5'
    } else if d == 6 {
        '6'
    } else if d == 7 {
        '7'
    } else if d == 8 {
        '8'
    } else if d == 9 {
        '9'
    } else if d == 10 {
        'A'
    } else if d == 11 {
        'B'
    } else if d == 12 {
        'C'
    } else if d == 13 {
        'D'
    } else if d == 14 {
        'E'
    } else {
        'F'
    }
}

/// The decimal rendering of a number, most significant digit first, no sign
/// and no leading zeros.
pub open spec fn dec_chars(n: nat) -> Seq<char>
    decreases n,
{
    if n < 10 {
        seq![digit_char(n as int)]
    } else {
        dec_chars(n / 10).push(digit_char((n % 10) as int))
    }
}

/// The decimal rendering of a number below one hundred, zero-padded to two
/// digits.
pub open spec fn pad2_chars(n: nat) -> Seq<char> {
    if n < 10 {
        seq![digit_char(0)] + dec_chars(n)
    } else {
        dec_chars(n)
    }
}

/// The decimal rendering of a number below ten thousand, zero-padded to four
/// digits.
pub open spec fn pad4_chars(n: nat) -> Seq<char> {
    if n < 10 {
        seq![digit_char(0), digit_char(0), digit_char(0)] + dec_chars(n)
    } else if n < 100 {
        seq![digit_char(0), digit_char(0)] + dec_chars(n)
    } else if n < 1000 {
        seq![digit_char(0)] + dec_chars(n)
    } else {
        dec_chars(n)
    }
}

/// The fractional part of a fixed-point value held in hundredths: two
/// decimals with a trailing zero dropped, but always at least one digit, as
/// the shortest decimal rendering of the value writes it.
pub open spec fn frac2_chars(f: nat) -> Seq<char>
    recommends
        f < 100,
{
    if f % 10 == 0 {
        seq![digit_char((f / 10) as int)]
    } else {
        seq![digit_char((f / 10) as int), digit_char((f % 10) as int)]
    }
}

/// The decimal rendering of a fixed-point value held in hundredths: integer
/// part, decimal point, trimmed fraction.
pub open spec fn fixed2_chars(h: nat) -> Seq<char> {
    dec_chars(h / 100) + seq!['.'] + frac2_chars(h % 100)
}

/// The rendering of one address octet: two uppercase hexadecimal digits.
pub open spec fn byte_hex_chars(b: nat) -> Seq<char>
    recommends
        b < 256,
{
    seq![digit_char((b / 16) as int), digit_char((b % 16) as int)]
}

/// The rendering of a radio address: the six octets in order, two uppercase
/// hexadecimal digits each, separated by colons.
pub open spec fn address_chars(a: DeviceAddress) -> Seq<char> {
    byte_hex_chars(a.octets@[0] as nat) + seq![':'] + byte_hex_chars(a.octets@[1] as nat)
        + seq![':'] + byte_hex_chars(a.octets@[2] as nat) + seq![':'] + byte_hex_chars(
        a.octets@[3] as nat,
    ) + seq![':'] + byte_hex_chars(a.octets@[4] as nat) + seq![':'] + byte_hex_chars(
        a.octets@[5] as nat,
    )
}

/// The rendering of a timestamp in the collector's `YYYY-MM-DD HH:MM:SS`
/// shape.
pub open spec fn datetime_chars(t: Timestamp) -> Seq<char> {
    pad4_chars(t.year as nat) + seq!['-'] + pad2_chars(t.month as nat) + seq!['-'] + pad2_chars(
        t.day as nat,
    ) + seq![' '] + pad2_chars(t.hour as nat) + seq![':'] + pad2_chars(t.minute as nat) + seq![':']
        + pad2_chars(t.second as nat)
}

/// The JSON object for the decoded values: each field at its physical scale
/// (humidity in halves, temperature in hundredths, pressure in fiftieths,
/// the rest whole), a radon field omitted entirely when it is absent.
pub open spec fn data_chars(d: WavePlusMeasurementData) -> Seq<char> {
    "{\"version\":"@ + dec_chars(d.version as nat) + ",\"humidity\":"@ + fixed2_chars(
        d.humidity as nat * 50,
    ) + (match d.radon_short {
        Some(r) => ",\"radon_short\":"@ + fixed2_chars(r as nat * 100),
        None => Seq::<char>::empty(),
    }) + (match d.radon_long {
        Some(r) => ",\"radon_long\":"@ + fixed2_chars(r as nat * 100),
        None => Seq::<char>::empty(),
    }) + ",\"temperature\":"@ + fixed2_chars(d.temperature as nat) + ",\"pressure\":"@
        + fixed2_chars(d.pressure as nat * 2) + ",\"co2\":"@ + fixed2_chars(d.co2 as nat * 100)
        + ",\"voc\":"@ + fixed2_chars(d.voc as nat * 100) + "}"@
}

/// The JSON object for the failure counters.
pub open spec fn errors_chars(e: Errors) -> Seq<char> {
    "{\"wifi_disconnects\":"@ + dec_chars(e.wifi_disconnects as nat) + ",\"ble_disconnects\":"@
        + dec_chars(e.ble_disconnects as nat) + ",\"http_errors\":"@ + dec_chars(
        e.http_errors as nat,
    ) + "}"@
}

/// The whole telemetry body: serial number and address as strings, the
/// decode time, the decoded values, and the failure counters.
pub open spec fn payload_chars(m: WavePlusMeasurement, e: Errors) -> Seq<char> {
    "{\"serial_number\":\""@ + dec_chars(m.metadata.serial_number as nat) + "\",\"address\":\""@
        + address_chars(m.metadata.address) + "\",\"datetime\":\""@ + datetime_chars(
        m.metadata.datetime,
    ) + "\",\"data\":"@ + data_chars(m.data) + ",\"errors\":"@ + errors_chars(e) + "}"@
}

/// Appends the character for one digit value.
fn push_digit(out: &mut String, d: u8)
    requires
        d < 16,
    ensures
        final(out)@ == old(out)@ + seq![digit_char(d as int)],
{
    match d {
        0 => {
            proof {
                reveal_strlit("0");
                assert("0"@ =~= seq![digit_char(0)]);
            }
            out.append("0");
        },
        1 => {
            proof {
                reveal_strlit("1");
                assert("1"@ =~= seq![digit_char(1)]);
            }
            out.append("1");
        },
        2 => {
            proof {
                reveal_strlit("2");
                assert("2"@ =~= seq![digit_char(2)]);
            }
            out.append("2");
        },
        3 => {
            proof {
                reveal_strlit("3");
                assert("3"@ =~= seq![digit_char(3)]);
            }
            out.append("3");
        },
        4 => {
            proof {
                reveal_strlit("4");
                assert("4"@ =~= seq![digit_char(4)]);
            }
            out.append("4");
        },
        5 => {
            proof {
                reveal_strlit("5");
                assert("5"@ =~= seq![digit_char(5)]);
            }
            out.append("5");
        },
        6 => {
            proof {
                reveal_strlit("6");
                assert("6"@ =~= seq![digit_char(6)]);
            }
            out.append("6");
        },
        7 => {
            proof {
                reveal_strlit("7");
                assert("7"@ =~= seq![digit_char(7)]);
            }
            out.append("7");
        },
        8 => {
            proof {
                reveal_strlit("8");
                assert("8"@ =~= seq![digit_char(8)]);
            }
            out.append("8");
        },
        9 => {
            proof {
                reveal_strlit("9");
                assert("9"@ =~= seq![digit_char(9)]);
            }
            out.append("9");
        },
        10 => {
            proof {
                reveal_strlit("A");
                assert("A"@ =~= seq![digit_char(10)]);
            }
            out.append("A");
        },
        11 => {
            proof {
                reveal_strlit("B");
                assert("B"@ =~= seq![digit_char(11)]);
            }
            out.append("B");
        },
        12 => {
            proof {
                reveal_strlit("C");
                assert("C"@ =~= seq![digit_char(12)]);
            }
            out.append("C");
        },
        13 => {
            proof {
                reveal_strlit("D");
                assert("D"@ =~= seq![digit_char(13)]);
            }
            out.append("D");
        },
        14 => {
            proof {
                reveal_strlit("E");
                assert("E"@ =~= seq![digit_char(14)]);
            }
            out.append("E");
        },
        _ => {
            proof {
                reveal_strlit("F");
                assert("F"@ =~= seq![digit_char(15)]);
            }
            out.append("F");
        },
    }
}

/// Appends the decimal rendering of a number.
fn push_u64_dec(out: &mut String, n: u64)
    ensures
        final(out)@ == old(out)@ + dec_chars(n as nat),
    decreases n,
{
    if n >= 10 {
        push_u64_dec(out, n / 10);
    }
    push_digit(out, (n % 10) as u8);
    proof {
        if n >= 10 {
            assert(dec_chars(n as nat) =~= dec_chars(n as nat / 10) + seq![
                digit_char((n % 10) as int),
            ]);
        }
    }
}

/// Appends the two-digit zero-padded rendering of a number.
fn push_pad2(out: &mut String, n: u8)
    ensures
        final(out)@ == old(out)@ + pad2_chars(n as nat),
{
    if n < 10 {
        push_digit(out, 0);
    }
    push_u64_dec(out, n as u64);
}

/// Appends the four-digit zero-padded rendering of a number.
fn push_pad4(out: &mut String, n: u16)
    ensures
        final(out)@ == old(out)@ + pad4_chars(n as nat),
{
    if n < 10 {
        push_digit(out, 0);
        push_digit(out, 0);
        push_digit(out, 0);
    } else if n < 100 {
        push_digit(out, 0);
        push_digit(out, 0);
    } else if n < 1000 {
        push_digit(out, 0);
    }
    push_u64_dec(out, n as u64);
    proof {
        assert(final(out)@ =~= old(out)@ + pad4_chars(n as nat));
    }
}

/// Appends the rendering of a fixed-point value held in hundredths.
fn push_fixed2(out: &mut String, h: u64)
    ensures
        final(out)@ == old(out)@ + fixed2_chars(h as nat),
{
    push_u64_dec(out, h / 100);
    proof {
        reveal_strlit(".");
        assert("."@ =~= seq!['.']);
    }
    out.append(".");
    let f = h % 100;
    if f % 10 == 0 {
        push_digit(out, (f / 10) as u8);
    } else {
        push_digit(out, (f / 10) as u8);
        push_digit(out, (f % 10) as u8);
    }
    proof {
        assert(final(out)@ =~= old(out)@ + fixed2_chars(h as nat));
    }
}

/// Appends the two-hexadecimal-digit rendering of one address octet.
fn push_byte_hex(out: &mut String, b: u8)
    ensures
        final(out)@ == old(out)@ + byte_hex_chars(b as nat),
{
    push_digit(out, b / 16);
    push_digit(out, b % 16);
    proof {
        assert(final(out)@ =~= old(out)@ + byte_hex_chars(b as nat));
    }
}

/// Appends the colon-separated rendering of a radio address.
fn push_address(out: &mut String, a: &DeviceAddress)
    ensures
        final(out)@ == old(out)@ + address_chars(*a),
{
    proof {
        reveal_strlit(":");
        assert(":"@ =~= seq![':']);
    }
    push_byte_hex(out, a.octets[0]);
    out.append(":");
    push_byte_hex(out, a.octets[1]);
    out.append(":");
    push_byte_hex(out, a.octets[2]);
    out.append(":");
    push_byte_hex(out, a.octets[3]);
    out.append(":");
    push_byte_hex(out, a.octets[4]);
    out.append(":");
    push_byte_hex(out, a.octets[5]);
    proof {
        assert(final(out)@ =~= old(out)@ + address_chars(*a));
    }
}

/// Appends the `YYYY-MM-DD HH:MM:SS` rendering of a timestamp.
fn push_datetime(out: &mut String, t: &Timestamp)
    ensures
        final(out)@ == old(out)@ + datetime_chars(*t),
{
    proof {
        reveal_strlit("-");
        reveal_strlit(" ");
        reveal_strlit(":");
        assert("-"@ =~= seq!['-']);
        assert(" "@ =~= seq![' ']);
        assert(":"@ =~= seq![':']);
    }
    push_pad4(out, t.year);
    out.append("-");
    push_pad2(out, t.month);
    out.append("-");
    push_pad2(out, t.day);
    out.append(" ");
    push_pad2(out, t.hour);
    out.append(":");
    push_pad2(out, t.minute);
    out.append(":");
    push_pad2(out, t.second);
    proof {
        assert(final(out)@ =~= old(out)@ + datetime_chars(*t));
    }
}

/// Appends the JSON object for the decoded values.
#[verifier::rlimit(60)]
fn push_data(out: &mut String, d: &WavePlusMeasurementData)
    ensures
        final(out)@ == old(out)@ + data_chars(*d),
{
    out.append("{\"version\":");
    push_u64_dec(out, d.version as u64);
    out.append(",\"humidity\":");
    push_fixed2(out, d.humidity as u64 * 50);
    if let Some(r) = d.radon_short {
        out.append(",\"radon_short\":");
        push_fixed2(out, r as u64 * 100);
    }
    if let Some(r) = d.radon_long {
        out.append(",\"radon_long\":");
        push_fixed2(out, r as u64 * 100);
    }
    out.append(",\"temperature\":");
    push_fixed2(out, d.temperature as u64);
    out.append(",\"pressure\":");
    push_fixed2(out, d.pressure as u64 * 2);
    out.append(",\"co2\":");
    push_fixed2(out, d.co2 as u64 * 100);
    out.append(",\"voc\":");
    push_fixed2(out, d.voc as u64 * 100);
    out.append("}");
    proof {
        assert(final(out)@ =~= old(out)@ + data_chars(*d));
    }
}

/// Appends the JSON object for the failure counters.
fn push_errors(out: &mut String, e: &Errors)
    ensures
        final(out)@ == old(out)@ + errors_chars(*e),
{
    out.append("{\"wifi_disconnects\":");
    push_u64_dec(out, e.wifi_disconnects);
    out.append(",\"ble_disconnects\":");
    push_u64_dec(out, e.ble_disconnects);
    out.append(",\"http_errors\":");
    push_u64_dec(out, e.http_errors);
    out.append("}");
    proof {
        assert(final(out)@ =~= old(out)@ + errors_chars(*e));
    }
}

/// Serializes one measurement and the failure counters into the telemetry
/// body the collector expects.
pub fn payload_string(m: &WavePlusMeasurement, e: &Errors) -> (r: String)
    ensures
        r@ == payload_chars(*m, *e),
{
    let mut out = String::new();
    out.append("{\"serial_number\":\"");
    push_u64_dec(&mut out, m.metadata.serial_number as u64);
    out.append("\",\"address\":\"");
    push_address(&mut out, &m.metadata.address);
    out.append("\",\"datetime\":\"");
    push_datetime(&mut out, &m.metadata.datetime);
    out.append("\",\"data\":");
    push_data(&mut out, &m.data);
    out.append(",\"errors\":");
    push_errors(&mut out, e);
    out.append("}");
    proof {
        assert(out@ =~= payload_chars(*m, *e));
    }
    out
}

/// Builds the telemetry body for the snapshot's held measurement, or nothing
/// when none is held and there is nothing to dispatch.
pub fn build_payload(state: &State) -> (r: Option<String>)
    ensures
        r is Some <==> state.measurement is Some,
        r matches Some(body) ==> (state.measurement matches Some(m) && body@ == payload_chars(
            m,
            state.errors,
        )),
{
    match &state.measurement {
        Some(m) => Some(payload_string(m, &state.errors)),
        None => None,
    }
}

} // verus!
