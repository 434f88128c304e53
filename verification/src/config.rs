use vstd::prelude::*;

verus! {

/// The boot-time configuration, picked up by the bootstrap code and handed
/// to the library as plain values.
#[derive(Clone, Copy, Debug)]
pub struct Config {
    /// The network name to join; required.
    pub wifi_ssid: &'static str,
    /// The network passphrase; empty means an open network.
    pub wifi_psk: &'static str,
    /// The decimal serial number of the sensor to discover.
    pub waveplus_serial: &'static str,
    /// Seconds to sleep between measurement cycles.
    pub read_interval: u16,
    /// The collector URL measurements are posted to.
    pub server: &'static str,
    /// The time server used to synchronize the clock at boot.
    pub ntp_server: &'static str,
}

impl Default for Config {
    /// The recognized defaults: a 30-second cycle and a public time server
    /// pool; everything else must be configured.
    fn default() -> (r: Config)
        ensures
            r.wifi_ssid@ == ""@,
            r.wifi_psk@ == ""@,
            r.waveplus_serial@ == ""@,
            r.read_interval == 30,
            r.server@ == ""@,
            r.ntp_server@ == "pool.ntp.org"@,
    {
        Config {
            wifi_ssid: "",
            wifi_psk: "",
            waveplus_serial: "",
            read_interval: 30,
            server: "",
            ntp_server: "pool.ntp.org",
        }
    }
}

/// A configuration the gateway cannot start with.
#[derive(Clone, Copy, Debug, PartialEq, Eq, Structural)]
pub enum ConfigError {
    /// No network name was configured; a fatal startup error.
    MissingWifiName,
}

impl Config {
    /// Checks the configuration for the one fatal omission: a missing
    /// network name.
    pub fn validate(&self) -> (r: Result<(), ConfigError>)
        ensures
            r is Ok <==> self.wifi_ssid@.len() > 0,
            r matches Err(e) ==> e == ConfigError::MissingWifiName,
    {
        if self.wifi_ssid.is_empty() {
            Err(ConfigError::MissingWifiName)
        } else {
            Ok(())
        }
    }
}

/// Whether a character is a decimal digit.
pub open spec fn is_dec_digit(c: char) -> bool {
    48 <= c as u32 <= 57
}

/// The value of one decimal digit character.
pub open spec fn digit_val(c: char) -> int {
    c as u32 - 48
}

/// Whether every character of a sequence is a decimal digit.
pub open spec fn all_dec_digits(s: Seq<char>) -> bool {
    forall|i: int| 0 <= i < s.len() ==> is_dec_digit(s[i])
}

/// The number a sequence of decimal digit characters denotes.
pub open spec fn dec_value(s: Seq<char>) -> int
    decreases s.len(),
{
    if s.len() == 0 {
        0
    } else {
        dec_value(s.drop_last()) * 10 + digit_val(s.last())
    }
}

/// A digit sequence denotes at least as much as any of its prefixes.
proof fn lemma_dec_value_prefix_le(s: Seq<char>, k: int)
    requires
        all_dec_digits(s),
        0 <= k <= s.len(),
    ensures
        dec_value(s.subrange(0, k)) <= dec_value(s),
        dec_value(s) >= 0,
    decreases s.len() - k,
{
    if k == s.len() {
        assert(s.subrange(0, k) =~= s);
        lemma_dec_value_nonneg(s);
    } else {
        lemma_dec_value_prefix_le(s, k + 1);
        let p = s.subrange(0, k + 1);
        assert(p.drop_last() =~= s.subrange(0, k));
        assert(is_dec_digit(s[k]));
        assert(dec_value(p) == dec_value(s.subrange(0, k)) * 10 + digit_val(s[k]));
        lemma_dec_value_nonneg(s.subrange(0, k));
    }
}

/// A digit sequence denotes a number, never anything negative.
proof fn lemma_dec_value_nonneg(s: Seq<char>)
    requires
        all_dec_digits(s),
    ensures
        dec_value(s) >= 0,
    decreases s.len(),
{
    if s.len() > 0 {
        assert(all_dec_digits(s.drop_last())) by {
            assert(forall|i: int|
                0 <= i < s.len() - 1 ==> s.drop_last()[i] == s[i] && is_dec_digit(s[i]));
        }
        lemma_dec_value_nonneg(s.drop_last());
        assert(is_dec_digit(s.last()));
    }
}

/// Parses the configured sensor serial number: a non-empty string of decimal
/// digits denoting a number that fits 32 bits; anything else is rejected.
pub fn parse_serial(s: &str) -> (r: Option<u32>)
    ensures
        r is Some <==> (s@.len() > 0 && all_dec_digits(s@) && dec_value(s@) <= u32::MAX),
        r matches Some(v) ==> v == dec_value(s@),
{
    let n = s.unicode_len();
    if n == 0 {
        return None;
    }
    let mut acc: u32 = 0;
    let mut i: usize = 0;
    while i < n
        invariant
            0 < n == s@.len(),
            i <= n,
            forall|j: int| 0 <= j < i ==> is_dec_digit(s@[j]),
            acc == dec_value(s@.subrange(0, i as int)),
        decreases n - i,
    {
        let c = s.get_char(i);
        let cv = c as u32;
        if cv < 48 || cv > 57 {
            assert(!is_dec_digit(s@[i as int]));
            return None;
        }
        let d = cv - 48;
        assert(s@.subrange(0, i + 1).drop_last() =~= s@.subrange(0, i as int));
        if acc > (u32::MAX - d) / 10 {
            assert(dec_value(s@.subrange(0, i + 1)) > u32::MAX);
            assert(all_dec_digits(s@) ==> dec_value(s@) > u32::MAX) by {
                if all_dec_digits(s@) {
                    lemma_dec_value_prefix_le(s@, i + 1);
                }
            }
            return None;
        }
        acc = acc * 10 + d;
        i = i + 1;
    }
    assert(s@.subrange(0, n as int) =~= s@);
    Some(acc)
}

} // verus!
