//! Run configuration: the sample rate and whether streaming starts enabled.

use vstd::prelude::*;

verus! {

/// Sample rate used when none is given, in samples per second.
pub const DEFAULT_RATE_HZ: u64 = 100;

/// Microseconds in one second.
pub const MICROS_PER_SECOND: u64 = 1_000_000;

/// Why a configuration could not be resolved.
#[derive(Debug, Clone, Copy, PartialEq, Eq, Structural)]
pub enum ConfigError {
    /// The rate is not a decimal number that fits in 64 bits.
    InvalidRate,
    /// The rate is zero.
    ZeroRate,
    /// The streaming flag is not a decimal number that fits in 64 bits.
    InvalidFlag,
}

/// The settings read once at start.
#[derive(Debug, Clone, Copy, PartialEq, Eq, Structural)]
pub struct RunConfig {
    pub sample_rate_hz: u64,
    pub streaming_requested: bool,
}

impl RunConfig {
    /// A usable configuration has a positive rate.
    pub open spec fn wf(self) -> bool {
        self.sample_rate_hz > 0
    }
}

pub open spec fn is_digit(c: char) -> bool {
    '0' <= c && c <= '9'
}

pub open spec fn digit_value(c: char) -> int {
    (c as int) - ('0' as int)
}

/// A non-empty run of ASCII decimal digits.
pub open spec fn is_decimal(s: Seq<char>) -> bool {
    s.len() > 0 && forall|i: int| 0 <= i < s.len() ==> is_digit(#[trigger] s[i])
}

/// The number that a run of decimal digits denotes.
pub open spec fn decimal_value(s: Seq<char>) -> int
    decreases s.len(),
{
    if s.len() == 0 {
        0
    } else {
        decimal_value(s.drop_last()) * 10 + digit_value(s.last())
    }
}

/// The text denotes a number that a `u64` holds.
pub open spec fn denotes_u64(s: Seq<char>) -> bool {
    is_decimal(s) && decimal_value(s) <= u64::MAX
}

proof fn lemma_decimal_value_nonneg(s: Seq<char>)
    requires
        forall|i: int| 0 <= i < s.len() ==> is_digit(#[trigger] s[i]),
    ensures
        decimal_value(s) >= 0,
    decreases s.len(),
{
    if s.len() > 0 {
        let p = s.drop_last();
        assert forall|i: int| 0 <= i < p.len() implies is_digit(#[trigger] p[i]) by {
            assert(p[i] == s[i]);
        }
        lemma_decimal_value_nonneg(p);
        assert(is_digit(s[s.len() - 1]));
    }
}

/// A longer run of digits never denotes a smaller number.
proof fn lemma_decimal_value_prefix(s: Seq<char>, i: int)
    requires
        0 <= i <= s.len(),
        forall|k: int| 0 <= k < s.len() ==> is_digit(#[trigger] s[k]),
    ensures
        decimal_value(s.take(i)) <= decimal_value(s),
    decreases s.len() - i,
{
    if i < s.len() {
        lemma_decimal_value_prefix(s, i + 1);
        let t = s.take(i + 1);
        assert(t.drop_last() =~= s.take(i));
        assert(t.last() == s[i]);
        assert(is_digit(s[i]));
        let p = s.take(i);
        assert forall|k: int| 0 <= k < p.len() implies is_digit(#[trigger] p[k]) by {
            assert(p[k] == s[k]);
        }
        lemma_decimal_value_nonneg(p);
    } else {
        assert(s.take(i) =~= s);
    }
}

/// Reads a decimal number into a `u64`; `None` when the text is not a run of
/// digits or the number does not fit.
pub fn parse_u64(s: &str) -> (r: Option<u64>)
    ensures
        r matches Some(v) <==> denotes_u64(s@),
        r matches Some(v) ==> v == decimal_value(s@),
{
    let n = s.unicode_len();
    if n == 0 {
        return None;
    }
    let mut value: u64 = 0;
    let mut i: usize = 0;
    while i < n
        invariant
            n == s@.len(),
            0 <= i <= n,
            forall|k: int| 0 <= k < i ==> is_digit(#[trigger] s@[k]),
            value == decimal_value(s@.take(i as int)),
        decreases n - i,
    {
        let c = s.get_char(i);
        if !('0' <= c && c <= '9') {
            assert(!is_decimal(s@));
            return None;
        }
        let d: u64 = (c as u64) - ('0' as u64);
        proof {
            let t = s@.take(i as int + 1);
            assert(t.drop_last() =~= s@.take(i as int));
            assert(t.last() == c);
        }
        if value > (u64::MAX - d) / 10 {
            proof {
                assert(value * 10 + d > u64::MAX) by (nonlinear_arith)
                    requires
                        value > (u64::MAX - d) / 10,
                        d <= 9,
                ;
                if is_decimal(s@) {
                    lemma_decimal_value_prefix(s@, i as int + 1);
                }
            }
            return None;
        }
        proof {
            assert(value * 10 + d <= u64::MAX) by (nonlinear_arith)
                requires
                    value <= (u64::MAX - d) / 10,
                    d <= 9,
            ;
        }
        value = value * 10 + d;
        i = i + 1;
    }
    assert(s@.take(n as int) =~= s@);
    Some(value)
}

/// Reads a sample rate: a positive decimal number.
pub fn parse_rate(s: &str) -> (r: Result<u64, ConfigError>)
    ensures
        r matches Ok(v) <==> denotes_u64(s@) && decimal_value(s@) > 0,
        r matches Ok(v) ==> v == decimal_value(s@),
        r == Err::<u64, ConfigError>(ConfigError::ZeroRate) <==> is_decimal(s@) && decimal_value(s@) == 0,
        r == Err::<u64, ConfigError>(ConfigError::InvalidRate) <==> !denotes_u64(s@),
        r matches Err(e) ==> e == ConfigError::InvalidRate || e == ConfigError::ZeroRate,
{
    match parse_u64(s) {
        None => Err(ConfigError::InvalidRate),
        Some(0) => Err(ConfigError::ZeroRate),
        Some(v) => Ok(v),
    }
}

/// Reads the streaming flag: the number 1 enables streaming, any other
/// number disables it.
pub fn parse_flag(s: &str) -> (r: Result<bool, ConfigError>)
    ensures
        r matches Ok(b) <==> denotes_u64(s@),
        r matches Ok(b) ==> (b <==> decimal_value(s@) == 1),
        r matches Err(e) ==> e == ConfigError::InvalidFlag,
{
    match parse_u64(s) {
        None => Err(ConfigError::InvalidFlag),
        Some(v) => Ok(v == 1),
    }
}

/// What a configuration resolves to, given the rate text and the flag text
/// (each absent when not given).
pub open spec fn resolved(rate: Option<Seq<char>>, flag: Option<Seq<char>>) -> Result<RunConfig, ConfigError> {
    let rate_value: Result<int, ConfigError> = match rate {
        None => Ok(DEFAULT_RATE_HZ as int),
        Some(t) => if !denotes_u64(t) {
            Err(ConfigError::InvalidRate)
        } else if decimal_value(t) == 0 {
            Err(ConfigError::ZeroRate)
        } else {
            Ok(decimal_value(t))
        },
    };
    let streaming: Result<bool, ConfigError> = match flag {
        None => Ok(true),
        Some(t) => if denotes_u64(t) {
            Ok(decimal_value(t) == 1)
        } else {
            Err(ConfigError::InvalidFlag)
        },
    };
    match rate_value {
        Err(e) => Err(e),
        Ok(hz) => match streaming {
            Err(e) => Err(e),
            Ok(on) => Ok(RunConfig { sample_rate_hz: hz as u64, streaming_requested: on }),
        },
    }
}

pub open spec fn view_text(t: Option<&str>) -> Option<Seq<char>> {
    match t {
        None => None,
        Some(s) => Some(s@),
    }
}

/// Resolves the run configuration. The rate defaults to 100 and streaming
/// defaults to enabled; the rate is checked before the flag.
pub fn resolve_config(rate: Option<&str>, flag: Option<&str>) -> (r: Result<RunConfig, ConfigError>)
    ensures
        r == resolved(view_text(rate), view_text(flag)),
        r matches Ok(c) ==> c.wf(),
{
    let hz = match rate {
        None => DEFAULT_RATE_HZ,
        Some(t) => match parse_rate(t) {
            Ok(v) => v,
            Err(e) => return Err(e),
        },
    };
    let on = match flag {
        None => true,
        Some(t) => match parse_flag(t) {
            Ok(b) => b,
            Err(e) => return Err(e),
        },
    };
    Ok(RunConfig { sample_rate_hz: hz, streaming_requested: on })
}

/// The pause between two ticks, in microseconds: one second divided by the
/// rate. A zero rate is refused.
pub fn sleep_interval_micros(rate_hz: u64) -> (r: Result<u64, ConfigError>)
    ensures
        rate_hz == 0 <==> r == Err::<u64, ConfigError>(ConfigError::ZeroRate),
        rate_hz > 0 ==> r == Ok::<u64, ConfigError>((1_000_000int / rate_hz as int) as u64),
{
    if rate_hz == 0 {
        Err(ConfigError::ZeroRate)
    } else {
        Ok(MICROS_PER_SECOND / rate_hz)
    }
}

} // verus!
