use vstd::prelude::*;

verus! {

/// Interval between ticks when none is configured, in seconds.
pub const DEFAULT_INTERVAL_SECONDS: u64 = 60;

/// A required setting that is absent or malformed; fatal at startup.
#[derive(PartialEq, Eq, Structural, Clone, Copy, Debug)]
pub enum ConfigError {
    /// The channel id is not a positive decimal number that fits in 64 bits.
    InvalidChannelId,
    /// The interval is not a positive decimal number that fits in 64 bits.
    InvalidInterval,
}

pub open spec fn is_digit(c: char) -> bool {
    '0' <= c && c <= '9'
}

/// A non-empty run of ASCII decimal digits.
pub open spec fn is_decimal(s: Seq<char>) -> bool {
    s.len() > 0 && forall|i: int| 0 <= i < s.len() ==> is_digit(#[trigger] s[i])
}

/// The number that a run of decimal digits spells.
pub open spec fn decimal_value(s: Seq<char>) -> int
    decreases s.len(),
{
    if s.len() == 0 {
        0
    } else {
        decimal_value(s.drop_last()) * 10 + (s.last() as int - '0' as int)
    }
}

/// The positive 64-bit number that `s` spells, if it spells one.
pub open spec fn positive_u64(s: Seq<char>) -> Option<u64> {
    if is_decimal(s) && 0 < decimal_value(s) <= u64::MAX {
        Some(decimal_value(s) as u64)
    } else {
        None
    }
}

proof fn lemma_decimal_value_grows(s: Seq<char>, i: int, j: int)
    requires
        0 <= i <= j <= s.len(),
        forall|k: int| 0 <= k < s.len() ==> is_digit(#[trigger] s[k]),
    ensures
        0 <= decimal_value(s.take(i)) <= decimal_value(s.take(j)),
    decreases j,
{
    if j > 0 {
        assert(s.take(j).drop_last() =~= s.take(j - 1));
        assert(is_digit(s[j - 1]));
        if i < j {
            lemma_decimal_value_grows(s, i, j - 1);
        } else {
            lemma_decimal_value_grows(s, i - 1, j - 1);
        }
    } else {
        assert(s.take(0) =~= Seq::<char>::empty());
    }
}

/// Reads a positive decimal number without sign or spaces.
pub fn parse_positive_u64(s: &str) -> (r: Option<u64>)
    ensures
        r == positive_u64(s@),
{
    let n = s.unicode_len();
    if n == 0 {
        return None;
    }
    let mut v: u64 = 0;
    let mut i: usize = 0;
    while i < n
        invariant
            n == s@.len(),
            i <= n,
            forall|k: int| 0 <= k < i ==> is_digit(#[trigger] s@[k]),
            v as int == decimal_value(s@.take(i as int)),
        decreases n - i,
    {
        let c = s.get_char(i);
        if !('0' <= c && c <= '9') {
            assert(!is_decimal(s@));
            return None;
        }
        let d: u64 = (c as u32 - '0' as u32) as u64;
        assert(s@.take(i + 1).drop_last() =~= s@.take(i as int));
        if v > (u64::MAX - d) / 10 {
            proof {
                assert(decimal_value(s@.take(i + 1)) > u64::MAX) by (nonlinear_arith)
                    requires
                        decimal_value(s@.take(i + 1)) == v * 10 + d,
                        v > (u64::MAX - d) / 10,
                        d <= 9,
                ;
                if is_decimal(s@) {
                    lemma_decimal_value_grows(s@, i + 1, n as int);
                    assert(s@.take(n as int) =~= s@);
                }
            }
            return None;
        }
        v = v * 10 + d;
        i = i + 1;
    }
    assert(s@.take(n as int) =~= s@);
    if v == 0 {
        None
    } else {
        Some(v)
    }
}

/// The target channel id; it must be a positive number.
pub fn parse_channel_id(s: &str) -> (r: Result<u64, ConfigError>)
    ensures
        positive_u64(s@) is Some ==> r == Ok::<u64, ConfigError>(positive_u64(s@).unwrap()),
        positive_u64(s@) is None ==> r == Err::<u64, ConfigError>(ConfigError::InvalidChannelId),
{
    match parse_positive_u64(s) {
        Some(v) => Ok(v),
        None => Err(ConfigError::InvalidChannelId),
    }
}

/// The interval between ticks in seconds: 60 when unset, else a positive number.
pub fn parse_interval(s: Option<&str>) -> (r: Result<u64, ConfigError>)
    ensures
        s is None ==> r == Ok::<u64, ConfigError>(DEFAULT_INTERVAL_SECONDS),
        s is Some && positive_u64(s.unwrap()@) is Some
            ==> r == Ok::<u64, ConfigError>(positive_u64(s.unwrap()@).unwrap()),
        s is Some && positive_u64(s.unwrap()@) is None
            ==> r == Err::<u64, ConfigError>(ConfigError::InvalidInterval),
{
    match s {
        None => Ok(DEFAULT_INTERVAL_SECONDS),
        Some(text) => match parse_positive_u64(text) {
            Some(v) => Ok(v),
            None => Err(ConfigError::InvalidInterval),
        },
    }
}

} // verus!
