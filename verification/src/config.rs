//! Process configuration: the values the service is started with, built once
//! from raw environment text before the server binds its socket. A missing
//! or malformed value is a fatal startup error, never a per-request one.

use vstd::prelude::*;

verus! {

/// A decimal digit byte, `'0'` through `'9'`.
pub open spec fn is_dec_digit(b: u8) -> bool {
    48 <= b && b <= 57
}

/// Every byte of the string is a decimal digit.
pub open spec fn all_dec_digits(s: Seq<u8>) -> bool {
    forall|i: int| 0 <= i < s.len() ==> is_dec_digit(#[trigger] s[i])
}

/// The number a digit string denotes, most significant digit first.
pub open spec fn dec_value(s: Seq<u8>) -> int
    decreases s.len(),
{
    if s.len() == 0 {
        0
    } else {
        dec_value(s.drop_last()) * 10 + (s.last() - 48)
    }
}

/// A digit string denotes a non-negative number.
pub proof fn lemma_dec_value_nonneg(s: Seq<u8>)
    requires
        all_dec_digits(s),
    ensures
        dec_value(s) >= 0,
    decreases s.len(),
{
    if s.len() > 0 {
        assert forall|i: int| 0 <= i < s.drop_last().len() implies is_dec_digit(
            #[trigger] s.drop_last()[i],
        ) by {
            assert(s.drop_last()[i] == s[i]);
        }
        lemma_dec_value_nonneg(s.drop_last());
    }
}

/// Reading one more digit multiplies the value so far by ten and adds it.
pub proof fn lemma_dec_value_take_succ(s: Seq<u8>, i: int)
    requires
        0 <= i < s.len(),
    ensures
        dec_value(s.take(i + 1)) == dec_value(s.take(i)) * 10 + (s[i] - 48),
{
    assert(s.take(i + 1).drop_last() =~= s.take(i));
    assert(s.take(i + 1).last() == s[i]);
}

/// A digit string denotes at least as much as any of its prefixes, so a
/// value that has outgrown a bound mid-parse can only grow further.
pub proof fn lemma_dec_value_prefix_le(s: Seq<u8>, i: int)
    requires
        all_dec_digits(s),
        0 <= i <= s.len(),
    ensures
        dec_value(s.take(i)) <= dec_value(s),
    decreases s.len() - i,
{
    if i == s.len() {
        assert(s.take(i) =~= s);
    } else {
        assert forall|j: int| 0 <= j < s.take(i).len() implies is_dec_digit(
            #[trigger] s.take(i)[j],
        ) by {
            assert(s.take(i)[j] == s[j]);
        }
        lemma_dec_value_nonneg(s.take(i));
        lemma_dec_value_take_succ(s, i);
        lemma_dec_value_prefix_le(s, i + 1);
    }
}

/// Parses an unsigned decimal number from raw bytes. Succeeds exactly on a
/// non-empty, all-digit string whose value fits, and then returns that value.
pub fn parse_u64(s: &Vec<u8>) -> (r: Option<u64>)
    ensures
        r is Some <==> s@.len() > 0 && all_dec_digits(s@) && dec_value(s@) <= u64::MAX,
        r is Some ==> r.unwrap() == dec_value(s@),
{
    let n = s.len();
    if n == 0 {
        return None;
    }
    let mut acc: u64 = 0;
    let mut i: usize = 0;
    while i < n
        invariant
            i <= n,
            n == s@.len(),
            all_dec_digits(s@.take(i as int)),
            acc == dec_value(s@.take(i as int)),
        decreases n - i,
    {
        let b = s[i];
        if b < 48 || b > 57 {
            proof {
                assert(!is_dec_digit(s@[i as int]));
            }
            return None;
        }
        let d: u64 = (b - 48) as u64;
        proof {
            lemma_dec_value_take_succ(s@, i as int);
        }
        let shifted = match acc.checked_mul(10) {
            Some(m) => m.checked_add(d),
            None => None,
        };
        match shifted {
            Some(next) => {
                acc = next;
                proof {
                    assert forall|j: int| 0 <= j < s@.take(i as int + 1).len() implies is_dec_digit(
                        #[trigger] s@.take(i as int + 1)[j],
                    ) by {
                        assert(s@.take(i as int + 1)[j] == s@[j]);
                    }
                }
                i = i + 1;
            },
            None => {
                proof {
                    if all_dec_digits(s@) {
                        lemma_dec_value_prefix_le(s@, i as int + 1);
                    }
                }
                return None;
            },
        }
    }
    proof {
        assert(s@.take(n as int) =~= s@);
    }
    Some(acc)
}

/// Why the process refuses to start.
#[derive(Clone, Copy, Debug, PartialEq, Eq, Structural)]
pub enum ConfigError {
    MissingPort,
    InvalidPort,
    MissingMaxPayloadSize,
    InvalidMaxPayloadSize,
    MissingRepoLink,
}

/// The process-wide configuration: set once at startup, read by every
/// request, immutable for the process lifetime.
#[derive(Debug)]
pub struct Config {
    /// The TCP port the server binds.
    pub port: u16,
    /// The maximum number of bytes accepted in an upload body.
    pub max_payload_size: usize,
    /// Whether the index route is served at all.
    pub index_enabled: bool,
    /// The string the index route answers with.
    pub repo_link: Option<String>,
}

impl Config {
    /// Well-formed: the link is present whenever the index route is served.
    pub open spec fn wf(self) -> bool {
        self.index_enabled ==> self.repo_link is Some
    }
}

/// Whether a raw configuration string denotes a decimal number within the
/// given bounds.
pub open spec fn parses_within(raw: Seq<u8>, lo: int, hi: int) -> bool {
    raw.len() > 0 && all_dec_digits(raw) && lo <= dec_value(raw) <= hi
}

/// The outcome of building the configuration from raw environment values:
/// the first missing or malformed value is the fatal error, checked in the
/// order port, payload size, link. The port must be a decimal number that
/// fits a port; the payload size must be a positive decimal byte count that
/// fits the machine; the link is required exactly when the index route is on.
pub open spec fn spec_build_config(
    port: Option<Vec<u8>>,
    max_payload_size: Option<Vec<u8>>,
    repo_link: Option<String>,
    index_enabled: bool,
) -> Result<Config, ConfigError> {
    if port is None {
        Err(ConfigError::MissingPort)
    } else if !parses_within(port.unwrap()@, 0, u16::MAX as int) {
        Err(ConfigError::InvalidPort)
    } else if max_payload_size is None {
        Err(ConfigError::MissingMaxPayloadSize)
    } else if !parses_within(max_payload_size.unwrap()@, 1, usize::MAX as int) {
        Err(ConfigError::InvalidMaxPayloadSize)
    } else if index_enabled && repo_link is None {
        Err(ConfigError::MissingRepoLink)
    } else {
        Ok(
            Config {
                port: dec_value(port.unwrap()@) as u16,
                max_payload_size: dec_value(max_payload_size.unwrap()@) as usize,
                index_enabled,
                repo_link,
            },
        )
    }
}

/// Builds the configuration from the raw environment values, exactly as
/// `spec_build_config` says: the caller (process startup) must treat an
/// error as fatal and not bind a listening socket.
pub fn build_config(
    port: Option<Vec<u8>>,
    max_payload_size: Option<Vec<u8>>,
    repo_link: Option<String>,
    index_enabled: bool,
) -> (r: Result<Config, ConfigError>)
    ensures
        r == spec_build_config(port, max_payload_size, repo_link, index_enabled),
        r matches Ok(cfg) ==> cfg.wf(),
{
    let port_raw = match port {
        Some(p) => p,
        None => {
            return Err(ConfigError::MissingPort);
        },
    };
    let port_num = match parse_u64(&port_raw) {
        Some(v) => v,
        None => {
            return Err(ConfigError::InvalidPort);
        },
    };
    if port_num > 65535 {
        return Err(ConfigError::InvalidPort);
    }
    let size_raw = match max_payload_size {
        Some(m) => m,
        None => {
            return Err(ConfigError::MissingMaxPayloadSize);
        },
    };
    let size_num = match parse_u64(&size_raw) {
        Some(v) => v,
        None => {
            return Err(ConfigError::InvalidMaxPayloadSize);
        },
    };
    if size_num == 0 || size_num > usize::MAX as u64 {
        return Err(ConfigError::InvalidMaxPayloadSize);
    }
    if index_enabled && repo_link.is_none() {
        return Err(ConfigError::MissingRepoLink);
    }
    Ok(
        Config {
            port: port_num as u16,
            max_payload_size: size_num as usize,
            index_enabled,
            repo_link,
        },
    )
}

/// Starting with the index route on and no link configured is refused,
/// whatever the other raw values hold: the process never comes up without
/// its link string.
pub proof fn lemma_missing_link_refused(port: Option<Vec<u8>>, max_payload_size: Option<Vec<u8>>)
    ensures
        spec_build_config(port, max_payload_size, None, true) is Err,
{
}

} // verus!
