//! The server's configuration, taken from the PayTech environment variables.

use vstd::prelude::*;
use crate::text::{all_digits, digit_value, digits_value, is_digit, lemma_decimal_is_digits, spec_decimal};

verus! {

/// The values of the environment variables that the configuration reads;
/// `None` where a variable is unset (or not valid Unicode).
#[derive(Debug)]
pub struct EnvVars {
    /// `PAYTECH_API_KEY`
    pub paytech_api_key: Option<String>,
    /// `PAYTECH_API_SECRET`
    pub paytech_api_secret: Option<String>,
    /// `PAYTECH_BASE_URL`
    pub paytech_base_url: Option<String>,
    /// `PAYTECH_ENV`
    pub paytech_env: Option<String>,
    /// `PAYTECH_IPN_URL`
    pub paytech_ipn_url: Option<String>,
    /// `PAYTECH_SUCCESS_URL`
    pub paytech_success_url: Option<String>,
    /// `PAYTECH_CANCEL_URL`
    pub paytech_cancel_url: Option<String>,
    /// `PORT`
    pub port: Option<String>,
}

/// The server's configuration.
#[derive(Debug)]
pub struct Config {
    pub paytech_api_key: String,
    pub paytech_api_secret: String,
    pub paytech_base_url: String,
    pub paytech_env: String,
    pub paytech_ipn_url: String,
    pub paytech_success_url: String,
    pub paytech_cancel_url: String,
    pub port: u16,
}

/// Why the configuration could not be built.
#[derive(Debug, PartialEq, Eq, Structural)]
pub enum ConfigError {
    /// `PAYTECH_API_KEY` is unset.
    MissingApiKey,
    /// `PAYTECH_API_SECRET` is unset.
    MissingApiSecret,
    /// `PORT` is not a decimal `u16`.
    InvalidPort,
}

/// The message of each configuration error.
pub open spec fn config_error_text(e: ConfigError) -> Seq<char> {
    match e {
        ConfigError::MissingApiKey =>
            "PAYTECH_API_KEY environment variable is required. Please set it in .env file."@,
        ConfigError::MissingApiSecret =>
            "PAYTECH_API_SECRET environment variable is required. Please set it in .env file."@,
        ConfigError::InvalidPort => "PORT must be a valid number between 1 and 65535"@,
    }
}

impl ConfigError {
    /// The message that the server prints when it cannot start.
    pub fn message(&self) -> (s: String)
        ensures
            s@ == config_error_text(*self),
    {
        match self {
            ConfigError::MissingApiKey => String::from_str(
                "PAYTECH_API_KEY environment variable is required. Please set it in .env file.",
            ),
            ConfigError::MissingApiSecret => String::from_str(
                "PAYTECH_API_SECRET environment variable is required. Please set it in .env file.",
            ),
            ConfigError::InvalidPort => String::from_str(
                "PORT must be a valid number between 1 and 65535",
            ),
        }
    }
}

/// The decimal digits of a `u16` numeral: all of it, or all but a leading `+`.
pub open spec fn port_digits(s: Seq<char>) -> Seq<char> {
    if s.len() > 0 && s[0] == '+' {
        s.drop_first()
    } else {
        s
    }
}

/// What `str::parse::<u16>` gives: an optional `+`, then one or more ASCII
/// digits whose value is at most 65535 (leading zeros allowed); nothing else.
pub open spec fn spec_parse_u16(s: Seq<char>) -> Option<u16> {
    let d = port_digits(s);
    if d.len() > 0 && all_digits(d) && digits_value(d) <= 65535 {
        Some(digits_value(d) as u16)
    } else {
        None
    }
}

/// A string of digits is worth at least as much as each of its prefixes.
proof fn lemma_digits_value_prefix(s: Seq<char>, k: int)
    requires
        0 <= k <= s.len(),
        all_digits(s),
    ensures
        digits_value(s.take(k)) <= digits_value(s),
    decreases s.len(),
{
    if k < s.len() {
        assert(s.drop_last().take(k) == s.take(k));
        lemma_digits_value_prefix(s.drop_last(), k);
        assert(is_digit(s.last()));
    } else {
        assert(s.take(k) == s);
    }
}

/// A port written in decimal reads back as the same port: `parse_port` accepts
/// every numeral that `decimal_string` writes for a `u16`.
pub proof fn lemma_port_round_trip(port: u16)
    ensures
        spec_parse_u16(spec_decimal(port as nat)) == Some(port),
{
    let s = spec_decimal(port as nat);
    lemma_decimal_is_digits(port as nat);
    assert(is_digit(s[0]));
    assert(port_digits(s) == s);
}

/// Reads a port number as `str::parse::<u16>` does.
pub fn parse_port(s: &str) -> (r: Option<u16>)
    ensures
        r == spec_parse_u16(s@),
{
    let ghost text = s@;
    let ghost start: int = if text.len() > 0 && text[0] == '+' { 1 } else { 0 };
    let mut value: u32 = 0;
    let mut any_digit: bool = false;
    let mut plus: bool = false;
    let mut first: bool = true;
    let ghost mut i: int = 0;
    for c in it: s.chars()
        invariant
            it.seq() == text,
            text == s@,
            i == it.index(),
            start == if text.len() > 0 && text[0] == '+' { 1int } else { 0int },
            i <= text.len(),
            plus == (i > 0 && start == 1),
            i > 0 ==> start <= i,
            any_digit == (i > 0 && i - start > 0),
            first == (i == 0),
            i > 0 ==> all_digits(text.subrange(start, i)),
            i > 0 ==> value as int == digits_value(text.subrange(start, i)),
            value <= 65535,
            i == 0 ==> value == 0,
    {
        assert(i < text.len());
        assert(c == text[i]);
        if first && c == '+' {
            plus = true;
            assert(text.subrange(1, 1) == Seq::<char>::empty());
        } else {
            if !('0' <= c && c <= '9') {
                proof {
                    let d = port_digits(text);
                    assert(d == text.subrange(start, text.len() as int));
                    assert(d[i - start] == c);
                    assert(!is_digit(d[i - start]));
                }
                return None;
            }
            let ghost prev = text.subrange(start, i);
            let ghost next = text.subrange(start, i + 1);
            assert(next.drop_last() == prev);
            proof {
                if i == 0 {
                    assert(prev == Seq::<char>::empty());
                }
            }
            let d: u32 = (c as u32) - ('0' as u32);
            assert(next.last() == c);
            assert(digits_value(next) == digits_value(prev) * 10 + digit_value(c));
            assert(d as int == digit_value(c));
            value = value * 10 + d;
            any_digit = true;
            if value > 65535 {
                proof {
                    let dd = port_digits(text);
                    assert(dd == text.subrange(start, text.len() as int));
                    assert(dd.take(i + 1 - start) == next);
                    if all_digits(dd) {
                        lemma_digits_value_prefix(dd, i + 1 - start);
                    }
                }
                return None;
            }
        }
        first = false;
        proof {
            i = i + 1;
        }
    }
    proof {
        let d = port_digits(text);
        assert(d == text.subrange(start, text.len() as int));
    }
    if !any_digit {
        None
    } else {
        Some(value as u16)
    }
}

/// The default of each optional setting.
pub open spec fn or_default(v: Option<String>, default: Seq<char>) -> Seq<char> {
    match v {
        Some(s) => s@,
        None => default,
    }
}

/// `PAYTECH_BASE_URL` when unset.
pub open spec fn default_base_url() -> Seq<char> {
    "https://paytech.sn/api"@
}

/// `PAYTECH_ENV` when unset.
pub open spec fn default_env() -> Seq<char> {
    "test"@
}

/// `PAYTECH_IPN_URL` when unset.
pub open spec fn default_ipn_url() -> Seq<char> {
    "https://secure-3ds.intech.sn/ping"@
}

/// `PAYTECH_SUCCESS_URL` when unset.
pub open spec fn default_success_url() -> Seq<char> {
    "https://example.com/payment/success"@
}

/// `PAYTECH_CANCEL_URL` when unset.
pub open spec fn default_cancel_url() -> Seq<char> {
    "https://example.com/payment/cancel"@
}

/// The port that `PORT` names, 8080 when unset.
pub open spec fn spec_port(v: Option<String>) -> Option<u16> {
    match v {
        Some(s) => spec_parse_u16(s@),
        None => Some(8080u16),
    }
}

fn value_or(v: Option<String>, default: &str) -> (r: String)
    ensures
        r@ == or_default(v, default@),
{
    match v {
        Some(s) => s,
        None => String::from_str(default),
    }
}

impl Config {
    /// Builds the configuration from the environment's values: the API key
    /// and secret are required, the URLs and the environment name have
    /// defaults, and `PORT` (8080 when unset) must read as a `u16`.
    pub fn from_env(env: EnvVars) -> (r: Result<Config, ConfigError>)
        ensures
            env.paytech_api_key is None ==> r == Err::<Config, ConfigError>(ConfigError::MissingApiKey),
            env.paytech_api_key is Some && env.paytech_api_secret is None ==> r == Err::<
                Config,
                ConfigError,
            >(ConfigError::MissingApiSecret),
            env.paytech_api_key is Some && env.paytech_api_secret is Some && spec_port(env.port) is None
                ==> r == Err::<Config, ConfigError>(ConfigError::InvalidPort),
            r is Ok <==> (env.paytech_api_key is Some && env.paytech_api_secret is Some && spec_port(
                env.port,
            ) is Some),
            r matches Ok(c) ==> {
                &&& c.paytech_api_key@ == env.paytech_api_key->0@
                &&& c.paytech_api_secret@ == env.paytech_api_secret->0@
                &&& c.paytech_base_url@ == or_default(env.paytech_base_url, default_base_url())
                &&& c.paytech_env@ == or_default(env.paytech_env, default_env())
                &&& c.paytech_ipn_url@ == or_default(env.paytech_ipn_url, default_ipn_url())
                &&& c.paytech_success_url@ == or_default(env.paytech_success_url, default_success_url())
                &&& c.paytech_cancel_url@ == or_default(env.paytech_cancel_url, default_cancel_url())
                &&& Some(c.port) == spec_port(env.port)
            },
    {
        let api_key = match env.paytech_api_key {
            Some(k) => k,
            None => return Err(ConfigError::MissingApiKey),
        };
        let api_secret = match env.paytech_api_secret {
            Some(s) => s,
            None => return Err(ConfigError::MissingApiSecret),
        };
        let base_url = value_or(env.paytech_base_url, "https://paytech.sn/api");
        let paytech_env = value_or(env.paytech_env, "test");
        let ipn_url = value_or(env.paytech_ipn_url, "https://secure-3ds.intech.sn/ping");
        let success_url = value_or(env.paytech_success_url, "https://example.com/payment/success");
        let cancel_url = value_or(env.paytech_cancel_url, "https://example.com/payment/cancel");
        let port = match env.port {
            Some(p) => match parse_port(p.as_str()) {
                Some(n) => n,
                None => return Err(ConfigError::InvalidPort),
            },
            None => 8080,
        };
        Ok(
            Config {
                paytech_api_key: api_key,
                paytech_api_secret: api_secret,
                paytech_base_url: base_url,
                paytech_env,
                paytech_ipn_url: ipn_url,
                paytech_success_url: success_url,
                paytech_cancel_url: cancel_url,
                port,
            },
        )
    }
}

} // verus!
