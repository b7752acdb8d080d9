//! Configuration: the values read from the environment, with their defaults
//! and their checks.

use vstd::prelude::*;
use crate::error::{ErrorView, VelesError};
use crate::strings::{
    ascii_lowercase, chars_equal_str, chars_of, concat_strs, copy_string, lowercase_chars, opt_view,
    string_of,
};

verus! {

/// Why a text is not a number (the kinds of `core::num::ParseIntError` that an
/// unsigned type can give).
#[derive(Debug, Clone, Copy, PartialEq, Eq, Structural)]
pub enum IntErrorKind {
    Empty,
    InvalidDigit,
    PosOverflow,
}

/// The value of an ASCII decimal digit.
pub open spec fn digit_value(c: char) -> int {
    (c as int) - ('0' as int)
}

/// Whether `c` is an ASCII decimal digit.
pub open spec fn is_digit(c: char) -> bool {
    '0' <= c && c <= '9'
}

/// Reads the digits of `d` from left to right into a number no larger than
/// `max`; the first character that is not a digit, or the first that takes the
/// value above `max`, decides the error.
pub open spec fn digits_value(d: Seq<char>, max: nat) -> Result<nat, IntErrorKind>
    decreases d.len(),
{
    if d.len() == 0 {
        Ok(0)
    } else {
        match digits_value(d.drop_last(), max) {
            Err(e) => Err(e),
            Ok(v) => if !is_digit(d.last()) {
                Err(IntErrorKind::InvalidDigit)
            } else if v * 10 + digit_value(d.last()) > max {
                Err(IntErrorKind::PosOverflow)
            } else {
                Ok((v * 10 + digit_value(d.last())) as nat)
            },
        }
    }
}

/// `str::parse` for an unsigned integer type whose largest value is `max`.
pub open spec fn parse_unsigned(s: Seq<char>, max: nat) -> Result<nat, IntErrorKind> {
    if s.len() == 0 {
        Err(IntErrorKind::Empty)
    } else if (s[0] == '+' || s[0] == '-') && s.len() == 1 {
        Err(IntErrorKind::InvalidDigit)
    } else if s[0] == '+' {
        digits_value(s.drop_first(), max)
    } else {
        digits_value(s, max)
    }
}

/// The description that `ParseIntError` gives of each kind.
pub open spec fn int_error_text(k: IntErrorKind) -> Seq<char> {
    match k {
        IntErrorKind::Empty => "cannot parse integer from empty string"@,
        IntErrorKind::InvalidDigit => "invalid digit found in string"@,
        IntErrorKind::PosOverflow => "number too large to fit in target type"@,
    }
}

fn int_error_message(k: IntErrorKind) -> (r: &'static str)
    ensures
        r@ == int_error_text(k),
{
    match k {
        IntErrorKind::Empty => "cannot parse integer from empty string",
        IntErrorKind::InvalidDigit => "invalid digit found in string",
        IntErrorKind::PosOverflow => "number too large to fit in target type",
    }
}

proof fn lemma_digits_bounded(d: Seq<char>, max: nat)
    ensures
        digits_value(d, max) matches Ok(v) ==> v <= max,
    decreases d.len(),
{
    if d.len() > 0 {
        lemma_digits_bounded(d.drop_last(), max);
    }
}

proof fn lemma_digits_prefix_err(d: Seq<char>, k: int, max: nat, e: IntErrorKind)
    requires
        0 <= k <= d.len(),
        digits_value(d.take(k), max) == Err::<nat, IntErrorKind>(e),
    ensures
        digits_value(d, max) == Err::<nat, IntErrorKind>(e),
    decreases d.len() - k,
{
    if k == d.len() {
        assert(d.take(k) =~= d);
    } else {
        assert(d.take(k + 1).drop_last() =~= d.take(k));
        lemma_digits_prefix_err(d, k + 1, max, e);
    }
}

/// Parses `s` as a decimal number no larger than `max`, as `str::parse` does
/// for an unsigned integer type.
pub fn parse_unsigned_decimal(s: &str, max: u64) -> (r: Result<u64, IntErrorKind>)
    ensures
        match r {
            Ok(v) => parse_unsigned(s@, max as nat) == Ok::<nat, IntErrorKind>(v as nat),
            Err(k) => parse_unsigned(s@, max as nat) == Err::<nat, IntErrorKind>(k),
        },
{
    let v = chars_of(s);
    let n = v.len();
    if n == 0 {
        return Err(IntErrorKind::Empty);
    }
    if (v[0] == '+' || v[0] == '-') && n == 1 {
        return Err(IntErrorKind::InvalidDigit);
    }
    let start: usize = if v[0] == '+' { 1 } else { 0 };
    let ghost d = v@.skip(start as int);
    assert(v@.skip(1) =~= v@.drop_first());
    assert(v@.skip(0) =~= v@);
    assert(parse_unsigned(s@, max as nat) == digits_value(d, max as nat));
    let mut acc: u64 = 0;
    let mut i = start;
    assert(d.take(0) =~= Seq::<char>::empty());
    while i < n
        invariant
            start <= i <= n,
            n == v@.len(),
            d == v@.skip(start as int),
            parse_unsigned(s@, max as nat) == digits_value(d, max as nat),
            acc <= max,
            digits_value(d.take(i - start), max as nat) == Ok::<nat, IntErrorKind>(acc as nat),
        decreases n - i,
    {
        let c = v[i];
        proof {
            assert(d.take(i - start + 1).drop_last() =~= d.take(i - start));
            assert(d.take(i - start + 1).last() == c);
        }
        if !('0' <= c && c <= '9') {
            proof {
                lemma_digits_prefix_err(d, (i - start) as int + 1, max as nat, IntErrorKind::InvalidDigit);
            }
            return Err(IntErrorKind::InvalidDigit);
        }
        let dv: u64 = (c as u32 - '0' as u32) as u64;
        if dv > max || acc > (max - dv) / 10 {
            proof {
                if dv <= max {
                    assert(acc * 10 + dv > max) by (nonlinear_arith)
                        requires acc > (max - dv) / 10, dv <= max;
                }
                lemma_digits_prefix_err(d, (i - start) as int + 1, max as nat, IntErrorKind::PosOverflow);
            }
            return Err(IntErrorKind::PosOverflow);
        }
        assert(acc * 10 + dv <= max) by (nonlinear_arith)
            requires acc <= (max - dv) / 10, dv <= max;
        acc = acc * 10 + dv;
        i = i + 1;
    }
    assert(d.take(n - start) =~= d);
    Ok(acc)
}

/// What an optional numeric variable gives: the default when it is absent,
/// its value when it reads as a number no larger than `max`, and otherwise the
/// message `invalid NAME: REASON`.
pub open spec fn env_number(name: Seq<char>, raw: Option<Seq<char>>, default: nat, max: nat) -> Result<
    nat,
    Seq<char>,
> {
    match raw {
        None => Ok(default),
        Some(t) => match parse_unsigned(t, max) {
            Ok(v) => Ok(v),
            Err(k) => Err("invalid "@ + name + ": "@ + int_error_text(k)),
        },
    }
}

/// Reads an optional numeric variable named `name`.
pub(crate) fn read_number(name: &str, raw: &Option<String>, default: u64, max: u64) -> (r: Result<u64, VelesError>)
    requires
        default <= max,
    ensures
        match r {
            Ok(v) => env_number(name@, opt_view(*raw), default as nat, max as nat) == Ok::<nat, Seq<char>>(v as nat),
            Err(e) => exists|m: Seq<char>|
                env_number(name@, opt_view(*raw), default as nat, max as nat) == Err::<nat, Seq<char>>(m)
                    && e@ == ErrorView::Config(m),
        },
        r matches Ok(v) ==> v <= max,
{
    match raw {
        None => Ok(default),
        Some(t) => match parse_unsigned_decimal(t.as_str(), max) {
            Ok(v) => {
                proof {
                    lemma_parse_bounded(t@, max as nat);
                }
                Ok(v)
            },
            Err(k) => {
                let mut m = concat_strs("invalid ", name);
                m.append(": ");
                m.append(int_error_message(k));
                Err(VelesError::Config(m))
            },
        },
    }
}

proof fn lemma_parse_bounded(s: Seq<char>, max: nat)
    ensures
        parse_unsigned(s, max) matches Ok(v) ==> v <= max,
{
    lemma_digits_bounded(s, max);
    if s.len() > 0 {
        lemma_digits_bounded(s.drop_first(), max);
    }
}

/// The SafeSearch level sent to DuckDuckGo.
#[derive(Debug, Clone, Copy, PartialEq, Eq, Structural)]
pub enum SafeSearch {
    Strict,
    Moderate,
    Off,
}

/// The level that a `VELES_SAFESEARCH` value names, compared without regard to
/// ASCII case, or the message that refuses it.
pub open spec fn safe_search_of(value: Seq<char>) -> Result<SafeSearch, Seq<char>> {
    let lower = ascii_lowercase(value);
    if lower == "strict"@ {
        Ok(SafeSearch::Strict)
    } else if lower == "moderate"@ {
        Ok(SafeSearch::Moderate)
    } else if lower == "off"@ {
        Ok(SafeSearch::Off)
    } else {
        Err("unsupported VELES_SAFESEARCH value: "@ + lower)
    }
}

/// DuckDuckGo's `kp` parameter for each level.
pub open spec fn ddg_kp_of(level: SafeSearch) -> Seq<char> {
    match level {
        SafeSearch::Strict => "1"@,
        SafeSearch::Moderate => "-1"@,
        SafeSearch::Off => "-2"@,
    }
}

impl SafeSearch {
    /// Reads a `VELES_SAFESEARCH` value: `strict`, `moderate` or `off`, in any
    /// ASCII case.
    pub fn from_env_value(value: &str) -> (r: Result<Self, VelesError>)
        ensures
            match r {
                Ok(level) => safe_search_of(value@) == Ok::<SafeSearch, Seq<char>>(level),
                Err(e) => exists|m: Seq<char>|
                    safe_search_of(value@) == Err::<SafeSearch, Seq<char>>(m) && e@ == ErrorView::Config(m),
            },
    {
        let lower = lowercase_chars(value);
        if chars_equal_str(&lower, "strict") {
            Ok(SafeSearch::Strict)
        } else if chars_equal_str(&lower, "moderate") {
            Ok(SafeSearch::Moderate)
        } else if chars_equal_str(&lower, "off") {
            Ok(SafeSearch::Off)
        } else {
            let other = string_of(&lower);
            Err(VelesError::Config(concat_strs("unsupported VELES_SAFESEARCH value: ", other.as_str())))
        }
    }

    /// DuckDuckGo's `kp` parameter for this level.
    pub fn ddg_kp(self) -> (r: &'static str)
        ensures
            r@ == ddg_kp_of(self),
    {
        match self {
            SafeSearch::Strict => "1",
            SafeSearch::Moderate => "-1",
            SafeSearch::Off => "-2",
        }
    }
}

/// The raw environment values that configure the server; `None` where a
/// variable is unset.
pub struct ConfigVars {
    /// `VELES_REQUESTS_PER_SECOND`
    pub requests_per_second: Option<String>,
    /// `VELES_CACHE_TTL_SECONDS`
    pub cache_ttl_seconds: Option<String>,
    /// `VELES_REQUEST_TIMEOUT_MS`
    pub request_timeout_ms: Option<String>,
    /// `VELES_MAX_PAGE_BYTES`
    pub max_page_bytes: Option<String>,
    /// `VELES_DDG_REGION`
    pub ddg_region: Option<String>,
    /// `VELES_SAFESEARCH`
    pub safesearch: Option<String>,
    /// `VELES_USER_AGENT`
    pub user_agent: Option<String>,
}

/// The server's configuration.
pub struct Config {
    /// Outbound HTTP requests allowed per second; never 0.
    pub requests_per_second: u32,
    /// How long a cached search or page stays valid, in seconds.
    pub cache_ttl_secs: u64,
    /// HTTP request timeout, in milliseconds.
    pub request_timeout_ms: u64,
    /// Largest response body accepted, in bytes.
    pub max_page_bytes: u64,
    /// DuckDuckGo region (`kl`).
    pub ddg_region: String,
    /// DuckDuckGo SafeSearch level.
    pub safe_search: SafeSearch,
    /// HTTP `User-Agent`.
    pub user_agent: String,
}

/// The mathematical form of a [`Config`].
pub struct ConfigView {
    pub requests_per_second: nat,
    pub cache_ttl_secs: nat,
    pub request_timeout_ms: nat,
    pub max_page_bytes: nat,
    pub ddg_region: Seq<char>,
    pub safe_search: SafeSearch,
    pub user_agent: Seq<char>,
}

impl View for Config {
    type V = ConfigView;

    open spec fn view(&self) -> ConfigView {
        ConfigView {
            requests_per_second: self.requests_per_second as nat,
            cache_ttl_secs: self.cache_ttl_secs as nat,
            request_timeout_ms: self.request_timeout_ms as nat,
            max_page_bytes: self.max_page_bytes as nat,
            ddg_region: self.ddg_region@,
            safe_search: self.safe_search,
            user_agent: self.user_agent@,
        }
    }
}

/// The default DuckDuckGo region.
pub open spec fn default_region() -> Seq<char> {
    "wt-wt"@
}

/// The default `User-Agent`.
pub open spec fn default_user_agent() -> Seq<char> {
    "Veles/0.5 local MCP server"@
}

/// The configuration that the variables describe, or the message of the first
/// variable that is refused. Variables are checked in the order of the
/// fields; a request rate of 0 is refused.
pub open spec fn config_of(vars: ConfigVars) -> Result<ConfigView, Seq<char>> {
    match env_number("VELES_REQUESTS_PER_SECOND"@, opt_view(vars.requests_per_second), 1, u32::MAX as nat) {
        Err(m) => Err(m),
        Ok(rps) => if rps == 0 {
            Err("VELES_REQUESTS_PER_SECOND must be greater than 0"@)
        } else {
            match env_number("VELES_CACHE_TTL_SECONDS"@, opt_view(vars.cache_ttl_seconds), 3600, u64::MAX as nat) {
                Err(m) => Err(m),
                Ok(ttl) => match env_number(
                    "VELES_REQUEST_TIMEOUT_MS"@,
                    opt_view(vars.request_timeout_ms),
                    15000,
                    u64::MAX as nat,
                ) {
                    Err(m) => Err(m),
                    Ok(timeout) => match env_number(
                        "VELES_MAX_PAGE_BYTES"@,
                        opt_view(vars.max_page_bytes),
                        2000000,
                        u64::MAX as nat,
                    ) {
                        Err(m) => Err(m),
                        Ok(max_bytes) => {
                            let level_text = match vars.safesearch {
                                Some(t) => t@,
                                None => "moderate"@,
                            };
                            match safe_search_of(level_text) {
                                Err(m) => Err(m),
                                Ok(level) => Ok(
                                    ConfigView {
                                        requests_per_second: rps,
                                        cache_ttl_secs: ttl,
                                        request_timeout_ms: timeout,
                                        max_page_bytes: max_bytes,
                                        ddg_region: match vars.ddg_region {
                                            Some(t) => t@,
                                            None => default_region(),
                                        },
                                        safe_search: level,
                                        user_agent: match vars.user_agent {
                                            Some(t) => t@,
                                            None => default_user_agent(),
                                        },
                                    },
                                ),
                            }
                        },
                    },
                },
            }
        }
    }
}

fn text_or(raw: &Option<String>, default: &str) -> (r: String)
    ensures
        r@ == match *raw {
            Some(t) => t@,
            None => default@,
        },
{
    match raw {
        Some(t) => copy_string(t),
        None => String::from_str(default),
    }
}

impl Config {
    /// Builds the configuration from the raw variables, with the defaults of
    /// the unset ones; `Config(..)` names the first variable that is refused.
    pub fn from_vars(vars: &ConfigVars) -> (r: Result<Config, VelesError>)
        ensures
            match r {
                Ok(c) => config_of(*vars) == Ok::<ConfigView, Seq<char>>(c@),
                Err(e) => exists|m: Seq<char>|
                    config_of(*vars) == Err::<ConfigView, Seq<char>>(m) && e@ == ErrorView::Config(m),
            },
    {
        let rps = read_number("VELES_REQUESTS_PER_SECOND", &vars.requests_per_second, 1, 4294967295)?;
        if rps == 0 {
            return Err(VelesError::Config(String::from_str("VELES_REQUESTS_PER_SECOND must be greater than 0")));
        }
        let ttl = read_number("VELES_CACHE_TTL_SECONDS", &vars.cache_ttl_seconds, 3600, u64::MAX)?;
        let timeout = read_number("VELES_REQUEST_TIMEOUT_MS", &vars.request_timeout_ms, 15000, u64::MAX)?;
        let max_bytes = read_number("VELES_MAX_PAGE_BYTES", &vars.max_page_bytes, 2000000, u64::MAX)?;
        let ddg_region = text_or(&vars.ddg_region, "wt-wt");
        let level_text = text_or(&vars.safesearch, "moderate");
        let safe_search = SafeSearch::from_env_value(level_text.as_str())?;
        let user_agent = text_or(&vars.user_agent, "Veles/0.5 local MCP server");
        Ok(Config {
            requests_per_second: rps as u32,
            cache_ttl_secs: ttl,
            request_timeout_ms: timeout,
            max_page_bytes: max_bytes,
            ddg_region,
            safe_search,
            user_agent,
        })
    }
}

/// A `VELES_SAFESEARCH` value is read without regard to ASCII case: two
/// values with the same ASCII lower case give the same level or refusal.
pub proof fn lemma_safe_search_ignores_case(a: Seq<char>, b: Seq<char>)
    requires
        ascii_lowercase(a) == ascii_lowercase(b),
    ensures
        safe_search_of(a) == safe_search_of(b),
{
}

/// Each level is named by exactly one word in any ASCII case, and every
/// other value is refused.
pub proof fn lemma_safe_search_levels(value: Seq<char>)
    ensures
        safe_search_of(value) == Ok::<SafeSearch, Seq<char>>(SafeSearch::Strict) <==> ascii_lowercase(value)
            == "strict"@,
        safe_search_of(value) == Ok::<SafeSearch, Seq<char>>(SafeSearch::Moderate) <==> ascii_lowercase(value)
            == "moderate"@,
        safe_search_of(value) == Ok::<SafeSearch, Seq<char>>(SafeSearch::Off) <==> ascii_lowercase(value)
            == "off"@,
        safe_search_of(value) is Err <==> (ascii_lowercase(value) != "strict"@ && ascii_lowercase(value)
            != "moderate"@ && ascii_lowercase(value) != "off"@),
        safe_search_of(value) is Err ==> safe_search_of(value) == Err::<SafeSearch, Seq<char>>(
            "unsupported VELES_SAFESEARCH value: "@ + ascii_lowercase(value),
        ),
{
    reveal_strlit("strict");
    reveal_strlit("moderate");
    reveal_strlit("off");
    assert("strict"@.len() == 6);
    assert("moderate"@.len() == 8);
    assert("off"@.len() == 3);
}

/// An accepted configuration takes its region, user agent and SafeSearch
/// level from the variables that are set, and the defaults (`wt-wt`,
/// `Veles/0.5 local MCP server`, moderate) only for those that are unset.
pub proof fn lemma_config_texts_from_vars(vars: ConfigVars)
    ensures
        config_of(vars) matches Ok(c) ==> (match vars.user_agent {
            Some(t) => c.user_agent == t@,
            None => c.user_agent == "Veles/0.5 local MCP server"@,
        }),
        config_of(vars) matches Ok(c) ==> (match vars.ddg_region {
            Some(t) => c.ddg_region == t@,
            None => c.ddg_region == "wt-wt"@,
        }),
        config_of(vars) matches Ok(c) ==> (match vars.safesearch {
            Some(t) => safe_search_of(t@) == Ok::<SafeSearch, Seq<char>>(c.safe_search),
            None => c.safe_search == SafeSearch::Moderate,
        }),
{
    reveal_strlit("moderate");
    lemma_safe_search_levels("moderate"@);
    assert(ascii_lowercase("moderate"@) =~= "moderate"@);
}

/// An accepted configuration never has a request rate of 0.
pub proof fn lemma_config_rate_positive(vars: ConfigVars)
    ensures
        config_of(vars) matches Ok(c) ==> 1 <= c.requests_per_second <= u32::MAX,
{
    match opt_view(vars.requests_per_second) {
        Some(t) => lemma_parse_bounded(t, u32::MAX as nat),
        None => {},
    }
}

} // verus!
