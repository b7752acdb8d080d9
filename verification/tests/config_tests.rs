use veles::browser::{BrowserConfig, BrowserVars};
use veles::config::{parse_unsigned_decimal, Config, ConfigVars, IntErrorKind, SafeSearch};
use veles::error::VelesError;

fn vars() -> ConfigVars {
    ConfigVars {
        requests_per_second: None,
        cache_ttl_seconds: None,
        request_timeout_ms: None,
        max_page_bytes: None,
        ddg_region: None,
        safesearch: None,
        user_agent: None,
    }
}

fn config_error(v: &ConfigVars) -> String {
    match Config::from_vars(v) {
        Err(VelesError::Config(m)) => m,
        _ => panic!("expected a configuration error"),
    }
}

#[test]
fn defaults_apply() {
    let c = Config::from_vars(&vars()).expect("defaults");
    assert_eq!(c.requests_per_second, 1);
    assert_eq!(c.cache_ttl_secs, 3600);
    assert_eq!(c.request_timeout_ms, 15000);
    assert_eq!(c.max_page_bytes, 2_000_000);
    assert_eq!(c.ddg_region, "wt-wt");
    assert_eq!(c.safe_search, SafeSearch::Moderate);
    assert_eq!(c.user_agent, "Veles/0.5 local MCP server");
}

#[test]
fn values_are_read() {
    let mut v = vars();
    v.requests_per_second = Some("+4".to_string());
    v.max_page_bytes = Some("1024".to_string());
    v.safesearch = Some("OfF".to_string());
    v.ddg_region = Some("de-de".to_string());
    let c = Config::from_vars(&v).expect("valid");
    assert_eq!(c.requests_per_second, 4);
    assert_eq!(c.max_page_bytes, 1024);
    assert_eq!(c.safe_search, SafeSearch::Off);
    assert_eq!(c.ddg_region, "de-de");
}

#[test]
fn zero_rate_is_refused() {
    let mut v = vars();
    v.requests_per_second = Some("0".to_string());
    assert_eq!(config_error(&v), "VELES_REQUESTS_PER_SECOND must be greater than 0");
}

#[test]
fn bad_numbers_are_refused() {
    let mut v = vars();
    v.requests_per_second = Some("abc".to_string());
    assert_eq!(config_error(&v), "invalid VELES_REQUESTS_PER_SECOND: invalid digit found in string");
    v.requests_per_second = Some("4294967296".to_string());
    assert_eq!(config_error(&v), "invalid VELES_REQUESTS_PER_SECOND: number too large to fit in target type");
    v.requests_per_second = None;
    v.cache_ttl_seconds = Some(String::new());
    assert_eq!(config_error(&v), "invalid VELES_CACHE_TTL_SECONDS: cannot parse integer from empty string");
    v.cache_ttl_seconds = None;
    v.safesearch = Some("Loose".to_string());
    assert_eq!(config_error(&v), "unsupported VELES_SAFESEARCH value: loose");
}

#[test]
fn parses_like_std() {
    for s in ["", "+", "-", "-5", "+12", "0042", "18446744073709551615", "18446744073709551616", "12a", "99999999999999999999x", " 1"] {
        let ours = parse_unsigned_decimal(s, u64::MAX);
        let std: Result<u64, _> = s.parse::<u64>();
        match (ours, std) {
            (Ok(a), Ok(b)) => assert_eq!(a, b),
            (Err(k), Err(e)) => {
                let expected = match e.kind() {
                    std::num::IntErrorKind::Empty => IntErrorKind::Empty,
                    std::num::IntErrorKind::InvalidDigit => IntErrorKind::InvalidDigit,
                    _ => IntErrorKind::PosOverflow,
                };
                assert_eq!(k, expected, "input {:?}", s);
            }
            (a, b) => panic!("mismatch on {:?}: {:?} vs {:?}", s, a, b),
        }
    }
}

#[test]
fn safe_search_levels() {
    assert_eq!(SafeSearch::from_env_value("STRICT").ok(), Some(SafeSearch::Strict));
    assert_eq!(SafeSearch::Strict.ddg_kp(), "1");
    assert_eq!(SafeSearch::Moderate.ddg_kp(), "-1");
    assert_eq!(SafeSearch::Off.ddg_kp(), "-2");
    assert!(SafeSearch::from_env_value("none").is_err());
}

#[test]
fn browser_config_defaults_and_flags() {
    let mut v = BrowserVars {
        enabled: None,
        driver: None,
        firefox_binary: None,
        headless: None,
        page_timeout_ms: None,
        settle_ms: None,
    };
    let c = BrowserConfig::from_vars(&v).expect("defaults");
    assert!(!c.enabled);
    assert!(c.headless);
    assert_eq!(c.driver, "geckodriver");
    assert_eq!(c.page_timeout_ms, 90000);
    assert_eq!(c.settle_ms, 2000);
    v.enabled = Some("true".to_string());
    v.headless = Some("false".to_string());
    let c = BrowserConfig::from_vars(&v).expect("flags");
    assert!(c.enabled && !c.headless);
    v.enabled = Some("yes".to_string());
    match BrowserConfig::from_vars(&v) {
        Err(VelesError::Config(m)) => {
            assert_eq!(m, "invalid VELES_BROWSER_ENABLED: provided string was not `true` or `false`")
        }
        _ => panic!("expected an error"),
    }
}
