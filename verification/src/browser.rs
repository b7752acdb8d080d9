//! The decisions of browser rendering: its configuration, the one-time user
//! consent, and the settings and page of one rendering.

use vstd::prelude::*;
use crate::config::{env_number, read_number};
use crate::error::{ErrorView, VelesError};
use crate::fetch::{FetchedPage, PageView};
use crate::strings::{concat_strs, copy_opt, copy_string, opt_view, str_equal};
use crate::urls::{public_url_check, validate_public_http_url};

verus! {

/// How browser rendering is configured.
pub struct BrowserConfig {
    /// Whether rendering is switched on at all.
    pub enabled: bool,
    /// The WebDriver executable.
    pub driver: String,
    /// The Firefox binary, when not the default one.
    pub firefox_binary: Option<String>,
    /// Whether Firefox runs without a window, unless a call says otherwise.
    pub headless: bool,
    /// Page-load and start-up timeout, in milliseconds.
    pub page_timeout_ms: u64,
    /// Wait after the page has loaded, in milliseconds, unless a call says
    /// otherwise.
    pub settle_ms: u64,
}

/// The raw environment values of the browser configuration; `None` where a
/// variable is unset.
pub struct BrowserVars {
    /// `VELES_BROWSER_ENABLED`
    pub enabled: Option<String>,
    /// `VELES_BROWSER_DRIVER`
    pub driver: Option<String>,
    /// `VELES_FIREFOX_BINARY`
    pub firefox_binary: Option<String>,
    /// `VELES_BROWSER_HEADLESS`
    pub headless: Option<String>,
    /// `VELES_BROWSER_PAGE_TIMEOUT_MS`
    pub page_timeout_ms: Option<String>,
    /// `VELES_BROWSER_SETTLE_MS`
    pub settle_ms: Option<String>,
}

/// The mathematical form of a [`BrowserConfig`].
pub struct BrowserConfigView {
    pub enabled: bool,
    pub driver: Seq<char>,
    pub firefox_binary: Option<Seq<char>>,
    pub headless: bool,
    pub page_timeout_ms: nat,
    pub settle_ms: nat,
}

impl View for BrowserConfig {
    type V = BrowserConfigView;

    open spec fn view(&self) -> BrowserConfigView {
        BrowserConfigView {
            enabled: self.enabled,
            driver: self.driver@,
            firefox_binary: opt_view(self.firefox_binary),
            headless: self.headless,
            page_timeout_ms: self.page_timeout_ms as nat,
            settle_ms: self.settle_ms as nat,
        }
    }
}

/// What an optional boolean variable gives (`bool::from_str`): the default
/// when it is absent, `true` or `false` when it is exactly that word, and
/// otherwise the message `invalid NAME: ...`.
pub open spec fn env_flag(name: Seq<char>, raw: Option<Seq<char>>, default: bool) -> Result<bool, Seq<char>> {
    match raw {
        None => Ok(default),
        Some(t) => if t == "true"@ {
            Ok(true)
        } else if t == "false"@ {
            Ok(false)
        } else {
            Err("invalid "@ + name + ": provided string was not `true` or `false`"@)
        },
    }
}

fn read_flag(name: &str, raw: &Option<String>, default: bool) -> (r: Result<bool, VelesError>)
    ensures
        match r {
            Ok(v) => env_flag(name@, opt_view(*raw), default) == Ok::<bool, Seq<char>>(v),
            Err(e) => exists|m: Seq<char>|
                env_flag(name@, opt_view(*raw), default) == Err::<bool, Seq<char>>(m) && e@ == ErrorView::Config(m),
        },
{
    match raw {
        None => Ok(default),
        Some(t) => if str_equal(t.as_str(), "true") {
            Ok(true)
        } else if str_equal(t.as_str(), "false") {
            Ok(false)
        } else {
            let mut m = concat_strs("invalid ", name);
            m.append(": provided string was not `true` or `false`");
            Err(VelesError::Config(m))
        },
    }
}

/// The browser configuration that the variables describe (rendering off,
/// `geckodriver`, headless, 90 s timeout and 2 s settle by default), or the
/// message of the first variable that is refused.
pub open spec fn browser_config_of(vars: BrowserVars) -> Result<BrowserConfigView, Seq<char>> {
    match env_flag("VELES_BROWSER_ENABLED"@, opt_view(vars.enabled), false) {
        Err(m) => Err(m),
        Ok(enabled) => match env_flag("VELES_BROWSER_HEADLESS"@, opt_view(vars.headless), true) {
            Err(m) => Err(m),
            Ok(headless) => match env_number(
                "VELES_BROWSER_PAGE_TIMEOUT_MS"@,
                opt_view(vars.page_timeout_ms),
                90000,
                u64::MAX as nat,
            ) {
                Err(m) => Err(m),
                Ok(timeout) => match env_number(
                    "VELES_BROWSER_SETTLE_MS"@,
                    opt_view(vars.settle_ms),
                    2000,
                    u64::MAX as nat,
                ) {
                    Err(m) => Err(m),
                    Ok(settle) => Ok(
                        BrowserConfigView {
                            enabled,
                            driver: match vars.driver {
                                Some(t) => t@,
                                None => "geckodriver"@,
                            },
                            firefox_binary: opt_view(vars.firefox_binary),
                            headless,
                            page_timeout_ms: timeout,
                            settle_ms: settle,
                        },
                    ),
                },
            },
        },
    }
}

impl BrowserConfig {
    /// Builds the browser configuration from the raw variables.
    pub fn from_vars(vars: &BrowserVars) -> (r: Result<BrowserConfig, VelesError>)
        ensures
            match r {
                Ok(c) => browser_config_of(*vars) == Ok::<BrowserConfigView, Seq<char>>(c@),
                Err(e) => exists|m: Seq<char>|
                    browser_config_of(*vars) == Err::<BrowserConfigView, Seq<char>>(m) && e@ == ErrorView::Config(m),
            },
    {
        let enabled = read_flag("VELES_BROWSER_ENABLED", &vars.enabled, false)?;
        let headless = read_flag("VELES_BROWSER_HEADLESS", &vars.headless, true)?;
        let page_timeout_ms = read_number("VELES_BROWSER_PAGE_TIMEOUT_MS", &vars.page_timeout_ms, 90000, u64::MAX)?;
        let settle_ms = read_number("VELES_BROWSER_SETTLE_MS", &vars.settle_ms, 2000, u64::MAX)?;
        let driver = match &vars.driver {
            Some(t) => copy_string(t),
            None => String::from_str("geckodriver"),
        };
        Ok(BrowserConfig {
            enabled,
            driver,
            firefox_binary: copy_opt(&vars.firefox_binary),
            headless,
            page_timeout_ms,
            settle_ms,
        })
    }
}

/// What one rendering call asks for.
#[derive(Debug, Clone, Copy)]
pub struct BrowserRenderOptions {
    /// The user's consent to launch the browser.
    pub allow_browser: bool,
    /// Overrides the configured headless mode.
    pub headless: Option<bool>,
    /// Overrides the configured settle time, in milliseconds.
    pub settle_ms: Option<u64>,
}

/// Remembers, for the life of the process, whether the user has consented to
/// browser rendering.
pub struct BrowserGate {
    /// Set by the first call that carries consent; never cleared.
    pub permission_granted: bool,
}

/// What one call does to the consent state, and whether it may go on: with
/// rendering off it is refused; a call with consent records it; without
/// consent, a call goes on only if consent was given before.
pub open spec fn gate_step(granted: bool, enabled: bool, allow_browser: bool) -> (bool, Result<(), ErrorView>) {
    if !enabled {
        (granted, Err(ErrorView::BrowserDisabled))
    } else if allow_browser {
        (true, Ok(()))
    } else if !granted {
        (granted, Err(ErrorView::BrowserPermissionRequired))
    } else {
        (granted, Ok(()))
    }
}

/// The URL, headless mode and settle time of one rendering.
pub struct RenderPlan {
    /// The serialization of the validated URL.
    pub url: String,
    pub headless: bool,
    pub settle_ms: u64,
}

/// A call's own setting, or else the configured one.
pub open spec fn setting_or<T>(own: Option<T>, configured: T) -> T {
    match own {
        Some(v) => v,
        None => configured,
    }
}

impl BrowserGate {
    /// A gate without consent.
    pub fn new() -> (r: BrowserGate)
        ensures
            !r.permission_granted,
    {
        BrowserGate { permission_granted: false }
    }

    /// Applies the consent rules to one call.
    pub fn authorize(&mut self, enabled: bool, allow_browser: bool) -> (r: Result<(), VelesError>)
        ensures
            final(self).permission_granted == gate_step(old(self).permission_granted, enabled, allow_browser).0,
            match gate_step(old(self).permission_granted, enabled, allow_browser).1 {
                Ok(()) => r is Ok,
                Err(e) => r matches Err(x) && x@ == e,
            },
    {
        if !enabled {
            return Err(VelesError::BrowserDisabled);
        }
        if allow_browser {
            self.permission_granted = true;
        } else if !self.permission_granted {
            return Err(VelesError::BrowserPermissionRequired);
        }
        Ok(())
    }

    /// The decisions made before a page is rendered: the consent rules, then
    /// the check of `url` as a public HTTP(S) URL, then the settings, the
    /// call's own ones before the configured ones.
    pub fn begin_render(&mut self, config: &BrowserConfig, url: &str, options: BrowserRenderOptions) -> (r: Result<
        RenderPlan,
        VelesError,
    >)
        ensures
            final(self).permission_granted == gate_step(
                old(self).permission_granted,
                config.enabled,
                options.allow_browser,
            ).0,
            match gate_step(old(self).permission_granted, config.enabled, options.allow_browser).1 {
                Err(e) => r matches Err(x) && x@ == e,
                Ok(()) => match public_url_check(url@) {
                    Err(e) => r matches Err(x) && x@ == e,
                    Ok(u) => r matches Ok(plan) && plan.url@ == u.serialized && plan.headless == setting_or(
                        options.headless,
                        config.headless,
                    ) && plan.settle_ms == setting_or(options.settle_ms, config.settle_ms),
                },
            },
    {
        self.authorize(config.enabled, options.allow_browser)?;
        let parsed = validate_public_http_url(url)?;
        let headless = match options.headless {
            Some(h) => h,
            None => config.headless,
        };
        let settle_ms = match options.settle_ms {
            Some(s) => s,
            None => config.settle_ms,
        };
        Ok(RenderPlan { url: parsed.serialized, headless, settle_ms })
    }
}

/// Once consent is given, it stays: no call withdraws it.
pub proof fn lemma_consent_kept(granted: bool, enabled: bool, allow_browser: bool)
    requires
        granted,
    ensures
        gate_step(granted, enabled, allow_browser).0,
{
}

/// A call with consent on an enabled browser goes on, and every later call
/// goes on too, with or without consent.
pub proof fn lemma_consent_remembered(granted: bool, allow_later: bool)
    ensures
        gate_step(granted, true, true).1 is Ok,
        gate_step(gate_step(granted, true, true).0, true, allow_later).1 is Ok,
{
}

/// Before any consent, a call without it is refused with
/// `BrowserPermissionRequired` and leaves the state as it was.
pub proof fn lemma_first_call_needs_consent()
    ensures
        gate_step(false, true, false) == (false, Err::<(), ErrorView>(ErrorView::BrowserPermissionRequired)),
{
}

/// With rendering off, every call is refused with `BrowserDisabled` and the
/// consent state does not change.
pub proof fn lemma_disabled_refuses(granted: bool, allow_browser: bool)
    ensures
        gate_step(granted, false, allow_browser) == (granted, Err::<(), ErrorView>(ErrorView::BrowserDisabled)),
{
}

/// The command-line arguments of Firefox: always a private window, and
/// `-headless` when asked for.
pub fn firefox_args(headless: bool) -> (r: Vec<String>)
    ensures
        headless ==> r@.len() == 2 && r@[0]@ == "-private-window"@ && r@[1]@ == "-headless"@,
        !headless ==> r@.len() == 1 && r@[0]@ == "-private-window"@,
{
    let mut args: Vec<String> = Vec::new();
    args.push(String::from_str("-private-window"));
    if headless {
        args.push(String::from_str("-headless"));
    }
    args
}

/// The page that a rendering gives: status 200 (WebDriver reports none) and
/// the content type `text/html; rendered=firefox`.
pub fn rendered_page(url: &str, final_url: String, html: String) -> (r: FetchedPage)
    ensures
        r@ == (PageView {
            url: url@,
            final_url: final_url@,
            status: 200,
            content_type: Some("text/html; rendered=firefox"@),
            text: html@,
        }),
{
    FetchedPage {
        url: String::from_str(url),
        final_url,
        status: 200,
        content_type: Some(String::from_str("text/html; rendered=firefox")),
        text: html,
    }
}

/// How long to wait between two probes of the WebDriver server, in
/// milliseconds.
pub fn readiness_poll_interval_ms() -> (r: u64)
    ensures
        r == 100,
{
    100
}

/// Whether to probe the WebDriver server again after `elapsed_ms` of
/// waiting: yes before the timeout, and otherwise the error that ends the
/// wait.
pub fn readiness_step(elapsed_ms: u64, timeout_ms: u64) -> (r: Result<(), VelesError>)
    ensures
        r is Ok <==> elapsed_ms < timeout_ms,
        r matches Err(e) ==> e@ == ErrorView::Browser("geckodriver did not become ready"@),
{
    if elapsed_ms < timeout_ms {
        Ok(())
    } else {
        Err(VelesError::Browser(String::from_str("geckodriver did not become ready")))
    }
}

} // verus!
