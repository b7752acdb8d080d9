//! URL parsing (through the `url` crate) and the public-address policy.

use vstd::prelude::*;
use crate::error::{ErrorView, VelesError};
use crate::strings::{
    ascii_lowercase, chars_equal_str, chars_of, concat_strs, decimal, decimal_chars, ends_with_str,
    extend_chars, str_equal, has_suffix, join_with, lowercase_chars, string_of,
};

verus! {

/// The host of a parsed URL.
pub enum UrlHost {
    /// A domain name.
    Domain(String),
    /// An IPv4 address, as its four octets.
    Ipv4([u8; 4]),
    /// An IPv6 address, as its eight 16-bit segments.
    Ipv6([u16; 8]),
}

/// The parts of a parsed URL that the library reads.
pub struct UrlParts {
    /// The URL's serialization (`Url::as_str`).
    pub serialized: String,
    /// The scheme, in lower case (`Url::scheme`).
    pub scheme: String,
    /// The host, when there is one (`Url::host`).
    pub host: Option<UrlHost>,
    /// The path (`Url::path`).
    pub path: String,
    /// The decoded `name=value` pairs of the query (`Url::query_pairs`).
    pub query_pairs: Vec<(String, String)>,
}

/// The mathematical form of a [`UrlHost`].
pub enum HostView {
    Domain(Seq<char>),
    Ipv4(Seq<u8>),
    Ipv6(Seq<u16>),
}

/// The mathematical form of a [`UrlParts`].
pub struct UrlView {
    pub serialized: Seq<char>,
    pub scheme: Seq<char>,
    pub host: Option<HostView>,
    pub path: Seq<char>,
    pub query_pairs: Seq<(Seq<char>, Seq<char>)>,
}

impl View for UrlHost {
    type V = HostView;

    open spec fn view(&self) -> HostView {
        match self {
            UrlHost::Domain(d) => HostView::Domain(d@),
            UrlHost::Ipv4(a) => HostView::Ipv4(a@),
            UrlHost::Ipv6(s) => HostView::Ipv6(s@),
        }
    }
}

/// The characters of each name and value of a list of pairs.
pub open spec fn pairs_view(pairs: Seq<(String, String)>) -> Seq<(Seq<char>, Seq<char>)> {
    pairs.map_values(|p: (String, String)| (p.0@, p.1@))
}

impl View for UrlParts {
    type V = UrlView;

    open spec fn view(&self) -> UrlView {
        UrlView {
            serialized: self.serialized@,
            scheme: self.scheme@,
            host: match self.host {
                Some(h) => Some(h@),
                None => None,
            },
            path: self.path@,
            query_pairs: pairs_view(self.query_pairs@),
        }
    }
}

/// What `url::Url::parse` makes of `input`: the URL's parts, or the
/// description of the parse error.
pub uninterp spec fn url_parse(input: Seq<char>) -> Result<UrlView, Seq<char>>;

/// Parses `input` with `url::Url::parse` and reads the URL's parts; on failure
/// the result is the parse error's `Display` text. The contract claims only
/// that the result is the one `url_parse` names for `input`: the WHATWG URL
/// algorithm of the `url` crate is not restated here.
#[verifier::external_body]
pub(crate) fn parse_url(input: &str) -> (r: Result<UrlParts, String>)
    ensures
        match r {
            Ok(u) => url_parse(input@) == Ok::<UrlView, Seq<char>>(u@),
            Err(m) => url_parse(input@) == Err::<UrlView, Seq<char>>(m@),
        },
{
    match url::Url::parse(input) {
        Ok(u) => Ok(UrlParts {
            serialized: u.as_str().to_owned(),
            scheme: u.scheme().to_owned(),
            host: u.host().map(|h| match h {
                url::Host::Domain(d) => UrlHost::Domain(d.to_owned()),
                url::Host::Ipv4(a) => UrlHost::Ipv4(a.octets()),
                url::Host::Ipv6(a) => UrlHost::Ipv6(a.segments()),
            }),
            path: u.path().to_owned(),
            query_pairs: u.query_pairs().map(|(k, v)| (k.into_owned(), v.into_owned())).collect(),
        }),
        Err(e) => Err(e.to_string()),
    }
}

/// An IP address: four octets, or eight 16-bit segments.
#[derive(Debug, Clone, Copy)]
pub enum IpAddress {
    V4([u8; 4]),
    V6([u16; 8]),
}

/// `Ipv4Addr::is_private`: 10.0.0.0/8, 172.16.0.0/12 and 192.168.0.0/16.
pub open spec fn ipv4_is_private(a: Seq<u8>) -> bool {
    ||| a[0] == 10
    ||| a[0] == 172 && 16 <= a[1] <= 31
    ||| a[0] == 192 && a[1] == 168
}

/// `Ipv4Addr::is_loopback`: 127.0.0.0/8.
pub open spec fn ipv4_is_loopback(a: Seq<u8>) -> bool {
    a[0] == 127
}

/// `Ipv4Addr::is_link_local`: 169.254.0.0/16.
pub open spec fn ipv4_is_link_local(a: Seq<u8>) -> bool {
    a[0] == 169 && a[1] == 254
}

/// `Ipv4Addr::is_broadcast`: 255.255.255.255.
pub open spec fn ipv4_is_broadcast(a: Seq<u8>) -> bool {
    a[0] == 255 && a[1] == 255 && a[2] == 255 && a[3] == 255
}

/// `Ipv4Addr::is_documentation`: 192.0.2.0/24, 198.51.100.0/24 and 203.0.113.0/24.
pub open spec fn ipv4_is_documentation(a: Seq<u8>) -> bool {
    ||| a[0] == 192 && a[1] == 0 && a[2] == 2
    ||| a[0] == 198 && a[1] == 51 && a[2] == 100
    ||| a[0] == 203 && a[1] == 0 && a[2] == 113
}

/// `Ipv4Addr::is_unspecified`: 0.0.0.0.
pub open spec fn ipv4_is_unspecified(a: Seq<u8>) -> bool {
    a[0] == 0 && a[1] == 0 && a[2] == 0 && a[3] == 0
}

/// The IPv4 addresses that are refused as private or local.
pub open spec fn ipv4_blocked(a: Seq<u8>) -> bool {
    ||| ipv4_is_private(a)
    ||| ipv4_is_loopback(a)
    ||| ipv4_is_link_local(a)
    ||| ipv4_is_broadcast(a)
    ||| ipv4_is_documentation(a)
    ||| ipv4_is_unspecified(a)
}

/// `Ipv6Addr::is_loopback`: `::1`.
pub open spec fn ipv6_is_loopback(s: Seq<u16>) -> bool {
    s[0] == 0 && s[1] == 0 && s[2] == 0 && s[3] == 0 && s[4] == 0 && s[5] == 0 && s[6] == 0 && s[7] == 1
}

/// `Ipv6Addr::is_unspecified`: `::`.
pub open spec fn ipv6_is_unspecified(s: Seq<u16>) -> bool {
    s[0] == 0 && s[1] == 0 && s[2] == 0 && s[3] == 0 && s[4] == 0 && s[5] == 0 && s[6] == 0 && s[7] == 0
}

/// `Ipv6Addr::is_unique_local`: `fc00::/7`.
pub open spec fn ipv6_is_unique_local(s: Seq<u16>) -> bool {
    0xfc00 <= s[0] <= 0xfdff
}

/// `Ipv6Addr::is_unicast_link_local`: `fe80::/10`.
pub open spec fn ipv6_is_unicast_link_local(s: Seq<u16>) -> bool {
    0xfe80 <= s[0] <= 0xfebf
}

/// Whether the address is IPv4-mapped (`::ffff:a.b.c.d`).
pub open spec fn ipv6_is_mapped(s: Seq<u16>) -> bool {
    s[0] == 0 && s[1] == 0 && s[2] == 0 && s[3] == 0 && s[4] == 0 && s[5] == 0xffff
}

/// The IPv4 address that an IPv4-mapped address carries in its last two
/// segments.
pub open spec fn mapped_octets(s: Seq<u16>) -> Seq<u8> {
    seq![(s[6] / 256) as u8, (s[6] % 256) as u8, (s[7] / 256) as u8, (s[7] % 256) as u8]
}

/// The IPv6 addresses that are refused as private or local: loopback,
/// unspecified, unique local, unicast link-local, and IPv4-mapped addresses
/// of a refused IPv4 address.
pub open spec fn ipv6_blocked(s: Seq<u16>) -> bool {
    ||| ipv6_is_loopback(s)
    ||| ipv6_is_unspecified(s)
    ||| ipv6_is_unique_local(s)
    ||| ipv6_is_unicast_link_local(s)
    ||| ipv6_is_mapped(s) && ipv4_blocked(mapped_octets(s))
}

/// Whether an IPv4 address is private, loopback, link-local, broadcast,
/// documentation or unspecified.
pub fn ipv4_is_blocked(a: [u8; 4]) -> (r: bool)
    ensures
        r == ipv4_blocked(a@),
{
    let (a0, a1, a2, a3) = (a[0], a[1], a[2], a[3]);
    a0 == 10 || (a0 == 172 && 16 <= a1 && a1 <= 31) || (a0 == 192 && a1 == 168) || a0 == 127 || (a0
        == 169 && a1 == 254) || (a0 == 255 && a1 == 255 && a2 == 255 && a3 == 255) || (a0 == 192 && a1
        == 0 && a2 == 2) || (a0 == 198 && a1 == 51 && a2 == 100) || (a0 == 203 && a1 == 0 && a2 == 113)
        || (a0 == 0 && a1 == 0 && a2 == 0 && a3 == 0)
}

/// The IPv4 address carried in the last two segments of an IPv6 address.
fn embedded_octets(s: [u16; 8]) -> (r: [u8; 4])
    ensures
        r@ == mapped_octets(s@),
{
    let r: [u8; 4] = [(s[6] / 256) as u8, (s[6] % 256) as u8, (s[7] / 256) as u8, (s[7] % 256) as u8];
    assert(r@ =~= mapped_octets(s@));
    r
}

/// Whether an IPv6 address is loopback, unspecified, unique local, unicast
/// link-local, or the IPv4-mapped form of a refused IPv4 address.
pub fn ipv6_is_blocked(s: [u16; 8]) -> (r: bool)
    ensures
        r == ipv6_blocked(s@),
{
    let head_zero = s[0] == 0 && s[1] == 0 && s[2] == 0 && s[3] == 0 && s[4] == 0 && s[5] == 0 && s[6]
        == 0;
    let mapped = s[0] == 0 && s[1] == 0 && s[2] == 0 && s[3] == 0 && s[4] == 0 && s[5] == 0xffff;
    (head_zero && (s[7] == 1 || s[7] == 0)) || (0xfc00 <= s[0] && s[0] <= 0xfdff) || (0xfe80 <= s[0]
        && s[0] <= 0xfebf) || (mapped && ipv4_is_blocked(embedded_octets(s)))
}

/// Dotted-decimal text of an IPv4 address (`Ipv4Addr`'s `Display`).
pub open spec fn ipv4_text(a: Seq<u8>) -> Seq<char> {
    decimal(a[0] as nat) + "."@ + decimal(a[1] as nat) + "."@ + decimal(a[2] as nat) + "."@ + decimal(
        a[3] as nat,
    )
}

/// The lower-case hexadecimal digit for `d < 16`.
pub open spec fn hex_digit(d: nat) -> char {
    if d < 10 {
        (48 + d) as char
    } else {
        (87 + d) as char
    }
}

/// Lower-case hexadecimal text of `n`, without leading zeros.
pub open spec fn hex(n: nat) -> Seq<char>
    decreases n,
{
    if n < 16 {
        seq![hex_digit(n)]
    } else {
        hex(n / 16).push(hex_digit(n % 16))
    }
}

/// Each segment in hexadecimal.
pub open spec fn hex_segments(s: Seq<u16>) -> Seq<Seq<char>> {
    s.map_values(|x: u16| hex(x as nat))
}

/// Segments in hexadecimal, separated by `:`.
pub open spec fn hex_join(s: Seq<u16>) -> Seq<char> {
    join_with(hex_segments(s), ":"@)
}

/// After the first `n` segments: the start and length of the first longest
/// run of zero segments, then the start and length of the run that ends at
/// segment `n` (length 0 when segment `n - 1` is not zero).
pub open spec fn zero_runs(s: Seq<u16>, n: nat) -> (int, int, int, int)
    decreases n,
{
    if n == 0 {
        (0, 0, 0, 0)
    } else {
        let (bs, bl, cs, cl) = zero_runs(s, (n - 1) as nat);
        if s[n - 1] == 0 {
            let cs2 = if cl == 0 { n - 1 } else { cs };
            if cl + 1 > bl {
                (cs2, cl + 1, cs2, cl + 1)
            } else {
                (bs, bl, cs2, cl + 1)
            }
        } else {
            (bs, bl, 0, 0)
        }
    }
}

/// The text of an IPv6 address in the canonical style of RFC 5952, as
/// `Ipv6Addr`'s `Display` writes it: IPv4-mapped addresses end in dotted
/// decimal; otherwise the first longest run of two or more zero segments is
/// written `::` and the other segments in lower-case hexadecimal.
pub open spec fn ipv6_text(s: Seq<u16>) -> Seq<char> {
    if ipv6_is_mapped(s) {
        "::ffff:"@ + ipv4_text(mapped_octets(s))
    } else {
        let (bs, bl, cs, cl) = zero_runs(s, 8);
        if bl > 1 {
            hex_join(s.take(bs)) + "::"@ + hex_join(s.skip(bs + bl))
        } else {
            hex_join(s)
        }
    }
}

/// The text of an IP address, as its `Display` writes it.
pub open spec fn ip_text(addr: IpAddress) -> Seq<char> {
    match addr {
        IpAddress::V4(a) => ipv4_text(a@),
        IpAddress::V6(s) => ipv6_text(s@),
    }
}

/// Whether an IP address is refused as private or local.
pub open spec fn ip_blocked(addr: IpAddress) -> bool {
    match addr {
        IpAddress::V4(a) => ipv4_blocked(a@),
        IpAddress::V6(s) => ipv6_blocked(s@),
    }
}

fn ipv4_chars(a: [u8; 4]) -> (v: Vec<char>)
    ensures
        v@ == ipv4_text(a@),
{
    let mut v = decimal_chars(a[0] as u64);
    v.push('.');
    let d1 = decimal_chars(a[1] as u64);
    extend_chars(&mut v, &d1);
    v.push('.');
    let d2 = decimal_chars(a[2] as u64);
    extend_chars(&mut v, &d2);
    v.push('.');
    let d3 = decimal_chars(a[3] as u64);
    extend_chars(&mut v, &d3);
    proof {
        reveal_strlit(".");
    }
    v
}

fn hex_digit_char(d: u64) -> (c: char)
    requires
        d < 16,
    ensures
        c == hex_digit(d as nat),
{
    if d < 10 {
        let b: u8 = (48 + d) as u8;
        b as char
    } else {
        let b: u8 = (87 + d) as u8;
        b as char
    }
}

fn hex_chars(n: u64) -> (v: Vec<char>)
    ensures
        v@ == hex(n as nat),
    decreases n,
{
    if n < 16 {
        let mut v: Vec<char> = Vec::new();
        v.push(hex_digit_char(n));
        assert(v@ =~= seq![hex_digit(n as nat)]);
        v
    } else {
        let mut v = hex_chars(n / 16);
        v.push(hex_digit_char(n % 16));
        v
    }
}

/// The segments `from..to` of `s` in hexadecimal, separated by `:`.
fn hex_join_chars(s: [u16; 8], from: usize, to: usize) -> (v: Vec<char>)
    requires
        from <= to <= 8,
    ensures
        v@ == hex_join(s@.subrange(from as int, to as int)),
{
    let mut v: Vec<char> = Vec::new();
    let mut i = from;
    assert(hex_segments(s@.subrange(from as int, from as int)) =~= Seq::<Seq<char>>::empty());
    while i < to
        invariant
            from <= i <= to <= 8,
            v@ == join_with(hex_segments(s@.subrange(from as int, i as int)), ":"@),
        decreases to - i,
    {
        let seg = s[i];
        assert(seg == s@[i as int]);
        let h = hex_chars(seg as u64);
        assert(h@ == hex(s@[i as int] as nat));
        let ghost prev = hex_segments(s@.subrange(from as int, i as int));
        let ghost next = hex_segments(s@.subrange(from as int, i + 1));
        assert(s@.subrange(from as int, i + 1) =~= s@.subrange(from as int, i as int).push(s@[i as int]));
        assert(next.len() == prev.len() + 1);
        assert(forall|k: int| 0 <= k < prev.len() ==> next[k] == prev[k]);
        assert(next =~= prev.push(h@));
        assert(next.drop_last() =~= prev);
        if i > from {
            v.push(':');
            proof {
                reveal_strlit(":");
                assert(":"@ =~= seq![':']);
            }
        }
        extend_chars(&mut v, &h);
        proof {
            if i == from {
                assert(prev.len() == 0);
                assert(v@ =~= next[0]);
            }
        }
        i = i + 1;
    }
    v
}

/// Dotted-decimal or RFC 5952 text of an IP address.
pub fn ip_display(addr: IpAddress) -> (r: String)
    ensures
        r@ == ip_text(addr),
{
    match addr {
        IpAddress::V4(a) => {
            let v = ipv4_chars(a);
            string_of(&v)
        },
        IpAddress::V6(s) => {
            if s[0] == 0 && s[1] == 0 && s[2] == 0 && s[3] == 0 && s[4] == 0 && s[5] == 0xffff {
                let oct = embedded_octets(s);
                let mut v = chars_of("::ffff:");
                let t = ipv4_chars(oct);
                extend_chars(&mut v, &t);
                string_of(&v)
            } else {
                let mut bs: usize = 0;
                let mut bl: usize = 0;
                let mut cs: usize = 0;
                let mut cl: usize = 0;
                let mut i: usize = 0;
                while i < 8
                    invariant
                        i <= 8,
                        zero_runs(s@, i as nat) == (bs as int, bl as int, cs as int, cl as int),
                        bs + bl <= i,
                        cs + cl == i || cl == 0,
                        bl <= i,
                    decreases 8 - i,
                {
                    if s[i] == 0 {
                        if cl == 0 {
                            cs = i;
                        }
                        cl = cl + 1;
                        if cl > bl {
                            bs = cs;
                            bl = cl;
                        }
                    } else {
                        cs = 0;
                        cl = 0;
                    }
                    i = i + 1;
                }
                if bl > 1 {
                    let mut v = hex_join_chars(s, 0, bs);
                    v.push(':');
                    v.push(':');
                    let t = hex_join_chars(s, bs + bl, 8);
                    extend_chars(&mut v, &t);
                    proof {
                        reveal_strlit("::");
                        assert(s@.subrange(0, bs as int) =~= s@.take(bs as int));
                        assert(s@.subrange(bs + bl, 8) =~= s@.skip(bs + bl));
                    }
                    string_of(&v)
                } else {
                    let v = hex_join_chars(s, 0, 8);
                    assert(s@.subrange(0, 8) =~= s@);
                    string_of(&v)
                }
            }
        },
    }
}

/// The private or local addresses are refused with `BlockedUrl`; any other
/// address is accepted.
pub fn block_private_ip(addr: IpAddress) -> (r: Result<(), VelesError>)
    ensures
        r is Ok <==> !ip_blocked(addr),
        r matches Err(e) ==> e@ == ErrorView::BlockedUrl(
            "private or local IP address is blocked: "@ + ip_text(addr),
        ),
{
    let blocked = match addr {
        IpAddress::V4(a) => ipv4_is_blocked(a),
        IpAddress::V6(s) => ipv6_is_blocked(s),
    };
    if blocked {
        let text = ip_display(addr);
        return Err(VelesError::BlockedUrl(concat_strs("private or local IP address is blocked: ", text.as_str())));
    }
    Ok(())
}

/// What checking `input` as a public HTTP(S) URL gives: the parsed URL, or the
/// error that refuses it. Unparsable input and a missing host are invalid;
/// other schemes than `http` and `https`, `localhost` and its subdomains (in
/// any ASCII case), and private or local IP addresses are blocked.
pub open spec fn public_url_check(input: Seq<char>) -> Result<UrlView, ErrorView> {
    public_policy(url_parse(input))
}

/// The characters of a parse outcome.
pub open spec fn parsed_view(parsed: Result<UrlParts, String>) -> Result<UrlView, Seq<char>> {
    match parsed {
        Ok(u) => Ok(u@),
        Err(m) => Err(m@),
    }
}

/// What the public-URL policy makes of a parse outcome (see
/// `public_url_check`).
pub open spec fn public_policy(parsed: Result<UrlView, Seq<char>>) -> Result<UrlView, ErrorView> {
    match parsed {
        Err(m) => Err(ErrorView::InvalidUrl(m)),
        Ok(u) => if u.scheme != "http"@ && u.scheme != "https"@ {
            Err(ErrorView::BlockedUrl("unsupported URL scheme: "@ + u.scheme))
        } else {
            match u.host {
                None => Err(ErrorView::InvalidUrl("URL must include a host"@)),
                Some(HostView::Domain(d)) => {
                    let lower = ascii_lowercase(d);
                    if lower == "localhost"@ || has_suffix(lower, ".localhost"@) {
                        Err(ErrorView::BlockedUrl("localhost domains are blocked by default"@))
                    } else {
                        Ok(u)
                    }
                },
                Some(HostView::Ipv4(a)) => if ipv4_blocked(a) {
                    Err(ErrorView::BlockedUrl("private or local IP address is blocked: "@ + ipv4_text(a)))
                } else {
                    Ok(u)
                },
                Some(HostView::Ipv6(seg)) => if ipv6_blocked(seg) {
                    Err(ErrorView::BlockedUrl("private or local IP address is blocked: "@ + ipv6_text(seg)))
                } else {
                    Ok(u)
                },
            }
        },
    }
}

/// Parses `value` and accepts it only as a public `http` or `https` URL.
pub fn validate_public_http_url(value: &str) -> (r: Result<UrlParts, VelesError>)
    ensures
        match r {
            Ok(u) => public_url_check(value@) == Ok::<UrlView, ErrorView>(u@),
            Err(e) => public_url_check(value@) == Err::<UrlView, ErrorView>(e@),
        },
{
    check_public_url(parse_url(value))
}

/// Applies the public-URL policy to the outcome of parsing a URL.
pub fn check_public_url(parsed: Result<UrlParts, String>) -> (r: Result<UrlParts, VelesError>)
    ensures
        match r {
            Ok(u) => public_policy(parsed_view(parsed)) == Ok::<UrlView, ErrorView>(u@),
            Err(e) => public_policy(parsed_view(parsed)) == Err::<UrlView, ErrorView>(e@),
        },
{
    let url = match parsed {
        Ok(u) => u,
        Err(m) => return Err(VelesError::InvalidUrl(m)),
    };
    if !str_equal(url.scheme.as_str(), "http") && !str_equal(url.scheme.as_str(), "https") {
        return Err(VelesError::BlockedUrl(concat_strs("unsupported URL scheme: ", url.scheme.as_str())));
    }
    let checked = match &url.host {
        None => Err(VelesError::InvalidUrl(String::from_str("URL must include a host"))),
        Some(UrlHost::Domain(d)) => {
            let lower = lowercase_chars(d.as_str());
            if chars_equal_str(&lower, "localhost") || ends_with_str(&lower, ".localhost") {
                Err(VelesError::BlockedUrl(String::from_str("localhost domains are blocked by default")))
            } else {
                Ok(())
            }
        },
        Some(UrlHost::Ipv4(a)) => block_private_ip(IpAddress::V4(*a)),
        Some(UrlHost::Ipv6(seg)) => block_private_ip(IpAddress::V6(*seg)),
    };
    match checked {
        Ok(()) => Ok(url),
        Err(e) => Err(e),
    }
}

/// Only public `http` and `https` URLs pass: an accepted URL has one of
/// these schemes and a host that is neither `localhost` (nor a subdomain of
/// it) nor a private or local IP address.
pub proof fn lemma_accepted_url_is_public(input: Seq<char>)
    ensures
        public_url_check(input) matches Ok(u) ==> {
            &&& u.scheme == "http"@ || u.scheme == "https"@
            &&& u.host is Some
            &&& u.host matches Some(HostView::Domain(d)) ==> ascii_lowercase(d) != "localhost"@ && !has_suffix(
                ascii_lowercase(d),
                ".localhost"@,
            )
            &&& u.host matches Some(HostView::Ipv4(a)) ==> !ipv4_blocked(a)
            &&& u.host matches Some(HostView::Ipv6(seg)) ==> !ipv6_blocked(seg)
        },
{
}

} // verus!
