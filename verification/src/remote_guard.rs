//! Guard for outgoing cloud-sync requests: which URLs may be fetched (scheme,
//! host allowlist, no private or reserved literal addresses), how large a
//! body may be, and how many requests a host may get per time window.
use crate::models::opt_view;
use crate::text::{clone_strings, lowercase, str_eq, strings_contain, to_lowercase};
use vstd::prelude::*;

verus! {

/// Default largest request body: 16 MiB.
pub open spec fn default_max_body() -> usize {
    16777216
}

/// Guard settings.
#[derive(Debug)]
pub struct GuardConfig {
    /// Largest request body, in bytes.
    pub max_body_bytes: usize,
    /// Most requests per host and window (at least 1).
    pub max_qps_per_host: u64,
    /// Whether private and reserved literal addresses may be fetched.
    pub allow_private_addresses: bool,
    /// Hosts allowed (exact lower-case names); empty allows every host.
    pub host_allowlist: Vec<String>,
}

impl GuardConfig {
    /// Whether two configurations hold the same settings.
    pub open spec fn same(&self, other: GuardConfig) -> bool {
        &&& self.max_body_bytes == other.max_body_bytes
        &&& self.max_qps_per_host == other.max_qps_per_host
        &&& self.allow_private_addresses == other.allow_private_addresses
        &&& self.host_allowlist@ == other.host_allowlist@
    }

    /// The allowlist as character sequences.
    pub open spec fn allowlist_view(&self) -> Seq<Seq<char>> {
        self.host_allowlist@.map_values(|s: String| s@)
    }
}

impl Default for GuardConfig {
    /// 16 MiB bodies, 50 requests per host and window, private addresses
    /// refused, every host allowed.
    fn default() -> (r: Self)
        ensures
            r.max_body_bytes == default_max_body(),
            r.max_qps_per_host == 50,
            !r.allow_private_addresses,
            r.host_allowlist@.len() == 0,
    {
        GuardConfig {
            max_body_bytes: 16 * 1024 * 1024,
            max_qps_per_host: 50,
            allow_private_addresses: false,
            host_allowlist: Vec::new(),
        }
    }
}

impl Clone for GuardConfig {
    fn clone(&self) -> (r: Self)
        ensures
            r.same(*self),
    {
        GuardConfig {
            max_body_bytes: self.max_body_bytes,
            max_qps_per_host: self.max_qps_per_host,
            allow_private_addresses: self.allow_private_addresses,
            host_allowlist: clone_strings(&self.host_allowlist),
        }
    }
}

/// An IP address written literally in a URL.
#[derive(Debug, Clone, Copy, PartialEq, Eq, Structural)]
pub enum IpAddress {
    /// The address as a 32-bit number, first octet highest.
    V4(u32),
    /// The address as a 128-bit number, first segment highest.
    V6(u128),
}

/// The host of a parsed URL.
#[derive(Debug, Clone, Copy, PartialEq, Eq, Structural)]
pub enum UrlHost {
    /// No host.
    NoHost,
    /// A domain name.
    Domain,
    /// A literal IPv4 address, as a number.
    Ipv4(u32),
    /// A literal IPv6 address, as a number.
    Ipv6(u128),
}

/// What the guard reads of a URL that the url crate parsed.
#[derive(Debug)]
pub struct ParsedUrl {
    /// The scheme, lower-case.
    pub scheme: String,
    /// The host as text, where there is one.
    pub host_str: Option<String>,
    /// The kind of host.
    pub host: UrlHost,
    /// The URL as the url crate writes it.
    pub serialization: String,
}

/// A parsed URL as plain values: scheme, host text, host, serialization.
pub type UrlParts = (Seq<char>, Option<Seq<char>>, UrlHost, Seq<char>);

impl ParsedUrl {
    /// The plain values of this URL.
    pub open spec fn parts(&self) -> UrlParts {
        (self.scheme@, opt_view(self.host_str), self.host, self.serialization@)
    }
}

/// What `url::Url::parse` gives for `raw`: the URL's parts, or the text of
/// its parse error.
pub uninterp spec fn url_parse(raw: Seq<char>) -> Result<UrlParts, Seq<char>>;

/// Parses `raw` with `url::Url::parse` and reads its scheme, host and text.
#[verifier::external_body]
pub(crate) fn parse_url(raw: &str) -> (r: Result<ParsedUrl, String>)
    ensures
        match r {
            Ok(u) => url_parse(raw@) == Ok::<UrlParts, Seq<char>>(u.parts()),
            Err(e) => url_parse(raw@) == Err::<UrlParts, Seq<char>>(e@),
        },
{
    let u = url::Url::parse(raw).map_err(|e| e.to_string())?;
    let host = match u.host() {
        None => UrlHost::NoHost,
        Some(url::Host::Domain(_)) => UrlHost::Domain,
        Some(url::Host::Ipv4(ip)) => UrlHost::Ipv4(u32::from(ip)),
        Some(url::Host::Ipv6(ip)) => UrlHost::Ipv6(u128::from(ip)),
    };
    let host_str = u.host_str().map(|h| h.to_string());
    Ok(ParsedUrl { scheme: u.scheme().to_string(), host_str, host, serialization: u.to_string() })
}

/// Why the guard refused a request.
#[derive(Debug, PartialEq, Eq)]
pub enum RemoteGuardError {
    /// The URL does not parse, or has no host.
    InvalidUrl(String),
    /// The scheme is neither `http` nor `https`.
    DisallowedScheme(String),
    /// The host is not on the allowlist.
    HostNotAllowed(String),
    /// The host is a private or reserved literal address.
    PrivateAddress(IpAddress),
    /// The body is over the limit.
    BodyTooLarge { size: usize, limit: usize },
    /// The host has used up its requests for this window.
    RateLimited { host: String },
}

/// First octet of an IPv4 address.
pub open spec fn octet0(ip: u32) -> int {
    ip as int / 0x100_0000
}

/// Second octet of an IPv4 address.
pub open spec fn octet1(ip: u32) -> int {
    (ip as int / 0x1_0000) % 0x100
}

/// Private and reserved IPv4 ranges: 10/8, 172.16/12, 192.168/16, 127/8,
/// 169.254/16, 0/8 and everything from 224/4 up.
pub open spec fn private_v4(ip: u32) -> bool {
    let (o0, o1) = (octet0(ip), octet1(ip));
    o0 == 10 || (o0 == 172 && 16 <= o1 <= 31) || (o0 == 192 && o1 == 168) || o0 == 127 || (o0
        == 169 && o1 == 254) || o0 == 0 || o0 >= 224
}

/// First segment of an IPv6 address.
pub open spec fn segment0(ip: u128) -> u16 {
    (ip / 0x1_0000_0000_0000_0000_0000_0000_0000) as u16
}

/// Private IPv6 addresses: loopback `::1`, unique-local fc00::/7 and
/// link-local fe80::/10.
pub open spec fn private_v6(ip: u128) -> bool {
    ip == 1 || (segment0(ip) & 0xfe00u16) == 0xfc00u16 || (segment0(ip) & 0xffc0u16) == 0xfe80u16
}

/// Whether an IPv4 address is private or reserved.
pub fn is_private_v4(ip: u32) -> (r: bool)
    ensures
        r == private_v4(ip),
{
    let o0 = ip / 0x100_0000;
    let o1 = (ip / 0x1_0000) % 0x100;
    o0 == 10 || (o0 == 172 && 16 <= o1 && o1 <= 31) || (o0 == 192 && o1 == 168) || o0 == 127
        || (o0 == 169 && o1 == 254) || o0 == 0 || o0 >= 224
}

/// Whether an IPv6 address is private (loopback, unique-local, link-local).
pub fn is_private_v6(ip: u128) -> (r: bool)
    ensures
        r == private_v6(ip),
{
    if ip == 1 {
        return true;
    }
    let s0 = (ip / 0x1_0000_0000_0000_0000_0000_0000_0000) as u16;
    (s0 & 0xfe00u16) == 0xfc00u16 || (s0 & 0xffc0u16) == 0xfe80u16
}

/// The message of a URL without a host.
pub open spec fn missing_host() -> Seq<char> {
    "缺少 host"@
}

/// Builds and checks outgoing requests against one configuration.
#[derive(Debug)]
pub struct RemoteGuard {
    config: GuardConfig,
}

impl Clone for RemoteGuard {
    fn clone(&self) -> (r: Self)
        ensures
            r.config_view().same(self.config_view()),
    {
        RemoteGuard { config: self.config.clone() }
    }
}

impl Default for RemoteGuard {
    fn default() -> (r: Self)
        ensures
            r.config_view().max_body_bytes == default_max_body(),
            r.config_view().max_qps_per_host == 50,
            !r.config_view().allow_private_addresses,
            r.config_view().host_allowlist@.len() == 0,
    {
        Self::new(GuardConfig::default())
    }
}

/// How `check_url` ends for URL text `raw` under `config`: which error, or
/// that it passes. The host compared and reported is the host text lower-cased.
pub enum UrlCheck {
    Invalid(Seq<char>),
    Scheme(Seq<char>),
    NotAllowed(Seq<char>),
    Private(IpAddress),
    Pass,
}

/// The outcome of checking `raw` under `config`: parse errors, then the
/// scheme, then a missing or empty host, then the allowlist, then private
/// literal addresses.
pub open spec fn check_url_outcome(config: GuardConfig, raw: Seq<char>) -> UrlCheck {
    match url_parse(raw) {
        Err(e) => UrlCheck::Invalid(e),
        Ok(u) => {
            let (scheme, host_str, host, _) = u;
            if scheme != "http"@ && scheme != "https"@ {
                UrlCheck::Scheme(scheme)
            } else if host_str is None || host_str->0.len() == 0 {
                UrlCheck::Invalid(missing_host())
            } else if config.host_allowlist@.len() != 0 && !config.allowlist_view().contains(
                lowercase(host_str->0),
            ) {
                UrlCheck::NotAllowed(lowercase(host_str->0))
            } else if !config.allow_private_addresses && host is Ipv4 && private_v4(
                host->Ipv4_0,
            ) {
                UrlCheck::Private(IpAddress::V4(host->Ipv4_0))
            } else if !config.allow_private_addresses && host is Ipv6 && private_v6(
                host->Ipv6_0,
            ) {
                UrlCheck::Private(IpAddress::V6(host->Ipv6_0))
            } else {
                UrlCheck::Pass
            }
        },
    }
}

impl RemoteGuard {
    /// The configuration.
    pub closed spec fn config_view(&self) -> GuardConfig {
        self.config
    }

    /// A guard with `config`.
    pub fn new(config: GuardConfig) -> (r: Self)
        ensures
            r.config_view() == config,
    {
        RemoteGuard { config }
    }

    /// A guard with the default configuration.
    pub fn shared() -> (r: Self)
        ensures
            r.config_view().max_body_bytes == default_max_body(),
            r.config_view().max_qps_per_host == 50,
            !r.config_view().allow_private_addresses,
            r.config_view().host_allowlist@.len() == 0,
    {
        Self::default()
    }

    /// Checks whether `raw` may be fetched; see `check_url_outcome`. On
    /// success the parsed URL is returned.
    pub fn check_url(&self, raw: &str) -> (r: Result<ParsedUrl, RemoteGuardError>)
        ensures
            match check_url_outcome(self.config_view(), raw@) {
                UrlCheck::Invalid(m) => r matches Err(RemoteGuardError::InvalidUrl(s)) && s@ == m,
                UrlCheck::Scheme(m) => r matches Err(RemoteGuardError::DisallowedScheme(s)) && s@
                    == m,
                UrlCheck::NotAllowed(m) => r matches Err(RemoteGuardError::HostNotAllowed(s)) && s@
                    == m,
                UrlCheck::Private(ip) => r == Err::<ParsedUrl, RemoteGuardError>(
                    RemoteGuardError::PrivateAddress(ip),
                ),
                UrlCheck::Pass => r matches Ok(u) && url_parse(raw@) == Ok::<
                    UrlParts,
                    Seq<char>,
                >(u.parts()),
            },
    {
        let url = match parse_url(raw) {
            Ok(u) => u,
            Err(e) => return Err(RemoteGuardError::InvalidUrl(e)),
        };
        proof {
            reveal_strlit("http");
            reveal_strlit("https");
        }
        if !str_eq(url.scheme.as_str(), "http") && !str_eq(url.scheme.as_str(), "https") {
            return Err(RemoteGuardError::DisallowedScheme(url.scheme.clone()));
        }
        let host = match &url.host_str {
            Some(h) => {
                if h.as_str().is_empty() {
                    return Err(RemoteGuardError::InvalidUrl(String::from_str("缺少 host")));
                }
                to_lowercase(h.as_str())
            },
            None => return Err(RemoteGuardError::InvalidUrl(String::from_str("缺少 host"))),
        };
        if self.config.host_allowlist.len() != 0 && !strings_contain(
            &self.config.host_allowlist,
            host.as_str(),
        ) {
            return Err(RemoteGuardError::HostNotAllowed(host));
        }
        match url.host {
            UrlHost::Ipv4(ip) => {
                if !self.config.allow_private_addresses && is_private_v4(ip) {
                    return Err(RemoteGuardError::PrivateAddress(IpAddress::V4(ip)));
                }
            },
            UrlHost::Ipv6(ip) => {
                if !self.config.allow_private_addresses && is_private_v6(ip) {
                    return Err(RemoteGuardError::PrivateAddress(IpAddress::V6(ip)));
                }
            },
            _ => {},
        }
        Ok(url)
    }

    /// Checks a body of `size` bytes against the limit.
    pub fn check_body_size(&self, size: usize) -> (r: Result<(), RemoteGuardError>)
        ensures
            size <= self.config_view().max_body_bytes ==> r is Ok,
            size > self.config_view().max_body_bytes ==> r == Err::<(), RemoteGuardError>(
                RemoteGuardError::BodyTooLarge { size, limit: self.config_view().max_body_bytes },
            ),
    {
        if size > self.config.max_body_bytes {
            return Err(
                RemoteGuardError::BodyTooLarge { size, limit: self.config.max_body_bytes },
            );
        }
        Ok(())
    }

    /// The configuration.
    pub fn config(&self) -> (r: &GuardConfig)
        ensures
            *r == self.config_view(),
    {
        &self.config
    }
}

// ---------------------------------------------------------------------------
// Per-host request counting
// ---------------------------------------------------------------------------
/// One host's current window: when it began and how many requests it let
/// through.
#[derive(Debug)]
pub struct RateEntry {
    /// The host, lower-case.
    pub host: String,
    /// Start of the window, in milliseconds on the caller's monotonic clock.
    pub window_start: u64,
    /// Requests let through in the window.
    pub count: u64,
}

/// Whether no host has two entries.
pub open spec fn hosts_distinct(es: Seq<RateEntry>) -> bool {
    forall|i: int, j: int| 0 <= i < j < es.len() ==> es[i].host@ != es[j].host@
}

/// The window of host `h`: its start and count, `None` before its first request.
pub open spec fn entry_of(es: Seq<RateEntry>, h: Seq<char>) -> Option<(u64, u64)> {
    if exists|i: int| 0 <= i < es.len() && es[i].host@ == h {
        let i = choose|i: int| 0 <= i < es.len() && es[i].host@ == h;
        Some((es[i].window_start, es[i].count))
    } else {
        None
    }
}

proof fn lemma_entry_at(es: Seq<RateEntry>, i: int)
    requires
        hosts_distinct(es),
        0 <= i < es.len(),
    ensures
        entry_of(es, es[i].host@) == Some((es[i].window_start, es[i].count)),
{
    let h = es[i].host@;
    assert(exists|k: int| 0 <= k < es.len() && es[k].host@ == h);
    let k = choose|k: int| 0 <= k < es.len() && es[k].host@ == h;
    if k < i {
        assert(es[k].host@ != es[i].host@);
    } else if k > i {
        assert(es[i].host@ != es[k].host@);
    }
}

/// Time since `start`, zero where the clock reads earlier than it.
pub open spec fn elapsed(now: u64, start: u64) -> u64 {
    if now >= start {
        (now - start) as u64
    } else {
        0
    }
}

/// The window a request from a host with entry `e` at `now` falls in:
/// a new one (count zero) where none exists yet or the old one is over.
pub open spec fn current_window(e: Option<(u64, u64)>, now: u64, window: u64) -> (u64, u64) {
    let (start, count) = match e {
        Some(p) => p,
        None => (now, 0u64),
    };
    if elapsed(now, start) >= window {
        (now, 0u64)
    } else {
        (start, count)
    }
}

/// Counts requests per host over fixed windows and refuses those over the
/// configured number.
#[derive(Debug)]
pub struct RateLimiter {
    config: GuardConfig,
    entries: Vec<RateEntry>,
    window: u64,
}

impl RateLimiter {
    /// The configuration.
    pub closed spec fn config_view(&self) -> GuardConfig {
        self.config
    }

    /// Window length in milliseconds.
    pub closed spec fn window_view(&self) -> u64 {
        self.window
    }

    /// The windows of all hosts.
    pub closed spec fn entries_view(&self) -> Seq<RateEntry> {
        self.entries@
    }

    /// One entry per host, and no window has let through more than the
    /// configured number of requests.
    pub open spec fn wf(&self) -> bool {
        &&& hosts_distinct(self.entries_view())
        &&& forall|i: int|
            0 <= i < self.entries_view().len() ==> #[trigger] self.entries_view()[i].count
                <= self.config_view().max_qps_per_host
    }

    /// A limiter with `config` and windows of `window_ms` milliseconds, no
    /// host seen yet.
    pub fn new(config: GuardConfig, window_ms: u64) -> (r: Self)
        ensures
            r.wf(),
            r.config_view() == config,
            r.window_view() == window_ms,
            r.entries_view().len() == 0,
    {
        RateLimiter { config, entries: Vec::new(), window: window_ms }
    }

    fn find(&self, key: &str) -> (r: Option<usize>)
        ensures
            match r {
                Some(i) => i < self.entries_view().len() && self.entries_view()[i as int].host@
                    == key@,
                None => forall|i: int|
                    0 <= i < self.entries_view().len() ==> self.entries_view()[i].host@ != key@,
            },
    {
        let mut i: usize = 0;
        while i < self.entries.len()
            invariant
                i <= self.entries@.len(),
                forall|k: int| 0 <= k < i ==> self.entries@[k].host@ != key@,
            decreases self.entries@.len() - i,
        {
            if str_eq(self.entries[i].host.as_str(), key) {
                return Some(i);
            }
            i = i + 1;
        }
        None
    }

    /// Lets one request to `host` through at `now` (milliseconds on a
    /// monotonic clock) or refuses it: the host, lower-cased, gets a new
    /// window where its last one is over; a window that has let the
    /// configured number through refuses the rest. Other hosts are not
    /// touched.
    pub fn check_at(&mut self, host: &str, now: u64) -> (r: Result<(), RemoteGuardError>)
        requires
            old(self).wf(),
        ensures
            final(self).wf(),
            final(self).config_view() == old(self).config_view(),
            final(self).window_view() == old(self).window_view(),
            ({
                let key = lowercase(host@);
                let (start, count) = current_window(
                    entry_of(old(self).entries_view(), key),
                    now,
                    old(self).window_view(),
                );
                let max = old(self).config_view().max_qps_per_host;
                &&& (r is Err <==> count >= max)
                &&& (r matches Err(e) ==> e matches RemoteGuardError::RateLimited { host: h }
                    && h@ == host@)
                &&& entry_of(final(self).entries_view(), key) == Some(
                    (start, if count >= max { count } else { (count + 1) as u64 }),
                )
            }),
            forall|h: Seq<char>|
                h != lowercase(host@) ==> #[trigger] entry_of(final(self).entries_view(), h)
                    == entry_of(old(self).entries_view(), h),
    {
        let key = to_lowercase(host);
        let ghost old_es = self.entries@;
        let idx = match self.find(key.as_str()) {
            Some(i) => {
                proof {
                    lemma_entry_at(old_es, i as int);
                }
                i
            },
            None => {
                proof {
                    assert(entry_of(old_es, key@) is None);
                }
                self.entries.push(RateEntry { host: key.clone(), window_start: now, count: 0 });
                proof {
                    assert(hosts_distinct(self.entries@));
                    assert forall|h: Seq<char>| h != key@ implies #[trigger] entry_of(
                        self.entries@,
                        h,
                    ) == entry_of(old_es, h) by {
                        if exists|i: int| 0 <= i < self.entries@.len() && self.entries@[i].host@ == h {
                            let i = choose|i: int|
                                0 <= i < self.entries@.len() && self.entries@[i].host@ == h;
                            assert(i < old_es.len());
                            assert(self.entries@[i] == old_es[i]);
                            assert(old_es[i].host@ == h);
                            lemma_entry_at(old_es, i);
                            lemma_entry_at(self.entries@, i);
                        } else {
                            assert forall|i: int| 0 <= i < old_es.len() implies old_es[i].host@
                                != h by {
                                assert(self.entries@[i] == old_es[i]);
                            }
                        }
                    }
                    lemma_entry_at(self.entries@, self.entries@.len() - 1);
                }
                self.entries.len() - 1
            },
        };
        let ghost mid = self.entries@;
        let start = self.entries[idx].window_start;
        let count = self.entries[idx].count;
        let passed = if now >= start {
            now - start
        } else {
            0
        };
        let (start, count) = if passed >= self.window {
            (now, 0u64)
        } else {
            (start, count)
        };
        let max = self.config.max_qps_per_host;
        let refused = count >= max;
        let new_count = if refused {
            count
        } else {
            count + 1
        };
        let entry = RateEntry { host: key.clone(), window_start: start, count: new_count };
        self.entries.set(idx, entry);
        proof {
            assert(hosts_distinct(self.entries@)) by {
                assert forall|i: int, j: int|
                    0 <= i < j < self.entries@.len() implies self.entries@[i].host@
                    != self.entries@[j].host@ by {
                    assert(mid[i].host@ != mid[j].host@);
                }
            }
            lemma_entry_at(self.entries@, idx as int);
            assert forall|h: Seq<char>| h != key@ implies #[trigger] entry_of(self.entries@, h)
                == entry_of(old_es, h) by {
                if exists|i: int| 0 <= i < mid.len() && mid[i].host@ == h {
                    let i = choose|i: int| 0 <= i < mid.len() && mid[i].host@ == h;
                    lemma_entry_at(mid, i);
                    lemma_entry_at(self.entries@, i);
                    assert(entry_of(mid, h) == entry_of(old_es, h));
                } else {
                    assert(entry_of(mid, h) == entry_of(old_es, h));
                    assert forall|i: int| 0 <= i < self.entries@.len() implies self.entries@[i].host@ != h by {
                        if i != idx {
                            assert(self.entries@[i] == mid[i]);
                        }
                    }
                }
            }
        }
        if refused {
            return Err(RemoteGuardError::RateLimited { host: String::from_str(host) });
        }
        Ok(())
    }
}

impl Default for RateLimiter {
    /// The default configuration with one-second windows.
    fn default() -> (r: Self)
        ensures
            r.wf(),
            r.window_view() == 1000,
            r.config_view().max_qps_per_host == 50,
            r.entries_view().len() == 0,
    {
        Self::new(GuardConfig::default(), 1000)
    }
}

} // verus!
