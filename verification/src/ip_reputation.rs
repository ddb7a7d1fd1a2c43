//! IP reputation: black- and whitelisting, country policy bookkeeping,
//! VPN/proxy indicator detection, and address-format validation.

use vstd::prelude::*;

use crate::context::SecurityContext;
use crate::errors::{SecurityError, SecurityResult};
use crate::numfmt::is_ipv4_group;
use crate::outside::{str_eq, to_chars};
use crate::request::{header_lookup, ApiRequest};
use crate::text::{char_idx, split_char, split_seq, upper_chars};
use crate::validation::context_scored;

verus! {

/// Membership of a string in a list, by view.
pub open spec fn list_has(l: Seq<String>, s: Seq<char>) -> bool {
    exists|i: int| 0 <= i < l.len() && l[i]@ == s
}

/// A dotted IPv4 address: exactly four groups of one to three digits,
/// each at most 255.
pub open spec fn ipv4_ok(s: Seq<char>) -> bool {
    let parts = split_seq(s, '.');
    parts.len() == 4 && forall|i: int| 0 <= i < 4 ==> is_ipv4_group(#[trigger] parts[i])
}

/// A plausible IPv6 address: it holds a colon and only hexadecimal
/// digits, colons and dots.
pub open spec fn ipv6_ok(s: Seq<char>) -> bool {
    char_idx(s, ':', 0) >= 0 && forall|i: int|
        0 <= i < s.len() ==> crate::request::is_hex_char(#[trigger] s[i]) || s[i] == ':'
            || s[i] == '.'
}

/// The number of commas in a character sequence.
pub open spec fn comma_count(s: Seq<char>) -> int
    decreases s.len(),
{
    if s.len() == 0 {
        0
    } else {
        (if s[0] == ',' {
            1int
        } else {
            0int
        }) + comma_count(s.drop_first())
    }
}

/// A VPN or proxy chain is suspected when the request carries more than
/// one `X-Forwarded-For` header, or one whose value lists more than two
/// addresses (more than one comma).
pub open spec fn vpn_suspected(req: ApiRequest) -> bool {
    ||| xff_count(req.headers@) > 1
    ||| match header_lookup(req.headers@, "x-forwarded-for"@) {
        Some(v) => comma_count(v) > 1,
        None => false,
    }
}

/// How many headers are named `x-forwarded-for` (case-insensitively).
pub open spec fn xff_count(hs: Seq<(String, String)>) -> int
    decreases hs.len(),
{
    if hs.len() == 0 {
        0
    } else {
        (if crate::text::lower_seq(hs[0].0@) == "x-forwarded-for"@ {
            1int
        } else {
            0int
        }) + xff_count(hs.drop_first())
    }
}

/// A proxy is suspected when any of the proxy-specific headers is
/// present.
pub open spec fn proxy_suspected(req: ApiRequest) -> bool {
    ||| header_lookup(req.headers@, "via"@) is Some
    ||| header_lookup(req.headers@, "x-proxy-authorization"@) is Some
    ||| header_lookup(req.headers@, "proxy-authorization"@) is Some
    ||| header_lookup(req.headers@, "x-anonymizer-version"@) is Some
}

/// IP reputation, geo-blocking, and VPN/proxy detection.
pub struct IpReputation {
    pub enabled: bool,
    pub blacklisted_ips: Vec<String>,
    pub whitelisted_ips: Vec<String>,
    pub allow_vpn: bool,
    pub allow_proxy: bool,
    pub allowed_countries: Vec<String>,
    pub blocked_countries: Vec<String>,
}

impl IpReputation {
    /// Empty lists; VPNs and proxies disallowed.
    pub fn new() -> (r: Self)
        ensures
            r.enabled,
            r.blacklisted_ips@.len() == 0,
            r.whitelisted_ips@.len() == 0,
            !r.allow_vpn,
            !r.allow_proxy,
            r.allowed_countries@.len() == 0,
            r.blocked_countries@.len() == 0,
    {
        IpReputation {
            enabled: true,
            blacklisted_ips: Vec::new(),
            whitelisted_ips: Vec::new(),
            allow_vpn: false,
            allow_proxy: false,
            allowed_countries: Vec::new(),
            blocked_countries: Vec::new(),
        }
    }

    /// Add an address to the blacklist.
    pub fn blacklist_ip(self, ip: String) -> (r: Self)
        ensures
            r.blacklisted_ips@ == self.blacklisted_ips@.push(ip),
            r.whitelisted_ips == self.whitelisted_ips,
            r.enabled == self.enabled,
            r.allow_vpn == self.allow_vpn,
            r.allow_proxy == self.allow_proxy,
            r.allowed_countries == self.allowed_countries,
            r.blocked_countries == self.blocked_countries,
    {
        let mut r = self;
        r.blacklisted_ips.push(ip);
        r
    }

    /// Add an address to the whitelist.
    pub fn whitelist_ip(self, ip: String) -> (r: Self)
        ensures
            r.whitelisted_ips@ == self.whitelisted_ips@.push(ip),
            r.blacklisted_ips == self.blacklisted_ips,
            r.enabled == self.enabled,
            r.allow_vpn == self.allow_vpn,
            r.allow_proxy == self.allow_proxy,
            r.allowed_countries == self.allowed_countries,
            r.blocked_countries == self.blocked_countries,
    {
        let mut r = self;
        r.whitelisted_ips.push(ip);
        r
    }

    /// Block these countries (stored upper-cased).
    pub fn block_countries(self, countries: Vec<String>) -> (r: Self)
        ensures
            r.blocked_countries@.len() == self.blocked_countries@.len() + countries@.len(),
            r.enabled == self.enabled,
            r.blacklisted_ips == self.blacklisted_ips,
            r.whitelisted_ips == self.whitelisted_ips,
    {
        let mut r = self;
        let mut i: usize = 0;
        while i < countries.len()
            invariant
                i <= countries@.len(),
                r.blocked_countries@.len() == self.blocked_countries@.len() + i,
                r.enabled == self.enabled,
                r.blacklisted_ips == self.blacklisted_ips,
                r.whitelisted_ips == self.whitelisted_ips,
            decreases countries@.len() - i,
        {
            let up = upper_chars(&to_chars(countries[i].as_str()));
            r.blocked_countries.push(crate::outside::chars_to_string(&up));
            i = i + 1;
        }
        r
    }

    /// Allow only these countries (stored upper-cased).
    pub fn allow_countries_only(self, countries: Vec<String>) -> (r: Self)
        ensures
            r.allowed_countries@.len() == self.allowed_countries@.len() + countries@.len(),
            r.enabled == self.enabled,
            r.blacklisted_ips == self.blacklisted_ips,
            r.whitelisted_ips == self.whitelisted_ips,
    {
        let mut r = self;
        let mut i: usize = 0;
        while i < countries.len()
            invariant
                i <= countries@.len(),
                r.allowed_countries@.len() == self.allowed_countries@.len() + i,
                r.enabled == self.enabled,
                r.blacklisted_ips == self.blacklisted_ips,
                r.whitelisted_ips == self.whitelisted_ips,
            decreases countries@.len() - i,
        {
            let up = upper_chars(&to_chars(countries[i].as_str()));
            r.allowed_countries.push(crate::outside::chars_to_string(&up));
            i = i + 1;
        }
        r
    }

    /// Is this address on the blacklist?
    pub fn is_blacklisted(&self, ip: &str) -> (r: bool)
        ensures
            r == list_has(self.blacklisted_ips@, ip@),
    {
        str_list_contains(&self.blacklisted_ips, ip)
    }

    /// Is this address on the whitelist?
    pub fn is_whitelisted(&self, ip: &str) -> (r: bool)
        ensures
            r == list_has(self.whitelisted_ips@, ip@),
    {
        str_list_contains(&self.whitelisted_ips, ip)
    }

    /// Check a request's client address: the whitelist passes outright,
    /// the blacklist rejects (score 80), then VPN (score 25) and proxy
    /// (score 20) indicators reject unless allowed.
    pub fn check_ip_reputation(&self, req: &ApiRequest, context: &mut SecurityContext) -> (r:
        SecurityResult<()>)
        ensures
            !self.enabled ==> r is Ok && *final(context) == *old(context),
            self.enabled ==> {
                let ip = old(context).client_ip@;
                let white = list_has(self.whitelisted_ips@, ip);
                let black = list_has(self.blacklisted_ips@, ip);
                &&& (white ==> r is Ok && *final(context) == *old(context))
                &&& (!white && black ==> ({
                    &&& r matches Err(SecurityError::IpBlocked(_))
                    &&& context_scored(*old(context), *final(context), 80)
                }))
                &&& (!white && !black && !self.allow_vpn && vpn_suspected(*req) ==> ({
                    &&& r matches Err(SecurityError::VpnDetected(_))
                    &&& context_scored(*old(context), *final(context), 25)
                }))
                &&& (!white && !black && !(!self.allow_vpn && vpn_suspected(*req)) && !self.allow_proxy
                    && proxy_suspected(*req) ==> ({
                    &&& r matches Err(SecurityError::ProxyDetected(_))
                    &&& context_scored(*old(context), *final(context), 20)
                }))
                &&& (!white && !black && !(!self.allow_vpn && vpn_suspected(*req)) && !(!self.allow_proxy
                    && proxy_suspected(*req)) ==> r is Ok && *final(context) == *old(context))
            },
    {
        if !self.enabled {
            return Ok(());
        }
        let ip = crate::outside::chars_to_string(&to_chars(context.client_ip.as_str()));
        if str_list_contains(&self.whitelisted_ips, ip.as_str()) {
            return Ok(());
        }
        if str_list_contains(&self.blacklisted_ips, ip.as_str()) {
            context.add_threat_score(80);
            return Err(SecurityError::IpBlocked("IP address is blacklisted".to_owned()));
        }
        if !self.allow_vpn && self.is_vpn_detected(req) {
            context.add_threat_score(25);
            return Err(SecurityError::VpnDetected("VPN/Proxy detected, not allowed".to_owned()));
        }
        if !self.allow_proxy && self.is_proxy_detected(req) {
            context.add_threat_score(20);
            return Err(SecurityError::ProxyDetected("Proxy detected, not allowed".to_owned()));
        }
        Ok(())
    }

    /// Decide `vpn_suspected`.
    pub fn is_vpn_detected(&self, req: &ApiRequest) -> (r: bool)
        ensures
            r == vpn_suspected(*req),
    {
        let mut count: u64 = 0;
        let mut i: usize = 0;
        let ghost hs = req.headers@;
        proof {
            assert(hs.skip(0) =~= hs);
        }
        while i < req.headers.len()
            invariant
                hs == req.headers@,
                i <= hs.len(),
                count <= i,
                xff_count(hs) - xff_count(hs.skip(i as int)) == count,
            decreases hs.len() - i,
        {
            proof {
                assert(hs.skip(i as int)[0] == hs[i as int]);
                assert(hs.skip(i as int).drop_first() =~= hs.skip(i + 1));
            }
            let name = crate::text::lower_chars(&to_chars(req.headers[i].0.as_str()));
            let want = to_chars("x-forwarded-for");
            if crate::text::eq_chars(&name, &want) {
                count = count + 1;
            }
            i = i + 1;
        }
        proof {
            assert(hs.skip(i as int).len() == 0);
            assert(xff_count(hs.skip(i as int)) == 0);
        }
        if count > 1 {
            return true;
        }
        match req.get_header("x-forwarded-for") {
            Some(v) => {
                let chars = to_chars(v.as_str());
                let commas = count_commas(&chars);
                commas > 1
            },
            None => false,
        }
    }

    /// Decide `proxy_suspected`.
    pub fn is_proxy_detected(&self, req: &ApiRequest) -> (r: bool)
        ensures
            r == proxy_suspected(*req),
    {
        req.get_header("via").is_some() || req.get_header("x-proxy-authorization").is_some()
            || req.get_header("proxy-authorization").is_some() || req.get_header(
            "x-anonymizer-version",
        ).is_some()
    }

    /// Is this a well-formed dotted IPv4 address?
    pub fn is_valid_ipv4(ip: &str) -> (r: bool)
        ensures
            r == ipv4_ok(ip@),
    {
        let chars = to_chars(ip);
        let parts = split_char(&chars, '.');
        let ghost pv = split_seq(ip@, '.');
        if parts.len() != 4 {
            return false;
        }
        let mut i: usize = 0;
        while i < 4
            invariant
                pv == split_seq(ip@, '.'),
                parts@.map_values(|v: Vec<char>| v@) == pv,
                parts@.len() == 4,
                pv.len() == 4,
                i <= 4,
                forall|j: int| 0 <= j < i ==> is_ipv4_group(#[trigger] pv[j]),
            decreases 4 - i,
        {
            proof {
                assert(parts@.map_values(|v: Vec<char>| v@)[i as int] == parts@[i as int]@);
            }
            if !crate::numfmt::check_ipv4_group(&parts[i]) {
                return false;
            }
            i = i + 1;
        }
        true
    }

    /// Is this plausibly an IPv6 address?
    pub fn is_valid_ipv6(ip: &str) -> (r: bool)
        ensures
            r == ipv6_ok(ip@),
    {
        let chars = to_chars(ip);
        let has_colon = match crate::text::find_char(&chars, ':', 0) {
            Some(_) => true,
            None => false,
        };
        if !has_colon {
            return false;
        }
        let mut i: usize = 0;
        while i < chars.len()
            invariant
                chars@ == ip@,
                char_idx(ip@, ':', 0) >= 0,
                i <= chars@.len(),
                forall|j: int|
                    0 <= j < i ==> crate::request::is_hex_char(#[trigger] chars@[j])
                        || chars@[j] == ':' || chars@[j] == '.',
            decreases chars@.len() - i,
        {
            let c = chars[i];
            let hex = ('0' <= c && c <= '9') || ('a' <= c && c <= 'f') || ('A' <= c && c
                <= 'F');
            if !(hex || c == ':' || c == '.') {
                return false;
            }
            i = i + 1;
        }
        true
    }
}

/// Does the list contain this exact string?
fn str_list_contains(list: &Vec<String>, s: &str) -> (r: bool)
    ensures
        r == list_has(list@, s@),
{
    let mut i: usize = 0;
    while i < list.len()
        invariant
            i <= list@.len(),
            forall|j: int| 0 <= j < i ==> list@[j]@ != s@,
        decreases list@.len() - i,
    {
        if str_eq(list[i].as_str(), s) {
            return true;
        }
        i = i + 1;
    }
    false
}

/// Count the commas of a character vector.
fn count_commas(s: &Vec<char>) -> (r: usize)
    ensures
        r == comma_count(s@),
{
    let mut count: usize = 0;
    let mut i: usize = 0;
    let ghost sv = s@;
    proof {
        assert(sv.skip(0) =~= sv);
    }
    while i < s.len()
        invariant
            sv == s@,
            i <= sv.len(),
            count <= i,
            comma_count(sv) - comma_count(sv.skip(i as int)) == count,
        decreases sv.len() - i,
    {
        proof {
            assert(sv.skip(i as int)[0] == sv[i as int]);
            assert(sv.skip(i as int).drop_first() =~= sv.skip(i + 1));
        }
        if s[i] == ',' {
            count = count + 1;
        }
        i = i + 1;
    }
    proof {
        assert(sv.skip(i as int).len() == 0);
    }
    count
}

impl Default for IpReputation {
    fn default() -> (r: Self)
        ensures
            r.enabled,
    {
        Self::new()
    }
}

} // verus!
