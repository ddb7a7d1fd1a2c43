//! Security response headers and request-header hygiene: the recommended
//! header set, header-name and header-value validity, and CRLF stripping.

use vstd::prelude::*;

use crate::numfmt::dec_digits;
use crate::numfmt::u64_to_chars;
use crate::outside::{chars_to_string, to_chars};
use crate::text::is_alnum_char;

verus! {

/// A header name as RFC 7230 token characters this library accepts:
/// non-empty, at most 256 characters, alphanumerics, `-` and `_` only.
pub open spec fn header_name_ok(s: Seq<char>) -> bool {
    1 <= s.len() <= 256 && forall|i: int|
        0 <= i < s.len() ==> is_alnum_char(#[trigger] s[i]) || s[i] == '-' || s[i] == '_'
}

/// A header value free of CRLF and null-byte injection.
pub open spec fn header_value_ok(s: Seq<char>) -> bool {
    forall|i: int|
        0 <= i < s.len() ==> #[trigger] s[i] != '\r' && s[i] != '\n' && s[i] != '\u{0}'
}

/// A header value with the dangerous characters removed.
pub open spec fn strip_ctl(s: Seq<char>) -> Seq<char>
    decreases s.len(),
{
    if s.len() == 0 {
        Seq::empty()
    } else if s[0] == '\r' || s[0] == '\n' || s[0] == '\u{0}' {
        strip_ctl(s.skip(1))
    } else {
        seq![s[0]] + strip_ctl(s.skip(1))
    }
}

/// The HSTS header value: `max-age=<n>`, `; includeSubDomains` when asked
/// for, always `; preload`.
pub open spec fn hsts_value(max_age: int, include_subdomains: bool) -> Seq<char> {
    "max-age="@ + dec_digits(max_age) + (if include_subdomains {
        "; includeSubDomains"@
    } else {
        Seq::<char>::empty()
    }) + "; preload"@
}

/// Security headers injection and management.
pub struct SecurityHeaders;

impl SecurityHeaders {
    /// All recommended security headers, in order: clickjacking,
    /// MIME-sniffing and legacy XSS protection, referrer and permissions
    /// policy, a restrictive CSP, cache suppression, and two hardening
    /// extras.
    pub fn get_all_headers() -> (r: Vec<(&'static str, &'static str)>)
        ensures
            r@.len() == 11,
            r@[0].0@ == "X-Frame-Options"@ && r@[0].1@ == "DENY"@,
            r@[1].0@ == "X-Content-Type-Options"@ && r@[1].1@ == "nosniff"@,
            r@[2].0@ == "X-XSS-Protection"@ && r@[2].1@ == "1; mode=block"@,
            r@[3].0@ == "Referrer-Policy"@ && r@[3].1@ == "strict-origin-when-cross-origin"@,
            r@[4].0@ == "Permissions-Policy"@,
            r@[5].0@ == "Content-Security-Policy"@,
            r@[6].0@ == "Cache-Control"@ && r@[6].1@
                == "no-store, no-cache, must-revalidate, max-age=0, private"@,
            r@[7].0@ == "Pragma"@ && r@[7].1@ == "no-cache"@,
            r@[8].0@ == "Expires"@ && r@[8].1@ == "0"@,
            r@[9].0@ == "X-Permitted-Cross-Domain-Policies"@ && r@[9].1@ == "none"@,
            r@[10].0@ == "X-UA-Compatible"@ && r@[10].1@ == "IE=edge"@,
    {
        let mut r: Vec<(&'static str, &'static str)> = Vec::new();
        r.push(("X-Frame-Options", "DENY"));
        r.push(("X-Content-Type-Options", "nosniff"));
        r.push(("X-XSS-Protection", "1; mode=block"));
        r.push(("Referrer-Policy", "strict-origin-when-cross-origin"));
        r.push((
            "Permissions-Policy",
            "geolocation=(), microphone=(), camera=(), payment=(), usb=(), magnetometer=(), gyroscope=(), accelerometer=()",
        ));
        r.push((
            "Content-Security-Policy",
            "default-src 'self'; script-src 'self' 'unsafe-inline'; style-src 'self' 'unsafe-inline'; img-src 'self' data: https:; font-src 'self'; connect-src 'self'; frame-ancestors 'none'; base-uri 'self'; form-action 'self'",
        ));
        r.push(("Cache-Control", "no-store, no-cache, must-revalidate, max-age=0, private"));
        r.push(("Pragma", "no-cache"));
        r.push(("Expires", "0"));
        r.push(("X-Permitted-Cross-Domain-Policies", "none"));
        r.push(("X-UA-Compatible", "IE=edge"));
        r
    }

    /// The Content-Security-Policy value, either the restrictive default
    /// or one that admits external scripts over HTTPS.
    pub fn get_csp_header(allow_external_scripts: bool) -> (r: String)
        ensures
            allow_external_scripts ==> r@
                == "default-src 'self'; script-src 'self' 'unsafe-inline' https:; style-src 'self' 'unsafe-inline' https:; img-src 'self' data: https:; font-src 'self' https:; connect-src 'self' https:; frame-ancestors 'none'; base-uri 'self'; form-action 'self'"@,
            !allow_external_scripts ==> r@
                == "default-src 'self'; script-src 'self'; style-src 'self' 'unsafe-inline'; img-src 'self' data:; font-src 'self'; connect-src 'self'; frame-ancestors 'none'; base-uri 'self'; form-action 'self'"@,
    {
        if allow_external_scripts {
            "default-src 'self'; script-src 'self' 'unsafe-inline' https:; style-src 'self' 'unsafe-inline' https:; img-src 'self' data: https:; font-src 'self' https:; connect-src 'self' https:; frame-ancestors 'none'; base-uri 'self'; form-action 'self'".to_owned()
        } else {
            "default-src 'self'; script-src 'self'; style-src 'self' 'unsafe-inline'; img-src 'self' data:; font-src 'self'; connect-src 'self'; frame-ancestors 'none'; base-uri 'self'; form-action 'self'".to_owned()
        }
    }

    /// The HSTS header value for the given policy.
    pub fn get_hsts_header(max_age: u32, include_subdomains: bool) -> (r: String)
        ensures
            r@ == hsts_value(max_age as int, include_subdomains),
    {
        let mut v = to_chars("max-age=");
        let mut digits = u64_to_chars(max_age as u64);
        let mut k: usize = 0;
        while k < digits.len()
            invariant
                k <= digits@.len(),
                v@ =~= "max-age="@ + digits@.subrange(0, k as int),
            decreases digits@.len() - k,
        {
            v.push(digits[k]);
            k = k + 1;
        }
        proof {
            assert(digits@.subrange(0, digits@.len() as int) =~= digits@);
        }
        let mid = if include_subdomains {
            "; includeSubDomains; preload"
        } else {
            "; preload"
        };
        let tail = to_chars(mid);
        let mut k2: usize = 0;
        while k2 < tail.len()
            invariant
                k2 <= tail@.len(),
                v@ =~= "max-age="@ + digits@ + tail@.subrange(0, k2 as int),
            decreases tail@.len() - k2,
        {
            v.push(tail[k2]);
            k2 = k2 + 1;
        }
        proof {
            assert(tail@.subrange(0, tail@.len() as int) =~= tail@);
            reveal_strlit("; includeSubDomains; preload");
            reveal_strlit("; includeSubDomains");
            reveal_strlit("; preload");
            if include_subdomains {
                assert("; includeSubDomains; preload"@ =~= "; includeSubDomains"@
                    + "; preload"@);
                assert(v@ =~= hsts_value(max_age as int, include_subdomains));
            } else {
                assert(v@ =~= hsts_value(max_age as int, include_subdomains));
            }
        }
        chars_to_string(&v)
    }

    /// Is this a header name this library accepts?
    pub fn is_valid_header_name(name: &str) -> (r: bool)
        ensures
            r == header_name_ok(name@),
    {
        let chars = to_chars(name);
        if chars.len() < 1 || chars.len() > 256 {
            return false;
        }
        let mut i: usize = 0;
        while i < chars.len()
            invariant
                chars@ == name@,
                1 <= chars@.len() <= 256,
                i <= chars@.len(),
                forall|j: int|
                    0 <= j < i ==> is_alnum_char(#[trigger] chars@[j]) || chars@[j] == '-'
                        || chars@[j] == '_',
            decreases chars@.len() - i,
        {
            let c = chars[i];
            let alnum = ('0' <= c && c <= '9') || ('a' <= c && c <= 'z') || ('A' <= c && c
                <= 'Z');
            if !(alnum || c == '-' || c == '_') {
                return false;
            }
            i = i + 1;
        }
        true
    }

    /// Is this header value free of CRLF and null bytes?
    pub fn is_valid_header_value(value: &str) -> (r: bool)
        ensures
            r == header_value_ok(value@),
    {
        let chars = to_chars(value);
        let mut i: usize = 0;
        while i < chars.len()
            invariant
                chars@ == value@,
                i <= chars@.len(),
                forall|j: int|
                    0 <= j < i ==> #[trigger] chars@[j] != '\r' && chars@[j] != '\n'
                        && chars@[j] != '\u{0}',
            decreases chars@.len() - i,
        {
            let c = chars[i];
            if c == '\r' || c == '\n' || c == '\u{0}' {
                return false;
            }
            i = i + 1;
        }
        true
    }

    /// Remove CR, LF and null bytes from a header value. Stripping is
    /// exact: the result is always a valid header value, and a value that
    /// was already valid comes back unchanged.
    pub fn sanitize_header_value(value: &str) -> (r: String)
        ensures
            r@ == strip_ctl(value@),
            header_value_ok(r@),
            header_value_ok(value@) ==> r@ == value@,
    {
        proof {
            lemma_strip_ctl_exact(value@);
        }
        let chars = to_chars(value);
        let mut out: Vec<char> = Vec::new();
        let mut i: usize = 0;
        proof {
            assert(chars@.skip(0) =~= chars@);
            assert(out@ + strip_ctl(chars@) =~= strip_ctl(chars@));
        }
        while i < chars.len()
            invariant
                chars@ == value@,
                i <= chars@.len(),
                strip_ctl(value@) == out@ + strip_ctl(chars@.skip(i as int)),
                header_value_ok(out@),
            decreases chars@.len() - i,
        {
            let ghost rest = chars@.skip(i as int);
            proof {
                assert(rest[0] == chars@[i as int]);
                assert(rest.skip(1) =~= chars@.skip(i + 1));
            }
            let c = chars[i];
            if !(c == '\r' || c == '\n' || c == '\u{0}') {
                out.push(c);
                proof {
                    assert(out@ =~= out@.drop_last() + seq![c]);
                }
            }
            i = i + 1;
        }
        proof {
            assert(chars@.skip(i as int) =~= Seq::<char>::empty());
            assert(out@ + strip_ctl(chars@.skip(i as int)) =~= out@);
        }
        chars_to_string(&out)
    }
}

/// Stripping is exact: what remains is valid, and a valid value is kept
/// whole.
pub proof fn lemma_strip_ctl_exact(s: Seq<char>)
    ensures
        header_value_ok(strip_ctl(s)),
        header_value_ok(s) ==> strip_ctl(s) == s,
    decreases s.len(),
{
    if s.len() > 0 {
        lemma_strip_ctl_exact(s.skip(1));
        assert forall|i: int| 0 <= i < s.skip(1).len() implies s.skip(1)[i] == s[i + 1] by {}
        if header_value_ok(s) {
            assert(header_value_ok(s.skip(1)));
            assert(seq![s[0]] + s.skip(1) =~= s);
        }
        if !(s[0] == '\r' || s[0] == '\n' || s[0] == '\u{0}') {
            let t = seq![s[0]] + strip_ctl(s.skip(1));
            assert forall|i: int| 0 <= i < t.len() implies #[trigger] t[i] != '\r' && t[i]
                != '\n' && t[i] != '\u{0}' by {
                if i > 0 {
                    assert(t[i] == strip_ctl(s.skip(1))[i - 1]);
                }
            }
        }
    }
}

} // verus!
