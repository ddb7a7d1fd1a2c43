//! Error responses that do not leak internals: a safe response per error
//! kind, detail gating, and message sanitization that strips path
//! separators and known sensitive directory names.

use vstd::prelude::*;

use crate::errors::SecurityError;
use crate::outside::{chars_to_string, now_rfc3339, to_chars};
use crate::text::{has_at_exec, lower_chars, lower_seq};
use vstd::string::StringExecFns;

verus! {

/// The stable machine-readable code for each error kind.
pub open spec fn error_code(e: SecurityError) -> Seq<char> {
    match e {
        SecurityError::RateLimitExceeded { .. } => "RATE_LIMIT_EXCEEDED"@,
        SecurityError::AuthenticationFailed(_) => "AUTH_FAILED"@,
        SecurityError::AuthorizationFailed(_) => "FORBIDDEN"@,
        SecurityError::InvalidInput { .. } => "BAD_REQUEST"@,
        SecurityError::ThreatDetected { .. } => "THREAT_DETECTED"@,
        SecurityError::ConfigError(_) => "INTERNAL_ERROR"@,
        SecurityError::InternalError(_) => "INTERNAL_ERROR"@,
        SecurityError::CorsViolation(_) => "CORS_VIOLATION"@,
        SecurityError::CsrfViolation(_) => "CSRF_FAILED"@,
        SecurityError::HttpsRequired => "HTTPS_REQUIRED"@,
        SecurityError::TransportLayerViolation(_) => "TRANSPORT_VIOLATION"@,
        SecurityError::IpBlocked(_) => "IP_BLOCKED"@,
        SecurityError::VpnDetected(_) => "VPN_DETECTED"@,
        SecurityError::ProxyDetected(_) => "PROXY_DETECTED"@,
        SecurityError::RequestTimeout(_) => "REQUEST_TIMEOUT"@,
        SecurityError::ConnectionTimeout(_) => "CONNECTION_TIMEOUT"@,
        SecurityError::ReplayDetected(_) => "REPLAY_DETECTED"@,
    }
}

/// The generic, non-disclosing message for each error kind.
pub open spec fn error_title(e: SecurityError) -> Seq<char> {
    match e {
        SecurityError::RateLimitExceeded { .. } => "Rate limit exceeded"@,
        SecurityError::AuthenticationFailed(_) => "Authentication failed"@,
        SecurityError::AuthorizationFailed(_) => "Forbidden"@,
        SecurityError::InvalidInput { .. } => "Bad request"@,
        SecurityError::ThreatDetected { .. } => "Request blocked"@,
        SecurityError::ConfigError(_) => "Internal server error"@,
        SecurityError::InternalError(_) => "Internal server error"@,
        SecurityError::CorsViolation(_) => "CORS policy violation"@,
        SecurityError::CsrfViolation(_) => "CSRF validation failed"@,
        SecurityError::HttpsRequired => "HTTPS required"@,
        SecurityError::TransportLayerViolation(_) => "Transport layer violation"@,
        SecurityError::IpBlocked(_) => "Access denied"@,
        SecurityError::VpnDetected(_) => "Access denied"@,
        SecurityError::ProxyDetected(_) => "Access denied"@,
        SecurityError::RequestTimeout(_) => "Request timeout"@,
        SecurityError::ConnectionTimeout(_) => "Connection timeout"@,
        SecurityError::ReplayDetected(_) => "Replay attack detected"@,
    }
}

/// Whether the error kind carries an optional caller-facing detail.
pub open spec fn error_has_detail(e: SecurityError) -> bool {
    !(e is ConfigError || e is InternalError)
}

/// The fixed caller-facing detail for each error kind: a literal chosen
/// per variant, never the reason the variant carries, so internal detail
/// cannot leak through it.
pub open spec fn error_detail(e: SecurityError) -> Seq<char> {
    match e {
        SecurityError::RateLimitExceeded { .. } => "Too many requests. Please try again later."@,
        SecurityError::AuthenticationFailed(_) => "Invalid or missing authentication credentials."@,
        SecurityError::AuthorizationFailed(_) => "You do not have permission to access this resource."@,
        SecurityError::InvalidInput { .. } => "The request contains invalid data."@,
        SecurityError::ThreatDetected { .. } => "Your request was blocked due to suspicious activity."@,
        SecurityError::ConfigError(_) => Seq::empty(),
        SecurityError::InternalError(_) => Seq::empty(),
        SecurityError::CorsViolation(_) => "This request does not meet the CORS policy requirements."@,
        SecurityError::CsrfViolation(_) => "CSRF token validation failed."@,
        SecurityError::HttpsRequired => "This endpoint requires a secure HTTPS connection."@,
        SecurityError::TransportLayerViolation(_) => "The request does not meet security requirements."@,
        SecurityError::IpBlocked(_) => "Your IP address does not have access to this resource."@,
        SecurityError::VpnDetected(_) => "VPN/Proxy access is not allowed."@,
        SecurityError::ProxyDetected(_) => "Proxy access is not allowed."@,
        SecurityError::RequestTimeout(_) => "Your request exceeded the maximum allowed time."@,
        SecurityError::ConnectionTimeout(_) => "Your connection exceeded the maximum allowed time."@,
        SecurityError::ReplayDetected(_) => "Your request appears to be a replay of a previous request."@,
    }
}

/// Error response with sanitization to prevent information disclosure.
pub struct SafeErrorResponse {
    pub error: String,
    pub code: String,
    pub timestamp: String,
    pub request_id: String,
    pub details: Option<String>,
}

impl SafeErrorResponse {
    /// The safe response for a security error: a generic title, the stable
    /// code, and a detail only when the caller may see one. The timestamp
    /// comes from the wall clock and is not specified further.
    pub fn from_security_error(
        error: &SecurityError,
        request_id: String,
        include_details: bool,
    ) -> (r: Self)
        ensures
            r.error@ == error_title(*error),
            r.code@ == error_code(*error),
            r.request_id == request_id,
            !include_details ==> r.details is None,
            include_details ==> (r.details is Some <==> error_has_detail(*error)),
            include_details && error_has_detail(*error) ==> ({
                &&& r.details matches Some(d)
                &&& d@ == error_detail(*error)
            }),
    {
        let title: &str = match error {
            SecurityError::RateLimitExceeded { .. } => "Rate limit exceeded",
            SecurityError::AuthenticationFailed(_) => "Authentication failed",
            SecurityError::AuthorizationFailed(_) => "Forbidden",
            SecurityError::InvalidInput { .. } => "Bad request",
            SecurityError::ThreatDetected { .. } => "Request blocked",
            SecurityError::ConfigError(_) => "Internal server error",
            SecurityError::InternalError(_) => "Internal server error",
            SecurityError::CorsViolation(_) => "CORS policy violation",
            SecurityError::CsrfViolation(_) => "CSRF validation failed",
            SecurityError::HttpsRequired => "HTTPS required",
            SecurityError::TransportLayerViolation(_) => "Transport layer violation",
            SecurityError::IpBlocked(_) => "Access denied",
            SecurityError::VpnDetected(_) => "Access denied",
            SecurityError::ProxyDetected(_) => "Access denied",
            SecurityError::RequestTimeout(_) => "Request timeout",
            SecurityError::ConnectionTimeout(_) => "Connection timeout",
            SecurityError::ReplayDetected(_) => "Replay attack detected",
        };
        let code: &str = match error {
            SecurityError::RateLimitExceeded { .. } => "RATE_LIMIT_EXCEEDED",
            SecurityError::AuthenticationFailed(_) => "AUTH_FAILED",
            SecurityError::AuthorizationFailed(_) => "FORBIDDEN",
            SecurityError::InvalidInput { .. } => "BAD_REQUEST",
            SecurityError::ThreatDetected { .. } => "THREAT_DETECTED",
            SecurityError::ConfigError(_) => "INTERNAL_ERROR",
            SecurityError::InternalError(_) => "INTERNAL_ERROR",
            SecurityError::CorsViolation(_) => "CORS_VIOLATION",
            SecurityError::CsrfViolation(_) => "CSRF_FAILED",
            SecurityError::HttpsRequired => "HTTPS_REQUIRED",
            SecurityError::TransportLayerViolation(_) => "TRANSPORT_VIOLATION",
            SecurityError::IpBlocked(_) => "IP_BLOCKED",
            SecurityError::VpnDetected(_) => "VPN_DETECTED",
            SecurityError::ProxyDetected(_) => "PROXY_DETECTED",
            SecurityError::RequestTimeout(_) => "REQUEST_TIMEOUT",
            SecurityError::ConnectionTimeout(_) => "CONNECTION_TIMEOUT",
            SecurityError::ReplayDetected(_) => "REPLAY_DETECTED",
        };
        let detail: Option<&str> = match error {
            SecurityError::RateLimitExceeded { .. } => Some(
                "Too many requests. Please try again later.",
            ),
            SecurityError::AuthenticationFailed(_) => Some(
                "Invalid or missing authentication credentials.",
            ),
            SecurityError::AuthorizationFailed(_) => Some(
                "You do not have permission to access this resource.",
            ),
            SecurityError::InvalidInput { .. } => Some("The request contains invalid data."),
            SecurityError::ThreatDetected { .. } => Some(
                "Your request was blocked due to suspicious activity.",
            ),
            SecurityError::ConfigError(_) => None,
            SecurityError::InternalError(_) => None,
            SecurityError::CorsViolation(_) => Some(
                "This request does not meet the CORS policy requirements.",
            ),
            SecurityError::CsrfViolation(_) => Some("CSRF token validation failed."),
            SecurityError::HttpsRequired => Some(
                "This endpoint requires a secure HTTPS connection.",
            ),
            SecurityError::TransportLayerViolation(_) => Some(
                "The request does not meet security requirements.",
            ),
            SecurityError::IpBlocked(_) => Some(
                "Your IP address does not have access to this resource.",
            ),
            SecurityError::VpnDetected(_) => Some("VPN/Proxy access is not allowed."),
            SecurityError::ProxyDetected(_) => Some("Proxy access is not allowed."),
            SecurityError::RequestTimeout(_) => Some(
                "Your request exceeded the maximum allowed time.",
            ),
            SecurityError::ConnectionTimeout(_) => Some(
                "Your connection exceeded the maximum allowed time.",
            ),
            SecurityError::ReplayDetected(_) => Some(
                "Your request appears to be a replay of a previous request.",
            ),
        };
        SafeErrorResponse {
            error: title.to_owned(),
            code: code.to_owned(),
            timestamp: now_rfc3339(),
            request_id,
            details: if include_details {
                match detail {
                    Some(d) => Some(d.to_owned()),
                    None => None,
                }
            } else {
                None
            },
        }
    }
}

/// Backslashes become forward slashes.
pub open spec fn slashes(s: Seq<char>) -> Seq<char> {
    Seq::new(s.len(), |i: int| if s[i] == '\\' { '/' } else { s[i] })
}

pub open spec fn is_ascii_letter(c: char) -> bool {
    ('a' <= c && c <= 'z') || ('A' <= c && c <= 'Z')
}

/// A character a path segment may hold: anything but a slash or
/// whitespace.
pub open spec fn is_seg_char(c: char) -> bool {
    c != '/' && !crate::text::is_ws_char(c)
}

/// End of the path-segment run that starts at `i`.
pub open spec fn seg_end(s: Seq<char>, i: int) -> int
    decreases s.len() - i,
{
    if 0 <= i && i < s.len() && is_seg_char(s[i]) {
        seg_end(s, i + 1)
    } else {
        i
    }
}

/// The sensitive directory names, in the order they are tried.
pub open spec fn sensitive_dirs() -> Seq<Seq<char>> {
    seq!["home"@, "Users"@, "user"@, "usr"@, "var"@, "etc"@, "root"@, "opt"@]
}

/// The length of the first listed directory name standing at `i` with a
/// slash right after it, or -1.
pub open spec fn dir_match_len(s: Seq<char>, i: int) -> int {
    let ds = sensitive_dirs();
    if dir_word_at(s, i, ds[0]) {
        ds[0].len() as int
    } else if dir_word_at(s, i, ds[1]) {
        ds[1].len() as int
    } else if dir_word_at(s, i, ds[2]) {
        ds[2].len() as int
    } else if dir_word_at(s, i, ds[3]) {
        ds[3].len() as int
    } else if dir_word_at(s, i, ds[4]) {
        ds[4].len() as int
    } else if dir_word_at(s, i, ds[5]) {
        ds[5].len() as int
    } else if dir_word_at(s, i, ds[6]) {
        ds[6].len() as int
    } else if dir_word_at(s, i, ds[7]) {
        ds[7].len() as int
    } else {
        -1
    }
}

pub open spec fn dir_word_at(s: Seq<char>, i: int, w: Seq<char>) -> bool {
    crate::text::has_at(s, w, i) && i + w.len() < s.len() && s[i + w.len()] == '/'
}

/// The length of the first listed directory name standing at `i` with a
/// word boundary on both sides, compared case-insensitively, or -1.
pub open spec fn word_match_len(s: Seq<char>, i: int) -> int {
    if i > 0 && i <= s.len() && crate::text::is_word_char(s[i - 1]) {
        -1
    } else {
        let ds = sensitive_dirs();
        if word_at(s, i, ds[0]) {
            ds[0].len() as int
        } else if word_at(s, i, ds[1]) {
            ds[1].len() as int
        } else if word_at(s, i, ds[2]) {
            ds[2].len() as int
        } else if word_at(s, i, ds[3]) {
            ds[3].len() as int
        } else if word_at(s, i, ds[4]) {
            ds[4].len() as int
        } else if word_at(s, i, ds[5]) {
            ds[5].len() as int
        } else if word_at(s, i, ds[6]) {
            ds[6].len() as int
        } else if word_at(s, i, ds[7]) {
            ds[7].len() as int
        } else {
            -1
        }
    }
}

pub open spec fn word_at(s: Seq<char>, i: int, w: Seq<char>) -> bool {
    &&& 0 <= i && i + w.len() <= s.len()
    &&& lower_seq(s.subrange(i, i + w.len())) == lower_seq(w)
    &&& (i + w.len() == s.len() || !crate::text::is_word_char(s[i + w.len()]))
}

/// Redact every drive-letter path (`x:/` and the segment after it) by the
/// marker, scanning left to right.
pub open spec fn redact_drives_from(s: Seq<char>, i: int) -> Seq<char>
    decreases s.len() - i,
{
    if i < 0 || i >= s.len() {
        Seq::empty()
    } else if i + 2 < s.len() && is_ascii_letter(s[i]) && s[i + 1] == ':' && s[i + 2] == '/' {
        let k = seg_end(s, i + 3);
        let j = if k < i + 3 {
            i + 3
        } else if k > s.len() {
            s.len() as int
        } else {
            k
        };
        "[REDACTED]"@ + redact_drives_from(s, j)
    } else {
        seq![s[i]] + redact_drives_from(s, i + 1)
    }
}

/// Redact every `/<sensitive-dir>/<segment>` path by the marker, scanning
/// left to right.
pub open spec fn redact_dirs_from(s: Seq<char>, i: int) -> Seq<char>
    decreases s.len() - i,
{
    if i < 0 || i >= s.len() {
        Seq::empty()
    } else if s[i] == '/' && dir_match_len(s, i + 1) >= 0 {
        let l = dir_match_len(s, i + 1);
        let k = seg_end(s, i + 2 + l);
        let j = if k < i + 2 + l {
            i + 2 + l
        } else if k > s.len() {
            s.len() as int
        } else {
            k
        };
        "[REDACTED]"@ + redact_dirs_from(s, j)
    } else {
        seq![s[i]] + redact_dirs_from(s, i + 1)
    }
}

/// Redact every standalone sensitive directory name (case-insensitive,
/// word-bounded) by the marker, scanning left to right.
pub open spec fn redact_words_from(s: Seq<char>, i: int) -> Seq<char>
    decreases s.len() - i,
{
    if i < 0 || i >= s.len() {
        Seq::empty()
    } else if word_match_len(s, i) >= 1 {
        "[REDACTED]"@ + redact_words_from(s, i + word_match_len(s, i))
    } else {
        seq![s[i]] + redact_words_from(s, i + 1)
    }
}

/// The full sanitization, in the documented order: separators normalized,
/// then drive-letter paths, then sensitive directory paths with their
/// following segment, then standalone sensitive directory names.
pub open spec fn sanitize_message(s: Seq<char>) -> Seq<char> {
    redact_words_from(redact_dirs_from(redact_drives_from(slashes(s), 0), 0), 0)
}

/// Error handling security utilities.
pub struct ErrorHandler;

impl ErrorHandler {
    /// Detailed reasons are shown only to callers that are both
    /// authenticated and low-threat (score below 50).
    pub fn should_expose_details(threat_score: u32, is_authenticated: bool) -> (r: bool)
        ensures
            r == (is_authenticated && threat_score < 50),
    {
        is_authenticated && threat_score < 50
    }

    /// Strip path separators, drive-letter paths, sensitive directory
    /// paths (with the segment that follows them) and standalone sensitive
    /// directory names from a message before it can reach a caller.
    pub fn sanitize_error_message(message: &str) -> (r: String)
        ensures
            r@ == sanitize_message(message@),
    {
        let chars = to_chars(message);
        let mut normal: Vec<char> = Vec::new();
        let mut i: usize = 0;
        while i < chars.len()
            invariant
                i <= chars@.len(),
                normal@ =~= slashes(chars@).subrange(0, i as int),
            decreases chars@.len() - i,
        {
            let c = chars[i];
            if c == '\\' {
                normal.push('/');
            } else {
                normal.push(c);
            }
            i = i + 1;
        }
        proof {
            assert(normal@ =~= slashes(chars@));
        }
        let pass1 = redact_drives(&normal);
        let pass2 = redact_dirs(&pass1);
        let pass3 = redact_words(&pass2);
        chars_to_string(&pass3)
    }

    /// The generic response for a bare status code.
    pub fn generic_error(request_id: &str, code: u16) -> (r: SafeErrorResponse)
        ensures
            r.request_id@ == request_id@,
            code == 400 ==> r.code@ == "BAD_REQUEST"@,
            code == 401 ==> r.code@ == "UNAUTHORIZED"@,
            code == 403 ==> r.code@ == "FORBIDDEN"@,
            code == 429 ==> r.code@ == "RATE_LIMIT_EXCEEDED"@,
            code == 500 ==> r.code@ == "INTERNAL_ERROR"@,
            code != 400 && code != 401 && code != 403 && code != 429 && code != 500 ==> r.code@
                == "UNKNOWN_ERROR"@,
            r.details is None,
    {
        let (msg, code_str): (&str, &str) = if code == 400 {
            ("Bad Request", "BAD_REQUEST")
        } else if code == 401 {
            ("Unauthorized", "UNAUTHORIZED")
        } else if code == 403 {
            ("Forbidden", "FORBIDDEN")
        } else if code == 429 {
            ("Too Many Requests", "RATE_LIMIT_EXCEEDED")
        } else if code == 500 {
            ("Internal Server Error", "INTERNAL_ERROR")
        } else {
            ("Error", "UNKNOWN_ERROR")
        };
        SafeErrorResponse {
            error: msg.to_owned(),
            code: code_str.to_owned(),
            timestamp: now_rfc3339(),
            request_id: request_id.to_owned(),
            details: None,
        }
    }

    /// The rate-limit response, with the retry hint both in the details
    /// and as a value.
    pub fn rate_limit_error(request_id: &str, retry_after: u64) -> (r: (SafeErrorResponse, u64))
        ensures
            r.1 == retry_after,
            r.0.code@ == "RATE_LIMIT_EXCEEDED"@,
            r.0.request_id@ == request_id@,
            r.0.details matches Some(d) && d@ == "Please retry after "@ + crate::numfmt::dec_digits(
                retry_after as int,
            ) + " seconds"@,
    {
        let mut details = "Please retry after ".to_owned();
        let digits = crate::numfmt::u64_to_string(retry_after);
        details.append(digits.as_str());
        details.append(" seconds");
        let response = SafeErrorResponse {
            error: "Rate limit exceeded".to_owned(),
            code: "RATE_LIMIT_EXCEEDED".to_owned(),
            timestamp: now_rfc3339(),
            request_id: request_id.to_owned(),
            details: Some(details),
        };
        (response, retry_after)
    }
}

/// End of the path-segment run starting at `i`.
fn seg_end_exec(s: &Vec<char>, i: usize) -> (r: usize)
    requires
        i <= s@.len(),
    ensures
        r == seg_end(s@, i as int),
        i <= r <= s@.len(),
    decreases s@.len() - i,
{
    if i < s.len() {
        let c = s[i];
        let ws = c == ' ' || c == '\t' || c == '\n' || c == '\r' || c == '\u{b}' || c
            == '\u{c}';
        if c != '/' && !ws {
            return seg_end_exec(s, i + 1);
        }
    }
    i
}

/// The redaction marker as characters.
fn marker_chars() -> (r: Vec<char>)
    ensures
        r@ == "[REDACTED]"@,
{
    to_chars("[REDACTED]")
}

/// Apply `redact_drives_from` to a character vector.
fn redact_drives(s: &Vec<char>) -> (r: Vec<char>)
    ensures
        r@ == redact_drives_from(s@, 0),
{
    let marker = marker_chars();
    let mut out: Vec<char> = Vec::new();
    let mut i: usize = 0;
    proof {
        assert(out@ + redact_drives_from(s@, 0) =~= redact_drives_from(s@, 0));
    }
    while i < s.len()
        invariant
            i <= s@.len(),
            marker@ == "[REDACTED]"@,
            redact_drives_from(s@, 0) == out@ + redact_drives_from(s@, i as int),
        decreases s@.len() - i,
    {
        let c = s[i];
        let n = s.len();
        if n - i > 2 && (('a' <= c && c <= 'z') || ('A' <= c && c <= 'Z')) && s[i + 1] == ':'
            && s[i + 2] == '/' {
            let ghost pre = out@;
            crate::sanitize::append_all(&mut out, &marker);
            let k = seg_end_exec(s, i + 3);
            proof {
                assert(out@ =~= pre + "[REDACTED]"@);
            }
            i = k;
        } else {
            let ghost pre = out@;
            out.push(c);
            proof {
                assert(out@ =~= pre + seq![c]);
            }
            i = i + 1;
        }
    }
    out
}

/// Does the directory word stand at `i` with a slash right after it?
fn dir_try(s: &Vec<char>, i: usize, w: &Vec<char>) -> (r: bool)
    requires
        i <= s@.len(),
    ensures
        r == dir_word_at(s@, i as int, w@),
{
    let n = s.len();
    if w.len() <= n - i && has_at_exec(s, w, i) && i + w.len() < n && s[i + w.len()] == '/' {
        true
    } else {
        false
    }
}

/// The length of the first listed directory name at `i` followed by a
/// slash, if any.
fn dir_match_exec(s: &Vec<char>, i: usize) -> (r: Option<usize>)
    requires
        i <= s@.len(),
    ensures
        match r {
            Some(l) => dir_match_len(s@, i as int) == l && i + l < s@.len(),
            None => dir_match_len(s@, i as int) == -1,
        },
{
    let w0 = to_chars("home");
    if dir_try(s, i, &w0) {
        return Some(w0.len());
    }
    let w1 = to_chars("Users");
    if dir_try(s, i, &w1) {
        return Some(w1.len());
    }
    let w2 = to_chars("user");
    if dir_try(s, i, &w2) {
        return Some(w2.len());
    }
    let w3 = to_chars("usr");
    if dir_try(s, i, &w3) {
        return Some(w3.len());
    }
    let w4 = to_chars("var");
    if dir_try(s, i, &w4) {
        return Some(w4.len());
    }
    let w5 = to_chars("etc");
    if dir_try(s, i, &w5) {
        return Some(w5.len());
    }
    let w6 = to_chars("root");
    if dir_try(s, i, &w6) {
        return Some(w6.len());
    }
    let w7 = to_chars("opt");
    if dir_try(s, i, &w7) {
        return Some(w7.len());
    }
    None
}

/// Apply `redact_dirs_from` to a character vector.
fn redact_dirs(s: &Vec<char>) -> (r: Vec<char>)
    ensures
        r@ == redact_dirs_from(s@, 0),
{
    let marker = marker_chars();
    let mut out: Vec<char> = Vec::new();
    let mut i: usize = 0;
    proof {
        assert(out@ + redact_dirs_from(s@, 0) =~= redact_dirs_from(s@, 0));
    }
    while i < s.len()
        invariant
            i <= s@.len(),
            marker@ == "[REDACTED]"@,
            redact_dirs_from(s@, 0) == out@ + redact_dirs_from(s@, i as int),
        decreases s@.len() - i,
    {
        let c = s[i];
        let mut matched: Option<usize> = None;
        if c == '/' {
            matched = dir_match_exec(s, i + 1);
        }
        match matched {
            Some(l) => {
                let ghost pre = out@;
                crate::sanitize::append_all(&mut out, &marker);
                let k = seg_end_exec(s, i + 2 + l);
                proof {
                    assert(out@ =~= pre + "[REDACTED]"@);
                }
                i = k;
            },
            None => {
                let ghost pre = out@;
                out.push(c);
                proof {
                    assert(out@ =~= pre + seq![c]);
                }
                i = i + 1;
            },
        }
    }
    out
}

/// Does the directory word stand at `i`, case-insensitively, with a word
/// boundary after it? (The boundary before `i` is the caller's check.)
fn word_try(s: &Vec<char>, i: usize, w: &Vec<char>) -> (r: bool)
    requires
        i <= s@.len(),
    ensures
        r == word_at(s@, i as int, w@),
{
    let n = s.len();
    if w.len() > n - i {
        return false;
    }
    let piece = crate::text::copy_range(s, i, i + w.len());
    let lp = lower_chars(&piece);
    let lw = lower_chars(w);
    if !crate::text::eq_chars(&lp, &lw) {
        return false;
    }
    if i + w.len() == n {
        return true;
    }
    let a = s[i + w.len()];
    let word = ('0' <= a && a <= '9') || ('a' <= a && a <= 'z') || ('A' <= a && a <= 'Z') || a
        == '_';
    !word
}

/// The length of the first listed directory name at `i` with word
/// boundaries on both sides (case-insensitive), if any.
fn word_match_exec(s: &Vec<char>, i: usize) -> (r: Option<usize>)
    requires
        i <= s@.len(),
    ensures
        match r {
            Some(l) => word_match_len(s@, i as int) == l && i + l <= s@.len() && l >= 1,
            None => word_match_len(s@, i as int) == -1,
        },
{
    if i > 0 {
        let p = s[i - 1];
        let word = ('0' <= p && p <= '9') || ('a' <= p && p <= 'z') || ('A' <= p && p <= 'Z')
            || p == '_';
        if word {
            return None;
        }
    }
    proof {
        reveal_strlit("home");
        reveal_strlit("Users");
        reveal_strlit("user");
        reveal_strlit("usr");
        reveal_strlit("var");
        reveal_strlit("etc");
        reveal_strlit("root");
        reveal_strlit("opt");
    }
    let w0 = to_chars("home");
    if word_try(s, i, &w0) {
        return Some(w0.len());
    }
    let w1 = to_chars("Users");
    if word_try(s, i, &w1) {
        return Some(w1.len());
    }
    let w2 = to_chars("user");
    if word_try(s, i, &w2) {
        return Some(w2.len());
    }
    let w3 = to_chars("usr");
    if word_try(s, i, &w3) {
        return Some(w3.len());
    }
    let w4 = to_chars("var");
    if word_try(s, i, &w4) {
        return Some(w4.len());
    }
    let w5 = to_chars("etc");
    if word_try(s, i, &w5) {
        return Some(w5.len());
    }
    let w6 = to_chars("root");
    if word_try(s, i, &w6) {
        return Some(w6.len());
    }
    let w7 = to_chars("opt");
    if word_try(s, i, &w7) {
        return Some(w7.len());
    }
    None
}

/// Apply `redact_words_from` to a character vector.
fn redact_words(s: &Vec<char>) -> (r: Vec<char>)
    ensures
        r@ == redact_words_from(s@, 0),
{
    let marker = marker_chars();
    let mut out: Vec<char> = Vec::new();
    let mut i: usize = 0;
    proof {
        assert(out@ + redact_words_from(s@, 0) =~= redact_words_from(s@, 0));
    }
    while i < s.len()
        invariant
            i <= s@.len(),
            marker@ == "[REDACTED]"@,
            redact_words_from(s@, 0) == out@ + redact_words_from(s@, i as int),
        decreases s@.len() - i,
    {
        match word_match_exec(s, i) {
            Some(l) => {
                let ghost pre = out@;
                crate::sanitize::append_all(&mut out, &marker);
                proof {
                    assert(out@ =~= pre + "[REDACTED]"@);
                }
                i = i + l;
            },
            None => {
                let ghost pre = out@;
                let c = s[i];
                out.push(c);
                proof {
                    assert(out@ =~= pre + seq![c]);
                }
                i = i + 1;
            },
        }
    }
    out
}

} // verus!
