//! Content-Type validation: format, allow list, charset, and the
//! multipart-bomb guard.

use vstd::prelude::*;

use crate::context::SecurityContext;
use crate::errors::{SecurityError, SecurityResult};
use crate::outside::to_chars;
use crate::request::{header_lookup, ApiRequest};
use crate::text::{
    char_idx, contains_seq, eq_chars, lower_chars, lower_seq, split_char, split_seq, trim_chars,
    trim_seq,
};
use crate::validation::{context_scored, is_invalid_input};

verus! {

/// The base type of a Content-Type header: the part before the first
/// `;`, trimmed.
pub open spec fn base_type(ct: Seq<char>) -> Seq<char> {
    trim_seq(split_seq(ct, ';')[0])
}

/// A structurally valid Content-Type: its base is `type/subtype` with
/// both sides non-empty.
pub open spec fn content_type_format_ok(ct: Seq<char>) -> bool {
    let base = base_type(ct);
    let j = char_idx(base, '/', 0);
    &&& j >= 1
    &&& j + 1 < base.len()
    &&& char_idx(base, '/', j + 1) < 0
}

/// The base type, lower-cased, is on the allow list (also compared
/// lower-cased).
pub open spec fn type_allowed(allowed: Seq<String>, ct: Seq<char>) -> bool {
    exists|i: int|
        0 <= i < allowed.len() && lower_seq(allowed[i]@) == lower_seq(base_type(ct))
}

/// Content-Type validation and enforcement.
pub struct ContentTypeValidator {
    pub enabled: bool,
    pub allowed_types: Vec<String>,
    pub strict_mode: bool,
}

impl ContentTypeValidator {
    /// The six default body types.
    pub fn new() -> (v: Self)
        ensures
            v.enabled,
            !v.strict_mode,
            v.allowed_types@.len() == 6,
            v.allowed_types@[0]@ == "application/json"@,
            v.allowed_types@[1]@ == "application/x-www-form-urlencoded"@,
            v.allowed_types@[2]@ == "multipart/form-data"@,
            v.allowed_types@[3]@ == "text/plain"@,
            v.allowed_types@[4]@ == "text/xml"@,
            v.allowed_types@[5]@ == "application/xml"@,
    {
        let mut allowed: Vec<String> = Vec::new();
        allowed.push("application/json".to_owned());
        allowed.push("application/x-www-form-urlencoded".to_owned());
        allowed.push("multipart/form-data".to_owned());
        allowed.push("text/plain".to_owned());
        allowed.push("text/xml".to_owned());
        allowed.push("application/xml".to_owned());
        ContentTypeValidator { enabled: true, allowed_types: allowed, strict_mode: false }
    }

    /// Only the allow list is accepted, and a body without a declared
    /// Content-Type is rejected.
    pub fn strict(self) -> (v: Self)
        ensures
            v.strict_mode,
            v.enabled == self.enabled,
            v.allowed_types == self.allowed_types,
    {
        let mut v = self;
        v.strict_mode = true;
        v
    }

    /// Add one allowed type if it is not already present.
    pub fn allow_type(self, mime_type: String) -> (v: Self)
        ensures
            v.enabled == self.enabled,
            v.strict_mode == self.strict_mode,
            v.allowed_types@.len() >= self.allowed_types@.len(),
    {
        let mut v = self;
        let mut present = false;
        let want = to_chars(mime_type.as_str());
        let mut i: usize = 0;
        while i < v.allowed_types.len()
            invariant
                i <= v.allowed_types@.len(),
            decreases v.allowed_types@.len() - i,
        {
            let entry = to_chars(v.allowed_types[i].as_str());
            if eq_chars(&entry, &want) {
                present = true;
            }
            i = i + 1;
        }
        if !present {
            v.allowed_types.push(mime_type);
        }
        v
    }

    /// Is the base type on the allow list?
    pub fn is_allowed_type(&self, content_type: &str) -> (r: bool)
        ensures
            r == type_allowed(self.allowed_types@, content_type@),
    {
        let chars = to_chars(content_type);
        let parts = split_char(&chars, ';');
        proof {
            assert(parts@.map_values(|v: Vec<char>| v@)[0] == parts@[0]@);
        }
        let base = trim_chars(&parts[0]);
        let base_l = lower_chars(&base);
        let mut i: usize = 0;
        while i < self.allowed_types.len()
            invariant
                base_l@ == lower_seq(base_type(content_type@)),
                i <= self.allowed_types@.len(),
                forall|j: int|
                    0 <= j < i ==> lower_seq(self.allowed_types@[j]@) != lower_seq(
                        base_type(content_type@),
                    ),
            decreases self.allowed_types@.len() - i,
        {
            let entry = lower_chars(&to_chars(self.allowed_types[i].as_str()));
            if eq_chars(&entry, &base_l) {
                return true;
            }
            i = i + 1;
        }
        false
    }

    /// Is the header's shape `type/subtype`?
    pub fn is_valid_content_type(content_type: &str) -> (r: bool)
        ensures
            r == content_type_format_ok(content_type@),
    {
        let chars = to_chars(content_type);
        let parts = split_char(&chars, ';');
        proof {
            assert(parts@.map_values(|v: Vec<char>| v@)[0] == parts@[0]@);
        }
        let base = trim_chars(&parts[0]);
        let n = base.len();
        match crate::text::find_char(&base, '/', 0) {
            None => false,
            Some(j) => {
                if j < 1 || j + 1 >= n {
                    return false;
                }
                match crate::text::find_char(&base, '/', j + 1) {
                    Some(_) => false,
                    None => true,
                }
            },
        }
    }

    /// Validate the request's Content-Type: only methods with a body are
    /// checked; a missing header is rejected only in strict mode (score
    /// 20); a malformed header scores 20 and a type off the allow list
    /// scores 25. The charset parameter is checked by
    /// `crate::content_type::charset_allowed` (score 15).
    pub fn validate_content_type(&self, req: &ApiRequest, context: &mut SecurityContext) -> (r:
        SecurityResult<()>)
        ensures
            !self.enabled ==> r is Ok && *final(context) == *old(context),
            self.enabled && !(req.method@ == "POST"@ || req.method@ == "PUT"@ || req.method@
                == "PATCH"@) ==> r is Ok && *final(context) == *old(context),
            self.enabled && (req.method@ == "POST"@ || req.method@ == "PUT"@ || req.method@
                == "PATCH"@) ==> match header_lookup(req.headers@, "content-type"@) {
                Option::None => if self.strict_mode {
                    is_invalid_input(r, "Content-Type header required"@, "content-type"@)
                        && context_scored(*old(context), *final(context), 20)
                } else {
                    r is Ok && *final(context) == *old(context)
                },
                Option::Some(ct) => {
                    &&& (!content_type_format_ok(ct) ==> is_invalid_input(
                        r,
                        "Invalid Content-Type format"@,
                        "content-type"@,
                    ) && context_scored(*old(context), *final(context), 20))
                    &&& (content_type_format_ok(ct) && !type_allowed(self.allowed_types@, ct)
                        ==> is_invalid_input(r, "Content-Type not allowed"@, "content-type"@)
                        && context_scored(*old(context), *final(context), 25))
                    &&& (content_type_format_ok(ct) && type_allowed(self.allowed_types@, ct)
                        && !charset_allowed(ct) ==> is_invalid_input(
                        r,
                        "Charset not allowed"@,
                        "content-type-charset"@,
                    ) && context_scored(*old(context), *final(context), 15))
                    &&& (content_type_format_ok(ct) && type_allowed(self.allowed_types@, ct)
                        && charset_allowed(ct) ==> r is Ok && *final(context) == *old(context))
                },
            },
    {
        if !self.enabled {
            return Ok(());
        }
        let m = &req.method;
        let has_body = crate::outside::str_eq(m.as_str(), "POST") || crate::outside::str_eq(
            m.as_str(),
            "PUT",
        ) || crate::outside::str_eq(m.as_str(), "PATCH");
        if !has_body {
            return Ok(());
        }
        let ct = match req.get_header("content-type") {
            None => {
                if self.strict_mode {
                    context.add_threat_score(20);
                    return Err(SecurityError::InvalidInput {
                        reason: "Content-Type header required".to_owned(),
                        field: Some("content-type".to_owned()),
                    });
                }
                return Ok(());
            },
            Some(v) => v,
        };
        if !Self::is_valid_content_type(ct.as_str()) {
            context.add_threat_score(20);
            return Err(SecurityError::InvalidInput {
                reason: "Invalid Content-Type format".to_owned(),
                field: Some("content-type".to_owned()),
            });
        }
        if !self.is_allowed_type(ct.as_str()) {
            context.add_threat_score(25);
            return Err(SecurityError::InvalidInput {
                reason: "Content-Type not allowed".to_owned(),
                field: Some("content-type".to_owned()),
            });
        }
        if !charset_allowed_exec(ct.as_str()) {
            context.add_threat_score(15);
            return Err(SecurityError::InvalidInput {
                reason: "Charset not allowed".to_owned(),
                field: Some("content-type-charset".to_owned()),
            });
        }
        Ok(())
    }

    /// Reject multipart bodies with more boundaries than the configured
    /// ceiling (score 50).
    pub fn check_multipart_bomb(
        &self,
        boundary_count: u32,
        max_parts: u32,
        context: &mut SecurityContext,
    ) -> (r: SecurityResult<()>)
        ensures
            boundary_count <= max_parts ==> r is Ok && *final(context) == *old(context),
            boundary_count > max_parts ==> is_invalid_input(
                r,
                "Too many multipart boundaries"@,
                "multipart-count"@,
            ) && context_scored(*old(context), *final(context), 50),
    {
        if boundary_count > max_parts {
            context.add_threat_score(50);
            return Err(SecurityError::InvalidInput {
                reason: "Too many multipart boundaries".to_owned(),
                field: Some("multipart-count".to_owned()),
            });
        }
        Ok(())
    }
}

/// The charset parameter, when present, names one of the accepted
/// encodings: the first `;`-separated part mentioning `charset`
/// (case-insensitively) must carry `=` followed by one of `utf-8`,
/// `utf-16`, `iso-8859-1` or `us-ascii`, optionally quoted.
pub open spec fn charset_allowed(ct: Seq<char>) -> bool {
    let l = lower_seq(ct);
    !contains_seq(l, "charset"@) || match first_charset_part(split_seq(l, ';')) {
        Option::None => true,
        Option::Some(p) => charset_value_ok(p),
    }
}

/// The first part mentioning `charset`, if any.
pub open spec fn first_charset_part(parts: Seq<Seq<char>>) -> Option<Seq<char>>
    decreases parts.len(),
{
    if parts.len() == 0 {
        None
    } else if contains_seq(parts[0], "charset"@) {
        Some(parts[0])
    } else {
        first_charset_part(parts.drop_first())
    }
}

/// The charset named by a `charset=value` part, unquoted and trimmed, is
/// accepted.
pub open spec fn charset_value_ok(part: Seq<char>) -> bool {
    let j = char_idx(part, '=', 0);
    if j < 0 {
        charset_name_ok(Seq::empty())
    } else {
        let k = char_idx(part, '=', j + 1);
        let seg = if k < 0 {
            part.skip(j + 1)
        } else {
            part.subrange(j + 1, k)
        };
        charset_name_ok(unquote(trim_seq(seg)))
    }
}

pub open spec fn charset_name_ok(name: Seq<char>) -> bool {
    name == "utf-8"@ || name == "utf-16"@ || name == "iso-8859-1"@ || name == "us-ascii"@
}

/// Strip one layer of surrounding double quotes.
pub open spec fn unquote(s: Seq<char>) -> Seq<char> {
    if s.len() >= 2 && s[0] == '"' && s[s.len() - 1] == '"' {
        s.subrange(1, s.len() - 1)
    } else {
        s
    }
}

/// Decide `charset_allowed` for a header value.
fn charset_allowed_exec(ct: &str) -> (r: bool)
    ensures
        r == charset_allowed(ct@),
{
    let l = lower_chars(&to_chars(ct));
    let needle = to_chars("charset");
    if !crate::text::contains_chars(&l, &needle) {
        return true;
    }
    let parts = split_char(&l, ';');
    let ghost pv = split_seq(lower_seq(ct@), ';');
    let mut i: usize = 0;
    let mut part: Option<usize> = None;
    proof {
        assert(pv.skip(0) =~= pv);
    }
    while i < parts.len() && part.is_none()
        invariant
            parts@.map_values(|v: Vec<char>| v@) == pv,
            i <= pv.len(),
            needle@ == "charset"@,
            match part {
                Some(k) => k < pv.len() && first_charset_part(pv) == Some(pv[k as int]),
                None => first_charset_part(pv) == first_charset_part(pv.skip(i as int)),
            },
        decreases pv.len() - i,
    {
        proof {
            assert(pv.skip(i as int)[0] == pv[i as int]);
            assert(pv.skip(i as int).drop_first() =~= pv.skip(i + 1));
            assert(parts@.map_values(|v: Vec<char>| v@)[i as int] == parts@[i as int]@);
        }
        if crate::text::contains_chars(&parts[i], &needle) {
            part = Some(i);
        }
        i = i + 1;
    }
    match part {
        None => {
            proof {
                assert(pv.skip(i as int).len() == 0);
            }
            true
        },
        Some(k) => {
            proof {
                assert(parts@.map_values(|v: Vec<char>| v@)[k as int] == parts@[k as int]@);
            }
            charset_part_ok(&parts[k])
        },
    }
}

/// Decide `charset_value_ok` for one part.
fn charset_part_ok(part: &Vec<char>) -> (r: bool)
    ensures
        r == charset_value_ok(part@),
{
    let n = part.len();
    match crate::text::find_char(part, '=', 0) {
        None => charset_name_allowed(&Vec::new()),
        Some(j) => {
            let value = match crate::text::find_char(part, '=', j + 1) {
                None => {
                    let v = crate::text::copy_range(part, j + 1, n);
                    proof {
                        assert(v@ =~= part@.skip(j + 1));
                    }
                    v
                },
                Some(k) => crate::text::copy_range(part, j + 1, k),
            };
            let trimmed = trim_chars(&value);
            let unq = unquote_exec(&trimmed);
            charset_name_allowed(&unq)
        },
    }
}

/// Strip one layer of surrounding double quotes.
fn unquote_exec(s: &Vec<char>) -> (r: Vec<char>)
    ensures
        r@ == unquote(s@),
{
    if s.len() >= 2 {
        let n = s.len();
        if s[0] == '"' && s[n - 1] == '"' {
            return crate::text::copy_range(s, 1, n - 1);
        }
    }
    crate::text::copy_vec(s)
}

/// Is this (already lower-cased) charset name accepted?
fn charset_name_allowed(name: &Vec<char>) -> (r: bool)
    ensures
        r == charset_name_ok(name@),
{
    eq_chars(name, &to_chars("utf-8")) || eq_chars(name, &to_chars("utf-16")) || eq_chars(
        name,
        &to_chars("iso-8859-1"),
    ) || eq_chars(name, &to_chars("us-ascii"))
}

impl Default for ContentTypeValidator {
    fn default() -> (v: Self)
        ensures
            v.enabled,
            !v.strict_mode,
    {
        Self::new()
    }
}

} // verus!
