//! The narrow request capability the pipeline needs: method, URI
//! (including query), a header mapping and an optional body-length hint.
//! Adapters for whatever transport library is in use construct this from
//! their own request type, keeping the core transport-agnostic.

use vstd::prelude::*;

use crate::text::{char_idx, lower_seq};
use crate::text::{eq_chars, lower_chars};

verus! {

/// The HTTP protocol version, as far as the pipeline cares.
#[derive(Clone, Copy, Debug, PartialEq, Eq, Structural)]
pub enum HttpVersion {
    Http09,
    Http10,
    Http11,
    Http2,
    Http3,
}

/// An inbound request as the pipeline sees it.
pub struct ApiRequest {
    pub method: String,
    pub uri: String,
    pub version: HttpVersion,
    pub headers: Vec<(String, String)>,
    pub body_length: Option<u64>,
}

/// The first header whose name matches `name` ASCII-case-insensitively,
/// scanned front to back.
pub open spec fn header_lookup(hs: Seq<(String, String)>, name: Seq<char>) -> Option<Seq<char>>
    decreases hs.len(),
{
    if hs.len() == 0 {
        None
    } else if lower_seq(hs[0].0@) == lower_seq(name) {
        Some(hs[0].1@)
    } else {
        header_lookup(hs.drop_first(), name)
    }
}

/// The query part of a URI: everything after the first `?`, if any.
pub open spec fn uri_query(uri: Seq<char>) -> Option<Seq<char>> {
    let j = char_idx(uri, '?', 0);
    if j < 0 {
        None
    } else {
        Some(uri.skip(j + 1))
    }
}

/// The path part of a URI: everything before the first `?`.
pub open spec fn uri_path(uri: Seq<char>) -> Seq<char> {
    let j = char_idx(uri, '?', 0);
    if j < 0 {
        uri
    } else {
        uri.subrange(0, j)
    }
}

impl ApiRequest {
    /// Look a header up by name, ASCII-case-insensitively.
    pub fn get_header(&self, name: &str) -> (r: Option<String>)
        ensures
            match r {
                Some(v) => header_lookup(self.headers@, name@) == Some(v@),
                None => header_lookup(self.headers@, name@) is None,
            },
    {
        let want = lower_chars(&crate::outside::to_chars(name));
        let mut i: usize = 0;
        proof {
            assert(self.headers@.skip(0) =~= self.headers@);
        }
        while i < self.headers.len()
            invariant
                i <= self.headers@.len(),
                want@ == lower_seq(name@),
                header_lookup(self.headers@, name@) == header_lookup(
                    self.headers@.skip(i as int),
                    name@,
                ),
            decreases self.headers@.len() - i,
        {
            proof {
                assert(self.headers@.skip(i as int)[0] == self.headers@[i as int]);
                assert(self.headers@.skip(i as int).drop_first() =~= self.headers@.skip(i + 1));
            }
            let got = lower_chars(&crate::outside::to_chars(self.headers[i].0.as_str()));
            if eq_chars(&got, &want) {
                let v = self.headers[i].1.as_str().to_owned();
                return Some(v);
            }
            i = i + 1;
        }
        proof {
            assert(self.headers@.skip(i as int).len() == 0);
        }
        None
    }

    /// The query string, when the URI has one.
    pub fn query(&self) -> (r: Option<String>)
        ensures
            match r {
                Some(v) => uri_query(self.uri@) == Some(v@),
                None => uri_query(self.uri@) is None,
            },
    {
        let chars = crate::outside::to_chars(self.uri.as_str());
        let n = chars.len();
        match crate::text::find_char(&chars, '?', 0) {
            Some(j) => {
                assert(j < n);
                let piece = crate::text::copy_range(&chars, j + 1, n);
                proof {
                    assert(chars@.subrange(j + 1, chars@.len() as int) =~= chars@.skip(j + 1));
                }
                Some(crate::outside::chars_to_string(&piece))
            },
            None => None,
        }
    }

    /// The path part of the URI, before any query.
    pub fn get_path(&self) -> (r: String)
        ensures
            r@ == uri_path(self.uri@),
    {
        let chars = crate::outside::to_chars(self.uri.as_str());
        match crate::text::find_char(&chars, '?', 0) {
            Some(j) => {
                let piece = crate::text::copy_range(&chars, 0, j);
                crate::outside::chars_to_string(&piece)
            },
            None => crate::outside::chars_to_string(&chars),
        }
    }
}

/// Percent-decode every `%XX` escape (two hexadecimal digits) to the
/// character with that code value; anything else is copied unchanged.
/// This is the single extra decoding pass applied to query strings to
/// catch mixed-encoding evasion; it is deliberately not recursive.
pub open spec fn percent_decode_seq(s: Seq<char>) -> Seq<char>
    decreases s.len(),
{
    if s.len() == 0 {
        Seq::empty()
    } else if s[0] == '%' && s.len() >= 3 && is_hex_char(s[1]) && is_hex_char(s[2]) {
        seq![((hex_val(s[1]) * 16 + hex_val(s[2])) as u8) as char] + percent_decode_seq(
            s.skip(3),
        )
    } else {
        seq![s[0]] + percent_decode_seq(s.skip(1))
    }
}

pub open spec fn is_hex_char(c: char) -> bool {
    ('0' <= c && c <= '9') || ('a' <= c && c <= 'f') || ('A' <= c && c <= 'F')
}

pub open spec fn hex_val(c: char) -> int {
    if '0' <= c && c <= '9' {
        c as int - '0' as int
    } else if 'a' <= c && c <= 'f' {
        c as int - 'a' as int + 10
    } else {
        c as int - 'A' as int + 10
    }
}

/// Percent-decode a character vector.
pub fn percent_decode(s: &Vec<char>) -> (r: Vec<char>)
    ensures
        r@ == percent_decode_seq(s@),
{
    let mut r: Vec<char> = Vec::new();
    let mut i: usize = 0;
    proof {
        assert(s@.skip(0) =~= s@);
        assert(r@ + percent_decode_seq(s@) =~= percent_decode_seq(s@));
    }
    while i < s.len()
        invariant
            i <= s@.len(),
            percent_decode_seq(s@) == r@ + percent_decode_seq(s@.skip(i as int)),
        decreases s@.len() - i,
    {
        let ghost rest = s@.skip(i as int);
        proof {
            assert(rest[0] == s@[i as int]);
            if rest.len() >= 3 {
                assert(rest[1] == s@[i + 1] && rest[2] == s@[i + 2]);
            }
        }
        let c = s[i];
        let mut decoded: Option<char> = None;
        if c == '%' && s.len() - i >= 3 {
            match (hex_digit(s[i + 1]), hex_digit(s[i + 2])) {
                (Some(hi), Some(lo)) => {
                    decoded = Some(((hi * 16 + lo) as u8) as char);
                },
                _ => {},
            }
        }
        match decoded {
            Some(d) => {
                let ghost r0 = r@;
                r.push(d);
                proof {
                    assert(rest.skip(3) =~= s@.skip(i + 3));
                    assert(percent_decode_seq(rest) == seq![d] + percent_decode_seq(
                        rest.skip(3),
                    ));
                    assert(r@ =~= r0 + seq![d]);
                    assert(r0 + (seq![d] + percent_decode_seq(rest.skip(3))) =~= r@
                        + percent_decode_seq(rest.skip(3)));
                }
                i = i + 3;
            },
            None => {
                let ghost r0 = r@;
                r.push(c);
                proof {
                    assert(rest.skip(1) =~= s@.skip(i + 1));
                    assert(percent_decode_seq(rest) == seq![c] + percent_decode_seq(
                        rest.skip(1),
                    ));
                    assert(r@ =~= r0 + seq![c]);
                    assert(r0 + (seq![c] + percent_decode_seq(rest.skip(1))) =~= r@
                        + percent_decode_seq(rest.skip(1)));
                }
                i = i + 1;
            },
        }
    }
    proof {
        assert(s@.skip(i as int) =~= Seq::<char>::empty());
        assert(r@ + percent_decode_seq(s@.skip(i as int)) =~= r@);
    }
    r
}

/// The value of one hexadecimal digit, if it is one.
pub fn hex_digit(c: char) -> (r: Option<u8>)
    ensures
        match r {
            Some(v) => is_hex_char(c) && v == hex_val(c) && v < 16,
            None => !is_hex_char(c),
        },
{
    if '0' <= c && c <= '9' {
        Some(c as u8 - '0' as u8)
    } else if 'a' <= c && c <= 'f' {
        Some(c as u8 - 'a' as u8 + 10)
    } else if 'A' <= c && c <= 'F' {
        Some(c as u8 - 'A' as u8 + 10)
    } else {
        None
    }
}

} // verus!
