//! Output sanitization: null bytes are stripped and the HTML
//! metacharacters `< > " ' &` are replaced by entities. An ampersand that
//! already begins one of the five entities this sanitizer emits is kept as
//! it is, which makes sanitization idempotent: running it twice gives the
//! same string as running it once (proved below).

use vstd::prelude::*;

use crate::outside::to_chars;
use crate::text::has_at;

verus! {

pub open spec fn ent_amp() -> Seq<char> {
    seq!['&', 'a', 'm', 'p', ';']
}

pub open spec fn ent_lt() -> Seq<char> {
    seq!['&', 'l', 't', ';']
}

pub open spec fn ent_gt() -> Seq<char> {
    seq!['&', 'g', 't', ';']
}

pub open spec fn ent_quot() -> Seq<char> {
    seq!['&', 'q', 'u', 'o', 't', ';']
}

pub open spec fn ent_apos() -> Seq<char> {
    seq!['&', '#', 'x', '2', '7', ';']
}

/// What sanitization produces for any input, character by character. An
/// `&` that begins an already-escaped entity is copied whole; any other
/// `&` and every `< > " '` become their entities; null bytes vanish;
/// everything else is copied.
pub open spec fn sanitize_seq(s: Seq<char>) -> Seq<char>
    decreases s.len(),
{
    if s.len() == 0 {
        Seq::empty()
    } else {
        let c = s[0];
        if c == '\u{0}' {
            sanitize_seq(s.skip(1))
        } else if c == '<' {
            ent_lt() + sanitize_seq(s.skip(1))
        } else if c == '>' {
            ent_gt() + sanitize_seq(s.skip(1))
        } else if c == '"' {
            ent_quot() + sanitize_seq(s.skip(1))
        } else if c == '\'' {
            ent_apos() + sanitize_seq(s.skip(1))
        } else if c == '&' {
            if has_at(s, ent_amp(), 0) {
                ent_amp() + sanitize_seq(s.skip(5))
            } else if has_at(s, ent_lt(), 0) {
                ent_lt() + sanitize_seq(s.skip(4))
            } else if has_at(s, ent_gt(), 0) {
                ent_gt() + sanitize_seq(s.skip(4))
            } else if has_at(s, ent_quot(), 0) {
                ent_quot() + sanitize_seq(s.skip(6))
            } else if has_at(s, ent_apos(), 0) {
                ent_apos() + sanitize_seq(s.skip(6))
            } else {
                ent_amp() + sanitize_seq(s.skip(1))
            }
        } else {
            seq![c] + sanitize_seq(s.skip(1))
        }
    }
}

/// A character sanitization never leaves in its output.
pub open spec fn safe_char(c: char) -> bool {
    c != '\u{0}' && c != '<' && c != '>' && c != '"' && c != '\''
}

/// One of the five entities occurs at index `i`.
pub open spec fn entity_at(s: Seq<char>, i: int) -> bool {
    ||| has_at(s, ent_amp(), i)
    ||| has_at(s, ent_lt(), i)
    ||| has_at(s, ent_gt(), i)
    ||| has_at(s, ent_quot(), i)
    ||| has_at(s, ent_apos(), i)
}

/// A sanitized string: only safe characters, and every ampersand begins an
/// entity.
pub open spec fn is_sanitized(s: Seq<char>) -> bool {
    forall|i: int|
        0 <= i < s.len() ==> safe_char(#[trigger] s[i]) && (s[i] == '&' ==> entity_at(s, i))
}

/// Concatenating two sanitized strings gives a sanitized string.
proof fn lemma_concat_sanitized(p: Seq<char>, t: Seq<char>)
    requires
        is_sanitized(p),
        is_sanitized(t),
    ensures
        is_sanitized(p + t),
{
    let u = p + t;
    assert forall|i: int| 0 <= i < u.len() implies safe_char(#[trigger] u[i]) && (u[i] == '&'
        ==> entity_at(u, i)) by {
        if i < p.len() {
            assert(u[i] == p[i]);
            if p[i] == '&' {
                if has_at(p, ent_amp(), i) {
                    assert(u.subrange(i, i + 5) =~= p.subrange(i, i + 5));
                } else if has_at(p, ent_lt(), i) {
                    assert(u.subrange(i, i + 4) =~= p.subrange(i, i + 4));
                } else if has_at(p, ent_gt(), i) {
                    assert(u.subrange(i, i + 4) =~= p.subrange(i, i + 4));
                } else if has_at(p, ent_quot(), i) {
                    assert(u.subrange(i, i + 6) =~= p.subrange(i, i + 6));
                } else {
                    assert(has_at(p, ent_apos(), i));
                    assert(u.subrange(i, i + 6) =~= p.subrange(i, i + 6));
                }
            }
        } else {
            let j = i - p.len();
            assert(u[i] == t[j]);
            if t[j] == '&' {
                if has_at(t, ent_amp(), j) {
                    assert(u.subrange(i, i + 5) =~= t.subrange(j, j + 5));
                } else if has_at(t, ent_lt(), j) {
                    assert(u.subrange(i, i + 4) =~= t.subrange(j, j + 4));
                } else if has_at(t, ent_gt(), j) {
                    assert(u.subrange(i, i + 4) =~= t.subrange(j, j + 4));
                } else if has_at(t, ent_quot(), j) {
                    assert(u.subrange(i, i + 6) =~= t.subrange(j, j + 6));
                } else {
                    assert(has_at(t, ent_apos(), j));
                    assert(u.subrange(i, i + 6) =~= t.subrange(j, j + 6));
                }
            }
        }
    }
}

/// Each entity is itself a sanitized string.
proof fn lemma_entities_sanitized()
    ensures
        is_sanitized(ent_amp()),
        is_sanitized(ent_lt()),
        is_sanitized(ent_gt()),
        is_sanitized(ent_quot()),
        is_sanitized(ent_apos()),
{
    assert(ent_amp().subrange(0, 5) =~= ent_amp());
    assert(ent_lt().subrange(0, 4) =~= ent_lt());
    assert(ent_gt().subrange(0, 4) =~= ent_gt());
    assert(ent_quot().subrange(0, 6) =~= ent_quot());
    assert(ent_apos().subrange(0, 6) =~= ent_apos());
}

/// Sanitization only ever produces sanitized strings.
pub proof fn lemma_sanitize_output_sanitized(s: Seq<char>)
    ensures
        is_sanitized(sanitize_seq(s)),
    decreases s.len(),
{
    lemma_entities_sanitized();
    if s.len() == 0 {
    } else {
        let c = s[0];
        lemma_sanitize_output_sanitized(s.skip(1));
        if c == '\u{0}' {
        } else if c == '<' {
            lemma_concat_sanitized(ent_lt(), sanitize_seq(s.skip(1)));
        } else if c == '>' {
            lemma_concat_sanitized(ent_gt(), sanitize_seq(s.skip(1)));
        } else if c == '"' {
            lemma_concat_sanitized(ent_quot(), sanitize_seq(s.skip(1)));
        } else if c == '\'' {
            lemma_concat_sanitized(ent_apos(), sanitize_seq(s.skip(1)));
        } else if c == '&' {
            if has_at(s, ent_amp(), 0) {
                lemma_sanitize_output_sanitized(s.skip(5));
                lemma_concat_sanitized(ent_amp(), sanitize_seq(s.skip(5)));
            } else if has_at(s, ent_lt(), 0) {
                lemma_sanitize_output_sanitized(s.skip(4));
                lemma_concat_sanitized(ent_lt(), sanitize_seq(s.skip(4)));
            } else if has_at(s, ent_gt(), 0) {
                lemma_sanitize_output_sanitized(s.skip(4));
                lemma_concat_sanitized(ent_gt(), sanitize_seq(s.skip(4)));
            } else if has_at(s, ent_quot(), 0) {
                lemma_sanitize_output_sanitized(s.skip(6));
                lemma_concat_sanitized(ent_quot(), sanitize_seq(s.skip(6)));
            } else if has_at(s, ent_apos(), 0) {
                lemma_sanitize_output_sanitized(s.skip(6));
                lemma_concat_sanitized(ent_apos(), sanitize_seq(s.skip(6)));
            } else {
                lemma_concat_sanitized(ent_amp(), sanitize_seq(s.skip(1)));
            }
        } else {
            assert(is_sanitized(seq![c]));
            lemma_concat_sanitized(seq![c], sanitize_seq(s.skip(1)));
        }
    }
}

/// A suffix of a sanitized string is sanitized.
proof fn lemma_skip_sanitized(t: Seq<char>, k: int)
    requires
        is_sanitized(t),
        0 <= k <= t.len(),
    ensures
        is_sanitized(t.skip(k)),
{
    let u = t.skip(k);
    assert forall|i: int| 0 <= i < u.len() implies safe_char(#[trigger] u[i]) && (u[i] == '&'
        ==> entity_at(u, i)) by {
        assert(u[i] == t[i + k]);
        if u[i] == '&' {
            if has_at(t, ent_amp(), i + k) {
                assert(u.subrange(i, i + 5) =~= t.subrange(i + k, i + k + 5));
            } else if has_at(t, ent_lt(), i + k) {
                assert(u.subrange(i, i + 4) =~= t.subrange(i + k, i + k + 4));
            } else if has_at(t, ent_gt(), i + k) {
                assert(u.subrange(i, i + 4) =~= t.subrange(i + k, i + k + 4));
            } else if has_at(t, ent_quot(), i + k) {
                assert(u.subrange(i, i + 6) =~= t.subrange(i + k, i + k + 6));
            } else {
                assert(has_at(t, ent_apos(), i + k));
                assert(u.subrange(i, i + 6) =~= t.subrange(i + k, i + k + 6));
            }
        }
    }
}

/// A sanitized string is a fixed point of sanitization.
pub proof fn lemma_sanitize_fixed_point(t: Seq<char>)
    requires
        is_sanitized(t),
    ensures
        sanitize_seq(t) == t,
    decreases t.len(),
{
    if t.len() == 0 {
        assert(sanitize_seq(t) =~= t);
    } else {
        let c = t[0];
        assert(safe_char(c));
        if c == '&' {
            assert(entity_at(t, 0));
            if has_at(t, ent_amp(), 0) {
                lemma_skip_sanitized(t, 5);
                lemma_sanitize_fixed_point(t.skip(5));
                assert(ent_amp() + t.skip(5) =~= t);
            } else if has_at(t, ent_lt(), 0) {
                lemma_skip_sanitized(t, 4);
                lemma_sanitize_fixed_point(t.skip(4));
                assert(ent_lt() + t.skip(4) =~= t);
            } else if has_at(t, ent_gt(), 0) {
                lemma_skip_sanitized(t, 4);
                lemma_sanitize_fixed_point(t.skip(4));
                assert(ent_gt() + t.skip(4) =~= t);
            } else if has_at(t, ent_quot(), 0) {
                lemma_skip_sanitized(t, 6);
                lemma_sanitize_fixed_point(t.skip(6));
                assert(ent_quot() + t.skip(6) =~= t);
            } else {
                assert(has_at(t, ent_apos(), 0));
                lemma_skip_sanitized(t, 6);
                lemma_sanitize_fixed_point(t.skip(6));
                assert(ent_apos() + t.skip(6) =~= t);
            }
        } else {
            lemma_skip_sanitized(t, 1);
            lemma_sanitize_fixed_point(t.skip(1));
            assert(seq![c] + t.skip(1) =~= t);
        }
    }
}

/// Sanitizing twice is the same as sanitizing once, for every input.
pub proof fn lemma_sanitize_idempotent(s: Seq<char>)
    ensures
        sanitize_seq(sanitize_seq(s)) == sanitize_seq(s),
{
    lemma_sanitize_output_sanitized(s);
    lemma_sanitize_fixed_point(sanitize_seq(s));
}

/// Sanitize a character vector.
pub fn sanitize_chars(s: &Vec<char>) -> (r: Vec<char>)
    ensures
        r@ == sanitize_seq(s@),
{
    let amp = to_chars("&amp;");
    let lt = to_chars("&lt;");
    let gt = to_chars("&gt;");
    let quot = to_chars("&quot;");
    let apos = to_chars("&#x27;");
    proof {
        reveal_strlit("&amp;");
        reveal_strlit("&lt;");
        reveal_strlit("&gt;");
        reveal_strlit("&quot;");
        reveal_strlit("&#x27;");
        assert(amp@ =~= ent_amp());
        assert(lt@ =~= ent_lt());
        assert(gt@ =~= ent_gt());
        assert(quot@ =~= ent_quot());
        assert(apos@ =~= ent_apos());
    }
    let mut r: Vec<char> = Vec::new();
    let mut i: usize = 0;
    proof {
        assert(s@.skip(0) =~= s@);
        assert(r@ + sanitize_seq(s@) =~= sanitize_seq(s@));
    }
    while i < s.len()
        invariant
            i <= s@.len(),
            amp@ == ent_amp(),
            lt@ == ent_lt(),
            gt@ == ent_gt(),
            quot@ == ent_quot(),
            apos@ == ent_apos(),
            sanitize_seq(s@) == r@ + sanitize_seq(s@.skip(i as int)),
        decreases s@.len() - i,
    {
        let ghost rest = s@.skip(i as int);
        proof {
            assert(rest[0] == s@[i as int]);
        }
        let c = s[i];
        if c == '\u{0}' {
            proof {
                assert(rest.skip(1) =~= s@.skip(i + 1));
            }
            i = i + 1;
        } else if c == '<' {
            append_all(&mut r, &lt);
            proof {
                assert(rest.skip(1) =~= s@.skip(i + 1));
            }
            i = i + 1;
        } else if c == '>' {
            append_all(&mut r, &gt);
            proof {
                assert(rest.skip(1) =~= s@.skip(i + 1));
            }
            i = i + 1;
        } else if c == '"' {
            append_all(&mut r, &quot);
            proof {
                assert(rest.skip(1) =~= s@.skip(i + 1));
            }
            i = i + 1;
        } else if c == '\'' {
            append_all(&mut r, &apos);
            proof {
                assert(rest.skip(1) =~= s@.skip(i + 1));
            }
            i = i + 1;
        } else if c == '&' {
            proof {
                lemma_has_at_skip(s@, ent_amp(), i as int);
                lemma_has_at_skip(s@, ent_lt(), i as int);
                lemma_has_at_skip(s@, ent_gt(), i as int);
                lemma_has_at_skip(s@, ent_quot(), i as int);
                lemma_has_at_skip(s@, ent_apos(), i as int);
            }
            if crate::text::has_at_exec(s, &amp, i) {
                append_all(&mut r, &amp);
                proof {
                    assert(rest.skip(5) =~= s@.skip(i + 5));
                }
                i = i + 5;
            } else if crate::text::has_at_exec(s, &lt, i) {
                append_all(&mut r, &lt);
                proof {
                    assert(rest.skip(4) =~= s@.skip(i + 4));
                }
                i = i + 4;
            } else if crate::text::has_at_exec(s, &gt, i) {
                append_all(&mut r, &gt);
                proof {
                    assert(rest.skip(4) =~= s@.skip(i + 4));
                }
                i = i + 4;
            } else if crate::text::has_at_exec(s, &quot, i) {
                append_all(&mut r, &quot);
                proof {
                    assert(rest.skip(6) =~= s@.skip(i + 6));
                }
                i = i + 6;
            } else if crate::text::has_at_exec(s, &apos, i) {
                append_all(&mut r, &apos);
                proof {
                    assert(rest.skip(6) =~= s@.skip(i + 6));
                }
                i = i + 6;
            } else {
                append_all(&mut r, &amp);
                proof {
                    assert(rest.skip(1) =~= s@.skip(i + 1));
                }
                i = i + 1;
            }
        } else {
            r.push(c);
            proof {
                assert(rest.skip(1) =~= s@.skip(i + 1));
                assert(r@ =~= (r@.drop_last() + seq![c]));
            }
            i = i + 1;
        }
    }
    proof {
        assert(s@.skip(i as int) =~= Seq::<char>::empty());
        assert(r@ =~= r@ + sanitize_seq(s@.skip(i as int)));
    }
    r
}

/// An occurrence at index `i` is an occurrence at the start of the suffix.
proof fn lemma_has_at_skip(s: Seq<char>, pat: Seq<char>, i: int)
    requires
        0 <= i <= s.len(),
    ensures
        has_at(s, pat, i) == has_at(s.skip(i), pat, 0),
{
    if i + pat.len() <= s.len() {
        assert(s.subrange(i, i + pat.len()) =~= s.skip(i).subrange(0, pat.len() as int));
    }
}

/// Push every character of `w` onto `r`.
pub fn append_all(r: &mut Vec<char>, w: &Vec<char>)
    ensures
        final(r)@ == old(r)@ + w@,
{
    let mut k: usize = 0;
    while k < w.len()
        invariant
            k <= w@.len(),
            r@ =~= old(r)@ + w@.subrange(0, k as int),
        decreases w@.len() - k,
    {
        r.push(w[k]);
        k = k + 1;
    }
    assert(r@ =~= old(r)@ + w@);
}

} // verus!
