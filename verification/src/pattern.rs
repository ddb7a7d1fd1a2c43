//! A small verified matcher for the attack-pattern rules. A pattern is a
//! sequence of tokens matched left to right with greedy, deterministic
//! semantics: a whitespace or digit run always extends as far as it can,
//! an optional character is taken whenever present, and a `FindLit` token
//! jumps to the first occurrence of its literal. Each rule of the
//! validation engine is one such pattern, possibly applied to the
//! case-folded input.

use vstd::prelude::*;

use crate::text::{
    find_idx, has_at, is_digit_char, is_lower_alpha_char, is_ws_char, lower_seq,
};
use crate::text::{find_from, has_at_exec, one_of};

verus! {

/// One token of a pattern, at the specification level.
pub enum SpecTok {
    /// The literal character sequence, exactly.
    Lit(Seq<char>),
    /// A possibly empty whitespace run (greedy).
    Ws0,
    /// A whitespace run of at least one character (greedy).
    Ws1,
    /// The character if present, else nothing (greedy).
    OptChar(char),
    /// A digit run of at least one digit (greedy).
    Digits1,
    /// A run of at least one lower-case ASCII letter (greedy).
    LowerAlpha1,
    /// Exactly one character out of the given set.
    OneOf(Seq<char>),
    /// Skip to the first occurrence of the literal that starts at least
    /// `gap` characters ahead, then continue after it.
    FindLit(Seq<char>, nat),
    /// Skip to the first later character out of the given set, then
    /// continue after it.
    FindOneOf(Seq<char>),
    /// Matches nothing, but only where no word character (alphanumeric or
    /// underscore) stands immediately before: a leading word boundary.
    NoWordBefore,
}

/// One token of a pattern, as executable data.
pub enum Tok {
    Lit(Vec<char>),
    Ws0,
    Ws1,
    OptChar(char),
    Digits1,
    LowerAlpha1,
    OneOf(Vec<char>),
    FindLit(Vec<char>, usize),
    FindOneOf(Vec<char>),
    NoWordBefore,
}

impl View for Tok {
    type V = SpecTok;

    open spec fn view(&self) -> SpecTok {
        match self {
            Tok::Lit(w) => SpecTok::Lit(w@),
            Tok::Ws0 => SpecTok::Ws0,
            Tok::Ws1 => SpecTok::Ws1,
            Tok::OptChar(c) => SpecTok::OptChar(*c),
            Tok::Digits1 => SpecTok::Digits1,
            Tok::LowerAlpha1 => SpecTok::LowerAlpha1,
            Tok::OneOf(cs) => SpecTok::OneOf(cs@),
            Tok::FindLit(w, g) => SpecTok::FindLit(w@, *g as nat),
            Tok::FindOneOf(cs) => SpecTok::FindOneOf(cs@),
            Tok::NoWordBefore => SpecTok::NoWordBefore,
        }
    }
}

/// End of the whitespace run that starts at `i`: the first index at or
/// after `i` holding a non-whitespace character, or the end of `s`.
pub open spec fn ws_end(s: Seq<char>, i: int) -> int
    decreases s.len() - i,
{
    if 0 <= i && i < s.len() && is_ws_char(s[i]) {
        ws_end(s, i + 1)
    } else {
        i
    }
}

/// End of the digit run that starts at `i`.
pub open spec fn digits_end(s: Seq<char>, i: int) -> int
    decreases s.len() - i,
{
    if 0 <= i && i < s.len() && is_digit_char(s[i]) {
        digits_end(s, i + 1)
    } else {
        i
    }
}

/// End of the lower-case-letter run that starts at `i`.
pub open spec fn lower_alpha_end(s: Seq<char>, i: int) -> int
    decreases s.len() - i,
{
    if 0 <= i && i < s.len() && is_lower_alpha_char(s[i]) {
        lower_alpha_end(s, i + 1)
    } else {
        i
    }
}

/// First index `j >= i` at which `s` holds a character out of `set`, or
/// -1 if there is none.
pub open spec fn find_one_of_idx(s: Seq<char>, set: Seq<char>, i: int) -> int
    decreases s.len() - i + 1,
{
    if i < 0 || i >= s.len() {
        -1
    } else if set.contains(s[i]) {
        i
    } else {
        find_one_of_idx(s, set, i + 1)
    }
}

/// The tokens of `pat` from position `k` on match `s` starting at index
/// `i`, under the greedy semantics described at the top of this module.
pub open spec fn toks_match_at(pat: Seq<SpecTok>, k: int, s: Seq<char>, i: int) -> bool
    decreases pat.len() - k,
{
    if k < 0 || k >= pat.len() {
        true
    } else {
        match pat[k] {
            SpecTok::Lit(w) => has_at(s, w, i) && toks_match_at(pat, k + 1, s, i + w.len()),
            SpecTok::Ws0 => toks_match_at(pat, k + 1, s, ws_end(s, i)),
            SpecTok::Ws1 => 0 <= i && i < s.len() && is_ws_char(s[i]) && toks_match_at(
                pat,
                k + 1,
                s,
                ws_end(s, i),
            ),
            SpecTok::OptChar(c) => if 0 <= i && i < s.len() && s[i] == c {
                toks_match_at(pat, k + 1, s, i + 1)
            } else {
                toks_match_at(pat, k + 1, s, i)
            },
            SpecTok::Digits1 => 0 <= i && i < s.len() && is_digit_char(s[i]) && toks_match_at(
                pat,
                k + 1,
                s,
                digits_end(s, i),
            ),
            SpecTok::LowerAlpha1 => 0 <= i && i < s.len() && is_lower_alpha_char(s[i])
                && toks_match_at(pat, k + 1, s, lower_alpha_end(s, i)),
            SpecTok::OneOf(cs) => 0 <= i && i < s.len() && cs.contains(s[i]) && toks_match_at(
                pat,
                k + 1,
                s,
                i + 1,
            ),
            SpecTok::FindLit(w, g) => {
                let j = find_idx(s, w, i + g);
                j >= 0 && toks_match_at(pat, k + 1, s, j + w.len())
            },
            SpecTok::FindOneOf(cs) => {
                let j = find_one_of_idx(s, cs, i);
                j >= 0 && toks_match_at(pat, k + 1, s, j + 1)
            },
            SpecTok::NoWordBefore => (i <= 0 || i > s.len() || !crate::text::is_word_char(
                s[i - 1],
            )) && toks_match_at(pat, k + 1, s, i),
        }
    }
}

/// The pattern matches somewhere in `s`.
pub open spec fn pat_found(pat: Seq<SpecTok>, s: Seq<char>) -> bool {
    exists|i: int| 0 <= i <= s.len() && toks_match_at(pat, 0, s, i)
}

/// One rule of a validation category: a pattern, applied to the ASCII
/// lower-cased input when `ci` is set and to the raw input otherwise.
pub struct Rule {
    pub ci: bool,
    pub toks: Vec<Tok>,
}

/// The rule's pattern at the specification level.
pub open spec fn rule_view(r: &Rule) -> Seq<SpecTok> {
    r.toks@.map_values(|t: Tok| t@)
}

/// Whether one rule matches the input `s`.
pub open spec fn rule_matches(r: &Rule, s: Seq<char>) -> bool {
    if r.ci {
        pat_found(rule_view(r), lower_seq(s))
    } else {
        pat_found(rule_view(r), s)
    }
}

/// Whether any rule of a category matches the input `s`.
pub open spec fn any_rule_matches(rules: Seq<Rule>, s: Seq<char>) -> bool {
    exists|r: int| 0 <= r < rules.len() && rule_matches(&rules[r], s)
}

/// Advance past the whitespace run starting at `i`.
pub fn ws_end_exec(s: &Vec<char>, i: usize) -> (r: usize)
    requires
        i <= s@.len(),
    ensures
        r == ws_end(s@, i as int),
        i <= r <= s@.len(),
    decreases s@.len() - i,
{
    if i < s.len() {
        let c = s[i];
        if c == ' ' || c == '\t' || c == '\n' || c == '\r' || c == '\u{b}' || c == '\u{c}' {
            return ws_end_exec(s, i + 1);
        }
    }
    i
}

/// Advance past the digit run starting at `i`.
pub fn digits_end_exec(s: &Vec<char>, i: usize) -> (r: usize)
    requires
        i <= s@.len(),
    ensures
        r == digits_end(s@, i as int),
        i <= r <= s@.len(),
    decreases s@.len() - i,
{
    if i < s.len() {
        let c = s[i];
        if '0' <= c && c <= '9' {
            return digits_end_exec(s, i + 1);
        }
    }
    i
}

/// Advance past the lower-case-letter run starting at `i`.
pub fn lower_alpha_end_exec(s: &Vec<char>, i: usize) -> (r: usize)
    requires
        i <= s@.len(),
    ensures
        r == lower_alpha_end(s@, i as int),
        i <= r <= s@.len(),
    decreases s@.len() - i,
{
    if i < s.len() {
        let c = s[i];
        if 'a' <= c && c <= 'z' {
            return lower_alpha_end_exec(s, i + 1);
        }
    }
    i
}

/// Match the tokens of `pat` from position `k` on against `s` at index `i`.
pub fn toks_match_at_exec(pat: &Vec<Tok>, k: usize, s: &Vec<char>, i: usize) -> (r: bool)
    requires
        k <= pat@.len(),
        i <= s@.len(),
    ensures
        r == toks_match_at(rule_toks_view(pat), k as int, s@, i as int),
    decreases pat@.len() - k,
{
    if k >= pat.len() {
        return true;
    }
    match &pat[k] {
        Tok::Lit(w) => {
            if !has_at_exec(s, w, i) {
                return false;
            }
            let n = s.len();
            assert(i + w@.len() <= n);
            toks_match_at_exec(pat, k + 1, s, i + w.len())
        },
        Tok::Ws0 => {
            let j = ws_end_exec(s, i);
            toks_match_at_exec(pat, k + 1, s, j)
        },
        Tok::Ws1 => {
            if i < s.len() {
                let c = s[i];
                if c == ' ' || c == '\t' || c == '\n' || c == '\r' || c == '\u{b}' || c
                    == '\u{c}' {
                    let j = ws_end_exec(s, i);
                    return toks_match_at_exec(pat, k + 1, s, j);
                }
            }
            false
        },
        Tok::OptChar(c) => {
            if i < s.len() && s[i] == *c {
                toks_match_at_exec(pat, k + 1, s, i + 1)
            } else {
                toks_match_at_exec(pat, k + 1, s, i)
            }
        },
        Tok::Digits1 => {
            if i < s.len() {
                let c = s[i];
                if '0' <= c && c <= '9' {
                    let j = digits_end_exec(s, i);
                    return toks_match_at_exec(pat, k + 1, s, j);
                }
            }
            false
        },
        Tok::LowerAlpha1 => {
            if i < s.len() {
                let c = s[i];
                if 'a' <= c && c <= 'z' {
                    let j = lower_alpha_end_exec(s, i);
                    return toks_match_at_exec(pat, k + 1, s, j);
                }
            }
            false
        },
        Tok::OneOf(cs) => {
            if i < s.len() && one_of(s[i], cs) {
                toks_match_at_exec(pat, k + 1, s, i + 1)
            } else {
                false
            }
        },
        Tok::NoWordBefore => {
            if i == 0 {
                toks_match_at_exec(pat, k + 1, s, i)
            } else {
                let c = s[i - 1];
                let word = ('0' <= c && c <= '9') || ('a' <= c && c <= 'z') || ('A' <= c && c
                    <= 'Z') || c == '_';
                if word {
                    false
                } else {
                    toks_match_at_exec(pat, k + 1, s, i)
                }
            }
        },
        Tok::FindOneOf(cs) => {
            let n = s.len();
            match find_one_of_from(s, cs, i) {
                Some(j) => {
                    assert(j < n);
                    toks_match_at_exec(pat, k + 1, s, j + 1)
                },
                None => false,
            }
        },
        Tok::FindLit(w, g) => {
            if *g > s.len() - i {
                assert(find_idx(s@, w@, i + *g as int) == -1);
                return false;
            }
            match find_from(s, w, i + *g) {
                Some(j) => toks_match_at_exec(pat, k + 1, s, j + w.len()),
                None => false,
            }
        },
    }
}

/// First index at or after `from` holding a character out of `set`.
pub fn find_one_of_from(s: &Vec<char>, set: &Vec<char>, from: usize) -> (r: Option<usize>)
    requires
        from <= s@.len(),
    ensures
        match r {
            Some(j) => find_one_of_idx(s@, set@, from as int) == j && j < s@.len(),
            None => find_one_of_idx(s@, set@, from as int) == -1,
        },
{
    let mut i: usize = from;
    while i < s.len()
        invariant
            from <= i <= s@.len(),
            find_one_of_idx(s@, set@, from as int) == find_one_of_idx(s@, set@, i as int),
        decreases s.len() - i,
    {
        if one_of(s[i], set) {
            return Some(i);
        }
        i = i + 1;
    }
    None
}

/// The token vector's pattern at the specification level.
pub open spec fn rule_toks_view(toks: &Vec<Tok>) -> Seq<SpecTok> {
    toks@.map_values(|t: Tok| t@)
}

/// Does the pattern match anywhere in `s`?
pub fn pattern_found_exec(pat: &Vec<Tok>, s: &Vec<char>) -> (r: bool)
    ensures
        r == pat_found(rule_toks_view(pat), s@),
{
    let mut i: usize = 0;
    while i < s.len()
        invariant
            i <= s@.len(),
            forall|j: int| 0 <= j < i ==> !toks_match_at(rule_toks_view(pat), 0, s@, j),
        decreases s.len() - i,
    {
        if toks_match_at_exec(pat, 0, s, i) {
            return true;
        }
        i = i + 1;
    }
    if toks_match_at_exec(pat, 0, s, i) {
        return true;
    }
    false
}

/// Does the rule match the input, given the raw input and its lower-cased
/// form?
pub fn rule_matches_exec(r: &Rule, raw: &Vec<char>, lowered: &Vec<char>) -> (b: bool)
    requires
        lowered@ == lower_seq(raw@),
    ensures
        b == rule_matches(r, raw@),
{
    if r.ci {
        pattern_found_exec(&r.toks, lowered)
    } else {
        pattern_found_exec(&r.toks, raw)
    }
}

/// Does any rule of the category match the input?
pub fn any_rule_matches_exec(rules: &Vec<Rule>, raw: &Vec<char>, lowered: &Vec<char>) -> (b:
    bool)
    requires
        lowered@ == lower_seq(raw@),
    ensures
        b == any_rule_matches(rules@, raw@),
{
    let mut r: usize = 0;
    while r < rules.len()
        invariant
            r <= rules@.len(),
            lowered@ == lower_seq(raw@),
            forall|j: int| 0 <= j < r ==> !rule_matches(&rules@[j], raw@),
        decreases rules.len() - r,
    {
        if rule_matches_exec(&rules[r], raw, lowered) {
            return true;
        }
        r = r + 1;
    }
    false
}

} // verus!
