//! The attack-pattern catalogue: for each injection family, the exact list
//! of rules the engine enforces, stated at the specification level, and
//! verified builders for the executable rule tables. A category matches an
//! input exactly when one of its rules does, and each rule is a token
//! pattern from `crate::pattern`, case-insensitive where marked.

use vstd::prelude::*;

use crate::outside::to_chars;
use crate::pattern::{any_rule_matches, pat_found, Rule, SpecTok, Tok};
use crate::text::lower_seq;

verus! {

/// A category at the specification level: each entry is a rule, the flag
/// saying whether the pattern applies to the lower-cased input.
pub open spec fn spec_rule_of(r: Rule) -> (bool, Seq<SpecTok>) {
    (r.ci, r.toks@.map_values(|t: Tok| t@))
}

pub open spec fn rules_view(rules: Seq<Rule>) -> Seq<(bool, Seq<SpecTok>)> {
    rules.map_values(|r: Rule| spec_rule_of(r))
}

/// Whether one specification-level rule matches the input `s`.
pub open spec fn cat_rule_matches(cr: (bool, Seq<SpecTok>), s: Seq<char>) -> bool {
    if cr.0 {
        pat_found(cr.1, lower_seq(s))
    } else {
        pat_found(cr.1, s)
    }
}

/// Whether any rule of a specification-level category matches `s`.
pub open spec fn category_match(cat: Seq<(bool, Seq<SpecTok>)>, s: Seq<char>) -> bool {
    exists|r: int| 0 <= r < cat.len() && cat_rule_matches(cat[r], s)
}

/// An executable rule table with the given specification-level view
/// matches exactly when the category does.
pub proof fn lemma_rules_match_category(rules: Seq<Rule>, cat: Seq<(bool, Seq<SpecTok>)>, s: Seq<
    char,
>)
    requires
        rules_view(rules) == cat,
    ensures
        any_rule_matches(rules, s) == category_match(cat, s),
{
    assert forall|r: int| 0 <= r < rules.len() implies crate::pattern::rule_matches(&rules[r], s)
        == cat_rule_matches(cat[r], s) by {
        assert(cat[r] == spec_rule_of(rules[r]));
    }
    if any_rule_matches(rules, s) {
        let r = choose|r: int| 0 <= r < rules.len() && crate::pattern::rule_matches(&rules[r], s);
        assert(cat_rule_matches(cat[r], s));
    }
    if category_match(cat, s) {
        let r = choose|r: int| 0 <= r < cat.len() && cat_rule_matches(cat[r], s);
        assert(crate::pattern::rule_matches(&rules[r], s));
    }
}

/// A rule that fires when the input contains the literal `w`.
pub open spec fn contains_rule(ci: bool, w: Seq<char>) -> (bool, Seq<SpecTok>) {
    (ci, seq![SpecTok::Lit(w)])
}

/// A rule that fires on `a`, optional whitespace, then `b`.
pub open spec fn pair_rule(ci: bool, a: Seq<char>, b: Seq<char>) -> (bool, Seq<SpecTok>) {
    (ci, seq![SpecTok::Lit(a), SpecTok::Ws0, SpecTok::Lit(b)])
}

/// A rule that fires on `a`, at least one whitespace character, then `b`.
pub open spec fn pair_ws1_rule(ci: bool, a: Seq<char>, b: Seq<char>) -> (bool, Seq<SpecTok>) {
    (ci, seq![SpecTok::Lit(a), SpecTok::Ws1, SpecTok::Lit(b)])
}

/// A rule that fires on `a` followed, at least `gap` characters later, by
/// `b`.
pub open spec fn find_rule(ci: bool, a: Seq<char>, b: Seq<char>, gap: nat) -> (
    bool,
    Seq<SpecTok>,
) {
    (ci, seq![SpecTok::Lit(a), SpecTok::FindLit(b, gap)])
}

/// Build a `contains_rule`.
pub fn mk_contains(ci: bool, w: &str) -> (r: Rule)
    ensures
        spec_rule_of(r) == contains_rule(ci, w@),
{
    let mut toks: Vec<Tok> = Vec::new();
    toks.push(Tok::Lit(to_chars(w)));
    let r = Rule { ci, toks };
    assert(r.toks@.map_values(|t: Tok| t@) =~= seq![SpecTok::Lit(w@)]);
    r
}

/// Build a `pair_rule`.
pub fn mk_pair(ci: bool, a: &str, b: &str) -> (r: Rule)
    ensures
        spec_rule_of(r) == pair_rule(ci, a@, b@),
{
    let mut toks: Vec<Tok> = Vec::new();
    toks.push(Tok::Lit(to_chars(a)));
    toks.push(Tok::Ws0);
    toks.push(Tok::Lit(to_chars(b)));
    let r = Rule { ci, toks };
    assert(r.toks@.map_values(|t: Tok| t@) =~= seq![
        SpecTok::Lit(a@),
        SpecTok::Ws0,
        SpecTok::Lit(b@),
    ]);
    r
}

/// Build a `pair_ws1_rule`.
pub fn mk_pair_ws1(ci: bool, a: &str, b: &str) -> (r: Rule)
    ensures
        spec_rule_of(r) == pair_ws1_rule(ci, a@, b@),
{
    let mut toks: Vec<Tok> = Vec::new();
    toks.push(Tok::Lit(to_chars(a)));
    toks.push(Tok::Ws1);
    toks.push(Tok::Lit(to_chars(b)));
    let r = Rule { ci, toks };
    assert(r.toks@.map_values(|t: Tok| t@) =~= seq![
        SpecTok::Lit(a@),
        SpecTok::Ws1,
        SpecTok::Lit(b@),
    ]);
    r
}

/// A rule that fires on `a` at a leading word boundary followed, at least
/// `gap` characters later, by `b`.
pub open spec fn anchored_find_rule(ci: bool, a: Seq<char>, b: Seq<char>, gap: nat) -> (
    bool,
    Seq<SpecTok>,
) {
    (ci, seq![SpecTok::NoWordBefore, SpecTok::Lit(a), SpecTok::FindLit(b, gap)])
}

/// Build an `anchored_find_rule`.
pub fn mk_anchored_find(ci: bool, a: &str, b: &str, gap: usize) -> (r: Rule)
    ensures
        spec_rule_of(r) == anchored_find_rule(ci, a@, b@, gap as nat),
{
    let mut toks: Vec<Tok> = Vec::new();
    toks.push(Tok::NoWordBefore);
    toks.push(Tok::Lit(to_chars(a)));
    toks.push(Tok::FindLit(to_chars(b), gap));
    let r = Rule { ci, toks };
    assert(r.toks@.map_values(|t: Tok| t@) =~= seq![
        SpecTok::NoWordBefore,
        SpecTok::Lit(a@),
        SpecTok::FindLit(b@, gap as nat),
    ]);
    r
}

/// Build a `find_rule`.
pub fn mk_find(ci: bool, a: &str, b: &str, gap: usize) -> (r: Rule)
    ensures
        spec_rule_of(r) == find_rule(ci, a@, b@, gap as nat),
{
    let mut toks: Vec<Tok> = Vec::new();
    toks.push(Tok::Lit(to_chars(a)));
    toks.push(Tok::FindLit(to_chars(b), gap));
    let r = Rule { ci, toks };
    assert(r.toks@.map_values(|t: Tok| t@) =~= seq![
        SpecTok::Lit(a@),
        SpecTok::FindLit(b@, gap as nat),
    ]);
    r
}

} // verus!
