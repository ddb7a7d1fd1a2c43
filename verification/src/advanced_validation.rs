//! Advanced input validation for the second, optional pass of pattern
//! families: XXE, NoSQL injection, LDAP injection, header injection and
//! template injection. Each check reports `InvalidInput` with its own
//! field name and score weight on the first matching rule.

use vstd::prelude::*;

use crate::catalog::{
    category_match, contains_rule, find_rule, lemma_rules_match_category, mk_contains, mk_find,
    mk_pair, rules_view, spec_rule_of,
};
use crate::context::SecurityContext;
use crate::errors::{SecurityError, SecurityResult};
use crate::outside::to_chars;
use crate::pattern::{any_rule_matches_exec, Rule, SpecTok, Tok};
use crate::text::lower_chars;
use crate::validation::context_scored;

verus! {

/// The XXE category: DOCTYPE or ENTITY declarations reaching SYSTEM,
/// parameter entities, and file URLs in system identifiers, all checked
/// case-insensitively.
pub open spec fn xxe_category() -> Seq<(bool, Seq<SpecTok>)> {
    seq![
        find_rule(true, "<!doctype"@, "system"@, 0),
        find_rule(true, "<!entity"@, "system"@, 0),
        (
            true,
            seq![
                SpecTok::Lit("<!entity"@),
                SpecTok::Ws1,
                SpecTok::Lit(seq!['%']),
            ],
        ),
        (
            true,
            seq![
                SpecTok::Lit("system"@),
                SpecTok::Ws0,
                SpecTok::OneOf(seq!['"', '\'']),
                SpecTok::Lit("file://"@),
            ],
        ),
    ]
}

/// The NoSQL-injection category: operator keys after `{` or `,` or `[`,
/// and the `$where`/`$regex` operators.
pub open spec fn nosql_category() -> Seq<(bool, Seq<SpecTok>)> {
    seq![
        (
            false,
            seq![
                SpecTok::OneOf(seq!['{', ',']),
                SpecTok::Ws0,
                SpecTok::OptChar('"'),
                SpecTok::Lit(seq!['$']),
                SpecTok::LowerAlpha1,
                SpecTok::OptChar('"'),
                SpecTok::Ws0,
                SpecTok::Lit(seq![':']),
            ],
        ),
        (
            true,
            seq![
                SpecTok::Lit(seq!['{']),
                SpecTok::Ws0,
                SpecTok::OptChar('"'),
                SpecTok::Lit("$where"@),
            ],
        ),
        find_rule(true, "{"@, "$regex"@, 0),
        (true, seq![SpecTok::Lit(seq!['[']), SpecTok::Ws0, SpecTok::Lit(seq!['$'])]),
    ]
}

/// The LDAP-injection category: two filter metacharacters in sequence or
/// anywhere apart, and the wildcard-close pair.
pub open spec fn ldap_category() -> Seq<(bool, Seq<SpecTok>)> {
    seq![
        (
            false,
            seq![
                SpecTok::OneOf(seq!['*', '(', ')', '&', '|']),
                SpecTok::FindOneOf(seq!['*', '(', ')', '&', '|']),
            ],
        ),
        contains_rule(false, "*)"@),
        (
            false,
            seq![SpecTok::OneOf(seq!['*', '(', ')']), SpecTok::OneOf(seq!['*', '(', ')'])],
        ),
    ]
}

/// The header-injection category: raw CR or LF, URL-encoded CRLF and the
/// encoded null byte.
pub open spec fn header_injection_category() -> Seq<(bool, Seq<SpecTok>)> {
    seq![
        (false, seq![SpecTok::OneOf(seq!['\r', '\n'])]),
        (true, seq![SpecTok::Lit("%0"@), SpecTok::OneOf(seq!['a', 'd'])]),
        contains_rule(true, "%00"@),
    ]
}

/// The template-injection category: the common template-expression
/// delimiters with their closers.
pub open spec fn template_category() -> Seq<(bool, Seq<SpecTok>)> {
    seq![
        find_rule(false, "{{"@, "}}"@, 0),
        find_rule(false, "{%"@, "%}"@, 0),
        find_rule(false, "<%"@, "%>"@, 0),
        find_rule(false, "${"@, "}"@, 0),
        find_rule(false, "[#"@, "]"@, 0),
    ]
}

pub open spec fn xxe_match(s: Seq<char>) -> bool {
    category_match(xxe_category(), s)
}

pub open spec fn nosql_match(s: Seq<char>) -> bool {
    category_match(nosql_category(), s)
}

pub open spec fn ldap_match(s: Seq<char>) -> bool {
    category_match(ldap_category(), s)
}

pub open spec fn header_injection_match(s: Seq<char>) -> bool {
    category_match(header_injection_category(), s)
}

pub open spec fn template_match(s: Seq<char>) -> bool {
    category_match(template_category(), s)
}

/// Advanced input validation for complex attack patterns.
pub struct AdvancedValidator {
    pub xxe_rules: Vec<Rule>,
    pub nosql_rules: Vec<Rule>,
    pub ldap_rules: Vec<Rule>,
    pub header_injection_rules: Vec<Rule>,
    pub template_injection_rules: Vec<Rule>,
}

impl AdvancedValidator {
    /// The stored tables are exactly the documented categories.
    pub open spec fn wf(&self) -> bool {
        &&& rules_view(self.xxe_rules@) == xxe_category()
        &&& rules_view(self.nosql_rules@) == nosql_category()
        &&& rules_view(self.ldap_rules@) == ldap_category()
        &&& rules_view(self.header_injection_rules@) == header_injection_category()
        &&& rules_view(self.template_injection_rules@) == template_category()
    }

    /// Compile the five rule tables.
    pub fn new() -> (v: Self)
        ensures
            v.wf(),
    {
        AdvancedValidator {
            xxe_rules: build_xxe_rules(),
            nosql_rules: build_nosql_rules(),
            ldap_rules: build_ldap_rules(),
            header_injection_rules: build_header_injection_rules(),
            template_injection_rules: build_template_rules(),
        }
    }

    /// Reject input matching the XXE category (score 50).
    pub fn check_xxe(&self, input: &str, context: &mut SecurityContext) -> (r: SecurityResult<
        (),
    >)
        requires
            self.wf(),
        ensures
            !xxe_match(input@) ==> r is Ok && *final(context) == *old(context),
            xxe_match(input@) ==> r is Err && context_scored(*old(context), *final(context), 50),
    {
        let raw = to_chars(input);
        let lowered = lower_chars(&raw);
        proof {
            lemma_rules_match_category(self.xxe_rules@, xxe_category(), input@);
        }
        if any_rule_matches_exec(&self.xxe_rules, &raw, &lowered) {
            context.add_threat_score(50);
            return Err(SecurityError::InvalidInput {
                reason: "Potential XXE attack detected".to_owned(),
                field: Some("xml_content".to_owned()),
            });
        }
        Ok(())
    }

    /// Reject input matching the NoSQL-injection category (score 45).
    pub fn check_nosql_injection(&self, input: &str, context: &mut SecurityContext) -> (r:
        SecurityResult<()>)
        requires
            self.wf(),
        ensures
            !nosql_match(input@) ==> r is Ok && *final(context) == *old(context),
            nosql_match(input@) ==> r is Err && context_scored(
                *old(context),
                *final(context),
                45,
            ),
    {
        let raw = to_chars(input);
        let lowered = lower_chars(&raw);
        proof {
            lemma_rules_match_category(self.nosql_rules@, nosql_category(), input@);
        }
        if any_rule_matches_exec(&self.nosql_rules, &raw, &lowered) {
            context.add_threat_score(45);
            return Err(SecurityError::InvalidInput {
                reason: "Potential NoSQL injection detected".to_owned(),
                field: Some("query_parameter".to_owned()),
            });
        }
        Ok(())
    }

    /// Reject input matching the LDAP-injection category (score 40).
    pub fn check_ldap_injection(&self, input: &str, context: &mut SecurityContext) -> (r:
        SecurityResult<()>)
        requires
            self.wf(),
        ensures
            !ldap_match(input@) ==> r is Ok && *final(context) == *old(context),
            ldap_match(input@) ==> r is Err && context_scored(*old(context), *final(context), 40),
    {
        let raw = to_chars(input);
        let lowered = lower_chars(&raw);
        proof {
            lemma_rules_match_category(self.ldap_rules@, ldap_category(), input@);
        }
        if any_rule_matches_exec(&self.ldap_rules, &raw, &lowered) {
            context.add_threat_score(40);
            return Err(SecurityError::InvalidInput {
                reason: "Potential LDAP injection detected".to_owned(),
                field: Some("ldap_query".to_owned()),
            });
        }
        Ok(())
    }

    /// Reject input matching the header-injection category (score 50).
    pub fn check_header_injection(&self, input: &str, context: &mut SecurityContext) -> (r:
        SecurityResult<()>)
        requires
            self.wf(),
        ensures
            !header_injection_match(input@) ==> r is Ok && *final(context) == *old(context),
            header_injection_match(input@) ==> r is Err && context_scored(
                *old(context),
                *final(context),
                50,
            ),
    {
        let raw = to_chars(input);
        let lowered = lower_chars(&raw);
        proof {
            lemma_rules_match_category(
                self.header_injection_rules@,
                header_injection_category(),
                input@,
            );
        }
        if any_rule_matches_exec(&self.header_injection_rules, &raw, &lowered) {
            context.add_threat_score(50);
            return Err(SecurityError::InvalidInput {
                reason: "Potential header injection detected".to_owned(),
                field: Some("header_value".to_owned()),
            });
        }
        Ok(())
    }

    /// Reject input matching the template-injection category (score 45).
    pub fn check_template_injection(&self, input: &str, context: &mut SecurityContext) -> (r:
        SecurityResult<()>)
        requires
            self.wf(),
        ensures
            !template_match(input@) ==> r is Ok && *final(context) == *old(context),
            template_match(input@) ==> r is Err && context_scored(
                *old(context),
                *final(context),
                45,
            ),
    {
        let raw = to_chars(input);
        let lowered = lower_chars(&raw);
        proof {
            lemma_rules_match_category(
                self.template_injection_rules@,
                template_category(),
                input@,
            );
        }
        if any_rule_matches_exec(&self.template_injection_rules, &raw, &lowered) {
            context.add_threat_score(45);
            return Err(SecurityError::InvalidInput {
                reason: "Potential template injection detected".to_owned(),
                field: Some("template_content".to_owned()),
            });
        }
        Ok(())
    }
}

fn build_xxe_rules() -> (rules: Vec<Rule>)
    ensures
        rules_view(rules@) == xxe_category(),
{
    let mut rules: Vec<Rule> = Vec::new();
    rules.push(mk_find(true, "<!doctype", "system", 0));
    rules.push(mk_find(true, "<!entity", "system", 0));

    let mut toks: Vec<Tok> = Vec::new();
    toks.push(Tok::Lit(to_chars("<!entity")));
    toks.push(Tok::Ws1);
    toks.push(Tok::Lit(to_chars("%")));
    let param = Rule { ci: true, toks };
    proof {
        reveal_strlit("%");
        assert("%"@ =~= seq!['%']);
        assert(param.toks@.map_values(|t: Tok| t@) =~= xxe_category()[2].1);
    }
    rules.push(param);

    let mut toks: Vec<Tok> = Vec::new();
    toks.push(Tok::Lit(to_chars("system")));
    toks.push(Tok::Ws0);
    toks.push(Tok::OneOf(to_chars("\"'")));
    toks.push(Tok::Lit(to_chars("file://")));
    let file_url = Rule { ci: true, toks };
    proof {
        reveal_strlit("\"'");
        assert("\"'"@ =~= seq!['"', '\'']);
        assert(file_url.toks@.map_values(|t: Tok| t@) =~= xxe_category()[3].1);
    }
    rules.push(file_url);
    assert(rules_view(rules@) =~= xxe_category());
    rules
}

fn build_nosql_rules() -> (rules: Vec<Rule>)
    ensures
        rules_view(rules@) == nosql_category(),
{
    let mut rules: Vec<Rule> = Vec::new();

    let mut toks: Vec<Tok> = Vec::new();
    toks.push(Tok::OneOf(to_chars("{,")));
    toks.push(Tok::Ws0);
    toks.push(Tok::OptChar('"'));
    toks.push(Tok::Lit(to_chars("$")));
    toks.push(Tok::LowerAlpha1);
    toks.push(Tok::OptChar('"'));
    toks.push(Tok::Ws0);
    toks.push(Tok::Lit(to_chars(":")));
    let operator = Rule { ci: false, toks };
    proof {
        reveal_strlit("{,");
        reveal_strlit("$");
        reveal_strlit(":");
        assert("{,"@ =~= seq!['{', ',']);
        assert("$"@ =~= seq!['$']);
        assert(":"@ =~= seq![':']);
        assert(operator.toks@.map_values(|t: Tok| t@) =~= nosql_category()[0].1);
    }
    rules.push(operator);

    let mut toks: Vec<Tok> = Vec::new();
    toks.push(Tok::Lit(to_chars("{")));
    toks.push(Tok::Ws0);
    toks.push(Tok::OptChar('"'));
    toks.push(Tok::Lit(to_chars("$where")));
    let where_rule = Rule { ci: true, toks };
    proof {
        reveal_strlit("{");
        assert("{"@ =~= seq!['{']);
        assert(where_rule.toks@.map_values(|t: Tok| t@) =~= nosql_category()[1].1);
    }
    rules.push(where_rule);

    rules.push(mk_find(true, "{", "$regex", 0));

    let mut toks: Vec<Tok> = Vec::new();
    toks.push(Tok::Lit(to_chars("[")));
    toks.push(Tok::Ws0);
    toks.push(Tok::Lit(to_chars("$")));
    let array = Rule { ci: true, toks };
    proof {
        reveal_strlit("[");
        reveal_strlit("$");
        assert("["@ =~= seq!['[']);
        assert("$"@ =~= seq!['$']);
        assert(array.toks@.map_values(|t: Tok| t@) =~= nosql_category()[3].1);
    }
    rules.push(array);
    assert(rules_view(rules@) =~= nosql_category());
    rules
}

fn build_ldap_rules() -> (rules: Vec<Rule>)
    ensures
        rules_view(rules@) == ldap_category(),
{
    let mut rules: Vec<Rule> = Vec::new();

    let mut toks: Vec<Tok> = Vec::new();
    toks.push(Tok::OneOf(to_chars("*()&|")));
    toks.push(Tok::FindOneOf(to_chars("*()&|")));
    let pair = Rule { ci: false, toks };
    proof {
        reveal_strlit("*()&|");
        assert("*()&|"@ =~= seq!['*', '(', ')', '&', '|']);
        assert(pair.toks@.map_values(|t: Tok| t@) =~= ldap_category()[0].1);
    }
    rules.push(pair);

    rules.push(mk_contains(false, "*)"));

    let mut toks: Vec<Tok> = Vec::new();
    toks.push(Tok::OneOf(to_chars("*()")));
    toks.push(Tok::OneOf(to_chars("*()")));
    let adjacent = Rule { ci: false, toks };
    proof {
        reveal_strlit("*()");
        assert("*()"@ =~= seq!['*', '(', ')']);
        assert(adjacent.toks@.map_values(|t: Tok| t@) =~= ldap_category()[2].1);
    }
    rules.push(adjacent);
    assert(rules_view(rules@) =~= ldap_category());
    rules
}

fn build_header_injection_rules() -> (rules: Vec<Rule>)
    ensures
        rules_view(rules@) == header_injection_category(),
{
    let mut rules: Vec<Rule> = Vec::new();

    let mut toks: Vec<Tok> = Vec::new();
    toks.push(Tok::OneOf(to_chars("\r\n")));
    let crlf = Rule { ci: false, toks };
    proof {
        reveal_strlit("\r\n");
        assert("\r\n"@ =~= seq!['\r', '\n']);
        assert(crlf.toks@.map_values(|t: Tok| t@) =~= header_injection_category()[0].1);
    }
    rules.push(crlf);

    let mut toks: Vec<Tok> = Vec::new();
    toks.push(Tok::Lit(to_chars("%0")));
    toks.push(Tok::OneOf(to_chars("ad")));
    let encoded = Rule { ci: true, toks };
    proof {
        reveal_strlit("ad");
        assert("ad"@ =~= seq!['a', 'd']);
        assert(encoded.toks@.map_values(|t: Tok| t@) =~= header_injection_category()[1].1);
    }
    rules.push(encoded);

    rules.push(mk_contains(true, "%00"));
    assert(rules_view(rules@) =~= header_injection_category());
    rules
}

fn build_template_rules() -> (rules: Vec<Rule>)
    ensures
        rules_view(rules@) == template_category(),
{
    let mut rules: Vec<Rule> = Vec::new();
    rules.push(mk_find(false, "{{", "}}", 0));
    rules.push(mk_find(false, "{%", "%}", 0));
    rules.push(mk_find(false, "<%", "%>", 0));
    rules.push(mk_find(false, "${", "}", 0));
    rules.push(mk_find(false, "[#", "]", 0));
    assert(rules_view(rules@) =~= template_category());
    rules
}

impl Default for AdvancedValidator {
    fn default() -> (v: Self)
        ensures
            v.wf(),
    {
        Self::new()
    }
}

} // verus!
