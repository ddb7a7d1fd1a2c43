//! The input-validation engine: the rule catalogues for the four core
//! injection families, and the validator that scans a string and reports
//! the first category matched. Categories are checked in the fixed,
//! documented order SQL injection, cross-site scripting, command injection,
//! path traversal; the first match adds its score weight to the request's
//! context and aborts the scan.

use vstd::prelude::*;

use crate::catalog::{
    anchored_find_rule, category_match, contains_rule, find_rule, lemma_rules_match_category,
    mk_anchored_find, mk_contains, mk_find, mk_pair, mk_pair_ws1, pair_rule, pair_ws1_rule,
    rules_view, spec_rule_of,
};
use crate::config::ValidationConfig;
use crate::context::SecurityContext;
use crate::errors::{SecurityError, SecurityResult};
use crate::outside::to_chars;
use crate::pattern::{any_rule_matches_exec, Rule, SpecTok, Tok};
use crate::text::lower_chars;

verus! {

/// The rule for `' or '1'='1` and its spacing/quoting variants: a quote,
/// optional whitespace, `or`, whitespace, then two optionally quoted digit
/// runs joined by `=`.
pub open spec fn sql_quote_num_rule() -> (bool, Seq<SpecTok>) {
    (
        true,
        seq![
            SpecTok::Lit(seq!['\'']),
            SpecTok::Ws0,
            SpecTok::Lit(seq!['o', 'r']),
            SpecTok::Ws1,
            SpecTok::OptChar('\''),
            SpecTok::Digits1,
            SpecTok::OptChar('\''),
            SpecTok::Ws0,
            SpecTok::Lit(seq!['=']),
            SpecTok::Ws0,
            SpecTok::OptChar('\''),
            SpecTok::Digits1,
        ],
    )
}

/// The rule for `' or 'a'='a`: as above with letter runs, the first one
/// closed by a quote.
pub open spec fn sql_quote_word_rule() -> (bool, Seq<SpecTok>) {
    (
        true,
        seq![
            SpecTok::Lit(seq!['\'']),
            SpecTok::Ws0,
            SpecTok::Lit(seq!['o', 'r']),
            SpecTok::Ws1,
            SpecTok::OptChar('\''),
            SpecTok::LowerAlpha1,
            SpecTok::Lit(seq!['\'']),
            SpecTok::Ws0,
            SpecTok::Lit(seq!['=']),
            SpecTok::Ws0,
            SpecTok::OptChar('\''),
            SpecTok::LowerAlpha1,
        ],
    )
}

/// The rule for `'; drop` and `'; select`: a quote, a semicolon and the
/// keyword, each separated by optional whitespace.
pub open spec fn sql_quote_stmt_rule(w: Seq<char>) -> (bool, Seq<SpecTok>) {
    (
        true,
        seq![
            SpecTok::Lit(seq!['\'']),
            SpecTok::Ws0,
            SpecTok::Lit(seq![';']),
            SpecTok::Ws0,
            SpecTok::Lit(w),
        ],
    )
}

/// The SQL-injection category, applied to the lower-cased input.
pub open spec fn sql_category() -> Seq<(bool, Seq<SpecTok>)> {
    seq![
        anchored_find_rule(true, "union"@, "select"@, 1),
        pair_ws1_rule(true, "drop"@, "table"@),
        pair_ws1_rule(true, "drop"@, "database"@),
        sql_quote_num_rule(),
        sql_quote_word_rule(),
        contains_rule(true, "--"@),
        contains_rule(true, "#"@),
        contains_rule(true, "/**/"@),
        sql_quote_stmt_rule("drop"@),
        sql_quote_stmt_rule("select"@),
        pair_rule(true, "exec"@, "("@),
        pair_rule(true, "execute"@, "("@),
        contains_rule(true, "xp_cmdshell"@),
        contains_rule(true, "sp_executesql"@),
        contains_rule(true, "information_schema"@),
        contains_rule(true, "sysobjects"@),
        contains_rule(true, "syscolumns"@),
    ]
}

/// The cross-site-scripting category, applied to the lower-cased input.
pub open spec fn xss_category() -> Seq<(bool, Seq<SpecTok>)> {
    seq![
        contains_rule(true, "<script"@),
        pair_rule(true, "onclick"@, "="@),
        pair_rule(true, "onerror"@, "="@),
        pair_rule(true, "onload"@, "="@),
        pair_rule(true, "onmouseover"@, "="@),
        pair_rule(true, "onmouseout"@, "="@),
        pair_rule(true, "onkeydown"@, "="@),
        pair_rule(true, "onkeyup"@, "="@),
        pair_rule(true, "onkeypress"@, "="@),
        pair_rule(true, "onsubmit"@, "="@),
        pair_rule(true, "onchange"@, "="@),
        pair_rule(true, "onfocus"@, "="@),
        pair_rule(true, "onblur"@, "="@),
        contains_rule(true, "javascript:"@),
        contains_rule(true, "vbscript:"@),
        contains_rule(true, "data:text/html"@),
        contains_rule(true, "<iframe"@),
        contains_rule(true, "<object"@),
        contains_rule(true, "<embed"@),
        find_rule(true, "<meta"@, "url=javascript"@, 0),
        pair_rule(true, "expression"@, "("@),
    ]
}

/// The command-injection category, applied to the raw input: a shell
/// separator followed by a known binary directory or command name,
/// command substitution, redirection into a system directory, or an
/// encoded null byte.
pub open spec fn command_category() -> Seq<(bool, Seq<SpecTok>)> {
    seq![
        pair_rule(false, ";"@, "/bin"@),
        pair_rule(false, ";"@, "/usr"@),
        pair_rule(false, ";"@, "/sbin"@),
        pair_rule(false, ";"@, "rm"@),
        pair_rule(false, ";"@, "ls"@),
        pair_rule(false, ";"@, "cat"@),
        pair_rule(false, ";"@, "echo"@),
        pair_rule(false, ";"@, "wget"@),
        pair_rule(false, ";"@, "curl"@),
        pair_rule(false, ";"@, "nc"@),
        pair_rule(false, ";"@, "netcat"@),
        pair_rule(false, ";"@, "nmap"@),
        pair_rule(false, ";"@, "ping"@),
        pair_rule(false, "|"@, "/bin"@),
        pair_rule(false, "|"@, "/usr"@),
        pair_rule(false, "|"@, "/sbin"@),
        pair_rule(false, "|"@, "rm"@),
        pair_rule(false, "|"@, "ls"@),
        pair_rule(false, "|"@, "cat"@),
        pair_rule(false, "|"@, "echo"@),
        pair_rule(false, "|"@, "wget"@),
        pair_rule(false, "|"@, "curl"@),
        pair_rule(false, "|"@, "nc"@),
        pair_rule(false, "|"@, "netcat"@),
        pair_rule(false, "|"@, "nmap"@),
        pair_rule(false, "|"@, "ping"@),
        pair_rule(false, "&&"@, "/bin"@),
        pair_rule(false, "&&"@, "/usr"@),
        pair_rule(false, "&&"@, "/sbin"@),
        pair_rule(false, "&&"@, "rm"@),
        pair_rule(false, "&&"@, "ls"@),
        pair_rule(false, "&&"@, "cat"@),
        pair_rule(false, "&&"@, "echo"@),
        pair_rule(false, "&&"@, "wget"@),
        pair_rule(false, "&&"@, "curl"@),
        pair_rule(false, "&&"@, "nc"@),
        pair_rule(false, "&&"@, "netcat"@),
        pair_rule(false, "&&"@, "nmap"@),
        pair_rule(false, "&&"@, "ping"@),
        pair_rule(false, "||"@, "/bin"@),
        pair_rule(false, "||"@, "/usr"@),
        pair_rule(false, "||"@, "/sbin"@),
        pair_rule(false, "||"@, "rm"@),
        pair_rule(false, "||"@, "ls"@),
        pair_rule(false, "||"@, "cat"@),
        pair_rule(false, "||"@, "echo"@),
        pair_rule(false, "||"@, "wget"@),
        pair_rule(false, "||"@, "curl"@),
        pair_rule(false, "||"@, "nc"@),
        pair_rule(false, "||"@, "netcat"@),
        pair_rule(false, "||"@, "nmap"@),
        pair_rule(false, "||"@, "ping"@),
        find_rule(false, "`"@, "`"@, 0),
        find_rule(false, "$("@, ")"@, 0),
        pair_rule(false, "<"@, "/etc"@),
        pair_rule(false, "<"@, "/proc"@),
        pair_rule(false, "<"@, "/home"@),
        pair_rule(false, "<"@, "/root"@),
        pair_rule(false, "<"@, "/var"@),
        pair_rule(false, ">"@, "/etc"@),
        pair_rule(false, ">"@, "/proc"@),
        pair_rule(false, ">"@, "/home"@),
        pair_rule(false, ">"@, "/root"@),
        pair_rule(false, ">"@, "/var"@),
        contains_rule(false, "%00"@),
        contains_rule(false, "\\x00"@),
    ]
}

/// The path-traversal category, applied to the raw input: repeated
/// parent-directory steps in either separator style, their URL-encoded
/// forms, and absolute paths that never belong in user input.
pub open spec fn path_category() -> Seq<(bool, Seq<SpecTok>)> {
    seq![
        contains_rule(false, "../../"@),
        contains_rule(false, "..\\..\\"@),
        contains_rule(false, "../..\\"@),
        contains_rule(false, "..\\../"@),
        contains_rule(false, "%2e%2e/"@),
        contains_rule(false, "%2e%2e\\"@),
        contains_rule(false, "%2e%2e%2f"@),
        contains_rule(false, "%2e%2e%5c"@),
        contains_rule(false, "%252e%252e"@),
        contains_rule(false, "/etc/"@),
        contains_rule(false, "/proc/"@),
        contains_rule(false, "/home/"@),
        contains_rule(false, "/root/"@),
        contains_rule(false, "/var/"@),
        contains_rule(false, "\\windows\\"@),
        contains_rule(false, "\\system32\\"@),
        contains_rule(false, "c:\\"@),
        contains_rule(false, "%2fetc%2f"@),
        contains_rule(false, "%5cwindows%5c"@),
    ]
}

/// Whether the input matches the SQL-injection category.
pub open spec fn sql_injection_match(s: Seq<char>) -> bool {
    category_match(sql_category(), s)
}

/// Whether the input matches the cross-site-scripting category.
pub open spec fn xss_match(s: Seq<char>) -> bool {
    category_match(xss_category(), s)
}

/// Whether the input matches the command-injection category.
pub open spec fn command_injection_match(s: Seq<char>) -> bool {
    category_match(command_category(), s)
}

/// Whether the input matches the path-traversal category.
pub open spec fn path_traversal_match(s: Seq<char>) -> bool {
    category_match(path_category(), s)
}

/// Build the executable SQL rule table.
fn build_sql_rules() -> (rules: Vec<Rule>)
    ensures
        rules_view(rules@) == sql_category(),
{
    let mut rules: Vec<Rule> = Vec::new();
    rules.push(mk_anchored_find(true, "union", "select", 1));
    rules.push(mk_pair_ws1(true, "drop", "table"));
    rules.push(mk_pair_ws1(true, "drop", "database"));

    let mut toks: Vec<Tok> = Vec::new();
    toks.push(Tok::Lit(to_chars("'")));
    toks.push(Tok::Ws0);
    toks.push(Tok::Lit(to_chars("or")));
    toks.push(Tok::Ws1);
    toks.push(Tok::OptChar('\''));
    toks.push(Tok::Digits1);
    toks.push(Tok::OptChar('\''));
    toks.push(Tok::Ws0);
    toks.push(Tok::Lit(to_chars("=")));
    toks.push(Tok::Ws0);
    toks.push(Tok::OptChar('\''));
    toks.push(Tok::Digits1);
    let quote_num = Rule { ci: true, toks };
    proof {
        reveal_strlit("'");
        reveal_strlit("or");
        reveal_strlit("=");
        assert("'"@ =~= seq!['\'']);
        assert("or"@ =~= seq!['o', 'r']);
        assert("="@ =~= seq!['=']);
        assert(quote_num.toks@.map_values(|t: Tok| t@) =~= sql_quote_num_rule().1);
    }
    rules.push(quote_num);

    let mut toks: Vec<Tok> = Vec::new();
    toks.push(Tok::Lit(to_chars("'")));
    toks.push(Tok::Ws0);
    toks.push(Tok::Lit(to_chars("or")));
    toks.push(Tok::Ws1);
    toks.push(Tok::OptChar('\''));
    toks.push(Tok::LowerAlpha1);
    toks.push(Tok::Lit(to_chars("'")));
    toks.push(Tok::Ws0);
    toks.push(Tok::Lit(to_chars("=")));
    toks.push(Tok::Ws0);
    toks.push(Tok::OptChar('\''));
    toks.push(Tok::LowerAlpha1);
    let quote_word = Rule { ci: true, toks };
    proof {
        reveal_strlit("'");
        reveal_strlit("or");
        reveal_strlit("=");
        assert("'"@ =~= seq!['\'']);
        assert("or"@ =~= seq!['o', 'r']);
        assert("="@ =~= seq!['=']);
        assert(quote_word.toks@.map_values(|t: Tok| t@) =~= sql_quote_word_rule().1);
    }
    rules.push(quote_word);

    rules.push(mk_contains(true, "--"));
    rules.push(mk_contains(true, "#"));
    rules.push(mk_contains(true, "/**/"));
    rules.push(mk_quote_stmt("drop"));
    rules.push(mk_quote_stmt("select"));
    rules.push(mk_pair(true, "exec", "("));
    rules.push(mk_pair(true, "execute", "("));
    rules.push(mk_contains(true, "xp_cmdshell"));
    rules.push(mk_contains(true, "sp_executesql"));
    rules.push(mk_contains(true, "information_schema"));
    rules.push(mk_contains(true, "sysobjects"));
    rules.push(mk_contains(true, "syscolumns"));
    assert(rules_view(rules@) =~= sql_category());
    rules
}

/// Build one `sql_quote_stmt_rule`.
fn mk_quote_stmt(w: &str) -> (r: Rule)
    ensures
        spec_rule_of(r) == sql_quote_stmt_rule(w@),
{
    let mut toks: Vec<Tok> = Vec::new();
    toks.push(Tok::Lit(to_chars("'")));
    toks.push(Tok::Ws0);
    toks.push(Tok::Lit(to_chars(";")));
    toks.push(Tok::Ws0);
    toks.push(Tok::Lit(to_chars(w)));
    let r = Rule { ci: true, toks };
    proof {
        reveal_strlit("'");
        reveal_strlit(";");
        assert("'"@ =~= seq!['\'']);
        assert(";"@ =~= seq![';']);
        assert(r.toks@.map_values(|t: Tok| t@) =~= sql_quote_stmt_rule(w@).1);
    }
    r
}

/// Build the executable cross-site-scripting rule table.
fn build_xss_rules() -> (rules: Vec<Rule>)
    ensures
        rules_view(rules@) == xss_category(),
{
    let mut rules: Vec<Rule> = Vec::new();
    rules.push(mk_contains(true, "<script"));
    rules.push(mk_pair(true, "onclick", "="));
    rules.push(mk_pair(true, "onerror", "="));
    rules.push(mk_pair(true, "onload", "="));
    rules.push(mk_pair(true, "onmouseover", "="));
    rules.push(mk_pair(true, "onmouseout", "="));
    rules.push(mk_pair(true, "onkeydown", "="));
    rules.push(mk_pair(true, "onkeyup", "="));
    rules.push(mk_pair(true, "onkeypress", "="));
    rules.push(mk_pair(true, "onsubmit", "="));
    rules.push(mk_pair(true, "onchange", "="));
    rules.push(mk_pair(true, "onfocus", "="));
    rules.push(mk_pair(true, "onblur", "="));
    rules.push(mk_contains(true, "javascript:"));
    rules.push(mk_contains(true, "vbscript:"));
    rules.push(mk_contains(true, "data:text/html"));
    rules.push(mk_contains(true, "<iframe"));
    rules.push(mk_contains(true, "<object"));
    rules.push(mk_contains(true, "<embed"));
    rules.push(mk_find(true, "<meta", "url=javascript", 0));
    rules.push(mk_pair(true, "expression", "("));
    assert(rules_view(rules@) =~= xss_category());
    rules
}

/// Build the executable command-injection rule table.
#[verifier::rlimit(80)]
fn build_command_rules() -> (rules: Vec<Rule>)
    ensures
        rules_view(rules@) == command_category(),
{
    let mut rules: Vec<Rule> = Vec::new();
    rules.push(mk_pair(false, ";", "/bin"));
    rules.push(mk_pair(false, ";", "/usr"));
    rules.push(mk_pair(false, ";", "/sbin"));
    rules.push(mk_pair(false, ";", "rm"));
    rules.push(mk_pair(false, ";", "ls"));
    rules.push(mk_pair(false, ";", "cat"));
    rules.push(mk_pair(false, ";", "echo"));
    rules.push(mk_pair(false, ";", "wget"));
    rules.push(mk_pair(false, ";", "curl"));
    rules.push(mk_pair(false, ";", "nc"));
    rules.push(mk_pair(false, ";", "netcat"));
    rules.push(mk_pair(false, ";", "nmap"));
    rules.push(mk_pair(false, ";", "ping"));
    rules.push(mk_pair(false, "|", "/bin"));
    rules.push(mk_pair(false, "|", "/usr"));
    rules.push(mk_pair(false, "|", "/sbin"));
    rules.push(mk_pair(false, "|", "rm"));
    rules.push(mk_pair(false, "|", "ls"));
    rules.push(mk_pair(false, "|", "cat"));
    rules.push(mk_pair(false, "|", "echo"));
    rules.push(mk_pair(false, "|", "wget"));
    rules.push(mk_pair(false, "|", "curl"));
    rules.push(mk_pair(false, "|", "nc"));
    rules.push(mk_pair(false, "|", "netcat"));
    rules.push(mk_pair(false, "|", "nmap"));
    rules.push(mk_pair(false, "|", "ping"));
    rules.push(mk_pair(false, "&&", "/bin"));
    rules.push(mk_pair(false, "&&", "/usr"));
    rules.push(mk_pair(false, "&&", "/sbin"));
    rules.push(mk_pair(false, "&&", "rm"));
    rules.push(mk_pair(false, "&&", "ls"));
    rules.push(mk_pair(false, "&&", "cat"));
    rules.push(mk_pair(false, "&&", "echo"));
    rules.push(mk_pair(false, "&&", "wget"));
    rules.push(mk_pair(false, "&&", "curl"));
    rules.push(mk_pair(false, "&&", "nc"));
    rules.push(mk_pair(false, "&&", "netcat"));
    rules.push(mk_pair(false, "&&", "nmap"));
    rules.push(mk_pair(false, "&&", "ping"));
    rules.push(mk_pair(false, "||", "/bin"));
    rules.push(mk_pair(false, "||", "/usr"));
    rules.push(mk_pair(false, "||", "/sbin"));
    rules.push(mk_pair(false, "||", "rm"));
    rules.push(mk_pair(false, "||", "ls"));
    rules.push(mk_pair(false, "||", "cat"));
    rules.push(mk_pair(false, "||", "echo"));
    rules.push(mk_pair(false, "||", "wget"));
    rules.push(mk_pair(false, "||", "curl"));
    rules.push(mk_pair(false, "||", "nc"));
    rules.push(mk_pair(false, "||", "netcat"));
    rules.push(mk_pair(false, "||", "nmap"));
    rules.push(mk_pair(false, "||", "ping"));
    rules.push(mk_find(false, "`", "`", 0));
    rules.push(mk_find(false, "$(", ")", 0));
    rules.push(mk_pair(false, "<", "/etc"));
    rules.push(mk_pair(false, "<", "/proc"));
    rules.push(mk_pair(false, "<", "/home"));
    rules.push(mk_pair(false, "<", "/root"));
    rules.push(mk_pair(false, "<", "/var"));
    rules.push(mk_pair(false, ">", "/etc"));
    rules.push(mk_pair(false, ">", "/proc"));
    rules.push(mk_pair(false, ">", "/home"));
    rules.push(mk_pair(false, ">", "/root"));
    rules.push(mk_pair(false, ">", "/var"));
    rules.push(mk_contains(false, "%00"));
    rules.push(mk_contains(false, "\\x00"));
    assert(rules_view(rules@) =~= command_category());
    rules
}

/// Build the executable path-traversal rule table.
fn build_path_rules() -> (rules: Vec<Rule>)
    ensures
        rules_view(rules@) == path_category(),
{
    let mut rules: Vec<Rule> = Vec::new();
    rules.push(mk_contains(false, "../../"));
    rules.push(mk_contains(false, "..\\..\\"));
    rules.push(mk_contains(false, "../..\\"));
    rules.push(mk_contains(false, "..\\../"));
    rules.push(mk_contains(false, "%2e%2e/"));
    rules.push(mk_contains(false, "%2e%2e\\"));
    rules.push(mk_contains(false, "%2e%2e%2f"));
    rules.push(mk_contains(false, "%2e%2e%5c"));
    rules.push(mk_contains(false, "%252e%252e"));
    rules.push(mk_contains(false, "/etc/"));
    rules.push(mk_contains(false, "/proc/"));
    rules.push(mk_contains(false, "/home/"));
    rules.push(mk_contains(false, "/root/"));
    rules.push(mk_contains(false, "/var/"));
    rules.push(mk_contains(false, "\\windows\\"));
    rules.push(mk_contains(false, "\\system32\\"));
    rules.push(mk_contains(false, "c:\\"));
    rules.push(mk_contains(false, "%2fetc%2f"));
    rules.push(mk_contains(false, "%5cwindows%5c"));
    assert(rules_view(rules@) =~= path_category());
    rules
}

/// The four injection families the core validator knows, in the order they
/// are checked.
pub enum InjectionKind {
    Sql,
    Xss,
    Command,
    PathTraversal,
}

/// The score weight each family contributes on a match.
pub open spec fn kind_weight(k: InjectionKind) -> u32 {
    match k {
        InjectionKind::Sql => 40,
        InjectionKind::Xss => 35,
        InjectionKind::Command => 45,
        InjectionKind::PathTraversal => 30,
    }
}

/// The reason each family reports on a match.
pub open spec fn kind_reason(k: InjectionKind) -> Seq<char> {
    match k {
        InjectionKind::Sql => "Potential SQL injection detected"@,
        InjectionKind::Xss => "Potential XSS attack detected"@,
        InjectionKind::Command => "Potential command injection detected"@,
        InjectionKind::PathTraversal => "Potential path traversal detected"@,
    }
}

/// The first enabled category that matches `s`, in the fixed order SQL,
/// XSS, command injection, path traversal; `None` when no enabled category
/// matches. Later categories are never consulted once one has matched.
pub open spec fn first_category(cfg: ValidationConfig, s: Seq<char>) -> Option<InjectionKind> {
    if cfg.sql_injection_check && sql_injection_match(s) {
        Some(InjectionKind::Sql)
    } else if cfg.xss_check && xss_match(s) {
        Some(InjectionKind::Xss)
    } else if cfg.command_injection_check && command_injection_match(s) {
        Some(InjectionKind::Command)
    } else if cfg.path_traversal_check && path_traversal_match(s) {
        Some(InjectionKind::PathTraversal)
    } else {
        None
    }
}

/// The result is `InvalidInput` with exactly this reason and field.
pub open spec fn is_invalid_input<T>(
    r: SecurityResult<T>,
    reason: Seq<char>,
    field: Seq<char>,
) -> bool {
    match r {
        Result::Err(SecurityError::InvalidInput { reason: re, field: f }) => re@ == reason
            && match f {
            Option::Some(ff) => ff@ == field,
            Option::None => false,
        },
        _ => false,
    }
}

/// The context after a scan: the score grew by exactly `w` (saturating)
/// and nothing else changed.
pub open spec fn context_scored(old_ctx: SecurityContext, new_ctx: SecurityContext, w: u32) -> bool {
    &&& new_ctx.threat_score == if old_ctx.threat_score + w <= u32::MAX {
        (old_ctx.threat_score + w) as u32
    } else {
        u32::MAX
    }
    &&& new_ctx.request_id == old_ctx.request_id
    &&& new_ctx.client_ip == old_ctx.client_ip
    &&& new_ctx.user_id == old_ctx.user_id
    &&& new_ctx.authenticated == old_ctx.authenticated
    &&& new_ctx.metadata == old_ctx.metadata
}

/// Input validator for the four core injection families. The rule tables
/// are compiled once at construction and never mutated, so one validator
/// can be shared read-only across requests.
pub struct InputValidator {
    pub config: ValidationConfig,
    pub sql_rules: Vec<Rule>,
    pub xss_rules: Vec<Rule>,
    pub command_rules: Vec<Rule>,
    pub path_rules: Vec<Rule>,
}

impl InputValidator {
    /// The stored rule tables are exactly the documented categories.
    pub open spec fn wf(&self) -> bool {
        &&& rules_view(self.sql_rules@) == sql_category()
        &&& rules_view(self.xss_rules@) == xss_category()
        &&& rules_view(self.command_rules@) == command_category()
        &&& rules_view(self.path_rules@) == path_category()
    }

    /// Compile the rule tables.
    pub fn new(config: ValidationConfig) -> (v: Self)
        ensures
            v.wf(),
            v.config == config,
    {
        InputValidator {
            config,
            sql_rules: build_sql_rules(),
            xss_rules: build_xss_rules(),
            command_rules: build_command_rules(),
            path_rules: build_path_rules(),
        }
    }

    /// Does the input match the SQL-injection category?
    pub fn contains_sql_injection(&self, input: &str) -> (r: bool)
        requires
            self.wf(),
        ensures
            r == sql_injection_match(input@),
    {
        let raw = to_chars(input);
        let lowered = lower_chars(&raw);
        let m = any_rule_matches_exec(&self.sql_rules, &raw, &lowered);
        proof {
            lemma_rules_match_category(self.sql_rules@, sql_category(), input@);
        }
        m
    }

    /// Does the input match the cross-site-scripting category?
    pub fn contains_xss(&self, input: &str) -> (r: bool)
        requires
            self.wf(),
        ensures
            r == xss_match(input@),
    {
        let raw = to_chars(input);
        let lowered = lower_chars(&raw);
        let m = any_rule_matches_exec(&self.xss_rules, &raw, &lowered);
        proof {
            lemma_rules_match_category(self.xss_rules@, xss_category(), input@);
        }
        m
    }

    /// Does the input match the command-injection category?
    pub fn contains_command_injection(&self, input: &str) -> (r: bool)
        requires
            self.wf(),
        ensures
            r == command_injection_match(input@),
    {
        let raw = to_chars(input);
        let lowered = lower_chars(&raw);
        let m = any_rule_matches_exec(&self.command_rules, &raw, &lowered);
        proof {
            lemma_rules_match_category(self.command_rules@, command_category(), input@);
        }
        m
    }

    /// Does the input match the path-traversal category?
    pub fn contains_path_traversal(&self, input: &str) -> (r: bool)
        requires
            self.wf(),
        ensures
            r == path_traversal_match(input@),
    {
        let raw = to_chars(input);
        let lowered = lower_chars(&raw);
        let m = any_rule_matches_exec(&self.path_rules, &raw, &lowered);
        proof {
            lemma_rules_match_category(self.path_rules@, path_category(), input@);
        }
        m
    }

    /// Scan one string field. The first enabled category that matches adds
    /// its weight to the context's threat score and rejects the request
    /// with `InvalidInput` naming the field; later categories are not
    /// evaluated. When no enabled category matches, the context is left
    /// untouched.
    pub fn validate_string(
        &self,
        input: &str,
        field_name: &str,
        context: &mut SecurityContext,
    ) -> (r: SecurityResult<()>)
        requires
            self.wf(),
        ensures
            match first_category(self.config, input@) {
                Option::Some(k) => is_invalid_input(r, kind_reason(k), field_name@)
                    && context_scored(*old(context), *final(context), kind_weight(k)),
                Option::None => r is Ok && *final(context) == *old(context),
            },
    {
        let raw = to_chars(input);
        let lowered = lower_chars(&raw);
        proof {
            lemma_rules_match_category(self.sql_rules@, sql_category(), input@);
            lemma_rules_match_category(self.xss_rules@, xss_category(), input@);
            lemma_rules_match_category(self.command_rules@, command_category(), input@);
            lemma_rules_match_category(self.path_rules@, path_category(), input@);
        }
        if self.config.sql_injection_check && any_rule_matches_exec(
            &self.sql_rules,
            &raw,
            &lowered,
        ) {
            context.add_threat_score(40);
            return Err(SecurityError::InvalidInput {
                reason: "Potential SQL injection detected".to_owned(),
                field: Some(field_name.to_owned()),
            });
        }
        if self.config.xss_check && any_rule_matches_exec(&self.xss_rules, &raw, &lowered) {
            context.add_threat_score(35);
            return Err(SecurityError::InvalidInput {
                reason: "Potential XSS attack detected".to_owned(),
                field: Some(field_name.to_owned()),
            });
        }
        if self.config.command_injection_check && any_rule_matches_exec(
            &self.command_rules,
            &raw,
            &lowered,
        ) {
            context.add_threat_score(45);
            return Err(SecurityError::InvalidInput {
                reason: "Potential command injection detected".to_owned(),
                field: Some(field_name.to_owned()),
            });
        }
        if self.config.path_traversal_check && any_rule_matches_exec(
            &self.path_rules,
            &raw,
            &lowered,
        ) {
            context.add_threat_score(30);
            return Err(SecurityError::InvalidInput {
                reason: "Potential path traversal detected".to_owned(),
                field: Some(field_name.to_owned()),
            });
        }
        Ok(())
    }

    /// Escape HTML metacharacters and strip null bytes, when sanitization
    /// is configured; otherwise return the input unchanged. A pure
    /// function of the input with no scoring side effect; see
    /// `crate::sanitize` for the exact character mapping and the proof
    /// that it is idempotent.
    pub fn sanitize(&self, input: &str) -> (r: String)
        ensures
            self.config.sanitize_input ==> r@ == crate::sanitize::sanitize_seq(input@),
            !self.config.sanitize_input ==> r@ == input@,
    {
        if !self.config.sanitize_input {
            return input.to_owned();
        }
        let raw = to_chars(input);
        let cleaned = crate::sanitize::sanitize_chars(&raw);
        crate::outside::chars_to_string(&cleaned)
    }
}

/// Any input that contains the literal substring `' OR '1'='1` matches the
/// SQL-injection category: the quote/`or`/quoted-digit rule fires inside
/// the substring itself, whatever surrounds it.
pub proof fn lemma_quote_or_literal_is_sql_injection(s: Seq<char>)
    requires
        crate::text::contains_seq(s, "' OR '1'='1"@),
    ensures
        sql_injection_match(s),
{
    reveal_strlit("' OR '1'='1");
    let n = "' OR '1'='1"@;
    assert(n.len() == 11);
    let i = choose|i: int| crate::text::has_at(s, n, i);
    crate::text::lemma_lower_preserves_has_at(s, n, i);
    let l = crate::text::lower_seq(s);
    let m = crate::text::lower_seq(n);
    assert(m.len() == 11);
    assert(m[0] == '\'' && m[1] == ' ' && m[2] == 'o' && m[3] == 'r' && m[4] == ' ' && m[5]
        == '\'' && m[6] == '1' && m[7] == '\'' && m[8] == '=' && m[9] == '\'' && m[10] == '1');
    assert(i + 11 <= l.len());
    assert forall|j: int| 0 <= j < 11 implies l[i + j] == m[j] by {
        assert(l.subrange(i, i + 11)[j] == l[i + j]);
    }
    let p = sql_quote_num_rule().1;
    let d = crate::pattern::digits_end(l, i + 10);
    assert(crate::pattern::toks_match_at(p, 12, l, d));
    assert(crate::pattern::digits_end(l, i + 10) == d);
    assert(crate::pattern::toks_match_at(p, 11, l, i + 10));
    assert(crate::pattern::toks_match_at(p, 10, l, i + 9));
    assert(crate::pattern::ws_end(l, i + 9) == i + 9);
    assert(crate::pattern::toks_match_at(p, 9, l, i + 9));
    assert(l.subrange(i + 8, i + 9) =~= seq!['=']);
    assert(crate::pattern::toks_match_at(p, 8, l, i + 8));
    assert(crate::pattern::ws_end(l, i + 8) == i + 8);
    assert(crate::pattern::toks_match_at(p, 7, l, i + 8));
    assert(crate::pattern::toks_match_at(p, 6, l, i + 7));
    assert(crate::pattern::digits_end(l, i + 7) == i + 7);
    assert(crate::pattern::digits_end(l, i + 6) == i + 7);
    assert(crate::pattern::toks_match_at(p, 5, l, i + 6));
    assert(crate::pattern::toks_match_at(p, 4, l, i + 5));
    assert(crate::pattern::ws_end(l, i + 5) == i + 5);
    assert(crate::pattern::ws_end(l, i + 4) == i + 5);
    assert(crate::text::is_ws_char(l[i + 4]));
    assert(crate::pattern::toks_match_at(p, 3, l, i + 4));
    assert(l.subrange(i + 2, i + 4) =~= seq!['o', 'r']);
    assert(crate::pattern::toks_match_at(p, 2, l, i + 2));
    assert(crate::pattern::ws_end(l, i + 2) == i + 2);
    assert(crate::pattern::ws_end(l, i + 1) == i + 2);
    assert(crate::pattern::toks_match_at(p, 1, l, i + 1));
    assert(l.subrange(i, i + 1) =~= seq!['\'']);
    assert(crate::pattern::toks_match_at(p, 0, l, i));
    assert(0 <= i <= l.len());
    assert(crate::pattern::pat_found(p, l));
    assert(crate::catalog::cat_rule_matches(sql_category()[3], s));
}

/// Any input that contains `<script` after case folding matches the
/// cross-site-scripting category.
pub proof fn lemma_script_tag_is_xss(s: Seq<char>)
    requires
        crate::text::contains_seq(crate::text::lower_seq(s), "<script"@),
    ensures
        xss_match(s),
{
    let l = crate::text::lower_seq(s);
    let n = "<script"@;
    let i = choose|i: int| crate::text::has_at(l, n, i);
    let p = seq![crate::pattern::SpecTok::Lit(n)];
    assert(crate::pattern::toks_match_at(p, 1, l, i + n.len()));
    assert(crate::pattern::toks_match_at(p, 0, l, i));
    assert(0 <= i <= l.len());
    assert(crate::pattern::pat_found(p, l));
    assert(crate::catalog::cat_rule_matches(xss_category()[0], s));
}

/// Scan verdict for the SQL-injection literal: with the SQL category
/// enabled, any input containing `' OR '1'='1` is reported as SQL
/// injection, the first category in the scan order.
pub proof fn lemma_quote_or_literal_scan_verdict(cfg: ValidationConfig, s: Seq<char>)
    requires
        cfg.sql_injection_check,
        crate::text::contains_seq(s, "' OR '1'='1"@),
    ensures
        first_category(cfg, s) == Some(InjectionKind::Sql),
{
    lemma_quote_or_literal_is_sql_injection(s);
}

/// Scan verdict for a script tag: with the XSS category enabled, an input
/// containing `<script` (case-insensitively) that does not match the
/// SQL-injection category is reported as XSS, and the categories after XSS
/// are never consulted.
pub proof fn lemma_script_tag_scan_verdict(cfg: ValidationConfig, s: Seq<char>)
    requires
        cfg.xss_check,
        crate::text::contains_seq(crate::text::lower_seq(s), "<script"@),
        !(cfg.sql_injection_check && sql_injection_match(s)),
    ensures
        first_category(cfg, s) == Some(InjectionKind::Xss),
{
    lemma_script_tag_is_xss(s);
}

} // verus!
