//! Advanced threat heuristics independent of the validation engine:
//! bot detection from the user agent and a severity classification of the
//! accumulated threat score. Score added here is advisory telemetry; the
//! analysis blocks only through the pipeline's own policy.

use vstd::prelude::*;

use crate::context::SecurityContext;
use crate::outside::to_chars;
use crate::text::{contains_chars, contains_seq, lower_chars, lower_seq};

verus! {

/// A user agent that looks like an automated client: it contains one of
/// the known tool or crawler markers, case-insensitively.
pub open spec fn bot_user_agent(s: Seq<char>) -> bool {
    let l = lower_seq(s);
    ||| contains_seq(l, "bot"@)
    ||| contains_seq(l, "crawler"@)
    ||| contains_seq(l, "spider"@)
    ||| contains_seq(l, "scraper"@)
    ||| contains_seq(l, "curl"@)
    ||| contains_seq(l, "wget"@)
    ||| contains_seq(l, "python"@)
    ||| contains_seq(l, "java"@)
    ||| contains_seq(l, "go-http-client"@)
    ||| contains_seq(l, "axios"@)
    ||| contains_seq(l, "node-fetch"@)
}

/// The severity band of a threat score.
pub open spec fn severity_of(score: u32) -> ThreatSeverity {
    if score <= 20 {
        ThreatSeverity::Low
    } else if score <= 40 {
        ThreatSeverity::Medium
    } else if score <= 60 {
        ThreatSeverity::High
    } else {
        ThreatSeverity::Critical
    }
}

/// Threat indicators.
#[derive(Debug, Clone, Copy, PartialEq, Eq, Structural)]
pub enum ThreatIndicator {
    BotLike,
    HighThreatScore,
    SuspiciousPattern,
    KnownAttackPattern,
}

/// Threat severity.
#[derive(Debug, Clone, Copy, PartialEq, Eq, Structural)]
pub enum ThreatSeverity {
    Low,
    Medium,
    High,
    Critical,
}

/// Threat analysis result: the indicators seen, their total score, and
/// whether that total crosses the blocking threshold of 30.
pub struct ThreatAnalysis {
    pub is_threat: bool,
    pub severity: ThreatSeverity,
    pub indicators: Vec<(ThreatIndicator, u32)>,
    pub total_score: u32,
}

impl ThreatAnalysis {
    /// An empty analysis.
    pub fn new() -> (a: Self)
        ensures
            !a.is_threat,
            a.severity == ThreatSeverity::Low,
            a.indicators@.len() == 0,
            a.total_score == 0,
    {
        ThreatAnalysis {
            is_threat: false,
            severity: ThreatSeverity::Low,
            indicators: Vec::new(),
            total_score: 0,
        }
    }

    /// The analysis of a request that raised no signal.
    pub fn safe() -> (a: Self)
        ensures
            !a.is_threat,
            a.severity == ThreatSeverity::Low,
            a.indicators@.len() == 0,
            a.total_score == 0,
    {
        Self::new()
    }

    /// Record one indicator: the score accumulates (saturating) and the
    /// analysis becomes a threat once the total passes 30.
    pub fn add_indicator(&mut self, indicator: ThreatIndicator, score: u32)
        ensures
            final(self).indicators@ == old(self).indicators@.push((indicator, score)),
            final(self).total_score == if old(self).total_score + score <= u32::MAX {
                old(self).total_score + score
            } else {
                u32::MAX as int
            },
            final(self).is_threat == (old(self).is_threat || final(self).total_score > 30),
            final(self).severity == old(self).severity,
    {
        self.indicators.push((indicator, score));
        if self.total_score <= u32::MAX - score {
            self.total_score = self.total_score + score;
        } else {
            self.total_score = u32::MAX;
        }
        if self.total_score > 30 {
            self.is_threat = true;
        }
    }
}

/// Threat detection over the request's accumulated signals.
pub struct ThreatDetector {
    pub enabled: bool,
}

impl ThreatDetector {
    pub fn new(enabled: bool) -> (d: Self)
        ensures
            d.enabled == enabled,
    {
        ThreatDetector { enabled }
    }

    /// Does this user agent look like a bot?
    pub fn is_bot_user_agent(&self, user_agent: &str) -> (r: bool)
        ensures
            r == bot_user_agent(user_agent@),
    {
        let l = lower_chars(&to_chars(user_agent));
        contains_chars(&l, &to_chars("bot")) || contains_chars(&l, &to_chars("crawler"))
            || contains_chars(&l, &to_chars("spider")) || contains_chars(
            &l,
            &to_chars("scraper"),
        ) || contains_chars(&l, &to_chars("curl")) || contains_chars(&l, &to_chars("wget"))
            || contains_chars(&l, &to_chars("python")) || contains_chars(&l, &to_chars("java"))
            || contains_chars(&l, &to_chars("go-http-client")) || contains_chars(
            &l,
            &to_chars("axios"),
        ) || contains_chars(&l, &to_chars("node-fetch"))
    }

    /// Analyze one request: a bot-like user agent (from the context's
    /// metadata) contributes 10; any accumulated threat score is recorded
    /// as an indicator and sets the severity band.
    pub fn analyze(&self, user_agent: Option<&String>, context: &SecurityContext) -> (a:
        ThreatAnalysis)
        ensures
            !self.enabled ==> !a.is_threat && a.total_score == 0 && a.indicators@.len() == 0,
            self.enabled ==> {
                let bot = match user_agent {
                    Some(ua) => bot_user_agent(ua@),
                    None => false,
                };
                &&& (context.threat_score > 0 ==> a.severity == severity_of(
                    context.threat_score,
                ))
                &&& (context.threat_score == 0 ==> a.severity == ThreatSeverity::Low)
                &&& a.is_threat == (a.total_score > 30)
                &&& a.indicators@ == (if bot {
                    seq![(ThreatIndicator::BotLike, 10u32)]
                } else {
                    Seq::<(ThreatIndicator, u32)>::empty()
                }) + (if context.threat_score > 0 {
                    seq![(ThreatIndicator::HighThreatScore, context.threat_score)]
                } else {
                    Seq::<(ThreatIndicator, u32)>::empty()
                })
                &&& a.total_score == {
                    let t = (if bot {
                        10int
                    } else {
                        0int
                    }) + (if context.threat_score > 0 {
                        context.threat_score as int
                    } else {
                        0int
                    });
                    if t <= u32::MAX {
                        t
                    } else {
                        u32::MAX as int
                    }
                }
            },
    {
        if !self.enabled {
            return ThreatAnalysis::safe();
        }
        let mut analysis = ThreatAnalysis::new();
        let bot = match user_agent {
            Some(ua) => self.is_bot_user_agent(ua.as_str()),
            None => false,
        };
        if bot {
            analysis.add_indicator(ThreatIndicator::BotLike, 10);
        }
        if context.threat_score > 0 {
            analysis.add_indicator(ThreatIndicator::HighThreatScore, context.threat_score);
            let score = context.threat_score;
            analysis.severity = if score <= 20 {
                ThreatSeverity::Low
            } else if score <= 40 {
                ThreatSeverity::Medium
            } else if score <= 60 {
                ThreatSeverity::High
            } else {
                ThreatSeverity::Critical
            };
        }
        analysis
    }
}

} // verus!
