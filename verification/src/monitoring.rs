//! Monitoring: request and security-event counters, sampled tracing
//! decisions, and the metrics recorder. The counters are the observable
//! state; shipping the records to an operator's sink is the logging
//! collaborator's business, outside this library.

use vstd::prelude::*;

use crate::config::MonitoringConfig;
use crate::context::SecurityContext;
use crate::outside::random_below;

verus! {

/// Types of security events.
#[derive(Debug, Clone, Copy, PartialEq, Eq, Structural)]
pub enum SecurityEventType {
    RateLimitExceeded,
    AuthenticationFailed,
    AuthorizationFailed,
    InjectionAttempt,
    ThreatDetected,
    InvalidInput,
    SuspiciousActivity,
}

/// Event severity levels.
#[derive(Debug, Clone, Copy, PartialEq, Eq, Structural)]
pub enum EventSeverity {
    Low,
    Medium,
    High,
    Critical,
}

/// A security event for the logging collaborator.
pub struct SecurityEvent {
    pub event_type: SecurityEventType,
    pub description: String,
    pub severity: EventSeverity,
}

impl SecurityEvent {
    pub fn new(event_type: SecurityEventType, description: String, severity: EventSeverity) -> (e:
        Self)
        ensures
            e.event_type == event_type,
            e.description == description,
            e.severity == severity,
    {
        SecurityEvent { event_type, description, severity }
    }

    /// A medium-severity rate-limit event.
    pub fn rate_limit_exceeded(identifier: &str) -> (e: Self)
        ensures
            e.event_type == SecurityEventType::RateLimitExceeded,
            e.severity == EventSeverity::Medium,
            e.description@ == "Rate limit exceeded for: "@ + identifier@,
    {
        let mut description = "Rate limit exceeded for: ".to_owned();
        description.append(identifier);
        Self::new(SecurityEventType::RateLimitExceeded, description, EventSeverity::Medium)
    }

    /// A medium-severity authentication failure.
    pub fn auth_failed(reason: &str) -> (e: Self)
        ensures
            e.event_type == SecurityEventType::AuthenticationFailed,
            e.severity == EventSeverity::Medium,
            e.description@ == reason@,
    {
        Self::new(
            SecurityEventType::AuthenticationFailed,
            reason.to_owned(),
            EventSeverity::Medium,
        )
    }

    /// A high-severity injection detection.
    pub fn injection_detected(injection_type: &str, field: &str) -> (e: Self)
        ensures
            e.event_type == SecurityEventType::InjectionAttempt,
            e.severity == EventSeverity::High,
            e.description@ == injection_type@ + " injection detected in field: "@ + field@,
    {
        let mut description = injection_type.to_owned();
        description.append(" injection detected in field: ");
        description.append(field);
        Self::new(SecurityEventType::InjectionAttempt, description, EventSeverity::High)
    }

    /// A high-severity threat detection.
    pub fn threat_detected(threat_type: &str) -> (e: Self)
        ensures
            e.event_type == SecurityEventType::ThreatDetected,
            e.severity == EventSeverity::High,
            e.description@ == "Threat detected: "@ + threat_type@,
    {
        let mut description = "Threat detected: ".to_owned();
        description.append(threat_type);
        Self::new(SecurityEventType::ThreatDetected, description, EventSeverity::High)
    }
}

/// Monitoring statistics.
#[derive(Debug, Clone, Copy, PartialEq, Eq, Structural)]
pub struct MonitoringStats {
    pub total_requests: u64,
    pub security_events: u64,
}

/// Monitoring and logging system: counts what it is asked to log.
pub struct Monitor {
    pub config: MonitoringConfig,
    pub request_count: u64,
    pub security_event_count: u64,
}

impl Monitor {
    pub fn new(config: MonitoringConfig) -> (m: Self)
        ensures
            m.config == config,
            m.request_count == 0,
            m.security_event_count == 0,
    {
        Monitor { config, request_count: 0, security_event_count: 0 }
    }

    /// Count an incoming request, when request logging is on.
    pub fn log_request(&mut self, context: &SecurityContext)
        ensures
            final(self).config == old(self).config,
            final(self).security_event_count == old(self).security_event_count,
            old(self).config.enabled && old(self).config.log_requests ==> final(self).request_count == if old(self).request_count < u64::MAX {
                old(self).request_count + 1
            } else {
                u64::MAX as int
            },
            !(old(self).config.enabled && old(self).config.log_requests) ==> final(self).request_count == old(self).request_count,
    {
        if !self.config.enabled || !self.config.log_requests {
            return ;
        }
        if self.request_count < u64::MAX {
            self.request_count = self.request_count + 1;
        }
    }

    /// Count a security event, when event logging is on.
    pub fn log_security_event(&mut self, event: &SecurityEvent, context: &SecurityContext)
        ensures
            final(self).config == old(self).config,
            final(self).request_count == old(self).request_count,
            old(self).config.enabled && old(self).config.log_security_events ==> final(self).security_event_count == if old(self).security_event_count < u64::MAX {
                old(self).security_event_count + 1
            } else {
                u64::MAX as int
            },
            !(old(self).config.enabled && old(self).config.log_security_events) ==> final(self).security_event_count == old(self).security_event_count,
    {
        if !self.config.enabled || !self.config.log_security_events {
            return ;
        }
        if self.security_event_count < u64::MAX {
            self.security_event_count = self.security_event_count + 1;
        }
    }

    /// The counters so far.
    pub fn stats(&self) -> (s: MonitoringStats)
        ensures
            s.total_requests == self.request_count,
            s.security_events == self.security_event_count,
    {
        MonitoringStats {
            total_requests: self.request_count,
            security_events: self.security_event_count,
        }
    }

    /// Sample a request for detailed tracing with the configured permille
    /// probability. Random: with the rate at zero nothing is ever sampled,
    /// and with the rate at 1000 or more everything is.
    pub fn should_sample(&self) -> (r: bool)
        ensures
            self.config.trace_sampling_permille == 0 ==> !r,
            self.config.trace_sampling_permille >= 1000 ==> r,
    {
        let draw = random_below(1000);
        draw < self.config.trace_sampling_permille as usize
    }
}

/// Metrics recorder for performance monitoring: counts the samples it is
/// handed.
pub struct MetricsRecorder {
    pub enabled: bool,
    pub samples_recorded: u64,
}

impl MetricsRecorder {
    pub fn new(enabled: bool) -> (m: Self)
        ensures
            m.enabled == enabled,
            m.samples_recorded == 0,
    {
        MetricsRecorder { enabled, samples_recorded: 0 }
    }

    /// Record one request-duration sample.
    pub fn record_request_duration(&mut self, duration_micros: u64)
        ensures
            final(self).enabled == old(self).enabled,
            old(self).enabled ==> final(self).samples_recorded == if old(self).samples_recorded
                < u64::MAX {
                old(self).samples_recorded + 1
            } else {
                u64::MAX as int
            },
            !old(self).enabled ==> final(self).samples_recorded == old(self).samples_recorded,
    {
        if !self.enabled {
            return ;
        }
        if self.samples_recorded < u64::MAX {
            self.samples_recorded = self.samples_recorded + 1;
        }
    }

    /// Record one security-check-duration sample.
    pub fn record_security_check_duration(&mut self, check_name: &str, duration_micros: u64)
        ensures
            final(self).enabled == old(self).enabled,
            old(self).enabled ==> final(self).samples_recorded == if old(self).samples_recorded
                < u64::MAX {
                old(self).samples_recorded + 1
            } else {
                u64::MAX as int
            },
            !old(self).enabled ==> final(self).samples_recorded == old(self).samples_recorded,
    {
        if !self.enabled {
            return ;
        }
        if self.samples_recorded < u64::MAX {
            self.samples_recorded = self.samples_recorded + 1;
        }
    }
}

} // verus!
