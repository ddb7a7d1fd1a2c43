//! An in-process request-security pipeline: a per-request gatekeeper that
//! decides, in a fixed order, whether an inbound API call may proceed, and
//! accumulates a numeric threat signal for later stages and operators.

pub mod advanced_validation;
pub mod auth;
pub mod catalog;
pub mod config;
pub mod content_type;
pub mod context;
pub mod cookie_security;
pub mod error_handling;
pub mod errors;
pub mod cors;
pub mod csrf;
pub mod headers;
pub mod https;
pub mod ip_reputation;
pub mod method_validator;
pub mod middleware;
pub mod monitoring;
pub mod numfmt;
pub mod outside;
pub mod pattern;
pub mod pipeline;
pub mod rate_limit;
pub mod request_constraints;
pub mod replay_protection;
pub mod request;
pub mod sanitize;
pub mod strmap;
pub mod text;
pub mod threats;
pub mod validation;
