//! Replay-attack prevention: single-use nonces per client and timestamp
//! freshness. The nonce cache is owned by the component and keyed by
//! `client:nonce`, so independent instances never share state.

use vstd::prelude::*;

use crate::context::SecurityContext;
use crate::errors::{SecurityError, SecurityResult};
use crate::outside::{chars_to_string, random_below, to_chars};
use crate::strmap::StrMap;
use crate::text::is_alnum_char;
use crate::validation::{context_scored, is_invalid_input};
use vstd::string::StringExecFns;

verus! {

/// An acceptable nonce: 16 to 256 characters, alphanumerics, `-` and `_`.
pub open spec fn nonce_format_ok(s: Seq<char>) -> bool {
    16 <= s.len() <= 256 && forall|i: int|
        0 <= i < s.len() ==> is_alnum_char(#[trigger] s[i]) || s[i] == '-' || s[i] == '_'
}

/// The key under which a client's nonce is remembered.
pub open spec fn nonce_key(client: Seq<char>, nonce: Seq<char>) -> Seq<char> {
    client + seq![':'] + nonce
}

/// Replay-attack prevention using nonce and timestamp validation. The
/// cache grows by at most one entry per admitted nonce; the owner runs
/// `cleanup_expired_nonces` periodically — say, whenever the cache holds
/// more than ten times `max_nonces_per_ip` entries — to bound it.
pub struct ReplayProtection {
    pub enabled: bool,
    pub nonce_cache: StrMap<u64>,
    pub timestamp_window_secs: u64,
    pub max_nonces_per_ip: usize,
}

impl ReplayProtection {
    pub open spec fn wf(&self) -> bool {
        self.nonce_cache.wf()
    }

    /// A five-minute window and an empty cache.
    pub fn new() -> (p: Self)
        ensures
            p.wf(),
            p.enabled,
            p.timestamp_window_secs == 300,
            p.max_nonces_per_ip == 1000,
            p.nonce_cache@ == Map::<Seq<char>, u64>::empty(),
    {
        ReplayProtection {
            enabled: true,
            nonce_cache: StrMap::new(),
            timestamp_window_secs: 300,
            max_nonces_per_ip: 1000,
        }
    }

    /// Set the timestamp validation window, in whole seconds.
    pub fn with_timestamp_window(self, seconds: u64) -> (p: Self)
        ensures
            p.timestamp_window_secs == seconds,
            p.enabled == self.enabled,
            p.nonce_cache == self.nonce_cache,
            p.max_nonces_per_ip == self.max_nonces_per_ip,
    {
        let mut p = self;
        p.timestamp_window_secs = seconds;
        p
    }

    /// Validate a request nonce at instant `now`: a malformed nonce is
    /// rejected (score 30 for bad length, 35 for bad characters), a nonce
    /// already seen for this client is a replay (score 80), and a fresh
    /// nonce is remembered and admitted.
    pub fn validate_nonce_at(
        &mut self,
        request_nonce: &str,
        client_id: &str,
        now: u64,
        context: &mut SecurityContext,
    ) -> (r: SecurityResult<()>)
        requires
            old(self).wf(),
        ensures
            final(self).wf(),
            final(self).enabled == old(self).enabled,
            final(self).timestamp_window_secs == old(self).timestamp_window_secs,
            !old(self).enabled ==> r is Ok && *final(context) == *old(context)
                && final(self).nonce_cache@ == old(self).nonce_cache@,
            old(self).enabled ==> {
                let key = nonce_key(client_id@, request_nonce@);
                &&& (!(16 <= request_nonce@.len() <= 256) ==> is_invalid_input(
                    r,
                    "Invalid nonce format or length"@,
                    "nonce"@,
                ) && context_scored(*old(context), *final(context), 30)
                    && final(self).nonce_cache@ == old(self).nonce_cache@)
                &&& (16 <= request_nonce@.len() <= 256 && !nonce_format_ok(request_nonce@)
                    ==> is_invalid_input(r, "Nonce contains invalid characters"@, "nonce"@)
                    && context_scored(*old(context), *final(context), 35)
                    && final(self).nonce_cache@ == old(self).nonce_cache@)
                &&& (nonce_format_ok(request_nonce@) && old(self).nonce_cache@.dom().contains(
                    key,
                ) ==> ({
                    &&& r matches Err(SecurityError::ReplayDetected(_))
                    &&& context_scored(*old(context), *final(context), 80)
                    &&& final(self).nonce_cache@ == old(self).nonce_cache@
                }))
                &&& (nonce_format_ok(request_nonce@) && !old(self).nonce_cache@.dom().contains(
                    key,
                ) ==> r is Ok && *final(context) == *old(context) && final(self).nonce_cache@
                    == old(self).nonce_cache@.insert(key, now))
            },
    {
        if !self.enabled {
            return Ok(());
        }
        let nonce_chars = to_chars(request_nonce);
        if nonce_chars.len() < 16 || nonce_chars.len() > 256 {
            context.add_threat_score(30);
            return Err(SecurityError::InvalidInput {
                reason: "Invalid nonce format or length".to_owned(),
                field: Some("nonce".to_owned()),
            });
        }
        if !nonce_chars_ok(&nonce_chars) {
            context.add_threat_score(35);
            return Err(SecurityError::InvalidInput {
                reason: "Nonce contains invalid characters".to_owned(),
                field: Some("nonce".to_owned()),
            });
        }
        let mut key = client_id.to_owned();
        key.append(":");
        key.append(request_nonce);
        proof {
            reveal_strlit(":");
            assert(key@ =~= nonce_key(client_id@, request_nonce@));
        }
        match self.nonce_cache.get(key.as_str()) {
            Some(_) => {
                context.add_threat_score(80);
                Err(
                    SecurityError::ReplayDetected(
                        "Nonce already used - request replay detected".to_owned(),
                    ),
                )
            },
            None => {
                self.nonce_cache.insert(key, now);
                Ok(())
            },
        }
    }

    /// Validate a request timestamp at instant `now`: older than the
    /// window is a replay (score 50); more than a minute in the future is
    /// invalid (score 35).
    pub fn validate_timestamp_at(
        &self,
        request_timestamp: u64,
        now: u64,
        context: &mut SecurityContext,
    ) -> (r: SecurityResult<()>)
        ensures
            !self.enabled ==> r is Ok && *final(context) == *old(context),
            self.enabled ==> {
                &&& (now > request_timestamp + self.timestamp_window_secs ==> ({
                    &&& r matches Err(SecurityError::ReplayDetected(_))
                    &&& context_scored(*old(context), *final(context), 50)
                }))
                &&& (now <= request_timestamp + self.timestamp_window_secs
                    && request_timestamp > now + 60 ==> is_invalid_input(
                    r,
                    "Request timestamp is in the future"@,
                    "timestamp"@,
                ) && context_scored(*old(context), *final(context), 35))
                &&& (now <= request_timestamp + self.timestamp_window_secs
                    && request_timestamp <= now + 60 ==> r is Ok && *final(context) == *old(
                    context,
                ))
            },
    {
        if !self.enabled {
            return Ok(());
        }
        if now > self.timestamp_window_secs && request_timestamp < now
            - self.timestamp_window_secs {
            context.add_threat_score(50);
            return Err(SecurityError::ReplayDetected("Request timestamp is too old".to_owned()));
        }
        if request_timestamp > 60 && request_timestamp - 60 > now {
            context.add_threat_score(35);
            return Err(SecurityError::InvalidInput {
                reason: "Request timestamp is in the future".to_owned(),
                field: Some("timestamp".to_owned()),
            });
        }
        Ok(())
    }

    /// The wall clock, in whole seconds since the Unix epoch, for request
    /// signing.
    pub fn get_current_timestamp() -> u64 {
        crate::outside::now_unix_secs()
    }

    /// A fresh random nonce: 32 hexadecimal-alphabet characters.
    pub fn generate_nonce() -> (r: String)
        ensures
            r@.len() == 32,
            forall|i: int|
                0 <= i < r@.len() ==> ('0' <= #[trigger] r@[i] && r@[i] <= '9') || ('a' <= r@[i]
                    && r@[i] <= 'f') || ('A' <= r@[i] && r@[i] <= 'F'),
    {
        let charset = to_chars("0123456789ABCDEFabcdef");
        proof {
            reveal_strlit("0123456789ABCDEFabcdef");
            assert(charset@.len() == 22);
            assert forall|j: int|
                0 <= j < 22 implies ('0' <= #[trigger] charset@[j] && charset@[j] <= '9') || (
            'a' <= charset@[j] && charset@[j] <= 'f') || ('A' <= charset@[j] && charset@[j]
                <= 'F') by {}
        }
        let mut out: Vec<char> = Vec::new();
        let mut i: usize = 0;
        while i < 32
            invariant
                charset@.len() == 22,
                forall|j: int|
                    0 <= j < 22 ==> ('0' <= #[trigger] charset@[j] && charset@[j] <= '9') || (
                    'a' <= charset@[j] && charset@[j] <= 'f') || ('A' <= charset@[j]
                        && charset@[j] <= 'F'),
                i <= 32,
                out@.len() == i,
                forall|j: int|
                    0 <= j < out@.len() ==> ('0' <= #[trigger] out@[j] && out@[j] <= '9') || (
                    'a' <= out@[j] && out@[j] <= 'f') || ('A' <= out@[j] && out@[j] <= 'F'),
            decreases 32 - i,
        {
            let idx = random_below(22);
            out.push(charset[idx]);
            i = i + 1;
        }
        chars_to_string(&out)
    }

    /// Drop nonces older than twice the timestamp window.
    pub fn cleanup_expired_nonces(&mut self, now: u64)
        requires
            old(self).wf(),
        ensures
            final(self).wf(),
            final(self).enabled == old(self).enabled,
            final(self).timestamp_window_secs == old(self).timestamp_window_secs,
            forall|k: Seq<char>| #[trigger]
                final(self).nonce_cache@.dom().contains(k)
                    ==> old(self).nonce_cache@.dom().contains(k)
                    && final(self).nonce_cache@[k] == old(self).nonce_cache@[k],
    {
        let ghost pre = self.nonce_cache.entries@;
        let window = self.timestamp_window_secs;
        let mut marks: Vec<bool> = Vec::new();
        let mut i: usize = 0;
        while i < self.nonce_cache.entries.len()
            invariant
                old(self).wf(),
                *self == *old(self),
                self.nonce_cache.entries@ == pre,
                i <= pre.len(),
                marks@.len() == i,
            decreases pre.len() - i,
        {
            let ts = self.nonce_cache.entries[i].1;
            let doubled: u128 = 2 * (window as u128);
            let keep = now <= ts || ((now - ts) as u128) < doubled;
            marks.push(keep);
            i = i + 1;
        }
        self.nonce_cache.retain_marked(&marks);
        proof {
            crate::strmap::lemma_map_of_entries(pre);
        }
    }
}

/// Are these characters acceptable in a nonce?
fn nonce_chars_ok(chars: &Vec<char>) -> (r: bool)
    ensures
        r == (forall|i: int|
            0 <= i < chars@.len() ==> is_alnum_char(#[trigger] chars@[i]) || chars@[i] == '-'
                || chars@[i] == '_'),
{
    let mut i: usize = 0;
    while i < chars.len()
        invariant
            i <= chars@.len(),
            forall|j: int|
                0 <= j < i ==> is_alnum_char(#[trigger] chars@[j]) || chars@[j] == '-'
                    || chars@[j] == '_',
        decreases chars@.len() - i,
    {
        let c = chars[i];
        let alnum = ('0' <= c && c <= '9') || ('a' <= c && c <= 'z') || ('A' <= c && c <= 'Z');
        if !(alnum || c == '-' || c == '_') {
            return false;
        }
        i = i + 1;
    }
    true
}

impl Default for ReplayProtection {
    fn default() -> (p: Self)
        ensures
            p.wf(),
            p.enabled,
            p.timestamp_window_secs == 300,
    {
        Self::new()
    }
}

} // verus!
