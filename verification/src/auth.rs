//! Authentication: JWT bearer tokens (through the external token codec)
//! and hashed API keys. Authentication is permissive by default: absent
//! credentials fail a request only when the configuration mandates
//! authentication; present credentials that fail verification always do.

use vstd::prelude::*;

use crate::config::AuthConfig;
use crate::errors::{SecurityError, SecurityResult};
use crate::ip_reputation::list_has;
use crate::outside::{
    jwt_claims_parts, jwt_decode_hs256, jwt_encode_hs256, jwt_token_of, sha256_bytes, sha256_of,
    to_chars,
};
use crate::text::has_at;
use crate::request::{header_lookup, ApiRequest};
use vstd::string::StringExecFns;

verus! {

/// The lower-case hexadecimal rendering of a byte sequence, two digits a
/// byte.
pub open spec fn hex_seq(bytes: Seq<u8>) -> Seq<char>
    decreases bytes.len(),
{
    if bytes.len() == 0 {
        Seq::empty()
    } else {
        hex_seq(bytes.drop_last()) + seq![
            hex_digit_char(bytes.last() / 16),
            hex_digit_char(bytes.last() % 16),
        ]
    }
}

pub open spec fn hex_digit_char(d: u8) -> char {
    if d < 10 {
        (('0' as u8) + d) as char
    } else {
        (('a' as u8) + (d - 10)) as char
    }
}

/// The hash under which an API key is stored and compared: the
/// hexadecimal SHA-256 of the key.
pub open spec fn api_key_hash(key: Seq<char>) -> Seq<char> {
    hex_seq(sha256_of(key))
}

/// User context after successful authentication.
pub struct UserContext {
    pub user_id: String,
    pub roles: Vec<String>,
    pub email: Option<String>,
}

/// A bearer token is presented for the codec to judge: a secret is
/// configured and the authorization header starts with the bearer scheme.
pub open spec fn jwt_attempted(m: AuthManager, req: ApiRequest) -> bool {
    &&& m.config.jwt_secret is Some
    &&& match header_lookup(req.headers@, "authorization"@) {
        Option::Some(h) => has_at(h, "Bearer "@, 0),
        Option::None => false,
    }
}

/// Whether the user holds a role.
pub open spec fn has_role(user: UserContext, role: Seq<char>) -> bool {
    exists|i: int| 0 <= i < user.roles@.len() && user.roles@[i]@ == role
}

/// Authentication manager: API keys are hashed at construction and only
/// their hashes are kept.
pub struct AuthManager {
    pub config: AuthConfig,
    pub api_keys_hashed: Vec<String>,
}

impl AuthManager {
    /// The stored hashes are exactly the hashes of the configured keys.
    pub open spec fn wf(&self) -> bool {
        &&& self.api_keys_hashed@.len() == self.config.api_keys@.len()
        &&& forall|i: int|
            0 <= i < self.config.api_keys@.len() ==> #[trigger] self.api_keys_hashed@[i]@
                == api_key_hash(self.config.api_keys@[i]@)
    }

    /// Hash the configured API keys for storage.
    pub fn new(config: AuthConfig) -> (m: Self)
        ensures
            m.wf(),
            m.config == config,
    {
        let mut hashed: Vec<String> = Vec::new();
        let mut i: usize = 0;
        while i < config.api_keys.len()
            invariant
                i <= config.api_keys@.len(),
                hashed@.len() == i,
                forall|j: int|
                    0 <= j < i ==> #[trigger] hashed@[j]@ == api_key_hash(
                        config.api_keys@[j]@,
                    ),
            decreases config.api_keys@.len() - i,
        {
            hashed.push(Self::hash_api_key(config.api_keys[i].as_str()));
            i = i + 1;
        }
        AuthManager { config, api_keys_hashed: hashed }
    }

    /// The hexadecimal SHA-256 of an API key.
    pub fn hash_api_key(key: &str) -> (r: String)
        ensures
            r@ == api_key_hash(key@),
            r@.len() == 64,
    {
        let digest = sha256_bytes(key);
        let hex = to_hex(&digest);
        crate::outside::chars_to_string(&hex)
    }

    /// Authenticate a request at instant `now`: a bearer token is tried
    /// first, then an API key; with no credentials the outcome is `None`,
    /// an error when authentication is mandated. The token codec's verdict
    /// comes from outside; what this function does with each verdict is
    /// exact: a rejected token or an expired one fails the request, an
    /// accepted, unexpired one yields its subject as the identity.
    pub fn authenticate(&self, req: &ApiRequest, now: u64) -> (r: SecurityResult<
        Option<UserContext>,
    >)
        requires
            self.wf(),
        ensures
            !self.config.enabled ==> ({
                &&& r matches Ok(u)
                &&& u is None
            }),
            self.config.enabled && !jwt_attempted(*self, *req) ==> match header_lookup(
                req.headers@,
                "x-api-key"@,
            ) {
                Option::Some(key) => if self.api_keys_hashed@.len() > 0 {
                    if list_has(self.api_keys_hashed@, api_key_hash(key)) {
                        ({
                            &&& r matches Ok(u)
                            &&& u matches Some(user)
                            &&& user.user_id@ == "apikey_"@ + api_key_hash(key).subrange(0, 8)
                            &&& user.roles@.len() == 1 && user.roles@[0]@ == "api_user"@
                            &&& user.email is None
                        })
                    } else {
                        r matches Err(SecurityError::AuthenticationFailed(_))
                    }
                } else {
                    if self.config.require_auth {
                        r matches Err(SecurityError::AuthenticationFailed(_))
                    } else {
                        ({
                            &&& r matches Ok(u)
                            &&& u is None
                        })
                    }
                },
                Option::None => if self.config.require_auth {
                    r matches Err(SecurityError::AuthenticationFailed(_))
                } else {
                    ({
                        &&& r matches Ok(u)
                        &&& u is None
                    })
                },
            },
    {
        if !self.config.enabled {
            return Ok(None);
        }
        let jwt_outcome: Option<Result<(String, Vec<String>, Option<String>, u64), String>> = match &self
            .config
            .jwt_secret {
            Some(secret) => {
                match req.get_header("authorization") {
                    Some(h) => {
                        let chars = to_chars(h.as_str());
                        let bearer = to_chars("Bearer ");
                        let n = chars.len();
                        if bearer.len() <= n && crate::text::has_at_exec(&chars, &bearer, 0) {
                            let token_chars = crate::text::copy_range(&chars, bearer.len(), n);
                            let token = crate::outside::chars_to_string(&token_chars);
                            match jwt_decode_hs256(token.as_str(), secret.as_str()) {
                                Ok(claims) => Some(Ok(jwt_claims_parts(&claims))),
                                Err(e) => Some(Err(e)),
                            }
                        } else {
                            None
                        }
                    },
                    None => None,
                }
            },
            None => None,
        };
        match jwt_outcome {
            Some(outcome) => {
                return Self::resolve_token_outcome(outcome, now);
            },
            None => {},
        }
        match req.get_header("x-api-key") {
            Some(key) => {
                if self.api_keys_hashed.len() > 0 {
                    return self.resolve_api_key(key.as_str());
                }
            },
            None => {},
        }
        if self.config.require_auth {
            Err(
                SecurityError::AuthenticationFailed(
                    "No valid authentication credentials provided".to_owned(),
                ),
            )
        } else {
            Ok(None)
        }
    }

    /// What each token-codec verdict means, exactly: a codec error is an
    /// authentication failure; accepted claims whose expiry has passed are
    /// an authentication failure; otherwise the subject is authenticated
    /// with the token's roles and email.
    pub fn resolve_token_outcome(
        outcome: Result<(String, Vec<String>, Option<String>, u64), String>,
        now: u64,
    ) -> (r: SecurityResult<Option<UserContext>>)
        ensures
            match outcome {
                Result::Err(_) => r matches Err(SecurityError::AuthenticationFailed(_)),
                Result::Ok(claims) => if claims.3 < now {
                    ({
                        &&& r matches Err(SecurityError::AuthenticationFailed(m))
                        &&& m@ == "Token expired"@
                    })
                } else {
                    ({
                        &&& r matches Ok(u)
                        &&& u matches Some(user)
                        &&& user.user_id == claims.0
                        &&& user.roles == claims.1
                        &&& user.email == claims.2
                    })
                },
            },
    {
        match outcome {
            Err(_) => Err(SecurityError::AuthenticationFailed("Invalid JWT".to_owned())),
            Ok((sub, roles, email, exp)) => {
                if exp < now {
                    Err(SecurityError::AuthenticationFailed("Token expired".to_owned()))
                } else {
                    Ok(Some(UserContext { user_id: sub, roles, email }))
                }
            },
        }
    }

    /// Verify an API key against the stored hashes: a known key becomes
    /// the `apikey_`-prefixed identity with the `api_user` role; an
    /// unknown one is an authentication failure.
    fn resolve_api_key(&self, key: &str) -> (r: SecurityResult<Option<UserContext>>)
        requires
            self.wf(),
        ensures
            list_has(self.api_keys_hashed@, api_key_hash(key@)) ==> ({
                &&& r matches Ok(u)
                &&& u matches Some(user)
                &&& user.user_id@ == "apikey_"@ + api_key_hash(key@).subrange(0, 8)
                &&& user.roles@.len() == 1 && user.roles@[0]@ == "api_user"@
                &&& user.email is None
            }),
            !list_has(self.api_keys_hashed@, api_key_hash(key@)) ==> r matches Err(
                SecurityError::AuthenticationFailed(_),
            ),
    {
        let hash = Self::hash_api_key(key);
        let mut i: usize = 0;
        let mut found = false;
        while i < self.api_keys_hashed.len()
            invariant
                hash@ == api_key_hash(key@),
                i <= self.api_keys_hashed@.len(),
                found == exists|j: int|
                    0 <= j < i && #[trigger] self.api_keys_hashed@[j]@ == api_key_hash(key@),
            decreases self.api_keys_hashed@.len() - i,
        {
            if crate::outside::str_eq(self.api_keys_hashed[i].as_str(), hash.as_str()) {
                found = true;
            }
            i = i + 1;
        }
        if found {
            let hash_chars = to_chars(hash.as_str());
            let prefix = crate::text::copy_range(&hash_chars, 0, 8);
            let mut user_id = "apikey_".to_owned();
            user_id.append(crate::outside::chars_to_string(&prefix).as_str());
            let mut roles: Vec<String> = Vec::new();
            roles.push("api_user".to_owned());
            Ok(Some(UserContext { user_id, roles, email: None }))
        } else {
            Err(SecurityError::AuthenticationFailed("Invalid API key".to_owned()))
        }
    }

    /// Issue a token for a user at instant `now`, valid for the
    /// configured expiry. Requires a configured secret; a codec failure is
    /// an internal error.
    pub fn generate_token(&self, user_id: String, roles: Vec<String>, now: u64) -> (r:
        SecurityResult<String>)
        requires
            now + self.config.token_expiry_secs <= u64::MAX,
        ensures
            self.config.jwt_secret is None ==> r matches Err(SecurityError::ConfigError(_)),
            self.config.jwt_secret matches Some(sec) ==> match r {
                Result::Ok(t) => t@ == jwt_token_of(
                    user_id@,
                    roles.deep_view(),
                    (now + self.config.token_expiry_secs) as u64,
                    now,
                    sec@,
                ),
                Result::Err(e) => e matches SecurityError::InternalError(_),
            },
    {
        let secret = match &self.config.jwt_secret {
            Some(s) => s,
            None => {
                return Err(SecurityError::ConfigError("JWT secret not configured".to_owned()));
            },
        };
        let exp = now + self.config.token_expiry_secs;
        match jwt_encode_hs256(user_id.as_str(), &roles, exp, now, secret.as_str()) {
            Ok(token) => Ok(token),
            Err(_) => Err(SecurityError::InternalError("Failed to generate token".to_owned())),
        }
    }

    /// Authorize: the user must hold the required role; the rejection
    /// names the role that was missing.
    pub fn authorize(&self, user: &UserContext, required_role: &str) -> (r: SecurityResult<()>)
        ensures
            r is Ok <==> has_role(*user, required_role@),
            r matches Err(e) ==> e matches SecurityError::AuthorizationFailed(m) && m@
                == "User does not have required role: "@ + required_role@,
    {
        let mut i: usize = 0;
        while i < user.roles.len()
            invariant
                i <= user.roles@.len(),
                forall|j: int| 0 <= j < i ==> #[trigger] user.roles@[j]@ != required_role@,
            decreases user.roles@.len() - i,
        {
            if crate::outside::str_eq(user.roles[i].as_str(), required_role) {
                return Ok(());
            }
            i = i + 1;
        }
        let mut message = "User does not have required role: ".to_owned();
        message.append(required_role);
        Err(SecurityError::AuthorizationFailed(message))
    }
}

/// Render bytes as lower-case hexadecimal.
fn to_hex(bytes: &Vec<u8>) -> (r: Vec<char>)
    ensures
        r@ == hex_seq(bytes@),
        r@.len() == 2 * bytes@.len(),
{
    let mut r: Vec<char> = Vec::new();
    let mut i: usize = 0;
    while i < bytes.len()
        invariant
            i <= bytes@.len(),
            r@ =~= hex_seq(bytes@.subrange(0, i as int)),
            r@.len() == 2 * i,
        decreases bytes@.len() - i,
    {
        let b = bytes[i];
        let hi = b / 16;
        let lo = b % 16;
        r.push(
            if hi < 10 {
                (('0' as u8) + hi) as char
            } else {
                (('a' as u8) + (hi - 10)) as char
            },
        );
        r.push(
            if lo < 10 {
                (('0' as u8) + lo) as char
            } else {
                (('a' as u8) + (lo - 10)) as char
            },
        );
        proof {
            assert(bytes@.subrange(0, i + 1).drop_last() =~= bytes@.subrange(0, i as int));
            assert(bytes@.subrange(0, i + 1).last() == bytes@[i as int]);
            assert(r@ =~= hex_seq(bytes@.subrange(0, i + 1)));
        }
        i = i + 1;
    }
    proof {
        assert(bytes@.subrange(0, bytes@.len() as int) =~= bytes@);
    }
    r
}

} // verus!
