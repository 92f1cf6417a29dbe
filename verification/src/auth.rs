//! OAuth2 client-credentials authentication for the two product variants:
//! Azure AD (Entra ID) for the cloud service and ADFS for an on-premises
//! installation. Holds the configuration, resolves the token endpoint,
//! shapes the token request, and caches one bearer token with its expiry.
//!
//! The network call itself is not made here: `get_token` either hands back
//! the cached token or says which POST to make, and `accept_token_response`
//! judges what came back and fills the cache.

use vstd::prelude::*;
use vstd::string::*;

use crate::strutil::{
    ends_with_char, spec_dec_digits, str_eq, spec_sep_limit, segments_prefix, u64_to_dec,
};
use crate::trusted::{
    lowercase, spec_token_fields_of, split_scheme_host, token_parts, unicode_lower_of,
    url_scheme_host,
};

verus! {

broadcast use vstd::string::group_string_axioms;

/// Authentication failures.
#[derive(Debug)]
pub enum AuthError {
    /// The token endpoint answered with a non-success status; carries the
    /// status and the response body.
    TokenRequestFailed(String),
    /// The transport failed before any response arrived.
    HttpError(String),
    /// The token response could not be read.
    ParseError(String),
    /// The configuration is incomplete.
    MissingCredentials(String),
}

/// A bearer token with the instant it expires, in milliseconds of the
/// caller's clock.
#[derive(Debug, Clone)]
pub struct CachedToken {
    pub access_token: String,
    pub expires_at_ms: u64,
}

impl CachedToken {
    /// A token is usable only while `now` stands more than sixty seconds
    /// short of the expiry: a margin against clock skew and the latency of
    /// a request already in flight.
    pub open spec fn spec_is_valid(self, now_ms: u64) -> bool {
        now_ms + 60_000 < self.expires_at_ms
    }

    pub fn is_valid(&self, now_ms: u64) -> (r: bool)
        ensures
            r == self.spec_is_valid(now_ms),
    {
        // expiry is at most u64::MAX, so a saturated sum compares the same
        // way as the exact one
        self.expires_at_ms > now_ms.saturating_add(60_000)
    }
}

/// Authentication variant.
#[derive(Debug, Clone, PartialEq, Eq, Structural)]
pub enum AuthType {
    /// Azure AD (Entra ID), for the cloud service.
    AzureAd,
    /// ADFS, for an on-premises installation.
    Adfs,
}

impl Default for AuthType {
    fn default() -> (r: Self)
        ensures
            r == AuthType::AzureAd,
    {
        AuthType::AzureAd
    }
}

impl AuthType {
    /// Read an authentication variant from its configured spelling,
    /// ignoring case.
    pub fn parse_name(s: &str) -> (r: Result<AuthType, String>)
        ensures
            ({
                let low = unicode_lower_of(s@);
                if low == "azure"@ || low == "azuread"@ || low == "azure_ad"@ || low
                    == "entra"@ {
                    r == Result::<AuthType, String>::Ok(AuthType::AzureAd)
                } else if low == "adfs"@ || low == "on-premise"@ || low == "onpremise"@ {
                    r == Result::<AuthType, String>::Ok(AuthType::Adfs)
                } else {
                    r matches Err(m) && m@ == "Unknown auth type: "@ + s@
                        + ". Use 'azure' or 'adfs'"@
                }
            }),
    {
        let low = lowercase(s);
        let l = low.as_str();
        if str_eq(l, "azure") || str_eq(l, "azuread") || str_eq(l, "azure_ad") || str_eq(
            l,
            "entra",
        ) {
            Ok(AuthType::AzureAd)
        } else if str_eq(l, "adfs") || str_eq(l, "on-premise") || str_eq(l, "onpremise") {
            Ok(AuthType::Adfs)
        } else {
            let mut m = "Unknown auth type: ".to_owned();
            m.append(s);
            m.append(". Use 'azure' or 'adfs'");
            Err(m)
        }
    }
}

impl core::str::FromStr for AuthType {
    type Err = String;

    fn from_str(s: &str) -> Result<Self, String> {
        AuthType::parse_name(s)
    }
}

/// Authentication configuration.
#[derive(Debug, Clone)]
pub struct AuthConfig {
    pub auth_type: AuthType,
    pub tenant_id: String,
    pub client_id: String,
    pub client_secret: String,
    /// Custom token URL (used by ADFS).
    pub token_url: Option<String>,
    /// Resource/audience (used by ADFS).
    pub resource: Option<String>,
}

/// The token endpoint the configuration selects: for ADFS the configured
/// URL when one is supplied, else a default constructed from the tenant;
/// for Azure AD the fixed templated URL parameterized by the tenant.
pub open spec fn spec_token_endpoint(c: AuthConfig) -> Seq<char> {
    match c.auth_type {
        AuthType::Adfs => match c.token_url {
            Some(u) => u@,
            None => "https://"@ + c.tenant_id@ + "/adfs/oauth2/token"@,
        },
        AuthType::AzureAd => "https://login.microsoftonline.com/"@ + c.tenant_id@
            + "/oauth2/v2.0/token"@,
    }
}

/// The Azure AD scope for a resource: the resource with `/.default`
/// appended, reusing a trailing slash when the resource already ends in
/// one.
pub open spec fn spec_scope_for(resource: Seq<char>) -> Seq<char> {
    if resource.len() > 0 && resource.last() == '/' {
        resource + ".default"@
    } else {
        resource + "/.default"@
    }
}

/// The form fields of a token request: Azure AD asks for a scope, ADFS for
/// a resource (the configured one when supplied, else the one passed in).
pub open spec fn spec_token_params(c: AuthConfig, resource: Seq<char>) -> Seq<
    (Seq<char>, Seq<char>),
> {
    match c.auth_type {
        AuthType::AzureAd => seq![
            ("grant_type"@, "client_credentials"@),
            ("client_id"@, c.client_id@),
            ("client_secret"@, c.client_secret@),
            ("scope"@, spec_scope_for(resource)),
        ],
        AuthType::Adfs => seq![
            ("grant_type"@, "client_credentials"@),
            ("client_id"@, c.client_id@),
            ("client_secret"@, c.client_secret@),
            (
                "resource"@,
                match c.resource {
                    Some(r) => r@,
                    None => resource,
                },
            ),
        ],
    }
}

/// What a call for a token is to do next: use the still-valid cached token,
/// or POST the given form to the given endpoint and hand the answer to
/// `accept_token_response`.
pub enum TokenStep {
    Cached(String),
    Acquire { url: String, params: Vec<(String, String)> },
}

/// The fields the library reads out of a token response.
pub struct TokenFields {
    pub access_token: String,
    pub expires_in: u64,
}

/// The expiry instant of a token good for `expires_in` seconds from
/// `now_ms`, saturated at the end of the clock.
pub open spec fn spec_expiry_ms(now_ms: u64, expires_in: u64) -> u64 {
    if now_ms + expires_in * 1000 > u64::MAX {
        u64::MAX
    } else {
        (now_ms + expires_in * 1000) as u64
    }
}

/// OAuth2 helper: the configuration and one cached bearer token.
#[derive(Debug)]
pub struct OAuth2Auth {
    pub config: AuthConfig,
    pub token_cache: Option<CachedToken>,
}

impl OAuth2Auth {
    /// Whether the cache holds a token still valid at `now_ms`.
    pub open spec fn spec_cache_fresh(self, now_ms: u64) -> bool {
        self.token_cache matches Some(c) && c.spec_is_valid(now_ms)
    }

    /// Create a new OAuth2 auth helper with an empty cache.
    pub fn new(config: AuthConfig) -> (r: Self)
        ensures
            r.config == config,
            r.token_cache is None,
    {
        OAuth2Auth { config, token_cache: None }
    }

    /// Create a new Azure AD auth helper (backward compatible).
    pub fn new_azure(tenant_id: String, client_id: String, client_secret: String) -> (r: Self)
        ensures
            r.config.auth_type == AuthType::AzureAd,
            r.config.tenant_id == tenant_id,
            r.config.client_id == client_id,
            r.config.client_secret == client_secret,
            r.config.token_url is None,
            r.config.resource is None,
            r.token_cache is None,
    {
        OAuth2Auth::new(
            AuthConfig {
                auth_type: AuthType::AzureAd,
                tenant_id,
                client_id,
                client_secret,
                token_url: None,
                resource: None,
            },
        )
    }

    /// The token endpoint URL for the configured variant. When an
    /// on-premises configuration supplies an explicit token URL, that URL
    /// is the endpoint, overriding the constructed default.
    pub fn token_endpoint(&self) -> (r: String)
        ensures
            r@ == spec_token_endpoint(self.config),
    {
        match self.config.auth_type {
            AuthType::Adfs => match &self.config.token_url {
                Some(u) => u.clone(),
                None => {
                    let mut s = "https://".to_owned();
                    s.append(self.config.tenant_id.as_str());
                    s.append("/adfs/oauth2/token");
                    s
                },
            },
            AuthType::AzureAd => {
                let mut s = "https://login.microsoftonline.com/".to_owned();
                s.append(self.config.tenant_id.as_str());
                s.append("/oauth2/v2.0/token");
                s
            },
        }
    }

    /// The form fields of a token request for `resource`.
    pub fn token_request_params(&self, resource: &str) -> (r: Vec<(String, String)>)
        ensures
            r.deep_view() == spec_token_params(self.config, resource@),
    {
        let mut params: Vec<(String, String)> = Vec::new();
        params.push(("grant_type".to_owned(), "client_credentials".to_owned()));
        params.push(("client_id".to_owned(), self.config.client_id.clone()));
        params.push(("client_secret".to_owned(), self.config.client_secret.clone()));
        match self.config.auth_type {
            AuthType::AzureAd => {
                let mut scope = resource.to_owned();
                if ends_with_char(resource, '/') {
                    scope.append(".default");
                } else {
                    scope.append("/.default");
                }
                params.push(("scope".to_owned(), scope));
            },
            AuthType::Adfs => {
                let res = match &self.config.resource {
                    Some(r) => r.clone(),
                    None => resource.to_owned(),
                };
                params.push(("resource".to_owned(), res));
            },
        }
        proof {
            assert(params.deep_view() =~= spec_token_params(self.config, resource@));
        }
        params
    }

    /// Acquire or return a cached access token for the given resource: the
    /// cached token while it is valid at `now_ms` — no network call — and
    /// otherwise the POST that acquires a new one.
    pub fn get_token(&self, resource: &str, now_ms: u64) -> (r: TokenStep)
        ensures
            self.spec_cache_fresh(now_ms) ==> (r matches TokenStep::Cached(t) && t@
                == self.token_cache.unwrap().access_token@),
            !self.spec_cache_fresh(now_ms) ==> (r matches TokenStep::Acquire { url, params }
                && url@ == spec_token_endpoint(self.config) && params.deep_view()
                == spec_token_params(self.config, resource@)),
    {
        match &self.token_cache {
            Some(cached) => {
                if cached.is_valid(now_ms) {
                    return TokenStep::Cached(cached.access_token.clone());
                }
            },
            None => {},
        }
        TokenStep::Acquire { url: self.token_endpoint(), params: self.token_request_params(
            resource,
        ) }
    }

    /// Read the fields of a token response body, exactly as
    /// `spec_token_fields_of` reads them: its `access_token`, `expires_in`
    /// and (present, unread) `token_type`; what is missing or of the wrong
    /// shape is reported as a message.
    fn token_fields_of(body: &str) -> (r: Result<TokenFields, String>)
        ensures
            (r is Ok) == (spec_token_fields_of(body@) is Some),
            r matches Ok(f) ==> spec_token_fields_of(body@) matches Some(q) && f.access_token@
                == q.0 && f.expires_in == q.1,
    {
        match token_parts(body) {
            Ok(p) => Ok(TokenFields { access_token: p.0, expires_in: p.1 }),
            Err(m) => Err(m),
        }
    }

    /// Replace the cached token wholesale with one acquired at `now_ms` and
    /// good for `fields.expires_in` seconds, and hand the bearer string
    /// back.
    pub fn store_token(&mut self, fields: TokenFields, now_ms: u64) -> (r: String)
        ensures
            final(self).config == old(self).config,
            final(self).token_cache matches Some(c) && c.access_token@ == fields.access_token@
                && c.expires_at_ms == spec_expiry_ms(now_ms, fields.expires_in),
            r@ == fields.access_token@,
    {
        let expires_at_ms = match fields.expires_in.checked_mul(1000) {
            Some(ms) => now_ms.saturating_add(ms),
            None => u64::MAX,
        };
        self.token_cache = Some(
            CachedToken { access_token: fields.access_token.clone(), expires_at_ms },
        );
        fields.access_token
    }

    /// Judge the token endpoint's answer. A non-success status is a token
    /// request failure carrying the status and body, and leaves the cache
    /// alone; a success status is decoded, a good body replaces the cached
    /// token and yields the bearer string, and an unreadable one is a parse
    /// failure that also leaves the cache alone.
    pub fn accept_token_response(&mut self, status: u16, body: &str, now_ms: u64) -> (r: Result<
        String,
        AuthError,
    >)
        ensures
            final(self).config == old(self).config,
            !(200 <= status < 300) ==> *final(self) == *old(self) && (r matches Err(e) && e matches
                AuthError::TokenRequestFailed(m) && m@ == "Status: "@ + spec_dec_digits(
                status as int,
            ) + ", Body: "@ + body@),
            (200 <= status < 300) ==> ((r is Ok) == (spec_token_fields_of(body@) is Some)),
            (200 <= status < 300) ==> (spec_token_fields_of(body@) matches Some(f) ==> (r matches
                Ok(t) && t@ == f.0 && (final(self).token_cache matches Some(c)
                && c.access_token@ == f.0 && c.expires_at_ms == spec_expiry_ms(now_ms, f.1)))),
            (200 <= status < 300 && r is Err) ==> *final(self) == *old(self) && (r->Err_0 matches
                AuthError::ParseError(m) && m@.len() > 0),
    {
        if !(200 <= status && status < 300) {
            let mut m = "Status: ".to_owned();
            m.append(u64_to_dec(status as u64).as_str());
            m.append(", Body: ");
            m.append(body);
            return Err(AuthError::TokenRequestFailed(m));
        }
        match Self::token_fields_of(body) {
            Ok(fields) => {
                let token = self.store_token(fields, now_ms);
                Ok(token)
            },
            Err(m) => {
                let mut msg = "Failed to parse token response: ".to_owned();
                proof {
                    assert(msg@.len() > 0) by {
                        reveal_strlit("Failed to parse token response: ");
                    }
                }
                msg.append(m.as_str());
                Err(AuthError::ParseError(msg))
            },
        }
    }

    /// Clear the token cache, forcing the next call to re-acquire.
    pub fn clear_cache(&mut self)
        ensures
            final(self).config == old(self).config,
            final(self).token_cache is None,
    {
        self.token_cache = None;
    }

    /// The resource/audience derived from an endpoint URL: its
    /// `scheme://host` part when the endpoint parses as a URL, else its
    /// first three `/`-separated segments.
    pub fn resource_from_endpoint(endpoint: &str) -> (r: String)
        ensures
            r@ == spec_resource_from_endpoint(endpoint@),
    {
        match split_scheme_host(endpoint) {
            Some(p) => {
                let (scheme, host) = p;
                let mut s = scheme;
                s.append("://");
                s.append(host.as_str());
                s
            },
            None => segments_prefix(endpoint, '/', 3),
        }
    }
}

/// The resource string for an endpoint: `scheme://host` when it parses as
/// a URL, else the prefix holding its first three `/`-separated segments.
pub open spec fn spec_resource_from_endpoint(s: Seq<char>) -> Seq<char> {
    match url_scheme_host(s) {
        Some(p) => p.0 + "://"@ + p.1,
        None => s.take(spec_sep_limit(s, '/', 3)),
    }
}

/// An explicitly configured token URL always wins: for an on-premises
/// configuration that supplies one, the token endpoint is that URL,
/// whatever the constructed default would have been.
pub proof fn lemma_token_url_override(c: AuthConfig)
    requires
        c.auth_type is Adfs,
        c.token_url is Some,
    ensures
        spec_token_endpoint(c) == c.token_url.unwrap()@,
{
}

/// Kept for backward compatibility with the Azure-only helper.
pub type AzureAdAuth = OAuth2Auth;

} // verus!
