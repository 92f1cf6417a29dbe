//! The client facade: one handle owning the credential store, the
//! normalized base endpoint, the product variant and the retry budget.
//! It builds every URL, header list and token request, decodes the paged
//! responses, and accumulates records across continuation links; the
//! caller only moves bytes over HTTP and sleeps when told to.

use vstd::prelude::*;
use vstd::string::*;

use crate::auth::{
    spec_expiry_ms, spec_resource_from_endpoint, spec_token_endpoint, spec_token_params,
    AuthError, OAuth2Auth, TokenStep,
};
use crate::config::ProductType;
use crate::query::{spec_query_string, QueryOptions};
use crate::retry::{ODataError, RetryPolicy};
use crate::trusted::{
    json_parse, page_parts, spec_json_parses, spec_page_fields_of, spec_token_fields_of,
};

verus! {

broadcast use vstd::string::group_string_axioms;

/// One page of an OData response: the context descriptor, the
/// continuation link when more pages follow, the inline total count when
/// one was asked for, a delta-sync link passed through unexamined, and
/// the raw records — opaque structured values whose schema the client
/// never assumes.
#[derive(Debug)]
pub struct ODataResponse {
    pub context: Option<String>,
    pub next_link: Option<String>,
    pub count: Option<i64>,
    pub delta_link: Option<String>,
    pub value: Vec<serde_json::Value>,
}

/// Entity metadata information.
#[derive(Debug, Clone)]
pub struct EntityInfo {
    pub name: String,
    pub entity_set_name: String,
    pub description: Option<String>,
}

/// The running accumulation of a paged fetch: the records gathered so
/// far, in page-arrival order, and the URL of the page still to fetch —
/// none when the server stopped supplying continuation links.
pub struct PageWalk {
    pub records: Vec<serde_json::Value>,
    pub next_url: Option<String>,
}

impl PageWalk {
    /// Fold one decoded page in: its records go to the back of the
    /// accumulator, in order, and its continuation link (or the lack of
    /// one) decides whether the walk goes on.
    pub fn step(&mut self, page: ODataResponse)
        ensures
            final(self).records@ == old(self).records@ + page.value@,
            final(self).next_url == page.next_link,
    {
        let mut p = page;
        self.records.append(&mut p.value);
        self.next_url = p.next_link;
    }
}

/// The records of a run of pages laid end to end, in arrival order.
pub open spec fn spec_page_records(pages: Seq<ODataResponse>) -> Seq<serde_json::Value>
    decreases pages.len(),
{
    if pages.len() == 0 {
        Seq::empty()
    } else {
        pages[0].value@ + spec_page_records(pages.drop_first())
    }
}

/// The accumulator after `PageWalk::step` has folded a run of pages into
/// it, one unfolding per step as the step's contract states.
pub open spec fn spec_walk_after(
    records: Seq<serde_json::Value>,
    pages: Seq<ODataResponse>,
) -> Seq<serde_json::Value>
    decreases pages.len(),
{
    if pages.len() == 0 {
        records
    } else {
        spec_walk_after(records + pages[0].value@, pages.drop_first())
    }
}

/// What a finished walk returns: folding the pages of a run into the
/// accumulator appends exactly those pages' records, in page-arrival
/// order, after what the walk already held.
pub proof fn lemma_walk_accumulates(start: Seq<serde_json::Value>, pages: Seq<ODataResponse>)
    ensures
        spec_walk_after(start, pages) == start + spec_page_records(pages),
    decreases pages.len(),
{
    if pages.len() == 0 {
        assert(start + spec_page_records(pages) =~= start);
    } else {
        lemma_walk_accumulates(start + pages[0].value@, pages.drop_first());
        assert(start + pages[0].value@ + spec_page_records(pages.drop_first()) =~= start
            + spec_page_records(pages));
    }
}

/// The endpoint normalized to end with a path separator.
pub open spec fn spec_normalized_endpoint(s: Seq<char>) -> Seq<char> {
    if s.len() > 0 && s.last() == '/' {
        s
    } else {
        s + "/"@
    }
}

/// OData client handle for the D365 APIs.
#[derive(Debug)]
pub struct ODataClient {
    pub auth: OAuth2Auth,
    pub endpoint: String,
    pub product: ProductType,
    pub max_retries: u32,
    pub retry_delay_ms: u64,
    /// Whether the caller's transport may skip certificate verification.
    pub insecure_ssl: bool,
}

impl ODataClient {
    /// Create a new client handle. The endpoint is normalized to end with
    /// `/`; the transport flags are stored for the caller's use.
    pub fn new(
        auth: OAuth2Auth,
        endpoint: String,
        product: ProductType,
        max_retries: u32,
        retry_delay_ms: u64,
        insecure_ssl: bool,
    ) -> (r: Self)
        ensures
            r.auth == auth,
            r.endpoint@ == spec_normalized_endpoint(endpoint@),
            r.product == product,
            r.max_retries == max_retries,
            r.retry_delay_ms == retry_delay_ms,
            r.insecure_ssl == insecure_ssl,
    {
        let endpoint = if crate::strutil::ends_with_char(endpoint.as_str(), '/') {
            endpoint
        } else {
            let mut e = endpoint;
            e.append("/");
            e
        };
        ODataClient { auth, endpoint, product, max_retries, retry_delay_ms, insecure_ssl }
    }

    /// Get the endpoint URL.
    pub fn endpoint(&self) -> (r: &str)
        ensures
            r@ == self.endpoint@,
    {
        self.endpoint.as_str()
    }

    /// Get the product type.
    pub fn product(&self) -> (r: &ProductType)
        ensures
            *r == self.product,
    {
        &self.product
    }

    /// The retry budget the handle was configured with.
    pub fn retry_policy(&self) -> (r: RetryPolicy)
        ensures
            r.max_retries == self.max_retries,
            r.initial_delay_ms == self.retry_delay_ms,
    {
        RetryPolicy { max_retries: self.max_retries, initial_delay_ms: self.retry_delay_ms }
    }

    /// The resource URL for token acquisition, derived from the handle's
    /// own endpoint.
    pub fn resource(&self) -> (r: String)
        ensures
            r@ == spec_resource_from_endpoint(self.endpoint@),
    {
        OAuth2Auth::resource_from_endpoint(self.endpoint.as_str())
    }

    /// What a call needing a token does next: use the cached token while
    /// it is valid at `now_ms`, else POST the returned form and hand the
    /// answer to `accept_token_response`.
    pub fn token_step(&self, now_ms: u64) -> (r: TokenStep)
        ensures
            self.auth.spec_cache_fresh(now_ms) ==> (r matches TokenStep::Cached(t) && t@
                == self.auth.token_cache.unwrap().access_token@),
            !self.auth.spec_cache_fresh(now_ms) ==> (r matches TokenStep::Acquire { url, params }
                && url@ == spec_token_endpoint(self.auth.config) && params.deep_view()
                == spec_token_params(
                self.auth.config,
                spec_resource_from_endpoint(self.endpoint@),
            )),
    {
        let resource = self.resource();
        self.auth.get_token(resource.as_str(), now_ms)
    }

    /// Judge the token endpoint's answer, wrapping any authentication
    /// failure as a data-fetch failure. The cache and the bearer string
    /// behave as in `OAuth2Auth::accept_token_response`.
    pub fn accept_token_response(&mut self, status: u16, body: &str, now_ms: u64) -> (r: Result<
        String,
        ODataError,
    >)
        ensures
            final(self).endpoint == old(self).endpoint,
            final(self).product == old(self).product,
            final(self).max_retries == old(self).max_retries,
            final(self).retry_delay_ms == old(self).retry_delay_ms,
            final(self).insecure_ssl == old(self).insecure_ssl,
            final(self).auth.config == old(self).auth.config,
            !(200 <= status < 300) ==> (final(self).auth == old(self).auth && (r matches Err(e)
                && (e matches ODataError::AuthError(a) && a is TokenRequestFailed))),
            (200 <= status < 300) ==> ((r is Ok) == (spec_token_fields_of(body@) is Some)),
            (200 <= status < 300) ==> (spec_token_fields_of(body@) matches Some(f) ==> (r matches
                Ok(t) && t@ == f.0 && (final(self).auth.token_cache matches Some(c)
                && c.access_token@ == f.0 && c.expires_at_ms == spec_expiry_ms(now_ms, f.1)))),
            (200 <= status < 300 && r is Err) ==> (final(self).auth == old(self).auth
                && (r->Err_0 matches ODataError::AuthError(a) && a is ParseError)),
    {
        match self.auth.accept_token_response(status, body, now_ms) {
            Ok(t) => Ok(t),
            Err(e) => Err(ODataError::AuthError(e)),
        }
    }

    /// The URL of the service's metadata document.
    pub fn metadata_url(&self) -> (r: String)
        ensures
            r@ == self.endpoint@ + "$metadata"@,
    {
        let mut u = self.endpoint.clone();
        u.append("$metadata");
        u
    }

    /// Judge a metadata response: any success status yields the body —
    /// the raw XML text — and any other status is a server failure
    /// carrying status and body. Metadata fetches are not retried.
    pub fn metadata_result(status: u16, body: String) -> (r: Result<String, ODataError>)
        ensures
            (200 <= status < 300) ==> (r matches Ok(b) && b@ == body@),
            !(200 <= status < 300) ==> (r matches Err(e) && e matches ODataError::ServerError(
                st,
                b,
            ) && st == status && b@ == body@),
    {
        if 200 <= status && status < 300 {
            Ok(body)
        } else {
            Err(ODataError::ServerError(status, body))
        }
    }

    /// The URL of one page of an entity set: the previous response's
    /// continuation link verbatim when one is at hand — the server has
    /// already encoded the applied query in it — else the base endpoint,
    /// the entity set name and the options' query string.
    pub fn page_url(&self, entity: &str, next_link: Option<&str>, options: &QueryOptions) -> (r:
        String)
        ensures
            next_link matches Some(l) ==> r@ == l@,
            next_link is None ==> r@ == self.endpoint@ + entity@ + spec_query_string(
                *options,
                self.product,
            ),
    {
        match next_link {
            Some(l) => l.to_owned(),
            None => {
                let mut u = self.endpoint.clone();
                u.append(entity);
                u.append(options.to_query_string(&self.product).as_str());
                u
            },
        }
    }

    /// The URL of a single entity fetched by key.
    pub fn entity_url(&self, entity: &str, key: &str) -> (r: String)
        ensures
            r@ == self.endpoint@ + entity@ + "("@ + key@ + ")"@,
    {
        let mut u = self.endpoint.clone();
        u.append(entity);
        u.append("(");
        u.append(key);
        u.append(")");
        u
    }

    /// The fixed headers of every data request, carrying the bearer token.
    pub fn request_headers(token: &str) -> (r: Vec<(String, String)>)
        ensures
            r.deep_view() == seq![
                ("Authorization"@, "Bearer "@ + token@),
                ("Accept"@, "application/json"@),
                ("OData-MaxVersion"@, "4.0"@),
                ("OData-Version"@, "4.0"@),
                ("Prefer"@, "odata.include-annotations=*"@),
            ],
    {
        let mut bearer = "Bearer ".to_owned();
        bearer.append(token);
        let mut hs: Vec<(String, String)> = Vec::new();
        hs.push(("Authorization".to_owned(), bearer));
        hs.push(("Accept".to_owned(), "application/json".to_owned()));
        hs.push(("OData-MaxVersion".to_owned(), "4.0".to_owned()));
        hs.push(("OData-Version".to_owned(), "4.0".to_owned()));
        hs.push(("Prefer".to_owned(), "odata.include-annotations=*".to_owned()));
        proof {
            assert(hs.deep_view() =~= seq![
                ("Authorization"@, "Bearer "@ + token@),
                ("Accept"@, "application/json"@),
                ("OData-MaxVersion"@, "4.0"@),
                ("OData-Version"@, "4.0"@),
                ("Prefer"@, "odata.include-annotations=*"@),
            ]);
        }
        hs
    }

    /// The headers of a metadata request: the bearer token, and XML asked
    /// for instead of JSON.
    pub fn metadata_headers(token: &str) -> (r: Vec<(String, String)>)
        ensures
            r.deep_view() == seq![
                ("Authorization"@, "Bearer "@ + token@),
                ("Accept"@, "application/xml"@),
            ],
    {
        let mut bearer = "Bearer ".to_owned();
        bearer.append(token);
        let mut hs: Vec<(String, String)> = Vec::new();
        hs.push(("Authorization".to_owned(), bearer));
        hs.push(("Accept".to_owned(), "application/xml".to_owned()));
        proof {
            assert(hs.deep_view() =~= seq![
                ("Authorization"@, "Bearer "@ + token@),
                ("Accept"@, "application/xml"@),
            ]);
        }
        hs
    }

    /// Start a paged fetch of an entity set: nothing accumulated, and the
    /// first page's URL waiting to be fetched.
    pub fn begin_walk(&self, entity: &str, options: &QueryOptions) -> (w: PageWalk)
        ensures
            w.records@ == Seq::<serde_json::Value>::empty(),
            w.next_url matches Some(u) && u@ == self.endpoint@ + entity@ + spec_query_string(
                *options,
                self.product,
            ),
    {
        PageWalk { records: Vec::new(), next_url: Some(self.page_url(entity, None, options)) }
    }
}

/// Decode one page of entity data, exactly as `spec_page_fields_of` reads
/// the body: a body that is not one JSON document is a parse failure; in
/// a document, each annotation of the expected shape fills its field and
/// the others are left empty, and the `value` array supplies the records,
/// none when it is absent or no array.
pub fn decode_page(body: &str) -> (r: Result<ODataResponse, ODataError>)
    ensures
        (r is Ok) == spec_json_parses(body@),
        r matches Ok(p) ==> spec_page_fields_of(body@) matches Some(q) && p.context.deep_view()
            == q.0 && p.next_link.deep_view() == q.1 && p.count == q.2
            && p.delta_link.deep_view() == q.3 && p.value@ == q.4,
        r matches Err(e) ==> e is ParseError,
{
    match page_parts(body) {
        Ok(p) => {
            let (context, next_link, count, delta_link, value) = p;
            Ok(ODataResponse { context, next_link, count, delta_link, value })
        },
        Err(m) => {
            let mut msg = "Failed to parse OData response: ".to_owned();
            msg.append(m.as_str());
            Err(ODataError::ParseError(msg))
        },
    }
}

/// Decode a single entity fetched by key: the body parsed as one opaque
/// record exactly when it is one JSON document, else a parse failure.
pub fn decode_record(body: &str) -> (r: Result<serde_json::Value, ODataError>)
    ensures
        (r is Ok) == spec_json_parses(body@),
        r matches Err(e) ==> e is ParseError,
{
    match json_parse(body) {
        Ok(v) => Ok(v),
        Err(m) => {
            let mut msg = "Failed to parse entity: ".to_owned();
            msg.append(m.as_str());
            Err(ODataError::ParseError(msg))
        },
    }
}

impl From<AuthError> for ODataError {
    fn from(e: AuthError) -> (r: ODataError) {
        ODataError::AuthError(e)
    }
}

impl vstd::std_specs::convert::FromSpecImpl<AuthError> for ODataError {
    open spec fn obeys_from_spec() -> bool {
        true
    }

    open spec fn from_spec(e: AuthError) -> ODataError {
        ODataError::AuthError(e)
    }
}

} // verus!
