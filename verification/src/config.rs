//! Configuration of the client: the shape of the file configuration, the
//! values a process environment may override, and their resolution into
//! one runtime configuration. Reading the file and the environment is the
//! caller's business; resolution itself is pure and verified.

use vstd::prelude::*;
use vstd::string::*;

use crate::trusted::{lowercase, unicode_lower_of};
use crate::strutil::str_eq;

verus! {

broadcast use vstd::string::group_string_axioms;

/// Product variant: the cloud multitenant service or the on-premises
/// Finance & Operations service.
#[derive(Debug, Clone, Copy, PartialEq, Eq, Structural)]
pub enum ProductType {
    Dataverse,
    Finops,
}

impl Default for ProductType {
    fn default() -> (r: Self)
        ensures
            r == ProductType::Dataverse,
    {
        ProductType::Dataverse
    }
}

/// The product variant named by an environment value, once lower-cased:
/// `dataverse`, or `finops` under any of its three spellings; anything
/// else names none.
pub open spec fn spec_product_of_name(low: Seq<char>) -> Option<ProductType> {
    if low == "dataverse"@ {
        Some(ProductType::Dataverse)
    } else if low == "finops"@ || low == "fno"@ || low == "fo"@ {
        Some(ProductType::Finops)
    } else {
        None
    }
}

/// Read a product variant from its configured spelling, ignoring case.
pub fn product_from_name(s: &str) -> (r: Option<ProductType>)
    ensures
        r == spec_product_of_name(unicode_lower_of(s@)),
{
    let low = lowercase(s);
    let l = low.as_str();
    if str_eq(l, "dataverse") {
        Some(ProductType::Dataverse)
    } else if str_eq(l, "finops") || str_eq(l, "fno") || str_eq(l, "fo") {
        Some(ProductType::Finops)
    } else {
        None
    }
}

/// Global configuration settings.
#[derive(Debug, Clone)]
pub struct GlobalConfig {
    pub product: ProductType,
    pub endpoint: String,
    pub page_size: Option<usize>,
    pub concurrency: Option<usize>,
    pub max_retries: Option<u32>,
    pub retry_delay_ms: Option<u64>,
}

/// Observability configuration.
#[derive(Debug, Clone)]
pub struct ObservabilityConfig {
    pub log_level: Option<String>,
    pub enable_tracing: Option<bool>,
}

impl Default for ObservabilityConfig {
    fn default() -> (r: Self)
        ensures
            r.log_level is None,
            r.enable_tracing is None,
    {
        ObservabilityConfig { log_level: None, enable_tracing: None }
    }
}

/// Delta sync storage configuration.
#[derive(Debug, Clone)]
pub struct DeltaConfig {
    pub storage_path: Option<String>,
}

impl Default for DeltaConfig {
    fn default() -> (r: Self)
        ensures
            r.storage_path is None,
    {
        DeltaConfig { storage_path: None }
    }
}

/// Entity-specific configuration.
#[derive(Debug, Clone)]
pub struct EntityConfig {
    pub name: String,
    pub initial_load: Option<bool>,
    pub delta_enabled: Option<bool>,
    pub cross_company: Option<bool>,
}

/// Root configuration structure.
#[derive(Debug, Clone)]
pub struct Config {
    pub global: GlobalConfig,
    pub observability: Option<ObservabilityConfig>,
    pub delta: Option<DeltaConfig>,
    pub entities: Option<Vec<EntityConfig>>,
}

/// Values resolved from the process environment, each present when the
/// corresponding variable is set. The caller reads them; resolution
/// against the file configuration happens in `Config::to_runtime`.
#[derive(Debug, Clone)]
pub struct EnvOverrides {
    pub tenant_id: Option<String>,
    pub client_id: Option<String>,
    pub client_secret: Option<String>,
    pub endpoint: Option<String>,
    pub product: Option<String>,
    pub auth_type: Option<String>,
    pub token_url: Option<String>,
    pub resource: Option<String>,
}

/// What resolution finds missing.
#[derive(Debug, Clone, PartialEq, Eq, Structural)]
pub enum ConfigError {
    MissingTenantId,
    MissingClientId,
    MissingClientSecret,
    MissingEndpoint,
}

impl ConfigError {
    /// The message the caller reports for this error.
    pub fn message(&self) -> (r: String)
        ensures
            *self is MissingTenantId ==> r@ == "TENANT_ID environment variable is required"@,
            *self is MissingClientId ==> r@ == "CLIENT_ID environment variable is required"@,
            *self is MissingClientSecret ==> r@
                == "CLIENT_SECRET environment variable is required"@,
            *self is MissingEndpoint ==> r@
                == "ENDPOINT environment variable or config endpoint is required"@,
    {
        match self {
            ConfigError::MissingTenantId => "TENANT_ID environment variable is required".to_owned(),
            ConfigError::MissingClientId => "CLIENT_ID environment variable is required".to_owned(),
            ConfigError::MissingClientSecret => "CLIENT_SECRET environment variable is required".to_owned(),
            ConfigError::MissingEndpoint => "ENDPOINT environment variable or config endpoint is required".to_owned(),
        }
    }
}

/// Runtime configuration with resolved values.
#[derive(Debug, Clone)]
pub struct RuntimeConfig {
    pub product: ProductType,
    pub endpoint: String,
    pub tenant_id: String,
    pub client_id: String,
    pub client_secret: String,
    /// Authentication type: "azure" or "adfs".
    pub auth_type: String,
    /// Custom token URL (for ADFS).
    pub token_url: Option<String>,
    /// Resource/audience (for ADFS).
    pub resource: Option<String>,
    pub page_size: usize,
    pub concurrency: usize,
    pub max_retries: u32,
    pub retry_delay_ms: u64,
    pub log_level: String,
    pub enable_tracing: bool,
    pub delta_storage_path: String,
    pub entities: Vec<EntityConfig>,
}

/// The endpoint resolution picks the environment value when set, else the
/// file value.
pub open spec fn spec_endpoint_choice(c: Config, env: EnvOverrides) -> Seq<char> {
    match env.endpoint {
        Some(e) => e@,
        None => c.global.endpoint@,
    }
}

/// The product resolution picks a recognized environment spelling when one
/// is set, else the file value.
pub open spec fn spec_product_choice(c: Config, env: EnvOverrides) -> ProductType {
    match env.product {
        Some(p) => match spec_product_of_name(unicode_lower_of(p@)) {
            Some(x) => x,
            None => c.global.product,
        },
        None => c.global.product,
    }
}

fn clone_opt_string(s: &Option<String>) -> (r: Option<String>)
    ensures
        r == *s,
{
    match s {
        Some(x) => Some(x.clone()),
        None => None,
    }
}

fn clone_entities(es: &Vec<EntityConfig>) -> (r: Vec<EntityConfig>)
    ensures
        r@ == es@,
{
    let mut out: Vec<EntityConfig> = Vec::new();
    let mut i: usize = 0;
    while i < es.len()
        invariant
            i <= es.len(),
            out@ =~= es@.take(i as int),
        decreases es.len() - i,
    {
        let e = &es[i];
        out.push(
            EntityConfig {
                name: e.name.clone(),
                initial_load: e.initial_load,
                delta_enabled: e.delta_enabled,
                cross_company: e.cross_company,
            },
        );
        proof {
            assert(out@ =~= es@.take(i + 1));
        }
        i = i + 1;
    }
    proof {
        assert(es@.take(es.len() as int) =~= es@);
    }
    out
}

impl Config {
    /// The minimal default configuration, used when no configuration file
    /// is present.
    pub fn load_default() -> (r: Config)
        ensures
            r.global.product == ProductType::Dataverse,
            r.global.endpoint@ == Seq::<char>::empty(),
            r.global.page_size == Some(500usize),
            r.global.concurrency == Some(4usize),
            r.global.max_retries == Some(3u32),
            r.global.retry_delay_ms == Some(1000u64),
            r.observability matches Some(o) && o.log_level is None && o.enable_tracing is None,
            r.delta matches Some(d) && d.storage_path is None,
            r.entities is None,
    {
        Config {
            global: GlobalConfig {
                product: ProductType::Dataverse,
                endpoint: String::new(),
                page_size: Some(500),
                concurrency: Some(4),
                max_retries: Some(3),
                retry_delay_ms: Some(1000),
            },
            observability: Some(ObservabilityConfig { log_level: None, enable_tracing: None }),
            delta: Some(DeltaConfig { storage_path: None }),
            entities: None,
        }
    }

    /// Resolve the configuration against the environment values, which
    /// take precedence over the file. Tenant, client and secret must come
    /// from the environment; the endpoint must be non-empty from one of
    /// the two sources; everything else falls back to a default.
    pub fn to_runtime(&self, env: &EnvOverrides) -> (r: Result<RuntimeConfig, ConfigError>)
        ensures
            env.tenant_id is None ==> r == Result::<RuntimeConfig, ConfigError>::Err(
                ConfigError::MissingTenantId,
            ),
            env.tenant_id is Some && env.client_id is None ==> r == Result::<
                RuntimeConfig,
                ConfigError,
            >::Err(ConfigError::MissingClientId),
            env.tenant_id is Some && env.client_id is Some && env.client_secret is None ==> r
                == Result::<RuntimeConfig, ConfigError>::Err(ConfigError::MissingClientSecret),
            env.tenant_id is Some && env.client_id is Some && env.client_secret is Some
                && spec_endpoint_choice(*self, *env).len() == 0 ==> r == Result::<
                RuntimeConfig,
                ConfigError,
            >::Err(ConfigError::MissingEndpoint),
            env.tenant_id is Some && env.client_id is Some && env.client_secret is Some
                && spec_endpoint_choice(*self, *env).len() > 0 ==> (r matches Ok(rc) && ({
                &&& rc.tenant_id@ == env.tenant_id.unwrap()@
                &&& rc.client_id@ == env.client_id.unwrap()@
                &&& rc.client_secret@ == env.client_secret.unwrap()@
                &&& rc.endpoint@ == spec_endpoint_choice(*self, *env)
                &&& rc.product == spec_product_choice(*self, *env)
                &&& rc.auth_type@ == (match env.auth_type {
                    Some(a) => a@,
                    None => "azure"@,
                })
                &&& rc.token_url == env.token_url
                &&& rc.resource == env.resource
                &&& rc.page_size == (match self.global.page_size {
                    Some(n) => n,
                    None => 500usize,
                })
                &&& rc.concurrency == (match self.global.concurrency {
                    Some(n) => n,
                    None => 4usize,
                })
                &&& rc.max_retries == (match self.global.max_retries {
                    Some(n) => n,
                    None => 3u32,
                })
                &&& rc.retry_delay_ms == (match self.global.retry_delay_ms {
                    Some(n) => n,
                    None => 1000u64,
                })
                &&& rc.log_level@ == (match self.observability {
                    Some(o) => match o.log_level {
                        Some(l) => l@,
                        None => "info"@,
                    },
                    None => "info"@,
                })
                &&& rc.enable_tracing == (match self.observability {
                    Some(o) => match o.enable_tracing {
                        Some(b) => b,
                        None => false,
                    },
                    None => false,
                })
                &&& rc.delta_storage_path@ == (match self.delta {
                    Some(d) => match d.storage_path {
                        Some(p) => p@,
                        None => "./delta_state.json"@,
                    },
                    None => "./delta_state.json"@,
                })
                &&& rc.entities@ == (match self.entities {
                    Some(es) => es@,
                    None => Seq::<EntityConfig>::empty(),
                })
            })),
    {
        let tenant_id = match &env.tenant_id {
            Some(t) => t.clone(),
            None => {
                return Err(ConfigError::MissingTenantId);
            },
        };
        let client_id = match &env.client_id {
            Some(c) => c.clone(),
            None => {
                return Err(ConfigError::MissingClientId);
            },
        };
        let client_secret = match &env.client_secret {
            Some(c) => c.clone(),
            None => {
                return Err(ConfigError::MissingClientSecret);
            },
        };
        let endpoint = match &env.endpoint {
            Some(e) => e.clone(),
            None => self.global.endpoint.clone(),
        };
        if endpoint.as_str().is_empty() {
            return Err(ConfigError::MissingEndpoint);
        }
        let product = match &env.product {
            Some(p) => match product_from_name(p.as_str()) {
                Some(x) => x,
                None => self.global.product,
            },
            None => self.global.product,
        };
        let auth_type = match &env.auth_type {
            Some(a) => a.clone(),
            None => "azure".to_owned(),
        };
        let page_size = match self.global.page_size {
            Some(n) => n,
            None => 500,
        };
        let concurrency = match self.global.concurrency {
            Some(n) => n,
            None => 4,
        };
        let max_retries = match self.global.max_retries {
            Some(n) => n,
            None => 3,
        };
        let retry_delay_ms = match self.global.retry_delay_ms {
            Some(n) => n,
            None => 1000,
        };
        let log_level = match &self.observability {
            Some(o) => match &o.log_level {
                Some(l) => l.clone(),
                None => "info".to_owned(),
            },
            None => "info".to_owned(),
        };
        let enable_tracing = match &self.observability {
            Some(o) => match o.enable_tracing {
                Some(b) => b,
                None => false,
            },
            None => false,
        };
        let delta_storage_path = match &self.delta {
            Some(d) => match &d.storage_path {
                Some(p) => p.clone(),
                None => "./delta_state.json".to_owned(),
            },
            None => "./delta_state.json".to_owned(),
        };
        let entities = match &self.entities {
            Some(es) => clone_entities(es),
            None => Vec::new(),
        };
        Ok(
            RuntimeConfig {
                product,
                endpoint,
                tenant_id,
                client_id,
                client_secret,
                auth_type,
                token_url: clone_opt_string(&env.token_url),
                resource: clone_opt_string(&env.resource),
                page_size,
                concurrency,
                max_retries,
                retry_delay_ms,
                log_level,
                enable_tracing,
                delta_storage_path,
                entities,
            },
        )
    }
}

} // verus!
