//! The configuration model: deployment environments and, for each of them,
//! how to reach a PostgreSQL instance.
use vstd::prelude::*;

use crate::error::FigError;
use crate::text::str_eq;

verus! {

/// The port of PostgreSQL when the configuration names none.
pub const DEFAULT_POSTGRES_PORT: u16 = 5432;

/// How a PostgreSQL instance is reached.
#[derive(Debug, Clone)]
pub enum PostgresConfigType {
    /// Through `kubectl port-forward` to a deployment, optionally to one
    /// container of it.
    Kubernetes { context: String, namespace: String, deployment: String, container: Option<String> },
    /// Through the cloud SQL proxy bound to an instance.
    GCloudProxy { instance: String },
    /// Directly, at the configured host and port.
    Direct,
}

/// Connection settings of one PostgreSQL instance.
#[derive(Debug, Clone)]
pub struct PostgresConfig {
    pub connection_kind: PostgresConfigType,
    pub host: Option<String>,
    pub port: Option<u16>,
    pub user: String,
    pub password: Option<String>,
    pub database: String,
    pub schema: Option<String>,
}

impl PostgresConfig {
    /// The host, `localhost` when none is configured.
    pub open spec fn spec_host(&self) -> Seq<char> {
        match self.host {
            Some(h) => h@,
            None => "localhost"@,
        }
    }

    /// The port, 5432 when none is configured.
    pub open spec fn spec_port(&self) -> u16 {
        match self.port {
            Some(p) => p,
            None => DEFAULT_POSTGRES_PORT,
        }
    }

    /// The schema, `public` when none is configured.
    pub open spec fn spec_schema(&self) -> Seq<char> {
        match self.schema {
            Some(s) => s@,
            None => "public"@,
        }
    }

    /// Whether connections go through a tunnel process.
    pub open spec fn is_tunneled(&self) -> bool {
        !(self.connection_kind is Direct)
    }

    pub fn host(&self) -> (r: String)
        ensures
            r@ == self.spec_host(),
    {
        match &self.host {
            Some(h) => h.clone(),
            None => "localhost".to_owned(),
        }
    }

    pub fn port(&self) -> (r: u16)
        ensures
            r == self.spec_port(),
    {
        match self.port {
            Some(p) => p,
            None => DEFAULT_POSTGRES_PORT,
        }
    }

    pub fn schema(&self) -> (r: String)
        ensures
            r@ == self.spec_schema(),
    {
        match &self.schema {
            Some(s) => s.clone(),
            None => "public".to_owned(),
        }
    }
}

/// Defaults of the generic Kubernetes port-forward command.
#[derive(Debug, Clone)]
pub struct PortForwardConfig {
    pub context: Option<String>,
    pub namespace: Option<String>,
}

/// The root of a configuration document.
#[derive(Debug, Clone)]
pub struct Config {
    pub port_forward: Option<PortForwardConfig>,
    pub postgres_local: Option<PostgresConfig>,
    pub postgres_test: Option<PostgresConfig>,
    pub postgres_prod: Option<PostgresConfig>,
}

impl Config {
    /// The PostgreSQL block of environment `env`, if the document has one.
    pub open spec fn postgres_block(&self, env: EnvironmentType) -> Option<PostgresConfig> {
        match env {
            EnvironmentType::Local => self.postgres_local,
            EnvironmentType::Test => self.postgres_test,
            EnvironmentType::Production => self.postgres_prod,
        }
    }
}

/// A deployment environment.
#[derive(Debug, Clone, Copy, PartialEq, Eq, Structural, Hash)]
pub enum EnvironmentType {
    Local,
    Test,
    Production,
}

/// The environment that a name selects: `local`, `test` or `prod`.
pub open spec fn environment_named(name: Seq<char>) -> Option<EnvironmentType> {
    if name == "local"@ {
        Some(EnvironmentType::Local)
    } else if name == "test"@ {
        Some(EnvironmentType::Test)
    } else if name == "prod"@ {
        Some(EnvironmentType::Production)
    } else {
        None
    }
}

/// The environment selected by an optional name, if any.
pub open spec fn environment_of(env: Option<&str>) -> Option<EnvironmentType> {
    match env {
        Some(name) => environment_named(name@),
        None => None,
    }
}

/// Resolves an environment name strictly: a missing or unknown name is an
/// error, never a silent default.
pub fn environment_type(env: Option<&str>) -> (r: Result<EnvironmentType, FigError>)
    ensures
        match environment_of(env) {
            Some(e) => r == Ok::<EnvironmentType, FigError>(e),
            None => r matches Err(FigError::EnvError(_)),
        },
{
    match env {
        Some(name) => {
            if str_eq(name, "local") {
                Ok(EnvironmentType::Local)
            } else if str_eq(name, "test") {
                Ok(EnvironmentType::Test)
            } else if str_eq(name, "prod") {
                Ok(EnvironmentType::Production)
            } else {
                Err(FigError::EnvError("environment not set".to_owned()))
            }
        },
        None => Err(FigError::EnvError("environment not set".to_owned())),
    }
}

/// The PostgreSQL block of the environment that `env` names. Fails when the
/// name is not an environment, or when the document has no block for it.
pub fn select_postgres_config<'a>(config: &'a Config, env: Option<&str>) -> (r: Result<
    &'a PostgresConfig,
    FigError,
>)
    ensures
        match environment_of(env) {
            None => r matches Err(FigError::EnvError(_)),
            Some(e) => match config.postgres_block(e) {
                Some(pg) => r matches Ok(p) && *p == pg,
                None => r matches Err(FigError::ConfigError(_)),
            },
        },
{
    let e = environment_type(env)?;
    match e {
        EnvironmentType::Local => match &config.postgres_local {
            Some(pg) => Ok(pg),
            None => Err(FigError::ConfigError("[postgres_local] block is invalid".to_owned())),
        },
        EnvironmentType::Test => match &config.postgres_test {
            Some(pg) => Ok(pg),
            None => Err(FigError::ConfigError("[postgres_test] block is invalid".to_owned())),
        },
        EnvironmentType::Production => match &config.postgres_prod {
            Some(pg) => Ok(pg),
            None => Err(FigError::ConfigError("[postgres_prod] block is invalid".to_owned())),
        },
    }
}

} // verus!
