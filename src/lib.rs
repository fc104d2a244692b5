//! Orchestration core of a developer command-line tool: a typed model of the
//! per-project configuration, builders for the database client, tunnel and
//! pooling-proxy commands, a parser for port-forwarding specifiers and the
//! decision logic of the process supervisor that runs them.
pub mod command;
pub mod config;
pub mod error;
pub mod files;
pub mod forwarding;
pub mod kong;
pub mod port;
pub mod session;
pub mod supervisor;
pub mod text;
pub mod util;

pub use command::{postgres_pgbouncer_cmd, postgres_shell_cmd, postgres_tunnel_cmd, CommandSpec};
pub use config::{
    environment_type, select_postgres_config, Config, EnvironmentType, PortForwardConfig,
    PostgresConfig, PostgresConfigType,
};
pub use error::FigError;
pub use files::select_by_extension;
pub use forwarding::{parse_forwarding_string, port_forward_script, temp_pod_name, ForwardingInfo};
pub use kong::{generate_kong_api_keys, KongResources};
pub use session::{
    postgres_cli_cmd, postgres_session, session_mode, PostgresSession, SessionMode,
};
pub use supervisor::{Phase, Supervisor, SupervisorAction, SupervisorEvent};
pub use util::{confirms_overwrite, random_alphanum, temp_file_name};
