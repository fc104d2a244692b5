//! A database session: which commands to run, in which mode, for the
//! environment that the caller selected.
use vstd::prelude::*;

use crate::command::{
    bouncer_command, postgres_pgbouncer_cmd, postgres_shell_cmd, postgres_tunnel_cmd,
    pgbouncer_ini_text, shell_command, tunnel_command, CommandSpec, CommandView,
};
use crate::config::{environment_of, select_postgres_config, Config, PostgresConfig};
use crate::error::FigError;
use crate::port::allocate_port;

verus! {

/// What a database session runs. Exactly one mode is active.
#[derive(Debug, Clone, Copy, PartialEq, Eq, Structural)]
pub enum SessionMode {
    /// An interactive client, behind the tunnel.
    Shell,
    /// A local pooling proxy, behind the tunnel.
    Bouncer,
    /// The tunnel alone, run to completion.
    Forward,
}

/// The shell takes priority, then the pooling proxy; plain forwarding is
/// the default.
pub open spec fn spec_session_mode(interactive_shell: bool, use_pgbouncer: bool) -> SessionMode {
    if interactive_shell {
        SessionMode::Shell
    } else if use_pgbouncer {
        SessionMode::Bouncer
    } else {
        SessionMode::Forward
    }
}

pub fn session_mode(interactive_shell: bool, use_pgbouncer: bool) -> (r: SessionMode)
    ensures
        r == spec_session_mode(interactive_shell, use_pgbouncer),
{
    if interactive_shell {
        SessionMode::Shell
    } else if use_pgbouncer {
        SessionMode::Bouncer
    } else {
        SessionMode::Forward
    }
}

/// The commands of one session, and the file to write before they start.
#[derive(Debug, Clone)]
pub struct PostgresSession {
    /// The local port that the session serves.
    pub port: u16,
    /// The port between the pooling proxy and the tunnel, in that mode.
    pub bridge_port: Option<u16>,
    /// The command whose exit ends the session.
    pub primary: CommandSpec,
    /// The tunnel to start first and to tear down at the end.
    pub tunnel: Option<CommandSpec>,
    /// A path and the text to write there before starting the commands.
    pub config_file: Option<(String, String)>,
}

pub struct PostgresSessionView {
    pub port: u16,
    pub bridge_port: Option<u16>,
    pub primary: CommandView,
    pub tunnel: Option<CommandView>,
    pub config_file: Option<(Seq<char>, Seq<char>)>,
}

impl View for PostgresSession {
    type V = PostgresSessionView;

    open spec fn view(&self) -> PostgresSessionView {
        PostgresSessionView {
            port: self.port,
            bridge_port: self.bridge_port,
            primary: self.primary@,
            tunnel: match self.tunnel {
                Some(t) => Some(t@),
                None => None,
            },
            config_file: match self.config_file {
                Some(f) => Some((f.0@, f.1@)),
                None => None,
            },
        }
    }
}

/// Whether a session of `mode` can be built for `c`: the pooling proxy needs
/// a password, plain forwarding needs a tunnel.
pub open spec fn session_possible(c: PostgresConfig, mode: SessionMode) -> bool {
    match mode {
        SessionMode::Shell => true,
        SessionMode::Bouncer => c.password is Some,
        SessionMode::Forward => c.is_tunneled(),
    }
}

/// The session of `mode` for `c` on local port `port`. `bridge` is the port
/// between the pooling proxy and the tunnel; other modes do not use it.
pub open spec fn session_of(
    c: PostgresConfig,
    mode: SessionMode,
    port: u16,
    bridge: u16,
    ini_path: Seq<char>,
) -> PostgresSessionView {
    match mode {
        SessionMode::Shell => PostgresSessionView {
            port,
            bridge_port: None,
            primary: shell_command(c, port),
            tunnel: tunnel_command(c, port),
            config_file: None,
        },
        SessionMode::Bouncer => PostgresSessionView {
            port,
            bridge_port: Some(bridge),
            primary: bouncer_command(ini_path),
            tunnel: tunnel_command(c, bridge),
            config_file: Some(
                (ini_path, pgbouncer_ini_text(c, c.password->Some_0@, port, bridge)),
            ),
        },
        SessionMode::Forward => PostgresSessionView {
            port,
            bridge_port: None,
            primary: tunnel_command(c, port)->Some_0,
            tunnel: None,
            config_file: None,
        },
    }
}

/// The bridge port recorded in a session, 0 where there is none.
pub open spec fn bridge_or_zero(s: PostgresSessionView) -> u16 {
    match s.bridge_port {
        Some(b) => b,
        None => 0,
    }
}

/// Builds the session of `mode` for one PostgreSQL block.
pub fn postgres_session(
    config: &PostgresConfig,
    mode: SessionMode,
    port: u16,
    bridge_port: u16,
    ini_path: &str,
) -> (r: Result<PostgresSession, FigError>)
    ensures
        r is Ok <==> session_possible(*config, mode),
        r matches Err(e) ==> e is ConfigError,
        r matches Ok(s) ==> s@ == session_of(*config, mode, port, bridge_port, ini_path@),
{
    match mode {
        SessionMode::Shell => {
            let primary = postgres_shell_cmd(config, port);
            let tunnel = postgres_tunnel_cmd(config, port);
            Ok(PostgresSession { port, bridge_port: None, primary, tunnel, config_file: None })
        },
        SessionMode::Bouncer => {
            let (primary, ini) = postgres_pgbouncer_cmd(config, port, bridge_port, ini_path)?;
            let tunnel = postgres_tunnel_cmd(config, bridge_port);
            Ok(
                PostgresSession {
                    port,
                    bridge_port: Some(bridge_port),
                    primary,
                    tunnel,
                    config_file: Some((ini_path.to_owned(), ini)),
                },
            )
        },
        SessionMode::Forward => match postgres_tunnel_cmd(config, port) {
            Some(primary) => Ok(
                PostgresSession { port, bridge_port: None, primary, tunnel: None, config_file: None },
            ),
            None => Err(
                FigError::ConfigError(
                    "a direct connection has no port to forward".to_owned(),
                ),
            ),
        },
    }
}

/// Plans the database session that the caller asked for: resolves the
/// environment, selects its block, checks that the mode can serve it, then
/// takes the ports it needs (the local one only where `port` is `None`, the
/// bridge only for the pooling proxy) from `allocate`. Nothing is allocated
/// when the configuration is unusable.
pub fn postgres_cli_cmd<F: Fn() -> Result<u16, FigError>>(
    config: &Config,
    env: Option<&str>,
    port: Option<u16>,
    interactive_shell: bool,
    use_pgbouncer: bool,
    ini_path: &str,
    allocate: F,
) -> (r: Result<PostgresSession, FigError>)
    requires
        allocate.requires(()),
    ensures
        match environment_of(env) {
            None => r matches Err(FigError::EnvError(_)),
            Some(e) => match config.postgres_block(e) {
                None => r matches Err(FigError::ConfigError(_)),
                Some(pg) => {
                    let mode = spec_session_mode(interactive_shell, use_pgbouncer);
                    if !session_possible(pg, mode) {
                        r matches Err(FigError::ConfigError(_))
                    } else {
                        &&& r matches Ok(s) ==> {
                            &&& s@ == session_of(pg, mode, s.port, bridge_or_zero(s@), ini_path@)
                            &&& port matches Some(p) ==> s.port == p
                            &&& port is None ==> s.port != 0 && allocate.ensures(
                                (),
                                Ok::<u16, FigError>(s.port),
                            )
                            &&& s.bridge_port matches Some(b) ==> b != 0 && allocate.ensures(
                                (),
                                Ok::<u16, FigError>(b),
                            )
                        }
                        &&& r matches Err(err) ==> allocate.ensures((), Err::<u16, FigError>(err))
                            || (allocate.ensures((), Ok::<u16, FigError>(0)) && err is IoError)
                        &&& (port is Some && mode != SessionMode::Bouncer) ==> r is Ok
                    }
                },
            },
        },
{
    let pg = select_postgres_config(config, env)?;
    let mode = session_mode(interactive_shell, use_pgbouncer);
    match mode {
        SessionMode::Shell => {},
        SessionMode::Bouncer => {
            if pg.password.is_none() {
                return Err(
                    FigError::ConfigError("password required when using pgbouncer".to_owned()),
                );
            }
        },
        SessionMode::Forward => {
            if postgres_tunnel_cmd(pg, 0).is_none() {
                return Err(
                    FigError::ConfigError(
                        "a direct connection has no port to forward".to_owned(),
                    ),
                );
            }
        },
    }
    let local: u16 = match port {
        Some(p) => p,
        None => allocate_port(&allocate)?,
    };
    let bridge: u16 = match mode {
        SessionMode::Bouncer => allocate_port(&allocate)?,
        _ => 0,
    };
    postgres_session(pg, mode, local, bridge, ini_path)
}

} // verus!
