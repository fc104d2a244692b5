//! Builders of the commands that a session runs: the database client, the
//! tunnel (a cluster port-forward or a cloud SQL proxy) and the pooling proxy.
use vstd::prelude::*;

use crate::config::{PostgresConfig, PostgresConfigType};
use crate::error::FigError;
use crate::text::{decimal, push_decimal, string_views};

verus! {

/// A program to start, with its arguments and the environment variables to
/// set for it.
#[derive(Debug, Clone)]
pub struct CommandSpec {
    pub program: String,
    pub args: Vec<String>,
    pub envs: Vec<(String, String)>,
}

/// The mathematical value of a `CommandSpec`.
pub struct CommandView {
    pub program: Seq<char>,
    pub args: Seq<Seq<char>>,
    pub envs: Seq<(Seq<char>, Seq<char>)>,
}

pub open spec fn env_views(v: Seq<(String, String)>) -> Seq<(Seq<char>, Seq<char>)> {
    v.map_values(|p: (String, String)| (p.0@, p.1@))
}

impl View for CommandSpec {
    type V = CommandView;

    open spec fn view(&self) -> CommandView {
        CommandView {
            program: self.program@,
            args: string_views(self.args@),
            envs: env_views(self.envs@),
        }
    }
}

/// The port the database client connects to: the local end of the tunnel
/// when there is one, the configured port otherwise.
pub open spec fn effective_port(c: PostgresConfig, local_port: u16) -> u16 {
    if c.is_tunneled() {
        local_port
    } else {
        c.spec_port()
    }
}

/// The client's environment: the password, when configured, and the schema
/// search path. The password never appears among the arguments.
pub open spec fn shell_envs(c: PostgresConfig) -> Seq<(Seq<char>, Seq<char>)> {
    let schema_env = ("PGOPTIONS"@, "--search_path="@ + c.spec_schema());
    match c.password {
        Some(p) => seq![("PGPASSWORD"@, p@), schema_env],
        None => seq![schema_env],
    }
}

/// The database client invocation for `c` when the tunnel listens on
/// `local_port`.
pub open spec fn shell_command(c: PostgresConfig, local_port: u16) -> CommandView {
    CommandView {
        program: "psql"@,
        args: seq![
            "-h"@,
            c.spec_host(),
            "-U"@,
            c.user@,
            "-p"@,
            decimal(effective_port(c, local_port) as nat),
            c.database@,
        ],
        envs: shell_envs(c),
    }
}

/// The tunnel for `c` whose local end is `local_port`; none for a direct
/// connection.
pub open spec fn tunnel_command(c: PostgresConfig, local_port: u16) -> Option<CommandView> {
    match c.connection_kind {
        PostgresConfigType::Kubernetes { context, namespace, deployment, container } => {
            let head = seq!["--context"@, context@, "--namespace"@, namespace@];
            let target = match container {
                Some(name) => seq!["-c"@, name@],
                None => Seq::<Seq<char>>::empty(),
            };
            let forward = seq![
                "port-forward"@,
                "deployment/"@ + deployment@,
                decimal(local_port as nat) + ":"@ + decimal(c.spec_port() as nat),
            ];
            Some(
                CommandView {
                    program: "kubectl"@,
                    args: head + target + forward,
                    envs: Seq::empty(),
                },
            )
        },
        PostgresConfigType::GCloudProxy { instance } => Some(
            CommandView {
                program: "cloud_sql_proxy"@,
                args: seq!["-instances"@, instance@ + "=tcp:"@ + decimal(local_port as nat)],
                envs: Seq::empty(),
            },
        ),
        PostgresConfigType::Direct => None,
    }
}

/// The configuration file of the pooling proxy: the database reachable at
/// `upstream_port` on this host, served on `listen_port` with transaction
/// pooling and a single backend connection.
pub open spec fn pgbouncer_ini_text(
    c: PostgresConfig,
    password: Seq<char>,
    listen_port: u16,
    upstream_port: u16,
) -> Seq<char> {
    "[databases]\n"@ + c.database@ + " = host=localhost port="@ + decimal(upstream_port as nat)
        + " user="@ + c.user@ + " dbname="@ + c.database@ + " password="@ + password
        + "\n\n[pgbouncer]\nlisten_addr = 0.0.0.0\nlisten_port = "@ + decimal(listen_port as nat)
        + "\nauth_type = any\npool_mode = transaction\ndefault_pool_size = 1\n"@
}

/// A direct connection has no tunnel. A cluster tunnel names the configured
/// context, namespace and deployment, and forwards from the chosen local
/// port; a proxy tunnel binds the configured instance to the chosen local
/// port.
pub proof fn law_tunnel_targets(c: PostgresConfig, local_port: u16)
    ensures
        tunnel_command(c, local_port) is None <==> c.connection_kind is Direct,
        c.connection_kind matches PostgresConfigType::Kubernetes {
            context,
            namespace,
            deployment,
            ..
        } ==> {
            let args = tunnel_command(c, local_port)->Some_0.args;
            &&& args.contains(context@)
            &&& args.contains(namespace@)
            &&& args.contains("deployment/"@ + deployment@)
            &&& args.contains(decimal(local_port as nat) + ":"@ + decimal(c.spec_port() as nat))
        },
        c.connection_kind matches PostgresConfigType::GCloudProxy { instance } ==> tunnel_command(
            c,
            local_port,
        )->Some_0.args.contains(instance@ + "=tcp:"@ + decimal(local_port as nat)),
{
    match c.connection_kind {
        PostgresConfigType::Kubernetes { context, namespace, deployment, container } => {
            let args = tunnel_command(c, local_port)->Some_0.args;
            let target = match container {
                Some(name) => seq!["-c"@, name@],
                None => Seq::<Seq<char>>::empty(),
            };
            let t = target.len() as int;
            assert(args[1] == context@);
            assert(args[3] == namespace@);
            assert(args[4 + t + 1] == "deployment/"@ + deployment@);
            assert(args[4 + t + 2] == decimal(local_port as nat) + ":"@ + decimal(
                c.spec_port() as nat,
            ));
        },
        PostgresConfigType::GCloudProxy { instance } => {
            let args = tunnel_command(c, local_port)->Some_0.args;
            assert(args[1] == instance@ + "=tcp:"@ + decimal(local_port as nat));
        },
        PostgresConfigType::Direct => {},
    }
}

/// The database client invocation; see `shell_command`.
pub fn postgres_shell_cmd(config: &PostgresConfig, port: u16) -> (r: CommandSpec)
    ensures
        r@ == shell_command(*config, port),
{
    let effective: u16 = match &config.connection_kind {
        PostgresConfigType::Kubernetes { .. } => port,
        PostgresConfigType::GCloudProxy { .. } => port,
        PostgresConfigType::Direct => config.port(),
    };
    let mut envs: Vec<(String, String)> = Vec::new();
    match &config.password {
        Some(p) => {
            envs.push(("PGPASSWORD".to_owned(), p.clone()));
        },
        None => {},
    }
    let mut search_path = "--search_path=".to_owned();
    let schema = config.schema();
    search_path.append(schema.as_str());
    envs.push(("PGOPTIONS".to_owned(), search_path));

    let mut port_text = String::new();
    push_decimal(&mut port_text, effective);
    let mut args: Vec<String> = Vec::new();
    args.push("-h".to_owned());
    args.push(config.host());
    args.push("-U".to_owned());
    args.push(config.user.clone());
    args.push("-p".to_owned());
    args.push(port_text);
    args.push(config.database.clone());
    let r = CommandSpec { program: "psql".to_owned(), args, envs };
    assert(r@.args =~= shell_command(*config, port).args);
    assert(r@.envs =~= shell_command(*config, port).envs);
    r
}

/// The tunnel command; see `tunnel_command`.
pub fn postgres_tunnel_cmd(config: &PostgresConfig, port: u16) -> (r: Option<CommandSpec>)
    ensures
        r is Some <==> config.is_tunneled(),
        r matches Some(cmd) ==> tunnel_command(*config, port) == Some(cmd@),
{
    match &config.connection_kind {
        PostgresConfigType::Kubernetes { context, namespace, deployment, container } => {
            let mut args: Vec<String> = Vec::new();
            args.push("--context".to_owned());
            args.push(context.clone());
            args.push("--namespace".to_owned());
            args.push(namespace.clone());
            match container {
                Some(name) => {
                    args.push("-c".to_owned());
                    args.push(name.clone());
                },
                None => {},
            }
            args.push("port-forward".to_owned());
            let mut target = "deployment/".to_owned();
            target.append(deployment.as_str());
            args.push(target);
            let mut mapping = String::new();
            push_decimal(&mut mapping, port);
            mapping.append(":");
            push_decimal(&mut mapping, config.port());
            args.push(mapping);
            let r = CommandSpec { program: "kubectl".to_owned(), args, envs: Vec::new() };
            assert(r@.args =~= tunnel_command(*config, port)->Some_0.args);
            assert(r@.envs =~= Seq::<(Seq<char>, Seq<char>)>::empty());
            Some(r)
        },
        PostgresConfigType::GCloudProxy { instance } => {
            let mut binding = instance.clone();
            binding.append("=tcp:");
            push_decimal(&mut binding, port);
            let mut args: Vec<String> = Vec::new();
            args.push("-instances".to_owned());
            args.push(binding);
            let r = CommandSpec { program: "cloud_sql_proxy".to_owned(), args, envs: Vec::new() };
            assert(r@.args =~= tunnel_command(*config, port)->Some_0.args);
            assert(r@.envs =~= Seq::<(Seq<char>, Seq<char>)>::empty());
            Some(r)
        },
        PostgresConfigType::Direct => None,
    }
}

/// The pooling proxy started against its configuration file.
pub open spec fn bouncer_command(ini_path: Seq<char>) -> CommandView {
    CommandView { program: "pgbouncer"@, args: seq![ini_path], envs: Seq::empty() }
}

/// The pooling proxy command and the text of its configuration file, which
/// the caller writes to `ini_path` before starting it. Fails when no
/// password is configured.
pub fn postgres_pgbouncer_cmd(
    config: &PostgresConfig,
    port: u16,
    upstream_port: u16,
    ini_path: &str,
) -> (r: Result<(CommandSpec, String), FigError>)
    ensures
        r is Ok <==> config.password is Some,
        r matches Err(e) ==> e is ConfigError,
        r matches Ok((cmd, ini)) ==> {
            &&& cmd@ == bouncer_command(ini_path@)
            &&& ini@ == pgbouncer_ini_text(
                *config,
                config.password->Some_0@,
                port,
                upstream_port,
            )
        },
{
    let password = match &config.password {
        Some(p) => p,
        None => {
            return Err(FigError::ConfigError("password required when using pgbouncer".to_owned()));
        },
    };
    let mut ini = "[databases]\n".to_owned();
    ini.append(config.database.as_str());
    ini.append(" = host=localhost port=");
    push_decimal(&mut ini, upstream_port);
    ini.append(" user=");
    ini.append(config.user.as_str());
    ini.append(" dbname=");
    ini.append(config.database.as_str());
    ini.append(" password=");
    ini.append(password.as_str());
    ini.append("\n\n[pgbouncer]\nlisten_addr = 0.0.0.0\nlisten_port = ");
    push_decimal(&mut ini, port);
    ini.append("\nauth_type = any\npool_mode = transaction\ndefault_pool_size = 1\n");
    let mut args: Vec<String> = Vec::new();
    args.push(ini_path.to_owned());
    let cmd = CommandSpec { program: "pgbouncer".to_owned(), args, envs: Vec::new() };
    assert(cmd@.args =~= seq![ini_path@]);
    assert(cmd@.envs =~= Seq::<(Seq<char>, Seq<char>)>::empty());
    Ok((cmd, ini))
}

} // verus!
