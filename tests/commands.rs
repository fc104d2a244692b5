use figcli::{
    postgres_pgbouncer_cmd, postgres_shell_cmd, postgres_tunnel_cmd, CommandSpec, FigError,
    PostgresConfig, PostgresConfigType,
};

fn config(kind: PostgresConfigType, password: Option<&str>) -> PostgresConfig {
    PostgresConfig {
        connection_kind: kind,
        host: None,
        port: Some(5433),
        user: "alice".to_string(),
        password: password.map(|p| p.to_string()),
        database: "inventory".to_string(),
        schema: Some("stock".to_string()),
    }
}

fn kubernetes(container: Option<&str>) -> PostgresConfigType {
    PostgresConfigType::Kubernetes {
        context: "gke-dev".to_string(),
        namespace: "data".to_string(),
        deployment: "postgres".to_string(),
        container: container.map(|c| c.to_string()),
    }
}

fn args(c: &CommandSpec) -> Vec<&str> {
    c.args.iter().map(|a| a.as_str()).collect()
}

#[test]
fn direct_connection_has_no_tunnel() {
    assert!(postgres_tunnel_cmd(&config(PostgresConfigType::Direct, None), 9000).is_none());
}

#[test]
fn kubernetes_tunnel_names_its_target_and_local_port() {
    let t = postgres_tunnel_cmd(&config(kubernetes(None), None), 9000).unwrap();
    assert_eq!(t.program, "kubectl");
    assert_eq!(
        args(&t),
        vec!["--context", "gke-dev", "--namespace", "data", "port-forward", "deployment/postgres", "9000:5433"]
    );
    assert!(t.envs.is_empty());
}

#[test]
fn kubernetes_tunnel_can_target_a_container() {
    let t = postgres_tunnel_cmd(&config(kubernetes(Some("db")), None), 15432).unwrap();
    assert_eq!(
        args(&t),
        vec![
            "--context", "gke-dev", "--namespace", "data", "-c", "db", "port-forward",
            "deployment/postgres", "15432:5433"
        ]
    );
}

#[test]
fn cloud_proxy_tunnel_binds_the_instance() {
    let kind = PostgresConfigType::GCloudProxy { instance: "proj:region:db".to_string() };
    let t = postgres_tunnel_cmd(&config(kind, None), 6000).unwrap();
    assert_eq!(t.program, "cloud_sql_proxy");
    assert_eq!(args(&t), vec!["-instances", "proj:region:db=tcp:6000"]);
}

#[test]
fn shell_through_a_tunnel_uses_the_local_port() {
    let c = postgres_shell_cmd(&config(kubernetes(None), Some("pw")), 9000);
    assert_eq!(c.program, "psql");
    assert_eq!(args(&c), vec!["-h", "localhost", "-U", "alice", "-p", "9000", "inventory"]);
    assert_eq!(
        c.envs,
        vec![
            ("PGPASSWORD".to_string(), "pw".to_string()),
            ("PGOPTIONS".to_string(), "--search_path=stock".to_string())
        ]
    );
    assert!(!c.args.iter().any(|a| a == "pw"));
}

#[test]
fn direct_shell_uses_the_configured_port() {
    let mut cfg = config(PostgresConfigType::Direct, None);
    cfg.host = Some("db.lan".to_string());
    cfg.schema = None;
    let c = postgres_shell_cmd(&cfg, 9000);
    assert_eq!(args(&c), vec!["-h", "db.lan", "-U", "alice", "-p", "5433", "inventory"]);
    assert_eq!(c.envs, vec![("PGOPTIONS".to_string(), "--search_path=public".to_string())]);
}

#[test]
fn bouncer_without_password_fails() {
    let r = postgres_pgbouncer_cmd(&config(kubernetes(None), None), 6432, 7000, "/tmp/x.ini");
    assert!(matches!(r, Err(FigError::ConfigError(_))));
}

#[test]
fn bouncer_renders_its_configuration() {
    let (cmd, ini) =
        postgres_pgbouncer_cmd(&config(kubernetes(None), Some("s3cret")), 6432, 7000, "/tmp/b.ini")
            .unwrap();
    assert_eq!(cmd.program, "pgbouncer");
    assert_eq!(args(&cmd), vec!["/tmp/b.ini"]);
    assert_eq!(
        ini,
        "[databases]\ninventory = host=localhost port=7000 user=alice dbname=inventory password=s3cret\n\n\
[pgbouncer]\nlisten_addr = 0.0.0.0\nlisten_port = 6432\nauth_type = any\npool_mode = transaction\ndefault_pool_size = 1\n"
    );
}
