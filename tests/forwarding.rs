use figcli::forwarding::ForwardingInfo;
use figcli::{parse_forwarding_string, port_forward_script, temp_pod_name, FigError, PortForwardConfig};

fn no_allocation() -> Result<u16, FigError> {
    panic!("no port may be allocated here")
}

#[test]
fn host_and_port_take_an_allocated_local_port() {
    let f = parse_forwarding_string("db.example.com:5432", || Ok(41234)).unwrap();
    assert_eq!(f.local_port, 41234);
    assert_eq!(f.remote_host, "db.example.com");
    assert_eq!(f.remote_port, 5432);
}

#[test]
fn local_host_and_port_are_taken_exactly() {
    let f = parse_forwarding_string("8080:redis:6379", no_allocation).unwrap();
    assert_eq!(f.local_port, 8080);
    assert_eq!(f.remote_host, "redis");
    assert_eq!(f.remote_port, 6379);
}

#[test]
fn port_numerals_follow_integer_parsing() {
    let f = parse_forwarding_string("+0080:h:00443", no_allocation).unwrap();
    assert_eq!(f.local_port, 80);
    assert_eq!(f.remote_port, 443);
    let top = parse_forwarding_string("65535:h:65535", no_allocation).unwrap();
    assert_eq!(top.local_port, 65535);
}

#[test]
fn malformed_specifiers_fail_without_allocating() {
    for s in [
        "",
        "justahost",
        "a:b:c:d",
        "host:http",
        "host:",
        "host:-1",
        "host:65536",
        "x:host:80",
        "80:host:",
        "+:host:80",
        "80:host:8 0",
    ] {
        let r = parse_forwarding_string(s, no_allocation);
        assert!(matches!(r, Err(FigError::ParseError(_))), "{s}");
    }
}

#[test]
fn allocation_failure_is_reported() {
    let r = parse_forwarding_string("h:80", || Err(FigError::IoError("bind failed".to_string())));
    assert!(matches!(r, Err(FigError::IoError(m)) if m == "bind failed"));
}

#[test]
fn allocated_port_zero_is_refused() {
    let r = parse_forwarding_string("h:80", || Ok(0));
    assert!(matches!(r, Err(FigError::IoError(_))));
}

#[test]
fn empty_host_is_kept() {
    let f = parse_forwarding_string(":80", || Ok(5000)).unwrap();
    assert_eq!(f.remote_host, "");
    assert_eq!(f.local_port, 5000);
}

#[test]
fn pod_names_are_prefixed_and_random() {
    let a = temp_pod_name();
    let b = temp_pod_name();
    assert!(a.starts_with("figcli-temp-port-forward-"));
    let suffix = &a["figcli-temp-port-forward-".len()..];
    assert_eq!(suffix.len(), 8);
    assert!(suffix.chars().all(|c| c.is_ascii_lowercase() || c.is_ascii_digit()));
    assert_ne!(a, b);
}

#[test]
fn explicit_context_and_namespace_override_the_configuration() {
    let config = PortForwardConfig {
        context: Some("cfg-ctx".to_string()),
        namespace: Some("cfg-ns".to_string()),
    };
    let f = ForwardingInfo { local_port: 7000, remote_host: "10.0.0.5".to_string(), remote_port: 5432 };
    let s = port_forward_script(Some(&config), &f, Some("cli-ctx"), None, "pod-x");
    assert!(s.contains("kubectl --context=cli-ctx --namespace=cfg-ns run \"$POD_NAME\""));
    assert!(!s.contains("cfg-ctx"));
    assert!(s.contains("POD_NAME=\"pod-x\""));
    assert!(s.contains("tcp-listen:5432,fork,reuseaddr tcp-connect:10.0.0.5:5432"));
    assert!(s.ends_with("port-forward \"pod/$POD_NAME\" 7000:5432\n"));
}

#[test]
fn script_without_context_or_namespace() {
    let f = ForwardingInfo { local_port: 1, remote_host: "h".to_string(), remote_port: 2 };
    let s = port_forward_script(None, &f, None, None, "p");
    let expected = "#!/bin/sh\nset -e\nPOD_NAME=\"p\"\n\
kubectl   run \"$POD_NAME\" --restart=Never --image=alpine/socat -- -d -d tcp-listen:2,fork,reuseaddr tcp-connect:h:2\n\
trap 'kubectl   delete pod \"$POD_NAME\" --wait=false' EXIT\n\
kubectl   wait --for=condition=Ready \"pod/$POD_NAME\" --timeout=60s\n\
kubectl   port-forward \"pod/$POD_NAME\" 1:2\n";
    assert_eq!(s, expected);
}
