//! Forwarding specifiers (`host:port` or `local-port:host:port`) and the
//! script that forwards a local port to a host outside the cluster.
use vstd::prelude::*;

use crate::config::PortForwardConfig;
use crate::error::FigError;
use crate::port::allocate_port;
use crate::text::{
    decimal, is_u16_numeral, lemma_split_on_joined, lemma_split_on_nonempty,
    lemma_split_on_without_sep, parse_u16, push_decimal, split_chars, split_on, string_views,
    u16_numeral_value,
};
use crate::util::{all_lower_alphanumeric, random_alphanum};

verus! {

/// A local port forwarded to a port of a remote host.
#[derive(Debug, Clone)]
pub struct ForwardingInfo {
    pub local_port: u16,
    pub remote_host: String,
    pub remote_port: u16,
}

/// Whether `s` is a forwarding specifier: `host:port` or
/// `local-port:host:port`, with numerals for the ports.
pub open spec fn is_forwarding_specifier(s: Seq<char>) -> bool {
    let parts = split_on(s, ':');
    (parts.len() == 3 && is_u16_numeral(parts[0]) && is_u16_numeral(parts[2])) || (parts.len()
        == 2 && is_u16_numeral(parts[1]))
}

/// Whether the specifier `s` names its local port.
pub open spec fn names_local_port(s: Seq<char>) -> bool {
    split_on(s, ':').len() == 3
}

/// Parses a forwarding specifier, `<local-port>:<remote-host>:<remote-port>`
/// or `<remote-host>:<remote-port>`. In the second form the local port is
/// taken from `allocate`; a malformed specifier fails before that, with a
/// `ParseError`.
pub fn parse_forwarding_string<F: Fn() -> Result<u16, FigError>>(host: &str, allocate: F) -> (r:
    Result<ForwardingInfo, FigError>)
    requires
        allocate.requires(()),
    ensures
        !is_forwarding_specifier(host@) ==> r matches Err(FigError::ParseError(_)),
        is_forwarding_specifier(host@) && names_local_port(host@) ==> {
            let parts = split_on(host@, ':');
            &&& r matches Ok(f)
            &&& f.local_port as nat == u16_numeral_value(parts[0])
            &&& f.remote_host@ == parts[1]
            &&& f.remote_port as nat == u16_numeral_value(parts[2])
        },
        is_forwarding_specifier(host@) && !names_local_port(host@) ==> {
            let parts = split_on(host@, ':');
            &&& r matches Ok(f) ==> {
                &&& f.local_port != 0
                &&& allocate.ensures((), Ok::<u16, FigError>(f.local_port))
                &&& f.remote_host@ == parts[0]
                &&& f.remote_port as nat == u16_numeral_value(parts[1])
            }
            &&& r matches Err(e) ==> allocate.ensures((), Err::<u16, FigError>(e)) || (
            allocate.ensures((), Ok::<u16, FigError>(0)) && e is IoError)
        },
{
    let parts = split_chars(host, ':');
    let ghost views = string_views(parts@);
    proof {
        lemma_split_on_nonempty(host@, ':');
    }
    let malformed = FigError::ParseError(
        "expected \"<local-port>:<remote-host>:<remote-port>\" or \"<remote-host>:<remote-port>\"".to_owned(),
    );
    if parts.len() == 3 {
        assert(views[0] == parts@[0]@ && views[1] == parts@[1]@ && views[2] == parts@[2]@);
        let local = match parse_u16(parts[0].as_str()) {
            Some(p) => p,
            None => {
                return Err(malformed);
            },
        };
        let remote = match parse_u16(parts[2].as_str()) {
            Some(p) => p,
            None => {
                return Err(malformed);
            },
        };
        Ok(ForwardingInfo { local_port: local, remote_host: parts[1].clone(), remote_port: remote })
    } else if parts.len() == 2 {
        assert(views[0] == parts@[0]@ && views[1] == parts@[1]@);
        let remote = match parse_u16(parts[1].as_str()) {
            Some(p) => p,
            None => {
                return Err(malformed);
            },
        };
        let local = allocate_port(&allocate)?;
        Ok(ForwardingInfo { local_port: local, remote_host: parts[0].clone(), remote_port: remote })
    } else {
        Err(malformed)
    }
}

/// A specifier `host:port`, with a host free of colons and a port numeral,
/// is valid, leaves the local port to the allocator, and names `host` and
/// the value of `port` as the remote end.
pub proof fn law_host_port_specifier(host: Seq<char>, port: Seq<char>)
    requires
        !host.contains(':'),
        is_u16_numeral(port),
        !port.contains(':'),
    ensures
        is_forwarding_specifier(host.push(':') + port),
        !names_local_port(host.push(':') + port),
        split_on(host.push(':') + port, ':') == seq![host, port],
{
    lemma_split_on_joined(host, port, ':');
    lemma_split_on_without_sep(host, ':');
    lemma_split_on_without_sep(port, ':');
    assert(seq![host] + seq![port] =~= seq![host, port]);
}

/// A specifier `local:host:port`, with a host free of colons and two port
/// numerals, is valid and names exactly `local`, `host` and `port`.
pub proof fn law_local_host_port_specifier(local: Seq<char>, host: Seq<char>, port: Seq<char>)
    requires
        is_u16_numeral(local),
        !local.contains(':'),
        !host.contains(':'),
        is_u16_numeral(port),
        !port.contains(':'),
    ensures
        is_forwarding_specifier(local.push(':') + host.push(':') + port),
        names_local_port(local.push(':') + host.push(':') + port),
        split_on(local.push(':') + host.push(':') + port, ':') == seq![local, host, port],
{
    let tail = host.push(':') + port;
    lemma_split_on_joined(host, port, ':');
    lemma_split_on_joined(local, tail, ':');
    lemma_split_on_without_sep(local, ':');
    lemma_split_on_without_sep(host, ':');
    lemma_split_on_without_sep(port, ':');
    assert(local.push(':') + tail =~= local.push(':') + host.push(':') + port);
    assert(seq![local] + (seq![host] + seq![port]) =~= seq![local, host, port]);
}

/// The prefix of the forwarding pods' names.
pub open spec fn pod_name_prefix() -> Seq<char> {
    "figcli-temp-port-forward-"@
}

/// A fresh name for a forwarding pod: the prefix and eight random lowercase
/// letters or digits.
pub fn temp_pod_name() -> (r: String)
    ensures
        exists|suffix: Seq<char>|
            suffix.len() == 8 && all_lower_alphanumeric(suffix) && r@ == pod_name_prefix() + suffix,
{
    let mut name = "figcli-temp-port-forward-".to_owned();
    let suffix = random_alphanum(8);
    name.append(suffix.as_str());
    assert(name@ == pod_name_prefix() + suffix@);
    name
}

/// The value that an explicit setting gives, else the configured one.
pub open spec fn chosen(explicit: Option<&str>, configured: Option<String>) -> Option<Seq<char>> {
    match explicit {
        Some(v) => Some(v@),
        None => match configured {
            Some(v) => Some(v@),
            None => None,
        },
    }
}

/// The configured context, if any.
pub open spec fn configured_context(config: Option<&PortForwardConfig>) -> Option<String> {
    match config {
        Some(c) => c.context,
        None => None,
    }
}

/// The configured namespace, if any.
pub open spec fn configured_namespace(config: Option<&PortForwardConfig>) -> Option<String> {
    match config {
        Some(c) => c.namespace,
        None => None,
    }
}

/// The flag `--<name>=<value>` for a chosen value; nothing without one.
pub open spec fn flag_text(name: Seq<char>, value: Option<Seq<char>>) -> Seq<char> {
    match value {
        Some(v) => "--"@ + name + "="@ + v,
        None => Seq::empty(),
    }
}

/// The start of every `kubectl` call of the script.
pub open spec fn kubectl_call(context_arg: Seq<char>, namespace_arg: Seq<char>) -> Seq<char> {
    "kubectl "@ + context_arg + " "@ + namespace_arg + " "@
}

/// The script that starts a relay pod, forwards `local_port` to it and
/// removes the pod when the forwarding ends.
pub open spec fn forward_script_text(
    pod_name: Seq<char>,
    context_arg: Seq<char>,
    namespace_arg: Seq<char>,
    local_port: u16,
    remote_host: Seq<char>,
    remote_port: u16,
) -> Seq<char> {
    let k = kubectl_call(context_arg, namespace_arg);
    let remote = decimal(remote_port as nat);
    "#!/bin/sh\nset -e\nPOD_NAME=\""@ + pod_name + "\"\n"@ + k
        + "run \"$POD_NAME\" --restart=Never --image=alpine/socat -- -d -d tcp-listen:"@ + remote
        + ",fork,reuseaddr tcp-connect:"@ + remote_host + ":"@ + remote + "\n"@ + "trap '"@ + k
        + "delete pod \"$POD_NAME\" --wait=false' EXIT\n"@ + k
        + "wait --for=condition=Ready \"pod/$POD_NAME\" --timeout=60s\n"@ + k
        + "port-forward \"pod/$POD_NAME\" "@ + decimal(local_port as nat) + ":"@ + remote + "\n"@
}

/// Appends the flag `--<name>=<value>` for the chosen value.
fn push_flag(s: &mut String, name: &str, explicit: Option<&str>, configured: Option<&String>)
    ensures
        final(s)@ == old(s)@ + flag_text(
            name@,
            match explicit {
                Some(v) => Some(v@),
                None => match configured {
                    Some(v) => Some(v@),
                    None => None,
                },
            },
        ),
{
    let value: Option<&str> = match explicit {
        Some(v) => Some(v),
        None => match configured {
            Some(v) => Some(v.as_str()),
            None => None,
        },
    };
    match value {
        Some(v) => {
            s.append("--");
            s.append(name);
            s.append("=");
            s.append(v);
        },
        None => {},
    }
}

/// Appends `kubectl <context flag> <namespace flag> `.
fn push_kubectl(s: &mut String, context_arg: &str, namespace_arg: &str)
    ensures
        final(s)@ == old(s)@ + kubectl_call(context_arg@, namespace_arg@),
{
    s.append("kubectl ");
    s.append(context_arg);
    s.append(" ");
    s.append(namespace_arg);
    s.append(" ");
}

/// The forwarding script for `forwarding` through the pod `pod_name`. An
/// explicit context or namespace overrides the one in `config`.
pub fn port_forward_script(
    config: Option<&PortForwardConfig>,
    forwarding: &ForwardingInfo,
    context: Option<&str>,
    namespace: Option<&str>,
    pod_name: &str,
) -> (r: String)
    ensures
        r@ == forward_script_text(
            pod_name@,
            flag_text("context"@, chosen(context, configured_context(config))),
            flag_text("namespace"@, chosen(namespace, configured_namespace(config))),
            forwarding.local_port,
            forwarding.remote_host@,
            forwarding.remote_port,
        ),
{
    let (config_context, config_namespace): (Option<&String>, Option<&String>) = match config {
        Some(c) => (c.context.as_ref(), c.namespace.as_ref()),
        None => (None, None),
    };
    let mut context_arg = String::new();
    push_flag(&mut context_arg, "context", context, config_context);
    let mut namespace_arg = String::new();
    push_flag(&mut namespace_arg, "namespace", namespace, config_namespace);
    let ctx = context_arg.as_str();
    let ns = namespace_arg.as_str();

    let mut s = "#!/bin/sh\nset -e\nPOD_NAME=\"".to_owned();
    s.append(pod_name);
    s.append("\"\n");
    push_kubectl(&mut s, ctx, ns);
    s.append("run \"$POD_NAME\" --restart=Never --image=alpine/socat -- -d -d tcp-listen:");
    push_decimal(&mut s, forwarding.remote_port);
    s.append(",fork,reuseaddr tcp-connect:");
    s.append(forwarding.remote_host.as_str());
    s.append(":");
    push_decimal(&mut s, forwarding.remote_port);
    s.append("\n");
    s.append("trap '");
    push_kubectl(&mut s, ctx, ns);
    s.append("delete pod \"$POD_NAME\" --wait=false' EXIT\n");
    push_kubectl(&mut s, ctx, ns);
    s.append("wait --for=condition=Ready \"pod/$POD_NAME\" --timeout=60s\n");
    push_kubectl(&mut s, ctx, ns);
    s.append("port-forward \"pod/$POD_NAME\" ");
    push_decimal(&mut s, forwarding.local_port);
    s.append(":");
    push_decimal(&mut s, forwarding.remote_port);
    s.append("\n");
    s
}

} // verus!
