use vstd::prelude::*;

verus! {

/// Which program a log setting is for.
pub enum Component {
    Server,
    Client,
}

/// The name under which a component logs.
pub open spec fn component_prefix(c: Component) -> Seq<char> {
    match c {
        Component::Server => "server"@,
        Component::Client => "client"@,
    }
}

/// The log filter directive that sets `level` for the component's own
/// messages: `<prefix>=<level>`, as in `server=info`.
pub fn log_directive(component: Component, level: &str) -> (d: String)
    ensures
        d@ == component_prefix(component) + "="@ + level@,
{
    let mut d = match component {
        Component::Server => "server".to_string(),
        Component::Client => "client".to_string(),
    };
    d.append("=");
    d.append(level);
    d
}

/// The host used when none is configured.
pub open spec fn default_host() -> Seq<char> {
    "localhost"@
}

/// The port used when none is configured.
pub open spec fn default_port() -> Seq<char> {
    "8081"@
}

/// The address `host:port` of the server, each part falling back to its
/// default when it is not configured.
pub fn server_address_of(host: Option<String>, port: Option<String>) -> (a: String)
    ensures
        a@ == match host {
            Some(h) => h@,
            None => default_host(),
        } + ":"@ + match port {
            Some(p) => p@,
            None => default_port(),
        },
{
    let mut a = match host {
        Some(h) => h,
        None => "localhost".to_string(),
    };
    a.append(":");
    match port {
        Some(p) => a.append(p.as_str()),
        None => a.append("8081"),
    }
    a
}

} // verus!
