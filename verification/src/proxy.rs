//! The forward-proxy decisions: dispatch by authority, path and method;
//! the ping exchange; and the route-then-dial discipline, whose one hard
//! rule is that a request is refused rather than dialled when its host
//! route cannot be installed, and that the address dialled is the very
//! address the route was checked and installed for.

use vstd::prelude::*;

use crate::dns_cache::DnsResolveError;
use crate::ping::{ping_digest, ping_verifies, Ping};

verus! {

/// A reply on the proxy plane: the status code and the body text.
#[derive(Debug)]
pub struct ProxyReply {
    pub status: u16,
    pub body: String,
}

/// What an accepted request turns out to be.
pub enum RequestClass {
    /// No authority in the URI, `POST /ping`: the token exchange.
    PingPost,
    /// No authority, `GET /health`: the liveness probe.
    Health,
    /// No authority and neither of the above: refused.
    NoHost,
    /// A host-bearing request to forward or tunnel.
    Hosted { host: String, connect: bool },
}

/// Dispatch: any host-bearing URI is proxied (tunnelled when the method
/// is CONNECT); without an authority only the ping and health paths are
/// served.
pub fn classify_request(host: Option<String>, method: &String, path: &String) -> (r: RequestClass)
    ensures
        host matches Some(h) ==> (r matches RequestClass::Hosted { host: h2, connect } && h2@ == h@
            && connect == (method@ == "CONNECT"@)),
        host is None && path@ == "/ping"@ && method@ == "POST"@ ==> r is PingPost,
        host is None && !(path@ == "/ping"@ && method@ == "POST"@) && path@ == "/health"@
            && method@ == "GET"@ ==> r is Health,
        host is None && !(path@ == "/ping"@ && method@ == "POST"@) && !(path@ == "/health"@
            && method@ == "GET"@) ==> r is NoHost,
{
    match host {
        Some(h) => {
            let cn = String::from_str("CONNECT");
            let connect = *method == cn;
            RequestClass::Hosted { host: h, connect }
        },
        None => {
            let ping_path = String::from_str("/ping");
            let post = String::from_str("POST");
            let health_path = String::from_str("/health");
            let get = String::from_str("GET");
            if *path == ping_path && *method == post {
                RequestClass::PingPost
            } else if *path == health_path && *method == get {
                RequestClass::Health
            } else {
                RequestClass::NoHost
            }
        },
    }
}

/// The ping exchange at a known instant: a token that fails to verify is
/// a 400; a valid one is answered with a freshly issued token.
pub fn handle_proxy_ping_at(p: &Ping, auth_token: &String, now_ms: u64) -> (r: Result<
    Ping,
    ProxyReply,
>)
    ensures
        r is Ok <==> ping_verifies(*p, auth_token@, now_ms),
        r matches Ok(pong) ==> pong.hash@ == ping_digest(pong.salt@, pong.time, auth_token@),
        r matches Err(rep) ==> rep.status == 400 && rep.body@ == "invalid ping hash\n"@,
{
    if p.verify_at(auth_token, now_ms) {
        Ok(Ping::new(auth_token))
    } else {
        Err(ProxyReply { status: 400, body: String::from_str("invalid ping hash\n") })
    }
}

/// The ping exchange against the clock now.
pub fn handle_proxy_ping(p: &Ping, auth_token: &String) -> (r: Result<Ping, ProxyReply>)
    ensures
        r matches Ok(pong) ==> p.hash@ == ping_digest(p.salt@, p.time, auth_token@) && pong.hash@
            == ping_digest(pong.salt@, pong.time, auth_token@),
        r matches Err(rep) ==> rep.status == 400 && rep.body@ == "invalid ping hash\n"@,
{
    if p.verify(auth_token) {
        Ok(Ping::new(auth_token))
    } else {
        Err(ProxyReply { status: 400, body: String::from_str("invalid ping hash\n") })
    }
}

pub fn health_reply() -> (r: ProxyReply)
    ensures
        r.status == 200,
        r.body@ == "proxy is alive\n"@,
{
    ProxyReply { status: 200, body: String::from_str("proxy is alive\n") }
}

pub fn no_host_reply() -> (r: ProxyReply)
    ensures
        r.status == 400,
        r.body@ == "No host\n"@,
{
    ProxyReply { status: 400, body: String::from_str("No host\n") }
}

/// The address a host route must be installed for, when one is missing:
/// exactly the address the request resolved to.
pub open spec fn spec_route_to_install(resolved: Seq<char>, route_exists: bool) -> Option<
    Seq<char>,
> {
    if route_exists {
        None
    } else {
        Some(resolved)
    }
}

pub fn route_to_install(resolved_ip: &String, route_exists: bool) -> (r: Option<String>)
    ensures
        r matches Some(ip) ==> spec_route_to_install(resolved_ip@, route_exists) == Some(ip@),
        r is Some <==> spec_route_to_install(resolved_ip@, route_exists) is Some,
{
    if route_exists {
        None
    } else {
        Some(resolved_ip.clone())
    }
}

pub open spec fn spec_route_failed_body(ip: Seq<char>) -> Seq<char> {
    "Error: error creating static route to \""@ + ip + "\"\n"@
}

/// Whether the request may be dialled: yes when the route was already
/// there or was installed; a failed installation is a 400 and no dial is
/// ever made for the request.
pub fn forward_gate(resolved_ip: &String, route_exists: bool, add_ok: bool) -> (r: Result<
    (),
    ProxyReply,
>)
    ensures
        r is Ok <==> (route_exists || add_ok),
        r matches Err(rep) ==> rep.status == 400 && rep.body@ == spec_route_failed_body(
            resolved_ip@,
        ),
{
    if route_exists || add_ok {
        Ok(())
    } else {
        let mut body = String::from_str("Error: error creating static route to \"");
        body.append(resolved_ip.as_str());
        body.append("\"\n");
        Err(ProxyReply { status: 400, body })
    }
}

/// Where a tunnelled or forwarded connection goes.
pub struct DialTarget {
    pub ip: String,
    pub port: u16,
}

/// The address dialled for the resolved request.
pub open spec fn spec_dial_ip(resolved: Seq<char>) -> Seq<char> {
    resolved
}

/// The socket a CONNECT tunnel opens: the resolved address and the port
/// named in the request URI.
pub fn connect_target(resolved_ip: &String, port: u16) -> (t: DialTarget)
    ensures
        t.ip@ == spec_dial_ip(resolved_ip@),
        t.port == port,
{
    DialTarget { ip: resolved_ip.clone(), port }
}

/// A resolution that failed — upstream error, no records, or an
/// interrupted lookup — is answered with a 400, whatever the cause; no
/// route is installed and nothing is dialled for the request.
pub fn resolve_failed_reply(_e: &DnsResolveError) -> (r: ProxyReply)
    ensures
        r.status == 400,
        r.body@ == "proxy: error resolving host\n"@,
{
    ProxyReply { status: 400, body: String::from_str("proxy: error resolving host\n") }
}

/// The reply that opens a CONNECT tunnel: a 200 with an empty body,
/// sent before the connection is upgraded and the bytes are spliced.
pub fn connect_established_reply() -> (r: ProxyReply)
    ensures
        r.status == 200,
        r.body@.len() == 0,
{
    ProxyReply { status: 200, body: String::new() }
}

pub fn transport_error_reply() -> (r: ProxyReply)
    ensures
        r.status == 400,
        r.body@ == "proxy: error proxying\n"@,
{
    ProxyReply { status: 400, body: String::from_str("proxy: error proxying\n") }
}

pub fn connect_needs_port_reply() -> (r: ProxyReply)
    ensures
        r.status == 400,
        r.body@ == "CONNECT must be to a socket address\n"@,
{
    ProxyReply { status: 400, body: String::from_str("CONNECT must be to a socket address\n") }
}

/// Dial coherence: whenever a route had to be installed for a request,
/// it was installed for precisely the address the request then dials.
pub proof fn lemma_dial_coherence(resolved: Seq<char>, route_exists: bool)
    ensures
        match spec_route_to_install(resolved, route_exists) {
            Some(route_ip) => route_ip == spec_dial_ip(resolved),
            None => true,
        },
{
}

} // verus!
