//! Inference server endpoints and the rule that picks which one to call.

use crate::decimal::{decimal, push_decimal};
use crate::text::same_text;
use vstd::prelude::*;
use vstd::string::StringExecFns;

verus! {

/// The one port every inference server of this system listens on.
pub const INFERENCE_PORT: u16 = 11434;

/// Transport scheme of an endpoint.
#[derive(Clone, Copy, Debug, PartialEq, Eq, Structural)]
pub enum Scheme {
    Http,
    Https,
}

/// The text of a scheme as it stands in a URL.
pub open spec fn scheme_text(scheme: Scheme) -> Seq<char> {
    match scheme {
        Scheme::Http => "http"@,
        Scheme::Https => "https"@,
    }
}

/// One inference server: scheme, host and port. It never changes once made.
#[derive(Debug)]
pub struct Endpoint {
    scheme: Scheme,
    host: String,
    port: u16,
}

/// What an [`Endpoint`] stands for.
pub struct EndpointView {
    pub scheme: Scheme,
    pub host: Seq<char>,
    pub port: u16,
}

impl View for Endpoint {
    type V = EndpointView;

    closed spec fn view(&self) -> EndpointView {
        EndpointView { scheme: self.scheme, host: self.host@, port: self.port }
    }
}

/// Two endpoints name the same server: host and port agree. The scheme does
/// not count.
pub open spec fn same_server(a: EndpointView, b: EndpointView) -> bool {
    a.host == b.host && a.port == b.port
}

/// The server on this machine.
pub open spec fn local_endpoint() -> EndpointView {
    EndpointView { scheme: Scheme::Http, host: "localhost"@, port: INFERENCE_PORT }
}

/// The server on `host`, at the fixed port.
pub open spec fn remote_endpoint(host: Seq<char>) -> EndpointView {
    EndpointView { scheme: Scheme::Http, host, port: INFERENCE_PORT }
}

/// `scheme://host`, the form in which a client library takes the host.
pub open spec fn base_url_text(e: EndpointView) -> Seq<char> {
    scheme_text(e.scheme) + "://"@ + e.host
}

/// `scheme://host:port`.
pub open spec fn url_text(e: EndpointView) -> Seq<char> {
    base_url_text(e) + ":"@ + decimal(e.port as nat)
}

/// A host text names this machine: it is `localhost` or `127.0.0.1`, and
/// nothing else. A host that merely holds one of the two, such as
/// `10.127.0.0.10`, names another machine.
pub open spec fn is_loopback_text(host: Seq<char>) -> bool {
    host == "localhost"@ || host == "127.0.0.1"@
}

/// The local server is called directly: on request, when no remote host is
/// configured, or when the configured one names this machine.
pub open spec fn goes_local(explicit_local: bool, configured: Option<Seq<char>>) -> bool {
    explicit_local || match configured {
        None => true,
        Some(host) => is_loopback_text(host),
    }
}

/// The text of an optional host.
pub open spec fn host_text(configured: Option<&str>) -> Option<Seq<char>> {
    match configured {
        None => None,
        Some(host) => Some(host@),
    }
}

impl Endpoint {
    /// The server on `host` at `port`, reached over `scheme`.
    pub fn new(scheme: Scheme, host: String, port: u16) -> (e: Endpoint)
        ensures
            e@ == (EndpointView { scheme, host: host@, port }),
    {
        Endpoint { scheme, host, port }
    }

    /// The server on this machine.
    pub fn local() -> (e: Endpoint)
        ensures
            e@ == local_endpoint(),
    {
        Endpoint { scheme: Scheme::Http, host: String::from_str("localhost"), port: INFERENCE_PORT }
    }

    /// The server on `host`, at the fixed port.
    pub fn remote(host: &str) -> (e: Endpoint)
        ensures
            e@ == remote_endpoint(host@),
    {
        Endpoint { scheme: Scheme::Http, host: String::from_str(host), port: INFERENCE_PORT }
    }

    /// The transport scheme.
    pub fn scheme(&self) -> (scheme: Scheme)
        ensures
            scheme == self@.scheme,
    {
        self.scheme
    }

    /// The host, as it was given.
    pub fn host(&self) -> (host: &str)
        ensures
            host@ == self@.host,
    {
        self.host.as_str()
    }

    /// The port.
    pub fn port(&self) -> (port: u16)
        ensures
            port == self@.port,
    {
        self.port
    }

    /// Whether `self` and `other` name the same server.
    pub fn same_server(&self, other: &Endpoint) -> (same: bool)
        ensures
            same == same_server(self@, other@),
    {
        self.port == other.port && self.host == other.host
    }

    /// Whether the host names this machine.
    pub fn is_loopback(&self) -> (loopback: bool)
        ensures
            loopback == is_loopback_text(self@.host),
    {
        denotes_loopback(self.host.as_str())
    }

    /// `scheme://host`.
    pub fn base_url(&self) -> (url: String)
        ensures
            url@ == base_url_text(self@),
    {
        let mut url = match self.scheme {
            Scheme::Http => String::from_str("http"),
            Scheme::Https => String::from_str("https"),
        };
        url.append("://");
        url.append(self.host.as_str());
        url
    }

    /// `scheme://host:port`.
    pub fn url(&self) -> (url: String)
        ensures
            url@ == url_text(self@),
    {
        let mut url = self.base_url();
        url.append(":");
        push_decimal(&mut url, self.port as u128);
        url
    }
}

impl Clone for Endpoint {
    /// A new endpoint for the same server.
    fn clone(&self) -> (copy: Endpoint)
        ensures
            copy == *self,
    {
        Endpoint { scheme: self.scheme, host: self.host.clone(), port: self.port }
    }
}

impl PartialEq for Endpoint {
    /// Endpoints are equal when they name the same server.
    fn eq(&self, other: &Endpoint) -> (equal: bool) {
        self.port == other.port && self.host == other.host
    }
}

impl vstd::std_specs::cmp::PartialEqSpecImpl for Endpoint {
    open spec fn obeys_eq_spec() -> bool {
        true
    }

    open spec fn eq_spec(&self, other: &Endpoint) -> bool {
        same_server(self@, other@)
    }
}

/// Whether a host text names this machine.
pub fn denotes_loopback(host: &str) -> (loopback: bool)
    ensures
        loopback == is_loopback_text(host@),
{
    same_text(host, "localhost") || same_text(host, "127.0.0.1")
}

/// A host that does not name this machine is not `localhost`.
pub proof fn lemma_remote_differs_from_local(host: Seq<char>)
    requires
        !is_loopback_text(host),
    ensures
        !same_server(remote_endpoint(host), local_endpoint()),
{
}

/// Picks the endpoint to call and the one to fall back on.
///
/// The local server, with no fallback, when the caller asks for it, when no
/// remote host is configured, or when the configured host names this machine.
/// Else the configured host, with the local server as fallback; the two then
/// name different servers.
pub fn resolve(explicit_local: bool, configured_remote_host: Option<&str>) -> (choice: (
    Endpoint,
    Option<Endpoint>,
))
    ensures
        goes_local(explicit_local, host_text(configured_remote_host)) ==> {
            &&& choice.0@ == local_endpoint()
            &&& choice.1 is None
        },
        !goes_local(explicit_local, host_text(configured_remote_host)) ==> {
            &&& configured_remote_host matches Some(host)
            &&& choice.0@ == remote_endpoint(host@)
            &&& choice.1 matches Some(fallback)
            &&& fallback@ == local_endpoint()
            &&& !same_server(choice.0@, fallback@)
        },
{
    if explicit_local {
        return (Endpoint::local(), None);
    }
    match configured_remote_host {
        None => (Endpoint::local(), None),
        Some(host) => {
            if denotes_loopback(host) {
                (Endpoint::local(), None)
            } else {
                proof {
                    lemma_remote_differs_from_local(host@);
                }
                (Endpoint::remote(host), Some(Endpoint::local()))
            }
        },
    }
}

} // verus!
