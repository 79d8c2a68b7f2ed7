//! Where the bridge is: the host and port named by the bridge URL.

use vstd::prelude::*;
use vstd::string::*;

verus! {

/// Whether `url::Url::parse` accepts the text `input` as an absolute URL.
pub uninterp spec fn url_parses(input: Seq<char>) -> bool;

/// The host that `url::Url::host_str` gives for the URL parsed from `input`.
pub uninterp spec fn url_host(input: Seq<char>) -> Option<Seq<char>>;

/// The port that `url::Url::port_or_known_default` gives for the URL parsed from
/// `input`: the port written in it, or the default port of its scheme where the
/// scheme has one.
pub uninterp spec fn url_port(input: Seq<char>) -> Option<u16>;

/// Asks `url::Url::parse` whether `input` is an absolute URL. Trusted: the answer
/// depends on the text alone.
#[verifier::external_body]
fn url_is_valid(input: &str) -> (ok: bool)
    ensures
        ok == url_parses(input@),
{
    url::Url::parse(input).is_ok()
}

/// Parses `input` and asks `url::Url::host_str` for its host. Trusted: the answer
/// depends on the text alone.
#[verifier::external_body]
fn url_host_str(input: &str) -> (host: Option<String>)
    requires
        url_parses(input@),
    ensures
        match url_host(input@) {
            Some(h) => host is Some && host->0@ == h,
            None => host is None,
        },
{
    match url::Url::parse(input) {
        Ok(u) => match u.host_str() {
            Some(h) => Some(h.to_string()),
            None => None,
        },
        Err(_) => None,
    }
}

/// Parses `input` and asks `url::Url::port_or_known_default` for its port. Trusted:
/// the answer depends on the text alone.
#[verifier::external_body]
fn url_port_or_known_default(input: &str) -> (port: Option<u16>)
    requires
        url_parses(input@),
    ensures
        port == url_port(input@),
{
    match url::Url::parse(input) {
        Ok(u) => u.port_or_known_default(),
        Err(_) => None,
    }
}

/// A host and a port to connect to.
#[derive(Debug)]
pub struct Endpoint {
    pub host: String,
    pub port: u16,
}

/// The mathematical value of an `Endpoint`.
pub struct EndpointView {
    pub host: Seq<char>,
    pub port: u16,
}

impl View for Endpoint {
    type V = EndpointView;

    open spec fn view(&self) -> EndpointView {
        EndpointView { host: self.host@, port: self.port }
    }
}

/// Why a bridge URL names no endpoint.
#[derive(Clone, Copy, Debug, PartialEq, Eq, Structural)]
pub enum EndpointError {
    InvalidUrl,
    HostMissing,
    PortMissing,
}

impl EndpointError {
    pub open spec fn spec_message(self) -> Seq<char> {
        match self {
            EndpointError::InvalidUrl => "parse bridge_url"@,
            EndpointError::HostMissing => "bridge_url host missing"@,
            EndpointError::PortMissing => "bridge_url port missing"@,
        }
    }

    /// The text that explains the error.
    pub fn message(self) -> (r: &'static str)
        ensures
            r@ == self.spec_message(),
    {
        match self {
            EndpointError::InvalidUrl => "parse bridge_url",
            EndpointError::HostMissing => "bridge_url host missing",
            EndpointError::PortMissing => "bridge_url port missing",
        }
    }
}

/// The endpoint of a URL with the given host and port: both have to be there, and
/// the host is looked at first.
pub open spec fn endpoint_of(host: Option<Seq<char>>, port: Option<u16>) -> Result<EndpointView, EndpointError> {
    match host {
        None => Err(EndpointError::HostMissing),
        Some(h) => match port {
            None => Err(EndpointError::PortMissing),
            Some(p) => Ok(EndpointView { host: h, port: p }),
        },
    }
}

/// The endpoint of a URL whose host and port are already known.
pub fn endpoint_from_parts(host: Option<String>, port: Option<u16>) -> (r: Result<Endpoint, EndpointError>)
    ensures
        match endpoint_of(
            match host {
                Some(h) => Some(h@),
                None => None,
            },
            port,
        ) {
            Ok(e) => r is Ok && r->Ok_0@ == e,
            Err(e) => r is Err && r->Err_0 == e,
        },
{
    match host {
        None => Err(EndpointError::HostMissing),
        Some(host) => match port {
            None => Err(EndpointError::PortMissing),
            Some(port) => Ok(Endpoint { host, port }),
        },
    }
}

/// The endpoint that the bridge URL names.
pub fn bridge_endpoint(bridge_url: &str) -> (r: Result<Endpoint, EndpointError>)
    ensures
        !url_parses(bridge_url@) ==> r is Err && r->Err_0 == EndpointError::InvalidUrl,
        url_parses(bridge_url@) ==> match endpoint_of(url_host(bridge_url@), url_port(bridge_url@)) {
            Ok(e) => r is Ok && r->Ok_0@ == e,
            Err(e) => r is Err && r->Err_0 == e,
        },
{
    if !url_is_valid(bridge_url) {
        return Err(EndpointError::InvalidUrl);
    }
    let host = url_host_str(bridge_url);
    let port = url_port_or_known_default(bridge_url);
    endpoint_from_parts(host, port)
}

} // verus!
