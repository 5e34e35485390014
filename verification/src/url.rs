//! A plain-value model of the parts of a URL that redirect handling reads:
//! scheme, host, optional port, and path. The effective port (the explicit
//! port, or the scheme's well-known default) decides whether two consecutive
//! hops share an origin.

use vstd::prelude::*;

verus! {

/// The scheme of a URL, as far as the default-port rule cares.
///
/// Schemes without a well-known default port are collapsed into `Other`:
/// redirect handling reads a scheme only to derive the effective port.
#[derive(Clone, Copy, Debug, PartialEq, Eq, Structural)]
pub enum Scheme {
    Http,
    Https,
    Ws,
    Wss,
    Ftp,
    Other,
}

/// A URL, reduced to the fields the redirect engine reads.
///
/// `host` is `None` for URLs without an authority. `port` is the explicit
/// port, if one was written; [`Url::port_or_known_default`] falls back to the
/// scheme's default.
#[derive(Clone, Debug)]
pub struct Url {
    pub scheme: Scheme,
    pub host: Option<String>,
    pub port: Option<u16>,
    pub path: String,
}

/// The well-known default port of a scheme, or `None` where it has none.
pub open spec fn spec_default_port(scheme: Scheme) -> Option<u16> {
    match scheme {
        Scheme::Http => Some(80u16),
        Scheme::Https => Some(443u16),
        Scheme::Ws => Some(80u16),
        Scheme::Wss => Some(443u16),
        Scheme::Ftp => Some(21u16),
        Scheme::Other => None,
    }
}

/// The port a connection to `u` would use: the explicit port if present,
/// otherwise the scheme's default.
pub open spec fn spec_effective_port(u: Url) -> Option<u16> {
    match u.port {
        Some(p) => Some(p),
        None => spec_default_port(u.scheme),
    }
}

/// Whether two optional hosts name the same host, character for character.
pub open spec fn spec_host_eq(a: Option<String>, b: Option<String>) -> bool {
    match (a, b) {
        (Some(x), Some(y)) => x@ == y@,
        (None, None) => true,
        _ => false,
    }
}

/// Whether two URLs share an origin for redirect purposes: same host and
/// same effective port. The scheme itself is compared only through the port
/// it implies.
pub open spec fn spec_same_origin(a: Url, b: Url) -> bool {
    spec_host_eq(a.host, b.host) && spec_effective_port(a) == spec_effective_port(b)
}

impl Url {
    /// Builds a URL from its parts.
    pub fn new(scheme: Scheme, host: Option<String>, port: Option<u16>, path: String) -> (r: Url)
        ensures
            r.scheme == scheme,
            spec_host_eq(r.host, host),
            r.port == port,
            r.path@ == path@,
    {
        Url { scheme, host, port, path }
    }

    /// The host of this URL, if it has one.
    pub fn host_str(&self) -> (r: Option<&String>)
        ensures
            r matches Some(h) ==> (self.host matches Some(own) && own@ == h@),
            r is None <==> self.host is None,
    {
        self.host.as_ref()
    }

    /// The explicit port of this URL, if one was written.
    pub fn port(&self) -> (r: Option<u16>)
        ensures
            r == self.port,
    {
        self.port
    }

    /// The explicit port, or the scheme's well-known default.
    pub fn port_or_known_default(&self) -> (r: Option<u16>)
        ensures
            r == spec_effective_port(*self),
    {
        match self.port {
            Some(p) => Some(p),
            None => match self.scheme {
                Scheme::Http => Some(80u16),
                Scheme::Https => Some(443u16),
                Scheme::Ws => Some(80u16),
                Scheme::Wss => Some(443u16),
                Scheme::Ftp => Some(21u16),
                Scheme::Other => None,
            },
        }
    }
}

/// Whether `a` and `b` share an origin: same host, same effective port.
pub fn same_origin(a: &Url, b: &Url) -> (r: bool)
    ensures
        r == spec_same_origin(*a, *b),
{
    let hosts_equal = match (&a.host, &b.host) {
        (Some(x), Some(y)) => *x == *y,
        (None, None) => true,
        _ => false,
    };
    let ports_equal = match (a.port_or_known_default(), b.port_or_known_default()) {
        (Some(x), Some(y)) => x == y,
        (None, None) => true,
        _ => false,
    };
    hosts_equal && ports_equal
}

} // verus!
