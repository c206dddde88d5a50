use vstd::prelude::*;
use vstd::string::StringExecFns;

use crate::text::{port_decimal, spec_decimal};

verus! {

/// Transport scheme of a structured destination identifier.
#[derive(PartialEq, Eq, Structural, Clone, Copy, Debug)]
pub enum Scheme {
    Http,
    Https,
}

/// The conventional default port of a scheme.
pub open spec fn spec_default_port(https: bool) -> u16 {
    if https {
        443
    } else {
        80
    }
}

pub fn default_port(s: Scheme) -> (p: u16)
    ensures
        p == spec_default_port(s is Https),
{
    match s {
        Scheme::Http => 80,
        Scheme::Https => 443,
    }
}

pub open spec fn spec_scheme_text(https: bool) -> Seq<char> {
    if https {
        "https"@
    } else {
        "http"@
    }
}

fn scheme_text(s: Scheme) -> (r: &'static str)
    ensures
        r@ == spec_scheme_text(s is Https),
{
    match s {
        Scheme::Http => "http",
        Scheme::Https => "https",
    }
}

/// The parts of a destination identifier that the upstream target is
/// built from: everything else in the identifier is irrelevant here.
pub struct DsnParts {
    pub scheme: Scheme,
    pub host: String,
    pub port: u16,
}

/// What parsing a destination identifier yields — scheme, host, and the
/// explicit port or the scheme's default — as a function of the text
/// alone.
pub uninterp spec fn spec_parse_dsn(s: Seq<char>) -> Option<(bool, Seq<char>, u16)>;

/// Relies on sentry_types::Dsn: `str::parse` validates the identifier,
/// and `scheme()`, `host()` and `port()` read its parts, `port()` falling
/// back to the scheme's default when none is written; all of it depends
/// on the text alone.
#[verifier::external_body]
fn parse_dsn(s: &str) -> (r: Option<DsnParts>)
    ensures
        match r {
            Some(p) => spec_parse_dsn(s@) matches Some(t) && t.0 == (p.scheme is Https) && t.1
                == p.host@ && t.2 == p.port,
            None => spec_parse_dsn(s@) is None,
        },
{
    match s.parse::<sentry_types::Dsn>() {
        Ok(d) => Some(
            DsnParts {
                scheme: match d.scheme() {
                    sentry_types::Scheme::Http => Scheme::Http,
                    sentry_types::Scheme::Https => Scheme::Https,
                },
                host: d.host().to_owned(),
                port: d.port(),
            },
        ),
        Err(_) => None,
    }
}

/// The upstream target text for given parts: scheme, separator and host,
/// with the port appended only when it differs from the scheme's default.
pub open spec fn spec_upstream_of(https: bool, host: Seq<char>, port: u16) -> Seq<char> {
    if port == spec_default_port(https) {
        spec_scheme_text(https) + "://"@ + host
    } else {
        spec_scheme_text(https) + "://"@ + host + ":"@ + spec_decimal(port as nat)
    }
}

/// Builds the upstream target for parsed destination parts.
pub fn upstream_of_parts(p: &DsnParts) -> (r: String)
    ensures
        r@ == spec_upstream_of(p.scheme is Https, p.host@, p.port),
{
    let mut s = scheme_text(p.scheme).to_owned();
    s.append("://");
    s.append(p.host.as_str());
    let dft = default_port(p.scheme);
    if p.port != dft {
        s.append(":");
        let d = port_decimal(p.port);
        s.append(d.as_str());
    }
    s
}

pub open spec fn opt_str_view(o: Option<&str>) -> Option<Seq<char>> {
    match o {
        Some(s) => Some(s@),
        None => None,
    }
}

/// The upstream target derived from the optional destination identifier
/// text: nothing when the text is absent or not a valid identifier.
pub open spec fn spec_upstream_url(dsn: Option<Seq<char>>) -> Option<Seq<char>> {
    match dsn {
        Some(s) => match spec_parse_dsn(s) {
            Some(t) => Some(spec_upstream_of(t.0, t.1, t.2)),
            None => None,
        },
        None => None,
    }
}

/// Derives the forwarder's upstream target from the destination
/// identifier environment value, when one is set and parses.
pub fn upstream_url(dsn: Option<&str>) -> (r: Option<String>)
    ensures
        match r {
            Some(u) => spec_upstream_url(opt_str_view(dsn)) == Some(u@),
            None => spec_upstream_url(opt_str_view(dsn)) is None,
        },
{
    match dsn {
        Some(d) => match parse_dsn(d) {
            Some(p) => Some(upstream_of_parts(&p)),
            None => None,
        },
        None => None,
    }
}

} // verus!
