use vstd::prelude::*;
use vstd::string::StringExecFns;

verus! {

/// Name under which this controller registers against the extension API.
pub fn extension_name() -> (r: &'static str)
    ensures
        r@ == "aws-lambda-extension"@,
{
    "aws-lambda-extension"
}

/// Header carrying the controller's name on the registration request.
pub fn name_header() -> (r: &'static str)
    ensures
        r@ == "Lambda-Extension-Name"@,
{
    "Lambda-Extension-Name"
}

/// Header carrying the session identifier, both in the registration
/// response and on every poll request.
pub fn id_header() -> (r: &'static str)
    ensures
        r@ == "Lambda-Extension-Identifier"@,
{
    "Lambda-Extension-Identifier"
}

/// The base endpoint of the extension API, derived from the
/// platform-supplied host value of the runtime-API environment variable.
pub open spec fn spec_base_url(host: Seq<char>) -> Seq<char> {
    "http://"@ + host + "/2020-01-01/extension"@
}

/// Builds the base URL of the extension API for a given runtime-API host.
/// The host is the value of the platform's environment variable; its
/// absence is a startup failure decided by the caller, not here.
pub fn base_url(host: &str) -> (r: String)
    ensures
        r@ == spec_base_url(host@),
{
    let mut s = "http://".to_owned();
    s.append(host);
    s.append("/2020-01-01/extension");
    s
}

/// URL of the one-time registration endpoint.
pub fn register_url(base: &str) -> (r: String)
    ensures
        r@ == base@ + "/register"@,
{
    let mut s = base.to_owned();
    s.append("/register");
    s
}

/// URL of the long-poll "next event" endpoint.
pub fn next_event_url(base: &str) -> (r: String)
    ensures
        r@ == base@ + "/event/next"@,
{
    let mut s = base.to_owned();
    s.append("/event/next");
    s
}

/// URL of the forwarder's readiness probe, derived from its listen address.
pub fn healthcheck_url(listen_addr: &str) -> (r: String)
    ensures
        r@ == "http://"@ + listen_addr@ + "/api/relay/healthcheck/ready/"@,
{
    let mut s = "http://".to_owned();
    s.append(listen_addr);
    s.append("/api/relay/healthcheck/ready/");
    s
}

} // verus!
