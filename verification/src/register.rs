use vstd::prelude::*;
use vstd::string::StringExecFns;

use crate::endpoints::{
    base_url, extension_name, id_header, name_header, next_event_url, register_url, spec_base_url,
};

verus! {

/// Why startup failed.  Every case here ends the process with a non-zero
/// outcome before any polling begins.
#[derive(PartialEq, Eq, Structural, Clone, Debug)]
pub enum StartupError {
    /// The platform's base-endpoint environment value is absent.
    MissingBaseEndpoint,
    /// The registration call failed in transport.
    RegistrationTransport,
    /// The registration response carried a status other than OK.
    RegistrationStatus(u16),
    /// The registration response carried no session-identifier header.
    RegistrationMissingHeader,
}

/// The opaque session identifier issued once at registration and carried
/// on every later poll request.
#[derive(PartialEq, Eq, Clone, Debug)]
pub struct RegistrationHandle {
    pub session_id: String,
}

/// Builds the base endpoint from the platform-supplied host value, or
/// reports the fatal absence of that value.  No request may be made
/// before this succeeds.
pub fn base_endpoint(host: Option<&str>) -> (r: Result<String, StartupError>)
    ensures
        host matches Some(h) ==> r matches Ok(u) && u@ == spec_base_url(h@),
        host is None ==> r == Err::<String, _>(StartupError::MissingBaseEndpoint),
{
    match host {
        Some(h) => Ok(base_url(h)),
        None => Err(StartupError::MissingBaseEndpoint),
    }
}

/// One outward HTTP request, as plain data for the transport to perform.
pub struct RequestPlan {
    pub url: String,
    pub header_name: String,
    pub header_value: String,
    pub body: Option<String>,
}

/// The one-time registration request: the controller's fixed name in the
/// name header, and a body declaring interest in the two event classes.
pub fn register_request(base: &str) -> (r: RequestPlan)
    ensures
        r.url@ == base@ + "/register"@,
        r.header_name@ == "Lambda-Extension-Name"@,
        r.header_value@ == "aws-lambda-extension"@,
        r.body matches Some(b) && b@ == "{\"events\":[\"INVOKE\",\"SHUTDOWN\"]}"@,
{
    RequestPlan {
        url: register_url(base),
        header_name: name_header().to_owned(),
        header_value: extension_name().to_owned(),
        body: Some("{\"events\":[\"INVOKE\",\"SHUTDOWN\"]}".to_owned()),
    }
}

/// The long-poll request for the next event: it carries the session
/// identifier of the handle, and nothing else.
pub fn poll_request(base: &str, handle: &RegistrationHandle) -> (r: RequestPlan)
    ensures
        r.url@ == base@ + "/event/next"@,
        r.header_name@ == "Lambda-Extension-Identifier"@,
        r.header_value@ == handle.session_id@,
        r.body is None,
{
    RequestPlan {
        url: next_event_url(base),
        header_name: id_header().to_owned(),
        header_value: handle.session_id.clone(),
        body: None,
    }
}

/// Decides registration from the response: a handle holding exactly the
/// identifier header's value comes back when the status is OK and the
/// header is present; any other response is fatal and yields no handle.
pub fn interpret_register_response(status: u16, id_value: Option<String>) -> (r: Result<
    RegistrationHandle,
    StartupError,
>)
    ensures
        status != 200 ==> r == Err::<RegistrationHandle, _>(
            StartupError::RegistrationStatus(status),
        ),
        status == 200 && id_value is None ==> r == Err::<RegistrationHandle, _>(
            StartupError::RegistrationMissingHeader,
        ),
        status == 200 ==> (id_value matches Some(v) ==> r matches Ok(h) && h.session_id == v),
        r is Ok <==> status == 200 && id_value is Some,
{
    if status != 200 {
        Err(StartupError::RegistrationStatus(status))
    } else {
        match id_value {
            Some(v) => Ok(RegistrationHandle { session_id: v }),
            None => Err(StartupError::RegistrationMissingHeader),
        }
    }
}

} // verus!
