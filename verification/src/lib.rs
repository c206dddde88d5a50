use vstd::prelude::*;

/// Deriving the forwarder's upstream target from a destination identifier.
pub mod dsn;
/// The fixed names and URLs of the extension API dialogue.
pub mod endpoints;
/// Decoding lifecycle events from poll response bodies.
pub mod event;
/// Reading object documents: the wire format of events and result artifacts.
pub mod json;
/// The control loop's state machine and its guarantees.
pub mod machine;
/// The one-time registration handshake and the poll request it licenses.
pub mod register;
/// Reading the result artifact of a finished invocation.
pub mod result_artifact;
/// Supervision of the background forwarding process.
pub mod supervisor;
/// Characters, strings and decimal notation.
pub mod text;

verus! {

} // verus!
