//! The failure taxonomy that bus clients and control operations surface.

use vstd::prelude::*;

use crate::models::ServiceAction;

verus! {

/// A failure surfaced by a bus client or a control operation. Aggregation
/// never surfaces these to its caller; control operations surface every one.
#[derive(Debug)]
pub enum ServiceError {
    /// A transport or reply-decoding failure reported by the message bus.
    ZbusError(zbus::Error),
    /// A reply or value whose shape could not be interpreted.
    ParseError(String),
    /// The authority did not grant the capability needed by the named
    /// action on the named unit; no remote mutation was issued.
    AuthorizationDenied(ServiceAction, String),
}

/// The mutating verb of each action, as error messages spell it.
pub open spec fn spec_action_verb(a: ServiceAction) -> Seq<char> {
    match a {
        ServiceAction::Start => "start"@,
        ServiceAction::Stop => "stop"@,
        ServiceAction::Enable => "enable"@,
        ServiceAction::Disable => "disable"@,
    }
}

/// The action's mutating verb.
fn action_verb(a: ServiceAction) -> (r: &'static str)
    ensures
        r@ == spec_action_verb(a),
{
    match a {
        ServiceAction::Start => "start",
        ServiceAction::Stop => "stop",
        ServiceAction::Enable => "enable",
        ServiceAction::Disable => "disable",
    }
}

/// Relies on zbus::Error's Display implementation: the transport's own
/// description of the failure, read through ToString.
#[verifier::external_body]
fn describe_bus_error(e: &zbus::Error) -> (r: String) {
    e.to_string()
}

impl ServiceError {
    /// The human-readable message of this failure. A transport failure
    /// opens with `"D-Bus error: "` and carries the transport's own text;
    /// the other messages are pinned exactly.
    pub fn message(&self) -> (r: String)
        ensures
            self matches ServiceError::ZbusError(_) ==> r@.subrange(0, "D-Bus error: "@.len() as int)
                == "D-Bus error: "@,
            self matches ServiceError::ParseError(s) ==> r@ == "Parse error: "@ + s@,
            self matches ServiceError::AuthorizationDenied(a, u) ==> r@ == "Not authorized to "@
                + spec_action_verb(*a) + " unit '"@ + u@ + "'"@,
    {
        match self {
            ServiceError::ZbusError(e) => {
                let text = describe_bus_error(e);
                let r = String::from_str("D-Bus error: ").concat(text.as_str());
                proof {
                    assert(r@.subrange(0, "D-Bus error: "@.len() as int) =~= "D-Bus error: "@);
                }
                r
            },
            ServiceError::ParseError(s) => String::from_str("Parse error: ").concat(s.as_str()),
            ServiceError::AuthorizationDenied(a, u) => String::from_str("Not authorized to ")
                .concat(action_verb(*a)).concat(" unit '").concat(u.as_str()).concat("'"),
        }
    }
}

/// Which stage of the authority round trip failed.
#[derive(Debug)]
pub enum AuthorityFailure {
    /// The privilege-check call itself failed at the transport.
    Transport(zbus::Error),
    /// The authority replied, but the reply body did not have the expected
    /// shape.
    Deserialize(zbus::Error),
}

} // verus!
