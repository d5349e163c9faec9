//! Planning of the four mutating operations: which remote method a control
//! request turns into, with which arguments, and how an authority refusal
//! stops the plan before any call is shaped.

use vstd::prelude::*;

use crate::error::ServiceError;
use crate::models::ServiceAction;

verus! {

/// The remote mutation a control operation issues, as data: method and
/// arguments, exactly as they go onto the wire.
#[derive(Debug, Clone)]
pub enum ControlCall {
    StartUnit { unit: String, mode: String },
    StopUnit { unit: String, mode: String },
    EnableUnitFiles { units: Vec<String>, runtime_only: bool, force: bool },
    DisableUnitFiles { units: Vec<String>, runtime_only: bool },
}

/// Spec-level picture of `ControlCall`.
pub enum ControlCallView {
    StartUnit { unit: Seq<char>, mode: Seq<char> },
    StopUnit { unit: Seq<char>, mode: Seq<char> },
    EnableUnitFiles { units: Seq<Seq<char>>, runtime_only: bool, force: bool },
    DisableUnitFiles { units: Seq<Seq<char>>, runtime_only: bool },
}

impl DeepView for ControlCall {
    type V = ControlCallView;

    open spec fn deep_view(&self) -> ControlCallView {
        match self {
            ControlCall::StartUnit { unit, mode } => ControlCallView::StartUnit {
                unit: unit@,
                mode: mode@,
            },
            ControlCall::StopUnit { unit, mode } => ControlCallView::StopUnit {
                unit: unit@,
                mode: mode@,
            },
            ControlCall::EnableUnitFiles { units, runtime_only, force } => ControlCallView::EnableUnitFiles {
                units: units.deep_view(),
                runtime_only: *runtime_only,
                force: *force,
            },
            ControlCall::DisableUnitFiles { units, runtime_only } => ControlCallView::DisableUnitFiles {
                units: units.deep_view(),
                runtime_only: *runtime_only,
            },
        }
    }
}

/// The remote call each action issues for a unit: starting and stopping
/// take the unit name with the `"replace"` conflict-resolution mode;
/// enabling and disabling take a one-element name list and persist (not
/// runtime-only), with enabling forcing the symlink.
pub open spec fn spec_control_call(action: ServiceAction, unit: Seq<char>) -> ControlCallView {
    match action {
        ServiceAction::Start => ControlCallView::StartUnit { unit, mode: "replace"@ },
        ServiceAction::Stop => ControlCallView::StopUnit { unit, mode: "replace"@ },
        ServiceAction::Enable => ControlCallView::EnableUnitFiles {
            units: seq![unit],
            runtime_only: false,
            force: true,
        },
        ServiceAction::Disable => ControlCallView::DisableUnitFiles {
            units: seq![unit],
            runtime_only: false,
        },
    }
}

/// Turns an authorized control request into the exact remote call to issue;
/// an unauthorized request yields `AuthorizationDenied` naming the action
/// and the unit, and shapes no call at all.
pub fn plan_control(action: ServiceAction, unit_name: &str, authorized: bool) -> (r: Result<
    ControlCall,
    ServiceError,
>)
    ensures
        authorized ==> (r matches Ok(call) && call.deep_view() == spec_control_call(
            action,
            unit_name@,
        )),
        !authorized ==> (r matches Err(e) && e matches ServiceError::AuthorizationDenied(a, u)
            && a == action && u@ == unit_name@),
{
    if !authorized {
        return Err(ServiceError::AuthorizationDenied(action, unit_name.to_owned()));
    }
    match action {
        ServiceAction::Start => Ok(
            ControlCall::StartUnit { unit: unit_name.to_owned(), mode: "replace".to_owned() },
        ),
        ServiceAction::Stop => Ok(
            ControlCall::StopUnit { unit: unit_name.to_owned(), mode: "replace".to_owned() },
        ),
        ServiceAction::Enable => {
            let mut units: Vec<String> = Vec::new();
            units.push(unit_name.to_owned());
            proof {
                assert(units.deep_view() =~= seq![unit_name@]);
            }
            Ok(ControlCall::EnableUnitFiles { units, runtime_only: false, force: true })
        },
        ServiceAction::Disable => {
            let mut units: Vec<String> = Vec::new();
            units.push(unit_name.to_owned());
            proof {
                assert(units.deep_view() =~= seq![unit_name@]);
            }
            Ok(ControlCall::DisableUnitFiles { units, runtime_only: false })
        },
    }
}

} // verus!
