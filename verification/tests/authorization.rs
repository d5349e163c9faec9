//! The authorizer's fail-closed policy and the gating of the four control
//! operations.

use service_manager::{
    plan_control, resolve_authority_reply, AuthorityFailure, AuthorizationReply, ControlCall,
    ServiceAction, ServiceError,
};

#[test]
fn a_transport_failure_of_the_authority_reads_as_not_authorized() {
    let outcome = resolve_authority_reply(Err(AuthorityFailure::Transport(
        zbus::Error::Failure("authority unreachable".to_string()),
    )));
    assert!(matches!(outcome, Ok(false)));
}

#[test]
fn an_explicit_authority_answer_is_passed_through() {
    let granted = AuthorizationReply { is_authorized: true, is_challenge: false };
    assert!(matches!(resolve_authority_reply(Ok(granted)), Ok(true)));
    let refused = AuthorizationReply { is_authorized: false, is_challenge: true };
    assert!(matches!(resolve_authority_reply(Ok(refused)), Ok(false)));
}

#[test]
fn an_undecodable_authority_reply_is_an_error() {
    let outcome = resolve_authority_reply(Err(AuthorityFailure::Deserialize(
        zbus::Error::Failure("bad shape".to_string()),
    )));
    assert!(matches!(outcome, Err(ServiceError::ZbusError(_))));
}

#[test]
fn an_unauthorized_request_plans_no_call_and_names_the_refusal() {
    let planned = plan_control(ServiceAction::Start, "foo.service", false);
    match planned {
        Err(ServiceError::AuthorizationDenied(action, unit)) => {
            assert_eq!(action, ServiceAction::Start);
            assert_eq!(unit, "foo.service");
        }
        _ => panic!("an unauthorized start must be denied"),
    }
    let planned = plan_control(ServiceAction::Disable, "bar.service", false);
    match planned {
        Err(ServiceError::AuthorizationDenied(action, unit)) => {
            assert_eq!(action, ServiceAction::Disable);
            assert_eq!(unit, "bar.service");
        }
        _ => panic!("an unauthorized disable must be denied"),
    }
}

#[test]
fn an_authorized_start_plans_start_unit_with_replace() {
    match plan_control(ServiceAction::Start, "foo.service", true) {
        Ok(ControlCall::StartUnit { unit, mode }) => {
            assert_eq!(unit, "foo.service");
            assert_eq!(mode, "replace");
        }
        _ => panic!("an authorized start must plan StartUnit"),
    }
}

#[test]
fn an_authorized_stop_plans_stop_unit_with_replace() {
    match plan_control(ServiceAction::Stop, "foo.service", true) {
        Ok(ControlCall::StopUnit { unit, mode }) => {
            assert_eq!(unit, "foo.service");
            assert_eq!(mode, "replace");
        }
        _ => panic!("an authorized stop must plan StopUnit"),
    }
}

#[test]
fn an_authorized_enable_plans_a_persistent_forced_enable() {
    match plan_control(ServiceAction::Enable, "foo.service", true) {
        Ok(ControlCall::EnableUnitFiles { units, runtime_only, force }) => {
            assert_eq!(units, vec!["foo.service".to_string()]);
            assert!(!runtime_only);
            assert!(force);
        }
        _ => panic!("an authorized enable must plan EnableUnitFiles"),
    }
}

#[test]
fn an_authorized_disable_plans_a_persistent_disable() {
    match plan_control(ServiceAction::Disable, "foo.service", true) {
        Ok(ControlCall::DisableUnitFiles { units, runtime_only }) => {
            assert_eq!(units, vec!["foo.service".to_string()]);
            assert!(!runtime_only);
        }
        _ => panic!("an authorized disable must plan DisableUnitFiles"),
    }
}

#[test]
fn a_denied_control_operation_names_its_action_and_unit() {
    // Exercises the full control path against whatever this host offers:
    // with no reachable system bus the operation fails in the transport;
    // with one, an absent authority fails closed into a denial. Either
    // way, any denial must name exactly this action and unit.
    let manager = service_manager::SystemdServiceManager::new();
    match manager.start_unit("nonexistent-probe.service") {
        Err(ServiceError::AuthorizationDenied(action, unit)) => {
            assert_eq!(action, ServiceAction::Start);
            assert_eq!(unit, "nonexistent-probe.service");
        }
        Err(_) => {}
        Ok(_) => panic!("starting a nonexistent unit cannot succeed"),
    }
}
