//! The service manager: aggregation across the two bus domains and the four
//! gated control operations.

use vstd::prelude::*;

use zbus::blocking::Connection;

use crate::aggregate::{
    combine_domains, lemma_merge_all_service_names, merge_services, spec_domain_records,
    spec_is_service_name,
};
use crate::authority::resolve_authority_reply;
use crate::bus::{
    call_check_authorization, call_disable_unit_files, call_enable_unit_files, call_unit_with_mode,
    connect_session, connect_system, deserialize_authorization_reply, deserialize_unit_file_rows,
    deserialize_unit_rows, effective_uid, join_list_calls, process_id,
};
use crate::control::{plan_control, ControlCall};
use crate::error::{AuthorityFailure, ServiceError};
use crate::models::{ServiceAction, ServiceInfo};

verus! {

/// The single capability identifier every mutating operation gates on; no
/// per-operation granularity exists.
pub open spec fn spec_action_id() -> Seq<char> {
    "org.freedesktop.systemd1.manage-units"@
}

/// The capability identifier as a string value.
fn action_id() -> (r: &'static str)
    ensures
        r@ == spec_action_id(),
{
    "org.freedesktop.systemd1.manage-units"
}

/// Every record in a domain's successful contribution names a service.
pub open spec fn spec_all_service_records(outcome: Result<Vec<ServiceInfo>, ServiceError>) -> bool {
    outcome matches Ok(v) ==> forall|k: int|
        0 <= k < v.deep_view().len() ==> spec_is_service_name(#[trigger] v.deep_view()[k].name)
}

/// The client for querying and mutating service units across the system and
/// session bus domains. Holds no state: every call opens its own
/// connections, which are never pooled or reused.
#[derive(Clone)]
pub struct SystemdServiceManager;

/// Relies on rayon::join: runs the two closures, possibly in parallel, and
/// returns the pair of their results. Each closure only calls one of this
/// crate's verified per-domain fetches on the given manager, so the
/// contract restates those functions' postcondition.
#[verifier::external_body]
fn join_domain_fetches(mgr: &SystemdServiceManager) -> (r: (
    Result<Vec<ServiceInfo>, ServiceError>,
    Result<Vec<ServiceInfo>, ServiceError>,
))
    ensures
        spec_all_service_records(r.0),
        spec_all_service_records(r.1),
{
    rayon::join(|| mgr.fetch_system_services(), || mgr.fetch_session_services())
}

impl SystemdServiceManager {
    pub fn new() -> (r: Self) {
        SystemdServiceManager
    }

    /// The full, filtered list of service records visible across both bus
    /// domains: system-domain records first, daemon order kept within each
    /// domain. A domain whose connection or listing fails contributes
    /// nothing; when both fail the list is empty. Aggregation itself never
    /// fails, and every record it emits names a `.service` unit.
    pub fn get_services(&self) -> (r: Result<Vec<ServiceInfo>, ServiceError>)
        ensures
            r is Ok,
            spec_all_service_records(r),
    {
        let (system_result, session_result) = join_domain_fetches(self);
        let ghost sys = system_result;
        let ghost sess = session_result;
        let records = combine_domains(system_result, session_result);
        proof {
            assert(records.deep_view() == spec_domain_records(sys) + spec_domain_records(sess));
            assert(forall|k: int|
                0 <= k < records.deep_view().len() ==> spec_is_service_name(
                    #[trigger] records.deep_view()[k].name,
                ));
        }
        Ok(records)
    }

    /// One domain's unit of work: open the given connection outcome, issue
    /// the two list calls concurrently, and merge their replies. Any
    /// failure along the way fails the whole domain: a failed connection
    /// outcome is carried unchanged, and every failure surfaces as the
    /// transport's or decoder's own error.
    fn fetch_services(&self, conn_result: Result<Connection, zbus::Error>) -> (r: Result<
        Vec<ServiceInfo>,
        ServiceError,
    >)
        ensures
            spec_all_service_records(r),
            conn_result matches Err(e) ==> r == Err::<Vec<ServiceInfo>, ServiceError>(
                ServiceError::ZbusError(e),
            ),
            r matches Err(err) ==> err matches ServiceError::ZbusError(_),
    {
        let conn = match conn_result {
            Ok(c) => c,
            Err(e) => return Err(ServiceError::ZbusError(e)),
        };
        let (units_reply, files_reply) = join_list_calls(&conn);
        let units_msg = match units_reply {
            Ok(m) => m,
            Err(e) => return Err(ServiceError::ZbusError(e)),
        };
        let files_msg = match files_reply {
            Ok(m) => m,
            Err(e) => return Err(ServiceError::ZbusError(e)),
        };
        let units = match deserialize_unit_rows(&units_msg) {
            Ok(u) => u,
            Err(e) => return Err(ServiceError::ZbusError(e)),
        };
        let files = match deserialize_unit_file_rows(&files_msg) {
            Ok(f) => f,
            Err(e) => return Err(ServiceError::ZbusError(e)),
        };
        let ghost uv = units.deep_view();
        let ghost fv = files.deep_view();
        let records = merge_services(units, files);
        proof {
            lemma_merge_all_service_names(uv, fv);
        }
        Ok(records)
    }

    /// The system domain's fetch.
    fn fetch_system_services(&self) -> (r: Result<Vec<ServiceInfo>, ServiceError>)
        ensures
            spec_all_service_records(r),
            r matches Err(err) ==> err matches ServiceError::ZbusError(_),
    {
        self.fetch_services(connect_system())
    }

    /// The session domain's fetch.
    fn fetch_session_services(&self) -> (r: Result<Vec<ServiceInfo>, ServiceError>)
        ensures
            spec_all_service_records(r),
            r matches Err(err) ==> err matches ServiceError::ZbusError(_),
    {
        self.fetch_services(connect_session())
    }

    /// Asks the authority whether this process may manage units right now.
    /// The subject — process id, start time, effective user id — is built
    /// fresh on every call, never cached. A transport failure of the
    /// authority answers `Ok(false)`: ambiguity about permission is never
    /// resolved as "allowed". Only an undecodable reply is an error.
    pub fn authorize(&self, action_id: &str, conn: &Connection) -> (r: Result<bool, ServiceError>)
        ensures
            r matches Err(e) ==> e matches ServiceError::ZbusError(_),
    {
        let pid = process_id();
        let uid = effective_uid();
        let reply = match call_check_authorization(conn, pid, 0u64, uid, action_id) {
            Ok(msg) => match deserialize_authorization_reply(&msg) {
                Ok(rep) => Ok(rep),
                Err(e) => Err(AuthorityFailure::Deserialize(e)),
            },
            Err(e) => Err(AuthorityFailure::Transport(e)),
        };
        resolve_authority_reply(reply)
    }

    /// Starts the named unit on the system bus, after the authority check.
    pub fn start_unit(&self, unit_name: &str) -> (r: Result<(), ServiceError>)
        ensures
            r matches Err(ServiceError::AuthorizationDenied(a, u)) ==> a == ServiceAction::Start
                && u@ == unit_name@,
    {
        self.control_unit(ServiceAction::Start, unit_name)
    }

    /// Stops the named unit on the system bus, after the authority check.
    pub fn stop_unit(&self, unit_name: &str) -> (r: Result<(), ServiceError>)
        ensures
            r matches Err(ServiceError::AuthorizationDenied(a, u)) ==> a == ServiceAction::Stop
                && u@ == unit_name@,
    {
        self.control_unit(ServiceAction::Stop, unit_name)
    }

    /// Enables auto-start of the named unit, after the authority check.
    pub fn enable_unit(&self, unit_name: &str) -> (r: Result<(), ServiceError>)
        ensures
            r matches Err(ServiceError::AuthorizationDenied(a, u)) ==> a == ServiceAction::Enable
                && u@ == unit_name@,
    {
        self.control_unit(ServiceAction::Enable, unit_name)
    }

    /// Disables auto-start of the named unit, after the authority check.
    pub fn disable_unit(&self, unit_name: &str) -> (r: Result<(), ServiceError>)
        ensures
            r matches Err(ServiceError::AuthorizationDenied(a, u)) ==> a == ServiceAction::Disable
                && u@ == unit_name@,
    {
        self.control_unit(ServiceAction::Disable, unit_name)
    }

    /// The shared shape of every control operation: open a system-domain
    /// connection, check the fixed capability, and only then issue the one
    /// remote mutation the plan names. An authority refusal surfaces as
    /// `AuthorizationDenied` for exactly this action and unit, before any
    /// mutation is issued; every other failure propagates unchanged.
    fn control_unit(&self, action: ServiceAction, unit_name: &str) -> (r: Result<(), ServiceError>)
        ensures
            r matches Err(ServiceError::AuthorizationDenied(a, u)) ==> a == action && u@
                == unit_name@,
    {
        let conn = match connect_system() {
            Ok(c) => c,
            Err(e) => return Err(ServiceError::ZbusError(e)),
        };
        let authorized = match self.authorize(action_id(), &conn) {
            Ok(b) => b,
            Err(e) => return Err(e),
        };
        let call = match plan_control(action, unit_name, authorized) {
            Ok(c) => c,
            Err(e) => return Err(e),
        };
        match dispatch_control(&conn, &call) {
            Ok(_) => Ok(()),
            Err(e) => Err(ServiceError::ZbusError(e)),
        }
    }
}

/// Issues the planned remote mutation on the given connection.
fn dispatch_control(conn: &Connection, call: &ControlCall) -> (r: Result<(), zbus::Error>) {
    match call {
        ControlCall::StartUnit { unit, mode } => call_unit_with_mode(
            conn,
            "StartUnit",
            unit.as_str(),
            mode.as_str(),
        ),
        ControlCall::StopUnit { unit, mode } => call_unit_with_mode(
            conn,
            "StopUnit",
            unit.as_str(),
            mode.as_str(),
        ),
        ControlCall::EnableUnitFiles { units, runtime_only, force } => call_enable_unit_files(
            conn,
            units,
            *runtime_only,
            *force,
        ),
        ControlCall::DisableUnitFiles { units, runtime_only } => call_disable_unit_files(
            conn,
            units,
            *runtime_only,
        ),
    }
}

} // verus!
