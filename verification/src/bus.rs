//! The trusted boundary to the outside world: declarations of the message
//! bus's types and one thin wrapper around each remote call or process query
//! the library makes. Verus believes the contracts stated here; everything
//! that interprets the values they hand back is verified.

use vstd::prelude::*;

use std::collections::HashMap;
use zbus::Message;
use zbus::blocking::Connection;
use zbus::zvariant::OwnedObjectPath;
use zbus::zvariant::Value;

use crate::models::{AuthorizationReply, UnitFileEntry, UnitInfo};

verus! {

#[verifier::external_type_specification]
#[verifier::external_body]
pub struct ExConnection(Connection);

#[verifier::external_type_specification]
#[verifier::external_body]
pub struct ExZbusError(zbus::Error);

#[verifier::external_type_specification]
#[verifier::external_body]
pub struct ExMessage(Message);

/// Relies on zbus::blocking::Connection::system: opens a connection to the
/// system-wide message bus, or fails with the transport's error.
#[verifier::external_body]
pub(crate) fn connect_system() -> (r: Result<Connection, zbus::Error>) {
    Connection::system()
}

/// Relies on zbus::blocking::Connection::session: opens a connection to the
/// per-session message bus, or fails with the transport's error.
#[verifier::external_body]
pub(crate) fn connect_session() -> (r: Result<Connection, zbus::Error>) {
    Connection::session()
}

/// Relies on zbus::blocking::Connection::call_method: one synchronous call
/// of the named method on the service supervisor's manager object, with no
/// arguments; hands back the reply message or the transport's error.
#[verifier::external_body]
pub(crate) fn call_manager_no_args(conn: &Connection, method: &str) -> (r: Result<
    Message,
    zbus::Error,
>) {
    conn.call_method(
        Some("org.freedesktop.systemd1"),
        "/org/freedesktop/systemd1",
        Some("org.freedesktop.systemd1.Manager"),
        method,
        &(),
    )
}

/// Relies on zbus::blocking::Connection::call_method: one synchronous call
/// of the named manager method whose arguments are a unit name and a
/// conflict-resolution mode; the reply carries nothing and is dropped.
#[verifier::external_body]
pub(crate) fn call_unit_with_mode(conn: &Connection, method: &str, unit: &str, mode: &str) -> (r:
    Result<(), zbus::Error>) {
    conn.call_method(
        Some("org.freedesktop.systemd1"),
        "/org/freedesktop/systemd1",
        Some("org.freedesktop.systemd1.Manager"),
        method,
        &(unit, mode),
    ).map(|_| ())
}

/// Relies on zbus::blocking::Connection::call_method: one synchronous
/// EnableUnitFiles call on the service supervisor's manager object; the
/// reply is dropped.
#[verifier::external_body]
pub(crate) fn call_enable_unit_files(
    conn: &Connection,
    units: &Vec<String>,
    runtime_only: bool,
    force: bool,
) -> (r: Result<(), zbus::Error>) {
    conn.call_method(
        Some("org.freedesktop.systemd1"),
        "/org/freedesktop/systemd1",
        Some("org.freedesktop.systemd1.Manager"),
        "EnableUnitFiles",
        &(units, runtime_only, force),
    ).map(|_| ())
}

/// Relies on zbus::blocking::Connection::call_method: one synchronous
/// DisableUnitFiles call on the service supervisor's manager object; the
/// reply is dropped.
#[verifier::external_body]
pub(crate) fn call_disable_unit_files(
    conn: &Connection,
    units: &Vec<String>,
    runtime_only: bool,
) -> (r: Result<(), zbus::Error>) {
    conn.call_method(
        Some("org.freedesktop.systemd1"),
        "/org/freedesktop/systemd1",
        Some("org.freedesktop.systemd1.Manager"),
        "DisableUnitFiles",
        &(units, runtime_only),
    ).map(|_| ())
}

/// Relies on zbus::blocking::Connection::call_method: one synchronous
/// CheckAuthorization call on the authority service, with a unix-process
/// subject built from the given process id, start time and user id. The
/// flags value 1 requests interactive authorization and the cancellation id
/// is empty, as the authority's interface defines them.
#[verifier::external_body]
pub(crate) fn call_check_authorization(
    conn: &Connection,
    pid: u32,
    start_time: u64,
    uid: u32,
    action_id: &str,
) -> (r: Result<Message, zbus::Error>) {
    let mut subject = HashMap::new();
    subject.insert("pid", Value::from(pid));
    subject.insert("start-time", Value::from(start_time));
    subject.insert("uid", Value::from(uid));
    let subject = ("unix-process", subject);
    conn.call_method(
        Some("org.freedesktop.PolicyKit1"),
        "/org/freedesktop/PolicyKit1/Authority",
        Some("org.freedesktop.PolicyKit1.Authority"),
        "CheckAuthorization",
        &(subject, action_id, HashMap::<&str, &str>::new(), 1u32, ""),
    )
}

/// Relies on zbus::message::Body::deserialize: decodes the ListUnits reply,
/// a sequence of ten-field unit rows, keeping each row's name, description
/// and activation state; a shape mismatch is the decoder's error.
#[verifier::external_body]
pub(crate) fn deserialize_unit_rows(msg: &Message) -> (r: Result<Vec<UnitInfo>, zbus::Error>) {
    let rows: Vec<
        (String, String, String, String, String, String, OwnedObjectPath, u32, String, OwnedObjectPath),
    > = msg.body().deserialize()?;
    Ok(
        rows.into_iter().map(
            |row| UnitInfo { name: row.0, description: row.1, active_state: row.3 },
        ).collect(),
    )
}

/// Relies on zbus::message::Body::deserialize: decodes the ListUnitFiles
/// reply, a sequence of (file path, enablement state) pairs; a shape
/// mismatch is the decoder's error.
#[verifier::external_body]
pub(crate) fn deserialize_unit_file_rows(msg: &Message) -> (r: Result<
    Vec<UnitFileEntry>,
    zbus::Error,
>) {
    let rows: Vec<(String, String)> = msg.body().deserialize()?;
    Ok(rows.into_iter().map(|row| UnitFileEntry { path: row.0, state: row.1 }).collect())
}

/// Relies on zbus::message::Body::deserialize: decodes the CheckAuthorization
/// reply triple, dropping its detail mapping; a shape mismatch is the
/// decoder's error.
#[verifier::external_body]
pub(crate) fn deserialize_authorization_reply(msg: &Message) -> (r: Result<
    AuthorizationReply,
    zbus::Error,
>) {
    let (is_authorized, is_challenge, _): (bool, bool, HashMap<String, String>) =
        msg.body().deserialize()?;
    Ok(AuthorizationReply { is_authorized, is_challenge })
}

/// Relies on users::get_effective_uid: the effective user id of this
/// process.
#[verifier::external_body]
pub(crate) fn effective_uid() -> (r: u32) {
    users::get_effective_uid()
}

/// Relies on nix::unistd::getpid: the id of this process.
#[verifier::external_body]
pub(crate) fn process_id() -> (r: u32) {
    nix::unistd::getpid().as_raw() as u32
}

/// Asks the supervisor for its runtime unit list; the reply is decoded by
/// `deserialize_unit_rows`.
pub(crate) fn list_units_message(conn: &Connection) -> (r: Result<Message, zbus::Error>) {
    call_manager_no_args(conn, "ListUnits")
}

/// Asks the supervisor for its persisted unit-file list; the reply is
/// decoded by `deserialize_unit_file_rows`.
pub(crate) fn list_unit_files_message(conn: &Connection) -> (r: Result<Message, zbus::Error>) {
    call_manager_no_args(conn, "ListUnitFiles")
}

/// Relies on rayon::join: runs the two closures, possibly in parallel, and
/// returns the pair of their results. Each closure only calls the named
/// verified function of this crate on the given connection.
#[verifier::external_body]
pub(crate) fn join_list_calls(conn: &Connection) -> (r: (
    Result<Message, zbus::Error>,
    Result<Message, zbus::Error>,
)) {
    rayon::join(|| list_units_message(conn), || list_unit_files_message(conn))
}

} // verus!
