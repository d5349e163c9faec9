//! The aggregator: basename extraction, the service-type filter, the
//! merge-by-name join, domain combination and the end-to-end shape.

use service_manager::{
    basename, combine_domains, merge_services, str_contains, str_ends_with, str_eq,
    EnablementStatus, ServiceError, ServiceInfo, ServiceStatus, SystemdServiceManager,
    UnitFileEntry, UnitInfo,
};

fn unit(name: &str, description: &str, active_state: &str) -> UnitInfo {
    UnitInfo {
        name: name.to_string(),
        description: description.to_string(),
        active_state: active_state.to_string(),
    }
}

fn entry(path: &str, state: &str) -> UnitFileEntry {
    UnitFileEntry { path: path.to_string(), state: state.to_string() }
}

#[test]
fn string_helpers() {
    assert!(str_eq("abc", "abc"));
    assert!(!str_eq("abc", "abd"));
    assert!(!str_eq("abc", "abcd"));
    assert!(str_ends_with("foo.service", ".service"));
    assert!(!str_ends_with("foo.timer", ".service"));
    assert!(!str_ends_with("vice", ".service"));
    assert!(str_contains("foo.service", "o.se"));
    assert!(str_contains("foo", ""));
    assert!(!str_contains("foo", "bar"));
}

#[test]
fn basename_takes_the_final_path_segment() {
    assert_eq!(basename("/etc/systemd/system/foo.service"), Some("foo.service".to_string()));
    assert_eq!(basename("foo.service"), Some("foo.service".to_string()));
    assert_eq!(basename("/etc/systemd/system/"), None);
    assert_eq!(basename(""), None);
}

#[test]
fn merge_keeps_exactly_the_service_units_in_order() {
    let units = vec![
        unit("a.service", "first", "active"),
        unit("b.timer", "a timer", "active"),
        unit("c.socket", "a socket", "inactive"),
        unit("d.service", "second", "failed"),
    ];
    let merged = merge_services(units, vec![]);
    assert_eq!(merged.len(), 2);
    assert_eq!(merged[0].name, "a.service");
    assert_eq!(merged[0].description, "first");
    assert_eq!(merged[0].status, ServiceStatus::Active);
    assert_eq!(merged[1].name, "d.service");
    assert_eq!(merged[1].description, "second");
    assert_eq!(merged[1].status, ServiceStatus::Failed);
}

#[test]
fn merge_joins_enablement_by_unit_basename() {
    let units = vec![unit("foo.service", "a daemon", "active")];
    let files = vec![entry("/etc/systemd/system/foo.service", "enabled")];
    let merged = merge_services(units, files);
    assert_eq!(merged.len(), 1);
    assert_eq!(merged[0].enablement_status, EnablementStatus::Enabled);
}

#[test]
fn merge_defaults_missing_enablement_to_unknown() {
    let units = vec![unit("foo.service", "a daemon", "active")];
    let files = vec![entry("/etc/systemd/system/bar.service", "enabled")];
    let merged = merge_services(units, files);
    assert_eq!(merged.len(), 1);
    assert_eq!(merged[0].enablement_status, EnablementStatus::Unknown("unknown".to_string()));
}

#[test]
fn merge_lets_a_later_duplicate_entry_win() {
    let units = vec![unit("x.service", "", "inactive")];
    let files = vec![
        entry("/usr/lib/systemd/system/x.service", "disabled"),
        entry("/etc/systemd/system/x.service", "enabled"),
    ];
    let merged = merge_services(units, files);
    assert_eq!(merged[0].enablement_status, EnablementStatus::Enabled);
}

#[test]
fn merge_drops_entries_without_a_basename() {
    let units = vec![unit("x.service", "", "active")];
    let files = vec![entry("/etc/systemd/system/", "enabled")];
    let merged = merge_services(units, files);
    assert_eq!(merged[0].enablement_status, EnablementStatus::Unknown("unknown".to_string()));
}

#[test]
fn merge_classifies_unrecognized_states_verbatim() {
    let units = vec![unit("x.service", "", "reloading")];
    let files = vec![entry("/etc/x.service", "masked")];
    let merged = merge_services(units, files);
    assert_eq!(merged[0].status, ServiceStatus::Unknown("reloading".to_string()));
    assert_eq!(merged[0].enablement_status, EnablementStatus::Unknown("masked".to_string()));
}

#[test]
fn merge_classifies_reported_states_case_insensitively() {
    let units = vec![unit("x.service", "", "Active")];
    let files = vec![entry("/etc/x.service", "ENABLED")];
    let merged = merge_services(units, files);
    assert_eq!(merged[0].status, ServiceStatus::Active);
    assert_eq!(merged[0].enablement_status, EnablementStatus::Enabled);
}

fn sample_records(n: usize) -> Vec<ServiceInfo> {
    (0..n)
        .map(|i| ServiceInfo {
            name: format!("s{}.service", i),
            description: String::new(),
            status: ServiceStatus::Active,
            enablement_status: EnablementStatus::Enabled,
        })
        .collect()
}

#[test]
fn a_failed_session_domain_leaves_the_system_records_untouched() {
    let records = sample_records(3);
    let out = combine_domains(
        Ok(records.clone()),
        Err(ServiceError::ParseError("no session bus".to_string())),
    );
    assert_eq!(out.len(), 3);
    for (i, r) in out.iter().enumerate() {
        assert_eq!(r.name, format!("s{}.service", i));
    }
}

#[test]
fn a_failed_system_domain_leaves_the_session_records_untouched() {
    let records = sample_records(2);
    let out = combine_domains(
        Err(ServiceError::ParseError("no system bus".to_string())),
        Ok(records),
    );
    assert_eq!(out.len(), 2);
}

#[test]
fn two_failed_domains_combine_to_an_empty_collection() {
    let out = combine_domains(
        Err(ServiceError::ParseError("down".to_string())),
        Err(ServiceError::ParseError("down".to_string())),
    );
    assert!(out.is_empty());
}

#[test]
fn system_records_precede_session_records() {
    let sys = vec![ServiceInfo {
        name: "sys.service".to_string(),
        description: String::new(),
        status: ServiceStatus::Active,
        enablement_status: EnablementStatus::Enabled,
    }];
    let sess = vec![ServiceInfo {
        name: "sess.service".to_string(),
        description: String::new(),
        status: ServiceStatus::Inactive,
        enablement_status: EnablementStatus::Disabled,
    }];
    let out = combine_domains(Ok(sys), Ok(sess));
    assert_eq!(out.len(), 2);
    assert_eq!(out[0].name, "sys.service");
    assert_eq!(out[1].name, "sess.service");
}

#[test]
fn end_to_end_one_service_on_the_system_bus() {
    // Two units on the system bus, one of service type; the session bus is
    // unreachable. Exactly one record comes out.
    let units = vec![unit("a.service", "daemon a", "active"), unit("b.timer", "timer b", "active")];
    let files = vec![entry("/etc/systemd/system/a.service", "enabled")];
    let system = Ok(merge_services(units, files));
    let session = Err(ServiceError::ParseError("session bus unreachable".to_string()));
    let out = combine_domains(system, session);
    assert_eq!(out.len(), 1);
    assert_eq!(out[0].name, "a.service");
    assert_eq!(out[0].status, ServiceStatus::Active);
    assert_eq!(out[0].enablement_status, EnablementStatus::Enabled);
}

#[test]
fn get_services_never_errors_and_yields_only_services() {
    // Runs against whatever buses this host offers; an unreachable bus
    // contributes nothing rather than failing the aggregation.
    let manager = SystemdServiceManager::new();
    let result = manager.get_services();
    assert!(result.is_ok());
    for record in result.unwrap() {
        assert!(record.name.ends_with(".service"));
    }
}
