//! The presentation decisions: free-text and categorical filtering,
//! visibility flags, option lists and report messages.

use service_manager::{
    action_outcome_message, enablement_filter_options, status_filter_options, visibility_flags,
    EnablementStatus, ServiceAction, ServiceData, ServiceError, ServiceInfo, ServiceStatus,
};

fn row(name: &str, status: ServiceStatus, enablement: EnablementStatus) -> ServiceData {
    ServiceData { name: name.to_string(), status, enablement }
}

#[test]
fn an_empty_query_matches_every_row() {
    let data = row("ssh.service", ServiceStatus::Active, EnablementStatus::Enabled);
    assert!(data.matches_query(""));
}

#[test]
fn the_query_is_case_insensitive_on_both_sides() {
    let data = row("NetworkManager.service", ServiceStatus::Active, EnablementStatus::Enabled);
    assert!(data.matches_query("networkmanager"));
    assert!(data.matches_query("NETWORK"));
    assert!(data.matches_query("Manager.Ser"));
    assert!(!data.matches_query("bluetooth"));
}

#[test]
fn categorical_filters_compare_against_the_canonical_labels() {
    let data = row("x.service", ServiceStatus::Failed, EnablementStatus::Static);
    assert!(data.matches_filters("All", "All"));
    assert!(data.matches_filters("Failed", "All"));
    assert!(data.matches_filters("All", "Static"));
    assert!(data.matches_filters("Failed", "Static"));
    assert!(!data.matches_filters("Active", "Static"));
    assert!(!data.matches_filters("Failed", "Enabled"));
}

#[test]
fn unknown_states_filter_under_the_unknown_label() {
    let data = row(
        "x.service",
        ServiceStatus::Unknown("reloading".to_string()),
        EnablementStatus::Unknown("masked".to_string()),
    );
    assert!(data.matches_filters("Unknown", "Unknown"));
    assert!(!data.matches_filters("Active", "Unknown"));
}

#[test]
fn visibility_flags_follow_query_and_filters_in_row_order() {
    let rows = vec![
        row("a.service", ServiceStatus::Active, EnablementStatus::Enabled),
        row("b.service", ServiceStatus::Inactive, EnablementStatus::Disabled),
        row("ab.service", ServiceStatus::Active, EnablementStatus::Disabled),
    ];
    assert_eq!(visibility_flags(&rows, "", "All", "All"), vec![true, true, true]);
    assert_eq!(visibility_flags(&rows, "a", "All", "All"), vec![true, false, true]);
    assert_eq!(visibility_flags(&rows, "", "Active", "All"), vec![true, false, true]);
    assert_eq!(visibility_flags(&rows, "b", "All", "Disabled"), vec![false, true, true]);
}

#[test]
fn filter_option_lists_are_exhaustive_and_stable() {
    assert_eq!(
        status_filter_options(),
        vec!["All", "Active", "Inactive", "Failed", "Activating", "Deactivating", "Unknown"]
    );
    assert_eq!(
        enablement_filter_options(),
        vec![
            "All",
            "Enabled",
            "Disabled",
            "Static",
            "Indirect",
            "Generated",
            "Transient",
            "Unknown"
        ]
    );
}

#[test]
fn outcome_messages_name_the_action_and_unit() {
    assert_eq!(
        action_outcome_message(ServiceAction::Start, "foo.service", None),
        "Started foo.service"
    );
    assert_eq!(
        action_outcome_message(ServiceAction::Disable, "foo.service", None),
        "Disabled foo.service"
    );
    assert_eq!(
        action_outcome_message(ServiceAction::Stop, "foo.service", Some("D-Bus error: timeout")),
        "Failed to stop foo.service: D-Bus error: timeout"
    );
}

#[test]
fn error_messages_carry_their_context() {
    let parse = ServiceError::ParseError("bad tuple".to_string());
    assert_eq!(parse.message(), "Parse error: bad tuple");
    let denied = ServiceError::AuthorizationDenied(ServiceAction::Stop, "foo.service".to_string());
    assert_eq!(denied.message(), "Not authorized to stop unit 'foo.service'");
    let transport = ServiceError::ZbusError(zbus::Error::Failure("connection refused".to_string()));
    assert!(transport.message().starts_with("D-Bus error: "));
}

#[test]
fn a_row_is_built_from_an_aggregated_record() {
    let info = ServiceInfo {
        name: "cups.service".to_string(),
        description: "printing".to_string(),
        status: ServiceStatus::Inactive,
        enablement_status: EnablementStatus::Unknown("masked".to_string()),
    };
    let data = ServiceData::from_info(&info);
    assert_eq!(data.name, "cups.service");
    assert_eq!(data.status, ServiceStatus::Inactive);
    assert_eq!(data.enablement, EnablementStatus::Unknown("masked".to_string()));
}
