//! Pure presentation support: the stable label and style-class vocabulary
//! over the status model, and the record-filtering decisions the list view
//! applies. No rendering happens here — only the decisions behind it.

use vstd::prelude::*;

use crate::models::{EnablementStatus, EnablementView, ServiceAction, ServiceStatus, StatusView};
use crate::text::{spec_contains, str_contains, str_eq};

verus! {

/// The canonical user-facing label of each activation state; every
/// unrecognized state shares the label `"Unknown"`.
pub open spec fn spec_status_label(s: StatusView) -> Seq<char> {
    match s {
        StatusView::Active => "Active"@,
        StatusView::Inactive => "Inactive"@,
        StatusView::Failed => "Failed"@,
        StatusView::Activating => "Activating"@,
        StatusView::Deactivating => "Deactivating"@,
        StatusView::Unknown(_) => "Unknown"@,
    }
}

/// The canonical user-facing label of each enablement state.
pub open spec fn spec_enablement_label(e: EnablementView) -> Seq<char> {
    match e {
        EnablementView::Enabled => "Enabled"@,
        EnablementView::Disabled => "Disabled"@,
        EnablementView::Static => "Static"@,
        EnablementView::Indirect => "Indirect"@,
        EnablementView::Generated => "Generated"@,
        EnablementView::Transient => "Transient"@,
        EnablementView::Unknown(_) => "Unknown"@,
    }
}

/// Maps an activation state to its canonical label.
pub fn format_status(status: &ServiceStatus) -> (r: &'static str)
    ensures
        r@ == spec_status_label(status.deep_view()),
{
    match status {
        ServiceStatus::Active => "Active",
        ServiceStatus::Inactive => "Inactive",
        ServiceStatus::Failed => "Failed",
        ServiceStatus::Activating => "Activating",
        ServiceStatus::Deactivating => "Deactivating",
        ServiceStatus::Unknown(_) => "Unknown",
    }
}

/// Maps an enablement state to its canonical label.
pub fn format_enablement(enablement: &EnablementStatus) -> (r: &'static str)
    ensures
        r@ == spec_enablement_label(enablement.deep_view()),
{
    match enablement {
        EnablementStatus::Enabled => "Enabled",
        EnablementStatus::Disabled => "Disabled",
        EnablementStatus::Static => "Static",
        EnablementStatus::Indirect => "Indirect",
        EnablementStatus::Generated => "Generated",
        EnablementStatus::Transient => "Transient",
        EnablementStatus::Unknown(_) => "Unknown",
    }
}

/// The style classes each activation state renders with.
pub open spec fn spec_status_css(s: StatusView) -> Seq<Seq<char>> {
    match s {
        StatusView::Active => seq!["success"@],
        StatusView::Failed => seq!["error"@],
        StatusView::Activating => seq!["warning"@],
        StatusView::Deactivating => seq!["warning"@],
        _ => seq!["dim-label"@],
    }
}

/// The style classes each enablement state renders with.
pub open spec fn spec_enablement_css(e: EnablementView) -> Seq<Seq<char>> {
    match e {
        EnablementView::Enabled => seq!["success"@],
        EnablementView::Disabled => seq!["dim-label"@],
        EnablementView::Static => seq!["warning"@],
        _ => seq!["dim-label"@],
    }
}

/// Maps an activation state to its style classes.
pub fn get_status_css_classes(status: &ServiceStatus) -> (r: Vec<&'static str>)
    ensures
        r.deep_view() == spec_status_css(status.deep_view()),
{
    let class = match status {
        ServiceStatus::Active => "success",
        ServiceStatus::Failed => "error",
        ServiceStatus::Activating => "warning",
        ServiceStatus::Deactivating => "warning",
        _ => "dim-label",
    };
    let mut classes: Vec<&'static str> = Vec::new();
    classes.push(class);
    proof {
        assert(classes.deep_view() =~= seq![class@]);
    }
    classes
}

/// Maps an enablement state to its style classes.
pub fn get_enablement_css_classes(enablement: &EnablementStatus) -> (r: Vec<&'static str>)
    ensures
        r.deep_view() == spec_enablement_css(enablement.deep_view()),
{
    let class = match enablement {
        EnablementStatus::Enabled => "success",
        EnablementStatus::Disabled => "dim-label",
        EnablementStatus::Static => "warning",
        _ => "dim-label",
    };
    let mut classes: Vec<&'static str> = Vec::new();
    classes.push(class);
    proof {
        assert(classes.deep_view() =~= seq![class@]);
    }
    classes
}

/// The button label of each control action.
pub open spec fn spec_action_label(a: ServiceAction) -> Seq<char> {
    match a {
        ServiceAction::Start => "Start"@,
        ServiceAction::Stop => "Stop"@,
        ServiceAction::Enable => "Enable"@,
        ServiceAction::Disable => "Disable"@,
    }
}

impl ServiceAction {
    /// The action's button label.
    pub fn label(&self) -> (r: &'static str)
        ensures
            r@ == spec_action_label(*self),
    {
        match self {
            ServiceAction::Start => "Start",
            ServiceAction::Stop => "Stop",
            ServiceAction::Enable => "Enable",
            ServiceAction::Disable => "Disable",
        }
    }
}

/// What a row of the service list carries: the record fields the filters
/// read.
#[derive(Debug, Clone)]
pub struct ServiceData {
    pub name: String,
    pub status: ServiceStatus,
    pub enablement: EnablementStatus,
}

/// Spec-level picture of `ServiceData`.
pub struct ServiceDataView {
    pub name: Seq<char>,
    pub status: StatusView,
    pub enablement: EnablementView,
}

impl DeepView for ServiceData {
    type V = ServiceDataView;

    open spec fn deep_view(&self) -> ServiceDataView {
        ServiceDataView {
            name: self.name@,
            status: self.status.deep_view(),
            enablement: self.enablement.deep_view(),
        }
    }
}

/// The lowercase mapping of a character sequence, as the standard library's
/// Unicode case folding defines it.
pub uninterp spec fn lower_of(s: Seq<char>) -> Seq<char>;

/// Relies on str::to_lowercase: its result is a function of the character
/// sequence alone, named `lower_of` here.
#[verifier::external_body]
fn to_lowercase(s: &str) -> (r: String)
    ensures
        r@ == lower_of(s@),
{
    s.to_lowercase()
}

/// Whether the record matches the two categorical filters: each filter is
/// either `"All"` or the exact canonical label of the respective state.
pub open spec fn spec_matches_filters(
    d: ServiceDataView,
    status_filter: Seq<char>,
    enablement_filter: Seq<char>,
) -> bool {
    (status_filter == "All"@ || spec_status_label(d.status) == status_filter) && (enablement_filter
        == "All"@ || spec_enablement_label(d.enablement) == enablement_filter)
}

/// Whether the record matches a free-text query: an empty query matches
/// everything, otherwise the lowercased name must contain the lowercased
/// query.
pub open spec fn spec_matches_query(d: ServiceDataView, query: Seq<char>) -> bool {
    query.len() == 0 || spec_contains(lower_of(d.name), lower_of(query))
}

/// A row is visible exactly when it matches the query and both filters.
pub open spec fn spec_visible(
    d: ServiceDataView,
    query: Seq<char>,
    status_filter: Seq<char>,
    enablement_filter: Seq<char>,
) -> bool {
    spec_matches_query(d, query) && spec_matches_filters(d, status_filter, enablement_filter)
}

impl ServiceData {
    /// The free-text filter's decision for this record.
    pub fn matches_query(&self, query: &str) -> (r: bool)
        ensures
            r == spec_matches_query(self.deep_view(), query@),
    {
        if query.is_empty() {
            true
        } else {
            let lowered_name = to_lowercase(self.name.as_str());
            let lowered_query = to_lowercase(query);
            str_contains(lowered_name.as_str(), lowered_query.as_str())
        }
    }

    /// The two categorical filters' decision for this record.
    pub fn matches_filters(&self, status_filter: &str, enablement_filter: &str) -> (r: bool)
        ensures
            r == spec_matches_filters(self.deep_view(), status_filter@, enablement_filter@),
    {
        let status_matches = str_eq(status_filter, "All") || str_eq(
            format_status(&self.status),
            status_filter,
        );
        let enablement_matches = str_eq(enablement_filter, "All") || str_eq(
            format_enablement(&self.enablement),
            enablement_filter,
        );
        status_matches && enablement_matches
    }
}

impl ServiceData {
    /// The row payload for one aggregated record.
    pub fn from_info(info: &crate::models::ServiceInfo) -> (r: Self)
        ensures
            r.deep_view().name == info.name@,
            r.deep_view().status == info.status.deep_view(),
            r.deep_view().enablement == info.enablement_status.deep_view(),
    {
        let status = match &info.status {
            ServiceStatus::Active => ServiceStatus::Active,
            ServiceStatus::Inactive => ServiceStatus::Inactive,
            ServiceStatus::Failed => ServiceStatus::Failed,
            ServiceStatus::Activating => ServiceStatus::Activating,
            ServiceStatus::Deactivating => ServiceStatus::Deactivating,
            ServiceStatus::Unknown(raw) => ServiceStatus::Unknown(raw.clone()),
        };
        let enablement = match &info.enablement_status {
            EnablementStatus::Enabled => EnablementStatus::Enabled,
            EnablementStatus::Disabled => EnablementStatus::Disabled,
            EnablementStatus::Static => EnablementStatus::Static,
            EnablementStatus::Indirect => EnablementStatus::Indirect,
            EnablementStatus::Generated => EnablementStatus::Generated,
            EnablementStatus::Transient => EnablementStatus::Transient,
            EnablementStatus::Unknown(raw) => EnablementStatus::Unknown(raw.clone()),
        };
        ServiceData { name: info.name.clone(), status, enablement }
    }
}

/// The status filter's option list: `"All"` followed by the exhaustive
/// label vocabulary of the activation states.
pub fn status_filter_options() -> (r: Vec<&'static str>)
    ensures
        r.deep_view() == seq![
            "All"@,
            "Active"@,
            "Inactive"@,
            "Failed"@,
            "Activating"@,
            "Deactivating"@,
            "Unknown"@,
        ],
{
    let mut options: Vec<&'static str> = Vec::new();
    options.push("All");
    options.push("Active");
    options.push("Inactive");
    options.push("Failed");
    options.push("Activating");
    options.push("Deactivating");
    options.push("Unknown");
    proof {
        assert(options.deep_view() =~= seq![
            "All"@,
            "Active"@,
            "Inactive"@,
            "Failed"@,
            "Activating"@,
            "Deactivating"@,
            "Unknown"@,
        ]);
    }
    options
}

/// The enablement filter's option list: `"All"` followed by the exhaustive
/// label vocabulary of the enablement states.
pub fn enablement_filter_options() -> (r: Vec<&'static str>)
    ensures
        r.deep_view() == seq![
            "All"@,
            "Enabled"@,
            "Disabled"@,
            "Static"@,
            "Indirect"@,
            "Generated"@,
            "Transient"@,
            "Unknown"@,
        ],
{
    let mut options: Vec<&'static str> = Vec::new();
    options.push("All");
    options.push("Enabled");
    options.push("Disabled");
    options.push("Static");
    options.push("Indirect");
    options.push("Generated");
    options.push("Transient");
    options.push("Unknown");
    proof {
        assert(options.deep_view() =~= seq![
            "All"@,
            "Enabled"@,
            "Disabled"@,
            "Static"@,
            "Indirect"@,
            "Generated"@,
            "Transient"@,
            "Unknown"@,
        ]);
    }
    options
}

/// How a finished action reads in a success report.
pub open spec fn spec_action_done(a: ServiceAction) -> Seq<char> {
    match a {
        ServiceAction::Start => "Started "@,
        ServiceAction::Stop => "Stopped "@,
        ServiceAction::Enable => "Enabled "@,
        ServiceAction::Disable => "Disabled "@,
    }
}

/// How a failed action reads in a failure report.
pub open spec fn spec_action_failed(a: ServiceAction) -> Seq<char> {
    match a {
        ServiceAction::Start => "Failed to start "@,
        ServiceAction::Stop => "Failed to stop "@,
        ServiceAction::Enable => "Failed to enable "@,
        ServiceAction::Disable => "Failed to disable "@,
    }
}

/// The report line for one unit's outcome: success names the action done
/// to the unit; failure names the attempt and appends the failure's
/// message.
pub fn action_outcome_message(action: ServiceAction, unit_name: &str, failure: Option<&str>) -> (r:
    String)
    ensures
        failure matches Some(m) ==> r@ == spec_action_failed(action) + unit_name@ + ": "@ + m@,
        failure is None ==> r@ == spec_action_done(action) + unit_name@,
{
    match failure {
        Some(m) => {
            let prefix = match action {
                ServiceAction::Start => "Failed to start ",
                ServiceAction::Stop => "Failed to stop ",
                ServiceAction::Enable => "Failed to enable ",
                ServiceAction::Disable => "Failed to disable ",
            };
            String::from_str(prefix).concat(unit_name).concat(": ").concat(m)
        },
        None => {
            let prefix = match action {
                ServiceAction::Start => "Started ",
                ServiceAction::Stop => "Stopped ",
                ServiceAction::Enable => "Enabled ",
                ServiceAction::Disable => "Disabled ",
            };
            String::from_str(prefix).concat(unit_name)
        },
    }
}

/// The visibility decision for every row under the current query and
/// filters, in row order.
pub fn visibility_flags(
    rows: &Vec<ServiceData>,
    query: &str,
    status_filter: &str,
    enablement_filter: &str,
) -> (r: Vec<bool>)
    ensures
        r@.len() == rows@.len(),
        forall|k: int|
            0 <= k < rows@.len() ==> r@[k] == spec_visible(
                #[trigger] rows.deep_view()[k],
                query@,
                status_filter@,
                enablement_filter@,
            ),
{
    let mut flags: Vec<bool> = Vec::new();
    let mut i: usize = 0;
    while i < rows.len()
        invariant
            0 <= i <= rows@.len(),
            flags@.len() == i,
            forall|k: int|
                0 <= k < i ==> flags@[k] == spec_visible(
                    #[trigger] rows.deep_view()[k],
                    query@,
                    status_filter@,
                    enablement_filter@,
                ),
        decreases rows@.len() - i,
    {
        let visible = rows[i].matches_query(query) && rows[i].matches_filters(
            status_filter,
            enablement_filter,
        );
        flags.push(visible);
        i += 1;
    }
    flags
}

} // verus!
