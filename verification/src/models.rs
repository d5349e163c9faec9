//! The domain model: a unit's runtime activation state, its persisted
//! enablement state, and the value objects that the aggregator and the
//! control operations exchange, together with their spec-level views.

use vstd::prelude::*;

use crate::text::spec_ascii_lower;

verus! {

/// Spec-level picture of `ServiceStatus`, over character sequences.
pub enum StatusView {
    Active,
    Inactive,
    Failed,
    Activating,
    Deactivating,
    Unknown(Seq<char>),
}

/// Spec-level picture of `EnablementStatus`, over character sequences.
pub enum EnablementView {
    Enabled,
    Disabled,
    Static,
    Indirect,
    Generated,
    Transient,
    Unknown(Seq<char>),
}

/// A unit's runtime activation state as reported by the service supervisor.
/// Any string outside the known vocabulary is preserved verbatim.
#[derive(Debug, Clone, PartialEq)]
pub enum ServiceStatus {
    Active,
    Inactive,
    Failed,
    Activating,
    Deactivating,
    Unknown(String),
}

/// Whether a unit is configured to auto-start, as recorded in persisted
/// unit-file state. Any string outside the known vocabulary is preserved.
#[derive(Debug, Clone, PartialEq)]
pub enum EnablementStatus {
    Enabled,
    Disabled,
    Static,
    Indirect,
    Generated,
    Transient,
    Unknown(String),
}

impl DeepView for ServiceStatus {
    type V = StatusView;

    open spec fn deep_view(&self) -> StatusView {
        match self {
            ServiceStatus::Active => StatusView::Active,
            ServiceStatus::Inactive => StatusView::Inactive,
            ServiceStatus::Failed => StatusView::Failed,
            ServiceStatus::Activating => StatusView::Activating,
            ServiceStatus::Deactivating => StatusView::Deactivating,
            ServiceStatus::Unknown(raw) => StatusView::Unknown(raw@),
        }
    }
}

impl DeepView for EnablementStatus {
    type V = EnablementView;

    open spec fn deep_view(&self) -> EnablementView {
        match self {
            EnablementStatus::Enabled => EnablementView::Enabled,
            EnablementStatus::Disabled => EnablementView::Disabled,
            EnablementStatus::Static => EnablementView::Static,
            EnablementStatus::Indirect => EnablementView::Indirect,
            EnablementStatus::Generated => EnablementView::Generated,
            EnablementStatus::Transient => EnablementView::Transient,
            EnablementStatus::Unknown(raw) => EnablementView::Unknown(raw@),
        }
    }
}

/// Total classification of an activation-state string: a case-insensitive
/// exact match against the known vocabulary (the ASCII letters folded for
/// the comparison), every other string preserved verbatim inside `Unknown`.
pub open spec fn spec_status_from(s: Seq<char>) -> StatusView {
    if spec_ascii_lower(s) == "active"@ {
        StatusView::Active
    } else if spec_ascii_lower(s) == "inactive"@ {
        StatusView::Inactive
    } else if spec_ascii_lower(s) == "failed"@ {
        StatusView::Failed
    } else if spec_ascii_lower(s) == "activating"@ {
        StatusView::Activating
    } else if spec_ascii_lower(s) == "deactivating"@ {
        StatusView::Deactivating
    } else {
        StatusView::Unknown(s)
    }
}

/// Total classification of an enablement-state string, with the same
/// case-insensitive discipline.
pub open spec fn spec_enablement_from(s: Seq<char>) -> EnablementView {
    if spec_ascii_lower(s) == "enabled"@ {
        EnablementView::Enabled
    } else if spec_ascii_lower(s) == "disabled"@ {
        EnablementView::Disabled
    } else if spec_ascii_lower(s) == "static"@ {
        EnablementView::Static
    } else if spec_ascii_lower(s) == "indirect"@ {
        EnablementView::Indirect
    } else if spec_ascii_lower(s) == "generated"@ {
        EnablementView::Generated
    } else if spec_ascii_lower(s) == "transient"@ {
        EnablementView::Transient
    } else {
        EnablementView::Unknown(s)
    }
}

/// Folding is the identity on each word of the two vocabularies and on the
/// default state string: they are already lowercase.
proof fn lemma_vocabulary_folds_to_itself()
    ensures
        spec_ascii_lower("active"@) == "active"@,
        spec_ascii_lower("inactive"@) == "inactive"@,
        spec_ascii_lower("failed"@) == "failed"@,
        spec_ascii_lower("activating"@) == "activating"@,
        spec_ascii_lower("deactivating"@) == "deactivating"@,
        spec_ascii_lower("enabled"@) == "enabled"@,
        spec_ascii_lower("disabled"@) == "disabled"@,
        spec_ascii_lower("static"@) == "static"@,
        spec_ascii_lower("indirect"@) == "indirect"@,
        spec_ascii_lower("generated"@) == "generated"@,
        spec_ascii_lower("transient"@) == "transient"@,
        spec_ascii_lower("unknown"@) == "unknown"@,
{
    reveal_strlit("active");
    reveal_strlit("inactive");
    reveal_strlit("failed");
    reveal_strlit("activating");
    reveal_strlit("deactivating");
    reveal_strlit("enabled");
    reveal_strlit("disabled");
    reveal_strlit("static");
    reveal_strlit("indirect");
    reveal_strlit("generated");
    reveal_strlit("transient");
    reveal_strlit("unknown");
    assert(spec_ascii_lower("active"@) =~= "active"@);
    assert(spec_ascii_lower("inactive"@) =~= "inactive"@);
    assert(spec_ascii_lower("failed"@) =~= "failed"@);
    assert(spec_ascii_lower("activating"@) =~= "activating"@);
    assert(spec_ascii_lower("deactivating"@) =~= "deactivating"@);
    assert(spec_ascii_lower("enabled"@) =~= "enabled"@);
    assert(spec_ascii_lower("disabled"@) =~= "disabled"@);
    assert(spec_ascii_lower("static"@) =~= "static"@);
    assert(spec_ascii_lower("indirect"@) =~= "indirect"@);
    assert(spec_ascii_lower("generated"@) =~= "generated"@);
    assert(spec_ascii_lower("transient"@) =~= "transient"@);
    assert(spec_ascii_lower("unknown"@) =~= "unknown"@);
}

/// The default state string classifies to `Unknown("unknown")`: it is
/// outside the enablement vocabulary.
pub proof fn lemma_unknown_default_classification()
    ensures
        spec_enablement_from("unknown"@) == EnablementView::Unknown("unknown"@),
{
    lemma_vocabulary_folds_to_itself();
    reveal_strlit("unknown");
    reveal_strlit("enabled");
    reveal_strlit("disabled");
    reveal_strlit("static");
    reveal_strlit("indirect");
    reveal_strlit("generated");
    reveal_strlit("transient");
    assert("unknown"@[0] == 'u');
    assert("enabled"@[0] == 'e');
}

impl ServiceStatus {
    /// Classifies the supervisor's activation-state string, matching the
    /// vocabulary case-insensitively. Never fails: an unrecognized string
    /// comes back verbatim inside `Unknown`.
    pub fn from(raw: &str) -> (r: Self)
        ensures
            r.deep_view() == spec_status_from(raw@),
    {
        proof {
            lemma_vocabulary_folds_to_itself();
        }
        if crate::text::str_eq_fold(raw, "active") {
            ServiceStatus::Active
        } else if crate::text::str_eq_fold(raw, "inactive") {
            ServiceStatus::Inactive
        } else if crate::text::str_eq_fold(raw, "failed") {
            ServiceStatus::Failed
        } else if crate::text::str_eq_fold(raw, "activating") {
            ServiceStatus::Activating
        } else if crate::text::str_eq_fold(raw, "deactivating") {
            ServiceStatus::Deactivating
        } else {
            ServiceStatus::Unknown(raw.to_owned())
        }
    }
}

impl EnablementStatus {
    /// Classifies the persisted enablement-state string, matching the
    /// vocabulary case-insensitively. Never fails.
    pub fn from(raw: &str) -> (r: Self)
        ensures
            r.deep_view() == spec_enablement_from(raw@),
    {
        proof {
            lemma_vocabulary_folds_to_itself();
        }
        if crate::text::str_eq_fold(raw, "enabled") {
            EnablementStatus::Enabled
        } else if crate::text::str_eq_fold(raw, "disabled") {
            EnablementStatus::Disabled
        } else if crate::text::str_eq_fold(raw, "static") {
            EnablementStatus::Static
        } else if crate::text::str_eq_fold(raw, "indirect") {
            EnablementStatus::Indirect
        } else if crate::text::str_eq_fold(raw, "generated") {
            EnablementStatus::Generated
        } else if crate::text::str_eq_fold(raw, "transient") {
            EnablementStatus::Transient
        } else {
            EnablementStatus::Unknown(raw.to_owned())
        }
    }
}

/// One row of the supervisor's runtime unit list, reduced to the fields the
/// aggregator keeps.
#[derive(Debug, Clone)]
pub struct UnitInfo {
    pub name: String,
    pub description: String,
    pub active_state: String,
}

/// Spec-level picture of `UnitInfo`.
pub struct UnitInfoView {
    pub name: Seq<char>,
    pub description: Seq<char>,
    pub active_state: Seq<char>,
}

impl DeepView for UnitInfo {
    type V = UnitInfoView;

    open spec fn deep_view(&self) -> UnitInfoView {
        UnitInfoView { name: self.name@, description: self.description@, active_state: self.active_state@ }
    }
}

/// One row of the supervisor's persisted unit-file list: an absolute file
/// path and an enablement-state string.
#[derive(Debug, Clone)]
pub struct UnitFileEntry {
    pub path: String,
    pub state: String,
}

/// Spec-level picture of `UnitFileEntry`.
pub struct UnitFileEntryView {
    pub path: Seq<char>,
    pub state: Seq<char>,
}

impl DeepView for UnitFileEntry {
    type V = UnitFileEntryView;

    open spec fn deep_view(&self) -> UnitFileEntryView {
        UnitFileEntryView { path: self.path@, state: self.state@ }
    }
}

/// The coherent value object describing one service, as emitted by the
/// aggregator.
#[derive(Debug, Clone)]
pub struct ServiceInfo {
    pub name: String,
    pub description: String,
    pub status: ServiceStatus,
    pub enablement_status: EnablementStatus,
}

/// Spec-level picture of `ServiceInfo`.
pub struct ServiceInfoView {
    pub name: Seq<char>,
    pub description: Seq<char>,
    pub status: StatusView,
    pub enablement_status: EnablementView,
}

impl DeepView for ServiceInfo {
    type V = ServiceInfoView;

    open spec fn deep_view(&self) -> ServiceInfoView {
        ServiceInfoView {
            name: self.name@,
            description: self.description@,
            status: self.status.deep_view(),
            enablement_status: self.enablement_status.deep_view(),
        }
    }
}

/// The four mutating operations a caller can request on a unit.
#[derive(Debug, Clone, Copy, PartialEq, Eq, Structural)]
pub enum ServiceAction {
    Start,
    Stop,
    Enable,
    Disable,
}

/// The authority service's answer to a privilege check, with the detail
/// mapping of the wire reply dropped.
#[derive(Debug, Clone, Copy, PartialEq, Eq, Structural)]
pub struct AuthorizationReply {
    pub is_authorized: bool,
    pub is_challenge: bool,
}

} // verus!
