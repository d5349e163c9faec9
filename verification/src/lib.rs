//! A verified client library for querying and controlling operating-system
//! service units over two independent message-bus domains, with an external
//! authority consulted before any mutating operation.

pub mod aggregate;
pub mod authority;
pub mod bus;
pub mod control;
pub mod manager;
pub mod present;
pub mod error;
pub mod models;
pub mod text;

pub use aggregate::{combine_domains, merge_services};
pub use authority::resolve_authority_reply;
pub use control::{plan_control, ControlCall};
pub use error::{AuthorityFailure, ServiceError};
pub use manager::SystemdServiceManager;
pub use models::{
    AuthorizationReply, EnablementStatus, ServiceAction, ServiceInfo, ServiceStatus, UnitFileEntry,
    UnitInfo,
};
pub use present::{
    action_outcome_message, enablement_filter_options, format_enablement, format_status,
    get_enablement_css_classes, get_status_css_classes, status_filter_options, visibility_flags,
    ServiceData,
};
pub use text::{basename, str_contains, str_eq, str_ends_with};
