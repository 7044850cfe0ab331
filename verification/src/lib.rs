//! The contract of the mind channel between the `mind` command-line client and
//! the `persona-mind` state actor: its records, the boundary validation of the
//! strings that travel in them, and the closed request and reply enums.

pub mod channel;
pub mod coordination;
pub mod error;
pub mod memory;
pub mod names;
pub mod numbers;
pub mod path;
pub mod record_head;
pub mod request;
pub mod role;
pub mod scope;
pub mod text;

pub use channel::{
    AdjudicationDeny, AdjudicationDenyReceipt, AdjudicationReceipt, ChannelDuration,
    ChannelMessageKind, MindOperationKind,
};
pub use coordination::{
    Activity, ActivityAcknowledgment, ActivityFilter, ActivityList, ActivityQuery,
    ActivitySubmission, ClaimAcceptance, ClaimEntry, ClaimRejection, HandoffAcceptance,
    HandoffRejection, HandoffRejectionReason, ReleaseAcknowledgment, RoleClaim, RoleHandoff,
    RoleObservation, RoleRelease, RoleSnapshot, RoleStatus, ScopeConflict,
};
pub use error::Error;
pub use memory::{
    AliasAddedEvent, AliasAssignment, AliasReceipt, Edge, EdgeAddedEvent, EdgeKind, EdgeTarget,
    Event, EventHeader, ExternalReference, Item, ItemKind, ItemOpenedEvent, ItemPriority,
    ItemReference, ItemStatus, Link, LinkReceipt, LinkTarget, Note, NoteAddedEvent, NoteReceipt,
    NoteSubmission, Opening, OpeningReceipt, Query, QueryKind, Rejection, RejectionReason,
    StatusChange, StatusChangedEvent, StatusReceipt, View,
};
pub use names::{
    ActorName, AdjudicationRequestId, BeadsToken, CommitHash, DisplayId, ExternalAlias,
    OperationId, ReferencePath, ReportPath, StableItemId, TextBody, Title,
};
pub use numbers::{EventSeq, QueryLimit, TimestampNanos};
pub use path::WirePath;
pub use request::{MindReply, MindRequest, MindRequestVariant};
pub use role::RoleName;
pub use scope::{ScopeReason, ScopeReference, TaskToken};
