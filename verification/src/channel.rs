use vstd::prelude::*;

use crate::names::{AdjudicationRequestId, TextBody};
use crate::numbers::TimestampNanos;

verus! {

/// The kinds of message a channel may carry.
#[derive(Debug, Clone, Copy, PartialEq, Eq, Hash, Structural)]
pub enum ChannelMessageKind {
    MessageIngressSubmission,
    MessageSubmission,
    InboxQuery,
    FocusObservation,
    PromptBufferObservation,
    MessageDelivery,
    TerminalInput,
    TerminalCapture,
    TerminalResize,
    TranscriptEvent,
    AdjudicationRequest,
    DeliveryNotification,
    ChannelGrant,
    ChannelExtend,
    ChannelRetract,
}

/// How long a granted channel stays open.
#[derive(Debug, Clone, Copy, PartialEq, Eq, Hash, Structural)]
pub enum ChannelDuration {
    OneShot,
    Permanent,
    TimeBound(TimestampNanos),
}

#[derive(Debug, Clone, PartialEq, Eq)]
pub struct AdjudicationReceipt {
    pub request: AdjudicationRequestId,
}

#[derive(Debug, Clone, PartialEq, Eq)]
pub struct AdjudicationDeny {
    pub request: AdjudicationRequestId,
    pub reason: TextBody,
}

#[derive(Debug, Clone, PartialEq, Eq)]
pub struct AdjudicationDenyReceipt {
    pub request: AdjudicationRequestId,
}

/// The operation a request asks for, one per request variant of the channel
/// (see `MindRequestVariant`).
#[derive(Debug, Clone, Copy, PartialEq, Eq, Hash, Structural)]
pub enum MindOperationKind {
    SubmitThought,
    SubmitRelation,
    QueryThoughts,
    QueryRelations,
    SubscribeThoughts,
    SubscribeRelations,
    RoleClaim,
    RoleRelease,
    RoleHandoff,
    RoleObservation,
    ActivitySubmission,
    ActivityQuery,
    Opening,
    NoteSubmission,
    Link,
    StatusChange,
    AliasAssignment,
    Query,
    AdjudicationRequest,
    ChannelGrant,
    ChannelExtend,
    ChannelRetract,
    AdjudicationDeny,
    ChannelList,
}

} // verus!
