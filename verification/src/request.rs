use vstd::prelude::*;

use crate::channel::{AdjudicationDeny, AdjudicationDenyReceipt, AdjudicationReceipt, MindOperationKind};
use crate::coordination::{
    ActivityAcknowledgment, ActivityList, ActivityQuery, ActivitySubmission, ClaimAcceptance,
    ClaimRejection, HandoffAcceptance, HandoffRejection, ReleaseAcknowledgment, RoleClaim,
    RoleHandoff, RoleObservation, RoleRelease, RoleSnapshot,
};
use crate::memory::{
    AliasAssignment, AliasReceipt, Link, LinkReceipt, NoteReceipt, NoteSubmission, Opening,
    OpeningReceipt, Query, Rejection, StatusChange, StatusReceipt, View,
};

verus! {

/// The requests of the mind channel whose records this library holds; the
/// full set of request variants is [`MindRequestVariant`].
#[derive(Debug, Clone, PartialEq, Eq)]
pub enum MindRequest {
    RoleClaim(RoleClaim),
    RoleRelease(RoleRelease),
    RoleHandoff(RoleHandoff),
    RoleObservation(RoleObservation),
    ActivitySubmission(ActivitySubmission),
    ActivityQuery(ActivityQuery),
    Opening(Opening),
    NoteSubmission(NoteSubmission),
    Link(Link),
    StatusChange(StatusChange),
    AliasAssignment(AliasAssignment),
    Query(Query),
    AdjudicationDeny(AdjudicationDeny),
}

/// The replies of the mind channel whose records this library holds.
#[derive(Debug, Clone, PartialEq, Eq)]
pub enum MindReply {
    ClaimAcceptance(ClaimAcceptance),
    ClaimRejection(ClaimRejection),
    ReleaseAcknowledgment(ReleaseAcknowledgment),
    HandoffAcceptance(HandoffAcceptance),
    HandoffRejection(HandoffRejection),
    RoleSnapshot(RoleSnapshot),
    ActivityAcknowledgment(ActivityAcknowledgment),
    ActivityList(ActivityList),
    OpeningReceipt(OpeningReceipt),
    NoteReceipt(NoteReceipt),
    LinkReceipt(LinkReceipt),
    StatusReceipt(StatusReceipt),
    AliasReceipt(AliasReceipt),
    View(View),
    Rejection(Rejection),
    AdjudicationReceipt(AdjudicationReceipt),
    AdjudicationDenyReceipt(AdjudicationDenyReceipt),
}

/// Every request variant that the mind channel carries, without its payload.
/// The request enum of this library holds the payloads of some of them: the
/// records of the thought and relation variants and of the channel
/// choreography variants (`AdjudicationRequest`, `ChannelGrant`,
/// `ChannelExtend`, `ChannelRetract`, `ChannelList`) travel beside it, and a
/// caller that holds such a request names its variant here.
#[derive(Debug, Clone, Copy, PartialEq, Eq, Hash, Structural)]
pub enum MindRequestVariant {
    SubmitThought,
    SubmitRelation,
    QueryThoughts,
    QueryRelations,
    SubscribeThoughts,
    SubscribeRelations,
    RoleClaim,
    RoleRelease,
    RoleHandoff,
    RoleObservation,
    ActivitySubmission,
    ActivityQuery,
    Opening,
    NoteSubmission,
    Link,
    StatusChange,
    AliasAssignment,
    Query,
    AdjudicationRequest,
    ChannelGrant,
    ChannelExtend,
    ChannelRetract,
    AdjudicationDeny,
    ChannelList,
}

/// The operation kind of a request variant: the kind of the same name.
pub open spec fn variant_operation_kind(variant: MindRequestVariant) -> MindOperationKind {
    match variant {
        MindRequestVariant::SubmitThought => MindOperationKind::SubmitThought,
        MindRequestVariant::SubmitRelation => MindOperationKind::SubmitRelation,
        MindRequestVariant::QueryThoughts => MindOperationKind::QueryThoughts,
        MindRequestVariant::QueryRelations => MindOperationKind::QueryRelations,
        MindRequestVariant::SubscribeThoughts => MindOperationKind::SubscribeThoughts,
        MindRequestVariant::SubscribeRelations => MindOperationKind::SubscribeRelations,
        MindRequestVariant::RoleClaim => MindOperationKind::RoleClaim,
        MindRequestVariant::RoleRelease => MindOperationKind::RoleRelease,
        MindRequestVariant::RoleHandoff => MindOperationKind::RoleHandoff,
        MindRequestVariant::RoleObservation => MindOperationKind::RoleObservation,
        MindRequestVariant::ActivitySubmission => MindOperationKind::ActivitySubmission,
        MindRequestVariant::ActivityQuery => MindOperationKind::ActivityQuery,
        MindRequestVariant::Opening => MindOperationKind::Opening,
        MindRequestVariant::NoteSubmission => MindOperationKind::NoteSubmission,
        MindRequestVariant::Link => MindOperationKind::Link,
        MindRequestVariant::StatusChange => MindOperationKind::StatusChange,
        MindRequestVariant::AliasAssignment => MindOperationKind::AliasAssignment,
        MindRequestVariant::Query => MindOperationKind::Query,
        MindRequestVariant::AdjudicationRequest => MindOperationKind::AdjudicationRequest,
        MindRequestVariant::ChannelGrant => MindOperationKind::ChannelGrant,
        MindRequestVariant::ChannelExtend => MindOperationKind::ChannelExtend,
        MindRequestVariant::ChannelRetract => MindOperationKind::ChannelRetract,
        MindRequestVariant::AdjudicationDeny => MindOperationKind::AdjudicationDeny,
        MindRequestVariant::ChannelList => MindOperationKind::ChannelList,
    }
}

/// The request variant whose operation kind is `kind`.
pub open spec fn variant_of_operation_kind(kind: MindOperationKind) -> MindRequestVariant {
    match kind {
        MindOperationKind::SubmitThought => MindRequestVariant::SubmitThought,
        MindOperationKind::SubmitRelation => MindRequestVariant::SubmitRelation,
        MindOperationKind::QueryThoughts => MindRequestVariant::QueryThoughts,
        MindOperationKind::QueryRelations => MindRequestVariant::QueryRelations,
        MindOperationKind::SubscribeThoughts => MindRequestVariant::SubscribeThoughts,
        MindOperationKind::SubscribeRelations => MindRequestVariant::SubscribeRelations,
        MindOperationKind::RoleClaim => MindRequestVariant::RoleClaim,
        MindOperationKind::RoleRelease => MindRequestVariant::RoleRelease,
        MindOperationKind::RoleHandoff => MindRequestVariant::RoleHandoff,
        MindOperationKind::RoleObservation => MindRequestVariant::RoleObservation,
        MindOperationKind::ActivitySubmission => MindRequestVariant::ActivitySubmission,
        MindOperationKind::ActivityQuery => MindRequestVariant::ActivityQuery,
        MindOperationKind::Opening => MindRequestVariant::Opening,
        MindOperationKind::NoteSubmission => MindRequestVariant::NoteSubmission,
        MindOperationKind::Link => MindRequestVariant::Link,
        MindOperationKind::StatusChange => MindRequestVariant::StatusChange,
        MindOperationKind::AliasAssignment => MindRequestVariant::AliasAssignment,
        MindOperationKind::Query => MindRequestVariant::Query,
        MindOperationKind::AdjudicationRequest => MindRequestVariant::AdjudicationRequest,
        MindOperationKind::ChannelGrant => MindRequestVariant::ChannelGrant,
        MindOperationKind::ChannelExtend => MindRequestVariant::ChannelExtend,
        MindOperationKind::ChannelRetract => MindRequestVariant::ChannelRetract,
        MindOperationKind::AdjudicationDeny => MindRequestVariant::AdjudicationDeny,
        MindOperationKind::ChannelList => MindRequestVariant::ChannelList,
    }
}

/// Operation kinds name request variants one to one: two variants have the
/// same kind exactly when they are the same variant, and every kind is the
/// kind of some variant.
pub proof fn lemma_operation_kind_one_to_one(a: MindRequestVariant, b: MindRequestVariant, kind: MindOperationKind)
    ensures
        variant_operation_kind(a) == variant_operation_kind(b) <==> a == b,
        variant_operation_kind(variant_of_operation_kind(kind)) == kind,
        exists|v: MindRequestVariant| variant_operation_kind(v) == kind,
{
    assert(variant_operation_kind(variant_of_operation_kind(kind)) == kind);
}

/// Every request carries the operation kind of its own name: the kind of a
/// variant is the kind spelled the same, and so is the kind of every request
/// built with a constructor, whatever its payload.
pub proof fn lemma_operation_kind_is_named_after_variant(variant: MindRequestVariant, request: MindRequest)
    ensures
        variant is SubmitThought ==> variant_operation_kind(variant) is SubmitThought && variant_of_operation_kind(variant_operation_kind(variant)) is SubmitThought,
        variant is SubmitRelation ==> variant_operation_kind(variant) is SubmitRelation && variant_of_operation_kind(variant_operation_kind(variant)) is SubmitRelation,
        variant is QueryThoughts ==> variant_operation_kind(variant) is QueryThoughts && variant_of_operation_kind(variant_operation_kind(variant)) is QueryThoughts,
        variant is QueryRelations ==> variant_operation_kind(variant) is QueryRelations && variant_of_operation_kind(variant_operation_kind(variant)) is QueryRelations,
        variant is SubscribeThoughts ==> variant_operation_kind(variant) is SubscribeThoughts && variant_of_operation_kind(variant_operation_kind(variant)) is SubscribeThoughts,
        variant is SubscribeRelations ==> variant_operation_kind(variant) is SubscribeRelations && variant_of_operation_kind(variant_operation_kind(variant)) is SubscribeRelations,
        variant is RoleClaim ==> variant_operation_kind(variant) is RoleClaim && variant_of_operation_kind(variant_operation_kind(variant)) is RoleClaim,
        variant is RoleRelease ==> variant_operation_kind(variant) is RoleRelease && variant_of_operation_kind(variant_operation_kind(variant)) is RoleRelease,
        variant is RoleHandoff ==> variant_operation_kind(variant) is RoleHandoff && variant_of_operation_kind(variant_operation_kind(variant)) is RoleHandoff,
        variant is RoleObservation ==> variant_operation_kind(variant) is RoleObservation && variant_of_operation_kind(variant_operation_kind(variant)) is RoleObservation,
        variant is ActivitySubmission ==> variant_operation_kind(variant) is ActivitySubmission && variant_of_operation_kind(variant_operation_kind(variant)) is ActivitySubmission,
        variant is ActivityQuery ==> variant_operation_kind(variant) is ActivityQuery && variant_of_operation_kind(variant_operation_kind(variant)) is ActivityQuery,
        variant is Opening ==> variant_operation_kind(variant) is Opening && variant_of_operation_kind(variant_operation_kind(variant)) is Opening,
        variant is NoteSubmission ==> variant_operation_kind(variant) is NoteSubmission && variant_of_operation_kind(variant_operation_kind(variant)) is NoteSubmission,
        variant is Link ==> variant_operation_kind(variant) is Link && variant_of_operation_kind(variant_operation_kind(variant)) is Link,
        variant is StatusChange ==> variant_operation_kind(variant) is StatusChange && variant_of_operation_kind(variant_operation_kind(variant)) is StatusChange,
        variant is AliasAssignment ==> variant_operation_kind(variant) is AliasAssignment && variant_of_operation_kind(variant_operation_kind(variant)) is AliasAssignment,
        variant is Query ==> variant_operation_kind(variant) is Query && variant_of_operation_kind(variant_operation_kind(variant)) is Query,
        variant is AdjudicationRequest ==> variant_operation_kind(variant) is AdjudicationRequest && variant_of_operation_kind(variant_operation_kind(variant)) is AdjudicationRequest,
        variant is ChannelGrant ==> variant_operation_kind(variant) is ChannelGrant && variant_of_operation_kind(variant_operation_kind(variant)) is ChannelGrant,
        variant is ChannelExtend ==> variant_operation_kind(variant) is ChannelExtend && variant_of_operation_kind(variant_operation_kind(variant)) is ChannelExtend,
        variant is ChannelRetract ==> variant_operation_kind(variant) is ChannelRetract && variant_of_operation_kind(variant_operation_kind(variant)) is ChannelRetract,
        variant is AdjudicationDeny ==> variant_operation_kind(variant) is AdjudicationDeny && variant_of_operation_kind(variant_operation_kind(variant)) is AdjudicationDeny,
        variant is ChannelList ==> variant_operation_kind(variant) is ChannelList && variant_of_operation_kind(variant_operation_kind(variant)) is ChannelList,
        request is RoleClaim ==> mind_request_variant(request) is RoleClaim && spec_operation_kind(request) is RoleClaim,
        request is RoleRelease ==> mind_request_variant(request) is RoleRelease && spec_operation_kind(request) is RoleRelease,
        request is RoleHandoff ==> mind_request_variant(request) is RoleHandoff && spec_operation_kind(request) is RoleHandoff,
        request is RoleObservation ==> mind_request_variant(request) is RoleObservation && spec_operation_kind(request) is RoleObservation,
        request is ActivitySubmission ==> mind_request_variant(request) is ActivitySubmission && spec_operation_kind(request) is ActivitySubmission,
        request is ActivityQuery ==> mind_request_variant(request) is ActivityQuery && spec_operation_kind(request) is ActivityQuery,
        request is Opening ==> mind_request_variant(request) is Opening && spec_operation_kind(request) is Opening,
        request is NoteSubmission ==> mind_request_variant(request) is NoteSubmission && spec_operation_kind(request) is NoteSubmission,
        request is Link ==> mind_request_variant(request) is Link && spec_operation_kind(request) is Link,
        request is StatusChange ==> mind_request_variant(request) is StatusChange && spec_operation_kind(request) is StatusChange,
        request is AliasAssignment ==> mind_request_variant(request) is AliasAssignment && spec_operation_kind(request) is AliasAssignment,
        request is Query ==> mind_request_variant(request) is Query && spec_operation_kind(request) is Query,
        request is AdjudicationDeny ==> mind_request_variant(request) is AdjudicationDeny && spec_operation_kind(request) is AdjudicationDeny,
{
}

impl MindRequestVariant {
    /// The operation kind of this variant.
    pub fn operation_kind(self) -> (kind: MindOperationKind)
        ensures
            kind == variant_operation_kind(self),
    {
        match self {
            MindRequestVariant::SubmitThought => MindOperationKind::SubmitThought,
            MindRequestVariant::SubmitRelation => MindOperationKind::SubmitRelation,
            MindRequestVariant::QueryThoughts => MindOperationKind::QueryThoughts,
            MindRequestVariant::QueryRelations => MindOperationKind::QueryRelations,
            MindRequestVariant::SubscribeThoughts => MindOperationKind::SubscribeThoughts,
            MindRequestVariant::SubscribeRelations => MindOperationKind::SubscribeRelations,
            MindRequestVariant::RoleClaim => MindOperationKind::RoleClaim,
            MindRequestVariant::RoleRelease => MindOperationKind::RoleRelease,
            MindRequestVariant::RoleHandoff => MindOperationKind::RoleHandoff,
            MindRequestVariant::RoleObservation => MindOperationKind::RoleObservation,
            MindRequestVariant::ActivitySubmission => MindOperationKind::ActivitySubmission,
            MindRequestVariant::ActivityQuery => MindOperationKind::ActivityQuery,
            MindRequestVariant::Opening => MindOperationKind::Opening,
            MindRequestVariant::NoteSubmission => MindOperationKind::NoteSubmission,
            MindRequestVariant::Link => MindOperationKind::Link,
            MindRequestVariant::StatusChange => MindOperationKind::StatusChange,
            MindRequestVariant::AliasAssignment => MindOperationKind::AliasAssignment,
            MindRequestVariant::Query => MindOperationKind::Query,
            MindRequestVariant::AdjudicationRequest => MindOperationKind::AdjudicationRequest,
            MindRequestVariant::ChannelGrant => MindOperationKind::ChannelGrant,
            MindRequestVariant::ChannelExtend => MindOperationKind::ChannelExtend,
            MindRequestVariant::ChannelRetract => MindOperationKind::ChannelRetract,
            MindRequestVariant::AdjudicationDeny => MindOperationKind::AdjudicationDeny,
            MindRequestVariant::ChannelList => MindOperationKind::ChannelList,
        }
    }
}

/// The variant of a request that this library holds.
pub open spec fn mind_request_variant(request: MindRequest) -> MindRequestVariant {
    match request {
        MindRequest::RoleClaim(_) => MindRequestVariant::RoleClaim,
        MindRequest::RoleRelease(_) => MindRequestVariant::RoleRelease,
        MindRequest::RoleHandoff(_) => MindRequestVariant::RoleHandoff,
        MindRequest::RoleObservation(_) => MindRequestVariant::RoleObservation,
        MindRequest::ActivitySubmission(_) => MindRequestVariant::ActivitySubmission,
        MindRequest::ActivityQuery(_) => MindRequestVariant::ActivityQuery,
        MindRequest::Opening(_) => MindRequestVariant::Opening,
        MindRequest::NoteSubmission(_) => MindRequestVariant::NoteSubmission,
        MindRequest::Link(_) => MindRequestVariant::Link,
        MindRequest::StatusChange(_) => MindRequestVariant::StatusChange,
        MindRequest::AliasAssignment(_) => MindRequestVariant::AliasAssignment,
        MindRequest::Query(_) => MindRequestVariant::Query,
        MindRequest::AdjudicationDeny(_) => MindRequestVariant::AdjudicationDeny,
    }
}

/// The operation kind of a request: the kind named after its variant.
pub open spec fn spec_operation_kind(request: MindRequest) -> MindOperationKind {
    variant_operation_kind(mind_request_variant(request))
}

/// Two requests have the same operation kind exactly when they are of the
/// same variant; the payload never matters.
pub proof fn lemma_request_kind_names_variant(a: MindRequest, b: MindRequest)
    ensures
        spec_operation_kind(a) == spec_operation_kind(b) <==> mind_request_variant(a)
            == mind_request_variant(b),
{
    lemma_operation_kind_one_to_one(
        mind_request_variant(a),
        mind_request_variant(b),
        MindOperationKind::Query,
    );
}

impl MindRequest {
    /// The variant of this request.
    pub fn variant(&self) -> (variant: MindRequestVariant)
        ensures
            variant == mind_request_variant(*self),
    {
        match self {
            MindRequest::RoleClaim(_) => MindRequestVariant::RoleClaim,
            MindRequest::RoleRelease(_) => MindRequestVariant::RoleRelease,
            MindRequest::RoleHandoff(_) => MindRequestVariant::RoleHandoff,
            MindRequest::RoleObservation(_) => MindRequestVariant::RoleObservation,
            MindRequest::ActivitySubmission(_) => MindRequestVariant::ActivitySubmission,
            MindRequest::ActivityQuery(_) => MindRequestVariant::ActivityQuery,
            MindRequest::Opening(_) => MindRequestVariant::Opening,
            MindRequest::NoteSubmission(_) => MindRequestVariant::NoteSubmission,
            MindRequest::Link(_) => MindRequestVariant::Link,
            MindRequest::StatusChange(_) => MindRequestVariant::StatusChange,
            MindRequest::AliasAssignment(_) => MindRequestVariant::AliasAssignment,
            MindRequest::Query(_) => MindRequestVariant::Query,
            MindRequest::AdjudicationDeny(_) => MindRequestVariant::AdjudicationDeny,
        }
    }

    /// The contract-owned discriminant of this request: the operation kind
    /// named after its variant.
    pub fn operation_kind(&self) -> (kind: MindOperationKind)
        ensures
            kind == spec_operation_kind(*self),
    {
        self.variant().operation_kind()
    }
}

} // verus!
