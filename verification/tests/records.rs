use signal_persona_mind::MindOperationKind as K;
use signal_persona_mind::MindRequestVariant as V;
use signal_persona_mind::{
    AliasAddedEvent, Edge, EdgeAddedEvent, EdgeTarget, Event, EventHeader, Item, ItemOpenedEvent,
    Note, NoteAddedEvent, StatusChangedEvent,
};
use signal_persona_mind::{
    ActivityFilter, ActivityQuery, ActivitySubmission, ActorName, AdjudicationDeny,
    AdjudicationRequestId, AliasAssignment, ChannelDuration, ChannelMessageKind, DisplayId,
    EdgeKind, EventSeq, ExternalAlias, ExternalReference, ItemKind, ItemPriority, ItemReference,
    ItemStatus, Link, LinkTarget, MindOperationKind, MindReply, MindRequest, NoteSubmission,
    Opening, OperationId, Query, QueryKind, QueryLimit, ReferencePath, RoleClaim, RoleHandoff,
    RoleName, RoleObservation, RoleRelease, ScopeReason, ScopeReference, StableItemId,
    StatusChange, TextBody, TimestampNanos, Title, View, WirePath,
};

fn sample_path_scope() -> ScopeReference {
    ScopeReference::Path(
        WirePath::from_absolute_path("/git/github.com/LiGoldragon/signal-persona-mind/src/lib.rs")
            .expect("absolute path"),
    )
}

fn sample_reason() -> ScopeReason {
    ScopeReason::from_text("design-cascade per /93").expect("scope reason")
}

#[test]
fn mind_request_exposes_contract_owned_operation_kind() {
    let item_id = StableItemId::new("aab");
    let cases = vec![
        (
            MindRequest::RoleClaim(RoleClaim {
                role: RoleName::Designer,
                scopes: vec![sample_path_scope()],
                reason: sample_reason(),
            }),
            MindOperationKind::RoleClaim,
        ),
        (
            MindRequest::RoleRelease(RoleRelease {
                role: RoleName::Designer,
            }),
            MindOperationKind::RoleRelease,
        ),
        (
            MindRequest::RoleHandoff(RoleHandoff {
                from: RoleName::Designer,
                to: RoleName::Operator,
                scopes: vec![sample_path_scope()],
                reason: sample_reason(),
            }),
            MindOperationKind::RoleHandoff,
        ),
        (
            MindRequest::RoleObservation(RoleObservation),
            MindOperationKind::RoleObservation,
        ),
        (
            MindRequest::ActivitySubmission(ActivitySubmission {
                role: RoleName::Operator,
                scope: sample_path_scope(),
                reason: sample_reason(),
            }),
            MindOperationKind::ActivitySubmission,
        ),
        (
            MindRequest::ActivityQuery(ActivityQuery {
                limit: 10,
                filters: vec![ActivityFilter::RoleFilter(RoleName::Operator)],
            }),
            MindOperationKind::ActivityQuery,
        ),
        (
            MindRequest::Opening(Opening {
                kind: ItemKind::Task,
                priority: ItemPriority::High,
                title: Title::new("Add operation kinds"),
                body: TextBody::new("Expose discriminants from the contract crate."),
            }),
            MindOperationKind::Opening,
        ),
        (
            MindRequest::NoteSubmission(NoteSubmission {
                item: ItemReference::Stable(item_id.clone()),
                body: TextBody::new("Contract-owned discriminant witness."),
            }),
            MindOperationKind::NoteSubmission,
        ),
        (
            MindRequest::Link(Link {
                source: ItemReference::Stable(item_id.clone()),
                kind: EdgeKind::References,
                target: LinkTarget::External(ExternalReference::File(ReferencePath::new(
                    "/git/github.com/LiGoldragon/signal-persona-mind/src/lib.rs",
                ))),
                body: None,
            }),
            MindOperationKind::Link,
        ),
        (
            MindRequest::StatusChange(StatusChange {
                item: ItemReference::Stable(item_id.clone()),
                status: ItemStatus::InProgress,
                body: None,
            }),
            MindOperationKind::StatusChange,
        ),
        (
            MindRequest::AliasAssignment(AliasAssignment {
                item: ItemReference::Stable(item_id.clone()),
                alias: ExternalAlias::new("primary-aab"),
            }),
            MindOperationKind::AliasAssignment,
        ),
        (
            MindRequest::Query(Query {
                kind: QueryKind::Ready,
                limit: QueryLimit::new(10),
            }),
            MindOperationKind::Query,
        ),
        (
            MindRequest::AdjudicationDeny(AdjudicationDeny {
                request: AdjudicationRequestId::new("aab"),
                reason: TextBody::new("destination unavailable"),
            }),
            MindOperationKind::AdjudicationDeny,
        ),
    ];

    for (request, operation) in cases {
        assert_eq!(request.operation_kind(), operation);
    }
}

#[test]
fn message_ingress_kind_is_distinct_from_generic_message_submission() {
    assert_ne!(
        ChannelMessageKind::MessageIngressSubmission,
        ChannelMessageKind::MessageSubmission
    );
}

#[test]
fn explicit_variant_lifts_opening_into_request() {
    let opening = Opening {
        kind: ItemKind::Question,
        priority: ItemPriority::Normal,
        title: Title::new("Choose migration order"),
        body: TextBody::new("Need a decision before implementation."),
    };
    let request = MindRequest::Opening(opening.clone());
    assert_eq!(request, MindRequest::Opening(opening));
}

fn header(event: u64) -> EventHeader {
    EventHeader {
        event: EventSeq::new(event),
        operation: OperationId::new("aab"),
        actor: ActorName::new("operator"),
    }
}

fn sample_item() -> Item {
    Item {
        id: StableItemId::new("aab"),
        display_id: DisplayId::new("aab"),
        aliases: vec![ExternalAlias::new("primary-aab")],
        kind: ItemKind::Task,
        status: ItemStatus::Open,
        priority: ItemPriority::High,
        title: Title::new("Implement native mind memory graph"),
        body: TextBody::new("Replace BEADS with typed Persona mind records."),
    }
}

fn sample_note() -> Note {
    Note {
        event: EventSeq::new(2),
        item: StableItemId::new("aab"),
        author: ActorName::new("operator"),
        body: TextBody::new("First implementation slice is the contract repo."),
    }
}

fn sample_edge() -> Edge {
    Edge {
        event: EventSeq::new(3),
        source: StableItemId::new("aac"),
        kind: EdgeKind::DependsOn,
        target: EdgeTarget::Item(StableItemId::new("aab")),
        body: Some(TextBody::new("Implementation waits on the contract.")),
    }
}

fn sample_view() -> View {
    View {
        items: vec![sample_item()],
        edges: vec![sample_edge()],
        notes: vec![sample_note()],
        events: vec![
            Event::ItemOpened(ItemOpenedEvent {
                header: header(1),
                item: sample_item(),
            }),
            Event::NoteAdded(NoteAddedEvent {
                header: header(2),
                note: sample_note(),
            }),
            Event::EdgeAdded(EdgeAddedEvent {
                header: header(3),
                edge: sample_edge(),
            }),
            Event::StatusChanged(StatusChangedEvent {
                header: header(4),
                item: StableItemId::new("aab"),
                status: ItemStatus::Closed,
                body: Some(TextBody::new("Contract shipped.")),
            }),
            Event::AliasAdded(AliasAddedEvent {
                header: header(5),
                item: StableItemId::new("aab"),
                alias: ExternalAlias::new("primary-aab"),
            }),
        ],
    }
}

#[test]
fn explicit_variant_lifts_view_into_reply() {
    let view = sample_view();
    let reply = MindReply::View(view.clone());
    assert_eq!(reply, MindReply::View(view));
}

#[test]
fn numeric_newtypes_give_back_their_value() {
    assert_eq!(TimestampNanos::new(1730000000000000000).value(), 1730000000000000000);
    assert!(TimestampNanos::new(1) < TimestampNanos::new(2));
    assert_eq!(EventSeq::new(42).into_u64(), 42);
    assert_eq!(QueryLimit::new(25).into_u16(), 25);
    assert_eq!(
        ChannelDuration::TimeBound(TimestampNanos::new(7)),
        ChannelDuration::TimeBound(TimestampNanos::new(7))
    );
}

#[test]
fn text_newtypes_give_back_their_text() {
    assert_eq!(StableItemId::new("aab").as_str(), "aab");
    assert_eq!(DisplayId::new("abc").as_str(), "abc");
    assert_eq!(ExternalAlias::new("primary-aab").as_str(), "primary-aab");
    assert_eq!(OperationId::new("op").as_str(), "op");
    assert_eq!(ActorName::new("operator").as_str(), "operator");
    assert_eq!(Title::new("Replace BEADS").as_str(), "Replace BEADS");
    assert_eq!(TextBody::new("").as_str(), "");
    assert_eq!(AdjudicationRequestId::new("aab").as_str(), "aab");
}

#[test]
fn text_newtypes_are_equal_exactly_when_their_texts_are() {
    assert_eq!(DisplayId::new("aab"), DisplayId::new("aab"));
    assert_ne!(DisplayId::new("aab"), DisplayId::new("aab "));
    assert_ne!(DisplayId::new(""), DisplayId::new("a"));
    assert_eq!(AdjudicationRequestId::new("aab"), AdjudicationRequestId::new("aab"));
    assert_ne!(AdjudicationRequestId::new("aab"), AdjudicationRequestId::new("AAB"));
    assert_eq!(AdjudicationRequestId::new("aab").as_str(), "aab");
    assert_eq!(StableItemId::new("x"), StableItemId::new("x"));
    assert_ne!(TextBody::new("x"), TextBody::new("y"));
}

#[test]
fn every_request_variant_has_the_operation_kind_of_its_name() {
    let cases = [
        (V::SubmitThought, K::SubmitThought),
        (V::SubmitRelation, K::SubmitRelation),
        (V::QueryThoughts, K::QueryThoughts),
        (V::QueryRelations, K::QueryRelations),
        (V::SubscribeThoughts, K::SubscribeThoughts),
        (V::SubscribeRelations, K::SubscribeRelations),
        (V::RoleClaim, K::RoleClaim),
        (V::RoleRelease, K::RoleRelease),
        (V::RoleHandoff, K::RoleHandoff),
        (V::RoleObservation, K::RoleObservation),
        (V::ActivitySubmission, K::ActivitySubmission),
        (V::ActivityQuery, K::ActivityQuery),
        (V::Opening, K::Opening),
        (V::NoteSubmission, K::NoteSubmission),
        (V::Link, K::Link),
        (V::StatusChange, K::StatusChange),
        (V::AliasAssignment, K::AliasAssignment),
        (V::Query, K::Query),
        (V::AdjudicationRequest, K::AdjudicationRequest),
        (V::ChannelGrant, K::ChannelGrant),
        (V::ChannelExtend, K::ChannelExtend),
        (V::ChannelRetract, K::ChannelRetract),
        (V::AdjudicationDeny, K::AdjudicationDeny),
        (V::ChannelList, K::ChannelList),
    ];
    for (variant, kind) in cases {
        assert_eq!(variant.operation_kind(), kind);
    }
    for (i, (a, _)) in cases.iter().enumerate() {
        for (j, (b, _)) in cases.iter().enumerate() {
            assert_eq!(a.operation_kind() == b.operation_kind(), i == j);
        }
    }
}

#[test]
fn request_variant_matches_its_operation_kind() {
    let request = MindRequest::RoleRelease(RoleRelease {
        role: RoleName::Poet,
    });
    assert_eq!(request.variant(), signal_persona_mind::MindRequestVariant::RoleRelease);
    assert_eq!(request.operation_kind(), MindOperationKind::RoleRelease);
}

#[test]
fn timestamps_compare_as_their_counts() {
    let earlier = TimestampNanos::new(1_730_000_000_000_000_000);
    let later = TimestampNanos::new(1_730_000_001_000_000_000);
    assert!(earlier < later);
    assert_eq!(earlier.partial_cmp(&later), Some(std::cmp::Ordering::Less));
    assert_eq!(later.partial_cmp(&earlier), Some(std::cmp::Ordering::Greater));
    assert_eq!(earlier.cmp(&earlier), std::cmp::Ordering::Equal);
    assert_eq!(TimestampNanos::new(5), TimestampNanos::new(5));
    assert_ne!(TimestampNanos::new(5), TimestampNanos::new(6));
}

#[test]
fn cloned_text_newtypes_keep_their_text() {
    let id = DisplayId::new("aab");
    assert_eq!(id.clone().as_str(), "aab");
    assert_eq!(id.clone(), id);
    assert_eq!(TextBody::new("body").clone().as_str(), "body");
}
