use signal_persona_mind::record_head::{
    ActivityFilterVariant, ChannelEndpointVariant, ChannelFilterVariant, ChannelDurationVariant, EdgeTargetVariant, ExternalReferenceVariant,
    HandoffRejectionReasonVariant, ItemReferenceVariant, LinkTargetVariant, QueryKindVariant,
    ScopeReferenceVariant,
};
use signal_persona_mind::{
    ActivityFilter, ChannelDuration, CommitHash, ExternalAlias, ExternalReference,
    HandoffRejectionReason, ItemKind, ItemReference, LinkTarget, QueryKind, RoleName,
    ScopeReference, StableItemId, TaskToken, TimestampNanos, WirePath,
};

#[test]
fn scope_reference_heads_round_trip() {
    let path = ScopeReference::Path(WirePath::from_absolute_path("/git").expect("path"));
    let task = ScopeReference::Task(TaskToken::from_wire_token("primary-f99").expect("task"));
    assert_eq!(path.record_head(), "Path");
    assert_eq!(task.record_head(), "Task");
    assert_eq!(path.variant(), ScopeReferenceVariant::Path);
    for variant in [ScopeReferenceVariant::Path, ScopeReferenceVariant::Task] {
        assert_eq!(ScopeReferenceVariant::from_record_head(variant.record_head()), Some(variant));
    }
    assert_eq!(ScopeReferenceVariant::from_record_head("path"), None);
    assert_eq!(ScopeReferenceVariant::from_record_head(""), None);
}

#[test]
fn handoff_rejection_reason_heads_round_trip() {
    assert_eq!(HandoffRejectionReason::SourceRoleDoesNotHold.record_head(), "SourceRoleDoesNotHold");
    assert_eq!(HandoffRejectionReason::TargetRoleConflict(vec![]).record_head(), "TargetRoleConflict");
    for variant in [
        HandoffRejectionReasonVariant::SourceRoleDoesNotHold,
        HandoffRejectionReasonVariant::TargetRoleConflict,
    ] {
        assert_eq!(
            HandoffRejectionReasonVariant::from_record_head(variant.record_head()),
            Some(variant)
        );
    }
    assert_eq!(HandoffRejectionReasonVariant::from_record_head("Conflict"), None);
}

#[test]
fn activity_filter_heads_round_trip() {
    assert_eq!(ActivityFilter::RoleFilter(RoleName::Poet).record_head(), "RoleFilter");
    for variant in [
        ActivityFilterVariant::RoleFilter,
        ActivityFilterVariant::PathPrefix,
        ActivityFilterVariant::TaskToken,
    ] {
        assert_eq!(ActivityFilterVariant::from_record_head(variant.record_head()), Some(variant));
    }
    assert_eq!(ActivityFilterVariant::from_record_head("Path"), None);
}

#[test]
fn item_reference_heads_round_trip() {
    assert_eq!(ItemReference::Alias(ExternalAlias::new("a")).record_head(), "Alias");
    for variant in [
        ItemReferenceVariant::Stable,
        ItemReferenceVariant::Display,
        ItemReferenceVariant::Alias,
    ] {
        assert_eq!(ItemReferenceVariant::from_record_head(variant.record_head()), Some(variant));
    }
    assert_eq!(ItemReferenceVariant::from_record_head("Item"), None);
}

#[test]
fn external_reference_heads_round_trip() {
    assert_eq!(ExternalReference::GitCommit(CommitHash::new("7f0bf022")).record_head(), "GitCommit");
    for variant in [
        ExternalReferenceVariant::Report,
        ExternalReferenceVariant::GitCommit,
        ExternalReferenceVariant::BeadsTask,
        ExternalReferenceVariant::File,
    ] {
        assert_eq!(
            ExternalReferenceVariant::from_record_head(variant.record_head()),
            Some(variant)
        );
    }
    assert_eq!(ExternalReferenceVariant::from_record_head("Files"), None);
}

#[test]
fn link_and_edge_target_heads_round_trip() {
    let item = LinkTarget::Item(ItemReference::Stable(StableItemId::new("aab")));
    assert_eq!(item.record_head(), "Item");
    for variant in [LinkTargetVariant::Item, LinkTargetVariant::External] {
        assert_eq!(LinkTargetVariant::from_record_head(variant.record_head()), Some(variant));
    }
    for variant in [EdgeTargetVariant::Item, EdgeTargetVariant::External] {
        assert_eq!(EdgeTargetVariant::from_record_head(variant.record_head()), Some(variant));
    }
    assert_eq!(EdgeTargetVariant::from_record_head("Stable"), None);
}

#[test]
fn query_kind_heads_round_trip() {
    assert_eq!(QueryKind::Ready.record_head(), "Ready");
    assert_eq!(QueryKind::ByKind(ItemKind::Task).record_head(), "ByKind");
    let all = [
        QueryKindVariant::Ready,
        QueryKindVariant::Blocked,
        QueryKindVariant::Open,
        QueryKindVariant::RecentEvents,
        QueryKindVariant::ByItem,
        QueryKindVariant::ByKind,
        QueryKindVariant::ByStatus,
        QueryKindVariant::ByAlias,
    ];
    for variant in all {
        assert_eq!(QueryKindVariant::from_record_head(variant.record_head()), Some(variant));
    }
    assert_eq!(QueryKindVariant::from_record_head("Closed"), None);
}

#[test]
fn channel_duration_heads_round_trip() {
    assert_eq!(ChannelDuration::TimeBound(TimestampNanos::new(1)).record_head(), "TimeBound");
    for variant in [
        ChannelDurationVariant::OneShot,
        ChannelDurationVariant::Permanent,
        ChannelDurationVariant::TimeBound,
    ] {
        assert_eq!(ChannelDurationVariant::from_record_head(variant.record_head()), Some(variant));
    }
    assert_eq!(ChannelDurationVariant::from_record_head("Forever"), None);
}

#[test]
fn channel_endpoint_heads_round_trip() {
    assert_eq!(ChannelEndpointVariant::Internal.record_head(), "Internal");
    assert_eq!(ChannelEndpointVariant::External.record_head(), "External");
    for variant in [ChannelEndpointVariant::Internal, ChannelEndpointVariant::External] {
        assert_eq!(ChannelEndpointVariant::from_record_head(variant.record_head()), Some(variant));
    }
    assert_eq!(ChannelEndpointVariant::from_record_head("internal"), None);
}

#[test]
fn channel_filter_heads_round_trip() {
    assert_eq!(ChannelFilterVariant::Destination.record_head(), "Destination");
    for variant in [
        ChannelFilterVariant::Source,
        ChannelFilterVariant::Destination,
        ChannelFilterVariant::Kind,
    ] {
        assert_eq!(ChannelFilterVariant::from_record_head(variant.record_head()), Some(variant));
    }
    assert_eq!(ChannelFilterVariant::from_record_head("Kinds"), None);
}
