use vstd::prelude::*;

use crate::names::{
    ActorName, BeadsToken, CommitHash, DisplayId, ExternalAlias, OperationId, ReferencePath,
    ReportPath, StableItemId, TextBody, Title,
};
use crate::numbers::{EventSeq, QueryLimit};

verus! {

// ─── Domain ───────────────────────────────────────────────

#[derive(Debug, Clone, Copy, PartialEq, Eq, Hash, Structural)]
pub enum ItemKind {
    Task,
    Defect,
    Question,
    Decision,
    Note,
    Handoff,
}

#[derive(Debug, Clone, Copy, PartialEq, Eq, Hash, Structural)]
pub enum ItemStatus {
    Open,
    InProgress,
    Blocked,
    Closed,
    Deferred,
}

#[derive(Debug, Clone, Copy, PartialEq, Eq, Hash, Structural)]
pub enum ItemPriority {
    Critical,
    High,
    Normal,
    Low,
    Backlog,
}

#[derive(Debug, Clone, Copy, PartialEq, Eq, Hash, Structural)]
pub enum EdgeKind {
    DependsOn,
    ParentOf,
    RelatesTo,
    Duplicates,
    Supersedes,
    Answers,
    References,
}

#[derive(Debug, Clone, PartialEq, Eq, Hash)]
pub enum ItemReference {
    Stable(StableItemId),
    Display(DisplayId),
    Alias(ExternalAlias),
}

#[derive(Debug, Clone, PartialEq, Eq, Hash)]
pub enum ExternalReference {
    Report(ReportPath),
    GitCommit(CommitHash),
    BeadsTask(BeadsToken),
    File(ReferencePath),
}

#[derive(Debug, Clone, PartialEq, Eq, Hash)]
pub enum LinkTarget {
    Item(ItemReference),
    External(ExternalReference),
}

#[derive(Debug, Clone, PartialEq, Eq, Hash)]
pub enum EdgeTarget {
    Item(StableItemId),
    External(ExternalReference),
}

// ─── Requests ─────────────────────────────────────────────

#[derive(Debug, Clone, PartialEq, Eq)]
pub struct Opening {
    pub kind: ItemKind,
    pub priority: ItemPriority,
    pub title: Title,
    pub body: TextBody,
}

#[derive(Debug, Clone, PartialEq, Eq)]
pub struct NoteSubmission {
    pub item: ItemReference,
    pub body: TextBody,
}

#[derive(Debug, Clone, PartialEq, Eq)]
pub struct Link {
    pub source: ItemReference,
    pub kind: EdgeKind,
    pub target: LinkTarget,
    pub body: Option<TextBody>,
}

#[derive(Debug, Clone, PartialEq, Eq)]
pub struct StatusChange {
    pub item: ItemReference,
    pub status: ItemStatus,
    pub body: Option<TextBody>,
}

#[derive(Debug, Clone, PartialEq, Eq)]
pub struct AliasAssignment {
    pub item: ItemReference,
    pub alias: ExternalAlias,
}

#[derive(Debug, Clone, PartialEq, Eq)]
pub struct Query {
    pub kind: QueryKind,
    pub limit: QueryLimit,
}

#[derive(Debug, Clone, PartialEq, Eq)]
pub enum QueryKind {
    Ready,
    Blocked,
    Open,
    RecentEvents,
    ByItem(ItemReference),
    ByKind(ItemKind),
    ByStatus(ItemStatus),
    ByAlias(ExternalAlias),
}

// ─── Projections ──────────────────────────────────────────

#[derive(Debug, Clone, PartialEq, Eq)]
pub struct Item {
    pub id: StableItemId,
    pub display_id: DisplayId,
    pub aliases: Vec<ExternalAlias>,
    pub kind: ItemKind,
    pub status: ItemStatus,
    pub priority: ItemPriority,
    pub title: Title,
    pub body: TextBody,
}

#[derive(Debug, Clone, PartialEq, Eq)]
pub struct Note {
    pub event: EventSeq,
    pub item: StableItemId,
    pub author: ActorName,
    pub body: TextBody,
}

#[derive(Debug, Clone, PartialEq, Eq)]
pub struct Edge {
    pub event: EventSeq,
    pub source: StableItemId,
    pub kind: EdgeKind,
    pub target: EdgeTarget,
    pub body: Option<TextBody>,
}

// ─── Events ───────────────────────────────────────────────

#[derive(Debug, Clone, PartialEq, Eq)]
pub struct EventHeader {
    pub event: EventSeq,
    pub operation: OperationId,
    pub actor: ActorName,
}

#[derive(Debug, Clone, PartialEq, Eq)]
pub struct ItemOpenedEvent {
    pub header: EventHeader,
    pub item: Item,
}

#[derive(Debug, Clone, PartialEq, Eq)]
pub struct NoteAddedEvent {
    pub header: EventHeader,
    pub note: Note,
}

#[derive(Debug, Clone, PartialEq, Eq)]
pub struct EdgeAddedEvent {
    pub header: EventHeader,
    pub edge: Edge,
}

#[derive(Debug, Clone, PartialEq, Eq)]
pub struct StatusChangedEvent {
    pub header: EventHeader,
    pub item: StableItemId,
    pub status: ItemStatus,
    pub body: Option<TextBody>,
}

#[derive(Debug, Clone, PartialEq, Eq)]
pub struct AliasAddedEvent {
    pub header: EventHeader,
    pub item: StableItemId,
    pub alias: ExternalAlias,
}

#[derive(Debug, Clone, PartialEq, Eq)]
pub enum Event {
    ItemOpened(ItemOpenedEvent),
    NoteAdded(NoteAddedEvent),
    EdgeAdded(EdgeAddedEvent),
    StatusChanged(StatusChangedEvent),
    AliasAdded(AliasAddedEvent),
}

// ─── Replies ──────────────────────────────────────────────

#[derive(Debug, Clone, PartialEq, Eq)]
pub struct OpeningReceipt {
    pub event: ItemOpenedEvent,
}

#[derive(Debug, Clone, PartialEq, Eq)]
pub struct NoteReceipt {
    pub event: NoteAddedEvent,
}

#[derive(Debug, Clone, PartialEq, Eq)]
pub struct LinkReceipt {
    pub event: EdgeAddedEvent,
}

#[derive(Debug, Clone, PartialEq, Eq)]
pub struct StatusReceipt {
    pub event: StatusChangedEvent,
}

#[derive(Debug, Clone, PartialEq, Eq)]
pub struct AliasReceipt {
    pub event: AliasAddedEvent,
}

#[derive(Debug, Clone, PartialEq, Eq)]
pub struct View {
    pub items: Vec<Item>,
    pub edges: Vec<Edge>,
    pub notes: Vec<Note>,
    pub events: Vec<Event>,
}

#[derive(Debug, Clone, PartialEq, Eq)]
pub struct Rejection {
    pub reason: RejectionReason,
}

#[derive(Debug, Clone, PartialEq, Eq, Structural)]
pub enum RejectionReason {
    UnknownItem,
    DuplicateAlias,
    InvalidEdge,
    PersistenceRejected,
    UnsupportedQuery,
    CollisionUnresolved,
}

} // verus!
