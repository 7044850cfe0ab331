use vstd::prelude::*;
use vstd::string::*;

use crate::scope::ScopeReference;
use crate::coordination::HandoffRejectionReason;
use crate::coordination::ActivityFilter;
use crate::memory::ItemReference;
use crate::memory::ExternalReference;
use crate::memory::LinkTarget;
use crate::memory::EdgeTarget;
use crate::memory::QueryKind;
use crate::channel::ChannelDuration;

verus! {

// Every sum type of the channel travels as a record whose head names its
// variant, such as `(Path "/git")` or `(Ready)`. The head of a value is
// rendered from its variant, and a head that is read back selects the variant
// to decode, or none when the head is foreign to the type.

/// The variants of [`ScopeReference`], as named by record heads.
#[derive(Debug, Clone, Copy, PartialEq, Eq, Hash, Structural)]
pub enum ScopeReferenceVariant {
    Path,
    Task,
}

/// The variant of a [`ScopeReference`].
pub open spec fn scope_reference_variant(value: ScopeReference) -> ScopeReferenceVariant {
    match value {
        ScopeReference::Path(_) => ScopeReferenceVariant::Path,
        ScopeReference::Task(_) => ScopeReferenceVariant::Task,
    }
}

/// The record head that names a variant of [`ScopeReference`].
pub open spec fn scope_reference_head(variant: ScopeReferenceVariant) -> Seq<char> {
    match variant {
        ScopeReferenceVariant::Path => "Path"@,
        ScopeReferenceVariant::Task => "Task"@,
    }
}

/// The variant of [`ScopeReference`] that a record head names, if any.
pub open spec fn scope_reference_variant_of_head(head: Seq<char>) -> Option<ScopeReferenceVariant> {
    if head == scope_reference_head(ScopeReferenceVariant::Path) {
        Some(ScopeReferenceVariant::Path)
    } else if head == scope_reference_head(ScopeReferenceVariant::Task) {
        Some(ScopeReferenceVariant::Task)
    } else {
        None
    }
}

/// Reading back the head of a variant of [`ScopeReference`] selects that variant again.
pub proof fn lemma_scope_reference_head_round_trip(variant: ScopeReferenceVariant)
    ensures
        scope_reference_variant_of_head(scope_reference_head(variant)) == Some(variant),
        forall|head: Seq<char>| scope_reference_variant_of_head(head) == Some(variant) ==> head == scope_reference_head(variant),
{
    broadcast use vstd::string::group_string_axioms;

    reveal_strlit("Path");
    reveal_strlit("Task");
    assert(scope_reference_head(ScopeReferenceVariant::Path).len() == 4 && scope_reference_head(ScopeReferenceVariant::Path)[0] == 'P' && scope_reference_head(ScopeReferenceVariant::Path)[3] == 'h');
    assert(scope_reference_head(ScopeReferenceVariant::Task).len() == 4 && scope_reference_head(ScopeReferenceVariant::Task)[0] == 'T' && scope_reference_head(ScopeReferenceVariant::Task)[3] == 'k');
}

/// Every variant of [`ScopeReference`] travels under its own name: a value built
/// with a constructor has the variant of that name, its record head is the
/// constructor's name spelled exactly, and that name reads back as the same
/// variant.
pub proof fn lemma_scope_reference_heads_are_names(variant: ScopeReferenceVariant, value: ScopeReference)
    ensures
        variant is Path ==> scope_reference_head(variant) == "Path"@ && scope_reference_variant_of_head("Path"@) == Some(variant),
        variant is Task ==> scope_reference_head(variant) == "Task"@ && scope_reference_variant_of_head("Task"@) == Some(variant),
        value is Path ==> scope_reference_variant(value) == ScopeReferenceVariant::Path && scope_reference_head(scope_reference_variant(value)) == "Path"@,
        value is Task ==> scope_reference_variant(value) == ScopeReferenceVariant::Task && scope_reference_head(scope_reference_variant(value)) == "Task"@,
{
    lemma_scope_reference_head_round_trip(variant);
}

impl ScopeReference {
    /// The variant of this value.
    pub fn variant(&self) -> (variant: ScopeReferenceVariant)
        ensures
            variant == scope_reference_variant(*self),
    {
        match self {
            ScopeReference::Path(_) => ScopeReferenceVariant::Path,
            ScopeReference::Task(_) => ScopeReferenceVariant::Task,
        }
    }

    /// The record head under which this value travels.
    pub fn record_head(&self) -> (head: &'static str)
        ensures
            head@ == scope_reference_head(scope_reference_variant(*self)),
    {
        self.variant().record_head()
    }
}

impl ScopeReferenceVariant {
    /// The record head that names this variant.
    pub fn record_head(self) -> (head: &'static str)
        ensures
            head@ == scope_reference_head(self),
    {
        match self {
            ScopeReferenceVariant::Path => "Path",
            ScopeReferenceVariant::Task => "Task",
        }
    }

    /// The variant that a record head names, or `None` for a head foreign
    /// to [`ScopeReference`].
    pub fn from_record_head(head: &str) -> (variant: Option<ScopeReferenceVariant>)
        ensures
            variant == scope_reference_variant_of_head(head@),
    {
        let given = String::from_str(head);
        if head_is(&given, ScopeReferenceVariant::Path.record_head()) {
            Some(ScopeReferenceVariant::Path)
        } else if head_is(&given, ScopeReferenceVariant::Task.record_head()) {
            Some(ScopeReferenceVariant::Task)
        } else {
            None
        }
    }
}

/// The variants of [`HandoffRejectionReason`], as named by record heads.
#[derive(Debug, Clone, Copy, PartialEq, Eq, Hash, Structural)]
pub enum HandoffRejectionReasonVariant {
    SourceRoleDoesNotHold,
    TargetRoleConflict,
}

/// The variant of a [`HandoffRejectionReason`].
pub open spec fn handoff_rejection_reason_variant(value: HandoffRejectionReason) -> HandoffRejectionReasonVariant {
    match value {
        HandoffRejectionReason::SourceRoleDoesNotHold => HandoffRejectionReasonVariant::SourceRoleDoesNotHold,
        HandoffRejectionReason::TargetRoleConflict(_) => HandoffRejectionReasonVariant::TargetRoleConflict,
    }
}

/// The record head that names a variant of [`HandoffRejectionReason`].
pub open spec fn handoff_rejection_reason_head(variant: HandoffRejectionReasonVariant) -> Seq<char> {
    match variant {
        HandoffRejectionReasonVariant::SourceRoleDoesNotHold => "SourceRoleDoesNotHold"@,
        HandoffRejectionReasonVariant::TargetRoleConflict => "TargetRoleConflict"@,
    }
}

/// The variant of [`HandoffRejectionReason`] that a record head names, if any.
pub open spec fn handoff_rejection_reason_variant_of_head(head: Seq<char>) -> Option<HandoffRejectionReasonVariant> {
    if head == handoff_rejection_reason_head(HandoffRejectionReasonVariant::SourceRoleDoesNotHold) {
        Some(HandoffRejectionReasonVariant::SourceRoleDoesNotHold)
    } else if head == handoff_rejection_reason_head(HandoffRejectionReasonVariant::TargetRoleConflict) {
        Some(HandoffRejectionReasonVariant::TargetRoleConflict)
    } else {
        None
    }
}

/// Reading back the head of a variant of [`HandoffRejectionReason`] selects that variant again.
pub proof fn lemma_handoff_rejection_reason_head_round_trip(variant: HandoffRejectionReasonVariant)
    ensures
        handoff_rejection_reason_variant_of_head(handoff_rejection_reason_head(variant)) == Some(variant),
        forall|head: Seq<char>| handoff_rejection_reason_variant_of_head(head) == Some(variant) ==> head == handoff_rejection_reason_head(variant),
{
    broadcast use vstd::string::group_string_axioms;

    reveal_strlit("SourceRoleDoesNotHold");
    reveal_strlit("TargetRoleConflict");
    assert(handoff_rejection_reason_head(HandoffRejectionReasonVariant::SourceRoleDoesNotHold).len() == 21 && handoff_rejection_reason_head(HandoffRejectionReasonVariant::SourceRoleDoesNotHold)[0] == 'S' && handoff_rejection_reason_head(HandoffRejectionReasonVariant::SourceRoleDoesNotHold)[20] == 'd');
    assert(handoff_rejection_reason_head(HandoffRejectionReasonVariant::TargetRoleConflict).len() == 18 && handoff_rejection_reason_head(HandoffRejectionReasonVariant::TargetRoleConflict)[0] == 'T' && handoff_rejection_reason_head(HandoffRejectionReasonVariant::TargetRoleConflict)[17] == 't');
}

/// Every variant of [`HandoffRejectionReason`] travels under its own name: a value built
/// with a constructor has the variant of that name, its record head is the
/// constructor's name spelled exactly, and that name reads back as the same
/// variant.
pub proof fn lemma_handoff_rejection_reason_heads_are_names(variant: HandoffRejectionReasonVariant, value: HandoffRejectionReason)
    ensures
        variant is SourceRoleDoesNotHold ==> handoff_rejection_reason_head(variant) == "SourceRoleDoesNotHold"@ && handoff_rejection_reason_variant_of_head("SourceRoleDoesNotHold"@) == Some(variant),
        variant is TargetRoleConflict ==> handoff_rejection_reason_head(variant) == "TargetRoleConflict"@ && handoff_rejection_reason_variant_of_head("TargetRoleConflict"@) == Some(variant),
        value is SourceRoleDoesNotHold ==> handoff_rejection_reason_variant(value) == HandoffRejectionReasonVariant::SourceRoleDoesNotHold && handoff_rejection_reason_head(handoff_rejection_reason_variant(value)) == "SourceRoleDoesNotHold"@,
        value is TargetRoleConflict ==> handoff_rejection_reason_variant(value) == HandoffRejectionReasonVariant::TargetRoleConflict && handoff_rejection_reason_head(handoff_rejection_reason_variant(value)) == "TargetRoleConflict"@,
{
    lemma_handoff_rejection_reason_head_round_trip(variant);
}

impl HandoffRejectionReason {
    /// The variant of this value.
    pub fn variant(&self) -> (variant: HandoffRejectionReasonVariant)
        ensures
            variant == handoff_rejection_reason_variant(*self),
    {
        match self {
            HandoffRejectionReason::SourceRoleDoesNotHold => HandoffRejectionReasonVariant::SourceRoleDoesNotHold,
            HandoffRejectionReason::TargetRoleConflict(_) => HandoffRejectionReasonVariant::TargetRoleConflict,
        }
    }

    /// The record head under which this value travels.
    pub fn record_head(&self) -> (head: &'static str)
        ensures
            head@ == handoff_rejection_reason_head(handoff_rejection_reason_variant(*self)),
    {
        self.variant().record_head()
    }
}

impl HandoffRejectionReasonVariant {
    /// The record head that names this variant.
    pub fn record_head(self) -> (head: &'static str)
        ensures
            head@ == handoff_rejection_reason_head(self),
    {
        match self {
            HandoffRejectionReasonVariant::SourceRoleDoesNotHold => "SourceRoleDoesNotHold",
            HandoffRejectionReasonVariant::TargetRoleConflict => "TargetRoleConflict",
        }
    }

    /// The variant that a record head names, or `None` for a head foreign
    /// to [`HandoffRejectionReason`].
    pub fn from_record_head(head: &str) -> (variant: Option<HandoffRejectionReasonVariant>)
        ensures
            variant == handoff_rejection_reason_variant_of_head(head@),
    {
        let given = String::from_str(head);
        if head_is(&given, HandoffRejectionReasonVariant::SourceRoleDoesNotHold.record_head()) {
            Some(HandoffRejectionReasonVariant::SourceRoleDoesNotHold)
        } else if head_is(&given, HandoffRejectionReasonVariant::TargetRoleConflict.record_head()) {
            Some(HandoffRejectionReasonVariant::TargetRoleConflict)
        } else {
            None
        }
    }
}

/// The variants of [`ActivityFilter`], as named by record heads.
#[derive(Debug, Clone, Copy, PartialEq, Eq, Hash, Structural)]
pub enum ActivityFilterVariant {
    RoleFilter,
    PathPrefix,
    TaskToken,
}

/// The variant of a [`ActivityFilter`].
pub open spec fn activity_filter_variant(value: ActivityFilter) -> ActivityFilterVariant {
    match value {
        ActivityFilter::RoleFilter(_) => ActivityFilterVariant::RoleFilter,
        ActivityFilter::PathPrefix(_) => ActivityFilterVariant::PathPrefix,
        ActivityFilter::TaskToken(_) => ActivityFilterVariant::TaskToken,
    }
}

/// The record head that names a variant of [`ActivityFilter`].
pub open spec fn activity_filter_head(variant: ActivityFilterVariant) -> Seq<char> {
    match variant {
        ActivityFilterVariant::RoleFilter => "RoleFilter"@,
        ActivityFilterVariant::PathPrefix => "PathPrefix"@,
        ActivityFilterVariant::TaskToken => "TaskToken"@,
    }
}

/// The variant of [`ActivityFilter`] that a record head names, if any.
pub open spec fn activity_filter_variant_of_head(head: Seq<char>) -> Option<ActivityFilterVariant> {
    if head == activity_filter_head(ActivityFilterVariant::RoleFilter) {
        Some(ActivityFilterVariant::RoleFilter)
    } else if head == activity_filter_head(ActivityFilterVariant::PathPrefix) {
        Some(ActivityFilterVariant::PathPrefix)
    } else if head == activity_filter_head(ActivityFilterVariant::TaskToken) {
        Some(ActivityFilterVariant::TaskToken)
    } else {
        None
    }
}

/// Reading back the head of a variant of [`ActivityFilter`] selects that variant again.
pub proof fn lemma_activity_filter_head_round_trip(variant: ActivityFilterVariant)
    ensures
        activity_filter_variant_of_head(activity_filter_head(variant)) == Some(variant),
        forall|head: Seq<char>| activity_filter_variant_of_head(head) == Some(variant) ==> head == activity_filter_head(variant),
{
    broadcast use vstd::string::group_string_axioms;

    reveal_strlit("RoleFilter");
    reveal_strlit("PathPrefix");
    reveal_strlit("TaskToken");
    assert(activity_filter_head(ActivityFilterVariant::RoleFilter).len() == 10 && activity_filter_head(ActivityFilterVariant::RoleFilter)[0] == 'R' && activity_filter_head(ActivityFilterVariant::RoleFilter)[9] == 'r');
    assert(activity_filter_head(ActivityFilterVariant::PathPrefix).len() == 10 && activity_filter_head(ActivityFilterVariant::PathPrefix)[0] == 'P' && activity_filter_head(ActivityFilterVariant::PathPrefix)[9] == 'x');
    assert(activity_filter_head(ActivityFilterVariant::TaskToken).len() == 9 && activity_filter_head(ActivityFilterVariant::TaskToken)[0] == 'T' && activity_filter_head(ActivityFilterVariant::TaskToken)[8] == 'n');
}

/// Every variant of [`ActivityFilter`] travels under its own name: a value built
/// with a constructor has the variant of that name, its record head is the
/// constructor's name spelled exactly, and that name reads back as the same
/// variant.
pub proof fn lemma_activity_filter_heads_are_names(variant: ActivityFilterVariant, value: ActivityFilter)
    ensures
        variant is RoleFilter ==> activity_filter_head(variant) == "RoleFilter"@ && activity_filter_variant_of_head("RoleFilter"@) == Some(variant),
        variant is PathPrefix ==> activity_filter_head(variant) == "PathPrefix"@ && activity_filter_variant_of_head("PathPrefix"@) == Some(variant),
        variant is TaskToken ==> activity_filter_head(variant) == "TaskToken"@ && activity_filter_variant_of_head("TaskToken"@) == Some(variant),
        value is RoleFilter ==> activity_filter_variant(value) == ActivityFilterVariant::RoleFilter && activity_filter_head(activity_filter_variant(value)) == "RoleFilter"@,
        value is PathPrefix ==> activity_filter_variant(value) == ActivityFilterVariant::PathPrefix && activity_filter_head(activity_filter_variant(value)) == "PathPrefix"@,
        value is TaskToken ==> activity_filter_variant(value) == ActivityFilterVariant::TaskToken && activity_filter_head(activity_filter_variant(value)) == "TaskToken"@,
{
    lemma_activity_filter_head_round_trip(variant);
}

impl ActivityFilter {
    /// The variant of this value.
    pub fn variant(&self) -> (variant: ActivityFilterVariant)
        ensures
            variant == activity_filter_variant(*self),
    {
        match self {
            ActivityFilter::RoleFilter(_) => ActivityFilterVariant::RoleFilter,
            ActivityFilter::PathPrefix(_) => ActivityFilterVariant::PathPrefix,
            ActivityFilter::TaskToken(_) => ActivityFilterVariant::TaskToken,
        }
    }

    /// The record head under which this value travels.
    pub fn record_head(&self) -> (head: &'static str)
        ensures
            head@ == activity_filter_head(activity_filter_variant(*self)),
    {
        self.variant().record_head()
    }
}

impl ActivityFilterVariant {
    /// The record head that names this variant.
    pub fn record_head(self) -> (head: &'static str)
        ensures
            head@ == activity_filter_head(self),
    {
        match self {
            ActivityFilterVariant::RoleFilter => "RoleFilter",
            ActivityFilterVariant::PathPrefix => "PathPrefix",
            ActivityFilterVariant::TaskToken => "TaskToken",
        }
    }

    /// The variant that a record head names, or `None` for a head foreign
    /// to [`ActivityFilter`].
    pub fn from_record_head(head: &str) -> (variant: Option<ActivityFilterVariant>)
        ensures
            variant == activity_filter_variant_of_head(head@),
    {
        let given = String::from_str(head);
        if head_is(&given, ActivityFilterVariant::RoleFilter.record_head()) {
            Some(ActivityFilterVariant::RoleFilter)
        } else if head_is(&given, ActivityFilterVariant::PathPrefix.record_head()) {
            Some(ActivityFilterVariant::PathPrefix)
        } else if head_is(&given, ActivityFilterVariant::TaskToken.record_head()) {
            Some(ActivityFilterVariant::TaskToken)
        } else {
            None
        }
    }
}

/// The variants of [`ItemReference`], as named by record heads.
#[derive(Debug, Clone, Copy, PartialEq, Eq, Hash, Structural)]
pub enum ItemReferenceVariant {
    Stable,
    Display,
    Alias,
}

/// The variant of a [`ItemReference`].
pub open spec fn item_reference_variant(value: ItemReference) -> ItemReferenceVariant {
    match value {
        ItemReference::Stable(_) => ItemReferenceVariant::Stable,
        ItemReference::Display(_) => ItemReferenceVariant::Display,
        ItemReference::Alias(_) => ItemReferenceVariant::Alias,
    }
}

/// The record head that names a variant of [`ItemReference`].
pub open spec fn item_reference_head(variant: ItemReferenceVariant) -> Seq<char> {
    match variant {
        ItemReferenceVariant::Stable => "Stable"@,
        ItemReferenceVariant::Display => "Display"@,
        ItemReferenceVariant::Alias => "Alias"@,
    }
}

/// The variant of [`ItemReference`] that a record head names, if any.
pub open spec fn item_reference_variant_of_head(head: Seq<char>) -> Option<ItemReferenceVariant> {
    if head == item_reference_head(ItemReferenceVariant::Stable) {
        Some(ItemReferenceVariant::Stable)
    } else if head == item_reference_head(ItemReferenceVariant::Display) {
        Some(ItemReferenceVariant::Display)
    } else if head == item_reference_head(ItemReferenceVariant::Alias) {
        Some(ItemReferenceVariant::Alias)
    } else {
        None
    }
}

/// Reading back the head of a variant of [`ItemReference`] selects that variant again.
pub proof fn lemma_item_reference_head_round_trip(variant: ItemReferenceVariant)
    ensures
        item_reference_variant_of_head(item_reference_head(variant)) == Some(variant),
        forall|head: Seq<char>| item_reference_variant_of_head(head) == Some(variant) ==> head == item_reference_head(variant),
{
    broadcast use vstd::string::group_string_axioms;

    reveal_strlit("Stable");
    reveal_strlit("Display");
    reveal_strlit("Alias");
    assert(item_reference_head(ItemReferenceVariant::Stable).len() == 6 && item_reference_head(ItemReferenceVariant::Stable)[0] == 'S' && item_reference_head(ItemReferenceVariant::Stable)[5] == 'e');
    assert(item_reference_head(ItemReferenceVariant::Display).len() == 7 && item_reference_head(ItemReferenceVariant::Display)[0] == 'D' && item_reference_head(ItemReferenceVariant::Display)[6] == 'y');
    assert(item_reference_head(ItemReferenceVariant::Alias).len() == 5 && item_reference_head(ItemReferenceVariant::Alias)[0] == 'A' && item_reference_head(ItemReferenceVariant::Alias)[4] == 's');
}

/// Every variant of [`ItemReference`] travels under its own name: a value built
/// with a constructor has the variant of that name, its record head is the
/// constructor's name spelled exactly, and that name reads back as the same
/// variant.
pub proof fn lemma_item_reference_heads_are_names(variant: ItemReferenceVariant, value: ItemReference)
    ensures
        variant is Stable ==> item_reference_head(variant) == "Stable"@ && item_reference_variant_of_head("Stable"@) == Some(variant),
        variant is Display ==> item_reference_head(variant) == "Display"@ && item_reference_variant_of_head("Display"@) == Some(variant),
        variant is Alias ==> item_reference_head(variant) == "Alias"@ && item_reference_variant_of_head("Alias"@) == Some(variant),
        value is Stable ==> item_reference_variant(value) == ItemReferenceVariant::Stable && item_reference_head(item_reference_variant(value)) == "Stable"@,
        value is Display ==> item_reference_variant(value) == ItemReferenceVariant::Display && item_reference_head(item_reference_variant(value)) == "Display"@,
        value is Alias ==> item_reference_variant(value) == ItemReferenceVariant::Alias && item_reference_head(item_reference_variant(value)) == "Alias"@,
{
    lemma_item_reference_head_round_trip(variant);
}

impl ItemReference {
    /// The variant of this value.
    pub fn variant(&self) -> (variant: ItemReferenceVariant)
        ensures
            variant == item_reference_variant(*self),
    {
        match self {
            ItemReference::Stable(_) => ItemReferenceVariant::Stable,
            ItemReference::Display(_) => ItemReferenceVariant::Display,
            ItemReference::Alias(_) => ItemReferenceVariant::Alias,
        }
    }

    /// The record head under which this value travels.
    pub fn record_head(&self) -> (head: &'static str)
        ensures
            head@ == item_reference_head(item_reference_variant(*self)),
    {
        self.variant().record_head()
    }
}

impl ItemReferenceVariant {
    /// The record head that names this variant.
    pub fn record_head(self) -> (head: &'static str)
        ensures
            head@ == item_reference_head(self),
    {
        match self {
            ItemReferenceVariant::Stable => "Stable",
            ItemReferenceVariant::Display => "Display",
            ItemReferenceVariant::Alias => "Alias",
        }
    }

    /// The variant that a record head names, or `None` for a head foreign
    /// to [`ItemReference`].
    pub fn from_record_head(head: &str) -> (variant: Option<ItemReferenceVariant>)
        ensures
            variant == item_reference_variant_of_head(head@),
    {
        let given = String::from_str(head);
        if head_is(&given, ItemReferenceVariant::Stable.record_head()) {
            Some(ItemReferenceVariant::Stable)
        } else if head_is(&given, ItemReferenceVariant::Display.record_head()) {
            Some(ItemReferenceVariant::Display)
        } else if head_is(&given, ItemReferenceVariant::Alias.record_head()) {
            Some(ItemReferenceVariant::Alias)
        } else {
            None
        }
    }
}

/// The variants of [`ExternalReference`], as named by record heads.
#[derive(Debug, Clone, Copy, PartialEq, Eq, Hash, Structural)]
pub enum ExternalReferenceVariant {
    Report,
    GitCommit,
    BeadsTask,
    File,
}

/// The variant of a [`ExternalReference`].
pub open spec fn external_reference_variant(value: ExternalReference) -> ExternalReferenceVariant {
    match value {
        ExternalReference::Report(_) => ExternalReferenceVariant::Report,
        ExternalReference::GitCommit(_) => ExternalReferenceVariant::GitCommit,
        ExternalReference::BeadsTask(_) => ExternalReferenceVariant::BeadsTask,
        ExternalReference::File(_) => ExternalReferenceVariant::File,
    }
}

/// The record head that names a variant of [`ExternalReference`].
pub open spec fn external_reference_head(variant: ExternalReferenceVariant) -> Seq<char> {
    match variant {
        ExternalReferenceVariant::Report => "Report"@,
        ExternalReferenceVariant::GitCommit => "GitCommit"@,
        ExternalReferenceVariant::BeadsTask => "BeadsTask"@,
        ExternalReferenceVariant::File => "File"@,
    }
}

/// The variant of [`ExternalReference`] that a record head names, if any.
pub open spec fn external_reference_variant_of_head(head: Seq<char>) -> Option<ExternalReferenceVariant> {
    if head == external_reference_head(ExternalReferenceVariant::Report) {
        Some(ExternalReferenceVariant::Report)
    } else if head == external_reference_head(ExternalReferenceVariant::GitCommit) {
        Some(ExternalReferenceVariant::GitCommit)
    } else if head == external_reference_head(ExternalReferenceVariant::BeadsTask) {
        Some(ExternalReferenceVariant::BeadsTask)
    } else if head == external_reference_head(ExternalReferenceVariant::File) {
        Some(ExternalReferenceVariant::File)
    } else {
        None
    }
}

/// Reading back the head of a variant of [`ExternalReference`] selects that variant again.
pub proof fn lemma_external_reference_head_round_trip(variant: ExternalReferenceVariant)
    ensures
        external_reference_variant_of_head(external_reference_head(variant)) == Some(variant),
        forall|head: Seq<char>| external_reference_variant_of_head(head) == Some(variant) ==> head == external_reference_head(variant),
{
    broadcast use vstd::string::group_string_axioms;

    reveal_strlit("Report");
    reveal_strlit("GitCommit");
    reveal_strlit("BeadsTask");
    reveal_strlit("File");
    assert(external_reference_head(ExternalReferenceVariant::Report).len() == 6 && external_reference_head(ExternalReferenceVariant::Report)[0] == 'R' && external_reference_head(ExternalReferenceVariant::Report)[5] == 't');
    assert(external_reference_head(ExternalReferenceVariant::GitCommit).len() == 9 && external_reference_head(ExternalReferenceVariant::GitCommit)[0] == 'G' && external_reference_head(ExternalReferenceVariant::GitCommit)[8] == 't');
    assert(external_reference_head(ExternalReferenceVariant::BeadsTask).len() == 9 && external_reference_head(ExternalReferenceVariant::BeadsTask)[0] == 'B' && external_reference_head(ExternalReferenceVariant::BeadsTask)[8] == 'k');
    assert(external_reference_head(ExternalReferenceVariant::File).len() == 4 && external_reference_head(ExternalReferenceVariant::File)[0] == 'F' && external_reference_head(ExternalReferenceVariant::File)[3] == 'e');
}

/// Every variant of [`ExternalReference`] travels under its own name: a value built
/// with a constructor has the variant of that name, its record head is the
/// constructor's name spelled exactly, and that name reads back as the same
/// variant.
pub proof fn lemma_external_reference_heads_are_names(variant: ExternalReferenceVariant, value: ExternalReference)
    ensures
        variant is Report ==> external_reference_head(variant) == "Report"@ && external_reference_variant_of_head("Report"@) == Some(variant),
        variant is GitCommit ==> external_reference_head(variant) == "GitCommit"@ && external_reference_variant_of_head("GitCommit"@) == Some(variant),
        variant is BeadsTask ==> external_reference_head(variant) == "BeadsTask"@ && external_reference_variant_of_head("BeadsTask"@) == Some(variant),
        variant is File ==> external_reference_head(variant) == "File"@ && external_reference_variant_of_head("File"@) == Some(variant),
        value is Report ==> external_reference_variant(value) == ExternalReferenceVariant::Report && external_reference_head(external_reference_variant(value)) == "Report"@,
        value is GitCommit ==> external_reference_variant(value) == ExternalReferenceVariant::GitCommit && external_reference_head(external_reference_variant(value)) == "GitCommit"@,
        value is BeadsTask ==> external_reference_variant(value) == ExternalReferenceVariant::BeadsTask && external_reference_head(external_reference_variant(value)) == "BeadsTask"@,
        value is File ==> external_reference_variant(value) == ExternalReferenceVariant::File && external_reference_head(external_reference_variant(value)) == "File"@,
{
    lemma_external_reference_head_round_trip(variant);
}

impl ExternalReference {
    /// The variant of this value.
    pub fn variant(&self) -> (variant: ExternalReferenceVariant)
        ensures
            variant == external_reference_variant(*self),
    {
        match self {
            ExternalReference::Report(_) => ExternalReferenceVariant::Report,
            ExternalReference::GitCommit(_) => ExternalReferenceVariant::GitCommit,
            ExternalReference::BeadsTask(_) => ExternalReferenceVariant::BeadsTask,
            ExternalReference::File(_) => ExternalReferenceVariant::File,
        }
    }

    /// The record head under which this value travels.
    pub fn record_head(&self) -> (head: &'static str)
        ensures
            head@ == external_reference_head(external_reference_variant(*self)),
    {
        self.variant().record_head()
    }
}

impl ExternalReferenceVariant {
    /// The record head that names this variant.
    pub fn record_head(self) -> (head: &'static str)
        ensures
            head@ == external_reference_head(self),
    {
        match self {
            ExternalReferenceVariant::Report => "Report",
            ExternalReferenceVariant::GitCommit => "GitCommit",
            ExternalReferenceVariant::BeadsTask => "BeadsTask",
            ExternalReferenceVariant::File => "File",
        }
    }

    /// The variant that a record head names, or `None` for a head foreign
    /// to [`ExternalReference`].
    pub fn from_record_head(head: &str) -> (variant: Option<ExternalReferenceVariant>)
        ensures
            variant == external_reference_variant_of_head(head@),
    {
        let given = String::from_str(head);
        if head_is(&given, ExternalReferenceVariant::Report.record_head()) {
            Some(ExternalReferenceVariant::Report)
        } else if head_is(&given, ExternalReferenceVariant::GitCommit.record_head()) {
            Some(ExternalReferenceVariant::GitCommit)
        } else if head_is(&given, ExternalReferenceVariant::BeadsTask.record_head()) {
            Some(ExternalReferenceVariant::BeadsTask)
        } else if head_is(&given, ExternalReferenceVariant::File.record_head()) {
            Some(ExternalReferenceVariant::File)
        } else {
            None
        }
    }
}

/// The variants of [`LinkTarget`], as named by record heads.
#[derive(Debug, Clone, Copy, PartialEq, Eq, Hash, Structural)]
pub enum LinkTargetVariant {
    Item,
    External,
}

/// The variant of a [`LinkTarget`].
pub open spec fn link_target_variant(value: LinkTarget) -> LinkTargetVariant {
    match value {
        LinkTarget::Item(_) => LinkTargetVariant::Item,
        LinkTarget::External(_) => LinkTargetVariant::External,
    }
}

/// The record head that names a variant of [`LinkTarget`].
pub open spec fn link_target_head(variant: LinkTargetVariant) -> Seq<char> {
    match variant {
        LinkTargetVariant::Item => "Item"@,
        LinkTargetVariant::External => "External"@,
    }
}

/// The variant of [`LinkTarget`] that a record head names, if any.
pub open spec fn link_target_variant_of_head(head: Seq<char>) -> Option<LinkTargetVariant> {
    if head == link_target_head(LinkTargetVariant::Item) {
        Some(LinkTargetVariant::Item)
    } else if head == link_target_head(LinkTargetVariant::External) {
        Some(LinkTargetVariant::External)
    } else {
        None
    }
}

/// Reading back the head of a variant of [`LinkTarget`] selects that variant again.
pub proof fn lemma_link_target_head_round_trip(variant: LinkTargetVariant)
    ensures
        link_target_variant_of_head(link_target_head(variant)) == Some(variant),
        forall|head: Seq<char>| link_target_variant_of_head(head) == Some(variant) ==> head == link_target_head(variant),
{
    broadcast use vstd::string::group_string_axioms;

    reveal_strlit("Item");
    reveal_strlit("External");
    assert(link_target_head(LinkTargetVariant::Item).len() == 4 && link_target_head(LinkTargetVariant::Item)[0] == 'I' && link_target_head(LinkTargetVariant::Item)[3] == 'm');
    assert(link_target_head(LinkTargetVariant::External).len() == 8 && link_target_head(LinkTargetVariant::External)[0] == 'E' && link_target_head(LinkTargetVariant::External)[7] == 'l');
}

/// Every variant of [`LinkTarget`] travels under its own name: a value built
/// with a constructor has the variant of that name, its record head is the
/// constructor's name spelled exactly, and that name reads back as the same
/// variant.
pub proof fn lemma_link_target_heads_are_names(variant: LinkTargetVariant, value: LinkTarget)
    ensures
        variant is Item ==> link_target_head(variant) == "Item"@ && link_target_variant_of_head("Item"@) == Some(variant),
        variant is External ==> link_target_head(variant) == "External"@ && link_target_variant_of_head("External"@) == Some(variant),
        value is Item ==> link_target_variant(value) == LinkTargetVariant::Item && link_target_head(link_target_variant(value)) == "Item"@,
        value is External ==> link_target_variant(value) == LinkTargetVariant::External && link_target_head(link_target_variant(value)) == "External"@,
{
    lemma_link_target_head_round_trip(variant);
}

impl LinkTarget {
    /// The variant of this value.
    pub fn variant(&self) -> (variant: LinkTargetVariant)
        ensures
            variant == link_target_variant(*self),
    {
        match self {
            LinkTarget::Item(_) => LinkTargetVariant::Item,
            LinkTarget::External(_) => LinkTargetVariant::External,
        }
    }

    /// The record head under which this value travels.
    pub fn record_head(&self) -> (head: &'static str)
        ensures
            head@ == link_target_head(link_target_variant(*self)),
    {
        self.variant().record_head()
    }
}

impl LinkTargetVariant {
    /// The record head that names this variant.
    pub fn record_head(self) -> (head: &'static str)
        ensures
            head@ == link_target_head(self),
    {
        match self {
            LinkTargetVariant::Item => "Item",
            LinkTargetVariant::External => "External",
        }
    }

    /// The variant that a record head names, or `None` for a head foreign
    /// to [`LinkTarget`].
    pub fn from_record_head(head: &str) -> (variant: Option<LinkTargetVariant>)
        ensures
            variant == link_target_variant_of_head(head@),
    {
        let given = String::from_str(head);
        if head_is(&given, LinkTargetVariant::Item.record_head()) {
            Some(LinkTargetVariant::Item)
        } else if head_is(&given, LinkTargetVariant::External.record_head()) {
            Some(LinkTargetVariant::External)
        } else {
            None
        }
    }
}

/// The variants of [`EdgeTarget`], as named by record heads.
#[derive(Debug, Clone, Copy, PartialEq, Eq, Hash, Structural)]
pub enum EdgeTargetVariant {
    Item,
    External,
}

/// The variant of a [`EdgeTarget`].
pub open spec fn edge_target_variant(value: EdgeTarget) -> EdgeTargetVariant {
    match value {
        EdgeTarget::Item(_) => EdgeTargetVariant::Item,
        EdgeTarget::External(_) => EdgeTargetVariant::External,
    }
}

/// The record head that names a variant of [`EdgeTarget`].
pub open spec fn edge_target_head(variant: EdgeTargetVariant) -> Seq<char> {
    match variant {
        EdgeTargetVariant::Item => "Item"@,
        EdgeTargetVariant::External => "External"@,
    }
}

/// The variant of [`EdgeTarget`] that a record head names, if any.
pub open spec fn edge_target_variant_of_head(head: Seq<char>) -> Option<EdgeTargetVariant> {
    if head == edge_target_head(EdgeTargetVariant::Item) {
        Some(EdgeTargetVariant::Item)
    } else if head == edge_target_head(EdgeTargetVariant::External) {
        Some(EdgeTargetVariant::External)
    } else {
        None
    }
}

/// Reading back the head of a variant of [`EdgeTarget`] selects that variant again.
pub proof fn lemma_edge_target_head_round_trip(variant: EdgeTargetVariant)
    ensures
        edge_target_variant_of_head(edge_target_head(variant)) == Some(variant),
        forall|head: Seq<char>| edge_target_variant_of_head(head) == Some(variant) ==> head == edge_target_head(variant),
{
    broadcast use vstd::string::group_string_axioms;

    reveal_strlit("Item");
    reveal_strlit("External");
    assert(edge_target_head(EdgeTargetVariant::Item).len() == 4 && edge_target_head(EdgeTargetVariant::Item)[0] == 'I' && edge_target_head(EdgeTargetVariant::Item)[3] == 'm');
    assert(edge_target_head(EdgeTargetVariant::External).len() == 8 && edge_target_head(EdgeTargetVariant::External)[0] == 'E' && edge_target_head(EdgeTargetVariant::External)[7] == 'l');
}

/// Every variant of [`EdgeTarget`] travels under its own name: a value built
/// with a constructor has the variant of that name, its record head is the
/// constructor's name spelled exactly, and that name reads back as the same
/// variant.
pub proof fn lemma_edge_target_heads_are_names(variant: EdgeTargetVariant, value: EdgeTarget)
    ensures
        variant is Item ==> edge_target_head(variant) == "Item"@ && edge_target_variant_of_head("Item"@) == Some(variant),
        variant is External ==> edge_target_head(variant) == "External"@ && edge_target_variant_of_head("External"@) == Some(variant),
        value is Item ==> edge_target_variant(value) == EdgeTargetVariant::Item && edge_target_head(edge_target_variant(value)) == "Item"@,
        value is External ==> edge_target_variant(value) == EdgeTargetVariant::External && edge_target_head(edge_target_variant(value)) == "External"@,
{
    lemma_edge_target_head_round_trip(variant);
}

impl EdgeTarget {
    /// The variant of this value.
    pub fn variant(&self) -> (variant: EdgeTargetVariant)
        ensures
            variant == edge_target_variant(*self),
    {
        match self {
            EdgeTarget::Item(_) => EdgeTargetVariant::Item,
            EdgeTarget::External(_) => EdgeTargetVariant::External,
        }
    }

    /// The record head under which this value travels.
    pub fn record_head(&self) -> (head: &'static str)
        ensures
            head@ == edge_target_head(edge_target_variant(*self)),
    {
        self.variant().record_head()
    }
}

impl EdgeTargetVariant {
    /// The record head that names this variant.
    pub fn record_head(self) -> (head: &'static str)
        ensures
            head@ == edge_target_head(self),
    {
        match self {
            EdgeTargetVariant::Item => "Item",
            EdgeTargetVariant::External => "External",
        }
    }

    /// The variant that a record head names, or `None` for a head foreign
    /// to [`EdgeTarget`].
    pub fn from_record_head(head: &str) -> (variant: Option<EdgeTargetVariant>)
        ensures
            variant == edge_target_variant_of_head(head@),
    {
        let given = String::from_str(head);
        if head_is(&given, EdgeTargetVariant::Item.record_head()) {
            Some(EdgeTargetVariant::Item)
        } else if head_is(&given, EdgeTargetVariant::External.record_head()) {
            Some(EdgeTargetVariant::External)
        } else {
            None
        }
    }
}

/// The variants of [`QueryKind`], as named by record heads.
#[derive(Debug, Clone, Copy, PartialEq, Eq, Hash, Structural)]
pub enum QueryKindVariant {
    Ready,
    Blocked,
    Open,
    RecentEvents,
    ByItem,
    ByKind,
    ByStatus,
    ByAlias,
}

/// The variant of a [`QueryKind`].
pub open spec fn query_kind_variant(value: QueryKind) -> QueryKindVariant {
    match value {
        QueryKind::Ready => QueryKindVariant::Ready,
        QueryKind::Blocked => QueryKindVariant::Blocked,
        QueryKind::Open => QueryKindVariant::Open,
        QueryKind::RecentEvents => QueryKindVariant::RecentEvents,
        QueryKind::ByItem(_) => QueryKindVariant::ByItem,
        QueryKind::ByKind(_) => QueryKindVariant::ByKind,
        QueryKind::ByStatus(_) => QueryKindVariant::ByStatus,
        QueryKind::ByAlias(_) => QueryKindVariant::ByAlias,
    }
}

/// The record head that names a variant of [`QueryKind`].
pub open spec fn query_kind_head(variant: QueryKindVariant) -> Seq<char> {
    match variant {
        QueryKindVariant::Ready => "Ready"@,
        QueryKindVariant::Blocked => "Blocked"@,
        QueryKindVariant::Open => "Open"@,
        QueryKindVariant::RecentEvents => "RecentEvents"@,
        QueryKindVariant::ByItem => "ByItem"@,
        QueryKindVariant::ByKind => "ByKind"@,
        QueryKindVariant::ByStatus => "ByStatus"@,
        QueryKindVariant::ByAlias => "ByAlias"@,
    }
}

/// The variant of [`QueryKind`] that a record head names, if any.
pub open spec fn query_kind_variant_of_head(head: Seq<char>) -> Option<QueryKindVariant> {
    if head == query_kind_head(QueryKindVariant::Ready) {
        Some(QueryKindVariant::Ready)
    } else if head == query_kind_head(QueryKindVariant::Blocked) {
        Some(QueryKindVariant::Blocked)
    } else if head == query_kind_head(QueryKindVariant::Open) {
        Some(QueryKindVariant::Open)
    } else if head == query_kind_head(QueryKindVariant::RecentEvents) {
        Some(QueryKindVariant::RecentEvents)
    } else if head == query_kind_head(QueryKindVariant::ByItem) {
        Some(QueryKindVariant::ByItem)
    } else if head == query_kind_head(QueryKindVariant::ByKind) {
        Some(QueryKindVariant::ByKind)
    } else if head == query_kind_head(QueryKindVariant::ByStatus) {
        Some(QueryKindVariant::ByStatus)
    } else if head == query_kind_head(QueryKindVariant::ByAlias) {
        Some(QueryKindVariant::ByAlias)
    } else {
        None
    }
}

/// Reading back the head of a variant of [`QueryKind`] selects that variant again.
pub proof fn lemma_query_kind_head_round_trip(variant: QueryKindVariant)
    ensures
        query_kind_variant_of_head(query_kind_head(variant)) == Some(variant),
        forall|head: Seq<char>| query_kind_variant_of_head(head) == Some(variant) ==> head == query_kind_head(variant),
{
    broadcast use vstd::string::group_string_axioms;

    reveal_strlit("Ready");
    reveal_strlit("Blocked");
    reveal_strlit("Open");
    reveal_strlit("RecentEvents");
    reveal_strlit("ByItem");
    reveal_strlit("ByKind");
    reveal_strlit("ByStatus");
    reveal_strlit("ByAlias");
    assert(query_kind_head(QueryKindVariant::Ready).len() == 5 && query_kind_head(QueryKindVariant::Ready)[0] == 'R' && query_kind_head(QueryKindVariant::Ready)[4] == 'y');
    assert(query_kind_head(QueryKindVariant::Blocked).len() == 7 && query_kind_head(QueryKindVariant::Blocked)[0] == 'B' && query_kind_head(QueryKindVariant::Blocked)[6] == 'd');
    assert(query_kind_head(QueryKindVariant::Open).len() == 4 && query_kind_head(QueryKindVariant::Open)[0] == 'O' && query_kind_head(QueryKindVariant::Open)[3] == 'n');
    assert(query_kind_head(QueryKindVariant::RecentEvents).len() == 12 && query_kind_head(QueryKindVariant::RecentEvents)[0] == 'R' && query_kind_head(QueryKindVariant::RecentEvents)[11] == 's');
    assert(query_kind_head(QueryKindVariant::ByItem).len() == 6 && query_kind_head(QueryKindVariant::ByItem)[0] == 'B' && query_kind_head(QueryKindVariant::ByItem)[5] == 'm');
    assert(query_kind_head(QueryKindVariant::ByKind).len() == 6 && query_kind_head(QueryKindVariant::ByKind)[0] == 'B' && query_kind_head(QueryKindVariant::ByKind)[5] == 'd');
    assert(query_kind_head(QueryKindVariant::ByStatus).len() == 8 && query_kind_head(QueryKindVariant::ByStatus)[0] == 'B' && query_kind_head(QueryKindVariant::ByStatus)[7] == 's');
    assert(query_kind_head(QueryKindVariant::ByAlias).len() == 7 && query_kind_head(QueryKindVariant::ByAlias)[0] == 'B' && query_kind_head(QueryKindVariant::ByAlias)[6] == 's');
}

/// Every variant of [`QueryKind`] travels under its own name: a value built
/// with a constructor has the variant of that name, its record head is the
/// constructor's name spelled exactly, and that name reads back as the same
/// variant.
pub proof fn lemma_query_kind_heads_are_names(variant: QueryKindVariant, value: QueryKind)
    ensures
        variant is Ready ==> query_kind_head(variant) == "Ready"@ && query_kind_variant_of_head("Ready"@) == Some(variant),
        variant is Blocked ==> query_kind_head(variant) == "Blocked"@ && query_kind_variant_of_head("Blocked"@) == Some(variant),
        variant is Open ==> query_kind_head(variant) == "Open"@ && query_kind_variant_of_head("Open"@) == Some(variant),
        variant is RecentEvents ==> query_kind_head(variant) == "RecentEvents"@ && query_kind_variant_of_head("RecentEvents"@) == Some(variant),
        variant is ByItem ==> query_kind_head(variant) == "ByItem"@ && query_kind_variant_of_head("ByItem"@) == Some(variant),
        variant is ByKind ==> query_kind_head(variant) == "ByKind"@ && query_kind_variant_of_head("ByKind"@) == Some(variant),
        variant is ByStatus ==> query_kind_head(variant) == "ByStatus"@ && query_kind_variant_of_head("ByStatus"@) == Some(variant),
        variant is ByAlias ==> query_kind_head(variant) == "ByAlias"@ && query_kind_variant_of_head("ByAlias"@) == Some(variant),
        value is Ready ==> query_kind_variant(value) == QueryKindVariant::Ready && query_kind_head(query_kind_variant(value)) == "Ready"@,
        value is Blocked ==> query_kind_variant(value) == QueryKindVariant::Blocked && query_kind_head(query_kind_variant(value)) == "Blocked"@,
        value is Open ==> query_kind_variant(value) == QueryKindVariant::Open && query_kind_head(query_kind_variant(value)) == "Open"@,
        value is RecentEvents ==> query_kind_variant(value) == QueryKindVariant::RecentEvents && query_kind_head(query_kind_variant(value)) == "RecentEvents"@,
        value is ByItem ==> query_kind_variant(value) == QueryKindVariant::ByItem && query_kind_head(query_kind_variant(value)) == "ByItem"@,
        value is ByKind ==> query_kind_variant(value) == QueryKindVariant::ByKind && query_kind_head(query_kind_variant(value)) == "ByKind"@,
        value is ByStatus ==> query_kind_variant(value) == QueryKindVariant::ByStatus && query_kind_head(query_kind_variant(value)) == "ByStatus"@,
        value is ByAlias ==> query_kind_variant(value) == QueryKindVariant::ByAlias && query_kind_head(query_kind_variant(value)) == "ByAlias"@,
{
    lemma_query_kind_head_round_trip(variant);
}

impl QueryKind {
    /// The variant of this value.
    pub fn variant(&self) -> (variant: QueryKindVariant)
        ensures
            variant == query_kind_variant(*self),
    {
        match self {
            QueryKind::Ready => QueryKindVariant::Ready,
            QueryKind::Blocked => QueryKindVariant::Blocked,
            QueryKind::Open => QueryKindVariant::Open,
            QueryKind::RecentEvents => QueryKindVariant::RecentEvents,
            QueryKind::ByItem(_) => QueryKindVariant::ByItem,
            QueryKind::ByKind(_) => QueryKindVariant::ByKind,
            QueryKind::ByStatus(_) => QueryKindVariant::ByStatus,
            QueryKind::ByAlias(_) => QueryKindVariant::ByAlias,
        }
    }

    /// The record head under which this value travels.
    pub fn record_head(&self) -> (head: &'static str)
        ensures
            head@ == query_kind_head(query_kind_variant(*self)),
    {
        self.variant().record_head()
    }
}

impl QueryKindVariant {
    /// The record head that names this variant.
    pub fn record_head(self) -> (head: &'static str)
        ensures
            head@ == query_kind_head(self),
    {
        match self {
            QueryKindVariant::Ready => "Ready",
            QueryKindVariant::Blocked => "Blocked",
            QueryKindVariant::Open => "Open",
            QueryKindVariant::RecentEvents => "RecentEvents",
            QueryKindVariant::ByItem => "ByItem",
            QueryKindVariant::ByKind => "ByKind",
            QueryKindVariant::ByStatus => "ByStatus",
            QueryKindVariant::ByAlias => "ByAlias",
        }
    }

    /// The variant that a record head names, or `None` for a head foreign
    /// to [`QueryKind`].
    pub fn from_record_head(head: &str) -> (variant: Option<QueryKindVariant>)
        ensures
            variant == query_kind_variant_of_head(head@),
    {
        let given = String::from_str(head);
        if head_is(&given, QueryKindVariant::Ready.record_head()) {
            Some(QueryKindVariant::Ready)
        } else if head_is(&given, QueryKindVariant::Blocked.record_head()) {
            Some(QueryKindVariant::Blocked)
        } else if head_is(&given, QueryKindVariant::Open.record_head()) {
            Some(QueryKindVariant::Open)
        } else if head_is(&given, QueryKindVariant::RecentEvents.record_head()) {
            Some(QueryKindVariant::RecentEvents)
        } else if head_is(&given, QueryKindVariant::ByItem.record_head()) {
            Some(QueryKindVariant::ByItem)
        } else if head_is(&given, QueryKindVariant::ByKind.record_head()) {
            Some(QueryKindVariant::ByKind)
        } else if head_is(&given, QueryKindVariant::ByStatus.record_head()) {
            Some(QueryKindVariant::ByStatus)
        } else if head_is(&given, QueryKindVariant::ByAlias.record_head()) {
            Some(QueryKindVariant::ByAlias)
        } else {
            None
        }
    }
}

/// The variants of [`ChannelDuration`], as named by record heads.
#[derive(Debug, Clone, Copy, PartialEq, Eq, Hash, Structural)]
pub enum ChannelDurationVariant {
    OneShot,
    Permanent,
    TimeBound,
}

/// The variant of a [`ChannelDuration`].
pub open spec fn channel_duration_variant(value: ChannelDuration) -> ChannelDurationVariant {
    match value {
        ChannelDuration::OneShot => ChannelDurationVariant::OneShot,
        ChannelDuration::Permanent => ChannelDurationVariant::Permanent,
        ChannelDuration::TimeBound(_) => ChannelDurationVariant::TimeBound,
    }
}

/// The record head that names a variant of [`ChannelDuration`].
pub open spec fn channel_duration_head(variant: ChannelDurationVariant) -> Seq<char> {
    match variant {
        ChannelDurationVariant::OneShot => "OneShot"@,
        ChannelDurationVariant::Permanent => "Permanent"@,
        ChannelDurationVariant::TimeBound => "TimeBound"@,
    }
}

/// The variant of [`ChannelDuration`] that a record head names, if any.
pub open spec fn channel_duration_variant_of_head(head: Seq<char>) -> Option<ChannelDurationVariant> {
    if head == channel_duration_head(ChannelDurationVariant::OneShot) {
        Some(ChannelDurationVariant::OneShot)
    } else if head == channel_duration_head(ChannelDurationVariant::Permanent) {
        Some(ChannelDurationVariant::Permanent)
    } else if head == channel_duration_head(ChannelDurationVariant::TimeBound) {
        Some(ChannelDurationVariant::TimeBound)
    } else {
        None
    }
}

/// Reading back the head of a variant of [`ChannelDuration`] selects that variant again.
pub proof fn lemma_channel_duration_head_round_trip(variant: ChannelDurationVariant)
    ensures
        channel_duration_variant_of_head(channel_duration_head(variant)) == Some(variant),
        forall|head: Seq<char>| channel_duration_variant_of_head(head) == Some(variant) ==> head == channel_duration_head(variant),
{
    broadcast use vstd::string::group_string_axioms;

    reveal_strlit("OneShot");
    reveal_strlit("Permanent");
    reveal_strlit("TimeBound");
    assert(channel_duration_head(ChannelDurationVariant::OneShot).len() == 7 && channel_duration_head(ChannelDurationVariant::OneShot)[0] == 'O' && channel_duration_head(ChannelDurationVariant::OneShot)[6] == 't');
    assert(channel_duration_head(ChannelDurationVariant::Permanent).len() == 9 && channel_duration_head(ChannelDurationVariant::Permanent)[0] == 'P' && channel_duration_head(ChannelDurationVariant::Permanent)[8] == 't');
    assert(channel_duration_head(ChannelDurationVariant::TimeBound).len() == 9 && channel_duration_head(ChannelDurationVariant::TimeBound)[0] == 'T' && channel_duration_head(ChannelDurationVariant::TimeBound)[8] == 'd');
}

/// Every variant of [`ChannelDuration`] travels under its own name: a value built
/// with a constructor has the variant of that name, its record head is the
/// constructor's name spelled exactly, and that name reads back as the same
/// variant.
pub proof fn lemma_channel_duration_heads_are_names(variant: ChannelDurationVariant, value: ChannelDuration)
    ensures
        variant is OneShot ==> channel_duration_head(variant) == "OneShot"@ && channel_duration_variant_of_head("OneShot"@) == Some(variant),
        variant is Permanent ==> channel_duration_head(variant) == "Permanent"@ && channel_duration_variant_of_head("Permanent"@) == Some(variant),
        variant is TimeBound ==> channel_duration_head(variant) == "TimeBound"@ && channel_duration_variant_of_head("TimeBound"@) == Some(variant),
        value is OneShot ==> channel_duration_variant(value) == ChannelDurationVariant::OneShot && channel_duration_head(channel_duration_variant(value)) == "OneShot"@,
        value is Permanent ==> channel_duration_variant(value) == ChannelDurationVariant::Permanent && channel_duration_head(channel_duration_variant(value)) == "Permanent"@,
        value is TimeBound ==> channel_duration_variant(value) == ChannelDurationVariant::TimeBound && channel_duration_head(channel_duration_variant(value)) == "TimeBound"@,
{
    lemma_channel_duration_head_round_trip(variant);
}

impl ChannelDuration {
    /// The variant of this value.
    pub fn variant(&self) -> (variant: ChannelDurationVariant)
        ensures
            variant == channel_duration_variant(*self),
    {
        match self {
            ChannelDuration::OneShot => ChannelDurationVariant::OneShot,
            ChannelDuration::Permanent => ChannelDurationVariant::Permanent,
            ChannelDuration::TimeBound(_) => ChannelDurationVariant::TimeBound,
        }
    }

    /// The record head under which this value travels.
    pub fn record_head(&self) -> (head: &'static str)
        ensures
            head@ == channel_duration_head(channel_duration_variant(*self)),
    {
        self.variant().record_head()
    }
}

impl ChannelDurationVariant {
    /// The record head that names this variant.
    pub fn record_head(self) -> (head: &'static str)
        ensures
            head@ == channel_duration_head(self),
    {
        match self {
            ChannelDurationVariant::OneShot => "OneShot",
            ChannelDurationVariant::Permanent => "Permanent",
            ChannelDurationVariant::TimeBound => "TimeBound",
        }
    }

    /// The variant that a record head names, or `None` for a head foreign
    /// to [`ChannelDuration`].
    pub fn from_record_head(head: &str) -> (variant: Option<ChannelDurationVariant>)
        ensures
            variant == channel_duration_variant_of_head(head@),
    {
        let given = String::from_str(head);
        if head_is(&given, ChannelDurationVariant::OneShot.record_head()) {
            Some(ChannelDurationVariant::OneShot)
        } else if head_is(&given, ChannelDurationVariant::Permanent.record_head()) {
            Some(ChannelDurationVariant::Permanent)
        } else if head_is(&given, ChannelDurationVariant::TimeBound.record_head()) {
            Some(ChannelDurationVariant::TimeBound)
        } else {
            None
        }
    }
}

// Channel endpoints and channel filters carry component names and connection
// classes of the authorization vocabulary, which this library does not define;
// only the record heads of their variants are decided here.

/// The variants of a channel endpoint, as named by record heads.
#[derive(Debug, Clone, Copy, PartialEq, Eq, Hash, Structural)]
pub enum ChannelEndpointVariant {
    Internal,
    External,
}

/// The record head that names a variant of a channel endpoint.
pub open spec fn channel_endpoint_head(variant: ChannelEndpointVariant) -> Seq<char> {
    match variant {
        ChannelEndpointVariant::Internal => "Internal"@,
        ChannelEndpointVariant::External => "External"@,
    }
}

/// The variant that a record head names, if any.
pub open spec fn channel_endpoint_variant_of_head(head: Seq<char>) -> Option<ChannelEndpointVariant> {
    if head == channel_endpoint_head(ChannelEndpointVariant::Internal) {
        Some(ChannelEndpointVariant::Internal)
    } else if head == channel_endpoint_head(ChannelEndpointVariant::External) {
        Some(ChannelEndpointVariant::External)
    } else {
        None
    }
}

/// Reading back the head of a variant selects that variant again.
pub proof fn lemma_channel_endpoint_head_round_trip(variant: ChannelEndpointVariant)
    ensures
        channel_endpoint_variant_of_head(channel_endpoint_head(variant)) == Some(variant),
        forall|head: Seq<char>| channel_endpoint_variant_of_head(head) == Some(variant) ==> head == channel_endpoint_head(variant),
{
    broadcast use vstd::string::group_string_axioms;

    reveal_strlit("Internal");
    reveal_strlit("External");
    assert(channel_endpoint_head(ChannelEndpointVariant::Internal).len() == 8 && channel_endpoint_head(ChannelEndpointVariant::Internal)[0] == 'I' && channel_endpoint_head(ChannelEndpointVariant::Internal)[7] == 'l');
    assert(channel_endpoint_head(ChannelEndpointVariant::External).len() == 8 && channel_endpoint_head(ChannelEndpointVariant::External)[0] == 'E' && channel_endpoint_head(ChannelEndpointVariant::External)[7] == 'l');
}

/// Every variant travels under its own name: its record head is the
/// variant's name spelled exactly, and that name reads back as the same
/// variant.
pub proof fn lemma_channel_endpoint_heads_are_names(variant: ChannelEndpointVariant)
    ensures
        variant is Internal ==> channel_endpoint_head(variant) == "Internal"@ && channel_endpoint_variant_of_head("Internal"@) == Some(variant),
        variant is External ==> channel_endpoint_head(variant) == "External"@ && channel_endpoint_variant_of_head("External"@) == Some(variant),
{
    lemma_channel_endpoint_head_round_trip(variant);
}

impl ChannelEndpointVariant {
    /// The record head that names this variant.
    pub fn record_head(self) -> (head: &'static str)
        ensures
            head@ == channel_endpoint_head(self),
    {
        match self {
            ChannelEndpointVariant::Internal => "Internal",
            ChannelEndpointVariant::External => "External",
        }
    }

    /// The variant that a record head names, or `None` for a foreign head.
    pub fn from_record_head(head: &str) -> (variant: Option<ChannelEndpointVariant>)
        ensures
            variant == channel_endpoint_variant_of_head(head@),
    {
        let given = String::from_str(head);
        if head_is(&given, ChannelEndpointVariant::Internal.record_head()) {
            Some(ChannelEndpointVariant::Internal)
        } else if head_is(&given, ChannelEndpointVariant::External.record_head()) {
            Some(ChannelEndpointVariant::External)
        } else {
            None
        }
    }
}

/// The variants of a channel filter, as named by record heads.
#[derive(Debug, Clone, Copy, PartialEq, Eq, Hash, Structural)]
pub enum ChannelFilterVariant {
    Source,
    Destination,
    Kind,
}

/// The record head that names a variant of a channel filter.
pub open spec fn channel_filter_head(variant: ChannelFilterVariant) -> Seq<char> {
    match variant {
        ChannelFilterVariant::Source => "Source"@,
        ChannelFilterVariant::Destination => "Destination"@,
        ChannelFilterVariant::Kind => "Kind"@,
    }
}

/// The variant that a record head names, if any.
pub open spec fn channel_filter_variant_of_head(head: Seq<char>) -> Option<ChannelFilterVariant> {
    if head == channel_filter_head(ChannelFilterVariant::Source) {
        Some(ChannelFilterVariant::Source)
    } else if head == channel_filter_head(ChannelFilterVariant::Destination) {
        Some(ChannelFilterVariant::Destination)
    } else if head == channel_filter_head(ChannelFilterVariant::Kind) {
        Some(ChannelFilterVariant::Kind)
    } else {
        None
    }
}

/// Reading back the head of a variant selects that variant again.
pub proof fn lemma_channel_filter_head_round_trip(variant: ChannelFilterVariant)
    ensures
        channel_filter_variant_of_head(channel_filter_head(variant)) == Some(variant),
        forall|head: Seq<char>| channel_filter_variant_of_head(head) == Some(variant) ==> head == channel_filter_head(variant),
{
    broadcast use vstd::string::group_string_axioms;

    reveal_strlit("Source");
    reveal_strlit("Destination");
    reveal_strlit("Kind");
    assert(channel_filter_head(ChannelFilterVariant::Source).len() == 6 && channel_filter_head(ChannelFilterVariant::Source)[0] == 'S' && channel_filter_head(ChannelFilterVariant::Source)[5] == 'e');
    assert(channel_filter_head(ChannelFilterVariant::Destination).len() == 11 && channel_filter_head(ChannelFilterVariant::Destination)[0] == 'D' && channel_filter_head(ChannelFilterVariant::Destination)[10] == 'n');
    assert(channel_filter_head(ChannelFilterVariant::Kind).len() == 4 && channel_filter_head(ChannelFilterVariant::Kind)[0] == 'K' && channel_filter_head(ChannelFilterVariant::Kind)[3] == 'd');
}

/// Every variant travels under its own name: its record head is the
/// variant's name spelled exactly, and that name reads back as the same
/// variant.
pub proof fn lemma_channel_filter_heads_are_names(variant: ChannelFilterVariant)
    ensures
        variant is Source ==> channel_filter_head(variant) == "Source"@ && channel_filter_variant_of_head("Source"@) == Some(variant),
        variant is Destination ==> channel_filter_head(variant) == "Destination"@ && channel_filter_variant_of_head("Destination"@) == Some(variant),
        variant is Kind ==> channel_filter_head(variant) == "Kind"@ && channel_filter_variant_of_head("Kind"@) == Some(variant),
{
    lemma_channel_filter_head_round_trip(variant);
}

impl ChannelFilterVariant {
    /// The record head that names this variant.
    pub fn record_head(self) -> (head: &'static str)
        ensures
            head@ == channel_filter_head(self),
    {
        match self {
            ChannelFilterVariant::Source => "Source",
            ChannelFilterVariant::Destination => "Destination",
            ChannelFilterVariant::Kind => "Kind",
        }
    }

    /// The variant that a record head names, or `None` for a foreign head.
    pub fn from_record_head(head: &str) -> (variant: Option<ChannelFilterVariant>)
        ensures
            variant == channel_filter_variant_of_head(head@),
    {
        let given = String::from_str(head);
        if head_is(&given, ChannelFilterVariant::Source.record_head()) {
            Some(ChannelFilterVariant::Source)
        } else if head_is(&given, ChannelFilterVariant::Destination.record_head()) {
            Some(ChannelFilterVariant::Destination)
        } else if head_is(&given, ChannelFilterVariant::Kind.record_head()) {
            Some(ChannelFilterVariant::Kind)
        } else {
            None
        }
    }
}

/// Whether `given` spells `head`.
fn head_is(given: &String, head: &str) -> (matches: bool)
    ensures
        matches == (given@ == head@),
{
    *given == String::from_str(head)
}

} // verus!
