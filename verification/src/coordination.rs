use vstd::prelude::*;

use crate::numbers::TimestampNanos;
use crate::path::WirePath;
use crate::role::RoleName;
use crate::scope::{ScopeReason, ScopeReference, TaskToken};

verus! {

// ─── Claim ────────────────────────────────────────────────

/// A role asks to claim one or more scopes with a short reason.
#[derive(Debug, Clone, PartialEq, Eq)]
pub struct RoleClaim {
    pub role: RoleName,
    pub scopes: Vec<ScopeReference>,
    pub reason: ScopeReason,
}

#[derive(Debug, Clone, PartialEq, Eq)]
pub struct ClaimAcceptance {
    pub role: RoleName,
    pub scopes: Vec<ScopeReference>,
}

#[derive(Debug, Clone, PartialEq, Eq)]
pub struct ClaimRejection {
    pub role: RoleName,
    pub conflicts: Vec<ScopeConflict>,
}

/// A scope that another role already holds, and why it holds it.
#[derive(Debug, Clone, PartialEq, Eq)]
pub struct ScopeConflict {
    pub scope: ScopeReference,
    pub held_by: RoleName,
    pub held_reason: ScopeReason,
}

// ─── Release ──────────────────────────────────────────────

/// A role releases all of its currently-held scopes.
#[derive(Debug, Clone, Copy, PartialEq, Eq, Structural)]
pub struct RoleRelease {
    pub role: RoleName,
}

#[derive(Debug, Clone, PartialEq, Eq)]
pub struct ReleaseAcknowledgment {
    pub role: RoleName,
    pub released_scopes: Vec<ScopeReference>,
}

// ─── Handoff ──────────────────────────────────────────────

/// One role hands a set of scopes to another role.
#[derive(Debug, Clone, PartialEq, Eq)]
pub struct RoleHandoff {
    pub from: RoleName,
    pub to: RoleName,
    pub scopes: Vec<ScopeReference>,
    pub reason: ScopeReason,
}

#[derive(Debug, Clone, PartialEq, Eq)]
pub struct HandoffAcceptance {
    pub from: RoleName,
    pub to: RoleName,
    pub scopes: Vec<ScopeReference>,
}

#[derive(Debug, Clone, PartialEq, Eq)]
pub struct HandoffRejection {
    pub from: RoleName,
    pub to: RoleName,
    pub reason: HandoffRejectionReason,
}

#[derive(Debug, Clone, PartialEq, Eq)]
pub enum HandoffRejectionReason {
    /// The `from` role does not hold the named scopes.
    SourceRoleDoesNotHold,
    /// Claims of the `to` role conflict with the scopes handed over.
    TargetRoleConflict(Vec<ScopeConflict>),
}

// ─── Observation ──────────────────────────────────────────

/// Asks for every role's active claims and the most recent activity.
#[derive(Debug, Clone, Copy, PartialEq, Eq, Structural)]
pub struct RoleObservation;

#[derive(Debug, Clone, PartialEq, Eq)]
pub struct RoleSnapshot {
    pub roles: Vec<RoleStatus>,
    pub recent_activity: Vec<Activity>,
}

#[derive(Debug, Clone, PartialEq, Eq)]
pub struct RoleStatus {
    pub role: RoleName,
    pub claims: Vec<ClaimEntry>,
}

#[derive(Debug, Clone, PartialEq, Eq)]
pub struct ClaimEntry {
    pub scope: ScopeReference,
    pub reason: ScopeReason,
}

// ─── Activity log ─────────────────────────────────────────

/// One activity record: who touched what and why, stamped by the store.
#[derive(Debug, Clone, PartialEq, Eq)]
pub struct Activity {
    pub role: RoleName,
    pub scope: ScopeReference,
    pub reason: ScopeReason,
    pub stamped_at: TimestampNanos,
}

/// A new activity record; the store assigns the time on commit.
#[derive(Debug, Clone, PartialEq, Eq)]
pub struct ActivitySubmission {
    pub role: RoleName,
    pub scope: ScopeReference,
    pub reason: ScopeReason,
}

#[derive(Debug, Clone, Copy, PartialEq, Eq, Structural)]
pub struct ActivityAcknowledgment {
    /// The slot the record was assigned.
    pub slot: u64,
}

/// Reads the activity log: at most `limit` records, narrowed by the filters
/// (none means all).
#[derive(Debug, Clone, PartialEq, Eq)]
pub struct ActivityQuery {
    pub limit: u32,
    pub filters: Vec<ActivityFilter>,
}

#[derive(Debug, Clone, PartialEq, Eq)]
pub enum ActivityFilter {
    /// Only entries from this role.
    RoleFilter(RoleName),
    /// Only entries whose scope is a path under this prefix.
    PathPrefix(WirePath),
    /// Only entries whose scope is `Task` with this very token.
    TaskToken(TaskToken),
}

#[derive(Debug, Clone, PartialEq, Eq)]
pub struct ActivityList {
    /// Most recent first.
    pub records: Vec<Activity>,
}

} // verus!
