//! The audit trail: which requests are recorded, under which subject, and
//! with which record once their status is known.

use crate::auth::jwt::Claims;
use crate::text::{contains, has_substring};
use vstd::prelude::*;
use vstd::string::StringExecFns;

verus! {

/// What is settled about a request before its handler runs.
#[derive(Debug, Clone, PartialEq, Eq)]
pub struct AuditEntry {
    /// The subject of the claims attached at that moment, or `anonymous`.
    pub user_id: String,
    /// Whether the path is a sensitive one. If so, the start of the request
    /// is recorded.
    pub sensitive: bool,
}

/// The record written once the response's status is known.
#[derive(Debug, Clone, Copy, PartialEq, Eq, Structural)]
pub enum AuditRecord {
    /// Nothing is written.
    Silent,
    /// A warning: the request failed with this status.
    Failed { status: u16 },
    /// A note: the sensitive operation completed with this status.
    Completed { status: u16 },
}

/// A path that names a login, a registration or a password.
pub open spec fn is_sensitive(path: Seq<char>) -> bool {
    has_substring(path, "/login"@) || has_substring(path, "/register"@) || has_substring(
        path,
        "/password"@,
    )
}

/// A status of the client-error or the server-error class.
pub open spec fn is_failure(status: u16) -> bool {
    400 <= status < 600
}

/// The subject under which a request is recorded.
pub open spec fn subject_of(claims: Option<&Claims>) -> Seq<char> {
    match claims {
        Some(c) => c.sub@,
        None => "anonymous"@,
    }
}

/// The record for a request once its status is known.
pub open spec fn record_for(sensitive: bool, status: u16) -> AuditRecord {
    if is_failure(status) {
        AuditRecord::Failed { status }
    } else if sensitive {
        AuditRecord::Completed { status }
    } else {
        AuditRecord::Silent
    }
}

/// Whether the path is a sensitive one.
pub fn is_sensitive_path(path: &str) -> (r: bool)
    ensures
        r == is_sensitive(path@),
{
    contains(path, "/login") || contains(path, "/register") || contains(path, "/password")
}

/// Whether the status is of the client-error or the server-error class.
pub fn is_failure_status(status: u16) -> (r: bool)
    ensures
        r == is_failure(status),
{
    400 <= status && status < 600
}

/// Captures, before the handler runs, the subject and whether the request's
/// start is recorded. The subject is that of the claims attached so far.
pub fn audit_begin(path: &str, claims: Option<&Claims>) -> (r: AuditEntry)
    ensures
        r.user_id@ == subject_of(claims),
        r.sensitive == is_sensitive(path@),
{
    let user_id: String = match claims {
        Some(c) => c.sub.clone(),
        None => String::from_str("anonymous"),
    };
    AuditEntry { user_id, sensitive: is_sensitive_path(path) }
}

/// Decides, after the handler has run, what is recorded: a failure is always
/// recorded, a success only on a sensitive path.
pub fn audit_log(entry: &AuditEntry, status: u16) -> (r: AuditRecord)
    ensures
        r == record_for(entry.sensitive, status),
{
    if is_failure_status(status) {
        AuditRecord::Failed { status }
    } else if entry.sensitive {
        AuditRecord::Completed { status }
    } else {
        AuditRecord::Silent
    }
}

/// A failed request is recorded whatever its path, and a request leaves no
/// record exactly when its path is not sensitive and it did not fail.
pub proof fn failures_are_never_silent(sensitive: bool, status: u16)
    ensures
        is_failure(status) ==> record_for(sensitive, status) == (AuditRecord::Failed { status }),
        record_for(sensitive, status) == AuditRecord::Silent <==> !sensitive && !is_failure(status),
{
}

} // verus!
