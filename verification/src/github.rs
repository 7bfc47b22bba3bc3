//! Turning remote listing data into the library's fork model. The unverified
//! edge fetches and deserializes the listing; the functions here decide which
//! entries become forks and with which fields, and shape the refresh result
//! event.

use vstd::prelude::*;
use vstd::string::*;
use crate::types::{local_path_of, opt_view, EventV, Fork, SyncResult};

verus! {

/// The epoch-seconds reading of a timestamp text, as the date library parses
/// it; `None` when the text is not a valid timestamp.
pub uninterp spec fn rfc3339_secs(s: Seq<char>) -> Option<i64>;

/// Relies on chrono's `DateTime::parse_from_rfc3339` and `timestamp`: the
/// parse result depends on the characters alone, and the timestamp is the
/// parsed instant in seconds since the epoch.
#[verifier::external_body]
pub(crate) fn parse_rfc3339_secs(s: &str) -> (r: Option<i64>)
    ensures
        r == rfc3339_secs(s@),
{
    chrono::DateTime::parse_from_rfc3339(s).ok().map(|dt| dt.timestamp())
}

/// The epoch-seconds reading of an optional timestamp text.
pub open spec fn opt_rfc3339_secs(s: Option<Seq<char>>) -> Option<i64> {
    match s {
        Some(t) => rfc3339_secs(t),
        None => None,
    }
}

fn parse_opt_rfc3339(s: &Option<String>) -> (r: Option<i64>)
    ensures
        r == opt_rfc3339_secs(opt_view(*s)),
{
    match s {
        Some(t) => parse_rfc3339_secs(t.as_str()),
        None => None,
    }
}

/// Builds one fork from a remote listing entry. Archived repositories and
/// repositories without a parent are not forks to reconcile and yield `None`.
/// A missing default-branch reference falls back to `main`; the local path is
/// `tool_home/owner/name`, whose on-disk presence the caller probes and
/// passes in as `is_cloned`.
pub fn fork_from_listing(
    name: String,
    owner_login: String,
    parent: Option<(String, String)>,
    default_branch_ref: Option<String>,
    is_archived: bool,
    description: Option<String>,
    primary_language: Option<String>,
    created_at: Option<String>,
    updated_at: Option<String>,
    tool_home: &str,
    is_cloned: bool,
) -> (r: Option<Fork>)
    ensures
        (r is Some) == (!is_archived && parent is Some),
        r matches Some(f) ==> {
            &&& f.name@ == name@
            &&& f.owner@ == owner_login@
            &&& parent matches Some(p) && f.parent_owner@ == p.0@ && f.parent_name@ == p.1@
            &&& f.default_branch@ == (match default_branch_ref {
                Some(b) => b@,
                None => "main"@,
            })
            &&& f.local_path@ == local_path_of(tool_home@, owner_login@, name@)
            &&& f.is_cloned == is_cloned
            &&& opt_view(f.description) == opt_view(description)
            &&& opt_view(f.primary_language) == opt_view(primary_language)
            &&& f.created_at == opt_rfc3339_secs(opt_view(created_at))
            &&& f.updated_at == opt_rfc3339_secs(opt_view(updated_at))
        },
{
    if is_archived {
        return None;
    }
    let (parent_owner, parent_name) = match parent {
        Some(p) => p,
        None => {
            return None;
        },
    };
    let default_branch = match default_branch_ref {
        Some(b) => b,
        None => "main".to_owned(),
    };
    let mut local_path = tool_home.to_owned();
    local_path.append("/");
    local_path.append(owner_login.as_str());
    local_path.append("/");
    local_path.append(name.as_str());
    let created = parse_opt_rfc3339(&created_at);
    let updated = parse_opt_rfc3339(&updated_at);
    Some(Fork {
        name,
        owner: owner_login,
        parent_owner,
        parent_name,
        default_branch,
        local_path,
        is_cloned,
        description,
        primary_language,
        created_at: created,
        updated_at: updated,
    })
}

/// Shapes the event a finished background refresh sends: the replaced list on
/// success, the failure text otherwise.
pub fn refresh_event(outcome: Result<Vec<Fork>, String>) -> (r: SyncResult)
    ensures
        outcome matches Ok(forks) ==> r@ == (SyncResult::ForksRefreshed(forks))@,
        outcome matches Err(m) ==> r@ == EventV::RefreshFailed(m@),
{
    match outcome {
        Ok(forks) => SyncResult::ForksRefreshed(forks),
        Err(m) => SyncResult::RefreshFailed(m),
    }
}

} // verus!
