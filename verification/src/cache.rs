//! The decisions around the persisted metadata cache: row keys, staleness,
//! and turning a stored row back into a fork. The unverified edge owns the
//! database itself and hands rows over as plain values.

use vstd::prelude::*;
use vstd::string::*;
use crate::github::opt_rfc3339_secs;
use crate::types::{local_path_of, opt_view, Fork};

verus! {

/// How many seconds a full refresh stays fresh: twenty-four hours.
pub const FRESH_WINDOW_SECS: i64 = 86400;

/// The cache row key for a fork: `owner/name`.
pub open spec fn cache_id_of(owner: Seq<char>, name: Seq<char>) -> Seq<char> {
    owner + "/"@ + name
}

/// Builds the cache row key for a fork.
pub fn fork_cache_id(owner: &str, name: &str) -> (r: String)
    ensures
        r@ == cache_id_of(owner@, name@),
{
    let mut id = owner.to_owned();
    id.append("/");
    id.append(name);
    id
}

/// Whether the cache is fresh: a full sync happened, and less than a day
/// before `now` (both in epoch seconds).
pub open spec fn fresh_at(last_full_sync: Option<i64>, now: i64) -> bool {
    match last_full_sync {
        Some(t) => now - t < FRESH_WINDOW_SECS,
        None => false,
    }
}

/// Decides cache freshness from the stored last-full-sync time and the
/// current time.
pub fn cache_is_fresh(last_full_sync: Option<i64>, now: i64) -> (r: bool)
    ensures
        r == fresh_at(last_full_sync, now),
{
    match last_full_sync {
        Some(t) => (now as i128) - (t as i128) < (FRESH_WINDOW_SECS as i128),
        None => false,
    }
}

fn parse_opt_stamp(s: &Option<String>) -> (r: Option<i64>)
    ensures
        r == opt_rfc3339_secs(opt_view(*s)),
{
    match s {
        Some(t) => crate::github::parse_rfc3339_secs(t.as_str()),
        None => None,
    }
}

/// Rebuilds one fork from a cache row. The local path is
/// `tool_home/owner/name`; its on-disk presence is probed by the caller at
/// load time and passed in as `is_cloned`.
pub fn fork_from_cache_row(
    name: String,
    owner: String,
    parent_owner: String,
    parent_name: String,
    default_branch: String,
    description: Option<String>,
    primary_language: Option<String>,
    created_at: Option<String>,
    updated_at: Option<String>,
    tool_home: &str,
    is_cloned: bool,
) -> (f: Fork)
    ensures
        f.name@ == name@,
        f.owner@ == owner@,
        f.parent_owner@ == parent_owner@,
        f.parent_name@ == parent_name@,
        f.default_branch@ == default_branch@,
        f.local_path@ == local_path_of(tool_home@, owner@, name@),
        f.is_cloned == is_cloned,
        opt_view(f.description) == opt_view(description),
        opt_view(f.primary_language) == opt_view(primary_language),
        f.created_at == opt_rfc3339_secs(opt_view(created_at)),
        f.updated_at == opt_rfc3339_secs(opt_view(updated_at)),
{
    let local_path = crate::types::fork_local_path(tool_home, owner.as_str(), name.as_str());
    let created = parse_opt_stamp(&created_at);
    let updated = parse_opt_stamp(&updated_at);
    Fork {
        name,
        owner,
        parent_owner,
        parent_name,
        default_branch,
        local_path,
        is_cloned,
        description,
        primary_language,
        created_at: created,
        updated_at: updated,
    }
}

} // verus!
