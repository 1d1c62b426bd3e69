//! Resource-level authorization.
//!
//! Semantics:
//! - Instance admins (`role == "admin"`) and the synthetic `system` user
//!   (admin API token) bypass all checks.
//! - Legacy / global resources (no owning team) are accessible to any
//!   authenticated user.
//! - Team-scoped resources require the user to be a member of the owning
//!   team; an app is also reachable when it is shared with a team of the
//!   user.
use vstd::prelude::*;
use crate::error::ApiError;
use crate::ids::{parses_as_uuid, uuid_parses};
use crate::text::{chars_of, has_prefix, owned, slice_to_vec, split_chars, split_on, starts_with, string_of};

verus! {

/// The fields of an authenticated user that authorization reads.
pub struct User {
    pub id: String,
    pub role: String,
}

/// Instance admins and the admin-token `system` user.
pub open spec fn privileged(user: User) -> bool {
    user.id@ == "system"@ || user.role@ == "admin"@
}

/// Instance admins and the admin-token "system" user bypass team scoping.
fn is_privileged(user: &User) -> (r: bool)
    ensures
        r == privileged(*user),
{
    crate::text::str_eq(user.id.as_str(), "system") || crate::text::str_eq(user.role.as_str(), "admin")
}

/// Does this user bypass team scoping (instance admin / system)?
pub fn is_privileged_user(user: &User) -> (r: bool)
    ensures
        r == privileged(*user),
{
    is_privileged(user)
}

/// What deciding access to a team-scoped resource takes.
pub enum AccessPlan {
    /// Access is granted without any lookup.
    Granted,
    /// Access depends on whether the user is a member of this team.
    NeedsMembership(String),
}

/// What deciding access to a resource owned by `team_id` takes.
pub open spec fn spec_access_plan(user: User, team_id: Option<String>) -> AccessPlan {
    if privileged(user) {
        AccessPlan::Granted
    } else {
        match team_id {
            None => AccessPlan::Granted,
            Some(t) => AccessPlan::NeedsMembership(t),
        }
    }
}

/// Decides what access to a resource owned by `team_id` takes: privileged
/// users and resources without a team need no lookup.
pub fn access_plan(user: &User, team_id: Option<String>) -> (r: AccessPlan)
    ensures
        r == spec_access_plan(*user, team_id),
{
    if is_privileged(user) {
        return AccessPlan::Granted;
    }
    match team_id {
        None => AccessPlan::Granted,
        Some(t) => AccessPlan::NeedsMembership(t),
    }
}

/// The answer once team membership is known: members pass, others are
/// refused.
pub fn membership_verdict(is_member: bool) -> (r: Result<(), ApiError>)
    ensures
        is_member ==> r is Ok,
        !is_member ==> (r matches Err(ApiError::Forbidden(m)) && m@
            == "You do not have access to this resource"@),
{
    if is_member {
        Ok(())
    } else {
        Err(ApiError::Forbidden(owned("You do not have access to this resource")))
    }
}

/// The answer for an app once lookups are done: a member of the owning team
/// passes, and so does a user of a team the app is shared with.
pub fn app_verdict(is_member: bool, shared_with_user_teams: i64) -> (r: Result<(), ApiError>)
    ensures
        (is_member || shared_with_user_teams > 0) ==> r is Ok,
        !(is_member || shared_with_user_teams > 0) ==> (r matches Err(ApiError::Forbidden(m)) && m@
            == "You do not have access to this app"@),
{
    if is_member || shared_with_user_teams > 0 {
        Ok(())
    } else {
        Err(ApiError::Forbidden(owned("You do not have access to this app")))
    }
}

/// Privileged users reach every resource without any lookup.
pub proof fn law_privileged_bypass(user: User, team_id: Option<String>)
    requires
        privileged(user),
    ensures
        spec_access_plan(user, team_id) == AccessPlan::Granted,
{
}

/// Resources without an owning team are open to every authenticated user.
pub proof fn law_legacy_resources_open(user: User)
    ensures
        spec_access_plan(user, None) == AccessPlan::Granted,
{
}

/// A non-privileged user reaches a team's resource only through membership
/// of that very team.
pub proof fn law_team_scoped_needs_membership(user: User, team: String)
    requires
        !privileged(user),
    ensures
        spec_access_plan(user, Some(team)) == AccessPlan::NeedsMembership(team),
{
}

/// The kinds of resources that have id-scoped routes.
pub enum ResourceKind {
    App,
    Server,
    Database,
    Service,
    Project,
    Deployment,
}

/// The resource kind named by a path segment.
pub open spec fn kind_of_segment(seg: Seq<char>) -> Option<ResourceKind> {
    if seg == "apps"@ {
        Some(ResourceKind::App)
    } else if seg == "servers"@ {
        Some(ResourceKind::Server)
    } else if seg == "databases"@ {
        Some(ResourceKind::Database)
    } else if seg == "services"@ {
        Some(ResourceKind::Service)
    } else if seg == "projects"@ {
        Some(ResourceKind::Project)
    } else if seg == "deployments"@ {
        Some(ResourceKind::Deployment)
    } else {
        None
    }
}

/// The resource a request path targets: `/api/<kind>/<uuid>[/...]`.
/// Collection paths, other paths and non-UUID segments target none.
pub open spec fn spec_resource_target(path: Seq<char>) -> Option<(ResourceKind, Seq<char>)> {
    if !has_prefix(path, "/api/"@) {
        None
    } else {
        let segs = split_on(path.skip("/api/"@.len() as int), '/');
        match kind_of_segment(segs[0]) {
            None => None,
            Some(k) => if segs.len() >= 2 && uuid_parses(segs[1]) {
                Some((k, segs[1]))
            } else {
                None
            },
        }
    }
}

fn kind_from_segment(seg: &[char]) -> (r: Option<ResourceKind>)
    ensures
        r == kind_of_segment(seg@),
{
    let s = string_of(seg);
    if crate::text::str_eq(s.as_str(), "apps") {
        Some(ResourceKind::App)
    } else if crate::text::str_eq(s.as_str(), "servers") {
        Some(ResourceKind::Server)
    } else if crate::text::str_eq(s.as_str(), "databases") {
        Some(ResourceKind::Database)
    } else if crate::text::str_eq(s.as_str(), "services") {
        Some(ResourceKind::Service)
    } else if crate::text::str_eq(s.as_str(), "projects") {
        Some(ResourceKind::Project)
    } else if crate::text::str_eq(s.as_str(), "deployments") {
        Some(ResourceKind::Deployment)
    } else {
        None
    }
}

proof fn lemma_split_nonempty(s: Seq<char>, sep: char)
    ensures
        split_on(s, sep).len() >= 1,
    decreases s.len(),
{
    reveal_with_fuel(split_on, 2);
}

/// Extracts the resource kind and id a request path targets, if any.
pub fn parse_resource_target(path: &str) -> (r: Option<(ResourceKind, String)>)
    ensures
        match spec_resource_target(path@) {
            Some((k, id)) => r matches Some((k2, id2)) && k2 == k && id2@ == id,
            None => r is None,
        },
{
    let pv = chars_of(path);
    let prefix = chars_of("/api/");
    if !starts_with(pv.as_slice(), prefix.as_slice()) {
        return None;
    }
    let rest = slice_to_vec(pv.as_slice(), prefix.len(), pv.len());
    let segs = split_chars(rest.as_slice(), '/');
    proof {
        assert(rest@ =~= path@.skip("/api/"@.len() as int));
        lemma_split_nonempty(rest@, '/');
        assert(segs@.map_values(|v: Vec<char>| v@)[0] == segs@[0]@);
    }
    let kind = match kind_from_segment(segs[0].as_slice()) {
        Some(k) => k,
        None => return None,
    };
    if segs.len() < 2 {
        return None;
    }
    let id = string_of(segs[1].as_slice());
    proof {
        assert(segs@.map_values(|v: Vec<char>| v@)[1] == segs@[1]@);
    }
    if parses_as_uuid(id.as_str()) {
        Some((kind, id))
    } else {
        None
    }
}

} // verus!
