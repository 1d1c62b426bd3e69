//! Deployments: listing with pagination, the decisions taken when a deploy
//! is triggered (in-progress conflicts, redeploys of uploaded apps,
//! approval and queueing), rollback targets, and the summary of what
//! changed between two deployments.
use vstd::prelude::*;
use crate::clock::now_rfc3339;
use crate::error::ApiError;
use crate::freeze::{lemma_lex_lt_asymmetric, lemma_lex_lt_irreflexive, lemma_lex_lt_total, lemma_lex_lt_transitive, lex_le, lex_lt, str_lt};
use crate::ids::{hyphenated_uuid, new_id};
use crate::numbers::decimal;
use crate::text::{chars_of, clone_opt, ends_with, has_prefix, has_suffix, opt_view, owned, push_str, slice_to_vec, starts_with, string_of, find_from, lines, lines_of, strings_view};

verus! {

/// The fields of a stored deployment that the deployment logic reads.
pub struct Deployment {
    pub id: String,
    pub app_id: String,
    /// pending, cloning, building, starting, checking, running, stopped,
    /// replaced, failed, ...
    pub status: String,
    /// The commit deployed; for apps deployed from an upload, the path of
    /// the extracted sources.
    pub commit_sha: Option<String>,
    pub commit_message: Option<String>,
    pub image_tag: Option<String>,
    pub container_id: Option<String>,
    pub git_tag: Option<String>,
    pub approval_status: Option<String>,
    pub approved_by: Option<String>,
    pub approved_at: Option<String>,
    pub rejection_reason: Option<String>,
    pub error_message: Option<String>,
    pub scheduled_at: Option<String>,
    pub started_at: String,
    pub finished_at: Option<String>,
}

/// Query parameters for listing deployments with pagination.
pub struct DeploymentListQuery {
    /// Page number (1-indexed, default: 1)
    pub page: i64,
    /// Items per page (default: 20, max: 100)
    pub per_page: i64,
}

/// The page listed unless the query says otherwise.
pub fn default_page() -> (r: i64)
    ensures
        r == 1,
{
    1
}

/// The page size unless the query says otherwise.
pub fn default_per_page() -> (r: i64)
    ensures
        r == 20,
{
    20
}

/// Paginated response for deployment list.
pub struct DeploymentListResponse {
    pub items: Vec<Deployment>,
    pub total: i64,
    pub page: i64,
    pub per_page: i64,
    pub total_pages: i64,
}

/// Request body for deploy trigger with optional commit/tag targeting.
pub struct TriggerDeployRequest {
    /// Deploy a specific commit SHA instead of branch HEAD
    pub commit_sha: Option<String>,
    /// Deploy a specific git tag instead of branch HEAD
    pub git_tag: Option<String>,
    /// Schedule the deployment for a specific time (ISO 8601 format)
    pub scheduled_at: Option<String>,
}

/// How an uploaded project is built, as the build detection names it.
pub enum BuildType {
    Dockerfile,
    Nixpacks,
    Railpack,
    Cnb,
    StaticSite,
    DockerCompose,
    DockerImage,
}

/// What the build detection found in an uploaded project.
pub struct BuildDetection {
    pub build_type: BuildType,
    pub publish_directory: Option<String>,
    pub detected_from: String,
}

/// Response from upload deploy endpoint.
pub struct UploadDeployResponse {
    pub deployment: Deployment,
    pub detected_build_type: BuildDetection,
}

/// Query parameters for listing commits or tags.
pub struct CommitsTagsQuery {
    /// Maximum number of items to return (default: 20, max: 100)
    pub limit: u32,
}

/// The number of commits or tags listed unless the query says otherwise.
pub fn default_commits_limit() -> (r: u32)
    ensures
        r == 20,
{
    20
}

/// The number of commits or tags actually asked of the git provider: the
/// query's limit, at most 100.
pub fn effective_limit(query: &CommitsTagsQuery) -> (r: u32)
    ensures
        r == if query.limit < 100 { query.limit } else { 100 },
{
    if query.limit < 100 {
        query.limit
    } else {
        100
    }
}

/// Commit info returned by the API.
pub struct CommitInfo {
    pub sha: String,
    pub message: String,
    pub author: String,
    pub date: String,
}

/// Tag info returned by the API.
pub struct TagInfo {
    pub name: String,
    pub sha: String,
}

/// Request body for rollback endpoint.
pub struct RollbackRequest {
    /// Which deployment to roll back to; the previous successful one when
    /// absent.
    pub target_deployment_id: Option<String>,
}

/// Request body for rejecting a deployment.
pub struct RejectDeployRequest {
    pub reason: Option<String>,
}

/// Deployment diff response showing what changed between deployments.
pub struct DeploymentDiff {
    pub deployment_id: String,
    pub previous_deployment_id: Option<String>,
    pub current_sha: Option<String>,
    pub previous_sha: Option<String>,
    /// Number of commits between the two deployments (if calculable)
    pub commits_count: i64,
    /// Human-readable summary
    pub summary: String,
    /// File paths changed (if available via git provider API)
    pub files_changed: Vec<String>,
    /// Commit messages in the range
    pub commit_messages: Vec<String>,
}

// ---------------------------------------------------------------------------
// Repository URLs
// ---------------------------------------------------------------------------

/// `s` with every trailing repetition of `suffix` removed.
pub open spec fn trim_suffix_all(s: Seq<char>, suffix: Seq<char>) -> Seq<char>
    decreases s.len(),
{
    if suffix.len() > 0 && has_suffix(s, suffix) {
        trim_suffix_all(s.take(s.len() - suffix.len()), suffix)
    } else {
        s
    }
}

/// The owner and repository named by the path part of a GitHub URL: the
/// path without trailing `.git`s and slashes, split at its first slash.
pub open spec fn spec_owner_repo(path: Seq<char>) -> Option<(Seq<char>, Seq<char>)> {
    let p = trim_suffix_all(trim_suffix_all(path, ".git"@), seq!['/']);
    match find_from(p, '/', 0) {
        Some(i) => Some((p.take(i), p.skip(i + 1))),
        None => None,
    }
}

/// The owner and repository of a GitHub URL, in HTTPS, HTTP or SSH form.
pub open spec fn spec_parse_owner_repo(url: Seq<char>) -> Option<(Seq<char>, Seq<char>)> {
    let https = "https://github.com/"@;
    let http = "http://github.com/"@;
    let ssh = "git@github.com:"@;
    let web = if has_prefix(url, https) {
        spec_owner_repo(url.skip(https.len() as int))
    } else if has_prefix(url, http) {
        spec_owner_repo(url.skip(http.len() as int))
    } else {
        None
    };
    match web {
        Some(r) => Some(r),
        None => if has_prefix(url, ssh) {
            spec_owner_repo(url.skip(ssh.len() as int))
        } else {
            None
        },
    }
}

/// `s` with every trailing repetition of `suffix` removed.
fn trim_suffix_repeated(s: &[char], suffix: &[char]) -> (r: Vec<char>)
    ensures
        r@ == trim_suffix_all(s@, suffix@),
{
    let mut cur: Vec<char> = slice_to_vec(s, 0, s.len());
    assert(s@.subrange(0, s@.len() as int) =~= s@);
    if suffix.len() == 0 {
        return cur;
    }
    while ends_with(cur.as_slice(), suffix)
        invariant
            suffix.len() > 0,
            trim_suffix_all(cur@, suffix@) == trim_suffix_all(s@, suffix@),
        decreases cur.len(),
    {
        let keep = cur.len() - suffix.len();
        let next = slice_to_vec(cur.as_slice(), 0, keep);
        assert(next@ =~= cur@.take(cur@.len() - suffix@.len()));
        cur = next;
    }
    cur
}

/// The index of the first `c` in `s`, if any.
fn find_char_in(s: &[char], c: char) -> (r: Option<usize>)
    ensures
        match find_from(s@, c, 0) {
            Some(i) => r == Some(i as usize),
            None => r is None,
        },
{
    let mut i: usize = 0;
    while i < s.len()
        invariant
            i <= s.len(),
            find_from(s@, c, i as int) == find_from(s@, c, 0),
        decreases s.len() - i,
    {
        if s[i] == c {
            return Some(i);
        }
        i = i + 1;
    }
    None
}

fn owner_repo_of(path: &[char]) -> (r: Option<(String, String)>)
    ensures
        match spec_owner_repo(path@) {
            Some((o, n)) => r matches Some((a, b)) && a@ == o && b@ == n,
            None => r is None,
        },
{
    let git = chars_of(".git");
    let a = trim_suffix_repeated(path, git.as_slice());
    let slash = vec!['/'];
    assert(slash@ =~= seq!['/']);
    let p = trim_suffix_repeated(a.as_slice(), slash.as_slice());
    proof {
        crate::text::lemma_find_from(p@, '/', 0);
    }
    match find_char_in(p.as_slice(), '/') {
        Some(i) => {
            assert(i < p.len()) by {
                match find_from(p@, '/', 0) {
                    Some(j) => {},
                    None => {},
                }
            }
            let owner = slice_to_vec(p.as_slice(), 0, i);
            let repo = slice_to_vec(p.as_slice(), i + 1, p.len());
            assert(owner@ =~= p@.take(i as int));
            assert(repo@ =~= p@.skip(i + 1));
            Some((string_of(owner.as_slice()), string_of(repo.as_slice())))
        },
        None => None,
    }
}

/// Helper to parse owner/repo from a git URL.
pub fn parse_owner_repo(git_url: &str) -> (r: Option<(String, String)>)
    ensures
        match spec_parse_owner_repo(git_url@) {
            Some((o, n)) => r matches Some((a, b)) && a@ == o && b@ == n,
            None => r is None,
        },
{
    let url = chars_of(git_url);
    let https = chars_of("https://github.com/");
    let http = chars_of("http://github.com/");
    let ssh = chars_of("git@github.com:");
    let web = if starts_with(url.as_slice(), https.as_slice()) {
        let rest = slice_to_vec(url.as_slice(), https.len(), url.len());
        assert(rest@ =~= url@.skip(https@.len() as int));
        owner_repo_of(rest.as_slice())
    } else if starts_with(url.as_slice(), http.as_slice()) {
        let rest = slice_to_vec(url.as_slice(), http.len(), url.len());
        assert(rest@ =~= url@.skip(http@.len() as int));
        owner_repo_of(rest.as_slice())
    } else {
        None
    };
    if web.is_some() {
        return web;
    }
    if starts_with(url.as_slice(), ssh.as_slice()) {
        let rest = slice_to_vec(url.as_slice(), ssh.len(), url.len());
        assert(rest@ =~= url@.skip(ssh@.len() as int));
        owner_repo_of(rest.as_slice())
    } else {
        None
    }
}

// ---------------------------------------------------------------------------
// Pagination
// ---------------------------------------------------------------------------

/// The page actually listed: at least 1.
pub open spec fn normalized_page(page: int) -> int {
    if page < 1 { 1 } else { page }
}

/// The page size actually used: between 1 and 100.
pub open spec fn normalized_per_page(per_page: int) -> int {
    if per_page < 1 { 1 } else if per_page > 100 { 100 } else { per_page }
}

/// Where a page starts and how long it is.
pub struct Pagination {
    pub page: i64,
    pub per_page: i64,
    pub offset: i64,
}

/// Normalizes the pagination parameters of a listing: the page is at
/// least 1, the page size between 1 and 100, and the page starts after
/// `(page - 1) * per_page` items.
pub fn paginate(query: &DeploymentListQuery) -> (r: Pagination)
    requires
        (normalized_page(query.page as int) - 1) * normalized_per_page(query.per_page as int)
            <= i64::MAX,
    ensures
        r.page == normalized_page(query.page as int),
        r.per_page == normalized_per_page(query.per_page as int),
        r.offset == (r.page - 1) * r.per_page,
{
    let page: i64 = if query.page < 1 { 1 } else { query.page };
    let per_page: i64 = if query.per_page < 1 {
        1
    } else if query.per_page > 100 {
        100
    } else {
        query.per_page
    };
    assert(0 <= (page - 1) * per_page) by (nonlinear_arith)
        requires page >= 1, per_page >= 1;
    let offset = (page - 1) * per_page;
    Pagination { page, per_page, offset }
}

/// The number of pages that `total` items fill, `per_page` to a page.
pub fn total_pages(total: i64, per_page: i64) -> (r: i64)
    requires
        0 <= total,
        1 <= per_page <= 100,
        total + per_page <= i64::MAX,
    ensures
        r == (total + per_page - 1) / (per_page as int),
{
    (total + per_page - 1) / per_page
}

/// The page of deployments answered to a listing.
pub fn deployment_list_response(items: Vec<Deployment>, total: i64, pagination: &Pagination) -> (r:
    DeploymentListResponse)
    requires
        0 <= total,
        1 <= pagination.per_page <= 100,
        total + pagination.per_page <= i64::MAX,
    ensures
        r.items@ == items@,
        r.total == total,
        r.page == pagination.page,
        r.per_page == pagination.per_page,
        r.total_pages == (total + pagination.per_page - 1) / (pagination.per_page as int),
{
    let pages = total_pages(total, pagination.per_page);
    DeploymentListResponse {
        items,
        total,
        page: pagination.page,
        per_page: pagination.per_page,
        total_pages: pages,
    }
}

// ---------------------------------------------------------------------------
// Triggering a deployment
// ---------------------------------------------------------------------------

/// The statuses of a deployment that is still under way.
pub open spec fn is_in_progress(status: Seq<char>) -> bool {
    ||| status == "pending"@
    ||| status == "cloning"@
    ||| status == "building"@
    ||| status == "starting"@
    ||| status == "checking"@
}

/// Whether a deployment with this status is still under way.
pub fn status_in_progress(status: &str) -> (r: bool)
    ensures
        r == is_in_progress(status@),
{
    let s = chars_of(status);
    let names = ["pending", "cloning", "building", "starting", "checking"];
    let mut i: usize = 0;
    while i < 5
        invariant
            s@ == status@,
            names@ == seq!["pending", "cloning", "building", "starting", "checking"],
            i <= 5,
            forall|j: int| 0 <= j < i ==> status@ != (#[trigger] names@[j])@,
        decreases 5 - i,
    {
        let n = chars_of(names[i]);
        if crate::text::seq_eq(s.as_slice(), n.as_slice()) {
            return true;
        }
        i = i + 1;
    }
    assert(status@ != names@[0]@);
    assert(status@ != names@[1]@);
    assert(status@ != names@[2]@);
    assert(status@ != names@[3]@);
    assert(status@ != names@[4]@);
    false
}

/// The message a new deployment is refused with while `id` is under way.
pub open spec fn in_progress_message(id: Seq<char>) -> Seq<char> {
    "A deployment is already in progress (id: "@ + id + ")"@
}

/// Refuses a new deployment (or rollback) while one of the app's
/// deployments is under way; the error names the first such deployment.
pub fn check_no_deployment_in_progress(deployments: &Vec<Deployment>) -> (r: Result<(), ApiError>)
    ensures
        r is Ok <==> forall|i: int|
            0 <= i < deployments@.len() ==> !is_in_progress(#[trigger] deployments@[i].status@),
        r matches Err(e) ==> exists|i: int|
            0 <= i < deployments@.len() && is_in_progress(#[trigger] deployments@[i].status@)
                && (forall|j: int| 0 <= j < i ==> !is_in_progress(deployments@[j].status@))
                && e == ApiError::Conflict(e->Conflict_0) && e->Conflict_0@ == in_progress_message(
                deployments@[i].id@),
{
    let mut i: usize = 0;
    while i < deployments.len()
        invariant
            i <= deployments@.len(),
            forall|j: int| 0 <= j < i ==> !is_in_progress(#[trigger] deployments@[j].status@),
        decreases deployments.len() - i,
    {
        if status_in_progress(deployments[i].status.as_str()) {
            let mut m = owned("A deployment is already in progress (id: ");
            push_str(&mut m, deployments[i].id.as_str());
            push_str(&mut m, ")");
            let e = ApiError::Conflict(m);
            assert(is_in_progress(deployments@[i as int].status@));
            return Err(e);
        }
        i = i + 1;
    }
    Ok(())
}

/// The message an upload app is refused with when neither its sources nor
/// its image remain.
pub open spec fn sources_gone_message() -> Seq<char> {
    "This app was deployed from a ZIP file, but the source files have been cleaned up and no image exists. Please upload a new ZIP file using the 'Deploy from ZIP file' option."@
}

/// The message an upload app is refused with when it was never deployed.
pub open spec fn never_uploaded_message() -> Seq<char> {
    "This app was configured for ZIP upload deployment but has no previous successful deployment. Please upload a ZIP file using the 'Deploy from ZIP file' option."@
}

/// How an app deployed from an upload is deployed again, from the source
/// path and image tag of its last running or stopped deployment: rebuilt
/// from the extracted sources while they exist, else restarted from its
/// image; `(source path, image tag)`.
pub open spec fn spec_upload_redeploy(
    last: Option<(Option<Seq<char>>, Option<Seq<char>>)>,
    source_exists: bool,
) -> Result<(Option<Seq<char>>, Option<Seq<char>>), Seq<char>> {
    match last {
        Some((Some(path), image_tag)) if crate::text::contains_seq(path, "rivetr-upload-"@) => {
            if source_exists {
                Ok((Some(path), None))
            } else if image_tag is Some {
                Ok((None, image_tag))
            } else {
                Err(sources_gone_message())
            }
        },
        Some((_, Some(image_tag))) => Ok((None, Some(image_tag))),
        _ => Err(never_uploaded_message()),
    }
}

/// The view of an optional pair of optional strings.
pub open spec fn last_view(last: Option<(Option<String>, Option<String>)>) -> Option<
    (Option<Seq<char>>, Option<Seq<char>>),
> {
    match last {
        Some((a, b)) => Some((opt_view(a), opt_view(b))),
        None => None,
    }
}

/// Decides how an app deployed from an upload is deployed again.
/// `last` holds the commit SHA (the source path) and image tag of the
/// app's last running or stopped deployment; `source_exists` tells whether
/// that source path still exists on disk.
pub fn upload_redeploy_source(last: Option<(Option<String>, Option<String>)>, source_exists: bool) -> (r:
    Result<(Option<String>, Option<String>), ApiError>)
    ensures
        match spec_upload_redeploy(last_view(last), source_exists) {
            Ok((p, t)) => r matches Ok((a, b)) && opt_view(a) == p && opt_view(b) == t,
            Err(m) => r matches Err(ApiError::BadRequest(x)) && x@ == m,
        },
{
    let marker = chars_of("rivetr-upload-");
    match last {
        Some((Some(path), image_tag)) => {
            let pv = chars_of(path.as_str());
            if crate::text::contains_str(pv.as_slice(), marker.as_slice()) {
                if source_exists {
                    Ok((Some(path), None))
                } else if image_tag.is_some() {
                    Ok((None, image_tag))
                } else {
                    Err(ApiError::BadRequest(owned(
                        "This app was deployed from a ZIP file, but the source files have been cleaned up and no image exists. Please upload a new ZIP file using the 'Deploy from ZIP file' option.",
                    )))
                }
            } else {
                match image_tag {
                    Some(t) => Ok((None, Some(t))),
                    None => Err(ApiError::BadRequest(owned(
                        "This app was configured for ZIP upload deployment but has no previous successful deployment. Please upload a ZIP file using the 'Deploy from ZIP file' option.",
                    ))),
                }
            }
        },
        Some((None, Some(t))) => Ok((None, Some(t))),
        _ => Err(ApiError::BadRequest(owned(
            "This app was configured for ZIP upload deployment but has no previous successful deployment. Please upload a ZIP file using the 'Deploy from ZIP file' option.",
        ))),
    }
}

/// What a triggered deployment is recorded with, and whether it is queued
/// at once.
pub struct DeployPlan {
    pub commit_sha: Option<String>,
    pub image_tag: Option<String>,
    pub git_tag: Option<String>,
    /// `pending` when the deployment awaits approval.
    pub approval_status: Option<String>,
    pub scheduled_at: Option<String>,
    /// Queued for the deploy worker right away.
    pub queue_now: bool,
    /// Freeze windows are checked first (not for upload apps).
    pub check_freeze: bool,
}

/// A deployment of an app that requires approval waits for an admin,
/// unless an admin triggered it.
pub open spec fn needs_approval(require_approval: i64, role: Seq<char>) -> bool {
    require_approval != 0 && role != "admin"@
}

/// Plans a triggered deployment. Upload apps deploy from the source path
/// and image decided by `upload_redeploy_source` (`upload`); other apps
/// from the commit or tag asked for. The deployment is queued at once
/// unless it awaits approval or is scheduled for later.
pub fn plan_deploy(
    is_upload_app: bool,
    upload: (Option<String>, Option<String>),
    opts: TriggerDeployRequest,
    require_approval: i64,
    role: &str,
) -> (r: DeployPlan)
    ensures
        opt_view(r.commit_sha) == if is_upload_app {
            opt_view(upload.0)
        } else {
            opt_view(opts.commit_sha)
        },
        opt_view(r.image_tag) == opt_view(upload.1),
        opt_view(r.git_tag) == if is_upload_app {
            None
        } else {
            opt_view(opts.git_tag)
        },
        opt_view(r.approval_status) == if needs_approval(require_approval, role@) {
            Some("pending"@)
        } else {
            None
        },
        opt_view(r.scheduled_at) == opt_view(opts.scheduled_at),
        r.queue_now == (!needs_approval(require_approval, role@) && opts.scheduled_at is None),
        r.check_freeze == !is_upload_app,
{
    let admin = crate::text::str_eq(role, "admin");
    let needs = require_approval != 0 && !admin;
    let (commit_sha, git_tag) = if is_upload_app {
        (upload.0, None)
    } else {
        (opts.commit_sha, opts.git_tag)
    };
    let approval_status = if needs {
        Some(owned("pending"))
    } else {
        None
    };
    let queue_now = !needs && opts.scheduled_at.is_none();
    DeployPlan {
        commit_sha,
        image_tag: upload.1,
        git_tag,
        approval_status,
        scheduled_at: opts.scheduled_at,
        queue_now,
        check_freeze: !is_upload_app,
    }
}

/// A deployment is queued at once only when it awaits no approval, and
/// an admin's deployment never awaits approval.
pub proof fn law_queued_deployments_need_no_approval(
    is_upload_app: bool,
    upload: (Option<String>, Option<String>),
    opts: TriggerDeployRequest,
    require_approval: i64,
    role: Seq<char>,
    plan: DeployPlan,
)
    requires
        opt_view(plan.approval_status) == if needs_approval(require_approval, role) {
            Some("pending"@)
        } else {
            None
        },
        plan.queue_now == (!needs_approval(require_approval, role) && opts.scheduled_at is None),
    ensures
        plan.queue_now ==> plan.approval_status is None,
        role == "admin"@ ==> plan.approval_status is None,
        require_approval == 0 ==> plan.approval_status is None,
{
}

// ---------------------------------------------------------------------------
// Approval
// ---------------------------------------------------------------------------

/// A deployment awaiting an approval decision.
pub open spec fn awaits_approval(approval_status: Option<Seq<char>>) -> bool {
    approval_status == Some("pending"@)
}

/// Who is recorded as having decided: nobody for the built-in system user.
pub open spec fn spec_approver(user_id: Seq<char>) -> Option<Seq<char>> {
    if user_id == "system"@ {
        None
    } else {
        Some(user_id)
    }
}

/// Who is recorded as having decided on a deployment.
pub fn approver_id(user_id: &str) -> (r: Option<String>)
    ensures
        opt_view(r) == spec_approver(user_id@),
{
    if crate::text::str_eq(user_id, "system") {
        None
    } else {
        Some(owned(user_id))
    }
}

/// Approves a deployment awaiting approval: only admins may, and only
/// while the deployment is still `pending`. On success the deployment is
/// recorded as approved by the approver at `now`, and nothing else
/// changes; on refusal nothing changes.
pub fn approve_deployment(d: &mut Deployment, user_id: &str, role: &str, now: String) -> (r: Result<
    (),
    ApiError,
>)
    ensures
        role@ != "admin"@ ==> (r matches Err(ApiError::Forbidden(m)) && m@
            == "Only admins can approve deployments"@),
        role@ == "admin"@ && !awaits_approval(opt_view(old(d).approval_status)) ==> (r matches Err(
            ApiError::BadRequest(m),
        ) && m@ == "Deployment is not pending approval"@),
        role@ == "admin"@ && awaits_approval(opt_view(old(d).approval_status)) && old(d).status@
            != "pending"@ ==> (r matches Err(ApiError::BadRequest(m)) && m@
            == "Deployment is no longer in pending state"@),
        r is Err ==> *final(d) == *old(d),
        r is Ok <==> (role@ == "admin"@ && awaits_approval(opt_view(old(d).approval_status))
            && old(d).status@ == "pending"@),
        r is Ok ==> {
            &&& opt_view(final(d).approval_status) == Some("approved"@)
            &&& opt_view(final(d).approved_by) == spec_approver(user_id@)
            &&& final(d).approved_at == Some(now)
            &&& final(d).status == old(d).status
            &&& final(d).id == old(d).id
            &&& final(d).app_id == old(d).app_id
            &&& final(d).rejection_reason == old(d).rejection_reason
            &&& final(d).error_message == old(d).error_message
            &&& final(d).finished_at == old(d).finished_at
        },
{
    if !crate::text::str_eq(role, "admin") {
        return Err(ApiError::Forbidden(owned("Only admins can approve deployments")));
    }
    let pending = match &d.approval_status {
        Some(a) => crate::text::str_eq(a.as_str(), "pending"),
        None => false,
    };
    if !pending {
        return Err(ApiError::BadRequest(owned("Deployment is not pending approval")));
    }
    if !crate::text::str_eq(d.status.as_str(), "pending") {
        return Err(ApiError::BadRequest(owned("Deployment is no longer in pending state")));
    }
    d.approval_status = Some(owned("approved"));
    d.approved_by = approver_id(user_id);
    d.approved_at = Some(now);
    Ok(())
}

/// The reason recorded for a rejection: the one given, else a default.
pub open spec fn spec_rejection_reason(reason: Option<Seq<char>>) -> Seq<char> {
    match reason {
        Some(r) => r,
        None => "No reason provided"@,
    }
}

/// Rejects a deployment awaiting approval: only admins may. On success
/// the deployment is recorded as rejected by the approver at `now`, with
/// the reason, and fails with `Deployment rejected: <reason>`; on refusal
/// nothing changes.
pub fn reject_deployment(
    d: &mut Deployment,
    user_id: &str,
    role: &str,
    body: Option<RejectDeployRequest>,
    now: String,
) -> (r: Result<(), ApiError>)
    ensures
        role@ != "admin"@ ==> (r matches Err(ApiError::Forbidden(m)) && m@
            == "Only admins can reject deployments"@),
        role@ == "admin"@ && !awaits_approval(opt_view(old(d).approval_status)) ==> (r matches Err(
            ApiError::BadRequest(m),
        ) && m@ == "Deployment is not pending approval"@),
        r is Err ==> *final(d) == *old(d),
        r is Ok <==> (role@ == "admin"@ && awaits_approval(opt_view(old(d).approval_status))),
        r is Ok ==> {
            let reason = spec_rejection_reason(
                match body {
                    Some(b) => opt_view(b.reason),
                    None => None,
                },
            );
            &&& opt_view(final(d).approval_status) == Some("rejected"@)
            &&& opt_view(final(d).approved_by) == spec_approver(user_id@)
            &&& final(d).approved_at == Some(now)
            &&& opt_view(final(d).rejection_reason) == Some(reason)
            &&& final(d).status@ == "failed"@
            &&& opt_view(final(d).error_message) == Some("Deployment rejected: "@ + reason)
            &&& final(d).finished_at == Some(now)
            &&& final(d).id == old(d).id
            &&& final(d).app_id == old(d).app_id
        },
{
    if !crate::text::str_eq(role, "admin") {
        return Err(ApiError::Forbidden(owned("Only admins can reject deployments")));
    }
    let pending = match &d.approval_status {
        Some(a) => crate::text::str_eq(a.as_str(), "pending"),
        None => false,
    };
    if !pending {
        return Err(ApiError::BadRequest(owned("Deployment is not pending approval")));
    }
    let reason = match body {
        Some(b) => match b.reason {
            Some(x) => x,
            None => owned("No reason provided"),
        },
        None => owned("No reason provided"),
    };
    let mut message = owned("Deployment rejected: ");
    push_str(&mut message, reason.as_str());
    d.approval_status = Some(owned("rejected"));
    d.approved_by = approver_id(user_id);
    d.approved_at = Some(now.clone());
    d.rejection_reason = Some(reason);
    d.status = owned("failed");
    d.error_message = Some(message);
    d.finished_at = Some(now);
    Ok(())
}

/// Once decided, a deployment cannot be decided again: after an approval
/// or a rejection it no longer awaits approval, so a second approval or
/// rejection is refused.
pub proof fn law_decisions_are_final(approval_status: Option<Seq<char>>)
    requires
        approval_status == Some("approved"@) || approval_status == Some("rejected"@),
    ensures
        !awaits_approval(approval_status),
{
    reveal_strlit("approved");
    reveal_strlit("rejected");
    reveal_strlit("pending");
    assert("approved"@[0] != "pending"@[0]);
    assert("rejected"@[0] != "pending"@[0]);
}

/// The deployments among `s` that await approval, in order.
pub open spec fn awaiting_approval(s: Seq<Deployment>) -> Seq<Deployment> {
    s.filter(|d: Deployment| awaits_approval(opt_view(d.approval_status)))
}

/// The deployments of an app that await approval, in the order given.
pub fn pending_approvals(deployments: Vec<Deployment>) -> (r: Vec<Deployment>)
    ensures
        r@ == awaiting_approval(deployments@),
{
    let ghost src = deployments@;
    let mut r: Vec<Deployment> = Vec::new();
    proof {
        reveal(Seq::filter);
        assert(src.take(0) =~= Seq::<Deployment>::empty());
        assert(awaiting_approval(src.take(0)) =~= Seq::<Deployment>::empty());
    }
    for d in it: deployments.into_iter()
        invariant
            it.seq() == src,
            r@ == awaiting_approval(src.take(it.index() as int)),
    {
        let keep = match &d.approval_status {
            Some(a) => crate::text::str_eq(a.as_str(), "pending"),
            None => false,
        };
        proof {
            let k = it.index() as int;
            let t = src.take(k + 1);
            assert(t.drop_last() =~= src.take(k));
            assert(t.last() == d);
            assert(keep == awaits_approval(opt_view(d.approval_status)));
            assert(awaiting_approval(t) == if keep {
                awaiting_approval(src.take(k)).push(d)
            } else {
                awaiting_approval(src.take(k))
            }) by {
                reveal(Seq::filter);
            }
        }
        if keep {
            r.push(d);
        }
    }
    proof {
        assert(src.take(src.len() as int) =~= src);
    }
    r
}

// ---------------------------------------------------------------------------
// Rollback
// ---------------------------------------------------------------------------

/// The statuses of a deployment that completed successfully.
pub open spec fn is_completed(status: Seq<char>) -> bool {
    ||| status == "running"@
    ||| status == "stopped"@
    ||| status == "replaced"@
}

/// Whether a deployment with this status completed successfully.
pub fn status_completed(status: &str) -> (r: bool)
    ensures
        r == is_completed(status@),
{
    crate::text::str_eq(status, "running") || crate::text::str_eq(status, "stopped")
        || crate::text::str_eq(status, "replaced")
}

/// A deployment of the app that can be rolled back to: it completed and
/// its image is known.
pub open spec fn can_roll_back_to(d: Deployment, app_id: Seq<char>) -> bool {
    d.app_id@ == app_id && is_completed(d.status@) && d.image_tag is Some
}

/// A deployment that the default rollback may go back to: a completed
/// deployment of the current one's app, with a known image, other than the
/// current one, that started strictly before it.
pub open spec fn earlier_rollback_candidate(d: Deployment, current: Deployment) -> bool {
    &&& d.id@ != current.id@
    &&& can_roll_back_to(d, current.app_id@)
    &&& lex_lt(d.started_at@, current.started_at@)
}

/// The most recent deployment before `current` that can be rolled back to:
/// among the earlier candidates of `history`, one with the greatest start
/// time, the first of them in `history` when several share it.
fn latest_earlier_candidate(history: &Vec<Deployment>, current: &Deployment) -> (r: Option<usize>)
    ensures
        r matches Some(i) ==> {
            &&& i < history@.len()
            &&& earlier_rollback_candidate(history@[i as int], *current)
            &&& forall|j: int|
                0 <= j < history@.len() && earlier_rollback_candidate(#[trigger] history@[j], *current)
                    ==> lex_le(history@[j].started_at@, history@[i as int].started_at@)
            &&& forall|j: int|
                0 <= j < i && earlier_rollback_candidate(#[trigger] history@[j], *current) ==> lex_lt(
                    history@[j].started_at@,
                    history@[i as int].started_at@,
                )
        },
        r is None <==> forall|j: int|
            0 <= j < history@.len() ==> !earlier_rollback_candidate(#[trigger] history@[j], *current),
{
    let cur_start = chars_of(current.started_at.as_str());
    let mut best: Option<usize> = None;
    let mut i: usize = 0;
    while i < history.len()
        invariant
            i <= history@.len(),
            cur_start@ == current.started_at@,
            match best {
                Some(b) => {
                    &&& b < i
                    &&& earlier_rollback_candidate(history@[b as int], *current)
                    &&& forall|j: int|
                        0 <= j < i && earlier_rollback_candidate(#[trigger] history@[j], *current)
                            ==> lex_le(history@[j].started_at@, history@[b as int].started_at@)
                    &&& forall|j: int|
                        0 <= j < b && earlier_rollback_candidate(#[trigger] history@[j], *current)
                            ==> lex_lt(history@[j].started_at@, history@[b as int].started_at@)
                },
                None => forall|j: int|
                    0 <= j < i ==> !earlier_rollback_candidate(#[trigger] history@[j], *current),
            },
        decreases history.len() - i,
    {
        let d = &history[i];
        let start = chars_of(d.started_at.as_str());
        let qualifies = !crate::text::str_eq(d.id.as_str(), current.id.as_str())
            && crate::text::str_eq(d.app_id.as_str(), current.app_id.as_str())
            && status_completed(d.status.as_str()) && d.image_tag.is_some()
            && str_lt(start.as_slice(), cur_start.as_slice());
        assert(qualifies == earlier_rollback_candidate(history@[i as int], *current));
        if qualifies {
            match best {
                None => {
                    proof {
                        lemma_lex_lt_irreflexive(start@);
                    }
                    best = Some(i);
                },
                Some(b) => {
                    let b_start = chars_of(history[b].started_at.as_str());
                    if str_lt(b_start.as_slice(), start.as_slice()) {
                        proof {
                            lemma_lex_lt_irreflexive(start@);
                            assert forall|j: int|
                                0 <= j < i && earlier_rollback_candidate(
                                    #[trigger] history@[j],
                                    *current,
                                ) implies lex_lt(
                                history@[j].started_at@,
                                history@[i as int].started_at@,
                            ) && lex_le(history@[j].started_at@, history@[i as int].started_at@) by {
                                let sj = history@[j].started_at@;
                                lemma_lex_lt_total(sj, b_start@);
                                if lex_lt(sj, b_start@) {
                                    lemma_lex_lt_transitive(sj, b_start@, start@);
                                }
                                lemma_lex_lt_asymmetric(sj, start@);
                            }
                        }
                        best = Some(i);
                    } else {
                        proof {
                            assert(lex_le(start@, b_start@));
                        }
                    }
                },
            }
        }
        i = i + 1;
    }
    best
}

/// The deployment to roll back to, as an index into `history` (the app's
/// deployments): the one asked for when the request names one, else the
/// most recent one that started before the current deployment; either way
/// one that can be rolled back to.
pub fn select_rollback_target(history: &Vec<Deployment>, current: &Deployment, body: &Option<
    RollbackRequest,
>) -> (r: Result<usize, ApiError>)
    ensures
        match body {
            Some(RollbackRequest { target_deployment_id: Some(t) }) => {
                &&& r matches Ok(i) ==> i < history@.len() && history@[i as int].id@ == t@
                    && can_roll_back_to(history@[i as int], current.app_id@) && forall|j: int|
                    0 <= j < i ==> !(history@[j].id@ == t@ && can_roll_back_to(
                        #[trigger] history@[j],
                        current.app_id@,
                    ))
                &&& r is Err <==> forall|j: int|
                    0 <= j < history@.len() ==> !(history@[j].id@ == t@ && can_roll_back_to(
                        #[trigger] history@[j],
                        current.app_id@,
                    ))
                &&& r matches Err(e) ==> e matches ApiError::NotFound(m) && m@
                    == "Target deployment not found or has no image tag for rollback"@
            },
            _ => {
                &&& r matches Ok(i) ==> {
                    &&& i < history@.len()
                    &&& earlier_rollback_candidate(history@[i as int], *current)
                    &&& forall|j: int|
                        0 <= j < history@.len() && earlier_rollback_candidate(
                            #[trigger] history@[j],
                            *current,
                        ) ==> lex_le(history@[j].started_at@, history@[i as int].started_at@)
                    &&& forall|j: int|
                        0 <= j < i && earlier_rollback_candidate(#[trigger] history@[j], *current)
                            ==> lex_lt(history@[j].started_at@, history@[i as int].started_at@)
                }
                &&& r is Err <==> forall|j: int|
                    0 <= j < history@.len() ==> !earlier_rollback_candidate(
                        #[trigger] history@[j],
                        *current,
                    )
                &&& r matches Err(e) ==> e matches ApiError::NotFound(m) && m@
                    == "No previous successful deployment found to rollback to"@
            },
        },
{
    let target: Option<&String> = match body {
        Some(req) => match &req.target_deployment_id {
            Some(t) => Some(t),
            None => None,
        },
        None => None,
    };
    match target {
        None => {
            return match latest_earlier_candidate(history, current) {
                Some(i) => Ok(i),
                None => Err(ApiError::NotFound(owned("No previous successful deployment found to rollback to"))),
            };
        },
        Some(_) => {},
    }
    let mut i: usize = 0;
    while i < history.len()
        invariant
            i <= history@.len(),
            body matches Some(RollbackRequest { target_deployment_id: Some(t) }),
            match body {
                Some(RollbackRequest { target_deployment_id: Some(t) }) => target matches Some(x)
                    && x@ == t@,
                _ => true,
            },
            forall|j: int|
                0 <= j < i ==> !(match target {
                    Some(t) => history@[j].id@ == t@,
                    None => false,
                } && can_roll_back_to(#[trigger] history@[j], current.app_id@)),
        decreases history.len() - i,
    {
        let d = &history[i];
        let wanted = match target {
            Some(t) => crate::text::str_eq(d.id.as_str(), t.as_str()),
            None => false,
        };
        let eligible = wanted && crate::text::str_eq(d.app_id.as_str(), current.app_id.as_str())
            && status_completed(d.status.as_str()) && d.image_tag.is_some();
        if eligible {
            return Ok(i);
        }
        i = i + 1;
    }
    Err(ApiError::NotFound(owned("Target deployment not found or has no image tag for rollback")))
}

/// The pending deployment that records a rollback to `target`: it deploys
/// the target's commit again.
pub fn rollback_record(rollback_id: String, app_id: String, target: &Deployment, now: String) -> (r:
    Deployment)
    ensures
        r.id == rollback_id,
        r.app_id == app_id,
        r.status@ == "pending"@,
        opt_view(r.commit_sha) == opt_view(target.commit_sha),
        opt_view(r.commit_message) == Some("Rollback to deployment "@ + target.id@),
        r.started_at == now,
        r.image_tag is None && r.container_id is None && r.git_tag is None,
        r.approval_status is None && r.scheduled_at is None && r.finished_at is None,
{
    let mut message = owned("Rollback to deployment ");
    push_str(&mut message, target.id.as_str());
    Deployment {
        id: rollback_id,
        app_id,
        status: owned("pending"),
        commit_sha: clone_opt(&target.commit_sha),
        commit_message: Some(message),
        image_tag: None,
        container_id: None,
        git_tag: None,
        approval_status: None,
        approved_by: None,
        approved_at: None,
        rejection_reason: None,
        error_message: None,
        scheduled_at: None,
        started_at: now,
        finished_at: None,
    }
}

/// The rollback record of `rollback_record` under a fresh random
/// identifier (a hyphenated UUID), started now.
pub fn new_rollback_record(app_id: String, target: &Deployment) -> (r: Deployment)
    ensures
        hyphenated_uuid(r.id@),
        r.app_id == app_id,
        r.status@ == "pending"@,
        opt_view(r.commit_sha) == opt_view(target.commit_sha),
        opt_view(r.commit_message) == Some("Rollback to deployment "@ + target.id@),
        r.image_tag is None && r.container_id is None && r.git_tag is None,
        r.approval_status is None && r.scheduled_at is None && r.finished_at is None,
{
    let id = new_id();
    let now = now_rfc3339();
    rollback_record(id, app_id, target, now)
}

/// The containers `old` without the one now serving.
pub open spec fn containers_to_retire(old: Seq<Seq<char>>, serving: Seq<char>) -> Seq<Seq<char>> {
    old.filter(|c: Seq<char>| c != serving)
}

/// The old containers to stop and remove once traffic has moved to the
/// container `serving`: all of them but `serving` itself, in order.
pub fn stale_containers(old_container_ids: &Vec<String>, serving: &str) -> (r: Vec<String>)
    ensures
        strings_view(r@) == containers_to_retire(strings_view(old_container_ids@), serving@),
{
    let ghost src = strings_view(old_container_ids@);
    let mut r: Vec<String> = Vec::new();
    let mut i: usize = 0;
    proof {
        reveal(Seq::filter);
        assert(src.take(0) =~= Seq::<Seq<char>>::empty());
        assert(strings_view(r@) =~= containers_to_retire(src.take(0), serving@));
    }
    while i < old_container_ids.len()
        invariant
            i <= old_container_ids@.len(),
            src == strings_view(old_container_ids@),
            strings_view(r@) == containers_to_retire(src.take(i as int), serving@),
        decreases old_container_ids.len() - i,
    {
        let c = &old_container_ids[i];
        let keep = !crate::text::str_eq(c.as_str(), serving);
        proof {
            let t = src.take(i + 1);
            assert(t.drop_last() =~= src.take(i as int));
            assert(t.last() == c@);
            assert(containers_to_retire(t, serving@) == if keep {
                containers_to_retire(src.take(i as int), serving@).push(c@)
            } else {
                containers_to_retire(src.take(i as int), serving@)
            }) by {
                reveal(Seq::filter);
            }
        }
        if keep {
            let ghost before = r@;
            r.push(c.clone());
            proof {
                assert(strings_view(r@) =~= strings_view(before).push(c@));
            }
        }
        i = i + 1;
    }
    proof {
        assert(src.take(src.len() as int) =~= src);
    }
    r
}

/// The container now serving is never among those retired, and every
/// other old container is.
pub proof fn law_serving_container_survives(old: Seq<Seq<char>>, serving: Seq<char>)
    ensures
        !containers_to_retire(old, serving).contains(serving),
        forall|c: Seq<char>| old.contains(c) && c != serving ==> containers_to_retire(
            old,
            serving,
        ).contains(c),
{
    broadcast use vstd::seq_lib::group_filter_ensures;
    let pred = |c: Seq<char>| c != serving;
    if containers_to_retire(old, serving).contains(serving) {
        let k = choose|k: int|
            0 <= k < old.filter(pred).len() && old.filter(pred)[k] == serving;
        assert(pred(old.filter(pred)[k]));
    }
    assert forall|c: Seq<char>| old.contains(c) && c != serving implies containers_to_retire(
        old,
        serving,
    ).contains(c) by {
        let k = choose|k: int| 0 <= k < old.len() && old[k] == c;
        old.lemma_filter_contains(pred, k);
    }
}

// ---------------------------------------------------------------------------
// Commits and diffs
// ---------------------------------------------------------------------------

/// The first line of a commit message (empty for an empty message).
pub open spec fn first_line(message: Seq<char>) -> Seq<char> {
    let ls = lines(message);
    if ls.len() > 0 {
        ls[0]
    } else {
        seq![]
    }
}

/// The first line of a commit message.
pub fn first_line_of(message: &str) -> (r: String)
    ensures
        r@ == first_line(message@),
{
    let m = chars_of(message);
    let ls = lines_of(m.as_slice());
    if ls.len() > 0 {
        proof {
            assert(ls@.map_values(|v: Vec<char>| v@)[0] == ls@[0]@);
        }
        string_of(ls[0].as_slice())
    } else {
        proof {
            assert(ls@.map_values(|v: Vec<char>| v@).len() == 0);
        }
        String::new()
    }
}

/// A commit as the API lists it: its message cut to the first line, and
/// its author's login when the provider knows one, else the author's name.
pub fn commit_info(sha: String, message: &str, login: Option<String>, author_name: String, date: String) -> (r:
    CommitInfo)
    ensures
        r.sha == sha,
        r.message@ == first_line(message@),
        r.author@ == match login {
            Some(l) => l@,
            None => author_name@,
        },
        r.date == date,
{
    let author = match login {
        Some(l) => l,
        None => author_name,
    };
    CommitInfo { sha, message: first_line_of(message), author, date }
}

/// What the git provider answered when asked to compare two commits.
pub enum Comparison {
    /// The commits between the two, by message, and the files changed.
    Compared { commit_messages: Vec<String>, files: Vec<String> },
    /// The comparison was asked for and failed.
    Failed,
    /// No comparison could be asked for: the app has no GitHub App
    /// installation, its URL names no GitHub repository, or no client
    /// could be had.
    Unavailable,
}

/// The first seven characters of a commit SHA (all of a shorter one).
pub open spec fn short_sha(sha: Seq<char>) -> Seq<char> {
    if sha.len() < 7 {
        sha
    } else {
        sha.take(7)
    }
}

/// The characters of a commit SHA that are shown are single-byte, so that
/// its first seven bytes are its first seven characters.
pub open spec fn short_sha_shown_whole(sha: Seq<char>) -> bool {
    forall|i: int| 0 <= i < sha.len() && i < 7 ==> (sha[i] as u32) < 128
}

/// `s` when `n` is not 1, as in `1 commit` and `2 commits`.
pub open spec fn plural(n: int) -> Seq<char> {
    if n == 1 {
        seq![]
    } else {
        seq!['s']
    }
}

/// The human-readable summary of a diff.
pub open spec fn spec_diff_summary(
    current: Option<Seq<char>>,
    previous: Option<Seq<char>>,
    has_previous: bool,
    comparison: Comparison,
) -> Seq<char> {
    match (current, previous) {
        (Some(cur), Some(prev)) => if cur != prev {
            match comparison {
                Comparison::Compared { commit_messages, files } => decimal(
                    commit_messages@.len(),
                ) + " commit"@ + plural(commit_messages@.len() as int) + ", "@ + decimal(
                    files@.len(),
                ) + " file"@ + plural(files@.len() as int) + " changed"@,
                Comparison::Failed => short_sha(prev) + " -> "@ + short_sha(cur)
                    + " (diff unavailable)"@,
                Comparison::Unavailable => short_sha(prev) + " -> "@ + short_sha(cur),
            }
        } else {
            "Same commit ("@ + short_sha(cur) + ")"@
        },
        (Some(cur), None) => "First deployment ("@ + short_sha(cur) + ")"@,
        (None, _) => if has_previous {
            "No commit SHAs available for comparison"@
        } else {
            "No previous deployment"@
        },
    }
}

/// Whether the git provider is asked to compare the two deployments'
/// commits: both are known and they differ.
pub fn needs_comparison(current_sha: &Option<String>, previous_sha: &Option<String>) -> (r: bool)
    ensures
        r == (current_sha is Some && previous_sha is Some && current_sha->0@ != previous_sha->0@),
{
    match (current_sha, previous_sha) {
        (Some(c), Some(p)) => !crate::text::str_eq(c.as_str(), p.as_str()),
        _ => false,
    }
}

fn push_short_sha(s: &mut String, sha: &str)
    requires
        short_sha_shown_whole(sha@),
    ensures
        final(s)@ == old(s)@ + short_sha(sha@),
{
    let v = chars_of(sha);
    let n = if v.len() < 7 {
        v.len()
    } else {
        7
    };
    let part = slice_to_vec(v.as_slice(), 0, n);
    let t = string_of(part.as_slice());
    assert(t@ =~= short_sha(sha@));
    push_str(s, t.as_str());
}

fn push_plural(s: &mut String, n: usize)
    ensures
        final(s)@ == old(s)@ + plural(n as int),
{
    if n != 1 {
        crate::text::push_char(s, 's');
    } else {
        assert(old(s)@ + plural(n as int) =~= old(s)@);
    }
}

/// The human-readable summary of what changed between two deployments.
pub fn diff_summary(
    current_sha: &Option<String>,
    previous_sha: &Option<String>,
    has_previous: bool,
    comparison: &Comparison,
) -> (r: String)
    requires
        current_sha matches Some(c) ==> short_sha_shown_whole(c@),
        previous_sha matches Some(p) ==> short_sha_shown_whole(p@),
    ensures
        r@ == spec_diff_summary(opt_view(*current_sha), opt_view(*previous_sha), has_previous, *comparison),
{
    match (current_sha, previous_sha) {
        (Some(cur), Some(prev)) => {
            if !crate::text::str_eq(cur.as_str(), prev.as_str()) {
                match comparison {
                    Comparison::Compared { commit_messages, files } => {
                        let mut s = String::new();
                        crate::numbers::push_decimal(&mut s, commit_messages.len() as u64);
                        push_str(&mut s, " commit");
                        push_plural(&mut s, commit_messages.len());
                        push_str(&mut s, ", ");
                        crate::numbers::push_decimal(&mut s, files.len() as u64);
                        push_str(&mut s, " file");
                        push_plural(&mut s, files.len());
                        push_str(&mut s, " changed");
                        assert(s@ =~= spec_diff_summary(
                            opt_view(*current_sha),
                            opt_view(*previous_sha),
                            has_previous,
                            *comparison,
                        ));
                        s
                    },
                    Comparison::Failed => {
                        let mut s = String::new();
                        push_short_sha(&mut s, prev.as_str());
                        push_str(&mut s, " -> ");
                        push_short_sha(&mut s, cur.as_str());
                        push_str(&mut s, " (diff unavailable)");
                        assert(s@ =~= spec_diff_summary(
                            opt_view(*current_sha),
                            opt_view(*previous_sha),
                            has_previous,
                            *comparison,
                        ));
                        s
                    },
                    Comparison::Unavailable => {
                        let mut s = String::new();
                        push_short_sha(&mut s, prev.as_str());
                        push_str(&mut s, " -> ");
                        push_short_sha(&mut s, cur.as_str());
                        assert(s@ =~= spec_diff_summary(
                            opt_view(*current_sha),
                            opt_view(*previous_sha),
                            has_previous,
                            *comparison,
                        ));
                        s
                    },
                }
            } else {
                let mut s = owned("Same commit (");
                push_short_sha(&mut s, cur.as_str());
                push_str(&mut s, ")");
                s
            }
        },
        (Some(cur), None) => {
            let mut s = owned("First deployment (");
            push_short_sha(&mut s, cur.as_str());
            push_str(&mut s, ")");
            s
        },
        (None, _) => {
            if has_previous {
                owned("No commit SHAs available for comparison")
            } else {
                owned("No previous deployment")
            }
        },
    }
}

/// The first lines of commit messages, in order.
pub open spec fn first_lines(messages: Seq<String>) -> Seq<Seq<char>> {
    messages.map_values(|m: String| first_line(m@))
}

/// The diff between a deployment and the previous successful one of its
/// app (`previous`), given what the git provider answered when the two
/// commits differ.
pub fn build_deployment_diff(
    deployment_id: String,
    previous: &Option<Deployment>,
    current_sha: Option<String>,
    comparison: Comparison,
) -> (r: DeploymentDiff)
    requires
        current_sha matches Some(c) ==> short_sha_shown_whole(c@),
        previous matches Some(p) ==> (p.commit_sha matches Some(c) ==> short_sha_shown_whole(c@)),
        comparison matches Comparison::Compared { commit_messages, .. } ==> commit_messages@.len()
            <= i64::MAX,
    ensures
        ({
            let previous_sha = match previous {
                Some(p) => opt_view(p.commit_sha),
                None => None,
            };
            let compared = opt_view(current_sha) is Some && previous_sha is Some && opt_view(
                current_sha,
            ) != previous_sha;
            &&& r.deployment_id == deployment_id
            &&& opt_view(r.previous_deployment_id) == match previous {
                Some(p) => Some(p.id@),
                None => None,
            }
            &&& opt_view(r.current_sha) == opt_view(current_sha)
            &&& opt_view(r.previous_sha) == previous_sha
            &&& r.summary@ == spec_diff_summary(
                opt_view(current_sha),
                previous_sha,
                previous is Some,
                comparison,
            )
            &&& match comparison {
                Comparison::Compared { commit_messages, files } if compared => {
                    &&& r.commits_count == commit_messages@.len()
                    &&& strings_view(r.commit_messages@) == first_lines(commit_messages@)
                    &&& strings_view(r.files_changed@) == strings_view(files@)
                },
                _ => r.commits_count == 0 && r.commit_messages@.len() == 0
                    && r.files_changed@.len() == 0,
            }
        }),
{
    let previous_sha: Option<String> = match previous {
        Some(p) => clone_opt(&p.commit_sha),
        None => None,
    };
    let previous_deployment_id: Option<String> = match previous {
        Some(p) => Some(p.id.clone()),
        None => None,
    };
    let summary = diff_summary(&current_sha, &previous_sha, previous.is_some(), &comparison);
    let compared = needs_comparison(&current_sha, &previous_sha);
    let mut commits_count: i64 = 0;
    let mut commit_messages: Vec<String> = Vec::new();
    let mut files_changed: Vec<String> = Vec::new();
    if compared {
        match comparison {
            Comparison::Compared { commit_messages: messages, files } => {
                commits_count = messages.len() as i64;
                let mut i: usize = 0;
                while i < messages.len()
                    invariant
                        i <= messages@.len(),
                        strings_view(commit_messages@) == first_lines(messages@.take(i as int)),
                    decreases messages.len() - i,
                {
                    let line = first_line_of(messages[i].as_str());
                    let ghost before = commit_messages@;
                    commit_messages.push(line);
                    proof {
                        assert(messages@.take(i + 1) =~= messages@.take(i as int).push(messages@[i as int]));
                        assert(strings_view(commit_messages@) =~= strings_view(before).push(line@));
                        assert(first_lines(messages@.take(i + 1)) =~= first_lines(
                            messages@.take(i as int),
                        ).push(first_line(messages@[i as int]@)));
                    }
                    i = i + 1;
                }
                assert(messages@.take(messages@.len() as int) =~= messages@);
                files_changed = files;
            },
            _ => {},
        }
    }
    DeploymentDiff {
        deployment_id,
        previous_deployment_id,
        current_sha,
        previous_sha,
        commits_count,
        summary,
        files_changed,
        commit_messages,
    }
}

// ---------------------------------------------------------------------------
// Uploads
// ---------------------------------------------------------------------------

/// The largest upload accepted, in bytes (100 MB).
pub open spec fn max_upload_size() -> int {
    104857600int
}

/// Refuses an uploaded file larger than 100 MB.
pub fn check_upload_size(len: usize) -> (r: Result<(), ApiError>)
    ensures
        r is Ok <==> len <= max_upload_size(),
        r matches Err(e) ==> (e matches ApiError::BadRequest(m) && m@
            == "File too large. Maximum size is 100 MB"@),
{
    if len > 104857600 {
        Err(ApiError::BadRequest(owned("File too large. Maximum size is 100 MB")))
    } else {
        Ok(())
    }
}

/// The build type recorded for an app deployed from an upload; compose
/// projects and images fall back to `dockerfile`.
pub open spec fn spec_build_type_name(t: BuildType) -> Seq<char> {
    match t {
        BuildType::Dockerfile => "dockerfile"@,
        BuildType::Nixpacks => "nixpacks"@,
        BuildType::Railpack => "railpack"@,
        BuildType::Cnb => "cnb"@,
        BuildType::StaticSite => "static"@,
        BuildType::DockerCompose => "dockerfile"@,
        BuildType::DockerImage => "dockerfile"@,
    }
}

/// The build type recorded for an app deployed from an upload.
pub fn build_type_name(t: &BuildType) -> (r: String)
    ensures
        r@ == spec_build_type_name(*t),
{
    match t {
        BuildType::Dockerfile => owned("dockerfile"),
        BuildType::Nixpacks => owned("nixpacks"),
        BuildType::Railpack => owned("railpack"),
        BuildType::Cnb => owned("cnb"),
        BuildType::StaticSite => owned("static"),
        BuildType::DockerCompose => owned("dockerfile"),
        BuildType::DockerImage => owned("dockerfile"),
    }
}

/// A file name of a ZIP archive (ignoring case).
pub open spec fn zip_name(name: Seq<char>) -> bool {
    has_suffix(crate::unicode::lowercase(name), ".zip"@)
}

/// Checks the parts of an upload that creates an app: a file and a
/// config must be given, and a named file must be a ZIP archive.
pub fn check_app_upload(has_file: bool, has_config: bool, file_name: &Option<String>) -> (r: Result<
    (),
    ApiError,
>)
    ensures
        !has_file ==> (r matches Err(ApiError::BadRequest(m)) && m@ == "No file uploaded"@),
        has_file && !has_config ==> (r matches Err(ApiError::BadRequest(m)) && m@
            == "No config provided"@),
        has_file && has_config && (file_name matches Some(n) && !zip_name(n@)) ==> (r matches Err(
            ApiError::BadRequest(m),
        ) && m@ == "Only ZIP files are supported"@),
        r is Ok <==> (has_file && has_config && !(file_name matches Some(n) && !zip_name(n@))),
{
    if !has_file {
        return Err(ApiError::BadRequest(owned("No file uploaded")));
    }
    if !has_config {
        return Err(ApiError::BadRequest(owned("No config provided")));
    }
    if let Some(n) = file_name {
        let l = crate::unicode::to_lowercase(n.as_str());
        let lv = chars_of(l.as_str());
        let zip = chars_of(".zip");
        if !ends_with(lv.as_slice(), zip.as_slice()) {
            return Err(ApiError::BadRequest(owned("Only ZIP files are supported")));
        }
    }
    Ok(())
}

/// The build type and publish directory of an app created from an upload:
/// those of its config when given, else those detected (`detected_name`
/// names the detected build type).
pub fn upload_build_settings(
    build_type: &Option<String>,
    publish_directory: &Option<String>,
    detected_name: String,
    detection: &BuildDetection,
) -> (r: (String, Option<String>))
    ensures
        r.0@ == match build_type {
            Some(b) => b@,
            None => detected_name@,
        },
        opt_view(r.1) == match publish_directory {
            Some(p) => Some(p@),
            None => opt_view(detection.publish_directory),
        },
{
    let bt = match build_type {
        Some(b) => b.clone(),
        None => detected_name,
    };
    let pd = match publish_directory {
        Some(p) => Some(p.clone()),
        None => clone_opt(&detection.publish_directory),
    };
    (bt, pd)
}

} // verus!
