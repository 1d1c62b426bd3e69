use rivetr::deployments::{
    approve_deployment, build_deployment_diff, build_type_name, check_app_upload,
    check_no_deployment_in_progress, check_upload_size, commit_info, default_commits_limit,
    default_page, default_per_page, deployment_list_response, diff_summary, effective_limit,
    first_line_of, needs_comparison, paginate, parse_owner_repo, pending_approvals, plan_deploy,
    new_rollback_record, reject_deployment, rollback_record, select_rollback_target, stale_containers,
    status_in_progress, total_pages, upload_build_settings, upload_redeploy_source,
    BuildDetection, BuildType, CommitsTagsQuery, Comparison, Deployment, DeploymentListQuery,
    RejectDeployRequest, RollbackRequest, TriggerDeployRequest,
};
use rivetr::error::ApiError;

fn dep(id: &str, status: &str) -> Deployment {
    Deployment {
        id: id.to_string(),
        app_id: "app-1".to_string(),
        status: status.to_string(),
        commit_sha: None,
        commit_message: None,
        image_tag: None,
        container_id: None,
        git_tag: None,
        approval_status: None,
        approved_by: None,
        approved_at: None,
        rejection_reason: None,
        error_message: None,
        scheduled_at: None,
        started_at: "2024-01-01T00:00:00Z".to_string(),
        finished_at: None,
    }
}

fn pair(r: Option<(String, String)>) -> Option<(String, String)> {
    r
}

#[test]
fn owner_repo_from_https_url() {
    assert_eq!(
        pair(parse_owner_repo("https://github.com/rivetr/rivetr.git")),
        Some(("rivetr".to_string(), "rivetr".to_string()))
    );
    assert_eq!(
        parse_owner_repo("http://github.com/owner/repo/"),
        Some(("owner".to_string(), "repo".to_string()))
    );
}

#[test]
fn owner_repo_from_ssh_url() {
    assert_eq!(
        parse_owner_repo("git@github.com:acme/web-app.git"),
        Some(("acme".to_string(), "web-app".to_string()))
    );
}

#[test]
fn owner_repo_strips_repeated_suffixes_and_keeps_nested_paths() {
    assert_eq!(
        parse_owner_repo("https://github.com/a/b.git.git//"),
        Some(("a".to_string(), "b.git.git".to_string()))
    );
    assert_eq!(
        parse_owner_repo("https://github.com/a/b/c"),
        Some(("a".to_string(), "b/c".to_string()))
    );
}

#[test]
fn owner_repo_rejects_other_hosts_and_bare_owners() {
    assert_eq!(parse_owner_repo("https://gitlab.com/a/b"), None);
    assert_eq!(parse_owner_repo("https://github.com/onlyowner"), None);
    assert_eq!(parse_owner_repo(""), None);
}

#[test]
fn pagination_is_normalized() {
    assert_eq!(default_page(), 1);
    assert_eq!(default_per_page(), 20);
    let p = paginate(&DeploymentListQuery { page: 0, per_page: 500 });
    assert_eq!((p.page, p.per_page, p.offset), (1, 100, 0));
    let p = paginate(&DeploymentListQuery { page: 3, per_page: 0 });
    assert_eq!((p.page, p.per_page, p.offset), (3, 1, 2));
    let p = paginate(&DeploymentListQuery { page: 2, per_page: 20 });
    assert_eq!(p.offset, 20);
}

#[test]
fn total_pages_rounds_up() {
    assert_eq!(total_pages(0, 20), 0);
    assert_eq!(total_pages(1, 20), 1);
    assert_eq!(total_pages(40, 20), 2);
    assert_eq!(total_pages(41, 20), 3);
    let p = paginate(&DeploymentListQuery { page: 1, per_page: 20 });
    let r = deployment_list_response(vec![dep("d1", "running")], 41, &p);
    assert_eq!((r.total, r.page, r.per_page, r.total_pages, r.items.len()), (41, 1, 20, 3, 1));
}

#[test]
fn commit_limit_is_capped() {
    assert_eq!(default_commits_limit(), 20);
    assert_eq!(effective_limit(&CommitsTagsQuery { limit: 500 }), 100);
    assert_eq!(effective_limit(&CommitsTagsQuery { limit: 7 }), 7);
}

#[test]
fn in_progress_statuses() {
    for s in ["pending", "cloning", "building", "starting", "checking"] {
        assert!(status_in_progress(s));
    }
    for s in ["running", "stopped", "failed", "replaced", ""] {
        assert!(!status_in_progress(s));
    }
}

#[test]
fn deployment_in_progress_conflicts() {
    assert_eq!(check_no_deployment_in_progress(&vec![dep("a", "running")]), Ok(()));
    let r = check_no_deployment_in_progress(&vec![
        dep("a", "failed"),
        dep("b", "building"),
        dep("c", "pending"),
    ]);
    assert_eq!(
        r,
        Err(ApiError::Conflict("A deployment is already in progress (id: b)".to_string()))
    );
    assert_eq!(r.unwrap_err().status(), 409);
}

#[test]
fn upload_redeploy_rebuilds_from_existing_sources() {
    let last = Some((Some("/tmp/rivetr-upload-1".to_string()), Some("img:1".to_string())));
    let r = upload_redeploy_source(last, true).unwrap();
    assert_eq!(r, (Some("/tmp/rivetr-upload-1".to_string()), None));
}

#[test]
fn upload_redeploy_falls_back_to_image() {
    let last = Some((Some("/tmp/rivetr-upload-1".to_string()), Some("img:1".to_string())));
    assert_eq!(upload_redeploy_source(last, false).unwrap(), (None, Some("img:1".to_string())));
    let last = Some((None, Some("img:2".to_string())));
    assert_eq!(upload_redeploy_source(last, false).unwrap(), (None, Some("img:2".to_string())));
}

#[test]
fn upload_redeploy_refused_without_sources_or_image() {
    let last = Some((Some("/tmp/rivetr-upload-1".to_string()), None));
    match upload_redeploy_source(last, false) {
        Err(ApiError::BadRequest(m)) => assert!(m.contains("source files have been cleaned up")),
        _ => panic!("expected a bad request"),
    }
    match upload_redeploy_source(None, false) {
        Err(ApiError::BadRequest(m)) => {
            assert!(m.contains("has no previous successful deployment"))
        }
        _ => panic!("expected a bad request"),
    }
}

fn opts(scheduled: Option<&str>) -> TriggerDeployRequest {
    TriggerDeployRequest {
        commit_sha: Some("abc".to_string()),
        git_tag: Some("v1".to_string()),
        scheduled_at: scheduled.map(|s| s.to_string()),
    }
}

#[test]
fn deploy_plan_for_git_app() {
    let p = plan_deploy(false, (None, None), opts(None), 0, "member");
    assert_eq!(p.commit_sha.as_deref(), Some("abc"));
    assert_eq!(p.git_tag.as_deref(), Some("v1"));
    assert!(p.approval_status.is_none());
    assert!(p.queue_now);
    assert!(p.check_freeze);
}

#[test]
fn deploy_plan_needs_approval_for_non_admins() {
    let p = plan_deploy(false, (None, None), opts(None), 1, "member");
    assert_eq!(p.approval_status.as_deref(), Some("pending"));
    assert!(!p.queue_now);
    let p = plan_deploy(false, (None, None), opts(None), 1, "admin");
    assert!(p.approval_status.is_none());
    assert!(p.queue_now);
}

#[test]
fn deploy_plan_scheduled_or_upload() {
    let p = plan_deploy(false, (None, None), opts(Some("2030-01-01T00:00:00Z")), 0, "admin");
    assert!(!p.queue_now);
    let p = plan_deploy(true, (Some("/src".to_string()), Some("img".to_string())), opts(None), 0, "admin");
    assert_eq!(p.commit_sha.as_deref(), Some("/src"));
    assert_eq!(p.image_tag.as_deref(), Some("img"));
    assert!(p.git_tag.is_none());
    assert!(!p.check_freeze);
}

fn awaiting(id: &str) -> Deployment {
    let mut d = dep(id, "pending");
    d.approval_status = Some("pending".to_string());
    d
}

#[test]
fn approval_by_admin() {
    let mut d = awaiting("d1");
    assert_eq!(approve_deployment(&mut d, "u1", "admin", "now".to_string()), Ok(()));
    assert_eq!(d.approval_status.as_deref(), Some("approved"));
    assert_eq!(d.approved_by.as_deref(), Some("u1"));
    assert_eq!(d.approved_at.as_deref(), Some("now"));
    // A decided deployment cannot be approved again.
    assert_eq!(
        approve_deployment(&mut d, "u1", "admin", "later".to_string()),
        Err(ApiError::BadRequest("Deployment is not pending approval".to_string()))
    );
}

#[test]
fn approval_refusals() {
    let mut d = awaiting("d1");
    assert_eq!(
        approve_deployment(&mut d, "u1", "member", "now".to_string()),
        Err(ApiError::Forbidden("Only admins can approve deployments".to_string()))
    );
    let mut d = awaiting("d1");
    d.status = "building".to_string();
    assert_eq!(
        approve_deployment(&mut d, "u1", "admin", "now".to_string()),
        Err(ApiError::BadRequest("Deployment is no longer in pending state".to_string()))
    );
    let mut d = awaiting("d1");
    assert_eq!(approve_deployment(&mut d, "system", "admin", "now".to_string()), Ok(()));
    assert!(d.approved_by.is_none());
}

#[test]
fn rejection_records_reason() {
    let mut d = awaiting("d1");
    assert_eq!(reject_deployment(&mut d, "u1", "admin", None, "now".to_string()), Ok(()));
    assert_eq!(d.status, "failed");
    assert_eq!(d.rejection_reason.as_deref(), Some("No reason provided"));
    assert_eq!(d.error_message.as_deref(), Some("Deployment rejected: No reason provided"));
    let mut d = awaiting("d2");
    let body = Some(RejectDeployRequest { reason: Some("bad timing".to_string()) });
    assert_eq!(reject_deployment(&mut d, "u1", "admin", body, "now".to_string()), Ok(()));
    assert_eq!(d.error_message.as_deref(), Some("Deployment rejected: bad timing"));
    let mut d = awaiting("d3");
    assert_eq!(
        reject_deployment(&mut d, "u1", "viewer", None, "now".to_string()),
        Err(ApiError::Forbidden("Only admins can reject deployments".to_string()))
    );
}

#[test]
fn pending_approval_list() {
    let list = vec![awaiting("a"), dep("b", "running"), awaiting("c")];
    let ids: Vec<String> = pending_approvals(list).into_iter().map(|d| d.id).collect();
    assert_eq!(ids, vec!["a".to_string(), "c".to_string()]);
}

fn done(id: &str, status: &str, image: Option<&str>) -> Deployment {
    let mut d = dep(id, status);
    d.image_tag = image.map(|s| s.to_string());
    d.commit_sha = Some(format!("sha-{id}"));
    d
}

fn started(mut d: Deployment, at: &str) -> Deployment {
    d.started_at = at.to_string();
    d
}

#[test]
fn rollback_to_previous_successful_deployment() {
    let history = vec![
        started(done("cur", "running", Some("img3")), "2024-01-04T00:00:00Z"),
        started(done("b", "failed", Some("img2")), "2024-01-03T00:00:00Z"),
        started(done("c", "stopped", None), "2024-01-02T00:00:00Z"),
        started(done("d", "replaced", Some("img1")), "2024-01-01T00:00:00Z"),
    ];
    let current = started(done("cur", "running", Some("img3")), "2024-01-04T00:00:00Z");
    assert_eq!(select_rollback_target(&history, &current, &None), Ok(3));
    let body = Some(RollbackRequest { target_deployment_id: None });
    assert_eq!(select_rollback_target(&history, &current, &body), Ok(3));
}

#[test]
fn default_rollback_only_goes_back_in_time() {
    // The only other successful deployment started after the current one.
    let history = vec![
        started(done("later", "replaced", Some("img9")), "2024-02-01T00:00:00Z"),
        started(done("cur", "running", Some("img3")), "2024-01-04T00:00:00Z"),
    ];
    let current = started(done("cur", "running", Some("img3")), "2024-01-04T00:00:00Z");
    assert_eq!(
        select_rollback_target(&history, &current, &None),
        Err(ApiError::NotFound("No previous successful deployment found to rollback to".to_string()))
    );
    // A deployment that started at the same moment is not before it either.
    let same = vec![started(done("twin", "stopped", Some("i")), "2024-01-04T00:00:00Z")];
    assert!(select_rollback_target(&same, &current, &None).is_err());
}

#[test]
fn default_rollback_picks_the_latest_earlier_start() {
    // Listed out of order: the latest earlier start wins, not the first listed.
    let history = vec![
        started(done("old", "stopped", Some("i1")), "2024-01-01T00:00:00Z"),
        started(done("newer", "replaced", Some("i2")), "2024-01-03T00:00:00Z"),
        started(done("mid", "replaced", Some("i3")), "2024-01-02T00:00:00Z"),
        started(done("cur", "running", Some("i4")), "2024-01-04T00:00:00Z"),
    ];
    let current = started(done("cur", "running", Some("i4")), "2024-01-04T00:00:00Z");
    assert_eq!(select_rollback_target(&history, &current, &None), Ok(1));
}

#[test]
fn rollback_to_named_deployment() {
    let history = vec![done("cur", "running", Some("img3")), done("d", "replaced", Some("img1"))];
    let current = done("cur", "running", Some("img3"));
    let body = Some(RollbackRequest { target_deployment_id: Some("d".to_string()) });
    assert_eq!(select_rollback_target(&history, &current, &body), Ok(1));
    let body = Some(RollbackRequest { target_deployment_id: Some("x".to_string()) });
    assert_eq!(
        select_rollback_target(&history, &current, &body),
        Err(ApiError::NotFound(
            "Target deployment not found or has no image tag for rollback".to_string()
        ))
    );
}

#[test]
fn rollback_without_candidates() {
    let history = vec![done("cur", "running", Some("img3")), done("b", "failed", Some("i"))];
    let current = done("cur", "running", Some("img3"));
    assert_eq!(
        select_rollback_target(&history, &current, &None),
        Err(ApiError::NotFound("No previous successful deployment found to rollback to".to_string()))
    );
}

#[test]
fn rollback_record_redeploys_target_commit() {
    let target = done("d", "replaced", Some("img1"));
    let r = rollback_record("r1".to_string(), "app-1".to_string(), &target, "now".to_string());
    assert_eq!(r.status, "pending");
    assert_eq!(r.commit_sha.as_deref(), Some("sha-d"));
    assert_eq!(r.commit_message.as_deref(), Some("Rollback to deployment d"));
}

#[test]
fn new_rollback_record_gets_fresh_identifier() {
    let target = done("d", "replaced", Some("img1"));
    let a = new_rollback_record("app-1".to_string(), &target);
    let b = new_rollback_record("app-1".to_string(), &target);
    assert_eq!(a.id.len(), 36);
    assert_ne!(a.id, b.id);
    assert_eq!(a.app_id, "app-1");
    assert_eq!(a.status, "pending");
    assert_eq!(a.commit_message.as_deref(), Some("Rollback to deployment d"));
    assert!(!a.started_at.is_empty());
}

#[test]
fn serving_container_is_never_retired() {
    let old = vec!["a".to_string(), "new".to_string(), "b".to_string()];
    assert_eq!(stale_containers(&old, "new"), vec!["a".to_string(), "b".to_string()]);
    assert!(stale_containers(&vec![], "new").is_empty());
}

#[test]
fn diff_summaries() {
    let s = |c: Option<&str>, p: Option<&str>, has_prev: bool, cmp: &Comparison| {
        diff_summary(&c.map(|x| x.to_string()), &p.map(|x| x.to_string()), has_prev, cmp)
    };
    assert_eq!(s(Some("abcdef123456"), None, false, &Comparison::Unavailable), "First deployment (abcdef1)");
    assert_eq!(s(Some("abc"), Some("abc"), true, &Comparison::Unavailable), "Same commit (abc)");
    assert_eq!(s(None, None, false, &Comparison::Unavailable), "No previous deployment");
    assert_eq!(s(None, Some("x"), true, &Comparison::Unavailable), "No commit SHAs available for comparison");
    assert_eq!(s(Some("1111111aa"), Some("2222222bb"), true, &Comparison::Unavailable), "2222222 -> 1111111");
    assert_eq!(
        s(Some("1111111aa"), Some("2222222bb"), true, &Comparison::Failed),
        "2222222 -> 1111111 (diff unavailable)"
    );
    let one = Comparison::Compared { commit_messages: vec!["m".to_string()], files: vec!["f".to_string()] };
    assert_eq!(s(Some("a"), Some("b"), true, &one), "1 commit, 1 file changed");
    let many = Comparison::Compared {
        commit_messages: vec!["m".to_string(), "n".to_string()],
        files: vec![],
    };
    assert_eq!(s(Some("a"), Some("b"), true, &many), "2 commits, 0 files changed");
}

#[test]
fn deployment_diff_with_comparison() {
    let mut prev = done("p", "replaced", Some("i"));
    prev.commit_sha = Some("bbbbbbbbb".to_string());
    let cmp = Comparison::Compared {
        commit_messages: vec!["fix: a\nbody".to_string(), "feat: b".to_string()],
        files: vec!["src/main.rs".to_string()],
    };
    let d = build_deployment_diff("d".to_string(), &Some(prev), Some("aaaaaaaaa".to_string()), cmp);
    assert_eq!(d.previous_deployment_id.as_deref(), Some("p"));
    assert_eq!(d.commits_count, 2);
    assert_eq!(d.commit_messages, vec!["fix: a".to_string(), "feat: b".to_string()]);
    assert_eq!(d.files_changed, vec!["src/main.rs".to_string()]);
    assert_eq!(d.summary, "2 commits, 1 file changed");
    assert!(needs_comparison(&Some("a".to_string()), &Some("b".to_string())));
    assert!(!needs_comparison(&Some("a".to_string()), &Some("a".to_string())));
}

#[test]
fn deployment_diff_ignores_comparison_of_same_commit() {
    let mut prev = done("p", "replaced", Some("i"));
    prev.commit_sha = Some("same".to_string());
    let cmp = Comparison::Compared { commit_messages: vec!["x".to_string()], files: vec![] };
    let d = build_deployment_diff("d".to_string(), &Some(prev), Some("same".to_string()), cmp);
    assert_eq!(d.commits_count, 0);
    assert!(d.commit_messages.is_empty());
    assert_eq!(d.summary, "Same commit (same)");
}

#[test]
fn commits_are_listed_by_first_line() {
    assert_eq!(first_line_of("one\ntwo"), "one");
    assert_eq!(first_line_of(""), "");
    let c = commit_info("s".to_string(), "msg\r\nmore", None, "Ann".to_string(), "d".to_string());
    assert_eq!((c.message.as_str(), c.author.as_str()), ("msg", "Ann"));
    let c = commit_info("s".to_string(), "msg", Some("ann".to_string()), "Ann".to_string(), "d".to_string());
    assert_eq!(c.author, "ann");
}

#[test]
fn uploads_are_checked() {
    assert_eq!(check_upload_size(100 * 1024 * 1024), Ok(()));
    assert_eq!(
        check_upload_size(100 * 1024 * 1024 + 1),
        Err(ApiError::BadRequest("File too large. Maximum size is 100 MB".to_string()))
    );
    assert_eq!(check_app_upload(true, true, &Some("Site.ZIP".to_string())), Ok(()));
    assert_eq!(
        check_app_upload(true, true, &Some("site.tar".to_string())),
        Err(ApiError::BadRequest("Only ZIP files are supported".to_string()))
    );
    assert_eq!(check_app_upload(false, true, &None), Err(ApiError::BadRequest("No file uploaded".to_string())));
    assert_eq!(check_app_upload(true, false, &None), Err(ApiError::BadRequest("No config provided".to_string())));
}

#[test]
fn upload_build_types() {
    assert_eq!(build_type_name(&BuildType::StaticSite), "static");
    assert_eq!(build_type_name(&BuildType::DockerCompose), "dockerfile");
    assert_eq!(build_type_name(&BuildType::Railpack), "railpack");
    let det = BuildDetection {
        build_type: BuildType::Nixpacks,
        publish_directory: Some("dist".to_string()),
        detected_from: "package.json".to_string(),
    };
    let (bt, pd) = upload_build_settings(&None, &None, "nixpacks".to_string(), &det);
    assert_eq!((bt.as_str(), pd.as_deref()), ("nixpacks", Some("dist")));
    let (bt, pd) = upload_build_settings(&Some("dockerfile".to_string()), &Some("out".to_string()), "x".to_string(), &det);
    assert_eq!((bt.as_str(), pd.as_deref()), ("dockerfile", Some("out")));
}

#[test]
fn restart_replaces_the_other_running_deployments() {
    let ds = vec![dep("a", "running"), dep("r", "running"), dep("b", "stopped"), dep("c", "running")];
    assert_eq!(
        rivetr::restart::deployments_replaced_by_restart(&ds, "app-1", "r"),
        vec!["a".to_string(), "c".to_string()]
    );
    assert!(rivetr::restart::deployments_replaced_by_restart(&ds, "other-app", "r").is_empty());
}
