use rivetr::apps::{
    app_status, check_share, new_app_labels, status_uptime, create_checked_fields, plan_share, update_checked_fields, confirm_deletion, container_status, default_cpu_limit,
    default_environment, default_memory_limit, default_port, deployment_phase,
    deployment_source_error, docker_logs_args, generate_domain, generate_domain_with,
    log_stream_target, merge_app_update, merge_optional_json, merge_optional_string,
    power_status, power_target, random_prefix, routed_domain, share_response, split_log_line,
    App, ContainerInspection, CreateAppShareRequest, DeleteAppRequest, DomainConfig,
    PowerAction, ShareRow, UpdateAppRequest,
};
use rivetr::error::ApiError;

fn s(x: &str) -> String {
    x.to_string()
}

#[test]
fn upload_defaults() {
    assert_eq!(default_port(), 3000);
    assert_eq!(default_cpu_limit(), "1");
    assert_eq!(default_memory_limit(), "512m");
    assert_eq!(default_environment(), "development");
}

#[test]
fn optional_settings_merge() {
    let existing = Some(s("old"));
    assert_eq!(merge_optional_string(&None, &existing), Some(s("old")));
    assert_eq!(merge_optional_string(&Some(s("")), &existing), None);
    assert_eq!(merge_optional_string(&Some(s("new")), &existing), Some(s("new")));
    // Merging the same update twice gives the same result.
    let once = merge_optional_string(&Some(s("new")), &existing);
    assert_eq!(merge_optional_string(&Some(s("new")), &once), once);
}

#[test]
fn optional_lists_merge_as_json() {
    let existing = Some(s("[\"x\"]"));
    assert_eq!(merge_optional_json(&None, &existing), existing);
    assert_eq!(merge_optional_json(&Some(vec![]), &existing), None);
    assert_eq!(
        merge_optional_json(&Some(vec![s("a"), s("b")]), &existing),
        Some(s("[\"a\",\"b\"]"))
    );
}

fn app() -> App {
    App {
        id: s("app-1"),
        name: s("web"),
        git_url: s("https://github.com/a/b"),
        branch: s("main"),
        dockerfile: s("Dockerfile"),
        domain: Some(s("web.example.com")),
        port: 8080,
        healthcheck: Some(s("/health")),
        memory_limit: None,
        cpu_limit: None,
        ssh_key_id: None,
        environment: s("production"),
        project_id: None,
        environment_id: None,
        team_id: Some(s("team-1")),
        dockerfile_path: None,
        base_directory: None,
        build_target: None,
        watch_paths: None,
        custom_docker_options: None,
        port_mappings: None,
        network_aliases: None,
        extra_hosts: None,
        pre_deploy_commands: None,
        post_deploy_commands: None,
        domains: None,
        auto_subdomain: None,
        docker_image: None,
        docker_image_tag: None,
        registry_url: None,
        registry_username: None,
        registry_password: None,
        container_labels: None,
        build_type: None,
        nixpacks_config: None,
        publish_directory: None,
        preview_enabled: false,
        github_app_installation_id: None,
        require_approval: false,
        maintenance_mode: false,
        maintenance_message: None,
        auto_rollback_enabled: true,
        registry_push_enabled: false,
        max_rollback_versions: 5,
        rollback_retention_count: 10,
        server_id: None,
        deployment_source: None,
        created_at: s("c"),
        updated_at: s("u"),
    }
}

fn empty_update() -> UpdateAppRequest {
    UpdateAppRequest {
        name: None,
        git_url: None,
        branch: None,
        dockerfile: None,
        domain: None,
        port: None,
        healthcheck: None,
        memory_limit: None,
        cpu_limit: None,
        ssh_key_id: None,
        environment: None,
        project_id: None,
        dockerfile_path: None,
        base_directory: None,
        build_target: None,
        watch_paths: None,
        custom_docker_options: None,
        port_mappings: None,
        network_aliases: None,
        extra_hosts: None,
        pre_deploy_commands: None,
        post_deploy_commands: None,
        domains: None,
        docker_image: None,
        docker_image_tag: None,
        registry_url: None,
        registry_username: None,
        registry_password: None,
        container_labels: None,
        build_type: None,
        nixpacks_config: None,
        publish_directory: None,
        preview_enabled: None,
        auto_rollback_enabled: None,
        registry_push_enabled: None,
        max_rollback_versions: None,
        rollback_retention_count: None,
        require_approval: None,
        maintenance_mode: None,
        maintenance_message: None,
        server_id: None,
    }
}

#[test]
fn app_update_merges_fields() {
    let mut req = empty_update();
    req.name = Some(s("api"));
    req.domain = Some(s(""));
    req.port = Some(3000);
    req.rollback_retention_count = Some(500);
    req.require_approval = Some(true);
    req.extra_hosts = Some(vec![s("db:10.0.0.2")]);
    let a = merge_app_update(&app(), req, s("now"));
    assert_eq!(a.name, "api");
    assert_eq!(a.domain, None);
    assert_eq!(a.port, 3000);
    assert_eq!(a.rollback_retention_count, 50);
    assert!(a.require_approval);
    assert_eq!(a.extra_hosts.as_deref(), Some("[\"db:10.0.0.2\"]"));
    assert_eq!(a.healthcheck.as_deref(), Some("/health"));
    assert_eq!(a.branch, "main");
    assert_eq!(a.updated_at, "now");
    assert_eq!(a.created_at, "c");
}

#[test]
fn empty_update_keeps_app() {
    let a = merge_app_update(&app(), empty_update(), s("now"));
    assert_eq!(a.name, "web");
    assert_eq!(a.domain.as_deref(), Some("web.example.com"));
    assert_eq!(a.rollback_retention_count, 10);
    let mut low = empty_update();
    low.rollback_retention_count = Some(0);
    assert_eq!(merge_app_update(&app(), low, s("now")).rollback_retention_count, 1);
}

#[test]
fn deployment_source_rules() {
    assert_eq!(deployment_source_error("https://github.com/a/b", &None), None);
    assert_eq!(deployment_source_error("", &Some(s("nginx"))), None);
    assert_eq!(
        deployment_source_error("", &Some(s(""))),
        Some((s("git_url"), s("Either git_url or docker_image must be provided")))
    );
    assert_eq!(
        deployment_source_error("https://github.com/a/b", &Some(s("nginx"))),
        Some((
            s("docker_image"),
            s("Cannot specify both git_url and docker_image. Choose one deployment source.")
        ))
    );
}

#[test]
fn deployment_phases() {
    assert_eq!(deployment_phase("running"), "stable");
    assert_eq!(deployment_phase("building"), "deploying");
    assert_eq!(deployment_phase("cloning"), "deploying");
    assert_eq!(deployment_phase("starting"), "deploying");
    assert_eq!(deployment_phase("checking"), "health_checking");
    assert_eq!(deployment_phase("switching"), "switching");
    assert_eq!(deployment_phase("failed"), "stable");
}

#[test]
fn container_statuses() {
    let c = container_status(None, None);
    assert_eq!((c.container_id, c.running, c.status.as_str()), (None, false, "not_deployed"));
    let c = container_status(Some((s(""), s("running"))), None);
    assert_eq!(c.status, "no_container");
    let c = container_status(Some((s("c1"), s("stopped"))), None);
    assert_eq!((c.container_id.as_deref(), c.running, c.status.as_str()), (Some("c1"), false, "stopped"));
    let c = container_status(
        Some((s("c1"), s("running"))),
        Some(ContainerInspection { running: true, host_port: Some(32768) }),
    );
    assert_eq!((c.running, c.status.as_str(), c.host_port), (true, "running", Some(32768)));
    let c = container_status(Some((s("c1"), s("running"))), None);
    assert_eq!((c.running, c.status.as_str()), (false, "not_found"));
}

#[test]
fn app_status_reports_phase_and_uptime() {
    let c = container_status(None, None);
    let st = app_status(s("a"), Some((s("d1"), s("running"))), c, Some(42));
    assert_eq!(st.deployment_phase, "stable");
    assert_eq!(st.active_deployment_id.as_deref(), Some("d1"));
    assert_eq!(st.uptime_seconds, Some(42));
    let c = container_status(None, None);
    let st = app_status(s("a"), Some((s("d2"), s("checking"))), c, Some(42));
    assert_eq!(st.deployment_phase, "health_checking");
    assert_eq!(st.uptime_seconds, None);
    let c = container_status(None, None);
    let st = app_status(s("a"), None, c, Some(42));
    assert_eq!((st.deployment_phase.as_str(), st.active_deployment_id), ("stable", None));
}

#[test]
fn generated_domains() {
    let base = DomainConfig { base_domain: Some(s("apps.example.com")), sslip_enabled: true, server_ip: Some(s("1.2.3.4")) };
    assert_eq!(generate_domain_with("abc", &base).unwrap(), "abc.apps.example.com");
    let sslip = DomainConfig { base_domain: None, sslip_enabled: true, server_ip: Some(s("1.2.3.4")) };
    assert_eq!(generate_domain_with("abc", &sslip).unwrap(), "abc.1.2.3.4.sslip.io");
    let traefik = DomainConfig { base_domain: None, sslip_enabled: false, server_ip: Some(s("1.2.3.4")) };
    assert_eq!(generate_domain_with("abc", &traefik).unwrap(), "abc-1-2-3-4.traefik.me");
    let none = DomainConfig { base_domain: None, sslip_enabled: true, server_ip: None };
    assert_eq!(
        generate_domain_with("abc", &none),
        Err(ApiError::BadRequest(s(
            "No domain generation strategy configured. Set base_domain or server_ip in proxy config."
        )))
    );
    assert!(generate_domain(&none).is_err());
    let d = generate_domain(&base).unwrap();
    assert_eq!(d.len(), 8 + ".apps.example.com".len());
    assert!(d.ends_with(".apps.example.com"));
}

#[test]
fn random_prefixes_are_lowercase_alphanumeric() {
    let p = random_prefix();
    assert_eq!(p.chars().count(), 8);
    assert!(p.chars().all(|c| c.is_ascii_lowercase() || c.is_ascii_digit()));
}

#[test]
fn manual_start_and_stop() {
    assert_eq!(power_target(PowerAction::Start, Some(s("c1"))), Ok(s("c1")));
    assert_eq!(
        power_target(PowerAction::Start, Some(s(""))),
        Err(ApiError::BadRequest(s("No deployment with container found. Deploy the app first.")))
    );
    assert_eq!(
        power_target(PowerAction::Stop, None),
        Err(ApiError::BadRequest(s("No running deployment found")))
    );
    let st = power_status(PowerAction::Start, s("a"), s("c1"), Some(8080));
    assert_eq!((st.running, st.status.as_str(), st.host_port), (true, "running", Some(8080)));
    let st = power_status(PowerAction::Stop, s("a"), s("c1"), Some(8080));
    assert_eq!((st.running, st.status.as_str(), st.host_port), (false, "stopped", None));
    assert_eq!(routed_domain(&Some(s(""))), None);
    assert_eq!(routed_domain(&Some(s("x.io"))), Some(s("x.io")));
}

#[test]
fn deletion_needs_password() {
    let req = DeleteAppRequest { password: s("") };
    assert_eq!(
        confirm_deletion(&req, "u1", "hash"),
        Err(ApiError::Validation { field: s("password"), message: s("Password is required") })
    );
    let req = DeleteAppRequest { password: s("secret") };
    assert_eq!(confirm_deletion(&req, "system", "not-a-hash"), Ok(()));
    assert_eq!(confirm_deletion(&req, "u1", "not-a-hash"), Err(ApiError::Forbidden(s("Invalid password"))));
    let hash = rivetr::crypto::hash_password("secret").unwrap();
    assert_eq!(confirm_deletion(&req, "u1", &hash), Ok(()));
}

#[test]
fn sharing_rules() {
    let req = CreateAppShareRequest { team_id: s("t2"), permission: s("edit") };
    assert_eq!(
        check_share(&req, &Some(s("t1")), true, false),
        Err(ApiError::Validation { field: s("permission"), message: s("Only 'view' permission is currently supported") })
    );
    let req = CreateAppShareRequest { team_id: s("t2"), permission: s("view") };
    assert_eq!(check_share(&req, &Some(s("t1")), false, false), Err(ApiError::NotFound(s("Target team not found"))));
    assert_eq!(
        check_share(&req, &Some(s("t2")), true, false),
        Err(ApiError::BadRequest(s("Cannot share app with its owning team")))
    );
    assert_eq!(
        check_share(&req, &Some(s("t1")), true, true),
        Err(ApiError::Conflict(s("App is already shared with this team")))
    );
    assert_eq!(check_share(&req, &None, true, false), Ok(()));
    let r = share_response(s("sh"), s("a"), s("t2"), s("Team"), req, s("now"), s("u1"), s("Ann"));
    assert_eq!((r.created_by.as_deref(), r.created_by_name.as_deref(), r.permission.as_str()), (Some("u1"), Some("Ann"), "view"));
}

#[test]
fn log_streaming() {
    assert_eq!(log_stream_target(false, None), Err((404, s("No running container found for this app"))));
    assert_eq!(log_stream_target(true, None), Err((404, s("No container ID found for this deployment"))));
    assert_eq!(log_stream_target(true, Some(s("c1"))), Ok(s("c1")));
    assert_eq!(docker_logs_args("c1"), vec![s("logs"), s("--follow"), s("--timestamps"), s("--tail"), s("100"), s("c1")]);
    assert_eq!(split_log_line("2024-01-01T00:00:00Z hello world"), (Some(s("2024-01-01T00:00:00Z")), s("hello world")));
    assert_eq!(split_log_line("nospace"), (None, s("nospace")));
}

#[test]
fn shares_stay_one_per_team() {
    let mut rows: Vec<ShareRow> = Vec::new();
    let owner = Some(s("t1"));
    let req = CreateAppShareRequest { team_id: s("t2"), permission: s("view") };
    let row = plan_share("a", &owner, &req, true, &rows).ok().unwrap();
    assert_eq!((row.app_id.as_str(), row.team_id.as_str(), row.permission.as_str()), ("a", "t2", "view"));
    rows.push(row);
    // The same team again is a conflict; another app may still be shared with it.
    assert_eq!(
        plan_share("a", &owner, &req, true, &rows).err(),
        Some(ApiError::Conflict(s("App is already shared with this team")))
    );
    assert!(plan_share("b", &owner, &req, true, &rows).is_ok());
    let own = CreateAppShareRequest { team_id: s("t1"), permission: s("view") };
    assert_eq!(
        plan_share("a", &owner, &own, true, &rows).err(),
        Some(ApiError::BadRequest(s("Cannot share app with its owning team")))
    );
}

#[test]
fn json_lists_are_escaped_as_serde_json_writes_them() {
    let v = Some(vec![s("a\"b"), s("x\ny"), s("\u{1}\\")]);
    assert_eq!(
        merge_optional_json(&v, &None),
        Some(s("[\"a\\\"b\",\"x\\ny\",\"\\u0001\\\\\"]"))
    );
    assert_eq!(merge_optional_json(&Some(vec![s("one")]), &None), Some(s("[\"one\"]")));
}

const COMMON: [&str; 16] = [
    "domain", "port", "healthcheck", "memory_limit", "cpu_limit", "environment", "base_directory",
    "build_target", "watch_paths", "custom_docker_options", "port_mappings", "network_aliases",
    "extra_hosts", "pre_deploy_commands", "post_deploy_commands", "domains",
];

#[test]
fn create_checks_follow_the_deployment_source() {
    let mut git: Vec<String> = ["name", "git_url", "branch", "dockerfile"].iter().map(|x| s(x)).collect();
    git.extend(COMMON.iter().map(|x| s(x)));
    git.push(s("build_type"));
    assert_eq!(create_checked_fields("https://g/r.git", &None), git);
    let mut image: Vec<String> = vec![s("name"), s("docker_image")];
    image.extend(COMMON.iter().map(|x| s(x)));
    image.push(s("build_type"));
    assert_eq!(create_checked_fields("", &Some(s("nginx"))), image);
    assert_eq!(create_checked_fields("", &Some(s(""))).len(), 18);
}

#[test]
fn update_checks_only_given_fields() {
    let mut expected: Vec<String> = COMMON.iter().filter(|f| **f != "port" && **f != "environment").map(|x| s(x)).collect();
    assert_eq!(update_checked_fields(&empty_update()), expected);
    let mut req = empty_update();
    req.git_url = Some(s(""));
    req.branch = Some(s("main"));
    req.port = Some(8080);
    let got = update_checked_fields(&req);
    assert_eq!(got[0], "branch");
    assert_eq!(got[1], "domain");
    assert_eq!(got[2], "port");
    expected.insert(0, s("branch"));
    expected.insert(2, s("port"));
    assert_eq!(got, expected);
}

#[test]
fn cloned_app_gets_its_own_domain_and_environment() {
    let mut src = app();
    src.domains = Some(s("[\"a.example.com\"]"));
    src.auto_subdomain = Some(s("web-abc"));
    let c = rivetr::clone::cloned_app(&src, s("new-id"), s("env-2"), s("now"));
    assert_eq!(c.id, "new-id");
    assert_eq!(c.environment_id.as_deref(), Some("env-2"));
    assert_eq!((c.domain, c.domains, c.auto_subdomain), (None, None, None));
    assert_eq!((c.name.as_str(), c.git_url.as_str(), c.port), ("web", "https://github.com/a/b", 8080));
    assert_eq!((c.created_at.as_str(), c.updated_at.as_str()), ("now", "now"));
}

#[test]
fn labels_are_stored_as_a_json_object() {
    assert_eq!(new_app_labels(&None), None);
    assert_eq!(new_app_labels(&Some(vec![])), Some(s("{}")));
    assert_eq!(new_app_labels(&Some(vec![(s("tier"), s("web"))])), Some(s("{\"tier\":\"web\"}")));
    let two = new_app_labels(&Some(vec![(s("a"), s("1")), (s("b"), s("2"))])).unwrap();
    assert!(two == "{\"a\":\"1\",\"b\":\"2\"}" || two == "{\"b\":\"2\",\"a\":\"1\"}");
    let mut req = empty_update();
    req.container_labels = Some(vec![]);
    let mut a = app();
    a.container_labels = Some(s("{\"x\":\"y\"}"));
    assert_eq!(merge_app_update(&a, req, s("now")).container_labels, None);
    let mut req = empty_update();
    req.container_labels = Some(vec![(s("k"), s("v"))]);
    assert_eq!(merge_app_update(&a, req, s("now")).container_labels.as_deref(), Some("{\"k\":\"v\"}"));
    assert_eq!(merge_app_update(&a, empty_update(), s("now")).container_labels.as_deref(), Some("{\"x\":\"y\"}"));
}

#[test]
fn uptime_only_for_a_running_deployment() {
    let started = Some(s("2020-01-01T00:00:00Z"));
    assert!(status_uptime("running", &started).unwrap() > 0);
    assert_eq!(status_uptime("stopped", &started), None);
    assert_eq!(status_uptime("running", &Some(s("yesterday"))), None);
    assert_eq!(status_uptime("running", &None), None);
}
