use rivetr::ai::{ai_settings, endpoint, join_blocks, provider_from_name, AiProvider};
use rivetr::alerts::{alert_belongs_to, is_valid_metric_type};
use rivetr::api_tokens::{check_token_owner, create_token, create_token_with, token_response, ApiToken, CreateApiTokenRequest};
use rivetr::audit::extract_client_ip;
use rivetr::basic_auth::{update_basic_auth, validate_basic_auth, UpdateBasicAuthRequest};
use rivetr::build_servers::{health_status, parse_build_server_health_output};
use rivetr::cloudflare_tunnels::{tunnel_command, tunnel_container_name, tunnel_image, tunnel_start_plan, TunnelStart};
use rivetr::community_templates::{check_delete, check_list, check_view, review_submission, validate_submission, SubmitTemplateRequest};
use rivetr::costs::{default_period, parse_period};
use rivetr::crypto::{hash_token, verify_password};
use rivetr::database_backups::{backup_list_limit, merge_schedule, CreateBackupScheduleRequest, ListBackupsQuery, ScheduleType};
use rivetr::domains::{checked_domain, dns_check_response, fallback_server_ip, DnsCheckQuery};
use rivetr::error::ApiError;
use std::str::FromStr;

fn s(x: &str) -> String {
    x.to_string()
}

#[test]
fn ai_providers() {
    assert_eq!(provider_from_name("OpenAI"), AiProvider::OpenAi);
    assert_eq!(provider_from_name("gemini"), AiProvider::Gemini);
    assert_eq!(provider_from_name("MOONSHOT"), AiProvider::Moonshot);
    assert_eq!(provider_from_name("anything"), AiProvider::Claude);
    assert_eq!(AiProvider::from_str("openai"), Ok(AiProvider::OpenAi));
    assert_eq!(AiProvider::default(), AiProvider::Claude);
}

#[test]
fn ai_settings_and_endpoints() {
    let st = ai_settings(AiProvider::OpenAi, s("k"), None, None).unwrap();
    assert_eq!((st.model.as_str(), st.max_tokens), ("gpt-4o", 2048));
    let st = ai_settings(AiProvider::Gemini, s("KEY"), Some(s("gm")), Some(10)).unwrap();
    assert_eq!(st.max_tokens, 10);
    assert_eq!(endpoint(&st), "https://generativelanguage.googleapis.com/v1beta/models/gm:generateContent?key=KEY");
    assert!(ai_settings(AiProvider::Claude, s("k"), None, None).is_none());
    let st = ai_settings(AiProvider::Moonshot, s("k"), None, None).unwrap();
    assert_eq!(endpoint(&st), "https://api.moonshot.cn/v1/chat/completions");
    assert_eq!(join_blocks(&vec![s("a"), s("b")]), "ab");
}

#[test]
fn alert_metrics() {
    assert!(is_valid_metric_type("CPU"));
    assert!(is_valid_metric_type("memory"));
    assert!(is_valid_metric_type("Disk"));
    assert!(!is_valid_metric_type("network"));
    assert!(alert_belongs_to(&Some(s("a")), "a"));
    assert!(!alert_belongs_to(&None, "a"));
}

#[test]
fn api_tokens() {
    assert_eq!(
        check_token_owner("system", true),
        Err(ApiError::Forbidden(s("Cannot create tokens for the admin API token user")))
    );
    assert_eq!(
        check_token_owner("system", false),
        Err(ApiError::Forbidden(s("Cannot delete tokens for the admin API token user")))
    );
    assert_eq!(check_token_owner("u1", false), Ok(()));
    let req = CreateApiTokenRequest { name: s("   "), expires_at: None };
    assert!(matches!(create_token_with("u1", req, s("id"), s("now")), Err(ApiError::Validation { .. })));
    let req = CreateApiTokenRequest { name: s(" ci "), expires_at: Some(s("2030")) };
    let t = match create_token_with("u1", req, s("id"), s("now")) {
        Ok(t) => t,
        Err(_) => panic!("token refused"),
    };
    let secret = t.response.token.clone().unwrap();
    assert!(secret.starts_with("rvt_"));
    assert_eq!(secret.len(), 68);
    assert_eq!(t.record.token_hash, hash_token(&secret));
    assert_eq!(t.record.name, "ci");
    let listed = token_response(ApiToken {
        id: s("id"),
        name: s("ci"),
        token_hash: t.record.token_hash.clone(),
        user_id: s("u1"),
        created_at: s("now"),
        last_used_at: None,
        expires_at: None,
    });
    assert!(listed.token.is_none());
}

#[test]
fn token_gets_fresh_identifier_and_time() {
    let req = CreateApiTokenRequest { name: s("deploy"), expires_at: None };
    let t = match create_token("u1", req) {
        Ok(t) => t,
        Err(_) => panic!("token refused"),
    };
    assert_eq!(t.record.id, t.response.id);
    assert_eq!(t.record.id.len(), 36);
    assert_eq!(t.record.id.chars().filter(|c| *c == '-').count(), 4);
    assert_eq!(t.record.created_at, t.response.created_at);
    assert!(!t.record.created_at.is_empty());
    let req = CreateApiTokenRequest { name: s("deploy"), expires_at: None };
    let other = create_token("u1", req).ok().unwrap();
    assert_ne!(other.record.id, t.record.id);
    let req = CreateApiTokenRequest { name: s("x"), expires_at: None };
    assert!(matches!(create_token("system", req), Err(ApiError::Forbidden(_))));
}

#[test]
fn client_ip_attribution() {
    assert_eq!(extract_client_ip(Some(" 1.1.1.1 , 2.2.2.2"), Some("3.3.3.3"), Some(s("4.4.4.4"))), Some(s("1.1.1.1")));
    assert_eq!(extract_client_ip(Some(" , 2.2.2.2"), Some(" 3.3.3.3 "), None), Some(s("3.3.3.3")));
    assert_eq!(extract_client_ip(None, Some("  "), Some(s("4.4.4.4"))), Some(s("4.4.4.4")));
    assert_eq!(extract_client_ip(None, None, None), None);
}

fn basic(enabled: bool, u: Option<&str>, p: Option<&str>) -> UpdateBasicAuthRequest {
    UpdateBasicAuthRequest { enabled, username: u.map(s), password: p.map(s) }
}

fn field_of(r: Result<(), ApiError>) -> (String, String) {
    match r {
        Err(ApiError::Validation { field, message }) => (field, message),
        _ => panic!("expected a validation error"),
    }
}

#[test]
fn basic_auth_validation() {
    assert_eq!(validate_basic_auth(&basic(false, None, None)), Ok(()));
    assert_eq!(field_of(validate_basic_auth(&basic(true, None, Some("password1")))).1, "Username is required when enabling basic auth");
    assert_eq!(field_of(validate_basic_auth(&basic(true, Some("ab"), Some("password1")))).1, "Username must be at least 3 characters");
    assert_eq!(field_of(validate_basic_auth(&basic(true, Some(&"a".repeat(65)), Some("password1")))).1, "Username must be at most 64 characters");
    assert_eq!(
        field_of(validate_basic_auth(&basic(true, Some("bad user"), Some("password1")))).1,
        "Username can only contain letters, numbers, underscores, and dashes"
    );
    assert_eq!(field_of(validate_basic_auth(&basic(true, Some("admin"), None))), (s("password"), s("Password is required when enabling basic auth")));
    assert_eq!(field_of(validate_basic_auth(&basic(true, Some("admin"), Some("short")))).1, "Password must be at least 8 characters");
    assert_eq!(validate_basic_auth(&basic(true, Some("ädmin_1"), Some("longenough"))), Ok(()));
}

#[test]
fn basic_auth_update() {
    let (settings, answer) = match update_basic_auth(basic(true, Some("admin"), Some("longenough"))) {
        Ok(x) => x,
        Err(_) => panic!("refused"),
    };
    assert!(settings.enabled && answer.enabled);
    assert_eq!(answer.username.as_deref(), Some("admin"));
    assert!(verify_password("longenough", settings.password_hash.as_deref().unwrap()));
    let (settings, answer) = match update_basic_auth(basic(false, Some("admin"), Some("x"))) {
        Ok(x) => x,
        Err(_) => panic!("refused"),
    };
    assert!(settings.username.is_none() && settings.password_hash.is_none() && answer.username.is_none());
}

#[test]
fn build_server_health_output() {
    let out = "DOCKER: 24.0.7\nCPU: 8\nMEM: 16777216\n";
    let st = parse_build_server_health_output(out);
    assert_eq!(st.docker_version.as_deref(), Some("24.0.7"));
    assert_eq!((st.cpu_count, st.memory_bytes), (Some(8), Some(16777216)));
    let st = parse_build_server_health_output("  DOCKER:   \nCPU:N/A\nMEM: lots\nnoise");
    assert_eq!((st.docker_version, st.cpu_count, st.memory_bytes), (None, None, None));
    let st = parse_build_server_health_output("CPU:2\r\nCPU:4");
    assert_eq!(st.cpu_count, Some(4));
    assert_eq!(health_status(&Some(st)), "online");
    assert_eq!(health_status(&None), "offline");
}

#[test]
fn cost_periods() {
    assert_eq!(default_period(), "30d");
    assert_eq!(parse_period("7d"), Ok(7));
    assert_eq!(parse_period("30d"), Ok(30));
    assert_eq!(parse_period("90d"), Ok(90));
    assert_eq!(parse_period("1y"), Err(400));
}

#[test]
fn backup_listing_and_schedules() {
    assert_eq!(backup_list_limit(&ListBackupsQuery { limit: None }), 50);
    assert_eq!(backup_list_limit(&ListBackupsQuery { limit: Some(500) }), 100);
    assert_eq!(backup_list_limit(&ListBackupsQuery { limit: Some(3) }), 3);
    let req = CreateBackupScheduleRequest { enabled: None, schedule_type: Some(s("weekly")), schedule_hour: None, schedule_day: Some(1), retention_count: None };
    let st = merge_schedule(&None, &req);
    assert!(matches!(st.schedule_type, ScheduleType::Weekly));
    assert_eq!((st.enabled, st.schedule_hour, st.schedule_day, st.retention_count), (1, 2, Some(1), 5));
    let req2 = CreateBackupScheduleRequest { enabled: Some(false), schedule_type: Some(s("monthly")), schedule_hour: Some(4), schedule_day: None, retention_count: Some(9) };
    let st2 = merge_schedule(&Some(st), &req2);
    assert!(matches!(st2.schedule_type, ScheduleType::Daily));
    assert_eq!((st2.enabled, st2.schedule_hour, st2.schedule_day, st2.retention_count), (0, 4, Some(1), 9));
}

#[test]
fn dns_checks() {
    assert_eq!(checked_domain(&DnsCheckQuery { domain: s("  Example.COM ") }), "example.com");
    assert_eq!(fallback_server_ip("0.0.0.0"), "");
    assert_eq!(fallback_server_ip("::"), "");
    assert_eq!(fallback_server_ip("10.0.0.5"), "10.0.0.5");
    let r = dns_check_response(s("a.io"), s("1.1.1.1"), Some(vec![s("2.2.2.2"), s("1.1.1.1"), s("2.2.2.2")]));
    assert!(r.resolves && r.points_to_server);
    assert_eq!(r.resolved_ips, vec![s("2.2.2.2"), s("1.1.1.1")]);
    let r = dns_check_response(s("a.io"), s(""), Some(vec![s("2.2.2.2")]));
    assert!(r.resolves && !r.points_to_server);
    let r = dns_check_response(s("a.io"), s("1.1.1.1"), None);
    assert!(!r.resolves && r.resolved_ips.is_empty());
    let r = dns_check_response(s(""), s("1.1.1.1"), Some(vec![s("1.1.1.1")]));
    assert!(!r.resolves && !r.points_to_server);
}

#[test]
fn tunnels() {
    assert!(matches!(tunnel_start_plan(&Some(s("c1"))), TunnelStart::Restart(c) if c == "c1"));
    assert!(matches!(tunnel_start_plan(&Some(s(""))), TunnelStart::Create));
    assert!(matches!(tunnel_start_plan(&None), TunnelStart::Create));
    assert_eq!(tunnel_container_name("t1"), "rivetr-tunnel-t1");
    assert_eq!(tunnel_image(), "cloudflare/cloudflared:latest");
    assert_eq!(tunnel_command("TOK"), vec![s("tunnel"), s("--no-autoupdate"), s("run"), s("--token"), s("TOK")]);
}

#[test]
fn community_templates() {
    let req = SubmitTemplateRequest { name: s("x"), description: s(" "), compose_content: s("c") };
    assert_eq!(
        validate_submission(&req),
        Err(ApiError::Validation { field: s("description"), message: s("Description is required") })
    );
    let req = SubmitTemplateRequest { name: s("x"), description: s("d"), compose_content: s("c") };
    assert_eq!(validate_submission(&req), Ok(()));
    assert_eq!(check_list("member"), Err(ApiError::Forbidden(s("Admin access required"))));
    assert_eq!(check_view("member", "u1", "u1"), Ok(()));
    assert_eq!(check_view("member", "u1", "u2"), Err(ApiError::Forbidden(s("You can only view your own submissions"))));
    assert_eq!(review_submission("admin", "approve", &Some(s("pending"))), Ok(s("approved")));
    assert_eq!(review_submission("admin", "reject", &Some(s("pending"))), Ok(s("rejected")));
    assert_eq!(
        review_submission("admin", "approve", &Some(s("approved"))),
        Err(ApiError::BadRequest(s("Only pending submissions can be reviewed")))
    );
    assert_eq!(
        review_submission("admin", "maybe", &Some(s("pending"))),
        Err(ApiError::Validation { field: s("action"), message: s("Action must be 'approve' or 'reject'") })
    );
    assert_eq!(review_submission("admin", "approve", &None), Err(ApiError::NotFound(s("Submission not found"))));
    assert_eq!(review_submission("member", "approve", &None), Err(ApiError::Forbidden(s("Admin access required"))));
    assert_eq!(check_delete("member", "u1", "u1", "pending"), Ok(()));
    assert_eq!(check_delete("member", "u1", "u1", "approved"), Err(ApiError::BadRequest(s("You can only delete pending submissions"))));
    assert_eq!(check_delete("member", "u1", "u2", "pending"), Err(ApiError::Forbidden(s("You can only delete your own submissions"))));
    assert_eq!(check_delete("admin", "u1", "u2", "approved"), Ok(()));
}
