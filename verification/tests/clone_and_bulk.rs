use rivetr::bulk::{
    bulk_deploy_refusal, bulk_result, clone_name, export_env_vars, export_volumes,
    import_response, imported_env_vars, maintenance_response, project_export, usable_container,
    CloneAppRequest, EnvVarRow, MaintenanceModeRequest, VolumeRow,
};
use rivetr::clone::{
    clone_response, cloned_environment, cloned_volume_dir, cloned_volume_path, validate_clone_name,
    CloneEnvironmentRequest, ProjectEnvironment,
};
use rivetr::error::ApiError;

fn s(x: &str) -> String {
    x.to_string()
}

#[test]
fn clone_names_are_trimmed_and_bounded() {
    assert_eq!(validate_clone_name(&CloneEnvironmentRequest { name: s("  staging  ") }), Ok(s("staging")));
    assert_eq!(
        validate_clone_name(&CloneEnvironmentRequest { name: s("   ") }),
        Err(ApiError::Validation { field: s("name"), message: s("Environment name is required") })
    );
    assert_eq!(validate_clone_name(&CloneEnvironmentRequest { name: "a".repeat(50) }), Ok("a".repeat(50)));
    assert_eq!(
        validate_clone_name(&CloneEnvironmentRequest { name: "a".repeat(51) }),
        Err(ApiError::Validation { field: s("name"), message: s("Environment name is too long (max 50 characters)") })
    );
    // 26 two-byte characters take 52 bytes.
    assert!(validate_clone_name(&CloneEnvironmentRequest { name: "é".repeat(26) }).is_err());
    assert!(validate_clone_name(&CloneEnvironmentRequest { name: "é".repeat(25) }).is_ok());
}

#[test]
fn cloned_database_volumes() {
    assert_eq!(cloned_volume_dir("pg", "0123456789abcdef"), "pg-01234567");
    assert_eq!(cloned_volume_dir("pg", "0123"), "pg-0123");
    assert_eq!(
        cloned_volume_path(&Some(s("/data/databases/pg-aaaaaaaa")), "pg-01234567"),
        Some(s("/data/databases/pg-01234567"))
    );
    assert_eq!(cloned_volume_path(&None, "x"), None);
    assert_eq!(cloned_volume_path(&Some(s("/")), "x"), None);
}

#[test]
fn clone_summary() {
    let env = ProjectEnvironment {
        id: s("e2"),
        project_id: s("p"),
        name: s("staging"),
        description: None,
        is_default: 0,
        created_at: s("c"),
        updated_at: s("u"),
    };
    let r = clone_response(env, 3, 1, 2);
    assert_eq!((r.id.as_str(), r.is_default, r.cloned_apps, r.cloned_databases, r.cloned_services), ("e2", false, 3, 1, 2));
}

#[test]
fn bulk_results() {
    let r = bulk_result(s("a"), false, Ok(()));
    assert_eq!((r.success, r.error.as_deref()), (false, Some("App not found")));
    let r = bulk_result(s("a"), true, Err(s("boom")));
    assert_eq!((r.success, r.error.as_deref()), (false, Some("boom")));
    let r = bulk_result(s("a"), true, Ok(()));
    assert_eq!((r.success, r.error), (true, None));
    assert_eq!(bulk_deploy_refusal(true), Err(s("Deployment already in progress")));
    assert_eq!(bulk_deploy_refusal(false), Ok(()));
    assert_eq!(usable_container(Some(s(""))), None);
    assert_eq!(usable_container(Some(s("c"))), Some(s("c")));
}

#[test]
fn clone_app_names() {
    assert_eq!(clone_name(&None, "web"), "web-copy");
    assert_eq!(clone_name(&Some(CloneAppRequest { name: None }), "web"), "web-copy");
    assert_eq!(clone_name(&Some(CloneAppRequest { name: Some(s("web2")) }), "web"), "web2");
}

#[test]
fn exports_mask_secrets_and_imports_skip_them() {
    let vars = vec![
        EnvVarRow { key: s("PLAIN"), value: s("1"), is_secret: 0 },
        EnvVarRow { key: s("TOKEN"), value: s("hunter2"), is_secret: 1 },
    ];
    let exported = export_env_vars(&vars);
    assert_eq!(exported[0].value, "1");
    assert_eq!(exported[1].value, "***");
    assert!(exported[1].is_secret);
    let imported = imported_env_vars(&exported);
    assert_eq!(imported, vec![(s("PLAIN"), s("1"), false)]);
}

#[test]
fn import_keeps_secrets_with_real_values() {
    let vars = vec![rivetr::bulk::ExportEnvVar { key: s("K"), value: s("real"), is_secret: true }];
    assert_eq!(imported_env_vars(&vars), vec![(s("K"), s("real"), true)]);
}

#[test]
fn export_envelope_and_responses() {
    let vols = export_volumes(&vec![VolumeRow { name: s("v"), host_path: s("/h"), container_path: s("/c"), read_only: 1 }]);
    assert!(vols[0].read_only);
    let e = project_export(s("proj"), vec![]);
    assert_eq!((e.project_name.as_str(), e.export_version, e.apps.len()), ("proj", 1, 0));
    let r = import_response(vec![s("a"), s("b")]);
    assert_eq!(r.apps_created, 2);
    let m = maintenance_response(s("a"), MaintenanceModeRequest { enabled: true, message: Some(s("brb")) });
    assert_eq!((m.maintenance_mode, m.maintenance_message.as_deref()), (true, Some("brb")));
}

#[test]
fn volume_dir_takes_eight_bytes() {
    // 'é' takes two bytes, so eight bytes end after six more characters.
    assert_eq!(cloned_volume_dir("pg", "é1234567890"), "pg-é123456");
}

#[test]
fn cloned_environment_row() {
    let src = ProjectEnvironment {
        id: s("e1"),
        project_id: s("p"),
        name: s("prod"),
        description: Some(s("live")),
        is_default: 1,
        created_at: s("c"),
        updated_at: s("u"),
    };
    let e = cloned_environment(&src, s("e2"), s("staging"), s("now"));
    assert_eq!((e.id.as_str(), e.project_id.as_str(), e.name.as_str()), ("e2", "p", "staging"));
    assert_eq!(e.description.as_deref(), Some("live"));
    assert_eq!(e.is_default, 0);
    assert_eq!((e.created_at.as_str(), e.updated_at.as_str()), ("now", "now"));
}
