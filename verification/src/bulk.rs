//! Bulk operations on apps, app clones, project export and import, and
//! maintenance mode: the results reported per app, the name of a clone,
//! what an export reveals of secrets and what an import takes back.
use vstd::prelude::*;
use crate::apps::App;
use crate::text::{clone_opt, opt_view, owned, push_str, str_eq};

verus! {

/// Body for bulk start / stop / restart / deploy.
pub struct BulkAppIdsRequest {
    pub app_ids: Vec<String>,
}

/// One result entry per app in a bulk operation.
pub struct BulkAppResult {
    pub app_id: String,
    pub success: bool,
    pub error: Option<String>,
}

/// Aggregated response for bulk operations.
pub struct BulkOperationResponse {
    pub results: Vec<BulkAppResult>,
}

/// Body for cloning an app.
pub struct CloneAppRequest {
    /// Name for the cloned app (defaults to "{original}-copy")
    pub name: Option<String>,
}

/// Response for a cloned app.
pub struct CloneAppResponse {
    pub app: App,
}

/// Body for maintenance mode toggle.
pub struct MaintenanceModeRequest {
    pub enabled: bool,
    pub message: Option<String>,
}

/// Response for a maintenance mode toggle.
pub struct MaintenanceModeResponse {
    pub app_id: String,
    pub maintenance_mode: bool,
    pub maintenance_message: Option<String>,
}

/// A stored environment variable of an app.
pub struct EnvVarRow {
    pub key: String,
    pub value: String,
    pub is_secret: i64,
}

/// A stored volume of an app.
pub struct VolumeRow {
    pub name: String,
    pub host_path: String,
    pub container_path: String,
    pub read_only: i64,
}

/// Serialisable env var for export/snapshot (no secrets).
pub struct ExportEnvVar {
    pub key: String,
    pub value: String,
    pub is_secret: bool,
}

/// Serialisable volume for export.
pub struct ExportVolume {
    pub name: String,
    pub host_path: String,
    pub container_path: String,
    pub read_only: bool,
}

/// One app entry in the project export.
pub struct ExportApp {
    pub name: String,
    pub git_url: String,
    pub branch: String,
    pub dockerfile: String,
    pub port: i32,
    pub healthcheck: Option<String>,
    pub memory_limit: Option<String>,
    pub cpu_limit: Option<String>,
    pub environment: String,
    pub dockerfile_path: Option<String>,
    pub base_directory: Option<String>,
    pub build_target: Option<String>,
    pub pre_deploy_commands: Option<String>,
    pub post_deploy_commands: Option<String>,
    pub domains: Option<String>,
    pub docker_image: Option<String>,
    pub docker_image_tag: Option<String>,
    pub build_type: Option<String>,
    pub env_vars: Vec<ExportEnvVar>,
    pub volumes: Vec<ExportVolume>,
}

/// Full project export envelope.
pub struct ProjectExport {
    pub project_name: String,
    pub export_version: u32,
    pub apps: Vec<ExportApp>,
}

/// Import response.
pub struct ProjectImportResponse {
    pub apps_created: usize,
    pub app_ids: Vec<String>,
}

// ---------------------------------------------------------------------------
// Bulk results
// ---------------------------------------------------------------------------

/// The container a bulk start, stop or restart acts on: the one of the
/// app's latest matching deployment, unless its ID is empty.
pub fn usable_container(container_id: Option<String>) -> (r: Option<String>)
    ensures
        match container_id {
            Some(c) => if c@.len() == 0 {
                r is None
            } else {
                r == Some(c)
            },
            None => r is None,
        },
{
    match container_id {
        Some(c) => if c.as_str().is_empty() {
            None
        } else {
            Some(c)
        },
        None => None,
    }
}

/// The result reported for one app of a bulk operation: a missing app is
/// reported as not found; otherwise the operation's outcome, with its
/// error message when it failed.
pub fn bulk_result(app_id: String, found: bool, outcome: Result<(), String>) -> (r: BulkAppResult)
    ensures
        r.app_id == app_id,
        r.success == (found && outcome is Ok),
        !found ==> opt_view(r.error) == Some("App not found"@),
        found ==> match outcome {
            Ok(_) => r.error is None,
            Err(e) => r.error == Some(e),
        },
{
    if !found {
        return BulkAppResult { app_id, success: false, error: Some(owned("App not found")) };
    }
    match outcome {
        Ok(()) => BulkAppResult { app_id, success: true, error: None },
        Err(e) => BulkAppResult { app_id, success: false, error: Some(e) },
    }
}

/// Why a bulk deploy of an app is skipped: a deployment of it is under
/// way.
pub fn bulk_deploy_refusal(in_progress: bool) -> (r: Result<(), String>)
    ensures
        r is Err <==> in_progress,
        r matches Err(m) ==> m@ == "Deployment already in progress"@,
{
    if in_progress {
        Err(owned("Deployment already in progress"))
    } else {
        Ok(())
    }
}

// ---------------------------------------------------------------------------
// Clones
// ---------------------------------------------------------------------------

/// The name of a cloned app: the one asked for, else `<original>-copy`.
pub open spec fn spec_clone_name(body: Option<Option<Seq<char>>>, original: Seq<char>) -> Seq<char> {
    match body {
        Some(Some(n)) => n,
        _ => original + "-copy"@,
    }
}

/// The name of a cloned app.
pub fn clone_name(body: &Option<CloneAppRequest>, original_name: &str) -> (r: String)
    ensures
        r@ == spec_clone_name(
            match body {
                Some(b) => Some(opt_view(b.name)),
                None => None,
            },
            original_name@,
        ),
{
    match body {
        Some(b) => match &b.name {
            Some(n) => n.clone(),
            None => {
                let mut s = owned(original_name);
                push_str(&mut s, "-copy");
                s
            },
        },
        None => {
            let mut s = owned(original_name);
            push_str(&mut s, "-copy");
            s
        },
    }
}

// ---------------------------------------------------------------------------
// Export and import
// ---------------------------------------------------------------------------

/// The value an export shows for a variable: secrets are masked.
pub open spec fn exported_value(v: EnvVarRow) -> Seq<char> {
    if v.is_secret != 0 {
        "***"@
    } else {
        v.value@
    }
}

/// A variable as exported.
pub open spec fn exported(v: EnvVarRow, e: ExportEnvVar) -> bool {
    e.key@ == v.key@ && e.value@ == exported_value(v) && e.is_secret == (v.is_secret != 0)
}

/// The variables of an app as exported: every variable in order, secret
/// values masked as `***`.
pub fn export_env_vars(vars: &Vec<EnvVarRow>) -> (r: Vec<ExportEnvVar>)
    ensures
        r@.len() == vars@.len(),
        forall|i: int| 0 <= i < vars@.len() ==> exported(#[trigger] vars@[i], r@[i]),
{
    let mut r: Vec<ExportEnvVar> = Vec::new();
    let mut i: usize = 0;
    while i < vars.len()
        invariant
            i <= vars@.len(),
            r@.len() == i,
            forall|j: int| 0 <= j < i ==> exported(#[trigger] vars@[j], r@[j]),
        decreases vars.len() - i,
    {
        let v = &vars[i];
        let value = if v.is_secret != 0 {
            owned("***")
        } else {
            v.value.clone()
        };
        r.push(ExportEnvVar { key: v.key.clone(), value, is_secret: v.is_secret != 0 });
        i = i + 1;
    }
    r
}

/// The volumes of an app as exported, in order.
pub fn export_volumes(volumes: &Vec<VolumeRow>) -> (r: Vec<ExportVolume>)
    ensures
        r@.len() == volumes@.len(),
        forall|i: int|
            0 <= i < volumes@.len() ==> {
                let v = #[trigger] volumes@[i];
                let e = r@[i];
                e.name@ == v.name@ && e.host_path@ == v.host_path@ && e.container_path@
                    == v.container_path@ && e.read_only == (v.read_only != 0)
            },
{
    let mut r: Vec<ExportVolume> = Vec::new();
    let mut i: usize = 0;
    while i < volumes.len()
        invariant
            i <= volumes@.len(),
            r@.len() == i,
            forall|j: int|
                0 <= j < i ==> {
                    let v = #[trigger] volumes@[j];
                    let e = r@[j];
                    e.name@ == v.name@ && e.host_path@ == v.host_path@ && e.container_path@
                        == v.container_path@ && e.read_only == (v.read_only != 0)
                },
        decreases volumes.len() - i,
    {
        let v = &volumes[i];
        r.push(
            ExportVolume {
                name: v.name.clone(),
                host_path: v.host_path.clone(),
                container_path: v.container_path.clone(),
                read_only: v.read_only != 0,
            },
        );
        i = i + 1;
    }
    r
}

/// An app as exported: its build and runtime settings with its variables
/// (secrets masked) and volumes.
pub fn export_app(app: &App, vars: &Vec<EnvVarRow>, volumes: &Vec<VolumeRow>) -> (r: ExportApp)
    ensures
        r.name == app.name && r.git_url == app.git_url && r.branch == app.branch,
        r.dockerfile == app.dockerfile && r.port == app.port && r.environment == app.environment,
        r.healthcheck == app.healthcheck && r.memory_limit == app.memory_limit,
        r.cpu_limit == app.cpu_limit && r.dockerfile_path == app.dockerfile_path,
        r.base_directory == app.base_directory && r.build_target == app.build_target,
        r.pre_deploy_commands == app.pre_deploy_commands,
        r.post_deploy_commands == app.post_deploy_commands && r.domains == app.domains,
        r.docker_image == app.docker_image && r.docker_image_tag == app.docker_image_tag,
        r.build_type == app.build_type,
        r.env_vars@.len() == vars@.len(),
        forall|i: int| 0 <= i < vars@.len() ==> exported(#[trigger] vars@[i], r.env_vars@[i]),
        r.volumes@.len() == volumes@.len(),
{
    ExportApp {
        name: app.name.clone(),
        git_url: app.git_url.clone(),
        branch: app.branch.clone(),
        dockerfile: app.dockerfile.clone(),
        port: app.port,
        healthcheck: clone_opt(&app.healthcheck),
        memory_limit: clone_opt(&app.memory_limit),
        cpu_limit: clone_opt(&app.cpu_limit),
        environment: app.environment.clone(),
        dockerfile_path: clone_opt(&app.dockerfile_path),
        base_directory: clone_opt(&app.base_directory),
        build_target: clone_opt(&app.build_target),
        pre_deploy_commands: clone_opt(&app.pre_deploy_commands),
        post_deploy_commands: clone_opt(&app.post_deploy_commands),
        domains: clone_opt(&app.domains),
        docker_image: clone_opt(&app.docker_image),
        docker_image_tag: clone_opt(&app.docker_image_tag),
        build_type: clone_opt(&app.build_type),
        env_vars: export_env_vars(vars),
        volumes: export_volumes(volumes),
    }
}

/// The export of a project: its name, format version 1, and its apps.
pub fn project_export(project_name: String, apps: Vec<ExportApp>) -> (r: ProjectExport)
    ensures
        r.project_name == project_name,
        r.export_version == 1,
        r.apps@ == apps@,
{
    ProjectExport { project_name, export_version: 1, apps }
}

/// An imported variable is taken unless it is a secret whose value was
/// masked by the export.
pub open spec fn imported(v: ExportEnvVar) -> bool {
    !(v.is_secret && v.value@ == "***"@)
}

/// The variables an import takes, as `(key, value, is_secret)`, in order.
pub open spec fn spec_imported_vars(vars: Seq<ExportEnvVar>) -> Seq<(Seq<char>, Seq<char>, bool)>
    decreases vars.len(),
{
    if vars.len() == 0 {
        seq![]
    } else {
        let rest = spec_imported_vars(vars.drop_last());
        let v = vars.last();
        if imported(v) {
            rest.push((v.key@, v.value@, v.is_secret))
        } else {
            rest
        }
    }
}

/// The view of imported variables.
pub open spec fn triples_view(v: Seq<(String, String, bool)>) -> Seq<(Seq<char>, Seq<char>, bool)> {
    v.map_values(|t: (String, String, bool)| (t.0@, t.1@, t.2))
}

/// The variables an import of an app takes, as `(key, value, is_secret)`:
/// all of them in order, but the secrets whose value the export masked.
pub fn imported_env_vars(vars: &Vec<ExportEnvVar>) -> (r: Vec<(String, String, bool)>)
    ensures
        triples_view(r@) == spec_imported_vars(vars@),
{
    let mut r: Vec<(String, String, bool)> = Vec::new();
    let mut i: usize = 0;
    assert(vars@.take(0) =~= Seq::<ExportEnvVar>::empty());
    while i < vars.len()
        invariant
            i <= vars@.len(),
            triples_view(r@) == spec_imported_vars(vars@.take(i as int)),
        decreases vars.len() - i,
    {
        let v = &vars[i];
        let masked = v.is_secret && str_eq(v.value.as_str(), "***");
        proof {
            assert(vars@.take(i + 1).drop_last() =~= vars@.take(i as int));
            assert(vars@.take(i + 1).last() == vars@[i as int]);
        }
        if !masked {
            let ghost before = r@;
            r.push((v.key.clone(), v.value.clone(), v.is_secret));
            assert(triples_view(r@) =~= triples_view(before).push((v.key@, v.value@, v.is_secret)));
        }
        i = i + 1;
    }
    assert(vars@.take(vars@.len() as int) =~= vars@);
    r
}

/// The variables of an app as `(key, value, is_secret)`, but its secrets.
pub open spec fn plain_vars(vars: Seq<EnvVarRow>) -> Seq<(Seq<char>, Seq<char>, bool)>
    decreases vars.len(),
{
    if vars.len() == 0 {
        seq![]
    } else {
        let rest = plain_vars(vars.drop_last());
        let v = vars.last();
        if v.is_secret == 0 {
            rest.push((v.key@, v.value@, false))
        } else {
            rest
        }
    }
}

/// Exporting and importing a project gives back every plain variable of
/// an app unchanged and in order, and no secret: a secret's value never
/// leaves in an export, so the import leaves it to be set again.
pub proof fn law_export_import_round_trip(vars: Seq<EnvVarRow>, exported_vars: Seq<ExportEnvVar>)
    requires
        exported_vars.len() == vars.len(),
        forall|i: int| 0 <= i < vars.len() ==> exported(#[trigger] vars[i], exported_vars[i]),
    ensures
        spec_imported_vars(exported_vars) == plain_vars(vars),
        forall|i: int|
            0 <= i < exported_vars.len() && vars[i].is_secret != 0 ==> (#[trigger] exported_vars[i]).value@
                == "***"@,
    decreases vars.len(),
{
    if vars.len() > 0 {
        let n = vars.len() - 1;
        assert forall|i: int| 0 <= i < vars.drop_last().len() implies exported(
            #[trigger] vars.drop_last()[i],
            exported_vars.drop_last()[i],
        ) by {
            assert(vars.drop_last()[i] == vars[i]);
            assert(exported_vars.drop_last()[i] == exported_vars[i]);
        }
        law_export_import_round_trip(vars.drop_last(), exported_vars.drop_last());
        assert(exported(vars[n], exported_vars[n]));
    }
}

/// The answer to an import: how many apps were created and their IDs.
pub fn import_response(app_ids: Vec<String>) -> (r: ProjectImportResponse)
    ensures
        r.apps_created == app_ids@.len(),
        r.app_ids@ == app_ids@,
{
    ProjectImportResponse { apps_created: app_ids.len(), app_ids }
}

/// The answer to a maintenance mode toggle: the app and the mode and
/// message it now has.
pub fn maintenance_response(app_id: String, req: MaintenanceModeRequest) -> (r: MaintenanceModeResponse)
    ensures
        r.app_id == app_id,
        r.maintenance_mode == req.enabled,
        r.maintenance_message == req.message,
{
    MaintenanceModeResponse {
        app_id,
        maintenance_mode: req.enabled,
        maintenance_message: req.message,
    }
}

} // verus!
