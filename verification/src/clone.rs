//! Cloning an environment: the name the clone is given, where the data of
//! its cloned databases goes, and the summary answered.
use vstd::prelude::*;
use crate::apps::App;
use crate::error::ApiError;
use crate::text::{
    chars_of, clone_opt, lemma_utf8_len_prefix, opt_view, owned, push_str, slice_to_vec, trim, trim_str, utf8_len,
    utf8_len_exceeds, string_of,
};

verus! {

/// Request body for cloning an environment.
pub struct CloneEnvironmentRequest {
    /// Name for the new (cloned) environment
    pub name: String,
}

/// Response for a successful clone: the newly created environment.
pub struct CloneEnvironmentResponse {
    pub id: String,
    pub project_id: String,
    pub name: String,
    pub description: Option<String>,
    pub is_default: bool,
    pub created_at: String,
    pub updated_at: String,
    /// Summary counts of what was cloned
    pub cloned_apps: usize,
    pub cloned_databases: usize,
    pub cloned_services: usize,
}

/// A stored environment of a project.
pub struct ProjectEnvironment {
    pub id: String,
    pub project_id: String,
    pub name: String,
    pub description: Option<String>,
    pub is_default: i64,
    pub created_at: String,
    pub updated_at: String,
}

/// The outcome of checking the name asked for a cloned environment: the
/// trimmed name, which must be non-empty and at most 50 bytes long.
pub open spec fn spec_clone_name(name: Seq<char>) -> Result<Seq<char>, Seq<char>> {
    let t = trim(name);
    if t.len() == 0 {
        Err("Environment name is required"@)
    } else if utf8_len(t) > 50 {
        Err("Environment name is too long (max 50 characters)"@)
    } else {
        Ok(t)
    }
}

/// Checks the name asked for a cloned environment and trims it; a bad
/// name is a validation error of the field `name`.
pub fn validate_clone_name(req: &CloneEnvironmentRequest) -> (r: Result<String, ApiError>)
    ensures
        match spec_clone_name(req.name@) {
            Ok(n) => r matches Ok(x) && x@ == n,
            Err(m) => r matches Err(ApiError::Validation { field, message }) && field@ == "name"@
                && message@ == m,
        },
{
    let t = trim_str(req.name.as_str());
    let name = string_of(t.as_slice());
    if name.as_str().is_empty() {
        return Err(
            ApiError::Validation {
                field: owned("name"),
                message: owned("Environment name is required"),
            },
        );
    }
    if utf8_len_exceeds(name.as_str(), 50) {
        return Err(
            ApiError::Validation {
                field: owned("name"),
                message: owned("Environment name is too long (max 50 characters)"),
            },
        );
    }
    Ok(name)
}

/// `k` counts the characters of the longest prefix of `s` that takes at
/// most `n` bytes in UTF-8.
pub open spec fn is_byte_prefix_len(s: Seq<char>, n: int, k: int) -> bool {
    &&& 0 <= k <= s.len()
    &&& utf8_len(s.take(k)) <= n
    &&& (k == s.len() || utf8_len(s.take(k + 1)) > n)
}

/// The characters of the first `n` bytes of `s` (all of a shorter one),
/// as `&s[..n.min(s.len())]` gives them when that is a character boundary.
pub open spec fn byte_prefix(s: Seq<char>, n: int) -> Seq<char> {
    s.take(choose|k: int| is_byte_prefix_len(s, n, k))
}

/// Cutting `s` after `n` bytes falls between two characters (or `s` is no
/// longer than `n` bytes).
pub open spec fn cuts_at_char(s: Seq<char>, n: int) -> bool {
    utf8_len(s) <= n || exists|k: int| 0 <= k <= s.len() && utf8_len(#[trigger] s.take(k)) == n
}

/// The longest prefix within `n` bytes is unique.
proof fn lemma_byte_prefix_len_unique(s: Seq<char>, n: int, k1: int, k2: int)
    requires
        is_byte_prefix_len(s, n, k1),
        is_byte_prefix_len(s, n, k2),
    ensures
        k1 == k2,
{
    if k1 < k2 {
        lemma_utf8_len_prefix(s.take(k2), k1 + 1);
        assert(s.take(k2).take(k1 + 1) =~= s.take(k1 + 1));
    } else if k2 < k1 {
        lemma_utf8_len_prefix(s.take(k1), k2 + 1);
        assert(s.take(k1).take(k2 + 1) =~= s.take(k2 + 1));
    }
}

/// The directory a cloned database keeps its data in: its name and the
/// first eight bytes of its new ID.
pub open spec fn spec_volume_dir(db_name: Seq<char>, new_db_id: Seq<char>) -> Seq<char> {
    db_name + "-"@ + byte_prefix(new_db_id, 8)
}

/// The directory a cloned database keeps its data in. The new ID must not
/// be cut inside a character after eight bytes.
pub fn cloned_volume_dir(db_name: &str, new_db_id: &str) -> (r: String)
    requires
        cuts_at_char(new_db_id@, 8),
    ensures
        r@ == spec_volume_dir(db_name@, new_db_id@),
{
    let v = chars_of(new_db_id);
    let mut total: usize = 0;
    let mut i: usize = 0;
    while i < v.len()
        invariant
            i <= v@.len(),
            v@ == new_db_id@,
            total == utf8_len(v@.take(i as int)),
            total <= 8,
        ensures
            i <= v@.len(),
            total == utf8_len(v@.take(i as int)),
            i == v@.len() || utf8_len(v@.take(i + 1)) > 8,
        decreases v.len() - i,
    {
        let c = v[i];
        let w: usize = if (c as u32) < 0x80 {
            1
        } else if (c as u32) < 0x800 {
            2
        } else if (c as u32) < 0x10000 {
            3
        } else {
            4
        };
        proof {
            let t = v@.take(i + 1);
            assert(t.drop_last() =~= v@.take(i as int));
            assert(t.last() == c);
        }
        if w > 8 - total {
            break;
        }
        total = total + w;
        i = i + 1;
    }
    proof {
        assert(is_byte_prefix_len(new_db_id@, 8, i as int)) by {
            if i == v@.len() {
                assert(v@.take(i as int) =~= v@);
            }
        }
        let k = choose|k: int| is_byte_prefix_len(new_db_id@, 8, k);
        lemma_byte_prefix_len_unique(new_db_id@, 8, i as int, k);
    }
    let part = slice_to_vec(v.as_slice(), 0, i);
    assert(part@ =~= new_db_id@.take(i as int));
    let mut s = owned(db_name);
    push_str(&mut s, "-");
    let p = string_of(part.as_slice());
    push_str(&mut s, p.as_str());
    s
}

/// The parent of a path, as `std::path::Path::parent` gives it.
pub uninterp spec fn path_parent(path: Seq<char>) -> Option<Seq<char>>;

/// A path with a segment joined on, as `std::path::Path::join` gives it.
pub uninterp spec fn path_join(base: Seq<char>, segment: Seq<char>) -> Seq<char>;

/// The parent of a path.
///
/// Trusted: calls `std::path::Path::parent` on the path and converts the
/// result back to a string; the result depends on the path alone, and the
/// contract names it. What counts as a separator is fixed by the platform
/// the crate is built for (`/` on Unix, `/` and `\\` on Windows), so the
/// name stands for the parent on that one platform.
#[verifier::external_body]
fn parent_of(path: &str) -> (r: Option<String>)
    ensures
        opt_view(r) == path_parent(path@),
{
    std::path::Path::new(path).parent().map(|p| p.to_string_lossy().to_string())
}

/// A path with a segment joined on.
///
/// Trusted: calls `std::path::Path::join` and converts the result back to
/// a string; the result depends on the two arguments alone, and the
/// contract names it. The separator it inserts and what counts as an
/// absolute segment are fixed by the platform the crate is built for, so
/// the name stands for the join on that one platform.
#[verifier::external_body]
fn join_path(base: &str, segment: &str) -> (r: String)
    ensures
        r@ == path_join(base@, segment@),
{
    std::path::Path::new(base).join(segment).to_string_lossy().to_string()
}

/// Where a cloned database keeps its data: the directory of the original's
/// data with its last segment replaced by the clone's own directory.
pub open spec fn spec_cloned_volume_path(old_path: Option<Seq<char>>, volume_dir: Seq<char>) -> Option<
    Seq<char>,
> {
    match old_path {
        Some(p) => match path_parent(p) {
            Some(parent) => Some(path_join(parent, volume_dir)),
            None => None,
        },
        None => None,
    }
}

/// Where a cloned database keeps its data.
pub fn cloned_volume_path(old_path: &Option<String>, volume_dir: &str) -> (r: Option<String>)
    ensures
        opt_view(r) == spec_cloned_volume_path(opt_view(*old_path), volume_dir@),
{
    match old_path {
        Some(p) => match parent_of(p.as_str()) {
            Some(parent) => Some(join_path(parent.as_str(), volume_dir)),
            None => None,
        },
        None => None,
    }
}

/// The environment a clone creates: a new identifier, the source's
/// project and description, the checked name, not the default
/// environment, created and updated at `now`.
pub fn cloned_environment(source: &ProjectEnvironment, new_id: String, name: String, now: String) -> (r:
    ProjectEnvironment)
    ensures
        r.id == new_id,
        r.project_id@ == source.project_id@,
        r.name == name,
        opt_view(r.description) == opt_view(source.description),
        r.is_default == 0,
        r.created_at@ == now@,
        r.updated_at@ == now@,
{
    let created_at = now.clone();
    ProjectEnvironment {
        id: new_id,
        project_id: source.project_id.clone(),
        name,
        description: clone_opt(&source.description),
        is_default: 0,
        created_at,
        updated_at: now,
    }
}

/// The answer to a clone: the new environment and how many apps,
/// databases and services were cloned into it.
pub fn clone_response(
    env: ProjectEnvironment,
    cloned_apps: usize,
    cloned_databases: usize,
    cloned_services: usize,
) -> (r: CloneEnvironmentResponse)
    ensures
        r.id == env.id,
        r.project_id == env.project_id,
        r.name == env.name,
        r.description == env.description,
        r.is_default == (env.is_default != 0),
        r.created_at == env.created_at,
        r.updated_at == env.updated_at,
        r.cloned_apps == cloned_apps,
        r.cloned_databases == cloned_databases,
        r.cloned_services == cloned_services,
{
    CloneEnvironmentResponse {
        id: env.id,
        project_id: env.project_id,
        name: env.name,
        description: env.description,
        is_default: env.is_default != 0,
        created_at: env.created_at,
        updated_at: env.updated_at,
        cloned_apps,
        cloned_databases,
        cloned_services,
    }
}

/// The app `r` is the clone of `a` into the environment `env_id` under the
/// identifier `id` at time `now`: every setting is copied, the domain, the
/// domain list and the automatic subdomain are cleared (the clone must get
/// its own), and both timestamps are `now`.
pub open spec fn cloned_app_of(r: App, a: App, id: Seq<char>, env_id: Seq<char>, now: Seq<char>) -> bool {
    &&& r.id@ == id
    &&& opt_view(r.environment_id) == Some(env_id)
    &&& r.domain is None && r.domains is None && r.auto_subdomain is None
    &&& r.created_at@ == now && r.updated_at@ == now
    &&& r.name@ == a.name@
    &&& r.git_url@ == a.git_url@
    &&& r.branch@ == a.branch@
    &&& r.dockerfile@ == a.dockerfile@
    &&& r.port == a.port
    &&& opt_view(r.healthcheck) == opt_view(a.healthcheck)
    &&& opt_view(r.memory_limit) == opt_view(a.memory_limit)
    &&& opt_view(r.cpu_limit) == opt_view(a.cpu_limit)
    &&& opt_view(r.ssh_key_id) == opt_view(a.ssh_key_id)
    &&& r.environment@ == a.environment@
    &&& opt_view(r.project_id) == opt_view(a.project_id)
    &&& opt_view(r.team_id) == opt_view(a.team_id)
    &&& opt_view(r.dockerfile_path) == opt_view(a.dockerfile_path)
    &&& opt_view(r.base_directory) == opt_view(a.base_directory)
    &&& opt_view(r.build_target) == opt_view(a.build_target)
    &&& opt_view(r.watch_paths) == opt_view(a.watch_paths)
    &&& opt_view(r.custom_docker_options) == opt_view(a.custom_docker_options)
    &&& opt_view(r.port_mappings) == opt_view(a.port_mappings)
    &&& opt_view(r.network_aliases) == opt_view(a.network_aliases)
    &&& opt_view(r.extra_hosts) == opt_view(a.extra_hosts)
    &&& opt_view(r.pre_deploy_commands) == opt_view(a.pre_deploy_commands)
    &&& opt_view(r.post_deploy_commands) == opt_view(a.post_deploy_commands)
    &&& opt_view(r.docker_image) == opt_view(a.docker_image)
    &&& opt_view(r.docker_image_tag) == opt_view(a.docker_image_tag)
    &&& opt_view(r.registry_url) == opt_view(a.registry_url)
    &&& opt_view(r.registry_username) == opt_view(a.registry_username)
    &&& opt_view(r.registry_password) == opt_view(a.registry_password)
    &&& opt_view(r.container_labels) == opt_view(a.container_labels)
    &&& opt_view(r.build_type) == opt_view(a.build_type)
    &&& opt_view(r.nixpacks_config) == opt_view(a.nixpacks_config)
    &&& opt_view(r.publish_directory) == opt_view(a.publish_directory)
    &&& r.preview_enabled == a.preview_enabled
    &&& opt_view(r.github_app_installation_id) == opt_view(a.github_app_installation_id)
    &&& r.require_approval == a.require_approval
    &&& r.maintenance_mode == a.maintenance_mode
    &&& opt_view(r.maintenance_message) == opt_view(a.maintenance_message)
    &&& r.auto_rollback_enabled == a.auto_rollback_enabled
    &&& r.registry_push_enabled == a.registry_push_enabled
    &&& r.max_rollback_versions == a.max_rollback_versions
    &&& r.rollback_retention_count == a.rollback_retention_count
    &&& opt_view(r.server_id) == opt_view(a.server_id)
    &&& opt_view(r.deployment_source) == opt_view(a.deployment_source)
}

/// The clone of an app into a new environment, under a new identifier, at
/// time `now`.
pub fn cloned_app(a: &App, new_id: String, new_env_id: String, now: String) -> (r: App)
    ensures
        cloned_app_of(r, *a, new_id@, new_env_id@, now@),
{
    let updated_at = now.clone();
    App {
        id: new_id,
        name: a.name.clone(),
        git_url: a.git_url.clone(),
        branch: a.branch.clone(),
        dockerfile: a.dockerfile.clone(),
        domain: None,
        port: a.port,
        healthcheck: clone_opt(&a.healthcheck),
        memory_limit: clone_opt(&a.memory_limit),
        cpu_limit: clone_opt(&a.cpu_limit),
        ssh_key_id: clone_opt(&a.ssh_key_id),
        environment: a.environment.clone(),
        project_id: clone_opt(&a.project_id),
        environment_id: Some(new_env_id),
        team_id: clone_opt(&a.team_id),
        dockerfile_path: clone_opt(&a.dockerfile_path),
        base_directory: clone_opt(&a.base_directory),
        build_target: clone_opt(&a.build_target),
        watch_paths: clone_opt(&a.watch_paths),
        custom_docker_options: clone_opt(&a.custom_docker_options),
        port_mappings: clone_opt(&a.port_mappings),
        network_aliases: clone_opt(&a.network_aliases),
        extra_hosts: clone_opt(&a.extra_hosts),
        pre_deploy_commands: clone_opt(&a.pre_deploy_commands),
        post_deploy_commands: clone_opt(&a.post_deploy_commands),
        domains: None,
        auto_subdomain: None,
        docker_image: clone_opt(&a.docker_image),
        docker_image_tag: clone_opt(&a.docker_image_tag),
        registry_url: clone_opt(&a.registry_url),
        registry_username: clone_opt(&a.registry_username),
        registry_password: clone_opt(&a.registry_password),
        container_labels: clone_opt(&a.container_labels),
        build_type: clone_opt(&a.build_type),
        nixpacks_config: clone_opt(&a.nixpacks_config),
        publish_directory: clone_opt(&a.publish_directory),
        preview_enabled: a.preview_enabled,
        github_app_installation_id: clone_opt(&a.github_app_installation_id),
        require_approval: a.require_approval,
        maintenance_mode: a.maintenance_mode,
        maintenance_message: clone_opt(&a.maintenance_message),
        auto_rollback_enabled: a.auto_rollback_enabled,
        registry_push_enabled: a.registry_push_enabled,
        max_rollback_versions: a.max_rollback_versions,
        rollback_retention_count: a.rollback_retention_count,
        server_id: clone_opt(&a.server_id),
        deployment_source: clone_opt(&a.deployment_source),
        created_at: now,
        updated_at,
    }
}

} // verus!
