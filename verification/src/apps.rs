//! Apps: request and response types, how an update is merged into an
//! app's stored settings, how an app's status and deployment phase are
//! reported, and how a domain is generated for an app.
use vstd::prelude::*;
use crate::clock::{rfc3339_utc_clock, seconds_since};
use crate::crypto::{argon2_verifies, verify_password};
use crate::deployments::BuildDetection;
use crate::error::ApiError;
use crate::text::{clone_opt, opt_view, owned, push_str, str_eq, strings_view};

verus! {

/// The stored settings of an app.
pub struct App {
    pub id: String,
    pub name: String,
    pub git_url: String,
    pub branch: String,
    pub dockerfile: String,
    pub domain: Option<String>,
    pub port: i32,
    pub healthcheck: Option<String>,
    pub memory_limit: Option<String>,
    pub cpu_limit: Option<String>,
    pub ssh_key_id: Option<String>,
    pub environment: String,
    pub project_id: Option<String>,
    pub environment_id: Option<String>,
    pub team_id: Option<String>,
    pub dockerfile_path: Option<String>,
    pub base_directory: Option<String>,
    pub build_target: Option<String>,
    pub watch_paths: Option<String>,
    pub custom_docker_options: Option<String>,
    /// JSON array
    pub port_mappings: Option<String>,
    /// JSON array
    pub network_aliases: Option<String>,
    /// JSON array
    pub extra_hosts: Option<String>,
    /// JSON array
    pub pre_deploy_commands: Option<String>,
    /// JSON array
    pub post_deploy_commands: Option<String>,
    /// JSON array
    pub domains: Option<String>,
    pub auto_subdomain: Option<String>,
    pub docker_image: Option<String>,
    pub docker_image_tag: Option<String>,
    pub registry_url: Option<String>,
    pub registry_username: Option<String>,
    pub registry_password: Option<String>,
    /// JSON object
    pub container_labels: Option<String>,
    pub build_type: Option<String>,
    pub nixpacks_config: Option<String>,
    pub publish_directory: Option<String>,
    pub preview_enabled: bool,
    pub github_app_installation_id: Option<String>,
    pub require_approval: bool,
    pub maintenance_mode: bool,
    pub maintenance_message: Option<String>,
    pub auto_rollback_enabled: bool,
    pub registry_push_enabled: bool,
    pub max_rollback_versions: i64,
    pub rollback_retention_count: i64,
    pub server_id: Option<String>,
    pub deployment_source: Option<String>,
    pub created_at: String,
    pub updated_at: String,
}

/// A change to an app's settings: absent fields are left as they are.
/// For optional text fields an empty string clears the setting, and for
/// list fields an empty list does.
pub struct UpdateAppRequest {
    pub name: Option<String>,
    pub git_url: Option<String>,
    pub branch: Option<String>,
    pub dockerfile: Option<String>,
    pub domain: Option<String>,
    pub port: Option<i32>,
    pub healthcheck: Option<String>,
    pub memory_limit: Option<String>,
    pub cpu_limit: Option<String>,
    pub ssh_key_id: Option<String>,
    pub environment: Option<String>,
    pub project_id: Option<String>,
    pub dockerfile_path: Option<String>,
    pub base_directory: Option<String>,
    pub build_target: Option<String>,
    pub watch_paths: Option<String>,
    pub custom_docker_options: Option<String>,
    pub port_mappings: Option<Vec<String>>,
    pub network_aliases: Option<Vec<String>>,
    pub extra_hosts: Option<Vec<String>>,
    pub pre_deploy_commands: Option<Vec<String>>,
    pub post_deploy_commands: Option<Vec<String>>,
    pub domains: Option<Vec<String>>,
    pub docker_image: Option<String>,
    pub docker_image_tag: Option<String>,
    pub registry_url: Option<String>,
    pub registry_username: Option<String>,
    pub registry_password: Option<String>,
    /// The container labels, as key and value pairs with distinct keys;
    /// an empty set clears the labels.
    pub container_labels: Option<Vec<(String, String)>>,
    pub build_type: Option<String>,
    pub nixpacks_config: Option<String>,
    pub publish_directory: Option<String>,
    pub preview_enabled: Option<bool>,
    pub auto_rollback_enabled: Option<bool>,
    pub registry_push_enabled: Option<bool>,
    pub max_rollback_versions: Option<i64>,
    pub rollback_retention_count: Option<i64>,
    pub require_approval: Option<bool>,
    pub maintenance_mode: Option<bool>,
    pub maintenance_message: Option<String>,
    pub server_id: Option<String>,
}

/// Query parameters for listing apps.
pub struct ListAppsQuery {
    /// Only the apps of this team, when given.
    pub team_id: Option<String>,
}

/// Response for app status.
pub struct AppStatusResponse {
    pub app_id: String,
    pub container_id: Option<String>,
    pub running: bool,
    pub status: String,
    /// The host port the container is accessible on
    pub host_port: Option<u16>,
    /// Blue/green deployment phase: "stable" | "deploying" | "health_checking" | "switching"
    pub deployment_phase: String,
    /// ID of the currently active deployment
    pub active_deployment_id: Option<String>,
    /// Seconds since the active deployment started
    pub uptime_seconds: Option<i64>,
}

/// Request to delete an app (requires password confirmation).
pub struct DeleteAppRequest {
    pub password: String,
}

/// Configuration for creating an app from upload.
pub struct UploadAppConfig {
    pub name: String,
    pub port: u16,
    pub domain: Option<String>,
    pub healthcheck: Option<String>,
    pub cpu_limit: String,
    pub memory_limit: String,
    pub environment: String,
    /// Optional build type override (auto-detected if not specified)
    pub build_type: Option<String>,
    /// Optional publish directory for static sites
    pub publish_directory: Option<String>,
}

/// The port an uploaded app listens on unless its config says otherwise.
pub fn default_port() -> (r: u16)
    ensures
        r == 3000,
{
    3000
}

/// The CPU limit of an uploaded app unless its config says otherwise.
pub fn default_cpu_limit() -> (r: String)
    ensures
        r@ == "1"@,
{
    owned("1")
}

/// The memory limit of an uploaded app unless its config says otherwise.
pub fn default_memory_limit() -> (r: String)
    ensures
        r@ == "512m"@,
{
    owned("512m")
}

/// The environment of an uploaded app unless its config says otherwise.
pub fn default_environment() -> (r: String)
    ensures
        r@ == "development"@,
{
    owned("development")
}

/// Response for upload app creation.
pub struct UploadAppResponse {
    pub app: App,
    pub deployment_id: String,
    pub detected_build_type: BuildDetection,
}

/// Query for the apps of a team with sharing information.
pub struct ListAppsWithSharingQuery {
    /// Team ID to get apps for (owned + shared)
    pub team_id: String,
}

// ---------------------------------------------------------------------------
// Merging an update
// ---------------------------------------------------------------------------

/// The merge of an optional setting: absent keeps the existing value, an
/// empty string clears it, anything else replaces it.
pub open spec fn spec_merge_optional(new_val: Option<Seq<char>>, existing: Option<Seq<char>>) -> Option<
    Seq<char>,
> {
    match new_val {
        Some(s) => if s.len() == 0 {
            None
        } else {
            Some(s)
        },
        None => existing,
    }
}

/// Helper to merge optional string values
/// - None means "don't change" -> keep existing
/// - Some("") means "clear" -> set to None
/// - Some(value) means "set" -> use the value
pub fn merge_optional_string(new_val: &Option<String>, existing: &Option<String>) -> (r: Option<String>)
    ensures
        opt_view(r) == spec_merge_optional(opt_view(*new_val), opt_view(*existing)),
{
    match new_val {
        Some(s) => {
            if s.as_str().is_empty() {
                None
            } else {
                Some(s.clone())
            }
        },
        None => clone_opt(existing),
    }
}

/// A lowercase hexadecimal digit for a value below 16.
pub open spec fn json_hex_digit(n: int) -> char {
    if n < 10 {
        ('0' as int + n) as char
    } else {
        ('a' as int + (n - 10)) as char
    }
}

/// How a character is written inside a JSON string: `"` and `\` behind a
/// backslash; backspace, form feed, line feed, carriage return and tab as
/// `\b`, `\f`, `\n`, `\r`, `\t`; any other control character below
/// U+0020 as `\u00` and two lowercase hexadecimal digits; every other
/// character as itself.
pub open spec fn json_escaped_char(c: char) -> Seq<char> {
    if c == '"' {
        seq!['\\', '"']
    } else if c == '\\' {
        seq!['\\', '\\']
    } else if c == '\u{8}' {
        seq!['\\', 'b']
    } else if c == '\u{c}' {
        seq!['\\', 'f']
    } else if c == '\n' {
        seq!['\\', 'n']
    } else if c == '\r' {
        seq!['\\', 'r']
    } else if c == '\t' {
        seq!['\\', 't']
    } else if (c as int) < 0x20 {
        seq!['\\', 'u', '0', '0', json_hex_digit(c as int / 16), json_hex_digit(c as int % 16)]
    } else {
        seq![c]
    }
}

/// The characters of `s`, each written as inside a JSON string.
pub open spec fn json_escaped(s: Seq<char>) -> Seq<char>
    decreases s.len(),
{
    if s.len() == 0 {
        seq![]
    } else {
        json_escaped(s.drop_last()) + json_escaped_char(s.last())
    }
}

/// `s` as a JSON string: quoted, its characters escaped.
pub open spec fn json_string(s: Seq<char>) -> Seq<char> {
    seq!['"'] + json_escaped(s) + seq!['"']
}

/// The JSON strings of `items`, separated by commas.
pub open spec fn json_items(items: Seq<Seq<char>>) -> Seq<char>
    decreases items.len(),
{
    if items.len() == 0 {
        seq![]
    } else if items.len() == 1 {
        json_string(items[0])
    } else {
        json_items(items.drop_last()) + seq![','] + json_string(items.last())
    }
}

/// The JSON text of a list of strings, as `serde_json::to_string` writes
/// it: compact, `[`, the strings separated by `,`, `]`.
pub open spec fn json_string_array(items: Seq<Seq<char>>) -> Seq<char> {
    seq!['['] + json_items(items) + seq![']']
}

/// Serializes a list of strings as a JSON array.
///
/// Trusted: calls `serde_json::to_string` on a `Vec<String>`, which uses
/// the compact formatter: `[`, the elements separated by `,`, `]`; each
/// string quoted, with the escapes of the crate's `ESCAPE` table and
/// `write_char_escape` (`\"`, `\\`, `\b`, `\f`, `\n`, `\r`, `\t`, and
/// `\u00` with two lowercase hexadecimal digits for the other control
/// characters below U+0020). Serializing a sequence of strings cannot fail.
#[verifier::external_body]
fn to_json_array(items: &Vec<String>) -> (r: String)
    ensures
        r@ == json_string_array(strings_view(items@)),
{
    serde_json::to_string(items).unwrap_or_default()
}

/// Key and value pairs as plain text.
pub open spec fn pairs_view(v: Seq<(String, String)>) -> Seq<(Seq<char>, Seq<char>)> {
    v.map_values(|p: (String, String)| (p.0@, p.1@))
}

/// No key occurs twice.
pub open spec fn distinct_keys(ps: Seq<(Seq<char>, Seq<char>)>) -> bool {
    forall|i: int, j: int| 0 <= i < j < ps.len() ==> (#[trigger] ps[i]).0 != (#[trigger] ps[j]).0
}

/// The members of a JSON object of string values, in the given order,
/// separated by commas: `"key":"value"`.
pub open spec fn json_members(ps: Seq<(Seq<char>, Seq<char>)>) -> Seq<char>
    decreases ps.len(),
{
    if ps.len() == 0 {
        seq![]
    } else if ps.len() == 1 {
        json_string(ps[0].0) + seq![':'] + json_string(ps[0].1)
    } else {
        json_members(ps.drop_last()) + seq![','] + json_string(ps.last().0) + seq![':'] + json_string(
            ps.last().1,
        )
    }
}

/// A compact JSON object of string values, its members in the given order.
pub open spec fn json_object(ps: Seq<(Seq<char>, Seq<char>)>) -> Seq<char> {
    seq!['{'] + json_members(ps) + seq!['}']
}

/// `j` is the JSON object of the labels `ps`, their members in some order.
pub open spec fn labels_json(j: Seq<char>, ps: Seq<(Seq<char>, Seq<char>)>) -> bool {
    exists|q: Seq<(Seq<char>, Seq<char>)>| q.to_multiset() == ps.to_multiset() && j == json_object(q)
}

/// Serializes container labels as a JSON object.
///
/// Trusted: gathers the pairs into a `HashMap` (one entry per pair, the
/// keys being distinct) and calls `serde_json::to_string` on it, which
/// writes `{`, the entries separated by `,`, each as the key and the value
/// written as JSON strings (with the escapes of `json_escaped_char`)
/// joined by `:`, then `}`. The entries come in the map's iteration order,
/// which depends on the hasher's random seed, so the contract says only
/// that the members are the labels in some order. Serializing a map of
/// strings cannot fail.
#[verifier::external_body]
fn labels_to_json(labels: &Vec<(String, String)>) -> (r: String)
    requires
        distinct_keys(pairs_view(labels@)),
    ensures
        labels_json(r@, pairs_view(labels@)),
{
    let m: std::collections::HashMap<&String, &String> = labels.iter().map(|p| (&p.0, &p.1)).collect();
    serde_json::to_string(&m).unwrap_or_default()
}

/// The labels stored with a new app: none when the request gives none,
/// else their JSON object (`{}` for an empty set).
pub fn new_app_labels(labels: &Option<Vec<(String, String)>>) -> (r: Option<String>)
    requires
        labels matches Some(l) ==> distinct_keys(pairs_view(l@)),
    ensures
        match labels {
            Some(l) => r matches Some(j) && labels_json(j@, pairs_view(l@)),
            None => r is None,
        },
{
    match labels {
        Some(l) => Some(labels_to_json(l)),
        None => None,
    }
}

/// The merge of an optional list stored as JSON: absent keeps the existing
/// value, an empty list clears it, anything else replaces it.
pub open spec fn spec_merge_json(new_val: Option<Seq<Seq<char>>>, existing: Option<Seq<char>>) -> Option<
    Seq<char>,
> {
    match new_val {
        Some(v) => if v.len() == 0 {
            None
        } else {
            Some(json_string_array(v))
        },
        None => existing,
    }
}

/// The view of an optional list of strings.
pub open spec fn opt_strings_view(o: Option<Vec<String>>) -> Option<Seq<Seq<char>>> {
    match o {
        Some(v) => Some(strings_view(v@)),
        None => None,
    }
}

/// Helper to merge optional vectors (serialized as JSON)
/// - None means "don't change"
/// - Some(empty vec) means "clear"
/// - Some(vec) means "set"
pub fn merge_optional_json(new_val: &Option<Vec<String>>, existing: &Option<String>) -> (r: Option<String>)
    ensures
        opt_view(r) == spec_merge_json(opt_strings_view(*new_val), opt_view(*existing)),
{
    match new_val {
        Some(v) => {
            if v.len() == 0 {
                None
            } else {
                Some(to_json_array(v))
            }
        },
        None => clone_opt(existing),
    }
}

/// Merging keeps what the update leaves out, clears what it empties and
/// replaces what it sets; merging the same update twice changes nothing
/// more.
pub proof fn law_merge_optional(new_val: Option<Seq<char>>, existing: Option<Seq<char>>)
    ensures
        new_val is None ==> spec_merge_optional(new_val, existing) == existing,
        new_val == Some(Seq::<char>::empty()) ==> spec_merge_optional(new_val, existing) is None,
        new_val matches Some(v) && v.len() > 0 ==> spec_merge_optional(new_val, existing)
            == new_val,
        spec_merge_optional(new_val, spec_merge_optional(new_val, existing)) == spec_merge_optional(
            new_val,
            existing,
        ),
{
}

/// `v` clamped into `[lo, hi]`.
pub open spec fn clamp(v: int, lo: int, hi: int) -> int {
    if v < lo {
        lo
    } else if v > hi {
        hi
    } else {
        v
    }
}

/// An app's settings after an update: required fields replaced when
/// given, optional ones merged, flags and numbers replaced when given, the
/// rollback retention count kept between 1 and 50, and the maintenance
/// message replaced when given.
pub open spec fn merged_app(e: App, req: UpdateAppRequest, now: Seq<char>, a: App) -> bool {
    let keep = |n: Option<String>, old: String|
        match n {
            Some(x) => x@,
            None => old@,
        };
    &&& a.id == e.id
    &&& a.name@ == keep(req.name, e.name)
    &&& a.git_url@ == keep(req.git_url, e.git_url)
    &&& a.branch@ == keep(req.branch, e.branch)
    &&& a.dockerfile@ == keep(req.dockerfile, e.dockerfile)
    &&& a.port == match req.port {
        Some(p) => p,
        None => e.port,
    }
    &&& a.environment@ == keep(req.environment, e.environment)
    &&& opt_view(a.domain) == spec_merge_optional(opt_view(req.domain), opt_view(e.domain))
    &&& opt_view(a.healthcheck) == spec_merge_optional(opt_view(req.healthcheck), opt_view(e.healthcheck))
    &&& opt_view(a.memory_limit) == spec_merge_optional(opt_view(req.memory_limit), opt_view(e.memory_limit))
    &&& opt_view(a.cpu_limit) == spec_merge_optional(opt_view(req.cpu_limit), opt_view(e.cpu_limit))
    &&& opt_view(a.ssh_key_id) == spec_merge_optional(opt_view(req.ssh_key_id), opt_view(e.ssh_key_id))
    &&& opt_view(a.project_id) == spec_merge_optional(opt_view(req.project_id), opt_view(e.project_id))
    &&& opt_view(a.dockerfile_path) == spec_merge_optional(
        opt_view(req.dockerfile_path),
        opt_view(e.dockerfile_path),
    )
    &&& opt_view(a.base_directory) == spec_merge_optional(
        opt_view(req.base_directory),
        opt_view(e.base_directory),
    )
    &&& opt_view(a.build_target) == spec_merge_optional(opt_view(req.build_target), opt_view(e.build_target))
    &&& opt_view(a.watch_paths) == spec_merge_optional(opt_view(req.watch_paths), opt_view(e.watch_paths))
    &&& opt_view(a.custom_docker_options) == spec_merge_optional(
        opt_view(req.custom_docker_options),
        opt_view(e.custom_docker_options),
    )
    &&& opt_view(a.port_mappings) == spec_merge_json(
        opt_strings_view(req.port_mappings),
        opt_view(e.port_mappings),
    )
    &&& opt_view(a.network_aliases) == spec_merge_json(
        opt_strings_view(req.network_aliases),
        opt_view(e.network_aliases),
    )
    &&& opt_view(a.extra_hosts) == spec_merge_json(opt_strings_view(req.extra_hosts), opt_view(e.extra_hosts))
    &&& opt_view(a.pre_deploy_commands) == spec_merge_json(
        opt_strings_view(req.pre_deploy_commands),
        opt_view(e.pre_deploy_commands),
    )
    &&& opt_view(a.post_deploy_commands) == spec_merge_json(
        opt_strings_view(req.post_deploy_commands),
        opt_view(e.post_deploy_commands),
    )
    &&& opt_view(a.domains) == spec_merge_json(opt_strings_view(req.domains), opt_view(e.domains))
    &&& opt_view(a.docker_image) == spec_merge_optional(opt_view(req.docker_image), opt_view(e.docker_image))
    &&& opt_view(a.docker_image_tag) == spec_merge_optional(
        opt_view(req.docker_image_tag),
        opt_view(e.docker_image_tag),
    )
    &&& opt_view(a.registry_url) == spec_merge_optional(opt_view(req.registry_url), opt_view(e.registry_url))
    &&& opt_view(a.registry_username) == spec_merge_optional(
        opt_view(req.registry_username),
        opt_view(e.registry_username),
    )
    &&& opt_view(a.registry_password) == spec_merge_optional(
        opt_view(req.registry_password),
        opt_view(e.registry_password),
    )
    &&& match req.container_labels {
        Some(l) => if l@.len() == 0 {
            a.container_labels is None
        } else {
            a.container_labels matches Some(j) && labels_json(j@, pairs_view(l@))
        },
        None => opt_view(a.container_labels) == opt_view(e.container_labels),
    }
    &&& opt_view(a.build_type) == spec_merge_optional(opt_view(req.build_type), opt_view(e.build_type))
    &&& opt_view(a.nixpacks_config) == match req.nixpacks_config {
        Some(c) => Some(c@),
        None => opt_view(e.nixpacks_config),
    }
    &&& opt_view(a.publish_directory) == spec_merge_optional(
        opt_view(req.publish_directory),
        opt_view(e.publish_directory),
    )
    &&& a.preview_enabled == match req.preview_enabled {
        Some(b) => b,
        None => e.preview_enabled,
    }
    &&& a.auto_rollback_enabled == match req.auto_rollback_enabled {
        Some(b) => b,
        None => e.auto_rollback_enabled,
    }
    &&& a.registry_push_enabled == match req.registry_push_enabled {
        Some(b) => b,
        None => e.registry_push_enabled,
    }
    &&& a.max_rollback_versions == match req.max_rollback_versions {
        Some(n) => n,
        None => e.max_rollback_versions,
    }
    &&& a.rollback_retention_count == clamp(
        match req.rollback_retention_count {
            Some(n) => n as int,
            None => e.rollback_retention_count as int,
        },
        1,
        50,
    )
    &&& a.require_approval == match req.require_approval {
        Some(b) => b,
        None => e.require_approval,
    }
    &&& a.maintenance_mode == match req.maintenance_mode {
        Some(b) => b,
        None => e.maintenance_mode,
    }
    &&& opt_view(a.maintenance_message) == match req.maintenance_message {
        Some(m) => Some(m@),
        None => opt_view(e.maintenance_message),
    }
    &&& opt_view(a.server_id) == spec_merge_optional(opt_view(req.server_id), opt_view(e.server_id))
    &&& a.updated_at@ == now
    &&& a.created_at == e.created_at
    &&& a.environment_id == e.environment_id
    &&& a.team_id == e.team_id
    &&& a.auto_subdomain == e.auto_subdomain
    &&& a.github_app_installation_id == e.github_app_installation_id
    &&& a.deployment_source == e.deployment_source
}

fn keep_or(n: Option<String>, old: &String) -> (r: String)
    ensures
        r@ == match n {
            Some(x) => x@,
            None => old@,
        },
{
    match n {
        Some(x) => x,
        None => old.clone(),
    }
}

/// The settings an app has after an update.
pub fn merge_app_update(existing: &App, req: UpdateAppRequest, now: String) -> (r: App)
    requires
        req.container_labels matches Some(l) ==> distinct_keys(pairs_view(l@)),
    ensures
        merged_app(*existing, req, now@, r),
{
    let retention: i64 = match req.rollback_retention_count {
        Some(n) => n,
        None => existing.rollback_retention_count,
    };
    let retention: i64 = if retention < 1 {
        1
    } else if retention > 50 {
        50
    } else {
        retention
    };
    let container_labels = match &req.container_labels {
        Some(l) => if l.len() == 0 {
            None
        } else {
            Some(labels_to_json(l))
        },
        None => clone_opt(&existing.container_labels),
    };
    let nixpacks_config = match &req.nixpacks_config {
        Some(c) => Some(c.clone()),
        None => clone_opt(&existing.nixpacks_config),
    };
    let maintenance_message = match &req.maintenance_message {
        Some(m) => Some(m.clone()),
        None => clone_opt(&existing.maintenance_message),
    };
    let a = App {
        id: existing.id.clone(),
        name: keep_or(req.name.clone(), &existing.name),
        git_url: keep_or(req.git_url.clone(), &existing.git_url),
        branch: keep_or(req.branch.clone(), &existing.branch),
        dockerfile: keep_or(req.dockerfile.clone(), &existing.dockerfile),
        domain: merge_optional_string(&req.domain, &existing.domain),
        port: match req.port {
            Some(p) => p,
            None => existing.port,
        },
        healthcheck: merge_optional_string(&req.healthcheck, &existing.healthcheck),
        memory_limit: merge_optional_string(&req.memory_limit, &existing.memory_limit),
        cpu_limit: merge_optional_string(&req.cpu_limit, &existing.cpu_limit),
        ssh_key_id: merge_optional_string(&req.ssh_key_id, &existing.ssh_key_id),
        environment: keep_or(req.environment.clone(), &existing.environment),
        project_id: merge_optional_string(&req.project_id, &existing.project_id),
        environment_id: clone_opt(&existing.environment_id),
        team_id: clone_opt(&existing.team_id),
        dockerfile_path: merge_optional_string(&req.dockerfile_path, &existing.dockerfile_path),
        base_directory: merge_optional_string(&req.base_directory, &existing.base_directory),
        build_target: merge_optional_string(&req.build_target, &existing.build_target),
        watch_paths: merge_optional_string(&req.watch_paths, &existing.watch_paths),
        custom_docker_options: merge_optional_string(
            &req.custom_docker_options,
            &existing.custom_docker_options,
        ),
        port_mappings: merge_optional_json(&req.port_mappings, &existing.port_mappings),
        network_aliases: merge_optional_json(&req.network_aliases, &existing.network_aliases),
        extra_hosts: merge_optional_json(&req.extra_hosts, &existing.extra_hosts),
        pre_deploy_commands: merge_optional_json(&req.pre_deploy_commands, &existing.pre_deploy_commands),
        post_deploy_commands: merge_optional_json(
            &req.post_deploy_commands,
            &existing.post_deploy_commands,
        ),
        domains: merge_optional_json(&req.domains, &existing.domains),
        auto_subdomain: clone_opt(&existing.auto_subdomain),
        docker_image: merge_optional_string(&req.docker_image, &existing.docker_image),
        docker_image_tag: merge_optional_string(&req.docker_image_tag, &existing.docker_image_tag),
        registry_url: merge_optional_string(&req.registry_url, &existing.registry_url),
        registry_username: merge_optional_string(&req.registry_username, &existing.registry_username),
        registry_password: merge_optional_string(&req.registry_password, &existing.registry_password),
        container_labels,
        build_type: merge_optional_string(&req.build_type, &existing.build_type),
        nixpacks_config,
        publish_directory: merge_optional_string(&req.publish_directory, &existing.publish_directory),
        preview_enabled: match req.preview_enabled {
            Some(b) => b,
            None => existing.preview_enabled,
        },
        github_app_installation_id: clone_opt(&existing.github_app_installation_id),
        require_approval: match req.require_approval {
            Some(b) => b,
            None => existing.require_approval,
        },
        maintenance_mode: match req.maintenance_mode {
            Some(b) => b,
            None => existing.maintenance_mode,
        },
        maintenance_message,
        auto_rollback_enabled: match req.auto_rollback_enabled {
            Some(b) => b,
            None => existing.auto_rollback_enabled,
        },
        registry_push_enabled: match req.registry_push_enabled {
            Some(b) => b,
            None => existing.registry_push_enabled,
        },
        max_rollback_versions: match req.max_rollback_versions {
            Some(n) => n,
            None => existing.max_rollback_versions,
        },
        rollback_retention_count: retention,
        server_id: merge_optional_string(&req.server_id, &existing.server_id),
        deployment_source: clone_opt(&existing.deployment_source),
        created_at: existing.created_at.clone(),
        updated_at: now,
    };
    a
}

// ---------------------------------------------------------------------------
// Validation of the deployment source
// ---------------------------------------------------------------------------

/// The error a new app is refused with for its deployment source: it
/// needs a git URL or a docker image, and not both; `(field, message)`.
pub open spec fn spec_source_error(git_url: Seq<char>, docker_image: Option<Seq<char>>) -> Option<
    (Seq<char>, Seq<char>),
> {
    let has_git = git_url.len() > 0;
    let has_image = docker_image matches Some(i) && i.len() > 0;
    if has_git && has_image {
        Some(
            (
                "docker_image"@,
                "Cannot specify both git_url and docker_image. Choose one deployment source."@,
            ),
        )
    } else if !has_git && !has_image {
        Some(("git_url"@, "Either git_url or docker_image must be provided"@))
    } else {
        None
    }
}

/// The field checks every app request runs after its source-specific
/// ones, in order.
pub open spec fn common_checked_fields() -> Seq<Seq<char>> {
    seq![
        "domain"@,
        "port"@,
        "healthcheck"@,
        "memory_limit"@,
        "cpu_limit"@,
        "environment"@,
        "base_directory"@,
        "build_target"@,
        "watch_paths"@,
        "custom_docker_options"@,
        "port_mappings"@,
        "network_aliases"@,
        "extra_hosts"@,
        "pre_deploy_commands"@,
        "post_deploy_commands"@,
        "domains"@,
    ]
}

/// The fields whose checks a new app's request runs, in order: the name;
/// the git URL, branch and Dockerfile only when the app deploys from git;
/// the image only when it deploys an image; then the common fields and the
/// build type.
pub open spec fn spec_create_checked_fields(has_git: bool, has_image: bool) -> Seq<Seq<char>> {
    seq!["name"@] + (if has_git {
        seq!["git_url"@, "branch"@, "dockerfile"@]
    } else {
        seq![]
    }) + (if has_image {
        seq!["docker_image"@]
    } else {
        seq![]
    }) + common_checked_fields() + seq!["build_type"@]
}

/// Whether a value is given and not empty.
pub open spec fn given(o: Option<Seq<char>>) -> bool {
    o matches Some(s) && s.len() > 0
}

/// The fields whose checks an app update runs, in order: the name when
/// given; the git URL, branch and Dockerfile when given and not empty (an
/// empty one clears the field); the port and environment when given; the
/// build type when given and not empty; the common fields always.
pub open spec fn spec_update_checked_fields(
    name: bool,
    git_url: bool,
    branch: bool,
    dockerfile: bool,
    port: bool,
    environment: bool,
    build_type: bool,
) -> Seq<Seq<char>> {
    let c = common_checked_fields();
    (if name { seq!["name"@] } else { seq![] }) + (if git_url { seq!["git_url"@] } else { seq![] })
        + (if branch { seq!["branch"@] } else { seq![] }) + (if dockerfile { seq!["dockerfile"@] } else { seq![] })
        + seq![c[0]] + (if port { seq![c[1]] } else { seq![] }) + c.subrange(2, 5) + (if environment {
        seq![c[5]]
    } else {
        seq![]
    }) + c.subrange(6, 16) + (if build_type { seq!["build_type"@] } else { seq![] })
}

/// Whether a value is given and not empty.
fn is_given(o: &Option<String>) -> (r: bool)
    ensures
        r == given(opt_view(*o)),
{
    match o {
        Some(s) => !s.as_str().is_empty(),
        None => false,
    }
}

/// Appends a field name.
fn push_field(v: &mut Vec<String>, name: &str)
    ensures
        strings_view(final(v)@) == strings_view(old(v)@).push(name@),
{
    let ghost before = strings_view(v@);
    v.push(owned(name));
    assert(strings_view(v@) =~= before.push(name@));
}

/// Appends the common field names.
#[verifier::rlimit(30)]
fn push_common_fields(v: &mut Vec<String>, skip_port: bool, skip_environment: bool)
    ensures
        strings_view(final(v)@) == strings_view(old(v)@) + seq![common_checked_fields()[0]] + (if skip_port {
            seq![]
        } else {
            seq![common_checked_fields()[1]]
        }) + common_checked_fields().subrange(2, 5) + (if skip_environment {
            seq![]
        } else {
            seq![common_checked_fields()[5]]
        }) + common_checked_fields().subrange(6, 16),
{
    let ghost s0 = strings_view(v@);
    let ghost c = common_checked_fields();
    push_field(v, "domain");
    if !skip_port {
        push_field(v, "port");
    }
    let ghost s1 = strings_view(v@);
    push_field(v, "healthcheck");
    push_field(v, "memory_limit");
    push_field(v, "cpu_limit");
    assert(strings_view(v@) =~= s1 + c.subrange(2, 5));
    if !skip_environment {
        push_field(v, "environment");
    }
    let ghost s2 = strings_view(v@);
    push_field(v, "base_directory");
    push_field(v, "build_target");
    push_field(v, "watch_paths");
    push_field(v, "custom_docker_options");
    push_field(v, "port_mappings");
    push_field(v, "network_aliases");
    push_field(v, "extra_hosts");
    push_field(v, "pre_deploy_commands");
    push_field(v, "post_deploy_commands");
    push_field(v, "domains");
    assert(strings_view(v@) =~= s2 + c.subrange(6, 16));
}

/// The fields whose checks a new app's request runs, in order, given its
/// git URL and image.
pub fn create_checked_fields(git_url: &str, docker_image: &Option<String>) -> (r: Vec<String>)
    ensures
        strings_view(r@) == spec_create_checked_fields(git_url@.len() > 0, given(opt_view(*docker_image))),
{
    let has_git = !git_url.is_empty();
    let has_image = match docker_image {
        Some(i) => !i.as_str().is_empty(),
        None => false,
    };
    let mut v: Vec<String> = Vec::new();
    push_field(&mut v, "name");
    if has_git {
        push_field(&mut v, "git_url");
        push_field(&mut v, "branch");
        push_field(&mut v, "dockerfile");
    }
    if has_image {
        push_field(&mut v, "docker_image");
    }
    push_common_fields(&mut v, false, false);
    push_field(&mut v, "build_type");
    proof {
        let c = common_checked_fields();
        assert(seq![c[0]] + seq![c[1]] + c.subrange(2, 5) + seq![c[5]] + c.subrange(6, 16) =~= c);
    }
    assert(strings_view(v@) =~= spec_create_checked_fields(has_git, has_image));
    v
}

/// The fields whose checks an app update runs, in order.
#[verifier::rlimit(30)]
pub fn update_checked_fields(req: &UpdateAppRequest) -> (r: Vec<String>)
    ensures
        strings_view(r@) == spec_update_checked_fields(
            req.name is Some,
            given(opt_view(req.git_url)),
            given(opt_view(req.branch)),
            given(opt_view(req.dockerfile)),
            req.port is Some,
            req.environment is Some,
            given(opt_view(req.build_type)),
        ),
{
    let mut v: Vec<String> = Vec::new();
    let ghost n = req.name is Some;
    let ghost g = given(opt_view(req.git_url));
    let ghost b = given(opt_view(req.branch));
    let ghost d = given(opt_view(req.dockerfile));
    if req.name.is_some() {
        push_field(&mut v, "name");
    }
    assert(strings_view(v@) =~= (if n { seq!["name"@] } else { seq![] }));
    let ghost s1 = strings_view(v@);
    if is_given(&req.git_url) {
        push_field(&mut v, "git_url");
    }
    assert(strings_view(v@) =~= s1 + (if g { seq!["git_url"@] } else { seq![] }));
    let ghost s2 = strings_view(v@);
    if is_given(&req.branch) {
        push_field(&mut v, "branch");
    }
    assert(strings_view(v@) =~= s2 + (if b { seq!["branch"@] } else { seq![] }));
    let ghost s3 = strings_view(v@);
    if is_given(&req.dockerfile) {
        push_field(&mut v, "dockerfile");
    }
    assert(strings_view(v@) =~= s3 + (if d { seq!["dockerfile"@] } else { seq![] }));
    let ghost s4 = strings_view(v@);
    push_common_fields(&mut v, req.port.is_none(), req.environment.is_none());
    let ghost s5 = strings_view(v@);
    let is_bt = is_given(&req.build_type);
    if is_bt {
        push_field(&mut v, "build_type");
    }
    assert(strings_view(v@) =~= s5 + (if is_bt { seq!["build_type"@] } else { seq![] }));
    v
}

/// Checks that a new app names exactly one deployment source: a git URL
/// or a docker image.
pub fn deployment_source_error(git_url: &str, docker_image: &Option<String>) -> (r: Option<(String, String)>)
    ensures
        match spec_source_error(git_url@, opt_view(*docker_image)) {
            Some((f, m)) => r matches Some((a, b)) && a@ == f && b@ == m,
            None => r is None,
        },
{
    let has_git = !git_url.is_empty();
    let has_image = match docker_image {
        Some(i) => !i.as_str().is_empty(),
        None => false,
    };
    if has_git && has_image {
        Some(
            (
                owned("docker_image"),
                owned("Cannot specify both git_url and docker_image. Choose one deployment source."),
            ),
        )
    } else if !has_git && !has_image {
        Some((owned("git_url"), owned("Either git_url or docker_image must be provided")))
    } else {
        None
    }
}

// ---------------------------------------------------------------------------
// Status
// ---------------------------------------------------------------------------

/// The blue/green phase an app is in, judged by the status of its latest
/// deployment.
pub open spec fn spec_deployment_phase(status: Seq<char>) -> Seq<char> {
    if status == "cloning"@ || status == "building"@ || status == "starting"@ {
        "deploying"@
    } else if status == "checking"@ {
        "health_checking"@
    } else if status == "switching"@ {
        "switching"@
    } else {
        "stable"@
    }
}

/// The blue/green phase an app is in, judged by the status of its latest
/// deployment.
pub fn deployment_phase(status: &str) -> (r: String)
    ensures
        r@ == spec_deployment_phase(status@),
{
    if str_eq(status, "cloning") || str_eq(status, "building") || str_eq(status, "starting") {
        owned("deploying")
    } else if str_eq(status, "checking") {
        owned("health_checking")
    } else if str_eq(status, "switching") {
        owned("switching")
    } else {
        owned("stable")
    }
}

/// The phase reported for each status of the latest deployment: an app is
/// `deploying` exactly while its deployment is cloning, building or
/// starting; `health_checking` exactly while it is checking; `switching`
/// exactly while it is switching; and `stable` for every other status
/// (running, stopped, failed, replaced, pending and any other).
pub proof fn law_phase_of_status(status: Seq<char>)
    ensures
        (spec_deployment_phase(status) == "deploying"@) == (status == "cloning"@ || status == "building"@
            || status == "starting"@),
        (spec_deployment_phase(status) == "health_checking"@) == (status == "checking"@),
        (spec_deployment_phase(status) == "switching"@) == (status == "switching"@),
        status != "cloning"@ && status != "building"@ && status != "starting"@ && status != "checking"@
            && status != "switching"@
            ==> spec_deployment_phase(status) == "stable"@,
        spec_deployment_phase("stopped"@) == "stable"@,
        spec_deployment_phase("running"@) == "stable"@,
        spec_deployment_phase("failed"@) == "stable"@,
{
    reveal_strlit("deploying");
    reveal_strlit("health_checking");
    reveal_strlit("switching");
    reveal_strlit("stable");
    reveal_strlit("cloning");
    reveal_strlit("building");
    reveal_strlit("starting");
    reveal_strlit("checking");
    reveal_strlit("stopped");
    reveal_strlit("running");
    reveal_strlit("failed");
    assert("checking"@.len() != "cloning"@.len());
    assert("checking"@[0] != "building"@[0]);
    assert("checking"@[0] != "starting"@[0]);
    assert("switching"@.len() != "cloning"@.len());
    assert("switching"@.len() != "building"@.len());
    assert("switching"@.len() != "starting"@.len());
    assert("switching"@.len() != "checking"@.len());
    assert("deploying"@.len() != "stable"@.len());
    assert("deploying"@[0] != "switching"@[0]);
    assert("deploying"@.len() != "health_checking"@.len());
    assert("health_checking"@.len() != "stable"@.len());
    assert("health_checking"@.len() != "switching"@.len());
    assert("switching"@.len() != "stable"@.len());
    assert("stopped"@[0] != "cloning"@[0]);
    assert("stopped"@.len() != "building"@.len());
    assert("stopped"@.len() != "starting"@.len());
    assert("stopped"@.len() != "checking"@.len());
    assert("stopped"@.len() != "switching"@.len());
    assert("running"@[0] != "cloning"@[0]);
    assert("running"@.len() != "building"@.len());
    assert("running"@.len() != "starting"@.len());
    assert("running"@.len() != "checking"@.len());
    assert("running"@.len() != "switching"@.len());
    assert("failed"@.len() != "cloning"@.len());
    assert("failed"@.len() != "building"@.len());
    assert("failed"@.len() != "starting"@.len());
    assert("failed"@.len() != "checking"@.len());
    assert("failed"@.len() != "switching"@.len());
}

/// What the container runtime reported of a container.
pub struct ContainerInspection {
    pub running: bool,
    pub host_port: Option<u16>,
}

/// The container part of an app's status.
pub struct ContainerStatus {
    pub container_id: Option<String>,
    pub running: bool,
    pub status: String,
    pub host_port: Option<u16>,
}

/// Whether the runtime is asked about the container of the app's latest
/// running or stopped deployment (`(container id, status)`): only for a
/// running deployment with a container.
pub fn needs_inspection(deployment: &Option<(String, String)>) -> (r: bool)
    ensures
        r == (deployment matches Some((cid, st)) && cid@.len() > 0 && st@ != "stopped"@),
{
    match deployment {
        Some((cid, st)) => !cid.as_str().is_empty() && !str_eq(st.as_str(), "stopped"),
        None => false,
    }
}

/// The container part of an app's status, from its latest running or
/// stopped deployment (`(container id, status)`) and, for a running one,
/// what the runtime reported of the container (`None` when it could not
/// be inspected).
pub fn container_status(deployment: Option<(String, String)>, inspected: Option<ContainerInspection>) -> (r:
    ContainerStatus)
    ensures
        match deployment {
            None => r.container_id is None && !r.running && r.status@ == "not_deployed"@
                && r.host_port is None,
            Some((cid, st)) => if cid@.len() == 0 {
                r.container_id is None && !r.running && r.status@ == "no_container"@
                    && r.host_port is None
            } else if st@ == "stopped"@ {
                r.container_id == Some(cid) && !r.running && r.status@ == "stopped"@
                    && r.host_port is None
            } else {
                match inspected {
                    Some(info) => r.container_id == Some(cid) && r.running == info.running
                        && r.status@ == (if info.running {
                        "running"@
                    } else {
                        "stopped"@
                    }) && r.host_port == info.host_port,
                    None => r.container_id == Some(cid) && !r.running && r.status@
                        == "not_found"@ && r.host_port is None,
                }
            },
        },
{
    match deployment {
        None => ContainerStatus {
            container_id: None,
            running: false,
            status: owned("not_deployed"),
            host_port: None,
        },
        Some((cid, st)) => {
            if cid.as_str().is_empty() {
                ContainerStatus {
                    container_id: None,
                    running: false,
                    status: owned("no_container"),
                    host_port: None,
                }
            } else if str_eq(st.as_str(), "stopped") {
                ContainerStatus {
                    container_id: Some(cid),
                    running: false,
                    status: owned("stopped"),
                    host_port: None,
                }
            } else {
                match inspected {
                    Some(info) => ContainerStatus {
                        container_id: Some(cid),
                        running: info.running,
                        status: if info.running {
                            owned("running")
                        } else {
                            owned("stopped")
                        },
                        host_port: info.host_port,
                    },
                    None => ContainerStatus {
                        container_id: Some(cid),
                        running: false,
                        status: owned("not_found"),
                        host_port: None,
                    },
                }
            }
        },
    }
}
/// The uptime answered with an app's status: whole seconds since the
/// latest deployment started, given only when that deployment is running
/// and its start time is a valid RFC 3339 timestamp.
pub fn status_uptime(latest_status: &str, started_at: &Option<String>) -> (r: Option<i64>)
    ensures
        r is Some <==> (latest_status@ == "running"@ && (started_at matches Some(s)
            && rfc3339_utc_clock(s@) is Some)),
{
    if !str_eq(latest_status, "running") {
        return None;
    }
    match started_at {
        Some(s) => seconds_since(s.as_str()),
        None => None,
    }
}


/// An app's status: its blue/green phase and active deployment from its
/// latest deployment (`(id, status)`), the container part, and the uptime
/// of a running latest deployment as measured by the caller.
pub fn app_status(
    app_id: String,
    latest: Option<(String, String)>,
    container: ContainerStatus,
    uptime_seconds: Option<i64>,
) -> (r: AppStatusResponse)
    ensures
        r.app_id == app_id,
        r.deployment_phase@ == match latest {
            Some((_, st)) => spec_deployment_phase(st@),
            None => "stable"@,
        },
        r.active_deployment_id == match latest {
            Some((id, _)) => Some(id),
            None => None,
        },
        r.uptime_seconds == match latest {
            Some((_, st)) => if st@ == "running"@ {
                uptime_seconds
            } else {
                None
            },
            None => None,
        },
        r.container_id == container.container_id,
        r.running == container.running,
        r.status == container.status,
        r.host_port == container.host_port,
{
    let (phase, active, uptime) = match latest {
        Some((id, st)) => {
            let phase = deployment_phase(st.as_str());
            let uptime = if str_eq(st.as_str(), "running") {
                uptime_seconds
            } else {
                None
            };
            (phase, Some(id), uptime)
        },
        None => (owned("stable"), None, None),
    };
    AppStatusResponse {
        app_id,
        container_id: container.container_id,
        running: container.running,
        status: container.status,
        host_port: container.host_port,
        deployment_phase: phase,
        active_deployment_id: active,
        uptime_seconds: uptime,
    }
}

// ---------------------------------------------------------------------------
// Generated domains
// ---------------------------------------------------------------------------

/// The characters a generated domain prefix is drawn from.
pub open spec fn prefix_alphabet() -> Seq<char> {
    "abcdefghijklmnopqrstuvwxyz0123456789"@
}

/// Eight characters drawn at random from the lowercase letters and digits.
pub fn random_prefix() -> (r: String)
    ensures
        r@.len() == 8,
        forall|i: int| 0 <= i < 8 ==> prefix_alphabet().contains(#[trigger] r@[i]),
{
    let alphabet = crate::text::chars_of("abcdefghijklmnopqrstuvwxyz0123456789");
    proof {
        reveal_strlit("abcdefghijklmnopqrstuvwxyz0123456789");
    }
    let mut v: Vec<char> = Vec::new();
    let mut k: usize = 0;
    while k < 8
        invariant
            alphabet@ == prefix_alphabet(),
            alphabet@.len() == 36,
            k <= 8,
            v@.len() == k,
            forall|i: int| 0 <= i < k ==> prefix_alphabet().contains(#[trigger] v@[i]),
        decreases 8 - k,
    {
        let j = crate::crypto::random_below(alphabet.len());
        let c = alphabet[j];
        assert(prefix_alphabet()[j as int] == c);
        v.push(c);
        k = k + 1;
    }
    crate::text::string_of(v.as_slice())
}

/// The proxy settings that decide how domains are generated.
pub struct DomainConfig {
    pub base_domain: Option<String>,
    pub sslip_enabled: bool,
    pub server_ip: Option<String>,
}

/// `s` with every `.` replaced by `-`.
pub open spec fn dots_to_dashes(s: Seq<char>) -> Seq<char> {
    s.map_values(|c: char| if c == '.' { '-' } else { c })
}

/// The domain generated for an app from a random prefix: under the base
/// domain when one is configured; else an sslip.io name of the server's
/// address when sslip is enabled; else a traefik.me name of it.
pub open spec fn spec_generated_domain(
    prefix: Seq<char>,
    base_domain: Option<Seq<char>>,
    sslip_enabled: bool,
    server_ip: Option<Seq<char>>,
) -> Option<Seq<char>> {
    match base_domain {
        Some(b) => Some(prefix + "."@ + b),
        None => match server_ip {
            Some(ip) => if sslip_enabled {
                Some(prefix + "."@ + ip + ".sslip.io"@)
            } else {
                Some(prefix + "-"@ + dots_to_dashes(ip) + ".traefik.me"@)
            },
            None => None,
        },
    }
}

/// The message a domain is refused with when no strategy is configured.
pub open spec fn no_domain_strategy_message() -> Seq<char> {
    "No domain generation strategy configured. Set base_domain or server_ip in proxy config."@
}

/// Generates a domain for an app from a random prefix.
pub fn generate_domain_with(prefix: &str, config: &DomainConfig) -> (r: Result<String, ApiError>)
    ensures
        match spec_generated_domain(
            prefix@,
            opt_view(config.base_domain),
            config.sslip_enabled,
            opt_view(config.server_ip),
        ) {
            Some(d) => r matches Ok(x) && x@ == d,
            None => r matches Err(ApiError::BadRequest(m)) && m@ == no_domain_strategy_message(),
        },
{
    match &config.base_domain {
        Some(b) => {
            let mut s = owned(prefix);
            push_str(&mut s, ".");
            push_str(&mut s, b.as_str());
            Ok(s)
        },
        None => match &config.server_ip {
            Some(ip) => {
                if config.sslip_enabled {
                    let mut s = owned(prefix);
                    push_str(&mut s, ".");
                    push_str(&mut s, ip.as_str());
                    push_str(&mut s, ".sslip.io");
                    Ok(s)
                } else {
                    let v = crate::text::chars_of(ip.as_str());
                    let mut d: Vec<char> = Vec::new();
                    let mut i: usize = 0;
                    while i < v.len()
                        invariant
                            i <= v@.len(),
                            d@ == dots_to_dashes(v@.take(i as int)),
                        decreases v.len() - i,
                    {
                        let c = if v[i] == '.' {
                            '-'
                        } else {
                            v[i]
                        };
                        d.push(c);
                        assert(v@.take(i + 1) =~= v@.take(i as int).push(v@[i as int]));
                        assert(d@ =~= dots_to_dashes(v@.take(i + 1)));
                        i = i + 1;
                    }
                    assert(v@.take(v@.len() as int) =~= v@);
                    let dashed = crate::text::string_of(d.as_slice());
                    let mut s = owned(prefix);
                    push_str(&mut s, "-");
                    push_str(&mut s, dashed.as_str());
                    push_str(&mut s, ".traefik.me");
                    Ok(s)
                }
            },
            None => Err(
                ApiError::BadRequest(
                    owned(
                        "No domain generation strategy configured. Set base_domain or server_ip in proxy config.",
                    ),
                ),
            ),
        },
    }
}

/// Generates a domain for an app under a fresh random prefix.
pub fn generate_domain(config: &DomainConfig) -> (r: Result<String, ApiError>)
    ensures
        r matches Ok(d) ==> exists|p: Seq<char>|
            p.len() == 8 && spec_generated_domain(
                p,
                opt_view(config.base_domain),
                config.sslip_enabled,
                opt_view(config.server_ip),
            ) == Some(d@),
        r is Err <==> spec_generated_domain(
            seq![],
            opt_view(config.base_domain),
            config.sslip_enabled,
            opt_view(config.server_ip),
        ) is None,
{
    let prefix = random_prefix();
    generate_domain_with(prefix.as_str(), config)
}

// ---------------------------------------------------------------------------
// Starting, stopping and deleting
// ---------------------------------------------------------------------------

/// Whether an app is started or stopped by hand.
pub enum PowerAction {
    Start,
    Stop,
}

/// The container a manual start or stop acts on: the one of the app's
/// latest matching deployment (running or stopped for a start, running
/// for a stop), unless there is none or its ID is empty.
pub fn power_target(action: PowerAction, container_id: Option<String>) -> (r: Result<String, ApiError>)
    ensures
        match container_id {
            Some(c) if c@.len() > 0 => r == Ok::<String, ApiError>(c),
            _ => r matches Err(ApiError::BadRequest(m)) && m@ == match action {
                PowerAction::Start => "No deployment with container found. Deploy the app first."@,
                PowerAction::Stop => "No running deployment found"@,
            },
        },
{
    match container_id {
        Some(c) => {
            if !c.as_str().is_empty() {
                return Ok(c);
            }
        },
        None => {},
    }
    match action {
        PowerAction::Start => Err(
            ApiError::BadRequest(owned("No deployment with container found. Deploy the app first.")),
        ),
        PowerAction::Stop => Err(ApiError::BadRequest(owned("No running deployment found"))),
    }
}

/// The domain whose proxy route follows an app's container: its domain
/// unless empty.
pub fn routed_domain(domain: &Option<String>) -> (r: Option<String>)
    ensures
        match domain {
            Some(d) if d@.len() > 0 => r == Some(*d),
            _ => r is None,
        },
{
    match domain {
        Some(d) => if d.as_str().is_empty() {
            None
        } else {
            Some(d.clone())
        },
        None => None,
    }
}

/// The status answered after a manual start or stop: a started app runs
/// in its container on the port the runtime reported; a stopped one runs
/// nothing.
pub fn power_status(action: PowerAction, app_id: String, container_id: String, host_port: Option<u16>) -> (r:
    AppStatusResponse)
    ensures
        r.app_id == app_id,
        r.container_id == Some(container_id),
        r.deployment_phase@ == "stable"@,
        r.active_deployment_id is None && r.uptime_seconds is None,
        match action {
            PowerAction::Start => r.running && r.status@ == "running"@ && r.host_port == host_port,
            PowerAction::Stop => !r.running && r.status@ == "stopped"@ && r.host_port is None,
        },
{
    match action {
        PowerAction::Start => AppStatusResponse {
            app_id,
            container_id: Some(container_id),
            running: true,
            status: owned("running"),
            host_port,
            deployment_phase: owned("stable"),
            active_deployment_id: None,
            uptime_seconds: None,
        },
        PowerAction::Stop => AppStatusResponse {
            app_id,
            container_id: Some(container_id),
            running: false,
            status: owned("stopped"),
            host_port: None,
            deployment_phase: owned("stable"),
            active_deployment_id: None,
            uptime_seconds: None,
        },
    }
}

/// Confirms the deletion of an app with the user's password: it must be
/// given, and must verify against the user's hash, unless the built-in
/// system user deletes.
pub fn confirm_deletion(req: &DeleteAppRequest, user_id: &str, password_hash: &str) -> (r: Result<(), ApiError>)
    ensures
        req.password@.len() == 0 ==> (r matches Err(ApiError::Validation { field, message })
            && field@ == "password"@ && message@ == "Password is required"@),
        req.password@.len() > 0 && user_id@ != "system"@ && !argon2_verifies(req.password@, password_hash@)
            ==> (r matches Err(ApiError::Forbidden(m)) && m@ == "Invalid password"@),
        r is Ok <==> (req.password@.len() > 0 && (user_id@ == "system"@ || argon2_verifies(
            req.password@,
            password_hash@,
        ))),
{
    if req.password.as_str().is_empty() {
        return Err(
            ApiError::Validation { field: owned("password"), message: owned("Password is required") },
        );
    }
    if !str_eq(user_id, "system") && !verify_password(req.password.as_str(), password_hash) {
        return Err(ApiError::Forbidden(owned("Invalid password")));
    }
    Ok(())
}

// ---------------------------------------------------------------------------
// Sharing
// ---------------------------------------------------------------------------

/// A share of an app with another team, as answered.
pub struct AppShareResponse {
    pub id: String,
    pub app_id: String,
    pub shared_with_team_id: String,
    pub shared_with_team_name: String,
    pub permission: String,
    pub created_at: String,
    pub created_by: Option<String>,
    pub created_by_name: Option<String>,
}

/// Request body for sharing an app with a team.
pub struct CreateAppShareRequest {
    pub team_id: String,
    pub permission: String,
}

/// Why sharing an app with a team is refused, if it is: only `view`
/// permission exists, the team must exist, must not own the app, and must
/// not have the app shared already.
pub fn check_share(
    req: &CreateAppShareRequest,
    owner_team_id: &Option<String>,
    target_exists: bool,
    already_shared: bool,
) -> (r: Result<(), ApiError>)
    ensures
        req.permission@ != "view"@ ==> (r matches Err(ApiError::Validation { field, message })
            && field@ == "permission"@ && message@ == "Only 'view' permission is currently supported"@),
        req.permission@ == "view"@ && !target_exists ==> (r matches Err(ApiError::NotFound(m)) && m@
            == "Target team not found"@),
        req.permission@ == "view"@ && target_exists && (owner_team_id matches Some(o) && o@
            == req.team_id@) ==> (r matches Err(ApiError::BadRequest(m)) && m@
            == "Cannot share app with its owning team"@),
        req.permission@ == "view"@ && target_exists && !(owner_team_id matches Some(o) && o@
            == req.team_id@) && already_shared ==> (r matches Err(ApiError::Conflict(m)) && m@
            == "App is already shared with this team"@),
        r is Ok <==> (req.permission@ == "view"@ && target_exists && !(owner_team_id matches Some(o)
            && o@ == req.team_id@) && !already_shared),
{
    if !str_eq(req.permission.as_str(), "view") {
        return Err(
            ApiError::Validation {
                field: owned("permission"),
                message: owned("Only 'view' permission is currently supported"),
            },
        );
    }
    if !target_exists {
        return Err(ApiError::NotFound(owned("Target team not found")));
    }
    if let Some(o) = owner_team_id {
        if str_eq(o.as_str(), req.team_id.as_str()) {
            return Err(ApiError::BadRequest(owned("Cannot share app with its owning team")));
        }
    }
    if already_shared {
        return Err(ApiError::Conflict(owned("App is already shared with this team")));
    }
    Ok(())
}

/// A stored share of an app with a team.
pub struct ShareRow {
    pub app_id: String,
    pub team_id: String,
    pub permission: String,
}

/// A share row as plain text: app, team, permission.
pub open spec fn share_view(r: ShareRow) -> (Seq<char>, Seq<char>, Seq<char>) {
    (r.app_id@, r.team_id@, r.permission@)
}

/// The share rows as plain text.
pub open spec fn shares_view(rows: Seq<ShareRow>) -> Seq<(Seq<char>, Seq<char>, Seq<char>)> {
    rows.map_values(|r: ShareRow| share_view(r))
}

/// The app `app` is shared with the team `team` already.
pub open spec fn already_shared(rows: Seq<(Seq<char>, Seq<char>, Seq<char>)>, app: Seq<char>, team: Seq<char>) -> bool {
    exists|i: int| 0 <= i < rows.len() && (#[trigger] rows[i]).0 == app && rows[i].1 == team
}

/// A share of `app` (owned by `owner`) with `team` at `permission` is
/// accepted: the permission is `view`, the team exists, it does not own the
/// app, and the app is not shared with it yet.
pub open spec fn share_allowed(
    rows: Seq<(Seq<char>, Seq<char>, Seq<char>)>,
    app: Seq<char>,
    owner: Option<Seq<char>>,
    team: Seq<char>,
    permission: Seq<char>,
    target_exists: bool,
) -> bool {
    &&& permission == "view"@
    &&& target_exists
    &&& owner != Some(team)
    &&& !already_shared(rows, app, team)
}

/// The shares of `app` (owned by `owner`) are as sharing keeps them: each
/// grants `view`, none goes to the owning team, and no team has two.
pub open spec fn shares_valid(rows: Seq<(Seq<char>, Seq<char>, Seq<char>)>, app: Seq<char>, owner: Option<Seq<char>>) -> bool {
    &&& forall|i: int|
        0 <= i < rows.len() && (#[trigger] rows[i]).0 == app ==> rows[i].2 == "view"@ && owner
            != Some(rows[i].1)
    &&& forall|i: int, j: int|
        0 <= i < j < rows.len() && (#[trigger] rows[i]).0 == app && (#[trigger] rows[j]).0 == app
            ==> rows[i].1 != rows[j].1
}

/// Decides a request to share the app `app_id` (owned by `owner_team_id`)
/// given the share rows already stored (`existing`): the row to store, or
/// the refusal of `check_share`, where the app counts as already shared
/// with the team when a row of `existing` says so.
pub fn plan_share(
    app_id: &str,
    owner_team_id: &Option<String>,
    req: &CreateAppShareRequest,
    target_exists: bool,
    existing: &Vec<ShareRow>,
) -> (r: Result<ShareRow, ApiError>)
    ensures
        r is Ok <==> share_allowed(
            shares_view(existing@),
            app_id@,
            opt_view(*owner_team_id),
            req.team_id@,
            req.permission@,
            target_exists,
        ),
        r matches Ok(row) ==> share_view(row) == (app_id@, req.team_id@, req.permission@),
        req.permission@ != "view"@ ==> (r matches Err(ApiError::Validation { field, message })
            && field@ == "permission"@ && message@ == "Only 'view' permission is currently supported"@),
        req.permission@ == "view"@ && !target_exists ==> (r matches Err(ApiError::NotFound(m)) && m@
            == "Target team not found"@),
        req.permission@ == "view"@ && target_exists && opt_view(*owner_team_id) == Some(req.team_id@)
            ==> (r matches Err(ApiError::BadRequest(m)) && m@ == "Cannot share app with its owning team"@),
        req.permission@ == "view"@ && target_exists && opt_view(*owner_team_id) != Some(req.team_id@)
            && already_shared(shares_view(existing@), app_id@, req.team_id@) ==> (r matches Err(
            ApiError::Conflict(m),
        ) && m@ == "App is already shared with this team"@),
{
    let ghost rows = shares_view(existing@);
    let mut found = false;
    let mut i: usize = 0;
    while i < existing.len()
        invariant
            i <= existing@.len(),
            rows == shares_view(existing@),
            found <==> exists|k: int| 0 <= k < i && (#[trigger] rows[k]).0 == app_id@ && rows[k].1 == req.team_id@,
        decreases existing.len() - i,
    {
        let row = &existing[i];
        assert(rows[i as int] == share_view(existing@[i as int]));
        if str_eq(row.app_id.as_str(), app_id) && str_eq(row.team_id.as_str(), req.team_id.as_str()) {
            found = true;
        }
        i = i + 1;
    }
    proof {
        assert(found == already_shared(rows, app_id@, req.team_id@));
    }
    match check_share(req, owner_team_id, target_exists, found) {
        Ok(()) => Ok(ShareRow { app_id: owned(app_id), team_id: req.team_id.clone(), permission: req.permission.clone() }),
        Err(e) => Err(e),
    }
}

/// Sharing keeps an app's shares valid: when the shares of an app are
/// valid and a share request is accepted, storing its row (the app, the
/// requested team, `view`) leaves them valid; a refused request stores
/// nothing.
pub proof fn law_sharing_keeps_shares_valid(
    rows: Seq<(Seq<char>, Seq<char>, Seq<char>)>,
    app: Seq<char>,
    owner: Option<Seq<char>>,
    team: Seq<char>,
    permission: Seq<char>,
    target_exists: bool,
)
    requires
        shares_valid(rows, app, owner),
        share_allowed(rows, app, owner, team, permission, target_exists),
    ensures
        shares_valid(rows.push((app, team, permission)), app, owner),
{
    let next = rows.push((app, team, permission));
    assert forall|i: int, j: int|
        0 <= i < j < next.len() && (#[trigger] next[i]).0 == app && (#[trigger] next[j]).0 == app
            implies next[i].1 != next[j].1 by {
        if j == rows.len() {
            assert(next[i] == rows[i]);
            if rows[i].1 == team {
                assert(already_shared(rows, app, team));
            }
        } else {
            assert(next[i] == rows[i] && next[j] == rows[j]);
        }
    }
    assert forall|i: int| 0 <= i < next.len() && (#[trigger] next[i]).0 == app implies next[i].2
        == "view"@ && owner != Some(next[i].1) by {
        if i < rows.len() {
            assert(next[i] == rows[i]);
        }
    }
}

/// The share rows after the share requests `calls` (app, team,
/// permission, whether the team exists), made one at a time on `rows`,
/// where `owner` gives each app's owning team: an accepted request stores
/// its row, a refused one stores nothing.
pub open spec fn apply_shares(
    rows: Seq<(Seq<char>, Seq<char>, Seq<char>)>,
    calls: Seq<(Seq<char>, Seq<char>, Seq<char>, bool)>,
    owner: spec_fn(Seq<char>) -> Option<Seq<char>>,
) -> Seq<(Seq<char>, Seq<char>, Seq<char>)>
    decreases calls.len(),
{
    if calls.len() == 0 {
        rows
    } else {
        let before = apply_shares(rows, calls.drop_last(), owner);
        let c = calls.last();
        if share_allowed(before, c.0, owner(c.0), c.1, c.2, c.3) {
            before.push((c.0, c.1, c.2))
        } else {
            before
        }
    }
}

/// Shares stay valid over any sequence of share requests made one at a
/// time: starting from no shares, after every request each app's shares
/// grant `view` only, none goes to the app's owning team, and no team has
/// two shares of one app.
pub proof fn law_shares_valid_after_any_calls(
    calls: Seq<(Seq<char>, Seq<char>, Seq<char>, bool)>,
    owner: spec_fn(Seq<char>) -> Option<Seq<char>>,
    app: Seq<char>,
)
    ensures
        shares_valid(apply_shares(seq![], calls, owner), app, owner(app)),
    decreases calls.len(),
{
    if calls.len() > 0 {
        let before = apply_shares(seq![], calls.drop_last(), owner);
        law_shares_valid_after_any_calls(calls.drop_last(), owner, app);
        let c = calls.last();
        if share_allowed(before, c.0, owner(c.0), c.1, c.2, c.3) {
            if c.0 == app {
                law_sharing_keeps_shares_valid(before, app, owner(app), c.1, c.2, c.3);
            } else {
                let next = before.push((c.0, c.1, c.2));
                assert forall|i: int, j: int|
                    0 <= i < j < next.len() && (#[trigger] next[i]).0 == app && (#[trigger] next[j]).0
                        == app implies next[i].1 != next[j].1 by {
                    assert(next[i] == before[i] && next[j] == before[j]);
                }
                assert forall|i: int| 0 <= i < next.len() && (#[trigger] next[i]).0 == app implies next[i].2
                    == "view"@ && owner(app) != Some(next[i].1) by {
                    assert(next[i] == before[i]);
                }
            }
        }
    }
}


/// The answer to a new share: the share, created by the sharing user.
pub fn share_response(
    id: String,
    app_id: String,
    team_id: String,
    team_name: String,
    req: CreateAppShareRequest,
    created_at: String,
    user_id: String,
    user_name: String,
) -> (r: AppShareResponse)
    ensures
        r.id == id && r.app_id == app_id && r.shared_with_team_id == team_id,
        r.shared_with_team_name == team_name && r.permission == req.permission,
        r.created_at == created_at && r.created_by == Some(user_id) && r.created_by_name == Some(
            user_name,
        ),
{
    AppShareResponse {
        id,
        app_id,
        shared_with_team_id: team_id,
        shared_with_team_name: team_name,
        permission: req.permission,
        created_at,
        created_by: Some(user_id),
        created_by_name: Some(user_name),
    }
}

// ---------------------------------------------------------------------------
// Log streaming
// ---------------------------------------------------------------------------

/// The container whose logs are streamed: that of the app's latest
/// running deployment; `(status, error)` when there is none.
pub fn log_stream_target(running_deployment: bool, container_id: Option<String>) -> (r: Result<
    String,
    (u16, String),
>)
    ensures
        !running_deployment ==> (r matches Err((404, m)) && m@
            == "No running container found for this app"@),
        running_deployment && container_id is None ==> (r matches Err((404, m)) && m@
            == "No container ID found for this deployment"@),
        running_deployment && container_id is Some ==> r == Ok::<String, (u16, String)>(
            container_id->0,
        ),
{
    if !running_deployment {
        return Err((404, owned("No running container found for this app")));
    }
    match container_id {
        Some(c) => Ok(c),
        None => Err((404, owned("No container ID found for this deployment"))),
    }
}

/// The arguments of the `docker` command that follows a container's log
/// from its last 100 lines, with timestamps.
pub fn docker_logs_args(container_id: &str) -> (r: Vec<String>)
    ensures
        strings_view(r@) == seq![
            "logs"@,
            "--follow"@,
            "--timestamps"@,
            "--tail"@,
            "100"@,
            container_id@,
        ],
{
    let r = vec![
        owned("logs"),
        owned("--follow"),
        owned("--timestamps"),
        owned("--tail"),
        owned("100"),
        owned(container_id),
    ];
    assert(strings_view(r@) =~= seq![
        "logs"@,
        "--follow"@,
        "--timestamps"@,
        "--tail"@,
        "100"@,
        container_id@,
    ]);
    r
}

/// A timestamped log line split at its first space into timestamp and
/// message; a line without a space is all message.
pub open spec fn spec_split_log_line(line: Seq<char>) -> (Option<Seq<char>>, Seq<char>) {
    match crate::text::find_from(line, ' ', 0) {
        Some(i) => (Some(line.take(i)), line.skip(i + 1)),
        None => (None, line),
    }
}

/// Splits a timestamped log line into timestamp and message.
pub fn split_log_line(line: &str) -> (r: (Option<String>, String))
    ensures
        ({
            let (t, m) = spec_split_log_line(line@);
            &&& opt_view(r.0) == t
            &&& r.1@ == m
        }),
{
    let v = crate::text::chars_of(line);
    let mut i: usize = 0;
    while i < v.len() && v[i] != ' '
        invariant
            v@ == line@,
            i <= v@.len(),
            crate::text::find_from(line@, ' ', i as int) == crate::text::find_from(line@, ' ', 0),
        decreases v.len() - i,
    {
        i = i + 1;
    }
    proof {
        crate::text::lemma_find_from(line@, ' ', 0);
    }
    if i < v.len() {
        let ts = crate::text::slice_to_vec(v.as_slice(), 0, i);
        let msg = crate::text::slice_to_vec(v.as_slice(), i + 1, v.len());
        assert(ts@ =~= line@.take(i as int));
        assert(msg@ =~= line@.skip(i + 1));
        (Some(crate::text::string_of(ts.as_slice())), crate::text::string_of(msg.as_slice()))
    } else {
        (None, owned(line))
    }
}

} // verus!
