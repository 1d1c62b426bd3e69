//! Links between managed databases and apps: a linked database's connection
//! details (URL, host, port, user, password, database name) are injected as
//! environment variables into the app's container at deploy time.
use vstd::prelude::*;
use crate::databases::{DatabaseCredentials, DatabaseType};
use crate::env_vars::pairs_view;
use crate::error::ApiError;
use crate::numbers::{i64_to_string, signed_decimal};
use crate::text::{chars_of, concat2, has_suffix, owned};
use crate::unicode::{all_ascii, ascii_upper, is_ascii_alnum, is_ascii_alpha, is_ascii_lower, to_uppercase, upper_word, uppercase};

verus! {

/// Persisted link record.
pub struct DatabaseAppLink {
    pub id: String,
    pub database_id: String,
    pub app_id: String,
    pub env_prefix: String,
    pub created_at: String,
}

/// A link with the database's name, type and status, for display.
pub struct DatabaseAppLinkResponse {
    pub id: String,
    pub database_id: String,
    pub app_id: String,
    pub env_prefix: String,
    pub created_at: String,
    pub database_name: String,
    pub database_type: String,
    pub database_status: String,
}

/// Request to link a database to an app.
pub struct CreateLinkRequest {
    pub database_id: String,
    pub env_prefix: Option<String>,
}

/// Preview of one env var that would be injected.
pub struct LinkedEnvVarPreview {
    pub key: String,
    /// Whether this key would be overridden by an existing app env var.
    pub overridden: bool,
}

/// The variables one link would inject.
pub struct LinkedEnvVarsResponse {
    pub link_id: String,
    pub database_id: String,
    pub database_name: String,
    pub env_prefix: String,
    pub vars: Vec<LinkedEnvVarPreview>,
}

/// What a link is refused with when the app and the database belong to
/// different projects; both must have a project for this to apply.
pub fn check_same_project(app_project: &Option<String>, db_project: &Option<String>) -> (r: Result<(), ApiError>)
    ensures
        r is Err <==> (app_project is Some && db_project is Some && app_project->0@ != db_project->0@),
        r matches Err(e) ==> (e matches ApiError::BadRequest(m) && m@
            == "App and database belong to different projects"@),
{
    match (app_project, db_project) {
        (Some(a), Some(d)) => {
            if *a != *d {
                return Err(ApiError::BadRequest(owned("App and database belong to different projects")));
            }
        },
        _ => {},
    }
    Ok(())
}

/// Every character is an ASCII letter, digit or underscore.
pub open spec fn prefix_chars(s: Seq<char>) -> bool {
    forall|i: int| 0 <= i < s.len() ==> is_ascii_alnum(#[trigger] s[i]) || s[i] == '_'
}

/// The outcome of normalizing an env prefix: empty stays empty; otherwise
/// the upper-cased prefix must hold only ASCII letters, digits and
/// underscores and start with a letter, and gets a trailing `_`.
pub open spec fn spec_normalize_prefix(raw: Option<Seq<char>>) -> Result<Seq<char>, Seq<char>> {
    let prefix = match raw {
        Some(p) => p,
        None => seq![],
    };
    if prefix.len() == 0 {
        Ok(seq![])
    } else {
        let upper = uppercase(prefix);
        if !prefix_chars(upper) {
            Err("env_prefix may only contain letters, numbers, and underscores"@)
        } else if upper.len() == 0 || !is_ascii_alpha(upper[0]) {
            Err("env_prefix must start with a letter"@)
        } else if has_suffix(upper, seq!['_']) {
            Ok(upper)
        } else {
            Ok(upper.push('_'))
        }
    }
}

/// A prefix in normal form: an ASCII capital letter, then ASCII capitals,
/// digits and underscores, ending with `_`.
pub open spec fn normal_prefix(p: Seq<char>) -> bool {
    &&& p.len() > 0
    &&& upper_word(p)
    &&& is_ascii_alpha(p[0])
    &&& p[p.len() - 1] == '_'
}

/// Validate a user-supplied env_prefix. Allows empty string (no prefix),
/// otherwise must be `[A-Z][A-Z0-9_]*` and is normalized to upper-case
/// ending with `_` so the resulting var is `<PREFIX>_DATABASE_URL`.
pub fn normalize_prefix(raw: Option<String>) -> (r: Result<String, String>)
    ensures
        match spec_normalize_prefix(match raw {
            Some(p) => Some(p@),
            None => None,
        }) {
            Ok(p) => r matches Ok(x) && x@ == p,
            Err(m) => r matches Err(x) && x@ == m,
        },
        r matches Ok(x) ==> x@.len() == 0 || normal_prefix(x@),
        raw matches Some(p) ==> (normal_prefix(p@) ==> (r matches Ok(x) && x@ == p@)),
        raw matches Some(p) ==> (p@.len() > 0 && all_ascii(p@) ==> uppercase(p@) == p@.map_values(
            |c: char| ascii_upper(c),
        )),
{
    let ghost raw_view = match &raw {
        Some(p) => Some(p@),
        None => None,
    };
    let prefix = match raw {
        Some(p) => p,
        None => String::new(),
    };
    assert(prefix@ == match raw_view {
        Some(p) => p,
        None => Seq::<char>::empty(),
    });
    if prefix.as_str().is_empty() {
        return Ok(String::new());
    }
    let upper = to_uppercase(prefix.as_str());
    let uv = chars_of(upper.as_str());
    let mut i: usize = 0;
    while i < uv.len()
        invariant
            i <= uv.len(),
            uv@ == uppercase(prefix@),
            prefix@.len() > 0,
            raw_view == match raw {
                Some(p) => Some(p@),
                None => None,
            },
            prefix@ == match raw_view {
                Some(p) => p,
                None => Seq::<char>::empty(),
            },
            forall|j: int| 0 <= j < i ==> is_ascii_alnum(#[trigger] uv@[j]) || uv@[j] == '_',
            forall|j: int| 0 <= j < uv@.len() ==> !is_ascii_lower(#[trigger] uv@[j]),
            upper_word(prefix@) ==> uv@ == prefix@,
            all_ascii(prefix@) ==> uv@ == prefix@.map_values(|c: char| ascii_upper(c)),
        decreases uv.len() - i,
    {
        if !(crate::unicode::ascii_alnum(uv[i]) || uv[i] == '_') {
            assert(!(is_ascii_alnum(uv@[i as int]) || uv@[i as int] == '_'));
            assert(!prefix_chars(uppercase(prefix@)));
            return Err(owned("env_prefix may only contain letters, numbers, and underscores"));
        }
        i = i + 1;
    }
    if uv.len() == 0 || !crate::unicode::ascii_alpha(uv[0]) {
        return Err(owned("env_prefix must start with a letter"));
    }
    if uv[uv.len() - 1] == '_' {
        proof {
            assert(uv@.skip(uv@.len() - 1) =~= seq!['_']);
        }
        Ok(upper)
    } else {
        proof {
            if has_suffix(uv@, seq!['_']) {
                assert(uv@.skip(uv@.len() - 1)[0] == uv@[uv@.len() - 1]);
            }
        }
        let mut s = upper;
        crate::text::push_char(&mut s, '_');
        Ok(s)
    }
}

/// The fields of a managed database that the injected variables come from.
pub struct LinkedDatabase {
    pub db_type: DatabaseType,
    /// The container's name, which is its host name on the app network.
    pub container_name: String,
    pub internal_port: i32,
    /// The stored credentials, when they parse.
    pub credentials: Option<DatabaseCredentials>,
    /// The connection string for other containers, when the type has one.
    pub internal_connection_string: Option<String>,
}

/// The variable that carries the connection string for a database type.
pub open spec fn url_key(t: DatabaseType) -> Seq<char> {
    match t {
        DatabaseType::Redis | DatabaseType::Dragonfly | DatabaseType::Keydb => "REDIS_URL"@,
        DatabaseType::Mongodb => "MONGODB_URL"@,
        _ => "DATABASE_URL"@,
    }
}

fn url_key_of(t: &DatabaseType) -> (r: &'static str)
    ensures
        r@ == url_key(*t),
{
    match t {
        DatabaseType::Redis | DatabaseType::Dragonfly | DatabaseType::Keydb => "REDIS_URL",
        DatabaseType::Mongodb => "MONGODB_URL",
        _ => "DATABASE_URL",
    }
}

/// The variables a linked database injects with `prefix`: the connection
/// string (when the type has one), then `HOST`, `PORT`, `USER`,
/// `PASSWORD` and `DB` (the database name, else the user); nothing when
/// the credentials do not parse.
pub open spec fn spec_injected_vars(d: LinkedDatabase, prefix: Seq<char>) -> Seq<(Seq<char>, Seq<char>)> {
    match d.credentials {
        None => seq![],
        Some(c) => {
            let url = match d.internal_connection_string {
                Some(u) => seq![(prefix + url_key(d.db_type), u@)],
                None => seq![],
            };
            url + seq![
                (prefix + "HOST"@, d.container_name@),
                (prefix + "PORT"@, signed_decimal(d.internal_port as int)),
                (prefix + "USER"@, c.username@),
                (prefix + "PASSWORD"@, c.password@),
                (prefix + "DB"@, crate::databases::db_or_user(c)),
            ]
        },
    }
}

/// Compute the env vars that the given database would inject when linked
/// with the given prefix. Returns `(key, value)` pairs in deterministic
/// order. Used both at deploy time and from the preview endpoint.
pub fn compute_injected_vars(database: &LinkedDatabase, prefix: &str) -> (r: Vec<(String, String)>)
    ensures
        pairs_view(r@) == spec_injected_vars(*database, prefix@),
{
    let mut out: Vec<(String, String)> = Vec::new();
    let creds = match &database.credentials {
        Some(c) => c,
        None => {
            assert(pairs_view(out@) =~= seq![]);
            return out;
        },
    };
    let db_name = match &creds.database {
        Some(d) => d.clone(),
        None => creds.username.clone(),
    };
    if let Some(url) = &database.internal_connection_string {
        out.push((concat2(prefix, url_key_of(&database.db_type)), url.clone()));
    }
    out.push((concat2(prefix, "HOST"), database.container_name.clone()));
    out.push((concat2(prefix, "PORT"), i64_to_string(database.internal_port as i64)));
    out.push((concat2(prefix, "USER"), creds.username.clone()));
    out.push((concat2(prefix, "PASSWORD"), creds.password.clone()));
    out.push((concat2(prefix, "DB"), db_name));
    assert(pairs_view(out@) =~= spec_injected_vars(*database, prefix@));
    out
}

/// Every variable a link injects has the link's prefix in front of its
/// name.
pub proof fn law_injected_keys_carry_prefix(d: LinkedDatabase, prefix: Seq<char>)
    ensures
        forall|i: int|
            0 <= i < spec_injected_vars(d, prefix).len() ==> crate::text::has_prefix(
                #[trigger] spec_injected_vars(d, prefix)[i].0,
                prefix,
            ),
{
    let v = spec_injected_vars(d, prefix);
    assert forall|i: int| 0 <= i < v.len() implies crate::text::has_prefix(#[trigger] v[i].0, prefix) by {
        let k = v[i].0;
        assert(k.take(prefix.len() as int) =~= prefix);
    }
}

/// The connection-string variable a link injects first, for a database
/// whose credentials parse and that has a connection string: it holds the
/// connection string unchanged, and is named with the prefix and
/// `MONGODB_URL` for MongoDB, `REDIS_URL` for Redis, Dragonfly and KeyDB,
/// and `DATABASE_URL` only for the SQL engines (PostgreSQL, MySQL,
/// MariaDB, ClickHouse).
pub proof fn law_connection_variable_name(d: LinkedDatabase, prefix: Seq<char>)
    requires
        d.credentials is Some,
        d.internal_connection_string is Some,
    ensures
        ({
            let v = spec_injected_vars(d, prefix);
            let u = d.internal_connection_string->0@;
            &&& v.len() == 6
            &&& v[0].1 == u
            &&& d.db_type is Mongodb ==> v[0].0 == prefix + "MONGODB_URL"@
            &&& (d.db_type is Redis || d.db_type is Dragonfly || d.db_type is Keydb) ==> v[0].0 == prefix
                + "REDIS_URL"@
            &&& (d.db_type is Postgres || d.db_type is Mysql || d.db_type is Mariadb
                || d.db_type is ClickHouse) ==> v[0].0 == prefix + "DATABASE_URL"@
        }),
{
}

/// The preview of what a link injects: each key, flagged when the app
/// already sets a variable with that key (which then wins).
pub fn preview_vars(pairs: &Vec<(String, String)>, existing_keys: &Vec<String>) -> (r: Vec<LinkedEnvVarPreview>)
    ensures
        r@.len() == pairs@.len(),
        forall|i: int|
            0 <= i < pairs@.len() ==> (#[trigger] r@[i]).key@ == pairs@[i].0@ && r@[i].overridden
                == existing_keys@.map_values(|k: String| k@).contains(pairs@[i].0@),
{
    let mut out: Vec<LinkedEnvVarPreview> = Vec::new();
    let mut i: usize = 0;
    while i < pairs.len()
        invariant
            i <= pairs.len(),
            out@.len() == i,
            forall|j: int|
                0 <= j < i ==> (#[trigger] out@[j]).key@ == pairs@[j].0@ && out@[j].overridden
                    == existing_keys@.map_values(|k: String| k@).contains(pairs@[j].0@),
        decreases pairs.len() - i,
    {
        let key = pairs[i].0.clone();
        let mut found = false;
        let mut k: usize = 0;
        while k < existing_keys.len()
            invariant
                k <= existing_keys.len(),
                key@ == pairs@[i as int].0@,
                found == exists|j: int| 0 <= j < k && existing_keys@[j]@ == key@,
            decreases existing_keys.len() - k,
        {
            if existing_keys[k] == key {
                found = true;
            }
            k = k + 1;
        }
        proof {
            let ev = existing_keys@.map_values(|k: String| k@);
            if found {
                let j = choose|j: int| 0 <= j < existing_keys@.len() && existing_keys@[j]@ == key@;
                assert(ev[j] == key@);
            } else {
                assert forall|j: int| 0 <= j < ev.len() implies ev[j] != key@ by {
                    assert(ev[j] == existing_keys@[j]@);
                }
            }
        }
        out.push(LinkedEnvVarPreview { key, overridden: found });
        i = i + 1;
    }
    out
}

} // verus!
