//! Managed databases: their types and credentials, and the commands, names
//! and container settings that the platform derives from them.
use vstd::prelude::*;
use crate::numbers::signed_decimal;
use crate::text::{chars_of, concat2, ends_with, owned, push_str};

verus! {

/// The engines a managed database can run.
pub enum DatabaseType {
    Postgres,
    Mysql,
    Mariadb,
    Mongodb,
    Redis,
    Dragonfly,
    Keydb,
    ClickHouse,
}

/// The credentials of a managed database.
pub struct DatabaseCredentials {
    pub username: String,
    pub password: String,
    pub database: Option<String>,
    pub root_password: Option<String>,
}

/// Query parameters for listing databases.
pub struct ListQuery {
    pub reveal: bool,
    /// Filter by team ID
    pub team_id: Option<String>,
}

/// Query parameters for database logs.
pub struct LogsQuery {
    /// Number of lines to return (default: 100)
    pub lines: u32,
}

/// The number of log lines returned unless the query says otherwise.
pub fn default_lines() -> (r: u32)
    ensures
        r == 100,
{
    100
}

/// One line of a database container's log.
pub struct LogEntry {
    pub timestamp: String,
    pub message: String,
    pub stream: String,
}

/// A string made of the given pieces, in order.
pub open spec fn cat(parts: Seq<Seq<char>>) -> Seq<char>
    decreases parts.len(),
{
    if parts.len() == 0 {
        seq![]
    } else {
        cat(parts.drop_last()) + parts.last()
    }
}

/// The database name to use: the credentials' database, else the user.
pub open spec fn db_or_user(c: DatabaseCredentials) -> Seq<char> {
    match c.database {
        Some(d) => d@,
        None => c.username@,
    }
}

pub fn db_or_user_exec(c: &DatabaseCredentials) -> (r: String)
    ensures
        r@ == db_or_user(*c),
{
    match &c.database {
        Some(d) => d.clone(),
        None => c.username.clone(),
    }
}

/// An argument vector as plain characters.
pub open spec fn args_view(v: Seq<String>) -> Seq<Seq<char>> {
    v.map_values(|s: String| s@)
}

/// The command that runs a SQL init command inside a database container.
pub open spec fn spec_init_exec_cmd(t: DatabaseType, c: DatabaseCredentials, sql: Seq<char>) -> Seq<
    Seq<char>,
> {
    match t {
        DatabaseType::Postgres => seq!["psql"@, "-U"@, c.username@, "-d"@, db_or_user(c), "-c"@, sql],
        DatabaseType::Mysql | DatabaseType::Mariadb => seq![
            "mysql"@,
            "-u"@,
            c.username@,
            "-p"@ + c.password@,
            match c.database {
                Some(d) => d@,
                None => seq![],
            },
            "-e"@,
            sql,
        ],
        DatabaseType::Mongodb => seq![
            "mongosh"@,
            match c.database {
                Some(d) => d@,
                None => "admin"@,
            },
            "--eval"@,
            sql,
        ],
        DatabaseType::Redis | DatabaseType::Dragonfly | DatabaseType::Keydb => seq![
            "redis-cli"@,
            "ping"@,
        ],
        DatabaseType::ClickHouse => seq![
            "clickhouse-client"@,
            "--password"@,
            c.password@,
            "--query"@,
            sql,
        ],
    }
}

/// Build the exec command vector for running a SQL init command inside a
/// database container. Redis-compatible stores take no SQL; they get a
/// harmless `redis-cli ping`.
pub fn build_init_exec_cmd(db_type: &DatabaseType, credentials: &DatabaseCredentials, sql: &str) -> (r:
    Vec<String>)
    ensures
        args_view(r@) == spec_init_exec_cmd(*db_type, *credentials, sql@),
{
    let mut v: Vec<String> = Vec::new();
    match db_type {
        DatabaseType::Postgres => {
            v.push(owned("psql"));
            v.push(owned("-U"));
            v.push(credentials.username.clone());
            v.push(owned("-d"));
            v.push(db_or_user_exec(credentials));
            v.push(owned("-c"));
            v.push(owned(sql));
        },
        DatabaseType::Mysql | DatabaseType::Mariadb => {
            let db_name = match &credentials.database {
                Some(d) => d.clone(),
                None => String::new(),
            };
            v.push(owned("mysql"));
            v.push(owned("-u"));
            v.push(credentials.username.clone());
            v.push(concat2("-p", credentials.password.as_str()));
            v.push(db_name);
            v.push(owned("-e"));
            v.push(owned(sql));
        },
        DatabaseType::Mongodb => {
            let db_name = match &credentials.database {
                Some(d) => d.clone(),
                None => owned("admin"),
            };
            v.push(owned("mongosh"));
            v.push(db_name);
            v.push(owned("--eval"));
            v.push(owned(sql));
        },
        DatabaseType::Redis | DatabaseType::Dragonfly | DatabaseType::Keydb => {
            v.push(owned("redis-cli"));
            v.push(owned("ping"));
        },
        DatabaseType::ClickHouse => {
            v.push(owned("clickhouse-client"));
            v.push(owned("--password"));
            v.push(credentials.password.clone());
            v.push(owned("--query"));
            v.push(owned(sql));
        },
    }
    assert(args_view(v@) =~= spec_init_exec_cmd(*db_type, *credentials, sql@));
    v
}

/// A database name may hold only ASCII letters, digits and hyphens, and
/// must not be empty.
pub open spec fn valid_database_name(name: Seq<char>) -> bool {
    name.len() > 0 && forall|i: int|
        0 <= i < name.len() ==> (crate::unicode::is_ascii_alnum(#[trigger] name[i]) || name[i] == '-')
}

/// Whether a new database's name is acceptable.
pub fn is_valid_database_name(name: &str) -> (r: bool)
    ensures
        r == valid_database_name(name@),
{
    let v = chars_of(name);
    if v.len() == 0 {
        return false;
    }
    let mut i: usize = 0;
    while i < v.len()
        invariant
            i <= v.len(),
            v@ == name@,
            forall|j: int|
                0 <= j < i ==> (crate::unicode::is_ascii_alnum(#[trigger] v@[j]) || v@[j] == '-'),
        decreases v.len() - i,
    {
        if !(crate::unicode::ascii_alnum(v[i]) || v[i] == '-') {
            return false;
        }
        i = i + 1;
    }
    true
}

/// The version to run: the engine's default for `latest`, else the one
/// asked for.
pub fn resolve_version(requested: &str, default_version: &str) -> (r: String)
    ensures
        r@ == if requested@ == "latest"@ {
            default_version@
        } else {
            requested@
        },
{
    if crate::text::str_eq(requested, "latest") {
        owned(default_version)
    } else {
        owned(requested)
    }
}

/// The name of a database's data volume: `rivetr-db-<name>-data`.
pub fn volume_name(name: &str) -> (r: String)
    ensures
        r@ == "rivetr-db-"@ + name@ + "-data"@,
{
    let mut s = owned("rivetr-db-");
    push_str(&mut s, name);
    push_str(&mut s, "-data");
    s
}

/// The image a database container runs: its custom image, else
/// `<engine image>:<version>`.
pub fn database_image(custom_image: &Option<String>, engine_image: &str, version: &str) -> (r: String)
    ensures
        r@ == match custom_image {
            Some(c) => c@,
            None => engine_image@ + ":"@ + version@,
        },
{
    match custom_image {
        Some(c) => c.clone(),
        None => {
            let mut s = owned(engine_image);
            push_str(&mut s, ":");
            push_str(&mut s, version);
            s
        },
    }
}

/// The host-to-container port mapping of a database: none unless it is
/// public; a public one maps its fixed external port, or `0` (assigned by
/// the runtime) when it has none yet, to the engine's port. The stored
/// port is taken as a 16-bit port number (its low 16 bits).
pub fn database_port_mappings(is_public: bool, external_port: i32, engine_port: u16) -> (r: Vec<(u16, u16)>)
    ensures
        !is_public ==> r@.len() == 0,
        is_public ==> r@ == seq![
            (if external_port > 0 {
                external_port as u16
            } else {
                0u16
            }, engine_port),
        ],
{
    let mut v: Vec<(u16, u16)> = Vec::new();
    if is_public {
        let host_port: u16 = if external_port > 0 {
            #[verifier::truncate]
            (external_port as u16)
        } else {
            0
        };
        v.push((host_port, engine_port));
    }
    v
}

/// The bind mount of a database's data: `<volume path>:<data path>` when it
/// has a volume path.
pub fn database_binds(volume_path: &Option<String>, data_path: &str) -> (r: Vec<String>)
    ensures
        args_view(r@) == match volume_path {
            Some(p) => seq![p@ + ":"@ + data_path@],
            None => seq![],
        },
{
    let mut v: Vec<String> = Vec::new();
    if let Some(p) = volume_path {
        let mut s = p.clone();
        push_str(&mut s, ":");
        push_str(&mut s, data_path);
        v.push(s);
    }
    assert(args_view(v@) =~= match volume_path {
        Some(p) => seq![p@ + ":"@ + data_path@],
        None => seq![],
    });
    v
}

/// How a started database's external port is settled.
pub enum ExternalPort {
    /// The port is known: store it.
    Known(i32),
    /// Inspect the container and store its host port (or 0 without one).
    FromContainer,
}

/// How a started database's external port is settled: private databases
/// have none (0), public ones keep a fixed port or take the one the
/// runtime assigned.
pub fn external_port_plan(is_public: bool, external_port: i32) -> (r: ExternalPort)
    ensures
        !is_public ==> r == ExternalPort::Known(0),
        is_public && external_port > 0 ==> r == ExternalPort::Known(external_port),
        is_public && external_port <= 0 ==> r == ExternalPort::FromContainer,
{
    if is_public {
        if external_port > 0 {
            ExternalPort::Known(external_port)
        } else {
            ExternalPort::FromContainer
        }
    } else {
        ExternalPort::Known(0)
    }
}

/// The external port stored for a started database: the planned port when
/// it is known, else the host port the inspected container reports, or 0
/// when it reports none.
pub fn resolve_external_port(plan: &ExternalPort, inspected_host_port: Option<u16>) -> (r: i32)
    ensures
        match *plan {
            ExternalPort::Known(p) => r == p,
            ExternalPort::FromContainer => r == match inspected_host_port {
                Some(h) => h as i32,
                None => 0,
            },
        },
{
    match plan {
        ExternalPort::Known(p) => *p,
        ExternalPort::FromContainer => match inspected_host_port {
            Some(h) => h as i32,
            None => 0,
        },
    }
}

/// Why a requested external port is refused: a port other than 0 must lie
/// in 1024..=65535.
pub fn check_external_port(port: i32) -> (r: Result<(), String>)
    ensures
        r is Ok <==> (port == 0 || (1024 <= port && port <= 65535)),
        r matches Err(m) ==> m@ == "External port must be 0 (auto-assign) or between 1024 and 65535"@,
{
    if port != 0 && !(1024 <= port && port <= 65535) {
        return Err(owned("External port must be 0 (auto-assign) or between 1024 and 65535"));
    }
    Ok(())
}

/// The command that creates a ClickHouse database inside its container.
pub fn clickhouse_create_cmd(password: &str, db_name: &str) -> (r: Vec<String>)
    ensures
        args_view(r@) == seq![
            "clickhouse-client"@,
            "--password"@,
            password@,
            "--query"@,
            "CREATE DATABASE IF NOT EXISTS `"@ + db_name@ + "`"@,
        ],
{
    let mut q = owned("CREATE DATABASE IF NOT EXISTS `");
    push_str(&mut q, db_name);
    push_str(&mut q, "`");
    let mut v: Vec<String> = Vec::new();
    v.push(owned("clickhouse-client"));
    v.push(owned("--password"));
    v.push(owned(password));
    v.push(owned("--query"));
    v.push(q);
    assert(args_view(v@) =~= seq![
        "clickhouse-client"@,
        "--password"@,
        password@,
        "--query"@,
        "CREATE DATABASE IF NOT EXISTS `"@ + db_name@ + "`"@,
    ]);
    v
}

// ---------------------------------------------------------------------------
// Importing a dump
// ---------------------------------------------------------------------------

/// Where an uploaded dump is written inside the container.
pub open spec fn dump_path() -> Seq<char> {
    "/tmp/rivetr_import_dump"@
}

/// The container a dump is imported into: refused (400) unless the
/// database is running (status `running`) and has a container, whose id is
/// then answered.
pub fn check_import_target(status: &str, container_id: Option<String>) -> (r: Result<
    String,
    (u16, String),
>)
    ensures
        status@ != "running"@ ==> (r matches Err((c, m)) && c == 400 && m@
            == "Database must be running to import a dump"@),
        status@ == "running"@ && container_id is None ==> (r matches Err((c, m)) && c == 400 && m@
            == "Database has no container"@),
        status@ == "running"@ && container_id is Some ==> r == Ok::<String, (u16, String)>(
            container_id->0,
        ),
{
    if !crate::text::str_eq(status, "running") {
        return Err((400, owned("Database must be running to import a dump")));
    }
    match container_id {
        Some(c) => Ok(c),
        None => Err((400, owned("Database has no container"))),
    }
}

/// Whether an uploaded dump is gzip-compressed, judged by its file name.
pub fn is_gzip_name(file_name: &Option<String>) -> (r: bool)
    ensures
        r == match file_name {
            Some(n) => crate::text::has_suffix(n@, ".gz"@),
            None => false,
        },
{
    match file_name {
        Some(n) => {
            let v = chars_of(n.as_str());
            let gz = chars_of(".gz");
            ends_with(v.as_slice(), gz.as_slice())
        },
        None => false,
    }
}

/// The character of the standard base64 alphabet (RFC 4648, section 4)
/// for a six-bit value: `A` to `Z`, `a` to `z`, `0` to `9`, `+`, `/`.
pub open spec fn base64_digit(i: int) -> char {
    if i < 26 {
        ('A' as int + i) as char
    } else if i < 52 {
        ('a' as int + (i - 26)) as char
    } else if i < 62 {
        ('0' as int + (i - 52)) as char
    } else if i == 62 {
        '+'
    } else {
        '/'
    }
}

/// Standard base64 with padding (RFC 4648, section 4): every three bytes
/// give four characters, and a last one or two bytes give two or three
/// characters padded with `=` to four.
pub open spec fn base64_standard(d: Seq<u8>) -> Seq<char>
    decreases d.len(),
{
    if d.len() >= 3 {
        seq![
            base64_digit((d[0] / 4) as int),
            base64_digit((d[0] % 4) * 16 + d[1] / 16),
            base64_digit((d[1] % 16) * 4 + d[2] / 64),
            base64_digit((d[2] % 64) as int),
        ] + base64_standard(d.subrange(3, d.len() as int))
    } else if d.len() == 2 {
        seq![
            base64_digit((d[0] / 4) as int),
            base64_digit((d[0] % 4) * 16 + d[1] / 16),
            base64_digit((d[1] % 16) * 4),
            '=',
        ]
    } else if d.len() == 1 {
        seq![base64_digit((d[0] / 4) as int), base64_digit((d[0] % 4) * 16), '=', '=']
    } else {
        seq![]
    }
}

/// Encodes bytes in standard base64 with padding.
///
/// Trusted: calls `base64::Engine::encode` on
/// `base64::engine::general_purpose::STANDARD` (the standard alphabet, with
/// padding), which writes four characters for every three bytes and pads
/// the last group with `=`. It panics only when the encoded length does
/// not fit in `usize`, which `requires` leaves out.
#[verifier::external_body]
fn base64_encode(data: &[u8]) -> (r: String)
    requires
        data@.len() / 3 * 4 + 4 <= usize::MAX,
    ensures
        r@ == base64_standard(data@),
{
    ::base64::Engine::encode(&::base64::engine::general_purpose::STANDARD, data)
}

/// The script that writes an uploaded dump, given in base64, to
/// `dump_path()` inside the container.
pub open spec fn spec_dump_write_script(encoded: Seq<char>) -> Seq<char> {
    "echo '"@ + encoded + "' | base64 -d > "@ + dump_path()
}

/// The command that writes an uploaded dump into the container: `sh -c`
/// with the script that decodes the dump's standard base64 into
/// `dump_path()`; `None` for an empty upload, which is refused
/// ("Uploaded file is empty").
pub fn dump_write_command(dump: &[u8]) -> (r: Option<Vec<String>>)
    requires
        dump@.len() / 3 * 4 + 4 <= usize::MAX,
    ensures
        r is None <==> dump@.len() == 0,
        r matches Some(v) ==> args_view(v@) == seq![
            "sh"@,
            "-c"@,
            spec_dump_write_script(base64_standard(dump@)),
        ],
{
    if dump.len() == 0 {
        return None;
    }
    let encoded = base64_encode(dump);
    let mut script = owned("echo '");
    push_str(&mut script, encoded.as_str());
    push_str(&mut script, "' | base64 -d > ");
    push_str(&mut script, "/tmp/rivetr_import_dump");
    let mut v: Vec<String> = Vec::new();
    v.push(owned("sh"));
    v.push(owned("-c"));
    let ghost sv = script@;
    v.push(script);
    assert(args_view(v@) =~= seq!["sh"@, "-c"@, sv]);
    Some(v)
}

/// The base64 text of a dump has four characters for every started group
/// of three bytes, none of them a quote, so the single-quoted `echo`
/// argument of the write script holds it whole.
pub proof fn law_encoded_dump_needs_no_quoting(d: Seq<u8>)
    ensures
        base64_standard(d).len() == (d.len() + 2) / 3 * 4,
        forall|i: int| 0 <= i < base64_standard(d).len() ==> base64_standard(d)[i] != '\'',
    decreases d.len(),
{
    if d.len() >= 3 {
        law_encoded_dump_needs_no_quoting(d.subrange(3, d.len() as int));
    }
}

/// The shell command that restores a dump into a database of the given
/// type (named as stored: `postgres`, `mysql`, `mariadb`, `mongodb`), or
/// `None` for types that cannot import dumps.
pub open spec fn spec_restore_command(db_type: Seq<char>, c: DatabaseCredentials, gz: bool) -> Option<
    Seq<char>,
> {
    if db_type == "postgres"@ {
        if gz {
            Some(
                "PGPASSWORD='"@ + c.password@ + "' pg_restore -U "@ + c.username@ + " -d "@
                    + db_or_user(c) + " "@ + dump_path(),
            )
        } else {
            Some(
                "PGPASSWORD='"@ + c.password@ + "' psql -U "@ + c.username@ + " -d "@ + db_or_user(c)
                    + " -f "@ + dump_path(),
            )
        }
    } else if db_type == "mysql"@ {
        Some(
            "mysql -u "@ + c.username@ + " -p'"@ + c.password@ + "' "@ + db_or_user(c) + " < "@
                + dump_path(),
        )
    } else if db_type == "mariadb"@ {
        Some(
            "mariadb -u "@ + c.username@ + " -p'"@ + c.password@ + "' "@ + db_or_user(c) + " < "@
                + dump_path(),
        )
    } else if db_type == "mongodb"@ {
        Some(
            "mongorestore --username "@ + c.username@ + " --password '"@ + c.password@
                + "' --authenticationDatabase admin --archive="@ + dump_path() + " --gzip"@,
        )
    } else {
        None
    }
}

/// The command vector that restores an uploaded dump (`sh -c <script>`),
/// or `None` when the database type cannot import dumps.
pub fn restore_command(db_type: &str, credentials: &DatabaseCredentials, gz: bool) -> (r: Option<Vec<String>>)
    ensures
        match spec_restore_command(db_type@, *credentials, gz) {
            Some(script) => r matches Some(v) && args_view(v@) == seq!["sh"@, "-c"@, script],
            None => r is None,
        },
{
    let dest = "/tmp/rivetr_import_dump";
    let db_name = db_or_user_exec(credentials);
    let u = credentials.username.as_str();
    let p = credentials.password.as_str();
    let script = if crate::text::str_eq(db_type, "postgres") {
        let mut s = owned("PGPASSWORD='");
        push_str(&mut s, p);
        if gz {
            push_str(&mut s, "' pg_restore -U ");
            push_str(&mut s, u);
            push_str(&mut s, " -d ");
            push_str(&mut s, db_name.as_str());
            push_str(&mut s, " ");
        } else {
            push_str(&mut s, "' psql -U ");
            push_str(&mut s, u);
            push_str(&mut s, " -d ");
            push_str(&mut s, db_name.as_str());
            push_str(&mut s, " -f ");
        }
        push_str(&mut s, dest);
        s
    } else if crate::text::str_eq(db_type, "mysql") || crate::text::str_eq(db_type, "mariadb") {
        let mut s = if crate::text::str_eq(db_type, "mysql") {
            owned("mysql -u ")
        } else {
            owned("mariadb -u ")
        };
        push_str(&mut s, u);
        push_str(&mut s, " -p'");
        push_str(&mut s, p);
        push_str(&mut s, "' ");
        push_str(&mut s, db_name.as_str());
        push_str(&mut s, " < ");
        push_str(&mut s, dest);
        s
    } else if crate::text::str_eq(db_type, "mongodb") {
        let mut s = owned("mongorestore --username ");
        push_str(&mut s, u);
        push_str(&mut s, " --password '");
        push_str(&mut s, p);
        push_str(&mut s, "' --authenticationDatabase admin --archive=");
        push_str(&mut s, dest);
        push_str(&mut s, " --gzip");
        s
    } else {
        return None;
    };
    let mut v: Vec<String> = Vec::new();
    v.push(owned("sh"));
    v.push(owned("-c"));
    let ghost sv = script@;
    v.push(script);
    assert(args_view(v@) =~= seq!["sh"@, "-c"@, sv]);
    Some(v)
}

// ---------------------------------------------------------------------------
// Creating a database
// ---------------------------------------------------------------------------

/// Whether an engine keeps a separate root password (MySQL and MariaDB).
pub open spec fn has_root_password(t: DatabaseType) -> bool {
    t == DatabaseType::Mysql || t == DatabaseType::Mariadb
}

/// The credentials of a new database: the user name, password, database
/// name and root password asked for, else generated ones (the caller draws
/// them: `generated_*`); the database is named after the user unless
/// named, and only MySQL and MariaDB get a root password.
pub fn new_credentials(
    db_type: &DatabaseType,
    username: Option<String>,
    password: Option<String>,
    database: Option<String>,
    root_password: Option<String>,
    generated_username: String,
    generated_password: String,
    generated_root_password: String,
) -> (r: DatabaseCredentials)
    ensures
        r.username == match username {
            Some(u) => u,
            None => generated_username,
        },
        r.password == match password {
            Some(p) => p,
            None => generated_password,
        },
        r.database == match database {
            Some(d) => Some(d),
            None => Some(r.username),
        },
        r.root_password == if has_root_password(*db_type) {
            Some(
                match root_password {
                    Some(p) => p,
                    None => generated_root_password,
                },
            )
        } else {
            None
        },
{
    let username = match username {
        Some(u) => u,
        None => generated_username,
    };
    let password = match password {
        Some(p) => p,
        None => generated_password,
    };
    let database = match database {
        Some(d) => Some(d),
        None => Some(username.clone()),
    };
    let root = match db_type {
        DatabaseType::Mysql | DatabaseType::Mariadb => Some(
            match root_password {
                Some(p) => p,
                None => generated_root_password,
            },
        ),
        _ => None,
    };
    DatabaseCredentials { username, password, database, root_password: root }
}

// ---------------------------------------------------------------------------
// Updating a database
// ---------------------------------------------------------------------------

/// A change to a database's settings: absent fields are left as they are.
pub struct UpdateManagedDatabaseRequest {
    pub public_access: Option<bool>,
    pub memory_limit: Option<String>,
    pub cpu_limit: Option<String>,
    pub external_port: Option<i32>,
    pub ssl_enabled: Option<bool>,
    pub ssl_mode: Option<String>,
    pub custom_image: Option<String>,
    pub init_commands: Option<String>,
}

/// The columns an update sets, in the order they are written.
pub open spec fn spec_update_columns(req: UpdateManagedDatabaseRequest) -> Seq<Seq<char>> {
    (if req.public_access is Some { seq!["public_access"@] } else { seq![] })
        + (if req.memory_limit is Some { seq!["memory_limit"@] } else { seq![] })
        + (if req.cpu_limit is Some { seq!["cpu_limit"@] } else { seq![] })
        + (if req.external_port is Some { seq!["external_port"@] } else { seq![] })
        + (if req.ssl_enabled is Some { seq!["ssl_enabled"@] } else { seq![] })
        + (if req.ssl_mode is Some { seq!["ssl_mode"@] } else { seq![] })
        + (if req.custom_image is Some { seq!["custom_image"@] } else { seq![] })
        + (if req.init_commands is Some { seq!["init_commands"@] } else { seq![] })
}

fn push_column(v: &mut Vec<String>, present: bool, name: &str)
    ensures
        args_view(final(v)@) == args_view(old(v)@) + if present {
            seq![name@]
        } else {
            seq![]
        },
{
    if present {
        let ghost before = v@;
        v.push(owned(name));
        assert(args_view(v@) =~= args_view(before) + seq![name@]);
    } else {
        assert(args_view(old(v)@) + Seq::<Seq<char>>::empty() =~= args_view(old(v)@));
    }
}

/// The columns an update sets; none means the update changes nothing.
pub fn update_columns(req: &UpdateManagedDatabaseRequest) -> (r: Vec<String>)
    ensures
        args_view(r@) == spec_update_columns(*req),
{
    let mut v: Vec<String> = Vec::new();
    assert(args_view(v@) =~= Seq::<Seq<char>>::empty());
    push_column(&mut v, req.public_access.is_some(), "public_access");
    push_column(&mut v, req.memory_limit.is_some(), "memory_limit");
    push_column(&mut v, req.cpu_limit.is_some(), "cpu_limit");
    push_column(&mut v, req.external_port.is_some(), "external_port");
    push_column(&mut v, req.ssl_enabled.is_some(), "ssl_enabled");
    push_column(&mut v, req.ssl_mode.is_some(), "ssl_mode");
    push_column(&mut v, req.custom_image.is_some(), "custom_image");
    push_column(&mut v, req.init_commands.is_some(), "init_commands");
    assert(args_view(v@) =~= spec_update_columns(*req));
    v
}

/// A running database is restarted after an update that changes whether
/// it is publicly reachable.
pub fn needs_restart(req: &UpdateManagedDatabaseRequest, is_public: bool, is_running: bool) -> (r: bool)
    ensures
        r == (req.public_access matches Some(p) && p != is_public && is_running),
{
    match req.public_access {
        Some(p) => p != is_public && is_running,
        None => false,
    }
}

/// An error answered about a database: status, error and message.
pub struct DatabaseError {
    pub status: u16,
    pub error: String,
    pub message: String,
}

/// Why the external port an update asks for is refused, if it is: it must
/// be 0 or in 1024..=65535, and a fixed port must not be taken by a
/// service (`service_on_port`) or by another public database
/// (`database_on_port`), each given by name.
pub fn check_port_request(
    req: &UpdateManagedDatabaseRequest,
    service_on_port: Option<String>,
    database_on_port: Option<String>,
) -> (r: Result<(), DatabaseError>)
    ensures
        match req.external_port {
            None => r is Ok,
            Some(port) => if port != 0 && !(1024 <= port && port <= 65535) {
                r matches Err(e) && e.status == 400 && e.error@ == "Invalid external port"@
                    && e.message@ == "External port must be 0 (auto-assign) or between 1024 and 65535"@
            } else if port == 0 {
                r is Ok
            } else {
                match (service_on_port, database_on_port) {
                    (Some(n), _) => r matches Err(e) && e.status == 409 && e.error@ == "Port conflict"@
                        && e.message@ == "Port "@ + signed_decimal(port as int)
                        + " is already used by service '"@ + n@ + "'"@,
                    (None, Some(n)) => r matches Err(e) && e.status == 409 && e.error@
                        == "Port conflict"@ && e.message@ == "Port "@ + signed_decimal(port as int)
                        + " is already used by database '"@ + n@ + "'"@,
                    (None, None) => r is Ok,
                }
            },
        },
{
    match req.external_port {
        None => Ok(()),
        Some(port) => {
            if port != 0 && !(1024 <= port && port <= 65535) {
                return Err(
                    DatabaseError {
                        status: 400,
                        error: owned("Invalid external port"),
                        message: owned("External port must be 0 (auto-assign) or between 1024 and 65535"),
                    },
                );
            }
            if port == 0 {
                return Ok(());
            }
            let (is_service, name) = match (service_on_port, database_on_port) {
                (Some(n), _) => (true, n),
                (None, Some(n)) => (false, n),
                (None, None) => {
                    return Ok(());
                },
            };
            let mut m = owned("Port ");
            push_str(&mut m, crate::numbers::i64_to_string(port as i64).as_str());
            if is_service {
                push_str(&mut m, " is already used by service '");
            } else {
                push_str(&mut m, " is already used by database '");
            }
            push_str(&mut m, name.as_str());
            push_str(&mut m, "'");
            Err(DatabaseError { status: 409, error: owned("Port conflict"), message: m })
        },
    }
}

// ---------------------------------------------------------------------------
// Logs
// ---------------------------------------------------------------------------

/// The message answered when a database's container is not running.
pub open spec fn stopped_message() -> Seq<char> {
    "The database container is not running. Start the database to view logs."@
}

/// The container whose logs are read: the database must be running, have
/// a container, and the runtime must report it running (`inspected`:
/// `None` when it could not be inspected); otherwise the container is
/// reported stopped (404).
pub fn log_container(is_running: bool, container_id: Option<String>, inspected: Option<bool>) -> (r: Result<
    String,
    DatabaseError,
>)
    ensures
        r is Ok <==> (is_running && container_id is Some && inspected == Some(true)),
        r matches Ok(c) ==> container_id == Some(c),
        r matches Err(e) ==> e.status == 404 && e.error@ == "Container is stopped"@ && e.message@
            == stopped_message(),
{
    let stopped = DatabaseError {
        status: 404,
        error: owned("Container is stopped"),
        message: owned("The database container is not running. Start the database to view logs."),
    };
    if !is_running {
        return Err(stopped);
    }
    match container_id {
        Some(c) => match inspected {
            Some(true) => Ok(c),
            _ => Err(stopped),
        },
        None => Err(stopped),
    }
}

/// A log line as the runtime gives it: timestamp, message, and whether it
/// came from standard error.
pub struct RawLogLine {
    pub timestamp: String,
    pub message: String,
    pub is_stderr: bool,
}

/// The log entries answered: the first `lines` lines, each with its
/// stream named `stdout` or `stderr`.
pub fn log_entries(raw: Vec<RawLogLine>, lines: u32) -> (r: Vec<LogEntry>)
    ensures
        r@.len() == if raw@.len() < lines { raw@.len() as int } else { lines as int },
        forall|i: int|
            0 <= i < r@.len() ==> {
                &&& (#[trigger] r@[i]).timestamp == raw@[i].timestamp
                &&& r@[i].message == raw@[i].message
                &&& r@[i].stream@ == if raw@[i].is_stderr {
                    "stderr"@
                } else {
                    "stdout"@
                }
            },
{
    let ghost src = raw@;
    let n: usize = if raw.len() < lines as usize {
        raw.len()
    } else {
        lines as usize
    };
    let mut r: Vec<LogEntry> = Vec::new();
    for l in it: raw.into_iter()
        invariant
            it.seq() == src,
            n <= src.len(),
            n == if src.len() < lines { src.len() as int } else { lines as int },
            r@.len() == if it.index() < n { it.index() as int } else { n as int },
            forall|i: int|
                0 <= i < r@.len() ==> {
                    &&& (#[trigger] r@[i]).timestamp == src[i].timestamp
                    &&& r@[i].message == src[i].message
                    &&& r@[i].stream@ == if src[i].is_stderr {
                        "stderr"@
                    } else {
                        "stdout"@
                    }
                },
    {
        if r.len() < n {
            let stream = if l.is_stderr {
                owned("stderr")
            } else {
                owned("stdout")
            };
            r.push(LogEntry { timestamp: l.timestamp, message: l.message, stream });
        }
    }
    r
}

// ---------------------------------------------------------------------------
// MySQL users
// ---------------------------------------------------------------------------

/// `s` with every single quote doubled, as SQL string literals need.
pub open spec fn escape_quotes(s: Seq<char>) -> Seq<char>
    decreases s.len(),
{
    if s.len() == 0 {
        seq![]
    } else {
        escape_quotes(s.drop_last()) + if s.last() == '\'' {
            seq!['\'', '\'']
        } else {
            seq![s.last()]
        }
    }
}

/// `s` without backticks.
pub open spec fn strip_backticks(s: Seq<char>) -> Seq<char>
    decreases s.len(),
{
    if s.len() == 0 {
        seq![]
    } else {
        strip_backticks(s.drop_last()) + if s.last() == '`' {
            seq![]
        } else {
            seq![s.last()]
        }
    }
}

fn map_chars(s: &str, escape: bool) -> (r: String)
    ensures
        r@ == if escape {
            escape_quotes(s@)
        } else {
            strip_backticks(s@)
        },
{
    let v = chars_of(s);
    let mut out = String::new();
    let mut i: usize = 0;
    while i < v.len()
        invariant
            v@ == s@,
            i <= v@.len(),
            out@ == if escape {
                escape_quotes(v@.take(i as int))
            } else {
                strip_backticks(v@.take(i as int))
            },
        decreases v.len() - i,
    {
        let c = v[i];
        proof {
            assert(v@.take(i + 1).drop_last() =~= v@.take(i as int));
            assert(v@.take(i + 1).last() == c);
        }
        if escape {
            if c == '\'' {
                crate::text::push_char(&mut out, '\'');
                crate::text::push_char(&mut out, '\'');
                assert(out@ =~= escape_quotes(v@.take(i + 1)));
            } else {
                crate::text::push_char(&mut out, c);
                assert(out@ =~= escape_quotes(v@.take(i + 1)));
            }
        } else {
            if c != '`' {
                crate::text::push_char(&mut out, c);
                assert(out@ =~= strip_backticks(v@.take(i + 1)));
            } else {
                assert(out@ =~= strip_backticks(v@.take(i + 1)));
            }
        }
        i = i + 1;
    }
    assert(v@.take(v@.len() as int) =~= v@);
    out
}

/// The statements that make sure the app user of a MySQL or MariaDB
/// database exists and owns its database, with quotes in the user name
/// and password escaped and backticks dropped from the database name.
pub open spec fn spec_mysql_user_sql(user: Seq<char>, password: Seq<char>, db_name: Seq<char>) -> Seq<char> {
    let u = escape_quotes(user);
    let p = escape_quotes(password);
    let d = strip_backticks(db_name);
    "CREATE USER IF NOT EXISTS '"@ + u + "'@'%' IDENTIFIED BY '"@ + p
        + "'; CREATE DATABASE IF NOT EXISTS `"@ + d + "`; GRANT ALL PRIVILEGES ON `"@ + d
        + "`.* TO '"@ + u + "'@'%'; FLUSH PRIVILEGES;"@
}

/// The statements that provision a MySQL or MariaDB app user.
pub fn mysql_user_sql(credentials: &DatabaseCredentials, db_name: &str) -> (r: String)
    ensures
        r@ == spec_mysql_user_sql(credentials.username@, credentials.password@, db_name@),
{
    let u = map_chars(credentials.username.as_str(), true);
    let p = map_chars(credentials.password.as_str(), true);
    let d = map_chars(db_name, false);
    let mut s = owned("CREATE USER IF NOT EXISTS '");
    push_str(&mut s, u.as_str());
    push_str(&mut s, "'@'%' IDENTIFIED BY '");
    push_str(&mut s, p.as_str());
    push_str(&mut s, "'; CREATE DATABASE IF NOT EXISTS `");
    push_str(&mut s, d.as_str());
    push_str(&mut s, "`; GRANT ALL PRIVILEGES ON `");
    push_str(&mut s, d.as_str());
    push_str(&mut s, "`.* TO '");
    push_str(&mut s, u.as_str());
    push_str(&mut s, "'@'%'; FLUSH PRIVILEGES;");
    s
}

/// The command that runs the provisioning statements as root over the
/// local socket: `mysql` or `mariadb`; other engines have no such user.
pub fn mysql_user_command(db_type: &DatabaseType, sql: &str) -> (r: Option<Vec<String>>)
    ensures
        match db_type {
            DatabaseType::Mysql => r matches Some(v) && args_view(v@) == seq![
                "mysql"@,
                "--socket=/var/run/mysqld/mysqld.sock"@,
                "-uroot"@,
                "-e"@,
                sql@,
            ],
            DatabaseType::Mariadb => r matches Some(v) && args_view(v@) == seq![
                "mariadb"@,
                "--socket=/var/run/mysqld/mysqld.sock"@,
                "-uroot"@,
                "-e"@,
                sql@,
            ],
            _ => r is None,
        },
{
    let client = match db_type {
        DatabaseType::Mysql => "mysql",
        DatabaseType::Mariadb => "mariadb",
        _ => {
            return None;
        },
    };
    let v = vec![
        owned(client),
        owned("--socket=/var/run/mysqld/mysqld.sock"),
        owned("-uroot"),
        owned("-e"),
        owned(sql),
    ];
    assert(args_view(v@) =~= seq![
        client@,
        "--socket=/var/run/mysqld/mysqld.sock"@,
        "-uroot"@,
        "-e"@,
        sql@,
    ]);
    Some(v)
}

/// How many times provisioning is tried (five seconds apart) before
/// giving up.
pub fn mysql_user_attempts() -> (r: u8)
    ensures
        r == 6,
{
    6
}

/// How a database container is brought up: its existing container is
/// started again when it has one (a non-empty ID); otherwise, or when
/// that start fails, a new container is created.
pub fn reuse_container(container_id: &Option<String>) -> (r: Option<String>)
    ensures
        match container_id {
            Some(c) if c@.len() > 0 => r == Some(*c),
            _ => r is None,
        },
{
    match container_id {
        Some(c) => if c.as_str().is_empty() {
            None
        } else {
            Some(c.clone())
        },
        None => None,
    }
}

} // verus!
