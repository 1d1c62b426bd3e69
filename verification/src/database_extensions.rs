//! PostgreSQL extensions: which names may be installed, which need an OS
//! package first, how display names and SQL names correspond, and the
//! commands and answers of listing and installing them.
use vstd::prelude::*;
use crate::databases::{args_view, db_or_user, db_or_user_exec, DatabaseCredentials};
use crate::text::{chars_of, lines, lines_of, owned, push_str, str_eq, string_of, trim, trim_chars};
use crate::unicode::is_ascii_alnum;

verus! {

/// Request to install a PostgreSQL extension.
pub struct InstallExtensionRequest {
    /// Extension name (e.g., "pgvector", "postgis")
    pub extension: String,
}

/// A single installed PostgreSQL extension.
pub struct ExtensionEntry {
    pub name: String,
}

/// List of installed extensions response.
pub struct ExtensionsResponse {
    pub extensions: Vec<ExtensionEntry>,
}

/// An extension name that may be installed: non-empty, of ASCII letters,
/// digits, `_` and `-`.
pub open spec fn valid_extension_name(name: Seq<char>) -> bool {
    name.len() > 0 && forall|i: int|
        0 <= i < name.len() ==> is_ascii_alnum(#[trigger] name[i]) || name[i] == '_' || name[i] == '-'
}

/// Whether an extension name may be installed.
pub fn is_valid_extension_name(name: &str) -> (r: bool)
    ensures
        r == valid_extension_name(name@),
{
    let v = chars_of(name);
    if v.len() == 0 {
        return false;
    }
    let mut i: usize = 0;
    while i < v.len()
        invariant
            v@ == name@,
            i <= v@.len(),
            forall|j: int|
                0 <= j < i ==> is_ascii_alnum(#[trigger] name@[j]) || name@[j] == '_' || name@[j]
                    == '-',
        decreases v.len() - i,
    {
        let c = v[i];
        let ok = ('a' <= c && c <= 'z') || ('A' <= c && c <= 'Z') || ('0' <= c && c <= '9') || c
            == '_' || c == '-';
        if !ok {
            return false;
        }
        i = i + 1;
    }
    true
}

/// The suffix of the OS package that provides an extension not bundled
/// with the postgres image, if it needs one.
pub open spec fn package_suffix(extension: Seq<char>) -> Option<Seq<char>> {
    if extension == "pgvector"@ {
        Some("pgvector"@)
    } else if extension == "postgis"@ {
        Some("postgis-3"@)
    } else if extension == "apache_age"@ {
        Some("age"@)
    } else if extension == "timescaledb"@ {
        Some("timescaledb"@)
    } else if extension == "pg_cron"@ {
        Some("cron"@)
    } else if extension == "pg_partman"@ {
        Some("partman"@)
    } else if extension == "pgrouting"@ {
        Some("pgrouting"@)
    } else if extension == "rum"@ {
        Some("rum"@)
    } else {
        None
    }
}

/// The apt package an extension needs for a PostgreSQL version:
/// `postgresql-<version>-<suffix>`.
pub open spec fn spec_apt_package(extension: Seq<char>, pg_version: Seq<char>) -> Option<Seq<char>> {
    match package_suffix(extension) {
        Some(s) => Some("postgresql-"@ + pg_version + "-"@ + s),
        None => None,
    }
}

fn package_suffix_of(extension: &str) -> (r: Option<&'static str>)
    ensures
        match package_suffix(extension@) {
            Some(s) => r matches Some(x) && x@ == s,
            None => r is None,
        },
{
    if str_eq(extension, "pgvector") {
        Some("pgvector")
    } else if str_eq(extension, "postgis") {
        Some("postgis-3")
    } else if str_eq(extension, "apache_age") {
        Some("age")
    } else if str_eq(extension, "timescaledb") {
        Some("timescaledb")
    } else if str_eq(extension, "pg_cron") {
        Some("cron")
    } else if str_eq(extension, "pg_partman") {
        Some("partman")
    } else if str_eq(extension, "pgrouting") {
        Some("pgrouting")
    } else if str_eq(extension, "rum") {
        Some("rum")
    } else {
        None
    }
}

/// Returns the apt package name for extensions that aren't bundled in the
/// official postgres image and must be installed at the OS level first.
/// Built-in extensions (pg_trgm, uuid-ossp, hstore, etc.) return None.
pub fn apt_package_for_extension(extension: &str, pg_version: &str) -> (r: Option<String>)
    ensures
        match spec_apt_package(extension@, pg_version@) {
            Some(p) => r matches Some(x) && x@ == p,
            None => r is None,
        },
{
    match package_suffix_of(extension) {
        Some(s) => {
            let mut p = owned("postgresql-");
            push_str(&mut p, pg_version);
            push_str(&mut p, "-");
            push_str(&mut p, s);
            Some(p)
        },
        None => None,
    }
}

/// The SQL name an extension registers under: `vector` for pgvector and
/// `age` for apache_age, else its display name.
pub open spec fn spec_sql_name(extension: Seq<char>) -> Seq<char> {
    if extension == "pgvector"@ {
        "vector"@
    } else if extension == "apache_age"@ {
        "age"@
    } else {
        extension
    }
}

/// The display name of an extension known under a SQL name: the reverse
/// of `spec_sql_name`.
pub open spec fn spec_display_name(sql_name: Seq<char>) -> Seq<char> {
    if sql_name == "vector"@ {
        "pgvector"@
    } else if sql_name == "age"@ {
        "apache_age"@
    } else {
        sql_name
    }
}

/// Some packages register their extension under a different SQL name than
/// the display name shown in the UI. Maps display name → SQL extension name.
pub fn sql_extension_name(extension: &str) -> (r: String)
    ensures
        r@ == spec_sql_name(extension@),
{
    if str_eq(extension, "pgvector") {
        owned("vector")
    } else if str_eq(extension, "apache_age") {
        owned("age")
    } else {
        owned(extension)
    }
}

/// Reverse of sql_extension_name: maps SQL name → UI display name so that
/// the frontend's installed-check works against the curated extension list.
pub fn display_name_for_sql(sql_name: &str) -> (r: String)
    ensures
        r@ == spec_display_name(sql_name@),
{
    if str_eq(sql_name, "vector") {
        owned("pgvector")
    } else if str_eq(sql_name, "age") {
        owned("apache_age")
    } else {
        owned(sql_name)
    }
}

/// An installed extension is listed under the name it was installed by:
/// mapping a display name to its SQL name and back gives it again, for
/// every name but `vector` and `age` (which are SQL names of other
/// display names).
pub proof fn law_display_name_round_trip(extension: Seq<char>)
    requires
        extension != "vector"@,
        extension != "age"@,
    ensures
        spec_display_name(spec_sql_name(extension)) == extension,
{
    reveal_strlit("pgvector");
    reveal_strlit("apache_age");
    reveal_strlit("vector");
    reveal_strlit("age");
    assert("age"@.len() != "vector"@.len());
}

/// The view of a command line.
pub open spec fn psql_command(c: DatabaseCredentials, extra: Seq<Seq<char>>) -> Seq<Seq<char>> {
    seq!["psql"@, "-U"@, c.username@, "-d"@, db_or_user(c)] + extra
}

/// The command that lists the installed extensions.
pub fn list_extensions_command(c: &DatabaseCredentials) -> (r: Vec<String>)
    ensures
        args_view(r@) == psql_command(*c, seq!["-t"@, "-c"@, "SELECT extname FROM pg_extension ORDER BY extname;"@]),
{
    let r = vec![
        owned("psql"),
        owned("-U"),
        c.username.clone(),
        owned("-d"),
        db_or_user_exec(c),
        owned("-t"),
        owned("-c"),
        owned("SELECT extname FROM pg_extension ORDER BY extname;"),
    ];
    assert(args_view(r@) =~= psql_command(*c, seq!["-t"@, "-c"@, "SELECT extname FROM pg_extension ORDER BY extname;"@]));
    r
}

/// The installed extensions listed by `psql`'s output: one per non-blank
/// line, trimmed, under its display name.
pub open spec fn listed_extensions(ls: Seq<Seq<char>>) -> Seq<Seq<char>>
    decreases ls.len(),
{
    if ls.len() == 0 {
        seq![]
    } else {
        let rest = listed_extensions(ls.drop_last());
        let t = trim(ls.last());
        if t.len() > 0 {
            rest.push(spec_display_name(t))
        } else {
            rest
        }
    }
}

/// The installed extensions in `psql`'s output.
pub fn parse_extension_list(stdout: &str) -> (r: ExtensionsResponse)
    ensures
        r.extensions@.map_values(|e: ExtensionEntry| e.name@) == listed_extensions(lines(stdout@)),
{
    let out = chars_of(stdout);
    let ls = lines_of(out.as_slice());
    let ghost lv = ls@.map_values(|v: Vec<char>| v@);
    let mut exts: Vec<ExtensionEntry> = Vec::new();
    let mut i: usize = 0;
    assert(lv.take(0) =~= Seq::<Seq<char>>::empty());
    while i < ls.len()
        invariant
            lv == ls@.map_values(|v: Vec<char>| v@),
            lv == lines(stdout@),
            i <= ls@.len(),
            exts@.map_values(|e: ExtensionEntry| e.name@) == listed_extensions(lv.take(i as int)),
        decreases ls.len() - i,
    {
        let t = trim_chars(ls[i].as_slice());
        proof {
            assert(lv.take(i + 1).drop_last() =~= lv.take(i as int));
            assert(lv.take(i + 1).last() == ls@[i as int]@);
        }
        if t.len() > 0 {
            let s = string_of(t.as_slice());
            let name = display_name_for_sql(s.as_str());
            let ghost before = exts@;
            exts.push(ExtensionEntry { name });
            assert(exts@.map_values(|e: ExtensionEntry| e.name@) =~= before.map_values(
                |e: ExtensionEntry| e.name@,
            ).push(spec_display_name(t@)));
        }
        i = i + 1;
    }
    assert(lv.take(lv.len() as int) =~= lv);
    ExtensionsResponse { extensions: exts }
}

/// The statement that installs an extension (with its dependencies, for
/// TimescaleDB).
pub open spec fn spec_create_extension_sql(extension: Seq<char>) -> Seq<char> {
    if extension == "timescaledb"@ {
        "CREATE EXTENSION IF NOT EXISTS \""@ + spec_sql_name(extension) + "\" CASCADE;"@
    } else {
        "CREATE EXTENSION IF NOT EXISTS \""@ + spec_sql_name(extension) + "\";"@
    }
}

/// The statement that installs an extension.
pub fn create_extension_sql(extension: &str) -> (r: String)
    ensures
        r@ == spec_create_extension_sql(extension@),
{
    let name = sql_extension_name(extension);
    let mut s = owned("CREATE EXTENSION IF NOT EXISTS \"");
    push_str(&mut s, name.as_str());
    if str_eq(extension, "timescaledb") {
        push_str(&mut s, "\" CASCADE;");
    } else {
        push_str(&mut s, "\";");
    }
    s
}

/// The command that installs an extension.
pub fn install_extension_command(c: &DatabaseCredentials, extension: &str) -> (r: Vec<String>)
    ensures
        args_view(r@) == psql_command(*c, seq!["-c"@, spec_create_extension_sql(extension@)]),
{
    let r = vec![
        owned("psql"),
        owned("-U"),
        c.username.clone(),
        owned("-d"),
        db_or_user_exec(c),
        owned("-c"),
        create_extension_sql(extension),
    ];
    assert(args_view(r@) =~= psql_command(*c, seq!["-c"@, spec_create_extension_sql(extension@)]));
    r
}

/// The command that installs an OS package inside the database container.
pub fn apt_install_command(package: &str) -> (r: Vec<String>)
    ensures
        args_view(r@) == seq![
            "sh"@,
            "-c"@,
            "apt-get update -qq && apt-get install -y --no-install-recommends "@ + package@,
        ],
{
    let mut s = owned("apt-get update -qq && apt-get install -y --no-install-recommends ");
    push_str(&mut s, package);
    let r = vec![owned("sh"), owned("-c"), s];
    assert(args_view(r@) =~= seq![
        "sh"@,
        "-c"@,
        "apt-get update -qq && apt-get install -y --no-install-recommends "@ + package@,
    ]);
    r
}

/// Why extensions cannot be managed on a database, if they cannot: it
/// must be a running PostgreSQL database. `(status, message)`.
pub fn check_extension_target(is_postgres: bool, is_running: bool) -> (r: Result<(), (u16, String)>)
    ensures
        !is_postgres ==> (r matches Err((400, m)) && m@
            == "Extensions are only supported for PostgreSQL databases"@),
        is_postgres && !is_running ==> (r matches Err((400, m)) && m@
            == "Database must be running to manage extensions"@),
        is_postgres && is_running ==> r is Ok,
{
    if !is_postgres {
        Err((400, owned("Extensions are only supported for PostgreSQL databases")))
    } else if !is_running {
        Err((400, owned("Database must be running to manage extensions")))
    } else {
        Ok(())
    }
}

/// The answer to an install: an invalid name is a bad request, a failed
/// `CREATE EXTENSION` (non-zero exit code) is unprocessable with its
/// trimmed error output, and success names the extension.
pub fn install_outcome(extension: &str, exit_code: i64, stderr: &str) -> (r: Result<String, (u16, String)>)
    ensures
        exit_code != 0 ==> (r matches Err((422, m)) && m@ == "Extension install failed: "@ + trim(
            stderr@,
        )),
        exit_code == 0 ==> (r matches Ok(m) && m@ == "Extension '"@ + extension@
            + "' installed successfully"@),
{
    if exit_code != 0 {
        let t = string_of(crate::text::trim_str(stderr).as_slice());
        let mut m = owned("Extension install failed: ");
        push_str(&mut m, t.as_str());
        Err((422, m))
    } else {
        let mut m = owned("Extension '");
        push_str(&mut m, extension);
        push_str(&mut m, "' installed successfully");
        Ok(m)
    }
}

/// The error of a failed OS package install (non-zero exit code), with
/// its trimmed error output.
pub fn apt_failure(package: &str, exit_code: i64, stderr: &str) -> (r: Option<(u16, String)>)
    ensures
        exit_code == 0 ==> r is None,
        exit_code != 0 ==> (r matches Some((422, m)) && m@ == "Failed to install OS package '"@
            + package@ + "': "@ + trim(stderr@)),
{
    if exit_code == 0 {
        None
    } else {
        let t = string_of(crate::text::trim_str(stderr).as_slice());
        let mut m = owned("Failed to install OS package '");
        push_str(&mut m, package);
        push_str(&mut m, "': ");
        push_str(&mut m, t.as_str());
        Some((422, m))
    }
}

} // verus!
