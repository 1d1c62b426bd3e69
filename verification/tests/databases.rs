use rivetr::database_extensions::{
    apt_failure, apt_install_command, apt_package_for_extension, check_extension_target,
    create_extension_sql, display_name_for_sql, install_extension_command, install_outcome,
    is_valid_extension_name, list_extensions_command, parse_extension_list, sql_extension_name,
};
use rivetr::databases::{
    database_port_mappings, mysql_user_attempts, mysql_user_command, mysql_user_sql, reuse_container,
    build_init_exec_cmd, check_external_port, check_import_target, check_port_request, clickhouse_create_cmd,
    database_binds, database_image, default_lines, dump_write_command, external_port_plan, is_gzip_name,
    is_valid_database_name, log_container, log_entries, needs_restart, new_credentials,
    resolve_external_port, resolve_version, restore_command, update_columns, volume_name, DatabaseCredentials,
    DatabaseType, ExternalPort, RawLogLine, UpdateManagedDatabaseRequest,
};

fn s(x: &str) -> String {
    x.to_string()
}

fn creds(db: Option<&str>) -> DatabaseCredentials {
    DatabaseCredentials { username: s("app"), password: s("pw"), database: db.map(s), root_password: None }
}

#[test]
fn init_commands_per_engine() {
    assert_eq!(
        build_init_exec_cmd(&DatabaseType::Postgres, &creds(None), "SELECT 1"),
        vec![s("psql"), s("-U"), s("app"), s("-d"), s("app"), s("-c"), s("SELECT 1")]
    );
    assert_eq!(
        build_init_exec_cmd(&DatabaseType::Mysql, &creds(Some("shop")), "SELECT 1"),
        vec![s("mysql"), s("-u"), s("app"), s("-ppw"), s("shop"), s("-e"), s("SELECT 1")]
    );
    assert_eq!(
        build_init_exec_cmd(&DatabaseType::Mongodb, &creds(None), "db.x()"),
        vec![s("mongosh"), s("admin"), s("--eval"), s("db.x()")]
    );
    assert_eq!(build_init_exec_cmd(&DatabaseType::Redis, &creds(None), "x"), vec![s("redis-cli"), s("ping")]);
    assert_eq!(
        clickhouse_create_cmd("pw", "logs"),
        vec![s("clickhouse-client"), s("--password"), s("pw"), s("--query"), s("CREATE DATABASE IF NOT EXISTS `logs`")]
    );
}

#[test]
fn database_names_and_settings() {
    assert!(is_valid_database_name("my-db-1"));
    assert!(!is_valid_database_name(""));
    assert!(!is_valid_database_name("my_db"));
    assert_eq!(resolve_version("latest", "16"), "16");
    assert_eq!(resolve_version("15", "16"), "15");
    assert_eq!(volume_name("pg"), "rivetr-db-pg-data");
    assert_eq!(database_image(&None, "postgres", "16"), "postgres:16");
    assert_eq!(database_image(&Some(s("custom:1")), "postgres", "16"), "custom:1");
    assert_eq!(database_binds(&Some(s("/data/pg")), "/var/lib/postgresql/data"), vec![s("/data/pg:/var/lib/postgresql/data")]);
    assert!(database_binds(&None, "/x").is_empty());
    assert_eq!(default_lines(), 100);
    assert!(matches!(external_port_plan(false, 5432), ExternalPort::Known(0)));
    assert!(matches!(external_port_plan(true, 15432), ExternalPort::Known(15432)));
    assert!(matches!(external_port_plan(true, 0), ExternalPort::FromContainer));
    assert_eq!(check_external_port(0), Ok(()));
    assert_eq!(check_external_port(1024), Ok(()));
    assert!(check_external_port(80).is_err());
    assert!(check_external_port(70000).is_err());
}

#[test]
fn restores() {
    assert!(is_gzip_name(&Some(s("dump.sql.gz"))));
    assert!(!is_gzip_name(&Some(s("dump.sql"))));
    assert!(!is_gzip_name(&None));
    let c = creds(Some("shop"));
    assert!(restore_command("postgres", &c, false).is_some());
    assert!(restore_command("redis", &c, false).is_none());
}

#[test]
fn new_database_credentials() {
    let c = new_credentials(&DatabaseType::Mysql, None, None, None, None, s("gen_user"), s("gen_pw"), s("gen_root"));
    assert_eq!((c.username.as_str(), c.password.as_str()), ("gen_user", "gen_pw"));
    assert_eq!(c.database.as_deref(), Some("gen_user"));
    assert_eq!(c.root_password.as_deref(), Some("gen_root"));
    let c = new_credentials(&DatabaseType::Postgres, Some(s("u")), Some(s("p")), Some(s("d")), Some(s("r")), s("g"), s("g"), s("g"));
    assert_eq!((c.username.as_str(), c.password.as_str(), c.database.as_deref()), ("u", "p", Some("d")));
    assert!(c.root_password.is_none());
}

fn upd() -> UpdateManagedDatabaseRequest {
    UpdateManagedDatabaseRequest {
        public_access: None,
        memory_limit: None,
        cpu_limit: None,
        external_port: None,
        ssl_enabled: None,
        ssl_mode: None,
        custom_image: None,
        init_commands: None,
    }
}

#[test]
fn database_updates() {
    assert!(update_columns(&upd()).is_empty());
    let mut r = upd();
    r.public_access = Some(true);
    r.custom_image = Some(s("img"));
    assert_eq!(update_columns(&r), vec![s("public_access"), s("custom_image")]);
    assert!(needs_restart(&r, false, true));
    assert!(!needs_restart(&r, true, true));
    assert!(!needs_restart(&r, false, false));
    let mut p = upd();
    p.external_port = Some(80);
    let e = check_port_request(&p, None, None).unwrap_err();
    assert_eq!((e.status, e.error.as_str()), (400, "Invalid external port"));
    p.external_port = Some(15432);
    let e = check_port_request(&p, Some(s("redis")), Some(s("pg"))).unwrap_err();
    assert_eq!((e.status, e.message.as_str()), (409, "Port 15432 is already used by service 'redis'"));
    let e = check_port_request(&p, None, Some(s("pg"))).unwrap_err();
    assert_eq!(e.message, "Port 15432 is already used by database 'pg'");
    assert!(check_port_request(&p, None, None).is_ok());
    p.external_port = Some(0);
    assert!(check_port_request(&p, Some(s("redis")), None).is_ok());
}

#[test]
fn database_logs() {
    assert_eq!(log_container(true, Some(s("c")), Some(true)).ok(), Some(s("c")));
    let e = log_container(false, Some(s("c")), Some(true)).unwrap_err();
    assert_eq!((e.status, e.error.as_str()), (404, "Container is stopped"));
    assert!(log_container(true, None, Some(true)).is_err());
    assert!(log_container(true, Some(s("c")), Some(false)).is_err());
    assert!(log_container(true, Some(s("c")), None).is_err());
    let raw = vec![
        RawLogLine { timestamp: s("t1"), message: s("a"), is_stderr: false },
        RawLogLine { timestamp: s("t2"), message: s("b"), is_stderr: true },
        RawLogLine { timestamp: s("t3"), message: s("c"), is_stderr: false },
    ];
    let entries = log_entries(raw, 2);
    assert_eq!(entries.len(), 2);
    assert_eq!((entries[1].message.as_str(), entries[1].stream.as_str()), ("b", "stderr"));
}

#[test]
fn extension_names() {
    assert!(is_valid_extension_name("uuid-ossp"));
    assert!(!is_valid_extension_name(""));
    assert!(!is_valid_extension_name("x; DROP"));
    assert_eq!(apt_package_for_extension("pgvector", "16"), Some(s("postgresql-16-pgvector")));
    assert_eq!(apt_package_for_extension("postgis", "15"), Some(s("postgresql-15-postgis-3")));
    assert_eq!(apt_package_for_extension("apache_age", "16"), Some(s("postgresql-16-age")));
    assert_eq!(apt_package_for_extension("pg_trgm", "16"), None);
    assert_eq!(sql_extension_name("pgvector"), "vector");
    assert_eq!(sql_extension_name("apache_age"), "age");
    assert_eq!(sql_extension_name("hstore"), "hstore");
    for name in ["pgvector", "apache_age", "hstore", "postgis"] {
        assert_eq!(display_name_for_sql(&sql_extension_name(name)), name);
    }
}

#[test]
fn extension_commands() {
    assert_eq!(create_extension_sql("pgvector"), "CREATE EXTENSION IF NOT EXISTS \"vector\";");
    assert_eq!(create_extension_sql("timescaledb"), "CREATE EXTENSION IF NOT EXISTS \"timescaledb\" CASCADE;");
    let c = creds(Some("shop"));
    assert_eq!(
        install_extension_command(&c, "hstore"),
        vec![s("psql"), s("-U"), s("app"), s("-d"), s("shop"), s("-c"), s("CREATE EXTENSION IF NOT EXISTS \"hstore\";")]
    );
    assert_eq!(list_extensions_command(&c).len(), 8);
    assert_eq!(apt_install_command("pkg")[2], "apt-get update -qq && apt-get install -y --no-install-recommends pkg");
    let list = parse_extension_list(" plpgsql\n vector \n\n age\n");
    let names: Vec<String> = list.extensions.into_iter().map(|e| e.name).collect();
    assert_eq!(names, vec![s("plpgsql"), s("pgvector"), s("apache_age")]);
}

#[test]
fn extension_outcomes() {
    assert_eq!(check_extension_target(false, true), Err((400, s("Extensions are only supported for PostgreSQL databases"))));
    assert_eq!(check_extension_target(true, false), Err((400, s("Database must be running to manage extensions"))));
    assert_eq!(check_extension_target(true, true), Ok(()));
    assert_eq!(install_outcome("hstore", 0, ""), Ok(s("Extension 'hstore' installed successfully")));
    assert_eq!(install_outcome("x", 1, " ERROR: no \n"), Err((422, s("Extension install failed: ERROR: no"))));
    assert_eq!(apt_failure("p", 0, "x"), None);
    assert_eq!(apt_failure("p", 100, "E: not found\n"), Some((422, s("Failed to install OS package 'p': E: not found"))));
}

#[test]
fn mysql_user_provisioning() {
    let c = DatabaseCredentials { username: s("o'neil"), password: s("p'w"), database: None, root_password: None };
    assert_eq!(
        mysql_user_sql(&c, "sh`op"),
        "CREATE USER IF NOT EXISTS 'o''neil'@'%' IDENTIFIED BY 'p''w'; CREATE DATABASE IF NOT EXISTS `shop`; GRANT ALL PRIVILEGES ON `shop`.* TO 'o''neil'@'%'; FLUSH PRIVILEGES;"
    );
    assert_eq!(
        mysql_user_command(&DatabaseType::Mariadb, "Q"),
        Some(vec![s("mariadb"), s("--socket=/var/run/mysqld/mysqld.sock"), s("-uroot"), s("-e"), s("Q")])
    );
    assert_eq!(mysql_user_command(&DatabaseType::Postgres, "Q"), None);
    assert_eq!(mysql_user_attempts(), 6);
    assert_eq!(reuse_container(&Some(s("c"))), Some(s("c")));
    assert_eq!(reuse_container(&Some(s(""))), None);
    assert_eq!(database_port_mappings(true, 15432, 5432), vec![(15432, 5432)]);
    assert_eq!(database_port_mappings(true, 0, 5432), vec![(0, 5432)]);
    assert!(database_port_mappings(false, 15432, 5432).is_empty());
}

#[test]
fn dump_is_written_through_base64() {
    let expected = vec![
        s("sh"),
        s("-c"),
        s("echo 'aGVsbG8=' | base64 -d > /tmp/rivetr_import_dump"),
    ];
    assert_eq!(dump_write_command(b"hello"), Some(expected));
    let cmd = dump_write_command(&[255u8, 0u8]).unwrap();
    assert_eq!(cmd[2], "echo '/wA=' | base64 -d > /tmp/rivetr_import_dump");
    let one = dump_write_command(&[62u8]).unwrap();
    assert_eq!(one[2], "echo 'Pg==' | base64 -d > /tmp/rivetr_import_dump");
}

#[test]
fn empty_dump_is_refused() {
    assert_eq!(dump_write_command(&[]), None);
}

#[test]
fn import_needs_running_database_with_container() {
    assert_eq!(
        check_import_target("stopped", Some(s("c1"))),
        Err((400, s("Database must be running to import a dump")))
    );
    assert_eq!(check_import_target("running", None), Err((400, s("Database has no container"))));
    assert_eq!(check_import_target("running", Some(s("c1"))), Ok(s("c1")));
}

#[test]
fn external_port_from_inspection() {
    assert_eq!(resolve_external_port(&ExternalPort::Known(15432), Some(1)), 15432);
    assert_eq!(resolve_external_port(&ExternalPort::FromContainer, Some(49153)), 49153);
    assert_eq!(resolve_external_port(&ExternalPort::FromContainer, None), 0);
}
