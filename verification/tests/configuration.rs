//! Configuration resolution: both shapes resolve to the same internal option
//! set, defaults are filled in, and bad configurations fail with a
//! connection error.

use sql_connector::config::{
    ConnectionStringConfig, ExplicitConfig, Mysql, PrismaDatabase,
};
use sql_connector::error::SqlError;

fn explicit() -> ExplicitConfig {
    ExplicitConfig {
        host: "db.internal".to_string(),
        port: 3310,
        user: "root".to_string(),
        password: Some("SECRET-REDACTED".to_string()),
        database: Some("shop".to_string()),
        limit: 5,
    }
}

#[test]
fn explicit_configuration_resolves_field_for_field() {
    let m = Mysql::try_from_explicit(&explicit()).unwrap();
    assert_eq!(m.opts.host, "db.internal");
    assert_eq!(m.opts.port, 3310);
    assert_eq!(m.opts.user, "root");
    assert_eq!(m.opts.password, Some("SECRET-REDACTED".to_string()));
    assert_eq!(m.opts.database, "shop");
    assert_eq!(m.opts.pool_min, 1);
    assert_eq!(m.opts.pool_max, 5);
    assert!(!m.opts.verify_peer);
}

#[test]
fn database_name_defaults_to_the_dialect_default_schema() {
    let mut e = explicit();
    e.database = None;
    let m = Mysql::try_from_explicit(&e).unwrap();
    assert_eq!(m.opts.database, "mysql");
}

#[test]
fn connection_string_defaults_host_and_port() {
    let c = ConnectionStringConfig {
        host: None,
        port: None,
        user: "app".to_string(),
        password: None,
        database: None,
        limit: 2,
    };
    let m = Mysql::try_from_connection_string(&c).unwrap();
    assert_eq!(m.opts.host, "localhost");
    assert_eq!(m.opts.port, 3306);
    assert_eq!(m.opts.user, "app");
    assert_eq!(m.opts.password, None);
    assert_eq!(m.opts.database, "mysql");
    assert_eq!(m.opts.pool_max, 2);
}

#[test]
fn both_shapes_resolve_to_the_same_option_set() {
    let e = explicit();
    let c = ConnectionStringConfig {
        host: Some("db.internal".to_string()),
        port: Some(3310),
        user: "root".to_string(),
        password: Some("SECRET-REDACTED".to_string()),
        database: Some("shop".to_string()),
        limit: 5,
    };
    let from_explicit = Mysql::try_from_database(&PrismaDatabase::Explicit(e)).unwrap();
    let from_uri = Mysql::try_from_database(&PrismaDatabase::ConnectionString(c)).unwrap();
    assert_eq!(from_explicit.opts, from_uri.opts);
}

#[test]
fn a_pool_of_zero_connections_cannot_be_sized() {
    let mut e = explicit();
    e.limit = 0;
    let err = Mysql::try_from_explicit(&e).unwrap_err();
    assert!(matches!(err, SqlError::ConnectionError(_)));
}

#[test]
fn unknown_configuration_shapes_are_refused() {
    let err =
        Mysql::try_from_database(&PrismaDatabase::File("prisma.db".to_string())).unwrap_err();
    match err {
        SqlError::ConnectionError(msg) => {
            assert_eq!(msg, "Could not understand the configuration format.");
        },
        other => panic!("expected a connection error, got {:?}", other),
    }
}
