//! Configuration resolution for the MySQL connector: both configuration
//! shapes (explicit fields, or a connection-string URI already taken apart by
//! the configuration layer) resolve to the same internal option set before
//! anything connects. The pool itself, and the network, live outside this
//! crate; this module decides exactly which options the pool is built with.

use vstd::prelude::*;
use crate::error::SqlError;

verus! {

/// Explicit host/port/credential configuration.
#[derive(PartialEq, Eq, Debug)]
pub struct ExplicitConfig {
    pub host: String,
    pub port: u16,
    pub user: String,
    pub password: Option<String>,
    pub database: Option<String>,
    /// Upper bound on pooled connections.
    pub limit: u32,
}

/// Connection-string configuration. The URI has already been taken apart by
/// the external configuration layer; absent parts stay absent here and get
/// their defaults during resolution.
#[derive(PartialEq, Eq, Debug)]
pub struct ConnectionStringConfig {
    pub host: Option<String>,
    pub port: Option<u16>,
    pub user: String,
    pub password: Option<String>,
    pub database: Option<String>,
    /// Upper bound on pooled connections.
    pub limit: u32,
}

/// The polymorphic configuration input: the two shapes this connector
/// understands, and the file-based shape other parts of the system use, which
/// this connector rejects.
#[derive(PartialEq, Eq, Debug)]
pub enum PrismaDatabase {
    Explicit(ExplicitConfig),
    ConnectionString(ConnectionStringConfig),
    File(String),
}

/// The internal option set both configuration shapes resolve to: exactly what
/// a connection pool is built from.
#[derive(PartialEq, Eq, Debug)]
pub struct MysqlOpts {
    pub host: String,
    pub port: u16,
    pub user: String,
    pub password: Option<String>,
    pub database: String,
    /// Connections the pool keeps ready; this core always asks for one.
    pub pool_min: u32,
    /// Pool capacity: the configured connection limit.
    pub pool_max: u32,
    /// TLS peer verification. The externally supplied transport policy is
    /// insecure by default and this core does not harden it.
    pub verify_peer: bool,
}

/// The MySQL connector's verified core: the resolved options a pool for one
/// database instance is created from. The live pool wrapping these options is
/// owned by the unverified edge.
#[derive(PartialEq, Eq, Debug)]
pub struct Mysql {
    pub opts: MysqlOpts,
}

/// How an explicit configuration resolves: fields carry over, the database
/// name defaults to the dialect's default schema, the pool keeps one ready
/// connection, and peer verification stays off.
pub open spec fn explicit_resolves(e: ExplicitConfig, o: MysqlOpts) -> bool {
    &&& o.host == e.host
    &&& o.port == e.port
    &&& o.user == e.user
    &&& o.password == e.password
    &&& (match e.database {
        Some(d) => o.database == d,
        None => o.database@ == "mysql"@,
    })
    &&& o.pool_min == 1
    &&& o.pool_max == e.limit
    &&& !o.verify_peer
}

/// How a connection-string configuration resolves: like the explicit shape,
/// with the URI's absent host and port replaced by the dialect's defaults.
pub open spec fn connection_string_resolves(c: ConnectionStringConfig, o: MysqlOpts) -> bool {
    &&& (match c.host {
        Some(h) => o.host == h,
        None => o.host@ == "localhost"@,
    })
    &&& o.port == (match c.port {
        Some(p) => p,
        None => 3306u16,
    })
    &&& o.user == c.user
    &&& o.password == c.password
    &&& (match c.database {
        Some(d) => o.database == d,
        None => o.database@ == "mysql"@,
    })
    &&& o.pool_min == 1
    &&& o.pool_max == c.limit
    &&& !o.verify_peer
}

fn clone_opt_string(o: &Option<String>) -> (r: Option<String>)
    ensures
        r == *o,
{
    match o {
        Option::Some(s) => Option::Some(s.clone()),
        Option::None => Option::None,
    }
}

fn database_or_default(db: &Option<String>) -> (r: String)
    ensures
        match *db {
            Some(d) => r == d,
            None => r@ == "mysql"@,
        },
{
    match db {
        Option::Some(d) => d.clone(),
        Option::None => "mysql".to_owned(),
    }
}

impl Mysql {
    /// Resolve an explicit configuration. Fails exactly when the pool cannot
    /// be sized: a pool of fewer than one connection is no pool.
    pub fn try_from_explicit(e: &ExplicitConfig) -> (r: Result<Mysql, SqlError>)
        ensures
            r is Ok <==> e.limit >= 1,
            r matches Ok(m) ==> explicit_resolves(*e, m.opts),
            r matches Err(err) ==> err matches SqlError::ConnectionError(msg) && msg@
                == "the configured connection limit admits no connection"@,
    {
        if e.limit < 1 {
            return Err(
                SqlError::ConnectionError(
                    "the configured connection limit admits no connection".to_owned(),
                ),
            );
        }
        Ok(
            Mysql {
                opts: MysqlOpts {
                    host: e.host.clone(),
                    port: e.port,
                    user: e.user.clone(),
                    password: clone_opt_string(&e.password),
                    database: database_or_default(&e.database),
                    pool_min: 1,
                    pool_max: e.limit,
                    verify_peer: false,
                },
            },
        )
    }

    /// Resolve a connection-string configuration: same option set as the
    /// explicit shape, with URI defaults filled in. Fails exactly when the
    /// pool cannot be sized.
    pub fn try_from_connection_string(c: &ConnectionStringConfig) -> (r: Result<Mysql, SqlError>)
        ensures
            r is Ok <==> c.limit >= 1,
            r matches Ok(m) ==> connection_string_resolves(*c, m.opts),
            r matches Err(err) ==> err matches SqlError::ConnectionError(msg) && msg@
                == "the configured connection limit admits no connection"@,
    {
        if c.limit < 1 {
            return Err(
                SqlError::ConnectionError(
                    "the configured connection limit admits no connection".to_owned(),
                ),
            );
        }
        let host = match &c.host {
            Option::Some(h) => h.clone(),
            Option::None => "localhost".to_owned(),
        };
        let port = match c.port {
            Option::Some(p) => p,
            Option::None => 3306,
        };
        Ok(
            Mysql {
                opts: MysqlOpts {
                    host,
                    port,
                    user: c.user.clone(),
                    password: clone_opt_string(&c.password),
                    database: database_or_default(&c.database),
                    pool_min: 1,
                    pool_max: c.limit,
                    verify_peer: false,
                },
            },
        )
    }

    /// Resolve the polymorphic configuration input: both supported shapes
    /// resolve to the same internal option set; any other shape is refused.
    pub fn try_from_database(db: &PrismaDatabase) -> (r: Result<Mysql, SqlError>)
        ensures
            r is Ok <==> (match *db {
                PrismaDatabase::Explicit(e) => e.limit >= 1,
                PrismaDatabase::ConnectionString(c) => c.limit >= 1,
                PrismaDatabase::File(_) => false,
            }),
            r matches Ok(m) ==> (match *db {
                PrismaDatabase::Explicit(e) => explicit_resolves(e, m.opts),
                PrismaDatabase::ConnectionString(c) => connection_string_resolves(c, m.opts),
                PrismaDatabase::File(_) => false,
            }),
            db matches PrismaDatabase::File(_) ==> r matches Err(err) && err matches
                SqlError::ConnectionError(msg) && msg@
                == "Could not understand the configuration format."@,
    {
        match db {
            PrismaDatabase::Explicit(e) => Mysql::try_from_explicit(e),
            PrismaDatabase::ConnectionString(c) => Mysql::try_from_connection_string(c),
            PrismaDatabase::File(_) => Err(
                SqlError::ConnectionError("Could not understand the configuration format.".to_owned()),
            ),
        }
    }
}

} // verus!
