//! Bookkeeping of the embedded PostgreSQL servers: their settings, the
//! versions they may run, the ports they hold, and finding one by version.

use crate::error::OdooPodError;
use crate::ports::{free_ports, free_ports_between};
use crate::search::{first_where, lemma_first_where_at};
use crate::sharing::share;
use crate::text::{decimal, digit_char, str_eq};
use std::sync::Arc;
use vstd::prelude::*;

verus! {

/// What a new PostgreSQL server is set up with.
pub struct PostgresSettings {
    pub version: String,
    pub host: String,
    pub username: String,
    pub password: String,
    pub data_dir: String,
    pub port: u16,
}

/// How clients authenticate to an embedded server.
pub enum AuthMethod {
    Plain,
    Md5,
    ScramSha256,
}

/// The settings handed to the embedded server itself.
pub struct ServerSettings {
    pub database_dir: String,
    pub port: u16,
    pub user: String,
    pub password: String,
    pub auth_method: AuthMethod,
    pub persistent: bool,
    pub timeout_secs: u64,
    pub migration_dir: Option<String>,
}

/// The PostgreSQL major versions that can be run.
#[derive(Debug, Clone, Copy, PartialEq, Eq)]
pub enum PgVersion {
    V14,
    V15,
    V16,
    V17,
}

/// The major versions accepted, written as `"14"` to `"17"`.
pub open spec fn pg_version_of(version: Seq<char>) -> Option<PgVersion> {
    if version == "14"@ {
        Some(PgVersion::V14)
    } else if version == "15"@ {
        Some(PgVersion::V15)
    } else if version == "16"@ {
        Some(PgVersion::V16)
    } else if version == "17"@ {
        Some(PgVersion::V17)
    } else {
        None
    }
}

/// The major version number of a PostgreSQL version.
pub open spec fn pg_major(v: PgVersion) -> nat {
    match v {
        PgVersion::V14 => 14,
        PgVersion::V15 => 15,
        PgVersion::V16 => 16,
        PgVersion::V17 => 17,
    }
}

proof fn lemma_decimal_two_digits(n: nat)
    requires
        10 <= n < 100,
    ensures
        decimal(n) == seq![digit_char(n / 10), digit_char(n % 10)],
{
    assert(decimal(n / 10) == seq![digit_char(n / 10)]);
    assert(decimal(n) =~= seq![digit_char(n / 10), digit_char(n % 10)]);
}

/// The versions accepted are exactly the decimal numbers 14 to 17, each
/// read as the major version it names.
pub proof fn lemma_pg_versions(version: Seq<char>)
    ensures
        pg_version_of(version) is Some <==> exists|n: nat| 14 <= n <= 17 && version == #[trigger] decimal(n),
        pg_version_of(version) matches Some(v) ==> version == decimal(pg_major(v)) && 14 <= pg_major(v) <= 17,
{
    reveal_strlit("14");
    reveal_strlit("15");
    reveal_strlit("16");
    reveal_strlit("17");
    lemma_decimal_two_digits(14);
    lemma_decimal_two_digits(15);
    lemma_decimal_two_digits(16);
    lemma_decimal_two_digits(17);
    assert("14"@ =~= decimal(14));
    assert("15"@ =~= decimal(15));
    assert("16"@ =~= decimal(16));
    assert("17"@ =~= decimal(17));
    if exists|n: nat| 14 <= n <= 17 && version == #[trigger] decimal(n) {
        let n = choose|n: nat| 14 <= n <= 17 && version == #[trigger] decimal(n);
        assert(n == 14 || n == 15 || n == 16 || n == 17);
    }
}

/// Whether `version` names a major version that can be run.
pub fn is_supported_pg_version(version: &str) -> (r: bool)
    ensures
        r == pg_version_of(version@) is Some,
{
    str_eq(version, "14") || str_eq(version, "15") || str_eq(version, "16") || str_eq(version, "17")
}

/// The major version named by `version`.
pub fn get_pg_version(version: &str) -> (r: PgVersion)
    requires
        pg_version_of(version@) is Some,
    ensures
        pg_version_of(version@) == Some(r),
{
    if str_eq(version, "14") {
        PgVersion::V14
    } else if str_eq(version, "15") {
        PgVersion::V15
    } else if str_eq(version, "16") {
        PgVersion::V16
    } else {
        PgVersion::V17
    }
}

/// The lowest port a PostgreSQL server may listen on.
pub const POSTGRES_FIRST_PORT: u16 = 5432;

/// One past the highest port a PostgreSQL server may listen on.
pub const POSTGRES_PORT_END: u16 = 6432;

/// How long an embedded server may take to answer, in seconds.
pub const SERVER_TIMEOUT_SECS: u64 = 15;

impl PostgresSettings {
    /// The settings of the embedded server: the data directory, port and
    /// credentials of `self`, plain authentication, data removed when the
    /// server is dropped, a fifteen second timeout and no migrations.
    pub fn server_settings(&self) -> (r: ServerSettings)
        ensures
            r.database_dir@ == self.data_dir@,
            r.port == self.port,
            r.user@ == self.username@,
            r.password@ == self.password@,
            (r.auth_method is Plain),
            !r.persistent,
            r.timeout_secs == SERVER_TIMEOUT_SECS,
            r.migration_dir is None,
    {
        ServerSettings {
            database_dir: self.data_dir.clone(),
            port: self.port,
            user: self.username.clone(),
            password: self.password.clone(),
            auth_method: AuthMethod::Plain,
            persistent: false,
            timeout_secs: SERVER_TIMEOUT_SECS,
            migration_dir: None,
        }
    }
}

/// What to do so that a database exists.
#[derive(Debug, PartialEq, Eq)]
pub enum DatabaseAction {
    Create,
    Nothing,
}

/// Create the database when the server says it is missing; a failed check
/// is an error that carries the check's message.
pub open spec fn database_step(exists: Result<bool, String>) -> Result<DatabaseAction, OdooPodError> {
    match exists {
        Ok(true) => Ok(DatabaseAction::Nothing),
        Ok(false) => Ok(DatabaseAction::Create),
        Err(e) => Err(OdooPodError::CheckDatabaseError(e)),
    }
}

/// A PostgreSQL server that runs for the instances.
pub struct PostgresInstance {
    version: String,
    settings: PostgresSettings,
}

impl PostgresInstance {
    /// The major version the server runs.
    pub closed spec fn version_text(&self) -> Seq<char> {
        self.version@
    }

    /// The settings the server was set up with.
    pub closed spec fn settings_of(&self) -> PostgresSettings {
        self.settings
    }

    /// A server set up with `settings`, running `settings.version`, which
    /// must be a supported major version.
    pub fn new(settings: PostgresSettings) -> (r: Self)
        requires
            pg_version_of(settings.version@) is Some,
        ensures
            r.version_text() == settings.version@,
            r.settings_of() == settings,
    {
        PostgresInstance { version: settings.version.clone(), settings }
    }

    /// The major version the server runs.
    pub fn version(&self) -> (r: &str)
        ensures
            r@ == self.version_text(),
    {
        self.version.as_str()
    }

    /// The settings the server was set up with.
    pub fn settings(&self) -> (r: &PostgresSettings)
        ensures
            *r == self.settings_of(),
    {
        &self.settings
    }

    /// What to do once the server has said whether the database exists:
    /// create it when it does not; a failed check becomes an error.
    pub fn ensure_database(&self, exists: &Result<bool, String>) -> (r: Result<DatabaseAction, OdooPodError>)
        ensures
            r == database_step(*exists),
    {
        match exists {
            Ok(true) => Ok(DatabaseAction::Nothing),
            Ok(false) => Ok(DatabaseAction::Create),
            Err(e) => Err(OdooPodError::CheckDatabaseError(e.clone())),
        }
    }
}

/// The servers that have been started, in the order they were started.
pub struct PostgresManager {
    postgres_servers: Vec<Arc<PostgresInstance>>,
}

/// The ports that the given servers listen on.
pub open spec fn server_ports(servers: Seq<PostgresInstance>) -> Seq<u16> {
    servers.map_values(|s: PostgresInstance| s.settings_of().port)
}

/// The index of the first server that runs `version`, if any.
pub open spec fn first_with_version(servers: Seq<PostgresInstance>, version: Seq<char>) -> Option<int> {
    first_where(servers.len() as int, runs_version(servers, version))
}

/// Whether the server at an index runs `version`.
pub open spec fn runs_version(servers: Seq<PostgresInstance>, version: Seq<char>) -> spec_fn(int) -> bool {
    |i: int| servers[i].version_text() == version
}

impl PostgresManager {
    /// The servers, in the order they were registered.
    pub closed spec fn servers(&self) -> Seq<PostgresInstance> {
        self.postgres_servers@.map_values(|a: Arc<PostgresInstance>| *a)
    }

    /// A manager with no server yet.
    pub fn new(_postgres_path: String) -> (r: Self)
        ensures
            r.servers() == Seq::<PostgresInstance>::empty(),
    {
        let r = PostgresManager { postgres_servers: Vec::new() };
        assert(r.servers() =~= Seq::<PostgresInstance>::empty());
        r
    }

    /// Registers a server set up with `settings`, whose version must be a
    /// supported major version, and hands out a shared handle to it.
    pub fn new_postgres_server(&mut self, settings: PostgresSettings) -> (r: Arc<PostgresInstance>)
        requires
            pg_version_of(settings.version@) is Some,
        ensures
            r.version_text() == settings.version@,
            r.settings_of() == settings,
            final(self).servers() == old(self).servers().push(*r),
    {
        let postgres: Arc<PostgresInstance> = Arc::new(PostgresInstance::new(settings));
        let ghost before = self.servers();
        self.postgres_servers.push(share(&postgres));
        assert(self.servers() =~= before.push(*postgres));
        postgres
    }

    /// The first registered server that runs `version`.
    pub fn get_postgres_server(&self, version: &str) -> (r: Option<Arc<PostgresInstance>>)
        ensures
            match (r, first_with_version(self.servers(), version@)) {
                (Some(s), Some(i)) => *s == self.servers()[i],
                (None, None) => true,
                _ => false,
            },
    {
        let n: usize = self.postgres_servers.len();
        let mut i: usize = 0;
        while i < n
            invariant
                n == self.servers().len(),
                i <= n,
                forall|j: int| 0 <= j < i ==> #[trigger] self.servers()[j].version_text() != version@,
            decreases n - i,
        {
            let server: &Arc<PostgresInstance> = &self.postgres_servers[i];
            assert(self.servers()[i as int] == **server);
            if str_eq(server.version(), version) {
                proof {
                    let s = self.servers();
                    lemma_first_where_at(s.len() as int, runs_version(s, version@), i as int);
                }
                return Some(share(server));
            }
            i = i + 1;
        }
        None
    }

    /// The ports in `[5432, 6432)` that no registered server listens on, in
    /// increasing order. The range is this library's choice: it starts at
    /// PostgreSQL's default port, which the instances' configuration files
    /// name, and spans a thousand ports like the Odoo port ranges.
    pub fn available_ports(&self) -> (r: Vec<u16>)
        ensures
            r@ == free_ports(POSTGRES_FIRST_PORT as int, POSTGRES_PORT_END as int, server_ports(self.servers())),
    {
        let n: usize = self.postgres_servers.len();
        let mut used: Vec<u16> = Vec::new();
        let mut i: usize = 0;
        while i < n
            invariant
                n == self.servers().len(),
                i <= n,
                used@ == server_ports(self.servers()).take(i as int),
            decreases n - i,
        {
            let ghost before = used@;
            used.push(self.postgres_servers[i].settings().port);
            proof {
                assert(self.servers()[i as int] == *self.postgres_servers@[i as int]);
                assert(used@ =~= server_ports(self.servers()).take(i + 1));
            }
            i = i + 1;
        }
        assert(used@ =~= server_ports(self.servers()));
        free_ports_between(POSTGRES_FIRST_PORT, POSTGRES_PORT_END, &used)
    }

    /// Handles to the registered servers, in the order they were registered.
    pub fn servers_handles(&self) -> (r: &Vec<Arc<PostgresInstance>>)
        ensures
            r@.map_values(|a: Arc<PostgresInstance>| *a) == self.servers(),
    {
        &self.postgres_servers
    }
}

} // verus!
