//! Verified core of OdooPod: the bookkeeping and the decisions behind
//! creating, configuring, starting and stopping local Odoo instances.

pub mod archive;
pub mod components;
pub mod error;
pub mod instance;
pub mod ports;
pub mod search;
pub mod sharing;
pub mod text;

use components::postgres::{pg_version_of, server_ports, PostgresInstance, PostgresSettings, POSTGRES_FIRST_PORT, POSTGRES_PORT_END};
use components::ComponentsManager;
use error::{ErrorView, OdooPodError};
use instance::{assembled, Configured, InstanceConfig, InstanceView, OdooInstance, Ready, Running};
use ports::{free_ports, free_ports_between};
use search::{first_where, lemma_first_where, lemma_first_where_at};
use std::sync::Arc;
use text::{join_path, opt_view, path_join};
use vstd::prelude::*;

verus! {

/// The instances known on this machine and the components they share.
pub struct OdooPod {
    root_path: String,
    known_configs: Vec<InstanceConfig>,
    components_manager: ComponentsManager,
    _ready_instances: Vec<OdooInstance<Ready>>,
    running_instances: Vec<Arc<OdooInstance<Running>>>,
}

/// The lowest port an Odoo server may serve HTTP on.
pub const ODOO_FIRST_PORT: u16 = 8000;

/// One past the highest Odoo HTTP port, and the lowest long-polling port.
pub const LONGPOLLING_FIRST_PORT: u16 = 9000;

/// One past the highest long-polling port.
pub const LONGPOLLING_PORT_END: u16 = 10000;

/// The index of the first configuration named `name`, if any.
pub open spec fn first_named(configs: Seq<InstanceConfig>, name: Seq<char>) -> Option<int> {
    first_where(configs.len() as int, has_name(configs, name))
}

/// Whether the configuration at an index is named `name`.
pub open spec fn has_name(configs: Seq<InstanceConfig>, name: Seq<char>) -> spec_fn(int) -> bool {
    |i: int| configs[i].name@ == name
}

/// The configuration found under `name`: the first one with that name.
pub open spec fn found(configs: Seq<InstanceConfig>, name: Seq<char>) -> Option<InstanceConfig> {
    match first_named(configs, name) {
        Some(i) => Some(configs[i]),
        None => None,
    }
}

/// The configurations that are not named `name`, in their order.
pub open spec fn without_name(configs: Seq<InstanceConfig>, name: Seq<char>) -> Seq<InstanceConfig> {
    configs.filter(|c: InstanceConfig| c.name@ != name)
}

/// Whether the configuration at `j` has the name of an earlier one.
pub open spec fn repeats_earlier(configs: Seq<InstanceConfig>, j: int) -> bool {
    exists|i: int| 0 <= i < j && #[trigger] configs[i].name@ == configs[j].name@
}

/// The index of the first configuration whose name was used before, if any.
pub open spec fn first_repeat(configs: Seq<InstanceConfig>) -> Option<int> {
    first_where(configs.len() as int, is_repeat(configs))
}

/// Whether the configuration at an index has the name of an earlier one.
pub open spec fn is_repeat(configs: Seq<InstanceConfig>) -> spec_fn(int) -> bool {
    |j: int| repeats_earlier(configs, j)
}

/// No two configurations share a name.
pub open spec fn names_unique(configs: Seq<InstanceConfig>) -> bool {
    forall|i: int, j: int| 0 <= i < j < configs.len() ==> #[trigger] configs[i].name@ != #[trigger] configs[j].name@
}

/// The application directory: the one asked for, else `odoopod` in the
/// user's configuration directory, else the current directory.
pub open spec fn app_dir_of(root: Option<Seq<char>>, config_dir: Option<Seq<char>>) -> Seq<char> {
    match root {
        Some(p) => p,
        None => match config_dir {
            Some(d) => path_join(d, "odoopod"@),
            None => "."@,
        },
    }
}

/// The directory of the sources of an Odoo version.
pub open spec fn source_dir_of(root: Seq<char>, odoo_version: Seq<char>) -> Seq<char> {
    path_join(path_join(root, "sources"@), "odoo_"@ + odoo_version)
}

/// The HTTP ports of the given instances.
pub open spec fn http_ports(instances: Seq<InstanceView>) -> Seq<u16> {
    instances.map_values(|v: InstanceView| v.config.http_port)
}

/// The long-polling ports of the given instances.
pub open spec fn longpolling_ports(instances: Seq<InstanceView>) -> Seq<u16> {
    instances.map_values(|v: InstanceView| v.config.longpolling_port)
}

/// The settings of the PostgreSQL server for an instance: the instance's
/// PostgreSQL version, user and password `odoo`, the first free port, and a
/// data directory per version; no free port is an error. The host is the
/// loopback address `127.0.0.1`, this library's choice, which is also the
/// `db_host` of every instance's configuration file.
pub open spec fn postgres_settings_ok(s: PostgresSettings, root: Seq<char>, config: InstanceConfig, free: Seq<u16>) -> bool {
    &&& free.len() > 0
    &&& s.version@ == config.pg_version@
    &&& s.host@ == "127.0.0.1"@
    &&& s.username@ == "odoo"@
    &&& s.password@ == "odoo"@
    &&& s.port == free[0]
    &&& s.data_dir@ == path_join(root, "postgres_data/"@ + config.pg_version@)
}

impl OdooPod {
    /// The application directory.
    pub closed spec fn root(&self) -> Seq<char> {
        self.root_path@
    }

    /// The known configurations, in the order they were recorded.
    pub closed spec fn configs(&self) -> Seq<InstanceConfig> {
        self.known_configs@
    }

    /// The shared components.
    pub closed spec fn components(&self) -> ComponentsManager {
        self.components_manager
    }

    /// The instances whose Odoo server runs.
    pub closed spec fn running(&self) -> Seq<InstanceView> {
        self.running_instances@.map_values(|a: Arc<OdooInstance<Running>>| (*a)@)
    }

    /// The application directory to use.
    pub fn app_dir(root_path: Option<String>, config_dir: Option<String>) -> (r: String)
        ensures
            r@ == app_dir_of(opt_view(root_path), opt_view(config_dir)),
    {
        match root_path {
            Some(p) => p,
            None => match config_dir {
                Some(d) => join_path(d.as_str(), "odoopod"),
                None => String::from_str("."),
            },
        }
    }

    /// The directory that holds the `uv` binary.
    pub fn tools_dir(root: &str) -> (r: String)
        ensures
            r@ == path_join(root@, "bin/tools"@),
    {
        join_path(root, "bin/tools")
    }

    /// The directory meant for the PostgreSQL binaries.
    pub fn postgres_bin_dir(root: &str) -> (r: String)
        ensures
            r@ == path_join(root@, "bin/postgres"@),
    {
        join_path(root, "bin/postgres")
    }

    /// The file the known configurations are kept in.
    pub fn configs_file(root: &str) -> (r: String)
        ensures
            r@ == path_join(root@, "instances.yaml"@),
    {
        join_path(root, "instances.yaml")
    }

    /// The pod of the application directory `root_path`, knowing `known_configs`,
    /// with `uv` in `bin/tools` there, no PostgreSQL server and no running instance.
    pub fn new(root_path: String, known_configs: Vec<InstanceConfig>) -> (r: Self)
        ensures
            r.root() == root_path@,
            r.configs() == known_configs@,
            r.components().uv_view().dir() == path_join(root_path@, "bin/tools"@),
            r.components().postgres_view().servers() == Seq::<PostgresInstance>::empty(),
            r.running() == Seq::<InstanceView>::empty(),
    {
        let components_manager = ComponentsManager::new(
            Self::tools_dir(root_path.as_str()),
            Self::postgres_bin_dir(root_path.as_str()),
        );
        let r = OdooPod {
            root_path,
            known_configs,
            components_manager,
            _ready_instances: Vec::new(),
            running_instances: Vec::new(),
        };
        assert(r.running() =~= Seq::<InstanceView>::empty());
        r
    }

    /// The application directory.
    pub fn root_path(&self) -> (r: &str)
        ensures
            r@ == self.root(),
    {
        self.root_path.as_str()
    }

    /// The known configurations.
    pub fn get_known_configs(&self) -> (r: &[InstanceConfig])
        ensures
            r@ == self.configs(),
    {
        self.known_configs.as_slice()
    }

    /// The shared components.
    pub fn components_manager(&self) -> (r: &ComponentsManager)
        ensures
            *r == self.components(),
    {
        &self.components_manager
    }

    /// The instances whose Odoo server runs.
    pub fn running_instances(&self) -> (r: &Vec<Arc<OdooInstance<Running>>>)
        ensures
            r@.map_values(|a: Arc<OdooInstance<Running>>| (*a)@) == self.running(),
    {
        &self.running_instances
    }

    /// Records a configuration after the known ones.
    pub fn record_config(&mut self, config: InstanceConfig)
        ensures
            final(self).configs() == old(self).configs().push(config),
            names_unique(final(self).configs()) <==> (names_unique(old(self).configs()) && found(
                old(self).configs(),
                config.name@,
            ) is None),
            final(self).root() == old(self).root(),
            final(self).components() == old(self).components(),
            final(self).running() == old(self).running(),
    {
        proof { lemma_record_unique_iff(self.known_configs@, config); }
        self.known_configs.push(config);
    }

    /// Forgets every configuration named `name`, keeping the others in order.
    pub fn forget_config(&mut self, name: &str)
        ensures
            final(self).configs() == without_name(old(self).configs(), name@),
            names_unique(old(self).configs()) ==> names_unique(final(self).configs()),
            final(self).root() == old(self).root(),
            final(self).components() == old(self).components(),
            final(self).running() == old(self).running(),
    {
        let ghost s = self.known_configs@;
        let ghost pred = |c: InstanceConfig| c.name@ != name@;
        let n: usize = self.known_configs.len();
        let mut kept: Vec<InstanceConfig> = Vec::new();
        let mut i: usize = 0;
        proof {
            assert(s.take(0) =~= Seq::<InstanceConfig>::empty());
            reveal_with_fuel(Seq::filter, 1);
            assert(kept@ =~= s.take(0).filter(pred));
        }
        while i < n
            invariant
                s == self.known_configs@,
                n == s.len(),
                i <= n,
                pred == (|c: InstanceConfig| c.name@ != name@),
                kept@ == s.take(i as int).filter(pred),
            decreases n - i,
        {
            let same: bool = crate::text::str_eq(self.known_configs[i].name.as_str(), name);
            proof {
                assert(s.take(i + 1).drop_last() =~= s.take(i as int));
                assert(s.take(i + 1).last() == s[i as int]);
                reveal_with_fuel(Seq::filter, 1);
            }
            if !same {
                kept.push(self.known_configs[i].clone());
            }
            i = i + 1;
        }
        assert(s.take(n as int) =~= s);
        proof {
            if names_unique(s) {
                lemma_forget_keeps_names_unique(s, name@);
            }
        }
        self.known_configs = kept;
    }

    /// The first known configuration named `name`.
    pub fn find_config(&self, name: &str) -> (r: Option<InstanceConfig>)
        ensures
            r == found(self.configs(), name@),
    {
        let n: usize = self.known_configs.len();
        let mut i: usize = 0;
        while i < n
            invariant
                n == self.configs().len(),
                i <= n,
                forall|j: int| 0 <= j < i ==> #[trigger] self.configs()[j].name@ != name@,
            decreases n - i,
        {
            if crate::text::str_eq(self.known_configs[i].name.as_str(), name) {
                proof {
                    let s = self.configs();
                    lemma_first_where_at(s.len() as int, has_name(s, name@), i as int);
                }
                return Some(self.known_configs[i].clone());
            }
            i = i + 1;
        }
        None
    }

    /// The name of the first configuration that reuses the name of an
    /// earlier one; known configurations must not share names.
    pub fn duplicate_config_name(&self) -> (r: Option<String>)
        ensures
            opt_view(r) == (match first_repeat(self.configs()) {
                Some(j) => Some(self.configs()[j].name@),
                None => None::<Seq<char>>,
            }),
    {
        let ghost s = self.known_configs@;
        let n: usize = self.known_configs.len();
        let mut j: usize = 0;
        while j < n
            invariant
                s == self.configs(),
                n == s.len(),
                j <= n,
                forall|k: int| 0 <= k < j ==> !#[trigger] repeats_earlier(s, k),
            decreases n - j,
        {
            let mut i: usize = 0;
            while i < j
                invariant
                    s == self.configs(),
                    n == s.len(),
                    i <= j < n,
                    forall|k: int| 0 <= k < j ==> !#[trigger] repeats_earlier(s, k),
                    forall|k: int| 0 <= k < i ==> #[trigger] s[k].name@ != s[j as int].name@,
                decreases j - i,
            {
                if self.known_configs[i].name == self.known_configs[j].name {
                    proof {
                        assert(s[i as int].name@ == s[j as int].name@);
                        assert(repeats_earlier(s, j as int));
                        lemma_first_where_at(s.len() as int, is_repeat(s), j as int);
                    }
                    return Some(self.known_configs[j].name.clone());
                }
                i = i + 1;
            }
            assert(!repeats_earlier(s, j as int));
            j = j + 1;
        }
        None
    }

    /// The directory of the sources of `odoo_version`.
    pub fn source_dir(&self, odoo_version: &str) -> (r: String)
        ensures
            r@ == source_dir_of(self.root(), odoo_version@),
    {
        let sources: String = join_path(self.root_path.as_str(), "sources");
        let dir: String = String::from_str("odoo_").concat(odoo_version);
        join_path(sources.as_str(), dir.as_str())
    }

    /// The configured instance for a recorded configuration, using the shared
    /// `uv`, the given PostgreSQL server and the sources of its Odoo version.
    pub fn create_instance(&self, config: InstanceConfig, postgres: Arc<PostgresInstance>) -> (r: OdooInstance<Configured>)
        ensures
            r@ == assembled(
                config,
                self.components().uv_view(),
                *postgres,
                source_dir_of(self.root(), config.odoo_version@),
            ),
    {
        let odoo_path: String = self.source_dir(config.odoo_version.as_str());
        OdooInstance::new(config, self.components_manager.uv(), postgres, odoo_path)
    }

    /// The prepared instance for a known configuration, using the shared
    /// `uv`, the given PostgreSQL server and the sources of its Odoo version.
    pub fn ready_instance(&self, config: InstanceConfig, postgres: Arc<PostgresInstance>) -> (r: OdooInstance<Ready>)
        ensures
            r@ == assembled(
                config,
                self.components().uv_view(),
                *postgres,
                source_dir_of(self.root(), config.odoo_version@),
            ),
    {
        let odoo_path: String = self.source_dir(config.odoo_version.as_str());
        OdooInstance::from_config(config, self.components_manager.uv(), postgres, odoo_path)
    }

    fn running_ports(&self, longpolling: bool) -> (r: Vec<u16>)
        ensures
            r@ == (if longpolling {
                longpolling_ports(self.running())
            } else {
                http_ports(self.running())
            }),
    {
        let ghost want = if longpolling {
            longpolling_ports(self.running())
        } else {
            http_ports(self.running())
        };
        let n: usize = self.running_instances.len();
        let mut used: Vec<u16> = Vec::new();
        let mut i: usize = 0;
        while i < n
            invariant
                n == self.running().len(),
                i <= n,
                want == (if longpolling {
                    longpolling_ports(self.running())
                } else {
                    http_ports(self.running())
                }),
                used@ == want.take(i as int),
            decreases n - i,
        {
            let config: &InstanceConfig = self.running_instances[i].config();
            used.push(if longpolling { config.longpolling_port } else { config.http_port });
            proof {
                assert(self.running()[i as int] == (*self.running_instances@[i as int])@);
                assert(used@ =~= want.take(i + 1));
            }
            i = i + 1;
        }
        assert(used@ =~= want);
        used
    }

    /// The HTTP ports in `[8000, 9000)` that no running instance serves, in increasing order.
    pub fn available_odoo_ports(&self) -> (r: Vec<u16>)
        ensures
            r@ == free_ports(ODOO_FIRST_PORT as int, LONGPOLLING_FIRST_PORT as int, http_ports(self.running())),
    {
        let used: Vec<u16> = self.running_ports(false);
        free_ports_between(ODOO_FIRST_PORT, LONGPOLLING_FIRST_PORT, &used)
    }

    /// The long-polling ports in `[9000, 10000)` that no running instance uses, in increasing order.
    pub fn available_longpolling_ports(&self) -> (r: Vec<u16>)
        ensures
            r@ == free_ports(
                LONGPOLLING_FIRST_PORT as int,
                LONGPOLLING_PORT_END as int,
                longpolling_ports(self.running()),
            ),
    {
        let used: Vec<u16> = self.running_ports(true);
        free_ports_between(LONGPOLLING_FIRST_PORT, LONGPOLLING_PORT_END, &used)
    }
}

impl OdooPod {
    /// The ports free for a new PostgreSQL server.
    pub open spec fn postgres_free_ports(&self) -> Seq<u16> {
        free_ports(
            POSTGRES_FIRST_PORT as int,
            POSTGRES_PORT_END as int,
            server_ports(self.components().postgres_view().servers()),
        )
    }

    /// The ports in `[5432, 6432)` that no registered PostgreSQL server holds, in increasing order.
    pub fn available_postgres_ports(&self) -> (r: Vec<u16>)
        ensures
            r@ == self.postgres_free_ports(),
    {
        self.components_manager.postgres().available_ports()
    }

    /// The settings of a new PostgreSQL server for the instance `config`.
    pub fn postgres_settings_for(&self, config: &InstanceConfig) -> (r: Result<PostgresSettings, OdooPodError>)
        ensures
            r is Ok <==> self.postgres_free_ports().len() > 0,
            r matches Ok(s) ==> postgres_settings_ok(s, self.root(), *config, self.postgres_free_ports()),
            r matches Err(e) ==> e@ == ErrorView::NoAvailablePort("No available port for Postgres"@),
    {
        let ports: Vec<u16> = self.available_postgres_ports();
        if ports.len() == 0 {
            return Err(OdooPodError::NoAvailablePort(String::from_str("No available port for Postgres")));
        }
        let data: String = String::from_str("postgres_data/").concat(config.pg_version.as_str());
        Ok(PostgresSettings {
            version: config.pg_version.clone(),
            host: String::from_str("127.0.0.1"),
            username: String::from_str("odoo"),
            port: ports[0],
            password: String::from_str("odoo"),
            data_dir: join_path(self.root_path.as_str(), data.as_str()),
        })
    }

    /// Registers a PostgreSQL server started with `settings`, whose version
    /// must be a supported major version, and hands out a shared handle to it.
    pub fn register_postgres_server(&mut self, settings: PostgresSettings) -> (r: Arc<PostgresInstance>)
        requires
            pg_version_of(settings.version@) is Some,
        ensures
            r.version_text() == settings.version@,
            r.settings_of() == settings,
            final(self).components().postgres_view().servers() == old(self).components().postgres_view().servers().push(*r),
            final(self).components().uv_view() == old(self).components().uv_view(),
            final(self).configs() == old(self).configs(),
            final(self).root() == old(self).root(),
            final(self).running() == old(self).running(),
    {
        self.components_manager.postgres_mut().new_postgres_server(settings)
    }
}


proof fn lemma_first_named_at(s: Seq<InstanceConfig>, name: Seq<char>, k: int)
    requires
        0 <= k < s.len(),
        s[k].name@ == name,
        forall|j: int| 0 <= j < k ==> #[trigger] s[j].name@ != name,
    ensures
        first_named(s, name) == Some(k),
{
    lemma_first_where_at(s.len() as int, has_name(s, name), k);
}

proof fn lemma_first_named_some(s: Seq<InstanceConfig>, name: Seq<char>)
    ensures
        first_named(s, name) matches Some(k) ==> 0 <= k < s.len() && s[k].name@ == name && forall|j: int|
            0 <= j < k ==> #[trigger] s[j].name@ != name,
        first_named(s, name) is None ==> forall|i: int| 0 <= i < s.len() ==> #[trigger] s[i].name@ != name,
{
    let p = has_name(s, name);
    lemma_first_where(s.len() as int, p);
    if let Some(k) = first_named(s, name) {
        assert forall|j: int| 0 <= j < k implies #[trigger] s[j].name@ != name by {
            assert(!p(j));
        }
    } else {
        assert forall|i: int| 0 <= i < s.len() implies #[trigger] s[i].name@ != name by {
            assert(!p(i));
        }
    }
}

/// Looking a name up after recording a configuration finds what was found
/// before, or else the recorded configuration when it has that name.
pub proof fn lemma_found_after_record(s: Seq<InstanceConfig>, c: InstanceConfig, name: Seq<char>)
    ensures
        found(s.push(c), name) == (match found(s, name) {
            Some(x) => Some(x),
            None => if c.name@ == name {
                Some(c)
            } else {
                None
            },
        }),
{
    let t = s.push(c);
    lemma_first_named_some(s, name);
    match first_named(s, name) {
        Some(k) => {
            assert forall|j: int| 0 <= j < k implies #[trigger] t[j].name@ != name by {
                assert(t[j] == s[j]);
            }
            lemma_first_named_at(t, name, k);
        },
        None => {
            assert(forall|i: int| 0 <= i < s.len() ==> #[trigger] s[i].name@ != name);
            if c.name@ == name {
                assert forall|j: int| 0 <= j < s.len() implies #[trigger] t[j].name@ != name by {
                    assert(t[j] == s[j]);
                }
                lemma_first_named_at(t, name, s.len() as int);
            } else {
                assert forall|i: int| 0 <= i < t.len() implies #[trigger] t[i].name@ != name by {
                    if i < s.len() {
                        assert(t[i] == s[i]);
                    }
                }
            }
        },
    }
}

/// After forgetting the configurations named `name`, that name is found no
/// more and every other name finds what it found before.
pub proof fn lemma_found_after_forget(s: Seq<InstanceConfig>, name: Seq<char>, other: Seq<char>)
    ensures
        found(without_name(s, name), other) == (if other == name {
            None
        } else {
            found(s, other)
        }),
    decreases s.len(),
{
    let pred = |c: InstanceConfig| c.name@ != name;
    if s.len() == 0 {
        reveal_with_fuel(Seq::filter, 1);
        assert(without_name(s, name) =~= Seq::<InstanceConfig>::empty());
    } else {
        let t = s.drop_last();
        let x = s.last();
        assert(t.push(x) =~= s);
        lemma_found_after_forget(t, name, other);
        reveal_with_fuel(Seq::filter, 1);
        assert(without_name(s, name) == (if pred(x) {
            without_name(t, name).push(x)
        } else {
            without_name(t, name)
        }));
        lemma_found_after_record(t, x, other);
        if pred(x) {
            lemma_found_after_record(without_name(t, name), x, other);
        }
    }
}

proof fn lemma_without_name_from(s: Seq<InstanceConfig>, name: Seq<char>, k: int)
    requires
        0 <= k < without_name(s, name).len(),
    ensures
        exists|i: int| 0 <= i < s.len() && #[trigger] s[i] == without_name(s, name)[k],
    decreases s.len(),
{
    let pred = |c: InstanceConfig| c.name@ != name;
    reveal_with_fuel(Seq::filter, 1);
    if s.len() > 0 {
        let t = s.drop_last();
        let x = s.last();
        let f = without_name(t, name);
        if pred(x) && k == f.len() {
            assert(s[s.len() - 1] == without_name(s, name)[k]);
        } else {
            assert(without_name(s, name)[k] == f[k]);
            lemma_without_name_from(t, name, k);
            let i = choose|i: int| 0 <= i < t.len() && #[trigger] t[i] == f[k];
            assert(s[i] == t[i]);
        }
    }
}

/// Recording a configuration under a name not yet known keeps names unique.
pub proof fn lemma_record_keeps_names_unique(s: Seq<InstanceConfig>, c: InstanceConfig)
    requires
        names_unique(s),
        found(s, c.name@) is None,
    ensures
        names_unique(s.push(c)),
{
    let t = s.push(c);
    lemma_first_named_some(s, c.name@);
    assert(forall|i: int| 0 <= i < s.len() ==> #[trigger] s[i].name@ != c.name@);
    assert forall|i: int, j: int| 0 <= i < j < t.len() implies #[trigger] t[i].name@ != #[trigger] t[j].name@ by {
        assert(t[i] == s[i]);
        if j < s.len() {
            assert(t[j] == s[j]);
        }
    }
}

/// Forgetting a name keeps the remaining names unique.
pub proof fn lemma_forget_keeps_names_unique(s: Seq<InstanceConfig>, name: Seq<char>)
    requires
        names_unique(s),
    ensures
        names_unique(without_name(s, name)),
    decreases s.len(),
{
    let pred = |c: InstanceConfig| c.name@ != name;
    reveal_with_fuel(Seq::filter, 1);
    if s.len() > 0 {
        let t = s.drop_last();
        let x = s.last();
        assert forall|i: int, j: int| 0 <= i < j < t.len() implies #[trigger] t[i].name@ != #[trigger] t[j].name@ by {
            assert(t[i] == s[i] && t[j] == s[j]);
        }
        lemma_forget_keeps_names_unique(t, name);
        let f = without_name(t, name);
        if pred(x) {
            let g = f.push(x);
            assert(without_name(s, name) == g);
            assert forall|i: int, j: int| 0 <= i < j < g.len() implies #[trigger] g[i].name@ != #[trigger] g[j].name@ by {
                assert(g[i] == f[i]);
                if j < f.len() {
                    assert(g[j] == f[j]);
                } else {
                    lemma_without_name_from(t, name, i);
                    let m = choose|m: int| 0 <= m < t.len() && #[trigger] t[m] == f[i];
                    assert(s[m] == t[m]);
                    assert(s[s.len() - 1] == x);
                    assert(s[m].name@ != s[s.len() - 1].name@);
                }
            }
        }
    }
}

proof fn lemma_without_absent_name(s: Seq<InstanceConfig>, name: Seq<char>)
    requires
        forall|i: int| 0 <= i < s.len() ==> #[trigger] s[i].name@ != name,
    ensures
        without_name(s, name) == s,
    decreases s.len(),
{
    reveal_with_fuel(Seq::filter, 1);
    if s.len() > 0 {
        let t = s.drop_last();
        assert forall|i: int| 0 <= i < t.len() implies #[trigger] t[i].name@ != name by {
            assert(t[i] == s[i]);
        }
        lemma_without_absent_name(t, name);
        assert(s.last() == s[s.len() - 1]);
        assert(t.push(s.last()) =~= s);
    }
}

/// Forgetting the name of a configuration just recorded under a new name
/// gives back the configurations known before.
pub proof fn lemma_forget_undoes_record(s: Seq<InstanceConfig>, c: InstanceConfig)
    requires
        found(s, c.name@) is None,
    ensures
        without_name(s.push(c), c.name@) == s,
{
    lemma_first_named_some(s, c.name@);
    lemma_without_absent_name(s, c.name@);
    reveal_with_fuel(Seq::filter, 1);
    assert(s.push(c).drop_last() =~= s);
}

/// The configurations reuse no name exactly when no name is repeated.
pub proof fn lemma_repeat_iff_not_unique(s: Seq<InstanceConfig>)
    ensures
        first_repeat(s) is None <==> names_unique(s),
{
    let p = is_repeat(s);
    lemma_first_where(s.len() as int, p);
    if first_repeat(s) is None {
        assert forall|i: int, j: int| 0 <= i < j < s.len() implies #[trigger] s[i].name@ != #[trigger] s[j].name@ by {
            if s[i].name@ == s[j].name@ {
                assert(repeats_earlier(s, j));
                assert(p(j));
            }
        }
    } else {
        let j = first_repeat(s)->0;
        assert(p(j));
        let i = choose|i: int| 0 <= i < j && #[trigger] s[i].name@ == s[j].name@;
        assert(s[i].name@ == s[j].name@);
    }
}


proof fn lemma_record_unique_iff(s: Seq<InstanceConfig>, c: InstanceConfig)
    ensures
        names_unique(s.push(c)) <==> (names_unique(s) && found(s, c.name@) is None),
{
    let t = s.push(c);
    lemma_first_named_some(s, c.name@);
    if names_unique(t) {
        assert forall|i: int, j: int| 0 <= i < j < s.len() implies #[trigger] s[i].name@ != #[trigger] s[j].name@ by {
            assert(t[i] == s[i] && t[j] == s[j]);
        }
        if found(s, c.name@) is Some {
            let k = first_named(s, c.name@)->0;
            assert(t[k] == s[k]);
            assert(t[s.len() as int] == c);
            assert(t[k].name@ == t[s.len() as int].name@);
        }
    }
    if names_unique(s) && found(s, c.name@) is None {
        lemma_record_keeps_names_unique(s, c);
    }
}

/// One change to the known configurations: recording a configuration, or
/// forgetting every configuration of a name.
pub enum RegistryChange {
    Record(InstanceConfig),
    Forget(Seq<char>),
}

/// The configurations after one change.
pub open spec fn apply_change(s: Seq<InstanceConfig>, change: RegistryChange) -> Seq<InstanceConfig> {
    match change {
        RegistryChange::Record(c) => s.push(c),
        RegistryChange::Forget(name) => without_name(s, name),
    }
}

/// The configurations after a series of changes.
pub open spec fn apply_changes(s: Seq<InstanceConfig>, changes: Seq<RegistryChange>) -> Seq<InstanceConfig>
    decreases changes.len(),
{
    if changes.len() == 0 {
        s
    } else {
        apply_changes(apply_change(s, changes[0]), changes.drop_first())
    }
}

/// Whether every recording in the series is of a name not known at that point.
pub open spec fn records_new_names(s: Seq<InstanceConfig>, changes: Seq<RegistryChange>) -> bool
    decreases changes.len(),
{
    changes.len() == 0 || ((match changes[0] {
        RegistryChange::Record(c) => found(s, c.name@) is None,
        RegistryChange::Forget(_) => true,
    }) && records_new_names(apply_change(s, changes[0]), changes.drop_first()))
}

/// Known names stay pairwise distinct across every series of creations and
/// deletions in which each creation is of a name not known yet; a creation
/// of a known name is exactly what breaks it (see `record_config`).
pub proof fn lemma_names_stay_unique(s: Seq<InstanceConfig>, changes: Seq<RegistryChange>)
    requires
        names_unique(s),
        records_new_names(s, changes),
    ensures
        names_unique(apply_changes(s, changes)),
    decreases changes.len(),
{
    if changes.len() > 0 {
        let next = apply_change(s, changes[0]);
        match changes[0] {
            RegistryChange::Record(c) => lemma_record_keeps_names_unique(s, c),
            RegistryChange::Forget(name) => lemma_forget_keeps_names_unique(s, name),
        }
        lemma_names_stay_unique(next, changes.drop_first());
    }
}

} // verus!
