//! Odoo instances: their configuration, their life cycle from configured
//! to ready to running and back, the steps that prepare them, and the
//! files and commands those steps need.

use crate::components::postgres::PostgresInstance;
use crate::components::uv::{texts, UvInstance};
use crate::error::{ErrorView, OdooPodError};
use crate::sharing::share;
use crate::text::{decimal, decimal_string, join_path, path_join};
use std::marker::PhantomData;
use std::sync::Arc;
use vstd::prelude::*;

verus! {

/// What an instance is made of: its name, the versions it runs, its ports
/// and the directory that holds it.
#[derive(Debug)]
pub struct InstanceConfig {
    pub name: String,
    pub odoo_version: String,
    pub community: bool,
    pub python_version: String,
    pub pg_version: String,
    pub http_port: u16,
    pub longpolling_port: u16,
    pub path: String,
}

impl Clone for InstanceConfig {
    fn clone(&self) -> (r: Self)
        ensures
            r == *self,
    {
        InstanceConfig {
            name: self.name.clone(),
            odoo_version: self.odoo_version.clone(),
            community: self.community,
            python_version: self.python_version.clone(),
            pg_version: self.pg_version.clone(),
            http_port: self.http_port,
            longpolling_port: self.longpolling_port,
            path: self.path.clone(),
        }
    }
}

/// An instance whose files are not prepared yet.
pub struct Configured;

/// An instance that is prepared and not running.
pub struct Ready;

/// An instance whose Odoo server has been launched.
pub struct Running;

/// The states an instance goes through.
pub trait InstanceState {}

impl InstanceState for Configured {}

impl InstanceState for Ready {}

impl InstanceState for Running {}

/// An Odoo instance in the state `S`.
pub struct OdooInstance<S: InstanceState> {
    pub config: InstanceConfig,
    uv: Arc<UvInstance>,
    postgres: Arc<PostgresInstance>,
    child: Option<u32>,
    odoo_path: String,
    _state: PhantomData<S>,
}

/// An instance as plain values: its configuration, the `uv` installation
/// and PostgreSQL server it uses, the process id of its Odoo server when
/// one was launched, and the directory of its Odoo sources.
pub struct InstanceView {
    pub config: InstanceConfig,
    pub uv: UvInstance,
    pub postgres: PostgresInstance,
    pub child: Option<u32>,
    pub odoo_path: Seq<char>,
}

impl InstanceView {
    /// The same instance with its Odoo server launched as process `pid`.
    pub open spec fn launched(self, pid: u32) -> InstanceView {
        InstanceView {
            config: self.config,
            uv: self.uv,
            postgres: self.postgres,
            child: Some(pid),
            odoo_path: self.odoo_path,
        }
    }

    /// The same instance with no Odoo server process.
    pub open spec fn halted(self) -> InstanceView {
        InstanceView {
            config: self.config,
            uv: self.uv,
            postgres: self.postgres,
            child: None,
            odoo_path: self.odoo_path,
        }
    }
}

/// An instance made of these parts, with no Odoo server process.
pub open spec fn assembled(config: InstanceConfig, uv: UvInstance, postgres: PostgresInstance, odoo_path: Seq<char>) -> InstanceView {
    InstanceView { config, uv, postgres, child: None, odoo_path }
}

impl<S: InstanceState> View for OdooInstance<S> {
    type V = InstanceView;

    closed spec fn view(&self) -> InstanceView {
        InstanceView {
            config: self.config,
            uv: *self.uv,
            postgres: *self.postgres,
            child: self.child,
            odoo_path: self.odoo_path@,
        }
    }
}

/// A lifecycle result as plain values.
pub open spec fn lifted<S: InstanceState>(r: Result<OdooInstance<S>, OdooPodError>) -> Result<InstanceView, ErrorView> {
    match r {
        Ok(i) => Ok(i@),
        Err(e) => Err(e@),
    }
}

// ---------------------------------------------------------------------------
// The files of an instance.

/// The instance's virtual environment.
pub open spec fn venv_path(config: InstanceConfig) -> Seq<char> {
    path_join(config.path@, ".venv"@)
}

/// The instance's Odoo configuration file.
pub open spec fn config_file_path(config: InstanceConfig) -> Seq<char> {
    path_join(config.path@, "odoo.conf"@)
}

/// The link from the instance's directory to the Odoo sources.
pub open spec fn sources_link_path(config: InstanceConfig) -> Seq<char> {
    path_join(config.path@, "odoo"@)
}

/// The add-ons directory seen through that link.
pub open spec fn addons_path(config: InstanceConfig) -> Seq<char> {
    path_join(config.path@, "odoo/addons"@)
}

/// The file that receives the Odoo server's output.
pub open spec fn log_path(config: InstanceConfig) -> Seq<char> {
    path_join(config.path@, "odoo.log"@)
}

/// The Python interpreter of the virtual environment.
pub open spec fn python_path(config: InstanceConfig) -> Seq<char> {
    path_join(config.path@, ".venv/bin/python"@)
}

/// The Odoo launcher in the sources.
pub open spec fn odoo_bin_path(odoo_path: Seq<char>) -> Seq<char> {
    path_join(odoo_path, "odoo-bin"@)
}

/// The Python requirements of the sources.
pub open spec fn requirements_path(odoo_path: Seq<char>) -> Seq<char> {
    path_join(odoo_path, "requirements.txt"@)
}

/// The PostgreSQL port written into every configuration file.
pub const DB_PORT: u16 = 5432;

/// The Odoo configuration file of an instance.
pub open spec fn config_file_content(config: InstanceConfig) -> Seq<char> {
    "[options]\naddons_path = "@ + addons_path(config) + "\ndb_user = odoo\ndb_password = odoo\ndb_port = "@
        + decimal(DB_PORT as nat) + "\ndb_host = 127.0.0.1\nhttp_port = "@ + decimal(
        config.http_port as nat,
    ) + "\nlongpolling_port = "@ + decimal(config.longpolling_port as nat) + "\n"@
}

/// Renders the Odoo configuration file of `config`.
pub fn render_config_file(config: &InstanceConfig) -> (r: String)
    ensures
        r@ == config_file_content(*config),
{
    let addons: String = join_path(config.path.as_str(), "odoo/addons");
    let db_port: String = decimal_string(DB_PORT as u64);
    let http: String = decimal_string(config.http_port as u64);
    let longpolling: String = decimal_string(config.longpolling_port as u64);
    String::from_str("[options]\naddons_path = ").concat(addons.as_str()).concat(
        "\ndb_user = odoo\ndb_password = odoo\ndb_port = ",
    ).concat(db_port.as_str()).concat("\ndb_host = 127.0.0.1\nhttp_port = ").concat(
        http.as_str(),
    ).concat("\nlongpolling_port = ").concat(longpolling.as_str()).concat("\n")
}


// ---------------------------------------------------------------------------
// Launching the Odoo server.

/// The command that launches an instance's Odoo server, the file that gets
/// its output, and what to tell the user once it is launched.
pub struct LaunchPlan {
    pub log_path: String,
    pub program: String,
    pub args: Vec<String>,
    pub notices: Vec<String>,
}

/// Why launching the Odoo server failed.
pub enum StartFailure {
    /// The log file could not be opened; the text describes why.
    LogFile(String),
    /// A second handle to the log file could not be made.
    LogHandle(String),
    /// The server process could not be spawned.
    Spawn(String),
}

/// The error that a failed launch becomes.
pub open spec fn start_error(config: InstanceConfig, failure: StartFailure) -> ErrorView {
    match failure {
        StartFailure::LogFile(e) => ErrorView::StartInstanceError(
            "Cannot open log file "@ + log_path(config) + ": "@ + e@,
        ),
        StartFailure::LogHandle(e) => ErrorView::StartInstanceError(e@),
        StartFailure::Spawn(e) => ErrorView::StartInstanceError(e@),
    }
}


/// What stopping does: with no server process there is nothing to stop;
/// otherwise a failure to kill or reap the process is an error carrying
/// its message, and success leaves the instance without a process.
pub open spec fn stop_result(v: InstanceView, outcome: Result<(), String>) -> Result<InstanceView, ErrorView> {
    match v.child {
        None => Ok(v.halted()),
        Some(_) => match outcome {
            Ok(()) => Ok(v.halted()),
            Err(e) => Err(ErrorView::StopInstanceError(e@)),
        },
    }
}

/// What launching does: a launched server makes the instance running with
/// that process; a failure becomes the matching error.
pub open spec fn start_result(v: InstanceView, outcome: Result<u32, StartFailure>) -> Result<InstanceView, ErrorView> {
    match outcome {
        Ok(pid) => Ok(v.launched(pid)),
        Err(f) => Err(start_error(v.config, f)),
    }
}

fn stop_instance<S: InstanceState, T: InstanceState>(inst: OdooInstance<S>, outcome: Result<(), String>) -> (r: Result<OdooInstance<T>, OdooPodError>)
    ensures
        lifted(r) == stop_result(inst@, outcome),
{
    if inst.child.is_some() {
        if let Err(e) = outcome {
            return Err(OdooPodError::StopInstanceError(e));
        }
    }
    Ok(OdooInstance {
        config: inst.config,
        uv: inst.uv,
        postgres: inst.postgres,
        child: None,
        odoo_path: inst.odoo_path,
        _state: PhantomData,
    })
}

impl<S: InstanceState> OdooInstance<S> {
    /// The instance's configuration.
    pub fn config(&self) -> (r: &InstanceConfig)
        ensures
            *r == self@.config,
    {
        &self.config
    }

    /// Another handle to the `uv` installation the instance uses.
    pub fn uv(&self) -> (r: Arc<UvInstance>)
        ensures
            *r == self@.uv,
    {
        share(&self.uv)
    }

    /// Another handle to the PostgreSQL server the instance uses.
    pub fn postgres(&self) -> (r: Arc<PostgresInstance>)
        ensures
            *r == self@.postgres,
    {
        share(&self.postgres)
    }

    /// The directory of the Odoo sources.
    pub fn odoo_path(&self) -> (r: &str)
        ensures
            r@ == self@.odoo_path,
    {
        self.odoo_path.as_str()
    }

    /// The process id of the Odoo server, when one was launched.
    pub fn child(&self) -> (r: Option<u32>)
        ensures
            r == self@.child,
    {
        self.child
    }
}

impl OdooInstance<Configured> {
    /// A configured instance made of these parts.
    pub fn new(config: InstanceConfig, uv: Arc<UvInstance>, postgres: Arc<PostgresInstance>, odoo_path: String) -> (r: Self)
        ensures
            r@ == assembled(config, *uv, *postgres, odoo_path@),
    {
        OdooInstance { config, uv, postgres, child: None, odoo_path, _state: PhantomData }
    }
}

impl OdooInstance<Ready> {
    /// A prepared instance rebuilt from its recorded configuration.
    pub fn from_config(config: InstanceConfig, uv: Arc<UvInstance>, postgres: Arc<PostgresInstance>, odoo_path: String) -> (r: Self)
        ensures
            r@ == assembled(config, *uv, *postgres, odoo_path@),
    {
        OdooInstance { config, uv, postgres, child: None, odoo_path, _state: PhantomData }
    }

    /// The instance's name.
    pub fn name(&self) -> (r: &str)
        ensures
            r@ == self@.config.name@,
    {
        self.config.name.as_str()
    }

    /// The instance's directory.
    pub fn path(&self) -> (r: &str)
        ensures
            r@ == self@.config.path@,
    {
        self.config.path.as_str()
    }

    /// How to launch the Odoo server: the virtual environment's Python runs
    /// `odoo-bin -c odoo.conf`, with its output appended to `odoo.log`.
    pub fn launch_plan(&self) -> (r: LaunchPlan)
        ensures
            r.log_path@ == log_path(self@.config),
            r.program@ == python_path(self@.config),
            texts(r.args@) == seq![odoo_bin_path(self@.odoo_path), "-c"@, config_file_path(self@.config)],
            texts(r.notices@) == seq![
                "Instance '"@ + self@.config.name@ + "' started \u{2014} logs: "@ + log_path(self@.config),
                "Odoo will be available at http://localhost:"@ + decimal(self@.config.http_port as nat)
                    + " after it finishes booting."@,
            ],
    {
        let log: String = join_path(self.config.path.as_str(), "odoo.log");
        let program: String = join_path(self.config.path.as_str(), ".venv/bin/python");
        let args: Vec<String> = vec![
            join_path(self.odoo_path.as_str(), "odoo-bin"),
            String::from_str("-c"),
            join_path(self.config.path.as_str(), "odoo.conf"),
        ];
        let port: String = decimal_string(self.config.http_port as u64);
        let notices: Vec<String> = vec![
            String::from_str("Instance '").concat(self.config.name.as_str()).concat(
                "' started \u{2014} logs: ",
            ).concat(log.as_str()),
            String::from_str("Odoo will be available at http://localhost:").concat(port.as_str()).concat(
                " after it finishes booting.",
            ),
        ];
        assert(texts(args@) =~= seq![odoo_bin_path(self@.odoo_path), "-c"@, config_file_path(self.config)]);
        assert(texts(notices@) =~= seq![
            "Instance '"@ + self.config.name@ + "' started \u{2014} logs: "@ + log_path(self.config),
            "Odoo will be available at http://localhost:"@ + decimal(self.config.http_port as nat)
                + " after it finishes booting."@,
        ]);
        LaunchPlan { log_path: log, program, args, notices }
    }

    /// The instance once launching its Odoo server gave `outcome`.
    pub fn start(self, outcome: Result<u32, StartFailure>) -> (r: Result<OdooInstance<Running>, OdooPodError>)
        ensures
            lifted(r) == start_result(self@, outcome),
    {
        match outcome {
            Ok(pid) => Ok(OdooInstance {
                config: self.config,
                uv: self.uv,
                postgres: self.postgres,
                child: Some(pid),
                odoo_path: self.odoo_path,
                _state: PhantomData,
            }),
            Err(StartFailure::LogFile(e)) => {
                let log: String = join_path(self.config.path.as_str(), "odoo.log");
                Err(OdooPodError::StartInstanceError(
                    String::from_str("Cannot open log file ").concat(log.as_str()).concat(": ").concat(e.as_str()),
                ))
            },
            Err(StartFailure::LogHandle(e)) => Err(OdooPodError::StartInstanceError(e)),
            Err(StartFailure::Spawn(e)) => Err(OdooPodError::StartInstanceError(e)),
        }
    }

    /// The instance once stopping its Odoo server, if any, gave `outcome`.
    pub fn stop(self, outcome: Result<(), String>) -> (r: Result<OdooInstance<Ready>, OdooPodError>)
        ensures
            lifted(r) == stop_result(self@, outcome),
    {
        stop_instance(self, outcome)
    }
}

impl OdooInstance<Running> {
    /// A running instance taken over again, after the application restarted,
    /// from its recorded configuration and the process id `pid` of its Odoo
    /// server; stopping it then ends that process.
    pub fn attach(config: InstanceConfig, uv: Arc<UvInstance>, postgres: Arc<PostgresInstance>, odoo_path: String, pid: u32) -> (r: Self)
        ensures
            r@ == assembled(config, *uv, *postgres, odoo_path@).launched(pid),
    {
        OdooInstance { config, uv, postgres, child: Some(pid), odoo_path, _state: PhantomData }
    }

    /// The instance's name.
    pub fn name(&self) -> (r: &str)
        ensures
            r@ == self@.config.name@,
    {
        self.config.name.as_str()
    }

    /// The instance once stopping its Odoo server, if any, gave `outcome`.
    pub fn stop(self, outcome: Result<(), String>) -> (r: Result<OdooInstance<Ready>, OdooPodError>)
        ensures
            lifted(r) == stop_result(self@, outcome),
    {
        stop_instance(self, outcome)
    }
}

/// Launching a prepared instance's server and then stopping it gives back
/// the instance as it was before the launch.
pub proof fn lemma_start_then_stop(v: InstanceView, pid: u32)
    requires
        v.child is None,
    ensures
        start_result(v, Ok(pid)) == Ok::<InstanceView, ErrorView>(v.launched(pid)),
        stop_result(v.launched(pid), Ok(())) == Ok::<InstanceView, ErrorView>(v),
{
}


// ---------------------------------------------------------------------------
// Preparing an instance.

/// Where the preparation of an instance stands: the step to do next, or
/// how it ended.
pub enum SetupStage {
    /// Install the instance's Python version.
    InstallPython,
    /// Ask whether the virtual environment exists.
    CheckVenv,
    /// Create the virtual environment.
    CreateVenv,
    /// Ask whether the sources directory exists.
    CheckSourceDir,
    /// Ask whether the sources hold `odoo-bin`.
    CheckOdooBin,
    /// Download and unpack the sources.
    FetchSource,
    /// Install the sources' Python requirements.
    InstallRequirements,
    /// Ask whether the configuration file exists.
    CheckConfig,
    /// Write the configuration file.
    WriteConfig,
    /// Ask whether the link to the sources exists.
    CheckSymlink,
    /// Create the link to the sources.
    CreateSymlink,
    /// The instance is prepared.
    Done,
    /// The preparation stopped with this error.
    Failed(OdooPodError),
}

/// What came of the step asked for.
pub enum SetupEvent {
    /// The action succeeded.
    Succeeded,
    /// The action failed; the text describes why.
    Failed(String),
    /// The path asked about exists, or not.
    Exists(bool),
}

/// What the caller must do for the current step.
pub enum SetupAction {
    InstallPython { python_version: String },
    CheckExists { path: String },
    CreateVenv { python_version: String, venv_path: String },
    FetchSource { odoo_version: String, enterprise: bool, destination: String },
    InstallRequirements { venv_path: String, requirements_path: String },
    WriteFile { path: String, content: String },
    CreateSymlink { target: String, link: String },
    Finish,
    Abort(OdooPodError),
}

/// The preparation of one instance, step by step.
pub struct SetupMachine {
    stage: SetupStage,
    config: InstanceConfig,
    odoo_path: String,
    history: Ghost<Seq<SetupEvent>>,
}

/// Whether a step that performs an action is waiting.
pub open spec fn acts(stage: SetupStage) -> bool {
    match stage {
        SetupStage::InstallPython | SetupStage::CreateVenv | SetupStage::FetchSource
        | SetupStage::InstallRequirements | SetupStage::WriteConfig | SetupStage::CreateSymlink => true,
        _ => false,
    }
}

/// Whether a step that asks about a path is waiting.
pub open spec fn asks(stage: SetupStage) -> bool {
    match stage {
        SetupStage::CheckVenv | SetupStage::CheckSourceDir | SetupStage::CheckOdooBin
        | SetupStage::CheckConfig | SetupStage::CheckSymlink => true,
        _ => false,
    }
}

/// Actions are answered by success or failure, questions by yes or no;
/// a finished preparation takes no more answers.
pub open spec fn accepts(stage: SetupStage, event: SetupEvent) -> bool {
    match event {
        SetupEvent::Exists(_) => asks(stage),
        _ => acts(stage),
    }
}

/// The stage after `stage` when `event` answers it.
pub open spec fn next_stage(stage: SetupStage, event: SetupEvent) -> SetupStage {
    match (stage, event) {
        (SetupStage::InstallPython, SetupEvent::Failed(m)) => SetupStage::Failed(OdooPodError::SetupFailed(m)),
        (SetupStage::InstallPython, _) => SetupStage::CheckVenv,
        (SetupStage::CheckVenv, SetupEvent::Exists(true)) => SetupStage::CheckSourceDir,
        (SetupStage::CheckVenv, _) => SetupStage::CreateVenv,
        (SetupStage::CreateVenv, SetupEvent::Failed(m)) => SetupStage::Failed(OdooPodError::CreateVenvError(m)),
        (SetupStage::CreateVenv, _) => SetupStage::CheckSourceDir,
        (SetupStage::CheckSourceDir, SetupEvent::Exists(true)) => SetupStage::CheckOdooBin,
        (SetupStage::CheckSourceDir, _) => SetupStage::FetchSource,
        (SetupStage::CheckOdooBin, SetupEvent::Exists(true)) => SetupStage::InstallRequirements,
        (SetupStage::CheckOdooBin, _) => SetupStage::FetchSource,
        (SetupStage::FetchSource, SetupEvent::Failed(m)) => SetupStage::Failed(OdooPodError::SetupFailed(m)),
        (SetupStage::FetchSource, _) => SetupStage::InstallRequirements,
        (SetupStage::InstallRequirements, SetupEvent::Failed(m)) => SetupStage::Failed(
            OdooPodError::InstallRequirementsError(m),
        ),
        (SetupStage::InstallRequirements, _) => SetupStage::CheckConfig,
        (SetupStage::CheckConfig, SetupEvent::Exists(true)) => SetupStage::CheckSymlink,
        (SetupStage::CheckConfig, _) => SetupStage::WriteConfig,
        (SetupStage::WriteConfig, SetupEvent::Failed(m)) => SetupStage::Failed(OdooPodError::SetupFailed(m)),
        (SetupStage::WriteConfig, _) => SetupStage::CheckSymlink,
        (SetupStage::CheckSymlink, SetupEvent::Exists(true)) => SetupStage::Done,
        (SetupStage::CheckSymlink, _) => SetupStage::CreateSymlink,
        (SetupStage::CreateSymlink, SetupEvent::Failed(m)) => SetupStage::Failed(OdooPodError::SetupFailed(m)),
        (SetupStage::CreateSymlink, _) => SetupStage::Done,
        (SetupStage::Done, _) => SetupStage::Done,
        (SetupStage::Failed(e), _) => SetupStage::Failed(e),
    }
}

/// How many steps at most remain before the preparation ends.
pub open spec fn remaining_steps(stage: SetupStage) -> nat {
    match stage {
        SetupStage::InstallPython => 11,
        SetupStage::CheckVenv => 10,
        SetupStage::CreateVenv => 9,
        SetupStage::CheckSourceDir => 8,
        SetupStage::CheckOdooBin => 7,
        SetupStage::FetchSource => 6,
        SetupStage::InstallRequirements => 5,
        SetupStage::CheckConfig => 4,
        SetupStage::WriteConfig => 3,
        SetupStage::CheckSymlink => 2,
        SetupStage::CreateSymlink => 1,
        SetupStage::Done => 0,
        SetupStage::Failed(_) => 0,
    }
}

/// The action asked for at `stage`, as plain values.
pub enum ActionView {
    InstallPython { python_version: Seq<char> },
    CheckExists { path: Seq<char> },
    CreateVenv { python_version: Seq<char>, venv_path: Seq<char> },
    FetchSource { odoo_version: Seq<char>, enterprise: bool, destination: Seq<char> },
    InstallRequirements { venv_path: Seq<char>, requirements_path: Seq<char> },
    WriteFile { path: Seq<char>, content: Seq<char> },
    CreateSymlink { target: Seq<char>, link: Seq<char> },
    Finish,
    Abort(ErrorView),
}

impl View for SetupAction {
    type V = ActionView;

    open spec fn view(&self) -> ActionView {
        match *self {
            SetupAction::InstallPython { python_version } => ActionView::InstallPython { python_version: python_version@ },
            SetupAction::CheckExists { path } => ActionView::CheckExists { path: path@ },
            SetupAction::CreateVenv { python_version, venv_path } => ActionView::CreateVenv {
                python_version: python_version@,
                venv_path: venv_path@,
            },
            SetupAction::FetchSource { odoo_version, enterprise, destination } => ActionView::FetchSource {
                odoo_version: odoo_version@,
                enterprise,
                destination: destination@,
            },
            SetupAction::InstallRequirements { venv_path, requirements_path } => ActionView::InstallRequirements {
                venv_path: venv_path@,
                requirements_path: requirements_path@,
            },
            SetupAction::WriteFile { path, content } => ActionView::WriteFile { path: path@, content: content@ },
            SetupAction::CreateSymlink { target, link } => ActionView::CreateSymlink { target: target@, link: link@ },
            SetupAction::Finish => ActionView::Finish,
            SetupAction::Abort(e) => ActionView::Abort(e@),
        }
    }
}

/// The action asked for at `stage` of the preparation of the instance
/// configured by `config` with its sources in `odoo_path`.
pub open spec fn stage_action(stage: SetupStage, config: InstanceConfig, odoo_path: Seq<char>) -> ActionView {
    match stage {
        SetupStage::InstallPython => ActionView::InstallPython { python_version: config.python_version@ },
        SetupStage::CheckVenv => ActionView::CheckExists { path: venv_path(config) },
        SetupStage::CreateVenv => ActionView::CreateVenv {
            python_version: config.python_version@,
            venv_path: venv_path(config),
        },
        SetupStage::CheckSourceDir => ActionView::CheckExists { path: odoo_path },
        SetupStage::CheckOdooBin => ActionView::CheckExists { path: odoo_bin_path(odoo_path) },
        SetupStage::FetchSource => ActionView::FetchSource {
            odoo_version: config.odoo_version@,
            enterprise: !config.community,
            destination: odoo_path,
        },
        SetupStage::InstallRequirements => ActionView::InstallRequirements {
            venv_path: venv_path(config),
            requirements_path: requirements_path(odoo_path),
        },
        SetupStage::CheckConfig => ActionView::CheckExists { path: config_file_path(config) },
        SetupStage::WriteConfig => ActionView::WriteFile {
            path: config_file_path(config),
            content: config_file_content(config),
        },
        SetupStage::CheckSymlink => ActionView::CheckExists { path: sources_link_path(config) },
        SetupStage::CreateSymlink => ActionView::CreateSymlink { target: odoo_path, link: sources_link_path(config) },
        SetupStage::Done => ActionView::Finish,
        SetupStage::Failed(e) => ActionView::Abort(e@),
    }
}

impl SetupMachine {
    /// The machine is at the stage its answers lead to from the first step,
    /// and each answer answered the step it was given to.
    #[verifier::type_invariant]
    spec fn well_formed(self) -> bool {
        answers_fit(SetupStage::InstallPython, self.history@) && self.stage == run_setup(
            SetupStage::InstallPython,
            self.history@,
        )
    }

    /// The current stage.
    pub closed spec fn stage_of(&self) -> SetupStage {
        self.stage
    }

    /// The configuration of the instance being prepared.
    pub closed spec fn config_of(&self) -> InstanceConfig {
        self.config
    }

    /// The directory of the Odoo sources of the instance being prepared.
    pub closed spec fn odoo_path_of(&self) -> Seq<char> {
        self.odoo_path@
    }

    /// The answers given so far, in order.
    pub closed spec fn history(&self) -> Seq<SetupEvent> {
        self.history@
    }

    /// The current stage.
    pub fn stage(&self) -> (r: &SetupStage)
        ensures
            *r == self.stage_of(),
    {
        &self.stage
    }

    /// Whether `event` is an answer to the current step.
    pub fn accepts(&self, event: &SetupEvent) -> (r: bool)
        ensures
            r == accepts(self.stage_of(), *event),
    {
        let acting: bool = match self.stage {
            SetupStage::InstallPython | SetupStage::CreateVenv | SetupStage::FetchSource
            | SetupStage::InstallRequirements | SetupStage::WriteConfig | SetupStage::CreateSymlink => true,
            _ => false,
        };
        let asking: bool = match self.stage {
            SetupStage::CheckVenv | SetupStage::CheckSourceDir | SetupStage::CheckOdooBin
            | SetupStage::CheckConfig | SetupStage::CheckSymlink => true,
            _ => false,
        };
        match event {
            SetupEvent::Exists(_) => asking,
            _ => acting,
        }
    }

    /// Whether the preparation has ended, well or not.
    pub fn is_finished(&self) -> (r: bool)
        ensures
            r == (self.stage_of() is Done || self.stage_of() is Failed),
    {
        match self.stage {
            SetupStage::Done | SetupStage::Failed(_) => true,
            _ => false,
        }
    }

    /// The action the current step asks for.
    pub fn action(&self) -> (r: SetupAction)
        ensures
            r@ == stage_action(self.stage_of(), self.config_of(), self.odoo_path_of()),
    {
        let path: &str = self.config.path.as_str();
        match &self.stage {
            SetupStage::InstallPython => SetupAction::InstallPython { python_version: self.config.python_version.clone() },
            SetupStage::CheckVenv => SetupAction::CheckExists { path: join_path(path, ".venv") },
            SetupStage::CreateVenv => SetupAction::CreateVenv {
                python_version: self.config.python_version.clone(),
                venv_path: join_path(path, ".venv"),
            },
            SetupStage::CheckSourceDir => SetupAction::CheckExists { path: self.odoo_path.clone() },
            SetupStage::CheckOdooBin => SetupAction::CheckExists { path: join_path(self.odoo_path.as_str(), "odoo-bin") },
            SetupStage::FetchSource => SetupAction::FetchSource {
                odoo_version: self.config.odoo_version.clone(),
                enterprise: !self.config.community,
                destination: self.odoo_path.clone(),
            },
            SetupStage::InstallRequirements => SetupAction::InstallRequirements {
                venv_path: join_path(path, ".venv"),
                requirements_path: join_path(self.odoo_path.as_str(), "requirements.txt"),
            },
            SetupStage::CheckConfig => SetupAction::CheckExists { path: join_path(path, "odoo.conf") },
            SetupStage::WriteConfig => SetupAction::WriteFile {
                path: join_path(path, "odoo.conf"),
                content: render_config_file(&self.config),
            },
            SetupStage::CheckSymlink => SetupAction::CheckExists { path: join_path(path, "odoo") },
            SetupStage::CreateSymlink => SetupAction::CreateSymlink {
                target: self.odoo_path.clone(),
                link: join_path(path, "odoo"),
            },
            SetupStage::Done => SetupAction::Finish,
            SetupStage::Failed(e) => SetupAction::Abort(e.clone()),
        }
    }

    /// The preparation once `event` answered the current step.
    pub fn step(self, event: SetupEvent) -> (r: SetupMachine)
        requires
            accepts(self.stage_of(), event),
        ensures
            r.stage_of() == next_stage(self.stage_of(), event),
            r.config_of() == self.config_of(),
            r.odoo_path_of() == self.odoo_path_of(),
            r.history() == self.history().push(event),
    {
        proof {
            use_type_invariant(&self);
            lemma_run_push(SetupStage::InstallPython, self.history@, event);
        }
        let ghost history = self.history@.push(event);
        let stage: SetupStage = match (self.stage, event) {
            (SetupStage::InstallPython, SetupEvent::Failed(m)) => SetupStage::Failed(OdooPodError::SetupFailed(m)),
            (SetupStage::InstallPython, _) => SetupStage::CheckVenv,
            (SetupStage::CheckVenv, SetupEvent::Exists(true)) => SetupStage::CheckSourceDir,
            (SetupStage::CheckVenv, _) => SetupStage::CreateVenv,
            (SetupStage::CreateVenv, SetupEvent::Failed(m)) => SetupStage::Failed(OdooPodError::CreateVenvError(m)),
            (SetupStage::CreateVenv, _) => SetupStage::CheckSourceDir,
            (SetupStage::CheckSourceDir, SetupEvent::Exists(true)) => SetupStage::CheckOdooBin,
            (SetupStage::CheckSourceDir, _) => SetupStage::FetchSource,
            (SetupStage::CheckOdooBin, SetupEvent::Exists(true)) => SetupStage::InstallRequirements,
            (SetupStage::CheckOdooBin, _) => SetupStage::FetchSource,
            (SetupStage::FetchSource, SetupEvent::Failed(m)) => SetupStage::Failed(OdooPodError::SetupFailed(m)),
            (SetupStage::FetchSource, _) => SetupStage::InstallRequirements,
            (SetupStage::InstallRequirements, SetupEvent::Failed(m)) => SetupStage::Failed(
                OdooPodError::InstallRequirementsError(m),
            ),
            (SetupStage::InstallRequirements, _) => SetupStage::CheckConfig,
            (SetupStage::CheckConfig, SetupEvent::Exists(true)) => SetupStage::CheckSymlink,
            (SetupStage::CheckConfig, _) => SetupStage::WriteConfig,
            (SetupStage::WriteConfig, SetupEvent::Failed(m)) => SetupStage::Failed(OdooPodError::SetupFailed(m)),
            (SetupStage::WriteConfig, _) => SetupStage::CheckSymlink,
            (SetupStage::CheckSymlink, SetupEvent::Exists(true)) => SetupStage::Done,
            (SetupStage::CheckSymlink, _) => SetupStage::CreateSymlink,
            (SetupStage::CreateSymlink, SetupEvent::Failed(m)) => SetupStage::Failed(OdooPodError::SetupFailed(m)),
            (SetupStage::CreateSymlink, _) => SetupStage::Done,
            (SetupStage::Done, _) => SetupStage::Done,
            (SetupStage::Failed(e), _) => SetupStage::Failed(e),
        };
        SetupMachine { stage, config: self.config, odoo_path: self.odoo_path, history: Ghost(history) }
    }
}

/// Every answer taken moves the preparation strictly closer to its end, so
/// it ends after at most eleven answers; once ended it takes no answer.
pub proof fn lemma_setup_progress(stage: SetupStage, event: SetupEvent)
    ensures
        accepts(stage, event) ==> remaining_steps(next_stage(stage, event)) < remaining_steps(stage),
        (stage is Done || stage is Failed) ==> !accepts(stage, event),
{
}

/// No answer moves the preparation from a step before the installation of
/// the requirements to a step after it: every preparation that gets past
/// the requirements has installed them.
pub proof fn lemma_requirements_not_skipped(stage: SetupStage, event: SetupEvent)
    requires
        remaining_steps(stage) > remaining_steps(SetupStage::InstallRequirements),
        accepts(stage, event),
    ensures
        next_stage(stage, event) is Failed || remaining_steps(next_stage(stage, event)) >= remaining_steps(
            SetupStage::InstallRequirements,
        ),
{
}

/// Whether each answer in `events` answers the step it is given to,
/// starting at `stage`.
pub open spec fn answers_fit(stage: SetupStage, events: Seq<SetupEvent>) -> bool
    decreases events.len(),
{
    events.len() == 0 || (accepts(stage, events[0]) && answers_fit(next_stage(stage, events[0]), events.drop_first()))
}

/// The stage reached from `stage` after the answers `events`.
pub open spec fn run_setup(stage: SetupStage, events: Seq<SetupEvent>) -> SetupStage
    decreases events.len(),
{
    if events.len() == 0 {
        stage
    } else {
        run_setup(next_stage(stage, events[0]), events.drop_first())
    }
}

/// Whether the run from `stage` with the answers `events` visits `target`.
pub open spec fn visits(stage: SetupStage, events: Seq<SetupEvent>, target: SetupStage) -> bool
    decreases events.len(),
{
    stage == target || (events.len() > 0 && visits(next_stage(stage, events[0]), events.drop_first(), target))
}

proof fn lemma_run_push(stage: SetupStage, events: Seq<SetupEvent>, event: SetupEvent)
    requires
        answers_fit(stage, events),
        accepts(run_setup(stage, events), event),
    ensures
        answers_fit(stage, events.push(event)),
        run_setup(stage, events.push(event)) == next_stage(run_setup(stage, events), event),
    decreases events.len(),
{
    let t = events.push(event);
    if events.len() == 0 {
        let next = next_stage(stage, event);
        assert(t.drop_first() =~= Seq::<SetupEvent>::empty());
        assert(answers_fit(next, t.drop_first()));
        assert(run_setup(next, t.drop_first()) == next);
        assert(run_setup(stage, events) == stage);
    } else {
        let next = next_stage(stage, events[0]);
        assert(t[0] == events[0]);
        assert(t.drop_first() =~= events.drop_first().push(event));
        assert(run_setup(stage, events) == run_setup(next, events.drop_first()));
        lemma_run_push(next, events.drop_first(), event);
        assert(run_setup(stage, t) == run_setup(next, t.drop_first()));
        assert(answers_fit(stage, t) == (accepts(stage, t[0]) && answers_fit(next, t.drop_first())));
    }
}

/// A preparation takes at most as many answers as [`remaining_steps`] says.
pub proof fn lemma_setup_ends(stage: SetupStage, events: Seq<SetupEvent>)
    requires
        answers_fit(stage, events),
    ensures
        events.len() <= remaining_steps(stage),
    decreases events.len(),
{
    if events.len() > 0 {
        lemma_setup_progress(stage, events[0]);
        lemma_setup_ends(next_stage(stage, events[0]), events.drop_first());
    }
}

/// Every preparation that ends well, from any step before the installation
/// of the requirements, goes through that installation.
pub proof fn lemma_done_installs_requirements(stage: SetupStage, events: Seq<SetupEvent>)
    requires
        remaining_steps(stage) > remaining_steps(SetupStage::InstallRequirements),
        answers_fit(stage, events),
        run_setup(stage, events) is Done,
    ensures
        visits(stage, events, SetupStage::InstallRequirements),
    decreases events.len(),
{
    if events.len() > 0 {
        let next = next_stage(stage, events[0]);
        let rest = events.drop_first();
        lemma_requirements_not_skipped(stage, events[0]);
        if next is Failed {
            if rest.len() > 0 {
                lemma_setup_progress(next, rest[0]);
            } else {
                assert(run_setup(next, rest) == next);
            }
        } else if remaining_steps(next) > remaining_steps(SetupStage::InstallRequirements) {
            lemma_done_installs_requirements(next, rest);
        } else {
            assert(next is InstallRequirements);
            assert(visits(next, rest, SetupStage::InstallRequirements));
        }
        assert(run_setup(stage, events) == run_setup(next, rest));
        assert(answers_fit(next, rest));
    } else {
        assert(run_setup(stage, events) == stage);
    }
}

/// Whether, on the run from `stage` with the answers `events`, the step
/// `at` was answered with `event`.
pub open spec fn answered(stage: SetupStage, events: Seq<SetupEvent>, at: SetupStage, event: SetupEvent) -> bool
    decreases events.len(),
{
    events.len() > 0 && ((stage == at && events[0] == event) || answered(
        next_stage(stage, events[0]),
        events.drop_first(),
        at,
        event,
    ))
}

/// Every preparation that ends well, from a step before the sources are
/// fetched, either was told that `odoo-bin` is present in the sources or
/// fetched the sources: an instance never becomes ready without its Odoo.
pub proof fn lemma_done_has_sources(stage: SetupStage, events: Seq<SetupEvent>)
    requires
        remaining_steps(stage) > remaining_steps(SetupStage::FetchSource),
        answers_fit(stage, events),
        run_setup(stage, events) is Done,
    ensures
        visits(stage, events, SetupStage::FetchSource) || answered(
            stage,
            events,
            SetupStage::CheckOdooBin,
            SetupEvent::Exists(true),
        ),
    decreases events.len(),
{
    if events.len() == 0 {
        assert(run_setup(stage, events) == stage);
    } else {
        let e = events[0];
        let next = next_stage(stage, e);
        let rest = events.drop_first();
        assert(run_setup(stage, events) == run_setup(next, rest));
        assert(answers_fit(next, rest));
        if next is Failed {
            if rest.len() > 0 {
                lemma_setup_progress(next, rest[0]);
            } else {
                assert(run_setup(next, rest) == next);
            }
        } else if next is FetchSource {
            assert(visits(next, rest, SetupStage::FetchSource));
        } else if stage is CheckOdooBin {
            assert(e == SetupEvent::Exists(true));
        } else {
            assert(remaining_steps(next) > remaining_steps(SetupStage::FetchSource));
            lemma_done_has_sources(next, rest);
        }
    }
}

/// What an action makes on disk: the virtual environment, the sources
/// directory, the configuration file or the link to the sources.
pub open spec fn made_path(a: ActionView) -> Option<Seq<char>> {
    match a {
        ActionView::CreateVenv { venv_path, .. } => Some(venv_path),
        ActionView::FetchSource { destination, .. } => Some(destination),
        ActionView::WriteFile { path, .. } => Some(path),
        ActionView::CreateSymlink { link, .. } => Some(link),
        _ => None,
    }
}

/// The path a question asks about.
pub open spec fn asked_path(a: ActionView) -> Option<Seq<char>> {
    match a {
        ActionView::CheckExists { path } => Some(path),
        _ => None,
    }
}

proof fn lemma_join_extends(base: Seq<char>, rel: Seq<char>)
    requires
        rel.len() > 0,
        rel[0] != '/',
    ensures
        base.is_prefix_of(path_join(base, rel)),
{
    let j = path_join(base, rel);
    if base.len() == 0 {
    } else if base.last() == '/' {
        assert(j.subrange(0, base.len() as int) =~= base);
    } else {
        assert(j.subrange(0, base.len() as int) =~= base);
    }
}

/// Whatever a question asks about, answering that it is missing leads to a
/// step that makes it, or makes the directory that holds it.
pub proof fn lemma_missing_is_made(stage: SetupStage, config: InstanceConfig, odoo_path: Seq<char>)
    requires
        asked_path(stage_action(stage, config, odoo_path)) is Some,
    ensures
        made_path(stage_action(next_stage(stage, SetupEvent::Exists(false)), config, odoo_path)) matches Some(
            made,
        ) && made.is_prefix_of(asked_path(stage_action(stage, config, odoo_path))->0),
{
    let asked = asked_path(stage_action(stage, config, odoo_path))->0;
    let made = made_path(stage_action(next_stage(stage, SetupEvent::Exists(false)), config, odoo_path))->0;
    if stage is CheckOdooBin {
        reveal_strlit("odoo-bin");
        lemma_join_extends(odoo_path, "odoo-bin"@);
    } else {
        assert(made =~= asked);
        assert(asked.subrange(0, asked.len() as int) =~= asked);
    }
}

/// Answering that a thing is present never leads to a step that makes
/// something: what exists is kept.
pub proof fn lemma_present_is_kept(stage: SetupStage, config: InstanceConfig, odoo_path: Seq<char>)
    requires
        asked_path(stage_action(stage, config, odoo_path)) is Some,
    ensures
        made_path(stage_action(next_stage(stage, SetupEvent::Exists(true)), config, odoo_path)) is None,
        !(next_stage(stage, SetupEvent::Exists(true)) is Failed),
{
}

/// Whether an error carries the message `m` of the failure it reports.
pub open spec fn carries(e: OdooPodError, m: String) -> bool {
    match e {
        OdooPodError::SetupFailed(d) => d == m,
        OdooPodError::CreateVenvError(d) => d == m,
        OdooPodError::InstallRequirementsError(d) => d == m,
        _ => false,
    }
}

/// A failed action ends the preparation with an error that carries the
/// failure's message; a successful action never ends it with an error.
pub proof fn lemma_action_outcomes(stage: SetupStage, m: String)
    requires
        accepts(stage, SetupEvent::Succeeded),
    ensures
        next_stage(stage, SetupEvent::Failed(m)) matches SetupStage::Failed(e) && carries(e, m),
        !(next_stage(stage, SetupEvent::Succeeded) is Failed),
{
}

/// A question accepts both answers, and only questions accept them; an
/// action accepts success and any failure alike, and only actions do.
pub proof fn lemma_answers_fit_their_steps(
    stage: SetupStage,
    config: InstanceConfig,
    odoo_path: Seq<char>,
    b: bool,
    m: String,
)
    ensures
        accepts(stage, SetupEvent::Exists(b)) == accepts(stage, SetupEvent::Exists(!b)),
        accepts(stage, SetupEvent::Exists(b)) <==> asked_path(stage_action(stage, config, odoo_path)) is Some,
        accepts(stage, SetupEvent::Succeeded) == accepts(stage, SetupEvent::Failed(m)),
        accepts(stage, SetupEvent::Succeeded) <==> !(stage_action(stage, config, odoo_path) is CheckExists
            || stage_action(stage, config, odoo_path) is Finish || stage_action(stage, config, odoo_path) is Abort),
{
}

impl OdooInstance<Configured> {
    /// The preparation of this instance, at its first step.
    pub fn setup_machine(&self) -> (r: SetupMachine)
        ensures
            r.stage_of() is InstallPython,
            r.config_of() == self@.config,
            r.odoo_path_of() == self@.odoo_path,
            r.history() == Seq::<SetupEvent>::empty(),
    {
        SetupMachine {
            stage: SetupStage::InstallPython,
            config: self.config.clone(),
            odoo_path: self.odoo_path.clone(),
            history: Ghost(Seq::empty()),
        }
    }

    /// The instance once its preparation has ended: ready when it ended
    /// well, the error it stopped with otherwise.
    pub fn setup(self, machine: SetupMachine) -> (r: Result<OdooInstance<Ready>, OdooPodError>)
        requires
            machine.stage_of() is Done || machine.stage_of() is Failed,
            machine.config_of() == self@.config,
            machine.odoo_path_of() == self@.odoo_path,
        ensures
            lifted(r) == (match machine.stage_of() {
                SetupStage::Failed(e) => Err::<InstanceView, ErrorView>(e@),
                _ => Ok(self@.halted()),
            }),
            r is Ok ==> visits(SetupStage::InstallPython, machine.history(), SetupStage::InstallRequirements),
    {
        proof {
            use_type_invariant(&machine);
            if machine.stage is Done {
                lemma_done_installs_requirements(SetupStage::InstallPython, machine.history@);
            }
        }
        match machine.stage {
            SetupStage::Failed(e) => Err(e),
            _ => Ok(OdooInstance {
                config: self.config,
                uv: self.uv,
                postgres: self.postgres,
                child: None,
                odoo_path: self.odoo_path,
                _state: PhantomData,
            }),
        }
    }
}

} // verus!
