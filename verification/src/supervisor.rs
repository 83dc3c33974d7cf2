//! The supervisor of the sidecar: how it is started and stopped, what its status
//! is, and how a sidecar left over from an earlier session is taken over.

use crate::installer::{Platform, VersionMetadata};
use crate::text::{contains, decimal, occurs_in, optional_text, same_text, u64_to_string};
use crate::version::installed_version;
use vstd::prelude::*;
use vstd::string::*;

verus! {

/// The settle interval: how long a new process has to stay alive for the start to
/// count, in seconds.
pub const SETTLE_SECONDS: u64 = 1;

/// How long the sidecar is given to warm up before the first probe, in seconds.
pub const WARM_UP_SECONDS: u64 = 3;

/// The time that the probe after a start may take, in seconds.
pub const STARTUP_PROBE_TIMEOUT_SECONDS: u64 = 10;

/// The time that the probe of a status query may take, in seconds.
pub const STATUS_PROBE_TIMEOUT_SECONDS: u64 = 5;

/// How the sidecar is to be started. A start takes a fresh one; it never changes
/// while the process runs.
#[derive(Clone, Debug, PartialEq, Eq)]
pub struct ManagedLLMConfig {
    pub port: u16,
    pub host: String,
    pub model: Option<String>,
    pub model_filename: Option<String>,
    pub model_path: Option<String>,
    pub log_level: String,
    pub env_vars: Vec<(String, String)>,
    pub mmproj_repo_id: Option<String>,
    pub mmproj_filename: Option<String>,
    pub chat_format: Option<String>,
}

/// What the application is told about the sidecar.
#[derive(Clone, Debug, PartialEq, Eq)]
pub struct ManagedLLMServerInfo {
    pub status: String,
    pub version: Option<String>,
    pub path: Option<String>,
    pub port: Option<u16>,
    pub error: Option<String>,
}

/// The record that is kept on disk while a sidecar runs.
#[derive(Clone, Debug, PartialEq, Eq)]
pub struct PidFileRecord {
    pub pid: u32,
    pub host: String,
    pub port: u16,
    pub started_at: u64,
}

/// The sidecar that the supervisor knows of. `owned` tells whether this session
/// spawned the process and so holds its handle; a process taken over from an
/// earlier session is known by its pid alone.
#[derive(Clone, Debug, PartialEq, Eq)]
pub struct ServerProcessRecord {
    pub pid: u32,
    pub owned: bool,
    pub config: ManagedLLMConfig,
}

/// How a request to the health endpoint ended.
#[derive(Clone, Debug, PartialEq, Eq)]
pub enum ProbeOutcome {
    /// A response with a success status.
    Success,
    /// A response with another status, given as text.
    BadStatus(String),
    /// No response; the cause as text.
    Unreachable(String),
}

/// What a look at the new process showed once the settle interval was over.
#[derive(Clone, Debug, PartialEq, Eq)]
pub enum ExitCheck {
    StillRunning,
    /// The process has ended, with this exit status.
    Exited(String),
    /// The look itself failed.
    CheckFailed(String),
}

/// Why a start did not succeed.
#[derive(Clone, Debug, PartialEq, Eq)]
pub enum StartError {
    /// No candidate path holds the executable.
    NotFound,
    /// The process could not be spawned.
    SpawnFailed(String),
    /// The process ended within the settle interval.
    ExitedEarly(String),
    /// The process could not be looked at after the settle interval.
    CheckFailed(String),
}

/// How to end the sidecar's process.
#[derive(Clone, Copy, Debug, PartialEq, Eq)]
pub struct StopPlan {
    pub pid: u32,
    /// End the whole process tree with the system's utility, by pid.
    pub tree_kill: bool,
    /// Kill the owned handle and wait for it.
    pub kill_handle: bool,
    /// Send the hard kill signal to the pid.
    pub signal_kill: bool,
}

/// What became of the PID file found at startup.
#[derive(Clone, Copy, Debug, PartialEq, Eq, Structural)]
pub enum ReconnectAction {
    /// There is nothing to do.
    Nothing,
    /// The file is stale: delete it.
    RemovePidFile,
    /// The process it names is our sidecar: it is now the supervisor's record.
    Adopted,
}

/// The supervisor's knowledge: the one sidecar it manages, if any, what it has
/// written to the PID file, and whether it has looked for an orphan yet.
#[derive(Clone, Debug, PartialEq, Eq)]
pub struct Supervisor {
    pub record: Option<ServerProcessRecord>,
    pub pid_file: Option<PidFileRecord>,
    pub reconnect_started: bool,
}

/// A flag and its value where the value is given; nothing where it is not.
pub open spec fn optional_flag(flag: Seq<char>, value: Option<String>) -> Seq<Seq<char>> {
    match value {
        Some(v) => seq![flag, v@],
        None => Seq::empty(),
    }
}

impl ManagedLLMConfig {
    /// The command line of the sidecar: host, port and log level always, then each
    /// optional setting that is present, in a fixed order.
    pub open spec fn args(self) -> Seq<Seq<char>> {
        seq![
            "--host"@,
            self.host@,
            "--port"@,
            decimal(self.port as nat),
            "--log-level"@,
            self.log_level@,
        ] + optional_flag("--model"@, self.model) + optional_flag("--filename"@, self.model_filename)
            + optional_flag("--model-path"@, self.model_path) + optional_flag(
            "--mmproj-repo-id"@,
            self.mmproj_repo_id,
        ) + optional_flag("--mmproj-filename"@, self.mmproj_filename) + optional_flag(
            "--chat-format"@,
            self.chat_format,
        )
    }

    /// No environment variable is set twice: the overrides are a list of pairs of
    /// name and value, and no name stands in two of them.
    pub open spec fn env_keys_distinct(self) -> bool {
        forall|i: int, j: int|
            0 <= i < j < self.env_vars@.len() ==> (#[trigger] self.env_vars@[i]).0@ != (
            #[trigger] self.env_vars@[j]).0@
    }

    /// Whether no environment variable is set twice.
    pub fn has_distinct_env_keys(&self) -> (distinct: bool)
        ensures
            distinct == self.env_keys_distinct(),
    {
        let mut j: usize = 0;
        while j < self.env_vars.len()
            invariant
                j <= self.env_vars@.len(),
                forall|a: int, b: int|
                    0 <= a < b < j ==> (#[trigger] self.env_vars@[a]).0@ != (
                    #[trigger] self.env_vars@[b]).0@,
            decreases self.env_vars@.len() - j,
        {
            let mut i: usize = 0;
            while i < j
                invariant
                    i <= j < self.env_vars@.len(),
                    forall|a: int|
                        0 <= a < i ==> (#[trigger] self.env_vars@[a]).0@ != self.env_vars@[j as int].0@,
                decreases j - i,
            {
                if same_text(self.env_vars[i].0.as_str(), self.env_vars[j].0.as_str()) {
                    return false;
                }
                i += 1;
            }
            j += 1;
        }
        true
    }

    /// The configuration of a sidecar of which only the endpoint is known.
    pub open spec fn is_endpoint_only(self, host: Seq<char>, port: u16) -> bool {
        &&& self.port == port
        &&& self.host@ == host
        &&& self.model is None
        &&& self.model_filename is None
        &&& self.model_path is None
        &&& self.log_level@ == "info"@
        &&& self.env_vars@.len() == 0
        &&& self.mmproj_repo_id is None
        &&& self.mmproj_filename is None
        &&& self.chat_format is None
    }

    /// A configuration that names the endpoint and leaves everything else unset.
    pub fn for_endpoint(host: &str, port: u16) -> (config: ManagedLLMConfig)
        ensures
            config.is_endpoint_only(host@, port),
            config.env_keys_distinct(),
    {
        ManagedLLMConfig {
            port,
            host: String::from_str(host),
            model: None,
            model_filename: None,
            model_path: None,
            log_level: String::from_str("info"),
            env_vars: Vec::new(),
            mmproj_repo_id: None,
            mmproj_filename: None,
            chat_format: None,
        }
    }

    /// Builds the argument list from the fields that are present.
    pub fn build_args(&self) -> (args: Vec<String>)
        ensures
            args.deep_view() == self.args(),
    {
        let mut args: Vec<String> = Vec::new();
        args.push(String::from_str("--host"));
        args.push(self.host.clone());
        args.push(String::from_str("--port"));
        args.push(u64_to_string(self.port as u64));
        args.push(String::from_str("--log-level"));
        args.push(self.log_level.clone());
        push_optional_flag(&mut args, "--model", &self.model);
        push_optional_flag(&mut args, "--filename", &self.model_filename);
        push_optional_flag(&mut args, "--model-path", &self.model_path);
        push_optional_flag(&mut args, "--mmproj-repo-id", &self.mmproj_repo_id);
        push_optional_flag(&mut args, "--mmproj-filename", &self.mmproj_filename);
        push_optional_flag(&mut args, "--chat-format", &self.chat_format);
        args
    }
}

fn push_optional_flag(args: &mut Vec<String>, flag: &str, value: &Option<String>)
    ensures
        final(args).deep_view() == old(args).deep_view() + optional_flag(flag@, *value),
{
    match value {
        Some(v) => {
            args.push(String::from_str(flag));
            args.push(v.clone());
        },
        None => {
        },
    }
}


/// The paths, relative to the server directory, at which the executable may lie,
/// in the order in which they are tried.
pub open spec fn candidates_of(platform: Platform) -> Seq<Seq<char>> {
    match platform {
        Platform::Windows => seq![
            "ollama_server/ollama_server.exe"@,
            "ollama_server.exe"@,
            "ollama_server/ollama_server/ollama_server.exe"@,
        ],
        Platform::MacOs => seq![
            "mlx_server/mlx_server"@,
            "mlx_server"@,
            "mlx_server/mlx_server/mlx_server"@,
        ],
        Platform::Linux => seq![
            "ollama_server/ollama_server"@,
            "ollama_server"@,
            "ollama_server/ollama_server/ollama_server"@,
        ],
    }
}

/// Lists where to look for the sidecar's executable.
pub fn executable_candidates(platform: Platform) -> (paths: Vec<String>)
    ensures
        paths.deep_view() == candidates_of(platform),
{
    let mut paths: Vec<String> = Vec::new();
    match platform {
        Platform::Windows => {
            paths.push(String::from_str("ollama_server/ollama_server.exe"));
            paths.push(String::from_str("ollama_server.exe"));
            paths.push(String::from_str("ollama_server/ollama_server/ollama_server.exe"));
        },
        Platform::MacOs => {
            paths.push(String::from_str("mlx_server/mlx_server"));
            paths.push(String::from_str("mlx_server"));
            paths.push(String::from_str("mlx_server/mlx_server/mlx_server"));
        },
        Platform::Linux => {
            paths.push(String::from_str("ollama_server/ollama_server"));
            paths.push(String::from_str("ollama_server"));
            paths.push(String::from_str("ollama_server/ollama_server/ollama_server"));
        },
    }
    paths
}

/// Picks the executable: the first candidate that exists. `exists[k]` tells whether
/// the `k`-th candidate was found on disk.
pub fn resolve_executable(exists: &Vec<bool>) -> (choice: Option<usize>)
    ensures
        match choice {
            Some(k) => k < exists@.len() && exists@[k as int] && forall|j: int|
                0 <= j < k ==> !exists@[j],
            None => forall|j: int| 0 <= j < exists@.len() ==> !exists@[j],
        },
{
    let mut k: usize = 0;
    while k < exists.len()
        invariant
            k <= exists@.len(),
            forall|j: int| 0 <= j < k ==> !exists@[j],
        decreases exists@.len() - k,
    {
        if exists[k] {
            return Some(k);
        }
        k += 1;
    }
    None
}

/// The address of the health endpoint.
pub open spec fn health_url_of(host: Seq<char>, port: u16) -> Seq<char> {
    "http://"@ + host + ":"@ + decimal(port as nat) + "/v1/models"@
}

/// Builds the address that a liveness probe asks.
pub fn health_url(host: &str, port: u16) -> (url: String)
    ensures
        url@ == health_url_of(host@, port),
{
    let mut url = String::from_str("http://");
    url.append(host);
    url.append(":");
    url.append(u64_to_string(port as u64).as_str());
    url.append("/v1/models");
    url
}

/// The words in which a probe's failure is reported; nothing for a success.
pub open spec fn probe_error_of(probe: ProbeOutcome) -> Option<Seq<char>> {
    match probe {
        ProbeOutcome::Success => None,
        ProbeOutcome::BadStatus(status) => Some("Server responded with status: "@ + status@),
        ProbeOutcome::Unreachable(cause) => Some("Connection failed: "@ + cause@),
    }
}

impl ManagedLLMServerInfo {
    /// This is the report for a sidecar whose executable lies at `executable`, if it
    /// lies anywhere, whose installed version is recorded as `version`, if it is
    /// recorded, and whose endpoint at `port` answered a probe with `probe`.
    /// Without an executable it is not downloaded. With one it is running where the
    /// probe succeeded, and otherwise downloaded, with the probe's failure as error.
    pub open spec fn reports(
        self,
        executable: Option<Seq<char>>,
        version: Option<Seq<char>>,
        port: u16,
        probe: ProbeOutcome,
    ) -> bool {
        match executable {
            None => {
                &&& self.status@ == "not_downloaded"@
                &&& self.version is None
                &&& self.path is None
                &&& self.port is None
                &&& self.error is None
            },
            Some(path) => {
                &&& self.status@ == if probe is Success {
                    "running"@
                } else {
                    "downloaded"@
                }
                &&& optional_text(self.version) == version
                &&& optional_text(self.path) == Some(path)
                &&& self.port == Some(port)
                &&& optional_text(self.error) == probe_error_of(probe)
            },
        }
    }

    /// This is the report of a failure that kept the status from being found out.
    pub open spec fn reports_failure(self, message: Seq<char>) -> bool {
        &&& self.status@ == "error"@
        &&& self.version is None
        &&& self.path is None
        &&& self.port is None
        &&& optional_text(self.error) == Some(message)
    }

    /// The report of a failure.
    pub fn failed(message: &str) -> (info: ManagedLLMServerInfo)
        ensures
            info.reports_failure(message@),
    {
        ManagedLLMServerInfo {
            status: String::from_str("error"),
            version: None,
            path: None,
            port: None,
            error: Some(String::from_str(message)),
        }
    }
}

/// Works out the sidecar's status from what was found: the executable's path, if any
/// candidate exists, the record of the installed version, if there is one, and
/// the outcome of the probe of its endpoint. Without an executable no probe is
/// needed, and `probe` is not looked at.
pub fn server_status(
    executable: Option<&str>,
    installed: &Option<VersionMetadata>,
    port: u16,
    probe: &ProbeOutcome,
) -> (info: ManagedLLMServerInfo)
    ensures
        info.reports(
            match executable {
                Some(p) => Some(p@),
                None => None,
            },
            installed_version(*installed),
            port,
            *probe,
        ),
{
    match executable {
        None => ManagedLLMServerInfo {
            status: String::from_str("not_downloaded"),
            version: None,
            path: None,
            port: None,
            error: None,
        },
        Some(path) => {
            let (status, error) = match probe {
                ProbeOutcome::Success => (String::from_str("running"), None),
                ProbeOutcome::BadStatus(code) => {
                    let mut message = String::from_str("Server responded with status: ");
                    message.append(code.as_str());
                    (String::from_str("downloaded"), Some(message))
                },
                ProbeOutcome::Unreachable(cause) => {
                    let mut message = String::from_str("Connection failed: ");
                    message.append(cause.as_str());
                    (String::from_str("downloaded"), Some(message))
                },
            };
            let version = match installed {
                Some(metadata) => Some(metadata.version.clone()),
                None => None,
            };
            ManagedLLMServerInfo {
                status,
                version,
                path: Some(String::from_str(path)),
                port: Some(port),
                error,
            }
        },
    }
}

/// The words in which a failed start is reported.
pub open spec fn start_error_text(error: StartError) -> Seq<char> {
    match error {
        StartError::NotFound => "Server binary not found. Please download it first."@,
        StartError::SpawnFailed(cause) => "Failed to start server: "@ + cause@,
        StartError::ExitedEarly(status) => "Server process exited immediately with status: "@
            + status@,
        StartError::CheckFailed(cause) => "Error checking server status: "@ + cause@,
    }
}

impl StartError {
    /// Describes the failure.
    pub fn message(&self) -> (text: String)
        ensures
            text@ == start_error_text(*self),
    {
        match self {
            StartError::NotFound => String::from_str(
                "Server binary not found. Please download it first.",
            ),
            StartError::SpawnFailed(cause) => {
                let mut text = String::from_str("Failed to start server: ");
                text.append(cause.as_str());
                text
            },
            StartError::ExitedEarly(status) => {
                let mut text = String::from_str("Server process exited immediately with status: ");
                text.append(status.as_str());
                text
            },
            StartError::CheckFailed(cause) => {
                let mut text = String::from_str("Error checking server status: ");
                text.append(cause.as_str());
                text
            },
        }
    }
}

/// The words in which a start that succeeded is reported.
pub open spec fn started_text(host: Seq<char>, port: u16) -> Seq<char> {
    "Server started on "@ + host + ":"@ + decimal(port as nat)
}

/// Reports a start that succeeded.
pub fn started_message(host: &str, port: u16) -> (text: String)
    ensures
        text@ == started_text(host@, port),
{
    let mut text = String::from_str("Server started on ");
    text.append(host);
    text.append(":");
    text.append(u64_to_string(port as u64).as_str());
    text
}

/// Whether the system has a utility that ends a whole process tree by pid.
pub open spec fn has_tree_kill(platform: Platform) -> bool {
    platform == Platform::Windows
}

impl Supervisor {
    /// A supervisor that knows of no sidecar.
    pub fn new() -> (supervisor: Supervisor)
        ensures
            supervisor.record is None,
            supervisor.pid_file is None,
            !supervisor.reconnect_started,
    {
        Supervisor { record: None, pid_file: None, reconnect_started: false }
    }

    /// Whether a sidecar is on record.
    pub fn is_running(&self) -> (running: bool)
        ensures
            running == (self.record is Some),
    {
        self.record.is_some()
    }

    /// The endpoint to probe: that of the sidecar on record, or the default one.
    pub open spec fn target(self) -> (Seq<char>, u16) {
        match self.record {
            Some(record) => (record.config.host@, record.config.port),
            None => ("127.0.0.1"@, 8000u16),
        }
    }

    /// The host and port at which the sidecar is expected to answer.
    pub fn probe_target(&self) -> (target: (String, u16))
        ensures
            (target.0@, target.1) == self.target(),
    {
        match &self.record {
            Some(record) => (record.config.host.clone(), record.config.port),
            None => (String::from_str("127.0.0.1"), 8000),
        }
    }

    /// The supervisor once the process `pid`, spawned with `config`, was found alive
    /// at `now`: the process is on record, owned by this session, and the PID file
    /// names it.
    pub open spec fn started_with(self, pid: u32, config: ManagedLLMConfig, now: u64)
        -> Supervisor {
        Supervisor {
            record: Some(ServerProcessRecord { pid, owned: true, config }),
            pid_file: Some(
                PidFileRecord { pid, host: config.host, port: config.port, started_at: now },
            ),
            reconnect_started: self.reconnect_started,
        }
    }

    /// The supervisor after a look at the new process: a process that is still
    /// running is taken on record; any other outcome leaves the supervisor as it was.
    pub open spec fn after_check(
        self,
        pid: u32,
        config: ManagedLLMConfig,
        check: ExitCheck,
        now: u64,
    ) -> Supervisor {
        match check {
            ExitCheck::StillRunning => self.started_with(pid, config, now),
            _ => self,
        }
    }

    /// What the look at the new process means for the start: the PID file's record
    /// to write, or the failure.
    pub open spec fn check_outcome(pid: u32, config: ManagedLLMConfig, check: ExitCheck, now: u64)
        -> Result<PidFileRecord, StartError> {
        match check {
            ExitCheck::StillRunning => Ok(
                PidFileRecord { pid, host: config.host, port: config.port, started_at: now },
            ),
            ExitCheck::Exited(status) => Err(StartError::ExitedEarly(status)),
            ExitCheck::CheckFailed(cause) => Err(StartError::CheckFailed(cause)),
        }
    }

    /// The supervisor after a stop: without a record it is as before; with one, the
    /// record and the PID file are gone.
    pub open spec fn stopped(self) -> Supervisor {
        match self.record {
            None => self,
            Some(_) => Supervisor {
                record: None,
                pid_file: None,
                reconnect_started: self.reconnect_started,
            },
        }
    }

    /// How to end the process on record, if there is one: by the system's tree kill
    /// where there is one, by the hard kill signal where there is none, and through
    /// the owned handle wherever this session holds it.
    pub open spec fn stop_plan(self, platform: Platform) -> Option<StopPlan> {
        match self.record {
            None => None,
            Some(record) => Some(
                StopPlan {
                    pid: record.pid,
                    tree_kill: has_tree_kill(platform),
                    kill_handle: record.owned,
                    signal_kill: !has_tree_kill(platform),
                },
            ),
        }
    }

    /// `after` and `action` are what becomes of `self` when the PID file of an
    /// earlier session is settled. `found` is the file's record, if the file
    /// exists; `alive` tells whether its pid is a live process and `responsive`
    /// whether its endpoint answered a probe.
    ///
    /// A supervisor that has a sidecar on record, or finds no file, stays as it
    /// is. A live and responsive process becomes the sidecar on record, not owned
    /// by this session and known by its endpoint alone. A dead or unresponsive one
    /// makes the file stale: it is to be removed, and no record is made.
    pub open spec fn reconnects(
        self,
        found: Option<PidFileRecord>,
        alive: bool,
        responsive: bool,
        after: Supervisor,
        action: ReconnectAction,
    ) -> bool {
        &&& after.reconnect_started == self.reconnect_started
        &&& if self.record is Some || found is None {
            action == ReconnectAction::Nothing && after == self
        } else if alive && responsive {
            &&& action == ReconnectAction::Adopted
            &&& after.record is Some
            &&& after.record->0.pid == found->0.pid
            &&& !after.record->0.owned
            &&& after.record->0.config.is_endpoint_only(found->0.host@, found->0.port)
            &&& after.pid_file == found
        } else {
            &&& action == ReconnectAction::RemovePidFile
            &&& after.record is None
            &&& after.pid_file is None
        }
    }

    /// Takes note of a process that was spawned with `config` and looked at once the
    /// settle interval was over. A process that is still running becomes the
    /// sidecar on record, owned by this session, and the PID file's record is
    /// returned to be written. A process that has ended, or that could not be
    /// looked at, is a failed start and leaves the supervisor as it was.
    pub fn confirm_start(&mut self, pid: u32, config: ManagedLLMConfig, check: ExitCheck, now: u64)
        -> (outcome: Result<PidFileRecord, StartError>)
        ensures
            outcome == Supervisor::check_outcome(pid, config, check, now),
            *final(self) == old(self).after_check(pid, config, check, now),
    {
        match check {
            ExitCheck::StillRunning => {
                let written = PidFileRecord {
                    pid,
                    host: config.host.clone(),
                    port: config.port,
                    started_at: now,
                };
                let kept = PidFileRecord {
                    pid,
                    host: config.host.clone(),
                    port: config.port,
                    started_at: now,
                };
                self.record = Some(ServerProcessRecord { pid, owned: true, config });
                self.pid_file = Some(kept);
                Ok(written)
            },
            ExitCheck::Exited(status) => Err(StartError::ExitedEarly(status)),
            ExitCheck::CheckFailed(cause) => Err(StartError::CheckFailed(cause)),
        }
    }

    /// Stops the sidecar. Where none is on record this does nothing. Otherwise the
    /// record and the PID file are given up, whatever becomes of the process, and
    /// the plan says how to end it; the caller carries it out and removes the file.
    pub fn stop(&mut self, platform: Platform) -> (plan: Option<StopPlan>)
        ensures
            plan == old(self).stop_plan(platform),
            *final(self) == old(self).stopped(),
    {
        let tree_kill = match platform {
            Platform::Windows => true,
            _ => false,
        };
        match self.record.take() {
            None => None,
            Some(record) => {
                self.pid_file = None;
                Some(
                    StopPlan {
                        pid: record.pid,
                        tree_kill,
                        kill_handle: record.owned,
                        signal_kill: !tree_kill,
                    },
                )
            },
        }
    }

    /// Claims the one look for an orphan that a session makes: `true` the first
    /// time it is called on a supervisor, `false` ever after.
    pub fn begin_reconnect(&mut self) -> (proceed: bool)
        ensures
            proceed == !old(self).reconnect_started,
            final(self).reconnect_started,
            final(self).record == old(self).record,
            final(self).pid_file == old(self).pid_file,
    {
        let proceed = !self.reconnect_started;
        self.reconnect_started = true;
        proceed
    }

    /// Settles what the PID file of an earlier session means. `found` is the file's
    /// record, if the file exists; `alive` tells whether its pid is a live process
    /// and `responsive` whether its endpoint answered a probe. No process is
    /// spawned on the way: a sidecar that is found is taken over as it runs.
    pub fn finish_reconnect(&mut self, found: Option<PidFileRecord>, alive: bool, responsive: bool)
        -> (action: ReconnectAction)
        ensures
            old(self).reconnects(found, alive, responsive, *final(self), action),
    {
        if self.record.is_some() {
            return ReconnectAction::Nothing;
        }
        match found {
            None => ReconnectAction::Nothing,
            Some(file) => {
                if alive && responsive {
                    let config = ManagedLLMConfig::for_endpoint(file.host.as_str(), file.port);
                    self.record = Some(ServerProcessRecord { pid: file.pid, owned: false, config });
                    self.pid_file = Some(file);
                    ReconnectAction::Adopted
                } else {
                    self.pid_file = None;
                    ReconnectAction::RemovePidFile
                }
            },
        }
    }
}

/// The words in which a stop is reported.
pub fn stopped_message(plan: &Option<StopPlan>) -> (text: &'static str)
    ensures
        text@ == if plan is Some {
            "Server stopped"@
        } else {
            "Server was not running"@
        },
{
    match plan {
        Some(_) => "Server stopped",
        None => "Server was not running",
    }
}


/// The command of the system's utility that ends the process tree of `pid`.
pub open spec fn tree_kill_command_of(pid: u32) -> Seq<Seq<char>> {
    seq!["taskkill"@, "/F"@, "/T"@, "/PID"@, decimal(pid as nat)]
}

/// The command that sends the hard kill signal to `pid`.
pub open spec fn signal_kill_command_of(pid: u32) -> Seq<Seq<char>> {
    seq!["kill"@, "-9"@, decimal(pid as nat)]
}

/// The commands that look up whether `pid` is a live process: where there is a
/// tree kill, the system's task list, filtered by the pid; elsewhere the null
/// signal, which reaches a live process and no other.
pub open spec fn liveness_command_of(platform: Platform, pid: u32) -> Seq<Seq<char>> {
    if has_tree_kill(platform) {
        seq!["tasklist"@, "/FI"@, "PID eq "@ + decimal(pid as nat), "/NH"@]
    } else {
        seq!["kill"@, "-0"@, decimal(pid as nat)]
    }
}

/// The commands that a stop runs, in order: the program's name, then its
/// arguments. The owned handle is killed by the caller, not by a command.
pub open spec fn kill_commands_of(plan: StopPlan) -> Seq<Seq<Seq<char>>> {
    (if plan.tree_kill {
        seq![tree_kill_command_of(plan.pid)]
    } else {
        Seq::empty()
    }) + (if plan.signal_kill {
        seq![signal_kill_command_of(plan.pid)]
    } else {
        Seq::empty()
    })
}

fn tree_kill_command(pid: u32) -> (command: Vec<String>)
    ensures
        command.deep_view() == tree_kill_command_of(pid),
{
    let mut command: Vec<String> = Vec::new();
    command.push(String::from_str("taskkill"));
    command.push(String::from_str("/F"));
    command.push(String::from_str("/T"));
    command.push(String::from_str("/PID"));
    command.push(u64_to_string(pid as u64));
    command
}

fn signal_kill_command(pid: u32) -> (command: Vec<String>)
    ensures
        command.deep_view() == signal_kill_command_of(pid),
{
    let mut command: Vec<String> = Vec::new();
    command.push(String::from_str("kill"));
    command.push(String::from_str("-9"));
    command.push(u64_to_string(pid as u64));
    command
}

/// Builds the command that tells whether `pid` is a live process. What its result
/// means, `process_alive` says.
pub fn liveness_command(platform: Platform, pid: u32) -> (command: Vec<String>)
    ensures
        command.deep_view() == liveness_command_of(platform, pid),
{
    let mut command: Vec<String> = Vec::new();
    match platform {
        Platform::Windows => {
            command.push(String::from_str("tasklist"));
            command.push(String::from_str("/FI"));
            let mut filter = String::from_str("PID eq ");
            filter.append(u64_to_string(pid as u64).as_str());
            command.push(filter);
            command.push(String::from_str("/NH"));
        },
        _ => {
            command.push(String::from_str("kill"));
            command.push(String::from_str("-0"));
            command.push(u64_to_string(pid as u64));
        },
    }
    command
}

/// Reads the result of the liveness command for `pid`. `succeeded` tells whether
/// the command ended with success, and `output` is what it wrote. On a system
/// with a tree kill the process is alive where the output names the pid;
/// elsewhere it is alive where the command succeeded.
pub fn process_alive(platform: Platform, pid: u32, succeeded: bool, output: &str) -> (alive: bool)
    ensures
        alive == if has_tree_kill(platform) {
            occurs_in(decimal(pid as nat), output@)
        } else {
            succeeded
        },
{
    match platform {
        Platform::Windows => contains(output, u64_to_string(pid as u64).as_str()),
        _ => succeeded,
    }
}

impl StopPlan {
    /// Builds the commands that carry out the plan.
    pub fn kill_commands(&self) -> (commands: Vec<Vec<String>>)
        ensures
            commands.deep_view() == kill_commands_of(*self),
    {
        let mut commands: Vec<Vec<String>> = Vec::new();
        if self.tree_kill {
            commands.push(tree_kill_command(self.pid));
        }
        if self.signal_kill {
            commands.push(signal_kill_command(self.pid));
        }
        commands
    }
}

/// The steps of a start, in the order in which they run.
#[derive(Clone, Copy, Debug, PartialEq, Eq, Structural)]
pub enum StartStage {
    /// Stop the sidecar on record, if there is one.
    StopExisting,
    /// Look for the executable among the candidate paths.
    ResolveExecutable,
    /// Spawn the process, its output suppressed and its errors inherited.
    Spawn,
    /// Wait for the settle interval and look whether the process has ended.
    Settle,
    /// Write the PID file and keep the record.
    Persist,
    /// Probe the health endpoint, without waiting for the answer.
    Probe,
}

/// What to do after a step of a start has ended.
#[derive(Clone, Copy, Debug, PartialEq, Eq, Structural)]
pub enum StartNext {
    /// Run this step next.
    Run(StartStage),
    /// The start has succeeded.
    Succeed,
    /// The start has failed.
    Fail,
}

/// What follows a step of a start that ended with success (`ok`) or without. A
/// sidecar that cannot be stopped does not keep the next one from starting.
/// Without an executable, without a process, or with a process that does not
/// outlive the settle interval, the start fails. Once the process has outlived it,
/// the start succeeds, whatever becomes of the PID file and of the probe.
pub open spec fn start_next_of(stage: StartStage, ok: bool) -> StartNext {
    match stage {
        StartStage::StopExisting => StartNext::Run(StartStage::ResolveExecutable),
        StartStage::ResolveExecutable => if ok {
            StartNext::Run(StartStage::Spawn)
        } else {
            StartNext::Fail
        },
        StartStage::Spawn => if ok {
            StartNext::Run(StartStage::Settle)
        } else {
            StartNext::Fail
        },
        StartStage::Settle => if ok {
            StartNext::Run(StartStage::Persist)
        } else {
            StartNext::Fail
        },
        StartStage::Persist => StartNext::Run(StartStage::Probe),
        StartStage::Probe => StartNext::Succeed,
    }
}

/// The step with which a start begins.
pub fn start_begin() -> (stage: StartStage)
    ensures
        stage == StartStage::StopExisting,
{
    StartStage::StopExisting
}

/// Decides what follows a step of a start.
pub fn start_next(stage: StartStage, ok: bool) -> (next: StartNext)
    ensures
        next == start_next_of(stage, ok),
{
    match stage {
        StartStage::StopExisting => StartNext::Run(StartStage::ResolveExecutable),
        StartStage::ResolveExecutable => if ok {
            StartNext::Run(StartStage::Spawn)
        } else {
            StartNext::Fail
        },
        StartStage::Spawn => if ok {
            StartNext::Run(StartStage::Settle)
        } else {
            StartNext::Fail
        },
        StartStage::Settle => if ok {
            StartNext::Run(StartStage::Persist)
        } else {
            StartNext::Fail
        },
        StartStage::Persist => StartNext::Run(StartStage::Probe),
        StartStage::Probe => StartNext::Succeed,
    }
}

/// A start followed at once by a stop leaves nothing behind: whatever the
/// supervisor knew before, and whatever the configuration, once a process that
/// outlived the settle interval was taken on record and then stopped, there is
/// no sidecar on record and no PID file. The stop's plan names the process that
/// the start put on record, and kills it through the handle that the start left.
pub proof fn lemma_start_then_stop(
    supervisor: Supervisor,
    pid: u32,
    config: ManagedLLMConfig,
    now: u64,
    platform: Platform,
)
    ensures
        ({
            let started = supervisor.after_check(pid, config, ExitCheck::StillRunning, now);
            &&& started.record is Some
            &&& started.pid_file is Some
            &&& started.stopped().record is None
            &&& started.stopped().pid_file is None
            &&& started.stop_plan(platform) is Some
            &&& started.stop_plan(platform)->0.pid == pid
            &&& started.stop_plan(platform)->0.kill_handle
        }),
{
}

/// A stop is idempotent: stopping what is stopped changes nothing and plans
/// nothing.
pub proof fn lemma_stop_is_idempotent(supervisor: Supervisor, platform: Platform)
    ensures
        supervisor.stopped().stopped() == supervisor.stopped(),
        supervisor.stopped().stop_plan(platform) is None,
{
}

/// A session that finds the PID file of a live and responsive sidecar takes it
/// over: the sidecar is on record afterwards, under the pid of the file and
/// without a handle, and the file stays. A session that finds the PID file of a
/// dead process removes the file and makes no record. Either way the action is
/// one of the three of `ReconnectAction`, none of which spawns a process.
pub proof fn lemma_orphan_reconnection(
    supervisor: Supervisor,
    found: PidFileRecord,
    alive: bool,
    responsive: bool,
    after: Supervisor,
    action: ReconnectAction,
)
    requires
        supervisor.record is None,
        supervisor.reconnects(Some(found), alive, responsive, after, action),
    ensures
        alive && responsive ==> action == ReconnectAction::Adopted && after.record is Some
            && after.record->0.pid == found.pid && !after.record->0.owned && after.pid_file == Some(
            found,
        ),
        !alive ==> action == ReconnectAction::RemovePidFile && after.record is None
            && after.pid_file is None,
        alive && !responsive ==> action == ReconnectAction::RemovePidFile && after.record is None
            && after.pid_file is None,
{
}

/// At most one sidecar is on record, and what is on record can be stopped: after
/// a sidecar was taken over, a stop plans to end it by its pid alone, without a
/// handle, and leaves no record and no PID file.
pub proof fn lemma_orphan_can_be_stopped(
    supervisor: Supervisor,
    found: PidFileRecord,
    after: Supervisor,
    platform: Platform,
)
    requires
        supervisor.record is None,
        supervisor.reconnects(Some(found), true, true, after, ReconnectAction::Adopted),
    ensures
        after.stop_plan(platform) is Some,
        after.stop_plan(platform)->0.pid == found.pid,
        !after.stop_plan(platform)->0.kill_handle,
        after.stop_plan(platform)->0.tree_kill || after.stop_plan(platform)->0.signal_kill,
        after.stopped().record is None,
        after.stopped().pid_file is None,
{
}


impl Supervisor {
    /// The PID file and the record go together: there is a PID file exactly while
    /// a sidecar is on record, and it names that sidecar's process.
    pub open spec fn consistent(self) -> bool {
        match self.record {
            None => self.pid_file is None,
            Some(record) => self.pid_file is Some && self.pid_file->0.pid == record.pid,
        }
    }
}

/// The PID file and the record stay together through every operation of the
/// supervisor: a new supervisor is consistent, and a start, a stop and a
/// reconnection each leave a consistent supervisor behind.
pub proof fn lemma_supervisor_stays_consistent(
    supervisor: Supervisor,
    pid: u32,
    config: ManagedLLMConfig,
    check: ExitCheck,
    now: u64,
    found: Option<PidFileRecord>,
    alive: bool,
    responsive: bool,
    after: Supervisor,
    action: ReconnectAction,
)
    requires
        supervisor.consistent(),
    ensures
        (Supervisor { record: None, pid_file: None, reconnect_started: false }).consistent(),
        supervisor.after_check(pid, config, check, now).consistent(),
        supervisor.stopped().consistent(),
        supervisor.reconnects(found, alive, responsive, after, action) ==> after.consistent(),
{
}

/// How a start ends when its steps end as `outcomes` say, from `stage` on:
/// `Some(true)` for a start that succeeds, `Some(false)` for one that fails, and
/// `None` where `outcomes` is used up before the start has ended.
pub open spec fn start_ends(stage: StartStage, outcomes: Seq<bool>) -> Option<bool>
    decreases outcomes.len(),
{
    if outcomes.len() == 0 {
        None
    } else {
        match start_next_of(stage, outcomes[0]) {
            StartNext::Run(next) => start_ends(next, outcomes.drop_first()),
            StartNext::Succeed => Some(true),
            StartNext::Fail => Some(false),
        }
    }
}

/// A start succeeds exactly when the executable was found, the process was
/// spawned and the process outlived the settle interval. Whether the sidecar that
/// ran before could be stopped, whether the PID file could be written and
/// whether the probe was answered make no difference.
pub proof fn lemma_start_succeeds_with_a_living_process(
    stopped: bool,
    resolved: bool,
    spawned: bool,
    settled: bool,
    persisted: bool,
    probed: bool,
)
    ensures
        start_ends(
            StartStage::StopExisting,
            seq![stopped, resolved, spawned, settled, persisted, probed],
        ) == Some(resolved && spawned && settled),
{
    let o0 = seq![stopped, resolved, spawned, settled, persisted, probed];
    let o1 = o0.drop_first();
    let o2 = o1.drop_first();
    let o3 = o2.drop_first();
    let o4 = o3.drop_first();
    let o5 = o4.drop_first();
    assert(start_ends(StartStage::Probe, o5) == Some(true));
    assert(start_ends(StartStage::Persist, o4) == Some(true));
    assert(start_ends(StartStage::Settle, o3) == Some(settled));
    assert(start_ends(StartStage::Spawn, o2) == Some(spawned && settled));
    assert(start_ends(StartStage::ResolveExecutable, o1) == Some(resolved && spawned && settled));
}

} // verus!
