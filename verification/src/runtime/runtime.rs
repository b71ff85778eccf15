//! The configuration that a module run starts with and the order of the steps
//! of a run.

use crate::runtime::module_loader::ModulePath;
use crate::text::{decimal, u64_to_string};
use vstd::prelude::*;
use vstd::string::StringExecFns;

verus! {

/// The wallet address of a run that was given none.
pub open spec fn default_wallet_address() -> Seq<char> {
    "t1abjxfbp274xpdqcpuaykwkfb43omjotacm2p3za"@
}

/// The station identifier of a run that was given none: 88 zeros, easy to
/// tell from the identifier of a system in production.
pub open spec fn default_station_id() -> Seq<char> {
    Seq::new(88, |i: int| '0')
}

/// The options that a module run starts with.
#[derive(Debug)]
pub struct BootstrapOptions {
    pub no_color: bool,
    pub is_tty: bool,
    /// The agent version for HTTP requests and for the identify protocol.
    pub agent_version: String,
    /// Seed of the random number generator, for runs that must repeat.
    pub rng_seed: Option<u64>,
    /// The canonical directory under which every imported module must lie.
    pub module_root: Option<ModulePath>,
    /// Filecoin wallet address.
    pub wallet_address: String,
    /// The unique identifier of the Filecoin Station.
    pub station_id: String,
    /// The version that module code is told.
    pub zinnia_version: String,
}

/// What module code can read of the process before it runs. The embedding
/// hands it to the script engine as one JSON object with the fields
/// `noColor`, `isTty`, `walletAddress`, `stationId`, `lassieUrl`,
/// `lassieAuth`, `zinniaVersion` and `v8Version`.
#[derive(Debug)]
pub struct BootstrapPayload {
    pub no_color: bool,
    pub is_tty: bool,
    pub wallet_address: String,
    pub station_id: String,
    /// The URL of the retrieval daemon on the local host.
    pub lassie_url: String,
    /// The value of the `Authorization` header for the retrieval daemon.
    pub lassie_auth: Option<String>,
    pub zinnia_version: String,
    pub v8_version: String,
}

/// The URL of the retrieval daemon that listens on `port`.
pub open spec fn lassie_url(port: u16) -> Seq<char> {
    "http://127.0.0.1:"@ + decimal(port as nat) + "/"@
}

/// The value of the `Authorization` header for the access token `token`.
pub open spec fn bearer(token: Seq<char>) -> Seq<char> {
    "Bearer "@ + token
}

/// The script that starts the runtime with the configuration `json`.
pub open spec fn spec_bootstrap_script(json: Seq<char>) -> Seq<char> {
    "bootstrap.mainRuntime("@ + json + ")"@
}

/// The script that starts the runtime with the configuration `json`.
pub fn bootstrap_script(json: &str) -> (script: String)
    ensures
        script@ == spec_bootstrap_script(json@),
{
    let mut script = String::from_str("bootstrap.mainRuntime(");
    script.append(json);
    script.append(")");
    script
}

impl BootstrapOptions {
    /// The options of a run with the given agent version and module root,
    /// with the default wallet address and station identifier, no seed, and
    /// this library's version. `use_color` and `is_tty` tell of the console.
    pub fn new(agent_version: String, module_root: Option<ModulePath>, use_color: bool, is_tty: bool) -> (options:
        Self)
        ensures
            options.no_color == !use_color,
            options.is_tty == is_tty,
            options.agent_version == agent_version,
            options.rng_seed is None,
            options.module_root == module_root,
            options.wallet_address@ == default_wallet_address(),
            options.station_id@ == default_station_id(),
            options.zinnia_version@ == crate::peer::config::spec_version(),
    {
        let mut station_id = String::new();
        let mut i: usize = 0;
        proof {
            reveal_strlit("0");
        }
        while i < 88
            invariant
                i <= 88,
                "0"@ == seq!['0'],
                station_id@ == Seq::new(i as nat, |k: int| '0'),
            decreases 88 - i,
        {
            station_id.append("0");
            assert(station_id@ =~= Seq::new((i + 1) as nat, |k: int| '0'));
            i = i + 1;
        }
        Self {
            no_color: !use_color,
            is_tty,
            agent_version,
            rng_seed: None,
            module_root,
            wallet_address: String::from_str("t1abjxfbp274xpdqcpuaykwkfb43omjotacm2p3za"),
            station_id,
            zinnia_version: String::from_str(crate::peer::config::version()),
        }
    }

    /// What module code can read of the process, given the port and the
    /// access token of the retrieval daemon and the version of the script
    /// engine.
    pub fn as_json(&self, lassie_port: u16, lassie_access_token: Option<&str>, v8_version: &str) -> (payload:
        BootstrapPayload)
        ensures
            payload.no_color == self.no_color,
            payload.is_tty == self.is_tty,
            payload.wallet_address@ == self.wallet_address@,
            payload.station_id@ == self.station_id@,
            payload.lassie_url@ == lassie_url(lassie_port),
            match lassie_access_token {
                Some(token) => payload.lassie_auth matches Some(auth) && auth@ == bearer(token@),
                None => payload.lassie_auth is None,
            },
            payload.zinnia_version@ == self.zinnia_version@,
            payload.v8_version@ == v8_version@,
    {
        let mut url = String::from_str("http://127.0.0.1:");
        url.append(u64_to_string(lassie_port as u64).as_str());
        url.append("/");
        let lassie_auth = match lassie_access_token {
            Some(token) => {
                let mut auth = String::from_str("Bearer ");
                auth.append(token);
                Some(auth)
            },
            None => None,
        };
        BootstrapPayload {
            no_color: self.no_color,
            is_tty: self.is_tty,
            wallet_address: self.wallet_address.clone(),
            station_id: self.station_id.clone(),
            lassie_url: url,
            lassie_auth,
            zinnia_version: self.zinnia_version.clone(),
            v8_version: String::from_str(v8_version),
        }
    }
}

/// One day in milliseconds.
pub const ONE_DAY: u64 = 86400000;

/// The configuration of the retrieval daemon. The timeouts are in
/// milliseconds.
#[derive(Debug)]
pub struct DaemonConfig {
    /// The port to listen on; 0 lets the system choose one.
    pub port: u16,
    /// The token that every request must bear.
    pub access_token: Option<String>,
    /// The directory for temporary files; `None` for the one of the system.
    pub temp_dir: Option<String>,
    pub provider_timeout: Option<u64>,
    pub global_timeout: Option<u64>,
}

/// The configuration of the retrieval daemon that both programs start from:
/// any free port, the given access token, and a day for every timeout. The
/// token must not be empty: the daemon is to refuse every request that does
/// not bear it.
pub fn lassie_config(access_token: String) -> (config: DaemonConfig)
    requires
        access_token@.len() > 0,
    ensures
        config.port == 0,
        config.access_token == Some(access_token),
        config.temp_dir is None,
        config.provider_timeout == Some(ONE_DAY),
        config.global_timeout == Some(ONE_DAY),
{
    DaemonConfig {
        port: 0,
        access_token: Some(access_token),
        temp_dir: None,
        provider_timeout: Some(ONE_DAY),
        global_timeout: Some(ONE_DAY),
    }
}

/// Where a module run stands.
#[derive(Clone, Copy, Debug, PartialEq, Eq, Structural)]
pub enum RunStage {
    /// The bootstrap script is being executed.
    Bootstrapping,
    /// The main module is being loaded.
    Loading,
    /// The main module is being evaluated and the event loop runs until the
    /// work of the module is done.
    Running,
    /// The result of the evaluation is awaited.
    Evaluating,
    /// The network subsystem is being shut down.
    ShuttingDown,
    /// The run is over.
    Done,
}

/// The kind of a step of a run.
#[derive(Clone, Copy, Debug, PartialEq, Eq, Structural)]
pub enum RunStepKind {
    LoadMainModule,
    RunEventLoop,
    AwaitEvaluation,
    ShutdownNetwork,
    Finish,
}

/// What a run does next.
#[derive(Debug)]
pub enum RunStep {
    /// Load the main module.
    LoadMainModule,
    /// Start the evaluation of the main module and run the event loop until
    /// it is idle.
    RunEventLoop,
    /// Wait for the result of the evaluation.
    AwaitEvaluation,
    /// Shut the network subsystem down.
    ShutdownNetwork,
    /// Return this to the caller.
    Finish(Result<(), String>),
}

impl RunStep {
    /// The kind of the step.
    pub open spec fn kind(self) -> RunStepKind {
        match self {
            RunStep::LoadMainModule => RunStepKind::LoadMainModule,
            RunStep::RunEventLoop => RunStepKind::RunEventLoop,
            RunStep::AwaitEvaluation => RunStepKind::AwaitEvaluation,
            RunStep::ShutdownNetwork => RunStepKind::ShutdownNetwork,
            RunStep::Finish(_) => RunStepKind::Finish,
        }
    }
}

/// A run, apart from how it is stored.
pub struct RunState {
    pub stage: RunStage,
    /// The first failure of the run, kept until the run ends.
    pub failure: Option<Seq<char>>,
}

/// The text of an outcome that failed.
pub open spec fn failure_of(outcome: Result<(), String>) -> Option<Seq<char>> {
    match outcome {
        Ok(_) => None,
        Err(e) => Some(e@),
    }
}

impl RunState {
    /// The state after a step ended with `failed`, and the kind of the step
    /// that follows. Each step that succeeds is followed by the next one; a
    /// step that fails is followed by the shutdown of the network subsystem;
    /// when the shutdown has ended, the run ends.
    pub open spec fn step(self, failed: Option<Seq<char>>) -> (RunState, RunStepKind) {
        match self.stage {
            RunStage::ShuttingDown => (
                RunState {
                    stage: RunStage::Done,
                    failure: if self.failure is Some {
                        self.failure
                    } else {
                        failed
                    },
                },
                RunStepKind::Finish,
            ),
            RunStage::Done => (self, RunStepKind::Finish),
            _ => match failed {
                Some(e) => (
                    RunState { stage: RunStage::ShuttingDown, failure: Some(e) },
                    RunStepKind::ShutdownNetwork,
                ),
                None => match self.stage {
                    RunStage::Bootstrapping => (
                        RunState { stage: RunStage::Loading, failure: None },
                        RunStepKind::LoadMainModule,
                    ),
                    RunStage::Loading => (
                        RunState { stage: RunStage::Running, failure: None },
                        RunStepKind::RunEventLoop,
                    ),
                    RunStage::Running => (
                        RunState { stage: RunStage::Evaluating, failure: None },
                        RunStepKind::AwaitEvaluation,
                    ),
                    _ => (
                        RunState { stage: RunStage::ShuttingDown, failure: self.failure },
                        RunStepKind::ShutdownNetwork,
                    ),
                },
            },
        }
    }

    /// The kinds of the steps that follow a run of outcomes, one for each.
    pub open spec fn kinds(self, outcomes: Seq<Option<Seq<char>>>) -> Seq<RunStepKind>
        decreases outcomes.len(),
    {
        if outcomes.len() == 0 {
            Seq::empty()
        } else {
            seq![self.step(outcomes[0]).1] + self.step(outcomes[0]).0.kinds(outcomes.drop_first())
        }
    }
}

/// The run of one module.
#[derive(Debug)]
pub struct ModuleRun {
    stage: RunStage,
    failure: Option<String>,
}

impl View for ModuleRun {
    type V = RunState;

    closed spec fn view(&self) -> RunState {
        RunState {
            stage: self.stage,
            failure: match self.failure {
                Some(e) => Some(e@),
                None => None,
            },
        }
    }
}

/// Begins the run of a module: the engine is to execute the bootstrap script
/// with the configuration `config_json` first.
pub fn run_js_module(config_json: &str) -> (begun: (ModuleRun, String))
    ensures
        begun.0@ == (RunState { stage: RunStage::Bootstrapping, failure: None }),
        begun.1@ == spec_bootstrap_script(config_json@),
{
    (ModuleRun { stage: RunStage::Bootstrapping, failure: None }, bootstrap_script(config_json))
}

impl ModuleRun {
    /// Takes the outcome of the last step and says what the run does next.
    /// The network subsystem is shut down before the run ends, whether or
    /// not a step before failed; the run ends with its first failure.
    pub fn advance(&mut self, outcome: Result<(), String>) -> (step: RunStep)
        ensures
            final(self)@ == old(self)@.step(failure_of(outcome)).0,
            step.kind() == old(self)@.step(failure_of(outcome)).1,
            step matches RunStep::Finish(result) ==> failure_of(result) == final(self)@.failure,
    {
        match self.stage {
            RunStage::ShuttingDown => {
                self.stage = RunStage::Done;
                if self.failure.is_none() {
                    if let Err(e) = outcome {
                        self.failure = Some(e);
                    }
                }
                RunStep::Finish(self.result())
            },
            RunStage::Done => RunStep::Finish(self.result()),
            _ => match outcome {
                Err(e) => {
                    self.stage = RunStage::ShuttingDown;
                    self.failure = Some(e);
                    RunStep::ShutdownNetwork
                },
                Ok(_) => match self.stage {
                    RunStage::Bootstrapping => {
                        self.stage = RunStage::Loading;
                        self.failure = None;
                        RunStep::LoadMainModule
                    },
                    RunStage::Loading => {
                        self.stage = RunStage::Running;
                        self.failure = None;
                        RunStep::RunEventLoop
                    },
                    RunStage::Running => {
                        self.stage = RunStage::Evaluating;
                        self.failure = None;
                        RunStep::AwaitEvaluation
                    },
                    _ => {
                        self.stage = RunStage::ShuttingDown;
                        RunStep::ShutdownNetwork
                    },
                },
            },
        }
    }

    /// The result of the run as it stands: its first failure, if there is
    /// one.
    fn result(&self) -> (result: Result<(), String>)
        ensures
            failure_of(result) == self@.failure,
    {
        match &self.failure {
            Some(e) => Err(e.clone()),
            None => Ok(()),
        }
    }
}

/// Every outcome is followed by one step.
pub proof fn lemma_one_step_for_each_outcome(run: RunState, outcomes: Seq<Option<Seq<char>>>)
    ensures
        run.kinds(outcomes).len() == outcomes.len(),
    decreases outcomes.len(),
{
    if outcomes.len() > 0 {
        lemma_one_step_for_each_outcome(run.step(outcomes[0]).0, outcomes.drop_first());
    }
}

/// A run that has not reached its shutdown does not end before the network
/// subsystem has been asked to shut down: the first step that ends the run
/// comes right after the step that shuts the network down.
pub proof fn lemma_shutdown_before_finish(run: RunState, outcomes: Seq<Option<Seq<char>>>, i: int)
    requires
        run.stage != RunStage::ShuttingDown,
        run.stage != RunStage::Done,
        0 <= i < outcomes.len(),
        run.kinds(outcomes)[i] == RunStepKind::Finish,
        forall|j: int| 0 <= j < i ==> run.kinds(outcomes)[j] != RunStepKind::Finish,
    ensures
        i > 0,
        run.kinds(outcomes)[i - 1] == RunStepKind::ShutdownNetwork,
    decreases outcomes.len(),
{
    let next = run.step(outcomes[0]).0;
    let rest = outcomes.drop_first();
    let kinds = run.kinds(outcomes);
    lemma_one_step_for_each_outcome(run, outcomes);
    lemma_one_step_for_each_outcome(next, rest);
    assert(kinds =~= seq![run.step(outcomes[0]).1] + next.kinds(rest));
    assert(kinds[0] != RunStepKind::Finish);
    assert(i > 0);
    assert forall|j: int| 0 <= j < rest.len() implies next.kinds(rest)[j] == kinds[j + 1] by {}
    if next.stage == RunStage::ShuttingDown {
        assert(kinds[0] == RunStepKind::ShutdownNetwork);
        assert(rest.len() > 0);
        lemma_one_step_for_each_outcome(next.step(rest[0]).0, rest.drop_first());
        assert(next.kinds(rest) =~= seq![next.step(rest[0]).1] + next.step(rest[0]).0.kinds(
            rest.drop_first(),
        ));
        assert(next.kinds(rest)[0] == RunStepKind::Finish);
        assert(kinds[1] == RunStepKind::Finish);
        assert(i == 1);
    } else {
        lemma_shutdown_before_finish(next, rest, i - 1);
    }
}

} // verus!
