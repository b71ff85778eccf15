//! The daemon that runs a module inside Filecoin Station.

pub mod args;
pub mod state;
pub mod station_reporter;

use crate::daemon::args::CliArgs;
use crate::text::{trim_end_matches, trim_start_matches, without_prefixes, without_suffixes};
use vstd::prelude::*;
use vstd::string::StringExecFns;

verus! {

/// Why the daemon does not start a run.
#[derive(Clone, Copy, Debug, PartialEq, Eq, Structural)]
pub enum RunError {
    /// No module was given.
    NoModule,
    /// More than one module was given.
    TooManyModules,
}

impl RunError {
    /// The message of the error.
    pub open spec fn spec_message(self) -> Seq<char> {
        match self {
            RunError::NoModule => "You must provide at least one module to run."@,
            RunError::TooManyModules => "We do not yet support running more than one module."@,
        }
    }

    /// The message of the error.
    pub fn message(&self) -> (text: String)
        ensures
            text@ == self.spec_message(),
    {
        match self {
            RunError::NoModule => String::from_str("You must provide at least one module to run."),
            RunError::TooManyModules => String::from_str(
                "We do not yet support running more than one module.",
            ),
        }
    }
}

/// What the daemon sets up for the run of its module.
#[derive(Debug)]
pub struct RunPlan {
    /// The directory of the state file.
    pub state_root: String,
    /// The name of the state file in that directory.
    pub state_file_name: String,
    /// The directory for cached data.
    pub cache_root: String,
    /// The name, in that directory, of the directory for the temporary files
    /// of the retrieval daemon.
    pub lassie_dir_name: String,
    /// The file of the module.
    pub file: String,
    /// The name of the module: its file without the ending `.js`.
    pub module_name: String,
    /// The agent version of the run.
    pub agent_version: String,
    pub wallet_address: String,
    pub station_id: String,
    /// The least time between two reports of completed jobs, in
    /// milliseconds.
    pub job_report_delay: u64,
    pub no_color: bool,
    pub is_tty: bool,
}

/// The name of the module in the file `file`.
pub open spec fn module_name_of(file: Seq<char>) -> Seq<char> {
    without_suffixes(file, ".js"@)
}

/// The agent version of the daemon when it runs the module `module_name`.
pub open spec fn daemon_agent_version(module_name: Seq<char>) -> Seq<char> {
    "zinniad/"@ + crate::peer::config::spec_version() + " "@ + module_name
}

/// Plans the run of the daemon from its arguments. Exactly one module must
/// be given.
pub fn run(config: CliArgs) -> (plan: Result<RunPlan, RunError>)
    ensures
        match plan {
            Err(e) => (e == RunError::NoModule && config.files@.len() == 0) || (e
                == RunError::TooManyModules && config.files@.len() > 1),
            Ok(plan) => config.files@.len() == 1 && plan.file@ == config.files@[0]@
                && plan.module_name@ == module_name_of(config.files@[0]@) && plan.agent_version@
                == daemon_agent_version(plan.module_name@) && plan.state_root == config.state_root
                && plan.cache_root == config.cache_root && plan.state_file_name@ == "state.json"@
                && plan.lassie_dir_name@ == "lassie"@ && plan.wallet_address
                == config.wallet_address && plan.station_id == config.station_id
                && plan.job_report_delay == 200 && plan.no_color && !plan.is_tty,
        },
{
    if config.files.len() == 0 {
        return Err(RunError::NoModule);
    }
    if config.files.len() > 1 {
        return Err(RunError::TooManyModules);
    }
    let file = config.files[0].clone();
    let module_name = trim_end_matches(file.as_str(), ".js");
    let mut agent_version = String::from_str("zinniad/");
    agent_version.append(crate::peer::config::version());
    agent_version.append(" ");
    agent_version.append(module_name.as_str());
    Ok(
        RunPlan {
            state_root: config.state_root,
            state_file_name: String::from_str("state.json"),
            cache_root: config.cache_root,
            lassie_dir_name: String::from_str("lassie"),
            file,
            module_name,
            agent_version,
            wallet_address: config.wallet_address,
            station_id: config.station_id,
            job_report_delay: 200,
            no_color: true,
            is_tty: false,
        },
    )
}

/// What is done to the directory for the temporary files of the retrieval
/// daemon before the daemon starts.
#[derive(Clone, Copy, Debug, PartialEq, Eq, Structural)]
pub enum TempDirStep {
    /// Create the directory and every directory above it.
    Create,
    /// Remove the files that an earlier run left in the directory. A file
    /// that cannot be removed is left, with a warning.
    Clean,
}

/// Says what is done to the directory for the temporary files of the
/// retrieval daemon, given whether it exists.
pub fn setup_lassie_tempdir(is_dir: bool) -> (step: TempDirStep)
    ensures
        step == (if is_dir {
            TempDirStep::Clean
        } else {
            TempDirStep::Create
        }),
{
    if !is_dir {
        TempDirStep::Create
    } else {
        TempDirStep::Clean
    }
}

/// What the daemon says and returns when it gives up: the description of the
/// error without the word `error: ` before it, and the exit code 1.
pub fn exit_with_error(error_string: &str) -> (exit: (String, i32))
    ensures
        exit.0@ == without_prefixes(error_string@, "error: "@),
        exit.1 == 1,
{
    (trim_start_matches(error_string, "error: "), 1)
}

} // verus!
