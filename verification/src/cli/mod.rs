//! The command-line program that runs one module and reports to the console.

pub mod args;

use crate::cli::args::{CliArgs, Commands};
use crate::text::{trim_start_matches, without_prefixes};
use vstd::prelude::*;
use vstd::string::StringExecFns;

verus! {

/// What the program sets up for the run of a module.
#[derive(Debug)]
pub struct RunPlan {
    /// The file of the module.
    pub file: String,
    /// The agent version of the run.
    pub agent_version: String,
    /// The least time between two reports of completed jobs, in
    /// milliseconds.
    pub job_report_delay: u64,
}

/// The agent version of the command-line program.
pub open spec fn cli_agent_version() -> Seq<char> {
    "zinnia/"@ + crate::peer::config::spec_version()
}

/// Plans the run of the module in `file`: the program reports completed jobs
/// at most twice a second and lets the retrieval daemon keep its temporary
/// files where the system keeps them.
pub fn run_module(file: String) -> (plan: RunPlan)
    ensures
        plan.file == file,
        plan.agent_version@ == cli_agent_version(),
        plan.job_report_delay == 500,
{
    let mut agent_version = String::from_str("zinnia/");
    agent_version.append(crate::peer::config::version());
    RunPlan { file, agent_version, job_report_delay: 500 }
}

/// Plans what the arguments ask for.
pub fn main_impl(cli_args: CliArgs) -> (plan: RunPlan)
    ensures
        cli_args.command matches Commands::Run { file } && plan.file == file,
        plan.agent_version@ == cli_agent_version(),
        plan.job_report_delay == 500,
{
    match cli_args.command {
        Commands::Run { file } => run_module(file),
    }
}

/// What the program says and returns when it gives up: the word `error`, the
/// description of the error without the word `error: ` before it, and the
/// exit code 1.
pub fn exit_with_error(error_string: &str) -> (exit: (String, String, i32))
    ensures
        exit.0@ == "error"@,
        exit.1@ == without_prefixes(error_string@, "error: "@),
        exit.2 == 1,
{
    (String::from_str("error"), trim_start_matches(error_string, "error: "), 1)
}

} // verus!
