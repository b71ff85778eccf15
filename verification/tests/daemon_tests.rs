use zinnia::daemon::args::{
    get_default_cache_dir, get_default_state_dir, CliArgs, Commands, Environment, Platform,
};
use zinnia::daemon::state::{
    ReadOutcome, State, StateError, StoreEvent, StoreStep, WriteOutcome,
};
use zinnia::daemon::station_reporter::{
    log_error_activity, log_info_activity, StationEvent, StationOutput, StationReporter,
};
use zinnia::daemon::{exit_with_error, run, setup_lassie_tempdir, RunError, TempDirStep};
use zinnia::runtime::reporter::{LogLevel, Reporter};

const NO_DELAY: u64 = 0;

fn env(pairs: &[(&str, &str)]) -> Environment {
    let get = |key: &str| pairs.iter().find(|(k, _)| *k == key).map(|(_, v)| String::from(*v));
    Environment {
        home: get("HOME"),
        xdg_state_home: get("XDG_STATE_HOME"),
        xdg_cache_home: get("XDG_CACHE_HOME"),
        local_app_data: get("LOCALAPPDATA"),
        temp: get("TEMP"),
    }
}

#[test]
fn default_state_dir_on_macos() {
    let env = env(&[("HOME", "/users/labber")]);
    let dir = get_default_state_dir(Platform::Macos, &env);
    assert_eq!(dir, "/users/labber/Library/Application Support/app.filstation.zinniad");
}

#[test]
fn args_default_state_dir_on_linux() {
    let env = env(&[("XDG_STATE_HOME", "/users/labber/.local-state")]);
    let dir = get_default_state_dir(Platform::Linux, &env);
    assert_eq!(dir, "/users/labber/.local-state/zinniad");
}

#[test]
fn default_state_dir_on_linux_without_xdg() {
    let env = env(&[("HOME", "/users/labber")]);
    let dir = get_default_state_dir(Platform::Linux, &env);
    assert_eq!(dir, "/users/labber/.local/state/zinniad");
}

#[test]
fn default_state_dir_on_windows() {
    let env = env(&[("LOCALAPPDATA", r"\Users\Jane Smith\AppData\Local")]);
    let dir = get_default_state_dir(Platform::Windows, &env);
    assert_eq!(dir, r"\Users\Jane Smith\AppData\Local\zinniad");
}

#[test]
fn default_cache_dir_on_macos() {
    let env = env(&[("HOME", "/users/labber")]);
    let dir = get_default_cache_dir(Platform::Macos, &env);
    assert_eq!(dir, "/users/labber/Library/Caches/app.filstation.zinniad");
}

#[test]
fn args_default_cache_dir_on_linux() {
    let env = env(&[("XDG_CACHE_HOME", "/users/labber/.temp")]);
    let dir = get_default_cache_dir(Platform::Linux, &env);
    assert_eq!(dir, "/users/labber/.temp/zinniad");
}

#[test]
fn default_cache_dir_on_linux_without_xdg() {
    let env = env(&[("HOME", "/users/labber")]);
    let dir = get_default_cache_dir(Platform::Linux, &env);
    assert_eq!(dir, "/users/labber/.cache/zinniad");
}

#[test]
fn default_cache_dir_on_windows() {
    let env = env(&[("TEMP", r"\Users\Jane Smith\AppData\Local\Temp")]);
    let dir = get_default_cache_dir(Platform::Windows, &env);
    assert_eq!(dir, r"\Users\Jane Smith\AppData\Local\Temp\zinniad");
}

#[test]
fn xdg_directories_come_before_home_on_linux() {
    let env = env(&[
        ("HOME", "/users/labber"),
        ("XDG_STATE_HOME", "/state"),
        ("XDG_CACHE_HOME", "/cache"),
    ]);
    assert_eq!(get_default_state_dir(Platform::Linux, &env), "/state/zinniad");
    assert_eq!(get_default_cache_dir(Platform::Linux, &env), "/cache/zinniad");
}

#[test]
fn loads_empty_state() {
    let loaded = State::load("state.json", ReadOutcome::NotFound).unwrap();
    assert_eq!(loaded.total_jobs_completed, 0, "total_jobs_completed");
    assert_eq!(State::default().total_jobs_completed, 0);
}

#[test]
fn creates_missing_directories() {
    let state = State { total_jobs_completed: 1 };
    let (mut store, first) = state.store("/tmp/x/subdir/state.json", Some("/tmp/x/subdir"));
    assert!(matches!(first, StoreStep::Write(State { total_jobs_completed: 1 })));
    // the directory is missing: it is created and the file is written again
    let step = store.advance(StoreEvent::Write(WriteOutcome::NotFound("no such dir".to_string())));
    match step {
        StoreStep::CreateDirectory(directory) => assert_eq!(directory, "/tmp/x/subdir"),
        other => panic!("unexpected step {other:?}"),
    }
    let step = store.advance(StoreEvent::Directory(Ok(())));
    assert!(matches!(step, StoreStep::Write(State { total_jobs_completed: 1 })));
    let step = store.advance(StoreEvent::Write(WriteOutcome::Written));
    assert!(matches!(step, StoreStep::Finish(Ok(()))));
    let loaded = State::load("/tmp/x/subdir/state.json", ReadOutcome::Parsed(state)).unwrap();
    assert_eq!(loaded.total_jobs_completed, 1);
}

#[test]
fn a_state_file_that_cannot_be_read_or_understood_is_an_error() {
    let err = State::load("state.json", ReadOutcome::Failed("denied".to_string())).unwrap_err();
    assert_eq!(err.message(), "Cannot load initial state from state.json");
    assert!(matches!(err, StateError::CannotLoad { ref cause, .. } if cause == "denied"));
    let err = State::load("state.json", ReadOutcome::Malformed("eof".to_string())).unwrap_err();
    assert_eq!(err.message(), "Cannot parse initial state from state.json");
    assert!(matches!(err, StateError::CannotParse { ref cause, .. } if cause == "eof"));
}

#[test]
fn storing_gives_up_on_every_other_failure() {
    let state = State { total_jobs_completed: 4 };
    let (mut store, _) = state.store("state.json", Some("dir"));
    let step = store.advance(StoreEvent::Write(WriteOutcome::Failed("disk full".to_string())));
    match step {
        StoreStep::Finish(Err(err)) => {
            assert_eq!(err.message(), "Cannot write state to state.json");
            assert!(matches!(err, StateError::CannotWrite { ref cause, .. } if cause == "disk full"));
        }
        other => panic!("unexpected step {other:?}"),
    }
    assert!(matches!(
        store.advance(StoreEvent::Write(WriteOutcome::Written)),
        StoreStep::Finish(Err(StateError::OutOfOrder))
    ));

    let (mut store, _) = state.store("state.json", Some("dir"));
    store.advance(StoreEvent::Write(WriteOutcome::NotFound("x".to_string())));
    match store.advance(StoreEvent::Directory(Err("read-only".to_string()))) {
        StoreStep::Finish(Err(err)) => {
            assert_eq!(err.message(), "Cannot create state directory dir")
        }
        other => panic!("unexpected step {other:?}"),
    }

    let (mut store, _) = state.store("state.json", Some("dir"));
    store.advance(StoreEvent::Write(WriteOutcome::NotFound("x".to_string())));
    store.advance(StoreEvent::Directory(Ok(())));
    assert!(matches!(
        store.advance(StoreEvent::Write(WriteOutcome::NotFound("still".to_string()))),
        StoreStep::Finish(Err(StateError::CannotWrite { .. }))
    ));

    let (mut store, _) = state.store("state.json", None);
    assert!(matches!(
        store.advance(StoreEvent::Write(WriteOutcome::NotFound("x".to_string()))),
        StoreStep::Finish(Err(StateError::CannotWrite { .. }))
    ));
    assert_eq!(
        StateError::OutOfOrder.message(),
        "Storing was told of a step that it did not ask for"
    );
}

fn stored(output: &[StationOutput]) -> Vec<u64> {
    output
        .iter()
        .filter_map(|o| match o {
            StationOutput::Store(state) => Some(state.total_jobs_completed),
            _ => None,
        })
        .collect()
}

#[test]
fn persists_job_counter() {
    let initial = State::load("state.json", ReadOutcome::NotFound).unwrap();
    let mut reporter = StationReporter::new(initial, NO_DELAY, "test".into());
    assert_eq!(reporter.counter(), 0, "initial count");

    reporter.job_completed();
    assert_eq!(reporter.counter(), 1, "count after a job was completed");
    let saved = *stored(&reporter.take_output()).last().unwrap();

    let loaded = State::load(
        "state.json",
        ReadOutcome::Parsed(State { total_jobs_completed: saved }),
    )
    .unwrap();
    let reporter = StationReporter::new(loaded, NO_DELAY, "test".into());
    assert_eq!(reporter.counter(), 1, "count after creating a new reporter");
}

#[test]
fn the_station_reporter_queues_events_logs_and_the_state() {
    let mut reporter = StationReporter::new(State { total_jobs_completed: 41 }, 60_000, "mod".into());
    reporter.info_activity("hello");
    reporter.error_activity("oops");
    reporter.log(LogLevel::Warn, "careful \n\n");
    reporter.job_completed();
    reporter.job_completed();
    reporter.finish();
    let output = reporter.take_output();
    assert_eq!(output.len(), 7);
    match &output[0] {
        StationOutput::Event(event @ StationEvent::InfoActivity { module, message }) => {
            assert_eq!(event.kind_name(), "activity:info");
            assert_eq!(module.as_deref(), Some("mod"));
            assert_eq!(message, "hello");
        }
        other => panic!("unexpected output {other:?}"),
    }
    match &output[1] {
        StationOutput::Event(event @ StationEvent::ErrorActivity { module, message }) => {
            assert_eq!(event.kind_name(), "activity:error");
            assert_eq!(module.as_deref(), Some("mod"));
            assert_eq!(message, "oops");
        }
        other => panic!("unexpected output {other:?}"),
    }
    match &output[2] {
        StationOutput::Log { target, level, message } => {
            assert_eq!(target, "module:mod");
            assert_eq!(*level, LogLevel::Warn);
            assert_eq!(message, "careful");
        }
        other => panic!("unexpected output {other:?}"),
    }
    match &output[3] {
        StationOutput::Event(event @ StationEvent::JobsCompleted { total, module }) => {
            assert_eq!(event.kind_name(), "jobs-completed");
            assert_eq!(*total, 42);
            assert_eq!(module, "mod");
        }
        other => panic!("unexpected output {other:?}"),
    }
    assert_eq!(stored(&output), vec![42, 43]);
    assert!(matches!(
        &output[6],
        StationOutput::Event(StationEvent::JobsCompleted { total: 43, .. })
    ));
    reporter.finish();
    assert_eq!(reporter.take_output().len(), 1);
}

#[test]
fn activities_of_the_daemon_itself_name_no_module() {
    match log_info_activity("Module Runtime started") {
        StationEvent::InfoActivity { module, message } => {
            assert_eq!(module, None);
            assert_eq!(message, "Module Runtime started");
        }
        other => panic!("unexpected event {other:?}"),
    }
    assert!(matches!(
        log_error_activity("x"),
        StationEvent::ErrorActivity { module: None, .. }
    ));
}

fn args(files: &[&str]) -> CliArgs {
    CliArgs {
        wallet_address: "f1test".to_string(),
        station_id: "a".repeat(88),
        deployment_type: "cli".to_string(),
        state_root: "/state".to_string(),
        cache_root: "/cache".to_string(),
        files: files.iter().map(|f| f.to_string()).collect(),
    }
}

#[test]
fn the_daemon_runs_exactly_one_module() {
    let err = run(args(&[])).unwrap_err();
    assert_eq!(err, RunError::NoModule);
    assert_eq!(err.message(), "You must provide at least one module to run.");
    let err = run(args(&["a.js", "b.js"])).unwrap_err();
    assert_eq!(err, RunError::TooManyModules);
    assert_eq!(err.message(), "We do not yet support running more than one module.");
}

#[test]
fn the_daemon_plans_the_run_of_its_module() {
    let plan = run(args(&["mods/probe.js"])).unwrap();
    assert_eq!(plan.file, "mods/probe.js");
    assert_eq!(plan.module_name, "mods/probe");
    assert_eq!(plan.agent_version, "zinniad/0.1.0 mods/probe");
    assert_eq!(plan.state_root, "/state");
    assert_eq!(plan.state_file_name, "state.json");
    assert_eq!(plan.cache_root, "/cache");
    assert_eq!(plan.lassie_dir_name, "lassie");
    assert_eq!(plan.wallet_address, "f1test");
    assert_eq!(plan.station_id, "a".repeat(88));
    assert_eq!(plan.job_report_delay, 200);
    assert!(plan.no_color);
    assert!(!plan.is_tty);
    assert_eq!(run(args(&["x.js.js"])).unwrap().module_name, "x");
    assert_eq!(run(args(&["plain"])).unwrap().module_name, "plain");
    assert_eq!(run(args(&[".js"])).unwrap().module_name, "");
    assert_eq!(run(args(&["a.jsx"])).unwrap().module_name, "a.jsx");
}

#[test]
fn the_temporary_directory_is_created_or_cleaned() {
    assert_eq!(setup_lassie_tempdir(false), TempDirStep::Create);
    assert_eq!(setup_lassie_tempdir(true), TempDirStep::Clean);
}

#[test]
fn the_daemon_gives_up_with_code_one() {
    assert_eq!(exit_with_error("error: boom"), ("boom".to_string(), 1));
    assert_eq!(exit_with_error("error: error: boom"), ("boom".to_string(), 1));
    assert_eq!(exit_with_error("boom error: "), ("boom error: ".to_string(), 1));
    assert_eq!(exit_with_error(""), (String::new(), 1));
}

#[test]
fn the_commands_of_the_daemon() {
    assert_eq!(
        Commands::Run { file: "mod.js".to_string() },
        Commands::Run { file: "mod.js".to_string() }
    );
    assert_ne!(args(&["a.js"]), args(&["b.js"]));
}
