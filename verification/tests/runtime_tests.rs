use zinnia::cli::args::{CliArgs, Commands};
use zinnia::cli::{exit_with_error, main_impl, run_module};
use zinnia::runtime::module_loader::ModulePath;
use zinnia::runtime::runtime::{
    bootstrap_script, lassie_config, run_js_module, BootstrapOptions, RunStage, RunStep, ONE_DAY,
};
use zinnia::text::{
    join, str_eq, trim_end, trim_end_matches, trim_start_matches, u64_to_string,
};

#[test]
fn bootstrap_options_have_their_defaults() {
    let root = ModulePath::new("/".to_string(), vec!["mods".to_string()]);
    let options = BootstrapOptions::new("zinnia/0.1.0".to_string(), Some(root), true, false);
    assert!(!options.no_color);
    assert!(!options.is_tty);
    assert_eq!(options.agent_version, "zinnia/0.1.0");
    assert_eq!(options.rng_seed, None);
    assert_eq!(options.module_root.unwrap().display(), "/mods");
    assert_eq!(options.wallet_address, "t1abjxfbp274xpdqcpuaykwkfb43omjotacm2p3za");
    assert_eq!(options.station_id, "0".repeat(88));
    assert_eq!(options.zinnia_version, "0.1.0");
    let plain = BootstrapOptions::new(String::new(), None, false, true);
    assert!(plain.no_color);
    assert!(plain.is_tty);
}

#[test]
fn the_payload_tells_module_code_of_the_retrieval_daemon() {
    let options = BootstrapOptions::new("agent".to_string(), None, false, false);
    let payload = options.as_json(8080, Some("s3cr3t"), "11.6");
    assert!(payload.no_color);
    assert!(!payload.is_tty);
    assert_eq!(payload.wallet_address, options.wallet_address);
    assert_eq!(payload.station_id, options.station_id);
    assert_eq!(payload.lassie_url, "http://127.0.0.1:8080/");
    assert_eq!(payload.lassie_auth.as_deref(), Some("Bearer s3cr3t"));
    assert_eq!(payload.zinnia_version, "0.1.0");
    assert_eq!(payload.v8_version, "11.6");
    let open = options.as_json(0, None, "");
    assert_eq!(open.lassie_url, "http://127.0.0.1:0/");
    assert_eq!(open.lassie_auth, None);
    assert_eq!(options.as_json(65535, None, "").lassie_url, "http://127.0.0.1:65535/");
}

#[test]
fn the_retrieval_daemon_gets_a_token_and_a_day_for_its_timeouts() {
    let config = lassie_config("abc".to_string());
    assert_eq!(config.port, 0);
    assert_eq!(config.access_token.as_deref(), Some("abc"));
    assert_eq!(config.temp_dir, None);
    assert_eq!(config.provider_timeout, Some(24 * 3600 * 1000));
    assert_eq!(config.global_timeout, Some(ONE_DAY));
}

#[test]
fn a_run_goes_through_its_steps_and_shuts_the_network_down() {
    let (mut run, script) = run_js_module("{\"isTty\": false}");
    assert_eq!(script, "bootstrap.mainRuntime({\"isTty\": false})");
    assert_eq!(bootstrap_script("{}"), "bootstrap.mainRuntime({})");
    assert!(matches!(run.advance(Ok(())), RunStep::LoadMainModule));
    assert!(matches!(run.advance(Ok(())), RunStep::RunEventLoop));
    assert!(matches!(run.advance(Ok(())), RunStep::AwaitEvaluation));
    assert!(matches!(run.advance(Ok(())), RunStep::ShutdownNetwork));
    assert!(matches!(run.advance(Ok(())), RunStep::Finish(Ok(()))));
    assert!(matches!(run.advance(Ok(())), RunStep::Finish(Ok(()))));
}

#[test]
fn a_run_that_fails_still_shuts_the_network_down() {
    for failing in 0..4 {
        let (mut run, _) = run_js_module("{}");
        for _ in 0..failing {
            assert!(!matches!(run.advance(Ok(())), RunStep::Finish(_)));
        }
        assert!(matches!(run.advance(Err("boom!".to_string())), RunStep::ShutdownNetwork));
        match run.advance(Ok(())) {
            RunStep::Finish(Err(text)) => assert_eq!(text, "boom!"),
            other => panic!("unexpected step {other:?}"),
        }
    }
}

#[test]
fn a_failed_shutdown_fails_a_run_that_went_well() {
    let (mut run, _) = run_js_module("{}");
    for _ in 0..4 {
        run.advance(Ok(()));
    }
    assert!(matches!(
        run.advance(Err("stuck".to_string())),
        RunStep::Finish(Err(ref text)) if text == "stuck"
    ));
    // the first failure is the one that is returned
    let (mut run, _) = run_js_module("{}");
    run.advance(Err("first".to_string()));
    assert!(matches!(
        run.advance(Err("second".to_string())),
        RunStep::Finish(Err(ref text)) if text == "first"
    ));
    assert_ne!(RunStage::Done, RunStage::ShuttingDown);
}

#[test]
fn the_command_line_program_plans_its_run() {
    let plan = run_module("mod.js".to_string());
    assert_eq!(plan.file, "mod.js");
    assert_eq!(plan.agent_version, "zinnia/0.1.0");
    assert_eq!(plan.job_report_delay, 500);
    let args = CliArgs { command: Commands::Run { file: "other.js".to_string() } };
    assert_eq!(args, CliArgs { command: Commands::Run { file: "other.js".to_string() } });
    assert_eq!(main_impl(args).file, "other.js");
    assert_eq!(
        exit_with_error("error: boom"),
        ("error".to_string(), "boom".to_string(), 1)
    );
}

#[test]
fn white_space_is_taken_off_the_end_only() {
    assert_eq!(trim_end("careful \n\n"), "careful");
    assert_eq!(trim_end("  a b\t\r\n"), "  a b");
    assert_eq!(trim_end("a\u{2003}\u{3000}\u{a0}"), "a");
    // a zero-width space is no white space
    assert_eq!(trim_end("a\u{200b}"), "a\u{200b}");
    assert_eq!(trim_end(" \n "), "");
    assert_eq!(trim_end(""), "");
    for text in ["x \u{85}", "é \u{1680}", "plain", "\u{feff}"] {
        assert_eq!(trim_end(text), text.trim_end());
    }
}

#[test]
fn numbers_are_written_in_decimal() {
    assert_eq!(u64_to_string(0), "0");
    assert_eq!(u64_to_string(7), "7");
    assert_eq!(u64_to_string(10), "10");
    assert_eq!(u64_to_string(1234567890), "1234567890");
    assert_eq!(u64_to_string(u64::MAX), "18446744073709551615");
}

#[test]
fn texts_are_joined_compared_and_trimmed() {
    let parts = vec!["a".to_string(), "b".to_string(), "c".to_string()];
    assert_eq!(join(&parts, "/"), "a/b/c");
    assert_eq!(join(&parts[..1], "/"), "a");
    assert_eq!(join(&[], "/"), "");
    assert!(str_eq("file", "file"));
    assert!(!str_eq("file", "File"));
    assert_eq!(trim_end_matches("a.js", ".js"), "a");
    assert_eq!(trim_end_matches("a.js.js", ".js"), "a");
    assert_eq!(trim_end_matches("a.js.", ".js"), "a.js.");
    assert_eq!(trim_end_matches("js", ".js"), "js");
    assert_eq!(trim_end_matches("a", ""), "a");
    assert_eq!(trim_end_matches("é.js", ".js"), "é");
    assert_eq!(trim_start_matches("error: x", "error: "), "x");
    assert_eq!(trim_start_matches("xerror: ", "error: "), "xerror: ");
    assert_eq!(trim_start_matches("aaa", "a"), "");
    assert_eq!(trim_start_matches("a", ""), "a");
}
