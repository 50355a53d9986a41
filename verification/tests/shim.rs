use driver_shim::{Calls, Config, Registration, ShimRun, run_shim, shim_main};

fn strings(items: &[&str]) -> Vec<String> {
    items.iter().map(|s| s.to_string()).collect()
}

#[test]
fn hook_leaves_context_unchanged() {
    let mut hook = Calls;
    let args = strings(&["engine", "--emit=metadata", "lib.rs"]);
    let mut config = Config { args: args.clone() };
    hook.config(&mut config);
    assert_eq!(config.args, args);
}

#[test]
fn hook_leaves_empty_context_unchanged() {
    let mut hook = Calls;
    let mut config = Config { args: Vec::new() };
    hook.config(&mut config);
    assert!(config.args.is_empty());
}

#[test]
fn hook_invoked_exactly_once() {
    let mut hook = Calls;
    let mut run = ShimRun::new(strings(&["engine", "main.rs"]));
    assert_eq!(run.invocations(), 0);
    assert!(!run.is_configured());
    let _config = run.configure(&mut hook);
    assert_eq!(run.invocations(), 1);
    assert!(run.is_configured());
}

#[test]
fn arguments_forwarded_verbatim() {
    let mut hook = Calls;
    let args = strings(&["engine", "-O", "--edition", "2018", "src/main.rs"]);
    let mut run = ShimRun::new(args.clone());
    let config = run.configure(&mut hook);
    assert_eq!(config.args, args);
}

#[test]
fn empty_argument_vector_forwarded() {
    let mut hook = Calls;
    let mut run = ShimRun::new(Vec::new());
    let config = run.configure(&mut hook);
    assert!(config.args.is_empty());
    assert_eq!(run.finish(0), 0);
}

#[test]
fn exit_status_passed_through() {
    for status in [0, 1, 2, 101, -1, i32::MAX, i32::MIN] {
        let reg = Registration {
            args: strings(&["engine", "main.rs"]),
            hook: Calls,
            loader: None,
            output: None,
        };
        assert_eq!(run_shim(reg, status), status);
    }
}

#[test]
fn version_request_matches_engine() {
    // The engine's own "report version" behaviour succeeds with status 0;
    // through the shim the code is the same.
    let code = shim_main(strings(&["engine", "--version"]), 0);
    assert_eq!(code, 0);
}

#[test]
fn failing_input_matches_engine() {
    // A nonexistent input file makes the engine fail with its own nonzero
    // status; the shim exits with that status, unaltered.
    let code = shim_main(strings(&["engine", "no_such_file.rs"]), 1);
    assert_eq!(code, 1);
}

#[test]
fn stepwise_run_passes_status_through() {
    let mut hook = Calls;
    let mut run = ShimRun::new(strings(&["engine", "--version"]));
    let _config = run.configure(&mut hook);
    assert_eq!(run.finish(42), 42);
}
