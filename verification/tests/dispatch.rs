use moka::cli::{Args, UsageError, USAGE};
use moka::common::util::{MissingConfigField, RunnerKind};
use moka::dispatch::{
    compile_runner, dispatch, execute, run_outcome, setup_and_use_compile, setup_and_use_parse,
    use_runner, DispatchError, Outcome,
};

fn argv(words: &[&str]) -> Vec<String> {
    words.iter().map(|word| word.to_string()).collect()
}

fn args(flags: [bool; 4], cmds: [bool; 2], texts: [&str; 3]) -> Args {
    Args {
        flag_archive: flags[0],
        flag_verbose: flags[1],
        flag_version: flags[2],
        flag_help: flags[3],
        cmd_use: cmds[0],
        cmd_compile: cmds[1],
        arg_module: texts[0].to_string(),
        arg_input: texts[1].to_string(),
        arg_output: texts[2].to_string(),
    }
}

#[test]
fn compile_command_runs_and_exits_with_zero() {
    let outcome = execute(&argv(&["moka", "compile", "mymod", "out.bin"]));
    assert_eq!(outcome, Outcome::Done);
    assert_eq!(outcome.exit_code(), 0);
    assert_eq!(outcome.message("0.1.0"), None);
}

#[test]
fn use_command_runs_and_exits_with_zero() {
    let outcome = execute(&argv(&["moka", "-v", "use", "mymod", "in.dat", "out.bin"]));
    assert_eq!(outcome, Outcome::Done);
    assert_eq!(outcome.exit_code(), 0);
    assert_eq!(outcome.message("0.1.0"), None);
}

#[test]
fn use_command_without_output_is_rejected_by_the_parser() {
    let outcome = execute(&argv(&["moka", "use", "mymod", "in.dat"]));
    assert!(matches!(outcome, Outcome::Rejected(_)));
    assert_ne!(outcome.exit_code(), 0);
    assert_eq!(outcome.exit_code(), 1);
    let text = outcome.message("0.1.0").unwrap();
    assert!(text.starts_with("Invalid arguments."));
}

#[test]
fn archive_flag_is_refused_with_exit_code_one() {
    let outcome = execute(&argv(&["moka", "-a", "compile", "mymod", "out.bin"]));
    assert_eq!(outcome, Outcome::Failed(DispatchError::UnsupportedFeature));
    assert_eq!(outcome.exit_code(), 1);
    assert_eq!(
        outcome.message("0.1.0"),
        Some("Archive format is not currently implemented".to_string())
    );

    let outcome = execute(&argv(&["moka", "--archive", "-v", "use", "m", "i", "o"]));
    assert_eq!(outcome, Outcome::Failed(DispatchError::UnsupportedFeature));
    assert_eq!(outcome.exit_code(), 1);
}

#[test]
fn archive_flag_is_refused_whatever_the_command() {
    for cmds in [[false, false], [true, false], [false, true], [true, true]] {
        for verbose in [false, true] {
            let outcome = dispatch(args([true, verbose, false, false], cmds, ["m", "i", "o"]));
            assert_eq!(outcome, Outcome::Failed(DispatchError::UnsupportedFeature));
            assert_eq!(outcome.exit_code(), 1);
        }
    }
}

#[test]
fn help_and_version_come_before_everything_else() {
    for cmds in [[false, false], [true, false], [false, true], [true, true]] {
        for archive in [false, true] {
            let outcome = dispatch(args([archive, false, false, true], cmds, ["m", "i", "o"]));
            assert_eq!(outcome, Outcome::Help);
            assert_eq!(outcome.exit_code(), 0);

            let outcome = dispatch(args([archive, false, true, false], cmds, ["m", "i", "o"]));
            assert_eq!(outcome, Outcome::Version);
            assert_eq!(outcome.exit_code(), 0);

            let outcome = dispatch(args([archive, true, true, true], cmds, ["", "", ""]));
            assert_eq!(outcome, Outcome::Version);
            assert_eq!(outcome.exit_code(), 0);
        }
    }
}

#[test]
fn help_shows_the_usage_text() {
    let outcome = execute(&argv(&["moka", "-h"]));
    assert_eq!(outcome, Outcome::Help);
    assert_eq!(outcome.exit_code(), 0);
    assert_eq!(outcome.message("0.1.0"), Some(USAGE.to_string()));
    assert_eq!(execute(&argv(&["moka", "--help"])), Outcome::Help);
}

#[test]
fn version_shows_the_version_after_a_v() {
    let outcome = execute(&argv(&["moka", "--version"]));
    assert_eq!(outcome, Outcome::Version);
    assert_eq!(outcome.exit_code(), 0);
    assert_eq!(outcome.message("0.1.0"), Some("v0.1.0".to_string()));
    assert_eq!(outcome.message(""), Some("v".to_string()));
    assert_eq!(outcome.message("12.3.4-beta"), Some("v12.3.4-beta".to_string()));
}

#[test]
fn no_command_is_an_error_with_exit_code_one() {
    let outcome = dispatch(args([false, false, false, false], [false, false], ["", "", ""]));
    assert_eq!(outcome, Outcome::Failed(DispatchError::UnrecognizedCommand));
    assert_eq!(outcome.exit_code(), 1);
    assert_eq!(
        outcome.message("0.1.0"),
        Some("No Such Command Currently Not Implemented".to_string())
    );
    let outcome = dispatch(args([false, true, false, false], [false, false], ["m", "i", "o"]));
    assert_eq!(outcome, Outcome::Failed(DispatchError::UnrecognizedCommand));
}

#[test]
fn commands_run_once_nothing_comes_before_them() {
    let outcome = dispatch(args([false, false, false, false], [true, false], ["m", "i", "o"]));
    assert_eq!(outcome, Outcome::Done);
    let outcome = dispatch(args([false, true, false, false], [false, true], ["m", "", "o"]));
    assert_eq!(outcome, Outcome::Done);
    let outcome = dispatch(args([false, false, false, false], [true, true], ["", "", ""]));
    assert_eq!(outcome, Outcome::Done);
    assert_eq!(outcome.exit_code(), 0);
}

#[test]
fn use_runner_holds_all_three_arguments() {
    let runner =
        use_runner(args([false, true, false, false], [true, false], ["mymod", "in.dat", "out.bin"]))
            .ok()
            .unwrap();
    assert!(runner.is_verbose());
    assert!(!runner.is_archive());
    assert_eq!(runner.module(), "mymod");
    assert_eq!(runner.input(), "in.dat");
    assert_eq!(runner.output(), "out.bin");
}

#[test]
fn compile_runner_holds_module_and_output() {
    let runner = compile_runner(args(
        [true, false, false, false],
        [false, true],
        ["mymod", "ignored.dat", "out.bin"],
    ))
    .ok()
    .unwrap();
    assert!(!runner.is_verbose());
    assert!(runner.is_archive());
    assert_eq!(runner.module(), "mymod");
    assert_eq!(runner.output(), "out.bin");

    let runner =
        compile_runner(args([false, false, false, false], [false, true], ["mymod", "", "out.bin"]))
            .ok()
            .unwrap();
    assert_eq!(runner.module(), "mymod");
    assert_eq!(runner.output(), "out.bin");
}

#[test]
fn setup_and_use_run_their_runners() {
    let done =
        setup_and_use_compile(args([false, false, false, false], [false, true], ["m", "", "o"]));
    assert_eq!(done, Ok(()));
    let done =
        setup_and_use_parse(args([false, true, false, false], [true, false], ["m", "i", "o"]));
    assert_eq!(done, Ok(()));
    let done = setup_and_use_parse(args([false, false, false, false], [true, false], ["", "", ""]));
    assert_eq!(done, Ok(()));
}

#[test]
fn every_error_has_its_message_and_exit_code_one() {
    let missing = MissingConfigField { kind: RunnerKind::Compile, field: "module".to_string() };
    let error = DispatchError::MissingConfigField(missing);
    assert_eq!(error.message(), "Incorrectly configured CompileRunner, missing 'module' def");
    let outcome = Outcome::Failed(error);
    assert_eq!(outcome.exit_code(), 1);
    assert_eq!(
        outcome.message("1.0.0"),
        Some("Incorrectly configured CompileRunner, missing 'module' def".to_string())
    );

    let error = DispatchError::RunFailed("interpreter gave up".to_string());
    assert_eq!(error.message(), "interpreter gave up");
    assert_eq!(Outcome::Failed(error).exit_code(), 1);

    assert_eq!(
        DispatchError::UnsupportedFeature.message(),
        "Archive format is not currently implemented"
    );
    assert_eq!(
        DispatchError::UnrecognizedCommand.message(),
        "No Such Command Currently Not Implemented"
    );

    let outcome = Outcome::Rejected(UsageError { message: "Invalid arguments.".to_string() });
    assert_eq!(outcome.exit_code(), 1);
    assert_eq!(outcome.message("1.0.0"), Some("Invalid arguments.".to_string()));
}

#[test]
fn run_outcome_hands_the_failure_on() {
    assert_eq!(run_outcome(Ok(())), Ok(()));
    assert_eq!(
        run_outcome(Err("module not found".to_string())),
        Err(DispatchError::RunFailed("module not found".to_string()))
    );
    assert_eq!(run_outcome(Err(String::new())), Err(DispatchError::RunFailed(String::new())));
}
