//! From a decoded command line to what the process is to do.
//!
//! `--version` and `--help` are answered first. A module given as an archive
//! is refused next, before any builder is made. Only then the command picks
//! its builder, the builder yields its runner, and the runner is run.
use crate::cli::{args_of, decode_arguments, texts, usage_match, Args, ArgsView, UsageError, USAGE};
use crate::common::text::text_of;
use crate::common::util::{
    finalize, lemma_names_differ, missing_field_message, Config, ConfigurableProgram,
    MissingConfigField, MissingField, ProgramFragment,
};
use crate::compile::compile_runner::{compile_schema, CompileBuilder, CompileRunner};
use crate::parse::parse_runner::{parse_schema, ParseBuilder, ParseRunner};
use vstd::prelude::*;
use vstd::string::StringExecFns;

verus! {

/// Why a command was not carried out.
#[derive(Clone, Debug, PartialEq, Eq)]
pub enum DispatchError {
    /// A builder was asked for its runner while a required argument was
    /// missing.
    MissingConfigField(MissingConfigField),
    /// The module was given as an archive, which is not supported.
    UnsupportedFeature,
    /// Neither `use` nor `compile` was selected.
    UnrecognizedCommand,
    /// The runner ran and reported a failure, given in its own words.
    RunFailed(String),
}

/// How a command line ended.
#[derive(Clone, Debug, PartialEq, Eq)]
pub enum Outcome {
    /// `--version` was given: the version is to be shown.
    Version,
    /// `--help` was given: the usage text is to be shown.
    Help,
    /// The command line did not fit the usage text.
    Rejected(UsageError),
    /// The command was not carried out.
    Failed(DispatchError),
    /// The command ran to its end.
    Done,
}

/// A `DispatchError` with its texts as sequences of characters.
pub enum DispatchErrorView {
    MissingConfigField(MissingField),
    UnsupportedFeature,
    UnrecognizedCommand,
    RunFailed(Seq<char>),
}

/// An `Outcome` with its texts as sequences of characters.
pub enum OutcomeView {
    Version,
    Help,
    Rejected(Seq<char>),
    Failed(DispatchErrorView),
    Done,
}

impl View for DispatchError {
    type V = DispatchErrorView;

    open spec fn view(&self) -> DispatchErrorView {
        match self {
            DispatchError::MissingConfigField(missing) => DispatchErrorView::MissingConfigField(
                missing@,
            ),
            DispatchError::UnsupportedFeature => DispatchErrorView::UnsupportedFeature,
            DispatchError::UnrecognizedCommand => DispatchErrorView::UnrecognizedCommand,
            DispatchError::RunFailed(text) => DispatchErrorView::RunFailed(text@),
        }
    }
}

impl View for Outcome {
    type V = OutcomeView;

    open spec fn view(&self) -> OutcomeView {
        match self {
            Outcome::Version => OutcomeView::Version,
            Outcome::Help => OutcomeView::Help,
            Outcome::Rejected(error) => OutcomeView::Rejected(error.message@),
            Outcome::Failed(error) => OutcomeView::Failed(error@),
            Outcome::Done => OutcomeView::Done,
        }
    }
}

/// What the `use` command records in its builder: both flags, and the three
/// positional arguments.
pub open spec fn use_config(args: ArgsView) -> Config {
    Config::initial(parse_schema()).accept_flag(
        parse_schema(),
        "verbose"@,
        args.flag_verbose,
    ).accept_flag(parse_schema(), "archive"@, args.flag_archive).accept_arg(
        parse_schema(),
        "module"@,
        args.arg_module,
    ).accept_arg(parse_schema(), "input"@, args.arg_input).accept_arg(
        parse_schema(),
        "output"@,
        args.arg_output,
    )
}

/// What the `compile` command records in its builder: both flags, the module
/// and the output. The input is not recorded.
pub open spec fn compile_config(args: ArgsView) -> Config {
    Config::initial(compile_schema()).accept_flag(
        compile_schema(),
        "verbose"@,
        args.flag_verbose,
    ).accept_flag(compile_schema(), "archive"@, args.flag_archive).accept_arg(
        compile_schema(),
        "module"@,
        args.arg_module,
    ).accept_arg(compile_schema(), "output"@, args.arg_output)
}

/// What the runner of a `use` command holds.
pub open spec fn use_holds(args: ArgsView) -> Config {
    Config {
        flags: map!["verbose"@ => args.flag_verbose, "archive"@ => args.flag_archive],
        args: map![
            "module"@ => args.arg_module,
            "input"@ => args.arg_input,
            "output"@ => args.arg_output,
        ],
    }
}

/// What the runner of a `compile` command holds.
pub open spec fn compile_holds(args: ArgsView) -> Config {
    Config {
        flags: map!["verbose"@ => args.flag_verbose, "archive"@ => args.flag_archive],
        args: map!["module"@ => args.arg_module, "output"@ => args.arg_output],
    }
}

/// The `use` command has all that its builder requires: the builder yields
/// a runner, which holds the two flags and the three arguments.
pub proof fn lemma_use_is_complete(args: ArgsView)
    ensures
        finalize(parse_schema(), use_config(args)) == Ok::<Config, MissingField>(use_holds(args)),
{
    lemma_names_differ();
    reveal_with_fuel(Config::first_missing, 4);
    let schema = parse_schema();
    assert(schema.args[0] == "module"@);
    assert(schema.args[1] == "input"@);
    assert(schema.args[2] == "output"@);
    let config = use_config(args);
    let holds = config.recognised(schema);
    assert(holds.flags =~= use_holds(args).flags);
    assert(holds.args =~= use_holds(args).args);
}

/// The `compile` command has all that its builder requires, whatever the
/// input is: the builder yields a runner, which holds the two flags, the
/// module and the output, and nothing under `input`.
pub proof fn lemma_compile_is_complete(args: ArgsView)
    ensures
        finalize(compile_schema(), compile_config(args)) == Ok::<Config, MissingField>(
            compile_holds(args),
        ),
        !compile_holds(args).args.contains_key("input"@),
        !compile_schema().args.contains("input"@),
{
    lemma_names_differ();
    reveal_with_fuel(Config::first_missing, 3);
    let schema = compile_schema();
    assert(schema.args[0] == "module"@);
    assert(schema.args[1] == "output"@);
    let config = compile_config(args);
    let holds = config.recognised(schema);
    assert(holds.flags =~= compile_holds(args).flags);
    assert(holds.args =~= compile_holds(args).args);
}

/// A builder of the `use` command yields a runner exactly when `module`,
/// `input` and `output` are all recorded; one of the `compile` command,
/// exactly when `module` and `output` are, whether or not anything is
/// recorded under `input`.
pub proof fn lemma_required_arguments(config: Config)
    ensures
        finalize(parse_schema(), config) is Ok <==> config.args.contains_key("module"@)
            && config.args.contains_key("input"@) && config.args.contains_key("output"@),
        finalize(compile_schema(), config) is Ok <==> config.args.contains_key("module"@)
            && config.args.contains_key("output"@),
{
    reveal_with_fuel(Config::first_missing, 4);
    assert(parse_schema().args[0] == "module"@);
    assert(parse_schema().args[1] == "input"@);
    assert(parse_schema().args[2] == "output"@);
    assert(compile_schema().args[0] == "module"@);
    assert(compile_schema().args[1] == "output"@);
}

/// Builds the runner of a `use` command from the decoded command line.
pub fn use_runner(args: Args) -> (built: Result<ParseRunner, MissingConfigField>)
    ensures
        built matches Ok(runner) && runner@ == use_holds(args@),
{
    proof {
        lemma_use_is_complete(args@);
    }
    let mut builder = ParseBuilder::new();
    builder.set_flag("verbose".to_owned(), args.flag_verbose).set_flag(
        "archive".to_owned(),
        args.flag_archive,
    ).set_arg("module".to_owned(), args.arg_module).set_arg(
        "input".to_owned(),
        args.arg_input,
    ).set_arg("output".to_owned(), args.arg_output);
    builder.config()
}

/// Builds the runner of a `compile` command from the decoded command line.
/// The input is left aside.
pub fn compile_runner(args: Args) -> (built: Result<CompileRunner, MissingConfigField>)
    ensures
        built matches Ok(runner) && runner@ == compile_holds(args@),
{
    proof {
        lemma_compile_is_complete(args@);
    }
    let mut builder = CompileBuilder::new();
    builder.set_flag("verbose".to_owned(), args.flag_verbose).set_flag(
        "archive".to_owned(),
        args.flag_archive,
    ).set_arg("module".to_owned(), args.arg_module).set_arg("output".to_owned(), args.arg_output);
    builder.config()
}

/// What a run amounts to: a run that succeeded is done, and one that failed
/// is an error that hands the runner's own words on.
pub fn run_outcome(ran: Result<(), String>) -> (done: Result<(), DispatchError>)
    ensures
        match ran {
            Ok(_) => done is Ok,
            Err(text) => done matches Err(error) && error@ == DispatchErrorView::RunFailed(text@),
        },
{
    match ran {
        Ok(()) => Ok(()),
        Err(text) => Err(DispatchError::RunFailed(text)),
    }
}

/// Carries out a `compile` command: builds its runner and runs it.
pub fn setup_and_use_compile(args: Args) -> (done: Result<(), DispatchError>)
    ensures
        done is Ok,
{
    match compile_runner(args) {
        Ok(runner) => run_outcome(runner.run()),
        Err(missing) => Err(DispatchError::MissingConfigField(missing)),
    }
}

/// Carries out a `use` command: builds its runner and runs it.
pub fn setup_and_use_parse(args: Args) -> (done: Result<(), DispatchError>)
    ensures
        done is Ok,
{
    match use_runner(args) {
        Ok(runner) => run_outcome(runner.run()),
        Err(missing) => Err(DispatchError::MissingConfigField(missing)),
    }
}

/// How a decoded command line ends: `--version` and `--help` are answered
/// first, an archive is refused next, and only then the command counts.
pub open spec fn dispatched(args: ArgsView) -> OutcomeView {
    if args.flag_version {
        OutcomeView::Version
    } else if args.flag_help {
        OutcomeView::Help
    } else if args.flag_archive {
        OutcomeView::Failed(DispatchErrorView::UnsupportedFeature)
    } else if args.cmd_use || args.cmd_compile {
        OutcomeView::Done
    } else {
        OutcomeView::Failed(DispatchErrorView::UnrecognizedCommand)
    }
}

/// The exit code of the process: 0 where the version or the usage text was
/// asked for or the command ran to its end, 1 in every other case.
pub open spec fn exit_code_of(outcome: OutcomeView) -> u8 {
    match outcome {
        OutcomeView::Version | OutcomeView::Help | OutcomeView::Done => 0,
        OutcomeView::Rejected(_) | OutcomeView::Failed(_) => 1,
    }
}

/// What is said of an error.
pub open spec fn error_message(error: DispatchErrorView) -> Seq<char> {
    match error {
        DispatchErrorView::MissingConfigField(missing) => missing_field_message(missing),
        DispatchErrorView::UnsupportedFeature => "Archive format is not currently implemented"@,
        DispatchErrorView::UnrecognizedCommand => "No Such Command Currently Not Implemented"@,
        DispatchErrorView::RunFailed(text) => text,
    }
}

/// What the process prints: the version after a `v`, the usage text, the
/// message of what went wrong, or nothing.
pub open spec fn message_of(outcome: OutcomeView, version: Seq<char>) -> Option<Seq<char>> {
    match outcome {
        OutcomeView::Version => Some("v"@ + version),
        OutcomeView::Help => Some(USAGE@),
        OutcomeView::Rejected(text) => Some(text),
        OutcomeView::Failed(error) => Some(error_message(error)),
        OutcomeView::Done => None,
    }
}

/// A module given as an archive is refused with exit code 1, whatever the
/// command and the arguments are, unless the version or the usage text was
/// asked for.
pub proof fn lemma_archive_is_refused(args: ArgsView)
    requires
        args.flag_archive,
        !args.flag_version,
        !args.flag_help,
    ensures
        dispatched(args) == OutcomeView::Failed(DispatchErrorView::UnsupportedFeature),
        exit_code_of(dispatched(args)) == 1,
{
}

/// `--version` and `--help` end with exit code 0 and without a command
/// being carried out: what else the command line held, a command or an
/// archive flag, makes no difference.
pub proof fn lemma_version_and_help_come_first(args: ArgsView, other: ArgsView)
    requires
        args.flag_version || args.flag_help,
        other.flag_version == args.flag_version,
        other.flag_help == args.flag_help,
    ensures
        dispatched(args) == if args.flag_version {
            OutcomeView::Version
        } else {
            OutcomeView::Help
        },
        exit_code_of(dispatched(args)) == 0,
        dispatched(other) == dispatched(args),
{
}

impl DispatchError {
    /// The message of this error.
    pub fn message(&self) -> (text: String)
        ensures
            text@ == error_message(self@),
    {
        match self {
            DispatchError::MissingConfigField(missing) => missing.message(),
            DispatchError::UnsupportedFeature => {
                "Archive format is not currently implemented".to_owned()
            },
            DispatchError::UnrecognizedCommand => {
                "No Such Command Currently Not Implemented".to_owned()
            },
            DispatchError::RunFailed(text) => text.clone(),
        }
    }
}

impl Outcome {
    /// The exit code of the process.
    pub fn exit_code(&self) -> (code: u8)
        ensures
            code == exit_code_of(self@),
    {
        match self {
            Outcome::Version | Outcome::Help | Outcome::Done => 0,
            Outcome::Rejected(_) | Outcome::Failed(_) => 1,
        }
    }

    /// What the process prints, given the version of the program.
    pub fn message(&self, version: &str) -> (text: Option<String>)
        ensures
            text_of(text) == message_of(self@, version@),
    {
        match self {
            Outcome::Version => {
                let mut line = "v".to_owned();
                line.append(version);
                Some(line)
            },
            Outcome::Help => Some(USAGE.to_owned()),
            Outcome::Rejected(error) => Some(error.message.clone()),
            Outcome::Failed(error) => Some(error.message()),
            Outcome::Done => None,
        }
    }
}

/// Carries out a decoded command line.
pub fn dispatch(args: Args) -> (outcome: Outcome)
    ensures
        outcome@ == dispatched(args@),
{
    if args.flag_version {
        return Outcome::Version;
    }
    if args.flag_help {
        return Outcome::Help;
    }
    if args.flag_archive {
        return Outcome::Failed(DispatchError::UnsupportedFeature);
    }
    let result = if args.cmd_use {
        setup_and_use_parse(args)
    } else if args.cmd_compile {
        setup_and_use_compile(args)
    } else {
        Result::Err(DispatchError::UnrecognizedCommand)
    };
    match result {
        Ok(()) => Outcome::Done,
        Err(error) => Outcome::Failed(error),
    }
}

/// Decodes a full command line, the program's name first, and carries it
/// out. A command line that does not fit the usage text is rejected with
/// docopt's message.
pub fn execute(argv: &Vec<String>) -> (outcome: Outcome)
    ensures
        match usage_match(USAGE@, texts(argv@)) {
            Some(values) => outcome@ == dispatched(args_of(values)),
            None => outcome is Rejected,
        },
{
    match decode_arguments(argv) {
        Ok(args) => dispatch(args),
        Err(error) => Outcome::Rejected(error),
    }
}

} // verus!
