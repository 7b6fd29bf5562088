//! The builder and the runner of the `use` command.
use crate::common::text::same_text;
use crate::common::util::{
    lemma_names_differ, with_entry, Config, ConfigurableProgram, MissingConfigField,
    ProgramFragment, RunnerKind, Schema,
};
use vstd::prelude::*;

verus! {

/// What the `use` command recognises: the flags `verbose` and `archive`, and
/// the arguments `module`, `input` and `output`, all three required.
pub open spec fn parse_schema() -> Schema {
    Schema {
        kind: RunnerKind::Parse,
        flags: set!["verbose"@, "archive"@],
        args: seq!["module"@, "input"@, "output"@],
    }
}

/// Accumulates the configuration of a `use` command.
pub struct ParseBuilder {
    is_verbose: bool,
    is_archive: bool,
    module_dir: Option<String>,
    input_path: Option<String>,
    output_path: Option<String>,
}

/// A validated `use` command.
pub struct ParseRunner {
    is_verbose: bool,
    is_archive: bool,
    module_dir: String,
    input_path: String,
    output_path: String,
}

impl View for ParseRunner {
    type V = Config;

    /// What the runner holds: its two flags and its arguments, each under
    /// its name.
    closed spec fn view(&self) -> Config {
        Config {
            flags: map!["verbose"@ => self.is_verbose, "archive"@ => self.is_archive],
            args: map![
                "module"@ => self.module_dir@,
                "input"@ => self.input_path@,
                "output"@ => self.output_path@,
            ],
        }
    }
}

impl ParseBuilder {
    /// A builder with both flags off and no argument recorded.
    pub fn new() -> (builder: ParseBuilder)
        ensures
            builder.accumulated() == Config::initial(parse_schema()),
    {
        let builder = ParseBuilder {
            is_verbose: false,
            is_archive: false,
            module_dir: Option::None,
            input_path: Option::None,
            output_path: Option::None,
        };
        proof {
            lemma_names_differ();
            assert(builder.accumulated().flags =~= Config::initial(parse_schema()).flags);
        }
        builder
    }
}

impl ConfigurableProgram<ParseRunner> for ParseBuilder {
    open spec fn schema() -> Schema {
        parse_schema()
    }

    closed spec fn accumulated(&self) -> Config {
        Config {
            flags: map!["verbose"@ => self.is_verbose, "archive"@ => self.is_archive],
            args: with_entry(
                with_entry(
                    with_entry(Map::empty(), "module"@, self.module_dir),
                    "input"@,
                    self.input_path,
                ),
                "output"@,
                self.output_path,
            ),
        }
    }

    fn set_flag(&mut self, name: String, value: bool) -> (chained: &mut Self) {
        proof {
            lemma_names_differ();
        }
        if same_text(name.as_str(), "verbose") {
            self.is_verbose = value;
            assert(self.accumulated().flags =~= old(self).accumulated().flags.insert(name@, value));
        } else if same_text(name.as_str(), "archive") {
            self.is_archive = value;
            assert(self.accumulated().flags =~= old(self).accumulated().flags.insert(name@, value));
        }
        self
    }

    fn set_arg(&mut self, name: String, value: String) -> (chained: &mut Self) {
        proof {
            lemma_names_differ();
            assert(parse_schema().args[0] == "module"@);
            assert(parse_schema().args[1] == "input"@);
            assert(parse_schema().args[2] == "output"@);
        }
        if same_text(name.as_str(), "module") {
            self.module_dir = Option::Some(value);
            assert(self.accumulated().args =~= old(self).accumulated().args.insert(name@, value@));
        } else if same_text(name.as_str(), "input") {
            self.input_path = Option::Some(value);
            assert(self.accumulated().args =~= old(self).accumulated().args.insert(name@, value@));
        } else if same_text(name.as_str(), "output") {
            self.output_path = Option::Some(value);
            assert(self.accumulated().args =~= old(self).accumulated().args.insert(name@, value@));
        }
        self
    }

    fn config(&self) -> (built: Result<ParseRunner, MissingConfigField>) {
        proof {
            lemma_names_differ();
            reveal_with_fuel(Config::first_missing, 4);
        }
        let module = match &self.module_dir {
            Some(value) => value,
            None => return Err(
                MissingConfigField { kind: RunnerKind::Parse, field: "module".to_owned() },
            ),
        };
        let input = match &self.input_path {
            Some(value) => value,
            None => return Err(
                MissingConfigField { kind: RunnerKind::Parse, field: "input".to_owned() },
            ),
        };
        let output = match &self.output_path {
            Some(value) => value,
            None => return Err(
                MissingConfigField { kind: RunnerKind::Parse, field: "output".to_owned() },
            ),
        };
        let runner = ParseRunner {
            is_verbose: self.is_verbose,
            is_archive: self.is_archive,
            module_dir: module.clone(),
            input_path: input.clone(),
            output_path: output.clone(),
        };
        proof {
            let holds = self.accumulated().recognised(parse_schema());
            assert(runner@.flags =~= holds.flags);
            assert(runner@.args =~= holds.args);
        }
        Ok(runner)
    }
}

/// Whatever was recorded, a builder holds nothing under a name that its
/// schema does not recognise, and a value for each flag.
pub proof fn lemma_parse_builder_fits(builder: ParseBuilder)
    ensures
        builder.accumulated().fits(parse_schema()),
{
    lemma_names_differ();
    let schema = parse_schema();
    assert(schema.args[0] == "module"@);
    assert(schema.args[1] == "input"@);
    assert(schema.args[2] == "output"@);
    assert(builder.accumulated().flags.dom() =~= schema.flags);
}

/// A runner is complete: it holds a value for each flag and for each
/// required argument, and nothing else.
pub proof fn lemma_parse_runner_is_complete(runner: ParseRunner)
    ensures
        runner@.flags.dom() == parse_schema().flags,
        runner@.args.dom() == parse_schema().arg_names(),
{
    let schema = parse_schema();
    assert(schema.args[0] == "module"@);
    assert(schema.args[1] == "input"@);
    assert(schema.args[2] == "output"@);
    assert(runner@.flags.dom() =~= schema.flags);
    assert(runner@.args.dom() =~= schema.arg_names());
}

impl ParseRunner {
    /// Whether verbose output was asked for.
    pub fn is_verbose(&self) -> (on: bool)
        ensures
            on == self@.flags["verbose"@],
    {
        proof {
            lemma_names_differ();
        }
        self.is_verbose
    }

    /// Whether the module was given as an archive.
    pub fn is_archive(&self) -> (on: bool)
        ensures
            on == self@.flags["archive"@],
    {
        self.is_archive
    }

    /// Where the module is.
    pub fn module(&self) -> (path: &str)
        ensures
            path@ == self@.args["module"@],
    {
        proof {
            lemma_names_differ();
        }
        self.module_dir.as_str()
    }

    /// Where the input is.
    pub fn input(&self) -> (path: &str)
        ensures
            path@ == self@.args["input"@],
    {
        proof {
            lemma_names_differ();
        }
        self.input_path.as_str()
    }

    /// Where the output goes.
    pub fn output(&self) -> (path: &str)
        ensures
            path@ == self@.args["output"@],
    {
        self.output_path.as_str()
    }
}

impl ProgramFragment for ParseRunner {
    /// Nothing is interpreted yet: the run succeeds.
    fn run(&self) -> (done: Result<(), String>)
        ensures
            done is Ok,
    {
        Result::Ok(())
    }
}

} // verus!
