//! The builder and the runner of the `compile` command.
use crate::common::text::same_text;
use crate::common::util::{
    lemma_names_differ, with_entry, Config, ConfigurableProgram, MissingConfigField,
    ProgramFragment, RunnerKind, Schema,
};
use vstd::prelude::*;

verus! {

/// What the `compile` command recognises: the flags `verbose` and `archive`,
/// and the arguments `module` and `output`, both required.
pub open spec fn compile_schema() -> Schema {
    Schema {
        kind: RunnerKind::Compile,
        flags: set!["verbose"@, "archive"@],
        args: seq!["module"@, "output"@],
    }
}

/// Accumulates the configuration of a `compile` command.
pub struct CompileBuilder {
    is_verbose: bool,
    is_archive: bool,
    module_dir: Option<String>,
    output_path: Option<String>,
}

/// A validated `compile` command.
pub struct CompileRunner {
    is_verbose: bool,
    is_archive: bool,
    module_dir: String,
    output_path: String,
}

impl View for CompileRunner {
    type V = Config;

    /// What the runner holds: its two flags and its arguments, each under
    /// its name.
    closed spec fn view(&self) -> Config {
        Config {
            flags: map!["verbose"@ => self.is_verbose, "archive"@ => self.is_archive],
            args: map!["module"@ => self.module_dir@, "output"@ => self.output_path@],
        }
    }
}

impl CompileBuilder {
    /// A builder with both flags off and no argument recorded.
    pub fn new() -> (builder: CompileBuilder)
        ensures
            builder.accumulated() == Config::initial(compile_schema()),
    {
        let builder = CompileBuilder {
            is_verbose: false,
            is_archive: false,
            module_dir: Option::None,
            output_path: Option::None,
        };
        proof {
            lemma_names_differ();
            assert(builder.accumulated().flags =~= Config::initial(compile_schema()).flags);
        }
        builder
    }
}

impl ConfigurableProgram<CompileRunner> for CompileBuilder {
    open spec fn schema() -> Schema {
        compile_schema()
    }

    closed spec fn accumulated(&self) -> Config {
        Config {
            flags: map!["verbose"@ => self.is_verbose, "archive"@ => self.is_archive],
            args: with_entry(
                with_entry(Map::empty(), "module"@, self.module_dir),
                "output"@,
                self.output_path,
            ),
        }
    }

    fn set_flag(&mut self, name: String, value: bool) -> (chained: &mut Self) {
        proof {
            lemma_names_differ();
        }
        if same_text(name.as_str(), "verbose") {
            self.is_verbose = value;
            assert(self.accumulated().flags =~= old(self).accumulated().flags.insert(name@, value));
        } else if same_text(name.as_str(), "archive") {
            self.is_archive = value;
            assert(self.accumulated().flags =~= old(self).accumulated().flags.insert(name@, value));
        }
        self
    }

    fn set_arg(&mut self, name: String, value: String) -> (chained: &mut Self) {
        proof {
            lemma_names_differ();
            assert(compile_schema().args[0] == "module"@);
            assert(compile_schema().args[1] == "output"@);
        }
        if same_text(name.as_str(), "module") {
            self.module_dir = Option::Some(value);
            assert(self.accumulated().args =~= old(self).accumulated().args.insert(name@, value@));
        } else if same_text(name.as_str(), "output") {
            self.output_path = Option::Some(value);
            assert(self.accumulated().args =~= old(self).accumulated().args.insert(name@, value@));
        }
        self
    }

    fn config(&self) -> (built: Result<CompileRunner, MissingConfigField>) {
        proof {
            lemma_names_differ();
            reveal_with_fuel(Config::first_missing, 3);
        }
        let module = match &self.module_dir {
            Some(value) => value,
            None => return Err(
                MissingConfigField { kind: RunnerKind::Compile, field: "module".to_owned() },
            ),
        };
        let output = match &self.output_path {
            Some(value) => value,
            None => return Err(
                MissingConfigField { kind: RunnerKind::Compile, field: "output".to_owned() },
            ),
        };
        let runner = CompileRunner {
            is_verbose: self.is_verbose,
            is_archive: self.is_archive,
            module_dir: module.clone(),
            output_path: output.clone(),
        };
        proof {
            let holds = self.accumulated().recognised(compile_schema());
            assert(runner@.flags =~= holds.flags);
            assert(runner@.args =~= holds.args);
        }
        Ok(runner)
    }
}

/// Whatever was recorded, a builder holds nothing under a name that its
/// schema does not recognise, and a value for each flag.
pub proof fn lemma_compile_builder_fits(builder: CompileBuilder)
    ensures
        builder.accumulated().fits(compile_schema()),
{
    lemma_names_differ();
    let schema = compile_schema();
    assert(schema.args[0] == "module"@);
    assert(schema.args[1] == "output"@);
    assert(builder.accumulated().flags.dom() =~= schema.flags);
}

/// A runner is complete: it holds a value for each flag and for each
/// required argument, and nothing else.
pub proof fn lemma_compile_runner_is_complete(runner: CompileRunner)
    ensures
        runner@.flags.dom() == compile_schema().flags,
        runner@.args.dom() == compile_schema().arg_names(),
{
    let schema = compile_schema();
    assert(schema.args[0] == "module"@);
    assert(schema.args[1] == "output"@);
    assert(runner@.flags.dom() =~= schema.flags);
    assert(runner@.args.dom() =~= schema.arg_names());
}

impl CompileRunner {
    /// Whether verbose output was asked for.
    pub fn is_verbose(&self) -> (on: bool)
        ensures
            on == self@.flags["verbose"@],
    {
        proof {
            lemma_names_differ();
        }
        self.is_verbose
    }

    /// Whether the module was given as an archive.
    pub fn is_archive(&self) -> (on: bool)
        ensures
            on == self@.flags["archive"@],
    {
        self.is_archive
    }

    /// Where the module is.
    pub fn module(&self) -> (path: &str)
        ensures
            path@ == self@.args["module"@],
    {
        proof {
            lemma_names_differ();
        }
        self.module_dir.as_str()
    }

    /// Where the output goes.
    pub fn output(&self) -> (path: &str)
        ensures
            path@ == self@.args["output"@],
    {
        self.output_path.as_str()
    }
}

impl ProgramFragment for CompileRunner {
    /// Nothing is compiled yet: the run succeeds.
    fn run(&self) -> (done: Result<(), String>)
        ensures
            done is Ok,
    {
        Result::Ok(())
    }
}

} // verus!
