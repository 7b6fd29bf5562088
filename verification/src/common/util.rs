//! The contract between a builder and the runner it yields.
//!
//! A builder accumulates named flags and named arguments. What it has
//! accumulated is modelled by [`Config`], and what a runner kind recognises
//! and requires by [`Schema`]. [`finalize`] says what a builder owes when it
//! is asked for its runner.
use vstd::prelude::*;
use vstd::string::StringExecFns;

verus! {

/// The runner kinds.
#[derive(Clone, Copy, Debug, PartialEq, Eq, Structural)]
pub enum RunnerKind {
    /// Interprets a module on an input (the `use` command).
    Parse,
    /// Compiles a module (the `compile` command).
    Compile,
}

/// What a runner kind recognises: the names of its flags, and the names of
/// its arguments in the order in which they are checked. Every recognised
/// argument is required.
pub struct Schema {
    pub kind: RunnerKind,
    pub flags: Set<Seq<char>>,
    pub args: Seq<Seq<char>>,
}

/// What a builder has accumulated: the last value recorded for each flag
/// and for each argument.
pub struct Config {
    pub flags: Map<Seq<char>, bool>,
    pub args: Map<Seq<char>, Seq<char>>,
}

/// A required argument that was never recorded.
pub struct MissingField {
    pub kind: RunnerKind,
    pub field: Seq<char>,
}

/// The error of a builder that was asked for its runner while a required
/// argument was missing.
#[derive(Clone, Debug, PartialEq, Eq)]
pub struct MissingConfigField {
    /// The kind of runner that was asked for.
    pub kind: RunnerKind,
    /// The name of the missing argument.
    pub field: String,
}

impl View for MissingConfigField {
    type V = MissingField;

    open spec fn view(&self) -> MissingField {
        MissingField { kind: self.kind, field: self.field@ }
    }
}

/// The name of a runner kind, as messages give it.
pub open spec fn runner_name(kind: RunnerKind) -> Seq<char> {
    match kind {
        RunnerKind::Parse => "ParseRunner"@,
        RunnerKind::Compile => "CompileRunner"@,
    }
}

/// What is said of a missing argument.
pub open spec fn missing_field_message(missing: MissingField) -> Seq<char> {
    "Incorrectly configured "@ + runner_name(missing.kind) + ", missing '"@ + missing.field
        + "' def"@
}

impl MissingConfigField {
    /// The message of this error, which names the runner kind and the
    /// missing argument.
    pub fn message(&self) -> (text: String)
        ensures
            text@ == missing_field_message(self@),
    {
        let mut text = "Incorrectly configured ".to_owned();
        match self.kind {
            RunnerKind::Parse => text.append("ParseRunner"),
            RunnerKind::Compile => text.append("CompileRunner"),
        }
        text.append(", missing '");
        text.append(self.field.as_str());
        text.append("' def");
        text
    }
}

/// A validated unit of work with one operation, `run`.
pub trait ProgramFragment {
    /// Does the work, and says why where it could not.
    fn run(&self) -> Result<(), String>;
}

/// A builder that accumulates named flags and arguments, and yields a
/// runner of type `R` once every required argument is there.
pub trait ConfigurableProgram<R: View<V = Config>>: Sized {
    /// What this builder recognises and requires.
    spec fn schema() -> Schema;

    /// What this builder has accumulated.
    spec fn accumulated(&self) -> Config;

    /// Records a flag under a recognised name; any other name is ignored.
    fn set_flag(&mut self, name: String, value: bool) -> (chained: &mut Self)
        ensures
            chained.accumulated() == old(self).accumulated().accept_flag(
                Self::schema(),
                name@,
                value,
            ),
            *final(self) == *final(chained),
    ;

    /// Records an argument under a recognised name; any other name is
    /// ignored.
    fn set_arg(&mut self, name: String, value: String) -> (chained: &mut Self)
        ensures
            chained.accumulated() == old(self).accumulated().accept_arg(
                Self::schema(),
                name@,
                value@,
            ),
            *final(self) == *final(chained),
    ;

    /// Yields the runner, or the first required argument that is missing.
    fn config(&self) -> (built: Result<R, MissingConfigField>)
        ensures
            match finalize(Self::schema(), self.accumulated()) {
                Ok(holds) => built matches Ok(runner) && runner@ == holds,
                Err(missing) => built matches Err(error) && error@ == missing,
            },
    ;
}

impl Schema {
    /// The names of the arguments as a set.
    pub open spec fn arg_names(self) -> Set<Seq<char>> {
        Set::new(|name: Seq<char>| self.args.contains(name))
    }
}

impl Config {
    /// The configuration of a fresh builder: every flag of the schema off,
    /// no argument recorded.
    pub open spec fn initial(schema: Schema) -> Config {
        Config {
            flags: Map::new(|name: Seq<char>| schema.flags.contains(name), |name: Seq<char>| false),
            args: Map::empty(),
        }
    }

    /// Holds when nothing is recorded under a name that the schema does not
    /// recognise, and every flag of the schema has a value.
    pub open spec fn fits(self, schema: Schema) -> bool {
        &&& self.flags.dom() == schema.flags
        &&& self.args.dom().subset_of(schema.arg_names())
    }

    /// Records a flag if the schema recognises its name, and changes nothing
    /// otherwise.
    pub open spec fn accept_flag(self, schema: Schema, name: Seq<char>, value: bool) -> Config {
        if schema.flags.contains(name) {
            Config { flags: self.flags.insert(name, value), args: self.args }
        } else {
            self
        }
    }

    /// Records an argument if the schema recognises its name, and changes
    /// nothing otherwise.
    pub open spec fn accept_arg(self, schema: Schema, name: Seq<char>, value: Seq<char>) -> Config {
        if schema.args.contains(name) {
            Config { flags: self.flags, args: self.args.insert(name, value) }
        } else {
            self
        }
    }

    /// The first of the given names under which no argument is recorded.
    pub open spec fn first_missing(self, names: Seq<Seq<char>>) -> Option<Seq<char>>
        decreases names.len(),
    {
        if names.len() == 0 {
            None
        } else if !self.args.contains_key(names[0]) {
            Some(names[0])
        } else {
            self.first_missing(names.drop_first())
        }
    }

    /// What is recorded under the names that the schema recognises.
    pub open spec fn recognised(self, schema: Schema) -> Config {
        Config {
            flags: self.flags.restrict(schema.flags),
            args: self.args.restrict(schema.arg_names()),
        }
    }
}

/// Adds an entry to a map where a value is there.
pub open spec fn with_entry(
    map: Map<Seq<char>, Seq<char>>,
    name: Seq<char>,
    value: Option<String>,
) -> Map<Seq<char>, Seq<char>> {
    match value {
        Some(text) => map.insert(name, text@),
        None => map,
    }
}

/// The names that the runner kinds use differ from one another.
pub proof fn lemma_names_differ()
    ensures
        "verbose"@ != "archive"@,
        "module"@ != "input"@,
        "module"@ != "output"@,
        "input"@ != "output"@,
{
    reveal_strlit("verbose");
    reveal_strlit("archive");
    reveal_strlit("module");
    reveal_strlit("input");
    reveal_strlit("output");
    assert("verbose"@[0] != "archive"@[0]);
    assert("module"@[0] != "output"@[0]);
}

/// What a builder of the given schema owes when it is asked for its runner:
/// the first required argument that is missing, or else a runner that holds
/// what was recorded under the recognised names.
pub open spec fn finalize(schema: Schema, config: Config) -> Result<Config, MissingField> {
    match config.first_missing(schema.args) {
        Some(field) => Err(MissingField { kind: schema.kind, field }),
        None => Ok(config.recognised(schema)),
    }
}

/// If any of the names is missing, `first_missing` names one of them that
/// is missing.
pub proof fn lemma_first_missing_some(config: Config, names: Seq<Seq<char>>)
    requires
        exists|i: int| 0 <= i < names.len() && !config.args.contains_key(#[trigger] names[i]),
    ensures
        config.first_missing(names) matches Some(field) && names.contains(field)
            && !config.args.contains_key(field),
    decreases names.len(),
{
    if config.args.contains_key(names[0]) {
        let i = choose|i: int| 0 <= i < names.len() && !config.args.contains_key(#[trigger] names[i]);
        let rest = names.drop_first();
        assert(rest[i - 1] == names[i]);
        lemma_first_missing_some(config, rest);
        let field = config.first_missing(rest)->0;
        let j = choose|j: int| 0 <= j < rest.len() && rest[j] == field;
        assert(names[j + 1] == field);
    } else {
        assert(names[0] == names[0]);
    }
}

/// If none of the names is missing, `first_missing` finds nothing.
pub proof fn lemma_first_missing_none(config: Config, names: Seq<Seq<char>>)
    requires
        forall|i: int| 0 <= i < names.len() ==> config.args.contains_key(#[trigger] names[i]),
    ensures
        config.first_missing(names) is None,
    decreases names.len(),
{
    if names.len() > 0 {
        let rest = names.drop_first();
        assert(config.args.contains_key(names[0]));
        assert forall|i: int| 0 <= i < rest.len() implies config.args.contains_key(
            #[trigger] rest[i],
        ) by {
            assert(rest[i] == names[i + 1]);
        }
        lemma_first_missing_none(config, rest);
    }
}

/// A builder asked for its runner while a required argument is missing
/// fails, and the error names the runner kind and one of the missing
/// arguments. This holds of every schema and every configuration.
pub proof fn lemma_missing_field_is_reported(schema: Schema, config: Config)
    requires
        exists|i: int|
            0 <= i < schema.args.len() && !config.args.contains_key(#[trigger] schema.args[i]),
    ensures
        finalize(schema, config) matches Err(missing) && missing.kind == schema.kind
            && schema.args.contains(missing.field) && !config.args.contains_key(missing.field),
{
    lemma_first_missing_some(config, schema.args);
}

/// A builder that has every required argument yields a runner, and the
/// runner holds, under each recognised name, the value that the builder has
/// recorded under it.
pub proof fn lemma_complete_config_is_kept(schema: Schema, config: Config)
    requires
        forall|i: int|
            0 <= i < schema.args.len() ==> config.args.contains_key(#[trigger] schema.args[i]),
    ensures
        finalize(schema, config) matches Ok(runner) && (forall|name: Seq<char>|
            schema.args.contains(name) ==> runner.args.contains_key(name) && runner.args[name]
                == config.args[name]) && (forall|name: Seq<char>|
            schema.flags.contains(name) && config.flags.contains_key(name)
                ==> runner.flags.contains_key(name) && runner.flags[name] == config.flags[name]),
{
    lemma_first_missing_none(config, schema.args);
}

/// The argument recorded last under a name is the one that is kept:
/// recording twice under one name is recording the second value only.
pub proof fn lemma_last_arg_wins(
    schema: Schema,
    config: Config,
    name: Seq<char>,
    first: Seq<char>,
    second: Seq<char>,
)
    ensures
        config.accept_arg(schema, name, first).accept_arg(schema, name, second)
            == config.accept_arg(schema, name, second),
        schema.args.contains(name) ==> config.accept_arg(schema, name, first).accept_arg(
            schema,
            name,
            second,
        ).args[name] == second,
{
    assert(config.args.insert(name, first).insert(name, second) =~= config.args.insert(
        name,
        second,
    ));
}

/// The flag recorded last under a name is the one that is kept.
pub proof fn lemma_last_flag_wins(
    schema: Schema,
    config: Config,
    name: Seq<char>,
    first: bool,
    second: bool,
)
    ensures
        config.accept_flag(schema, name, first).accept_flag(schema, name, second)
            == config.accept_flag(schema, name, second),
        schema.flags.contains(name) ==> config.accept_flag(schema, name, first).accept_flag(
            schema,
            name,
            second,
        ).flags[name] == second,
{
    assert(config.flags.insert(name, first).insert(name, second) =~= config.flags.insert(
        name,
        second,
    ));
}

/// Recording under a name that the schema does not recognise changes
/// nothing, and no runner holds anything under such a name.
pub proof fn lemma_unrecognised_name_is_dropped(
    schema: Schema,
    config: Config,
    name: Seq<char>,
    flag_value: bool,
    arg_value: Seq<char>,
)
    ensures
        !schema.flags.contains(name) ==> config.accept_flag(schema, name, flag_value) == config,
        !schema.args.contains(name) ==> config.accept_arg(schema, name, arg_value) == config,
        !schema.flags.contains(name) ==> (finalize(schema, config) matches Ok(runner)
            ==> !runner.flags.contains_key(name)),
        !schema.args.contains(name) ==> (finalize(schema, config) matches Ok(runner)
            ==> !runner.args.contains_key(name)),
{
}

/// Recording keeps a configuration within its schema.
pub proof fn lemma_accept_keeps_fit(
    schema: Schema,
    config: Config,
    name: Seq<char>,
    flag_value: bool,
    arg_value: Seq<char>,
)
    requires
        config.fits(schema),
    ensures
        config.accept_flag(schema, name, flag_value).fits(schema),
        config.accept_arg(schema, name, arg_value).fits(schema),
        Config::initial(schema).fits(schema),
{
    assert(config.accept_flag(schema, name, flag_value).flags.dom() =~= schema.flags);
    assert(Config::initial(schema).flags.dom() =~= schema.flags);
}

} // verus!
