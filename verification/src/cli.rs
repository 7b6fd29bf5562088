//! The command line: its usage text, and decoding it with docopt.
use vstd::prelude::*;

verus! {

/// The usage text, in docopt's notation. It is the grammar of the command
/// line.
pub const USAGE: &'static str = "
Compile or run a Moka module

Usage:
    moka [-va] use <module> <input> <output>
    moka [-va] compile <module> <output>
    moka -h
    moka --version

Options:
    -a, --archive   The specified module is an archive instead of a folder
    -h, --help      Show this text
    -v, --verbose   Enable verbose output
    --version       Show the installed Moka version
";

/// `docopt::ArgvMap`, the map of what docopt has matched. Nothing of its
/// inside is known here but what `argv_map_values` names.
#[verifier::external_type_specification]
#[verifier::external_body]
pub struct ExArgvMap(docopt::ArgvMap);

/// `docopt::Error`, the error of docopt. It is carried through as it is.
#[verifier::external_type_specification]
#[verifier::external_body]
pub struct ExUsageError(docopt::Error);

/// A value that docopt has matched, as `docopt::Value` holds it.
pub enum Matched {
    /// A flag without argument: whether it was given.
    Switch(bool),
    /// A repeated flag: how often it was given.
    Counted(u64),
    /// A positional or flag argument, where it was given.
    Plain(Option<Seq<char>>),
    /// A repeated argument.
    List(Seq<Seq<char>>),
}

impl Matched {
    /// The value as `docopt::Value::as_bool` reads it.
    pub open spec fn as_bool(self) -> bool {
        match self {
            Matched::Switch(on) => on,
            Matched::Counted(times) => times > 0,
            Matched::Plain(text) => text is Some,
            Matched::List(texts) => texts.len() > 0,
        }
    }

    /// The value as `docopt::Value::as_str` reads it.
    pub open spec fn as_text(self) -> Seq<char> {
        match self {
            Matched::Plain(Some(text)) => text,
            _ => Seq::empty(),
        }
    }
}

/// What `docopt::ArgvMap::find` finds in a map under each key: the matched
/// values under their own keys and under the synonyms of those keys.
pub uninterp spec fn argv_map_values(map: docopt::ArgvMap) -> Map<Seq<char>, Matched>;

/// What docopt matches when it holds a full command line (the program's name
/// first) against a usage text, with no special handling of `--help` or
/// `--version`: the values as `argv_map_values` gives them, or `None` where
/// docopt refuses the usage text or the command line.
pub uninterp spec fn usage_match(usage: Seq<char>, argv: Seq<Seq<char>>) -> Option<
    Map<Seq<char>, Matched>,
>;

/// What is under a key, read as a flag. Nothing under the key reads as
/// `false`.
pub open spec fn bool_under(values: Map<Seq<char>, Matched>, key: Seq<char>) -> bool {
    values.contains_key(key) && values[key].as_bool()
}

/// What is under a key, read as a text. Nothing under the key reads as the
/// empty text.
pub open spec fn text_under(values: Map<Seq<char>, Matched>, key: Seq<char>) -> Seq<char> {
    if values.contains_key(key) {
        values[key].as_text()
    } else {
        Seq::empty()
    }
}

/// The texts of a command line.
pub open spec fn texts(argv: Seq<String>) -> Seq<Seq<char>> {
    Seq::new(argv.len(), |i: int| argv[i]@)
}

/// `docopt::ArgvMap::get_bool`: the value under the key read with
/// `Value::as_bool`, and `false` where `find` finds nothing.
pub assume_specification[ docopt::ArgvMap::get_bool ](map: &docopt::ArgvMap, key: &str) -> (value:
    bool)
    ensures
        value == bool_under(argv_map_values(*map), key@),
;

/// `docopt::ArgvMap::get_str`: the value under the key read with
/// `Value::as_str`, and the empty text where `find` finds nothing.
pub assume_specification<'a, 'b>[ docopt::ArgvMap::get_str ](
    map: &'a docopt::ArgvMap,
    key: &'b str,
) -> (value: &'a str)
    ensures
        value@ == text_under(argv_map_values(*map), key@),
;

/// Calls `docopt::Docopt::new` on the usage text and then, with the handling
/// of `--help` switched off and the given command line set, `Docopt::parse`.
/// Whether docopt finds a match, and what it matches, depends on the two
/// texts alone. The contract is claimed of this crate's usage text only: it
/// names every flag and has no `[options]` shortcut, so that docopt's parser
/// neither panics on a command line nor walks a hash map to build its
/// result.
#[verifier::external_body]
fn match_usage(usage: &str, argv: &Vec<String>) -> (matched: Result<
    docopt::ArgvMap,
    docopt::Error,
>)
    requires
        usage@ == USAGE@,
    ensures
        match matched {
            Ok(map) => usage_match(usage@, texts(argv@)) == Some(argv_map_values(map)),
            Err(_) => usage_match(usage@, texts(argv@)) is None,
        },
{
    docopt::Docopt::new(usage).and_then(|docopt| docopt.help(false).argv(argv.iter()).parse())
}

/// Calls `to_string` on a `docopt::Error`: the message that docopt prints
/// for it. Nothing is claimed of the message.
#[verifier::external_body]
fn usage_error_text(error: &docopt::Error) -> (text: String) {
    error.to_string()
}

/// The decoded command line.
#[derive(Clone, Debug, PartialEq, Eq)]
pub struct Args {
    pub flag_archive: bool,
    pub flag_verbose: bool,
    pub flag_version: bool,
    pub flag_help: bool,
    pub cmd_use: bool,
    pub cmd_compile: bool,
    pub arg_module: String,
    pub arg_input: String,
    pub arg_output: String,
}

/// The decoded command line, with its texts as sequences of characters.
pub struct ArgsView {
    pub flag_archive: bool,
    pub flag_verbose: bool,
    pub flag_version: bool,
    pub flag_help: bool,
    pub cmd_use: bool,
    pub cmd_compile: bool,
    pub arg_module: Seq<char>,
    pub arg_input: Seq<char>,
    pub arg_output: Seq<char>,
}

impl View for Args {
    type V = ArgsView;

    open spec fn view(&self) -> ArgsView {
        ArgsView {
            flag_archive: self.flag_archive,
            flag_verbose: self.flag_verbose,
            flag_version: self.flag_version,
            flag_help: self.flag_help,
            cmd_use: self.cmd_use,
            cmd_compile: self.cmd_compile,
            arg_module: self.arg_module@,
            arg_input: self.arg_input@,
            arg_output: self.arg_output@,
        }
    }
}

/// A command line that does not fit the usage text.
#[derive(Clone, Debug, PartialEq, Eq)]
pub struct UsageError {
    /// What docopt says of the command line, the usage patterns included.
    pub message: String,
}

/// The decoded form of what docopt has matched: each flag and command under
/// its docopt key, each positional argument under its name in angle
/// brackets.
pub open spec fn args_of(values: Map<Seq<char>, Matched>) -> ArgsView {
    ArgsView {
        flag_archive: bool_under(values, "--archive"@),
        flag_verbose: bool_under(values, "--verbose"@),
        flag_version: bool_under(values, "--version"@),
        flag_help: bool_under(values, "--help"@),
        cmd_use: bool_under(values, "use"@),
        cmd_compile: bool_under(values, "compile"@),
        arg_module: text_under(values, "<module>"@),
        arg_input: text_under(values, "<input>"@),
        arg_output: text_under(values, "<output>"@),
    }
}

/// Reads the flags, the commands and the positional arguments out of what
/// docopt has matched.
pub fn args_from_matches(map: &docopt::ArgvMap) -> (args: Args)
    ensures
        args@ == args_of(argv_map_values(*map)),
{
    Args {
        flag_archive: map.get_bool("--archive"),
        flag_verbose: map.get_bool("--verbose"),
        flag_version: map.get_bool("--version"),
        flag_help: map.get_bool("--help"),
        cmd_use: map.get_bool("use"),
        cmd_compile: map.get_bool("compile"),
        arg_module: map.get_str("<module>").to_owned(),
        arg_input: map.get_str("<input>").to_owned(),
        arg_output: map.get_str("<output>").to_owned(),
    }
}

/// Decodes a full command line, the program's name first. A command line
/// that fits the usage text is decoded; any other is refused with docopt's
/// message.
pub fn decode_arguments(argv: &Vec<String>) -> (decoded: Result<Args, UsageError>)
    ensures
        match usage_match(USAGE@, texts(argv@)) {
            Some(values) => decoded matches Ok(args) && args@ == args_of(values),
            None => decoded is Err,
        },
{
    match match_usage(USAGE, argv) {
        Ok(map) => Ok(args_from_matches(&map)),
        Err(error) => Err(UsageError { message: usage_error_text(&error) }),
    }
}

} // verus!
