use moka::common::util::{ConfigurableProgram, MissingConfigField, ProgramFragment, RunnerKind};
use moka::compile::compile_runner::CompileBuilder;
use moka::parse::parse_runner::ParseBuilder;

fn s(text: &str) -> String {
    text.to_string()
}

#[test]
fn parse_builder_without_arguments_misses_module() {
    let builder = ParseBuilder::new();
    let error = builder.config().err().unwrap();
    assert_eq!(error, MissingConfigField { kind: RunnerKind::Parse, field: s("module") });
}

#[test]
fn parse_builder_reports_the_first_missing_argument() {
    let mut builder = ParseBuilder::new();
    builder.set_arg(s("module"), s("mymod"));
    let error = builder.config().err().unwrap();
    assert_eq!(error.kind, RunnerKind::Parse);
    assert_eq!(error.field, "input");

    builder.set_arg(s("input"), s("in.dat"));
    let error = builder.config().err().unwrap();
    assert_eq!(error.field, "output");

    let mut other = ParseBuilder::new();
    other.set_arg(s("output"), s("out.bin"));
    other.set_arg(s("input"), s("in.dat"));
    assert_eq!(other.config().err().unwrap().field, "module");
}

#[test]
fn parse_builder_with_all_arguments_yields_its_runner() {
    let mut builder = ParseBuilder::new();
    builder
        .set_flag(s("verbose"), true)
        .set_arg(s("module"), s("mymod"))
        .set_arg(s("input"), s("in.dat"))
        .set_arg(s("output"), s("out.bin"));
    let runner = builder.config().ok().unwrap();
    assert!(runner.is_verbose());
    assert!(!runner.is_archive());
    assert_eq!(runner.module(), "mymod");
    assert_eq!(runner.input(), "in.dat");
    assert_eq!(runner.output(), "out.bin");
    assert_eq!(runner.run(), Ok(()));
}

#[test]
fn parse_builder_keeps_the_last_value() {
    let mut builder = ParseBuilder::new();
    builder
        .set_flag(s("archive"), true)
        .set_flag(s("archive"), false)
        .set_flag(s("verbose"), false)
        .set_flag(s("verbose"), true)
        .set_arg(s("module"), s("first"))
        .set_arg(s("input"), s("in.dat"))
        .set_arg(s("output"), s("a.bin"))
        .set_arg(s("module"), s("second"))
        .set_arg(s("output"), s("b.bin"));
    let runner = builder.config().ok().unwrap();
    assert!(runner.is_verbose());
    assert!(!runner.is_archive());
    assert_eq!(runner.module(), "second");
    assert_eq!(runner.input(), "in.dat");
    assert_eq!(runner.output(), "b.bin");
}

#[test]
fn parse_builder_ignores_unknown_names() {
    let mut builder = ParseBuilder::new();
    builder
        .set_flag(s("verbos"), true)
        .set_flag(s("Archive"), true)
        .set_flag(s(""), true)
        .set_arg(s("modul"), s("x"))
        .set_arg(s("INPUT"), s("y"))
        .set_arg(s("output "), s("z"));
    assert_eq!(builder.config().err().unwrap().field, "module");

    builder
        .set_arg(s("module"), s("mymod"))
        .set_arg(s("input"), s("in.dat"))
        .set_arg(s("output"), s("out.bin"))
        .set_arg(s("outputs"), s("other.bin"));
    let runner = builder.config().ok().unwrap();
    assert!(!runner.is_verbose());
    assert!(!runner.is_archive());
    assert_eq!(runner.module(), "mymod");
    assert_eq!(runner.input(), "in.dat");
    assert_eq!(runner.output(), "out.bin");
}

#[test]
fn parse_runner_outlives_changes_to_its_builder() {
    let mut builder = ParseBuilder::new();
    builder
        .set_arg(s("module"), s("mymod"))
        .set_arg(s("input"), s("in.dat"))
        .set_arg(s("output"), s("out.bin"));
    let runner = builder.config().ok().unwrap();
    builder.set_arg(s("module"), s("changed")).set_flag(s("verbose"), true);
    assert_eq!(runner.module(), "mymod");
    assert!(!runner.is_verbose());
    let again = builder.config().ok().unwrap();
    assert_eq!(again.module(), "changed");
    assert!(again.is_verbose());
}

#[test]
fn compile_builder_requires_module_and_output_only() {
    let builder = CompileBuilder::new();
    let error = builder.config().err().unwrap();
    assert_eq!(error, MissingConfigField { kind: RunnerKind::Compile, field: s("module") });

    let mut builder = CompileBuilder::new();
    builder.set_arg(s("module"), s("mymod"));
    assert_eq!(builder.config().err().unwrap().field, "output");

    builder.set_arg(s("output"), s("out.bin"));
    let runner = builder.config().ok().unwrap();
    assert_eq!(runner.module(), "mymod");
    assert_eq!(runner.output(), "out.bin");
    assert!(!runner.is_verbose());
    assert!(!runner.is_archive());
    assert_eq!(runner.run(), Ok(()));
}

#[test]
fn compile_builder_ignores_input() {
    let mut builder = CompileBuilder::new();
    builder.set_arg(s("input"), s("in.dat")).set_arg(s("output"), s("out.bin"));
    assert_eq!(builder.config().err().unwrap().field, "module");
    builder.set_arg(s("module"), s("mymod")).set_flag(s("archive"), true);
    let runner = builder.config().ok().unwrap();
    assert_eq!(runner.module(), "mymod");
    assert_eq!(runner.output(), "out.bin");
    assert!(runner.is_archive());
}

#[test]
fn compile_builder_keeps_the_last_value() {
    let mut builder = CompileBuilder::new();
    builder
        .set_arg(s("output"), s("a.bin"))
        .set_arg(s("module"), s("first"))
        .set_arg(s("module"), s("second"))
        .set_flag(s("verbose"), true)
        .set_flag(s("verbose"), false)
        .set_flag(s("bogus"), true);
    let runner = builder.config().ok().unwrap();
    assert_eq!(runner.module(), "second");
    assert_eq!(runner.output(), "a.bin");
    assert!(!runner.is_verbose());
}

#[test]
fn missing_field_message_names_kind_and_field() {
    let error = MissingConfigField { kind: RunnerKind::Parse, field: s("module") };
    assert_eq!(error.message(), "Incorrectly configured ParseRunner, missing 'module' def");
    let error = MissingConfigField { kind: RunnerKind::Parse, field: s("input") };
    assert_eq!(error.message(), "Incorrectly configured ParseRunner, missing 'input' def");
    let error = MissingConfigField { kind: RunnerKind::Compile, field: s("output") };
    assert_eq!(error.message(), "Incorrectly configured CompileRunner, missing 'output' def");
}

#[test]
fn empty_texts_count_as_recorded() {
    let mut builder = ParseBuilder::new();
    builder.set_arg(s("module"), s("")).set_arg(s("input"), s("")).set_arg(s("output"), s(""));
    let runner = builder.config().ok().unwrap();
    assert_eq!(runner.module(), "");
    assert_eq!(runner.input(), "");
    assert_eq!(runner.output(), "");
}
