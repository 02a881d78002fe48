use wrkflw::action_step::with_args_words;
use wrkflw::engine::runs_args_words;
use wrkflw::step_exec::{guarded_outcome, StepOutcome};
use wrkflw::steps::{StepLoopState, StepResult, StepStatus};
use wrkflw::strmap::StrMap;
use wrkflw::workflow_commands::{
    apply_step_environment_updates, env_file_entries, process_workflow_commands, set_output_commands,
};

fn s(x: &str) -> String {
    x.to_string()
}

fn output_of(m: &StrMap<StrMap<String>>, step: &str, key: &str) -> Option<String> {
    m.get(step).and_then(|o| o.get(key)).cloned()
}

#[test]
fn process_workflow_commands_sets_output() {
    let mut outputs: StrMap<StrMap<String>> = StrMap::new();
    process_workflow_commands("::set-output name=version::1.2.3\nsome normal output\n", Some("build"), &mut outputs);
    assert_eq!(output_of(&outputs, "build", "version").unwrap(), "1.2.3");
}

#[test]
fn process_workflow_commands_multiple_set_outputs() {
    let mut outputs: StrMap<StrMap<String>> = StrMap::new();
    process_workflow_commands(
        "::set-output name=a::1\n::set-output name=b::2\nnormal line\n::set-output name=a::overwritten\n",
        Some("step1"),
        &mut outputs,
    );
    assert_eq!(output_of(&outputs, "step1", "a").unwrap(), "overwritten");
    assert_eq!(output_of(&outputs, "step1", "b").unwrap(), "2");
}

#[test]
fn process_workflow_commands_no_step_id_ignores_set_output() {
    let mut outputs: StrMap<StrMap<String>> = StrMap::new();
    process_workflow_commands("::set-output name=x::val\n", None, &mut outputs);
    assert_eq!(outputs.len(), 0);
}

#[test]
fn set_output_lines_are_recognised() {
    assert_eq!(
        set_output_commands("x\r\n::set-output name=k::v::w\r\n  ::set-output name=no::1\n::set-output name=open\n"),
        vec![(s("k"), s("v::w"))]
    );
    assert!(set_output_commands("").is_empty());
}

#[test]
fn step_loop_records_set_outputs() {
    let mut state = StepLoopState::new();
    let ok = StepResult::new(s("Build"), StepStatus::Success, s("::set-output name=a::1\n"));
    let outcome = guarded_outcome(Ok(ok), s("Build"), None);
    assert!(!state.process_outcome(outcome, Some("step1"), false));
    assert_eq!(output_of(&state.step_outputs_map, "step1", "a").unwrap(), "1");
    let skipped = StepOutcome::Skipped(StepResult::new(s("S"), StepStatus::Skipped, s("::set-output name=b::2")));
    state.process_outcome(skipped, Some("step2"), false);
    assert!(state.step_outputs_map.get("step2").is_none());
}

#[test]
fn environment_file_entries() {
    let text = "A=1\r\nB<<EOF\nline one\nline two\nEOF\nC=x<<y\nD<<E=F\nz\nE=F\nnoise\n=empty\n";
    assert_eq!(
        env_file_entries(text),
        vec![(s("A"), s("1")), (s("B"), s("line one\nline two")), (s("C"), s("x<<y")), (s("D"), s("z"))]
    );
    assert_eq!(env_file_entries("K<<END\nnever closed\n"), vec![]);
    assert!(env_file_entries("").is_empty());
}

#[test]
fn environment_files_update_env_and_outputs() {
    let mut env = StrMap::new();
    env.insert(s("KEEP"), s("k"));
    env.insert(s("A"), s("old"));
    let mut outputs: StrMap<StrMap<String>> = StrMap::new();
    apply_step_environment_updates(&mut env, &mut outputs, Some("gen"), "version=2.0\nnotes<<X\na\nb\nX\n", "A=new\nB=b\n");
    assert_eq!(env.get("A").map(|v| v.as_str()), Some("new"));
    assert_eq!(env.get("B").map(|v| v.as_str()), Some("b"));
    assert_eq!(env.get("KEEP").map(|v| v.as_str()), Some("k"));
    assert_eq!(output_of(&outputs, "gen", "version").unwrap(), "2.0");
    assert_eq!(output_of(&outputs, "gen", "notes").unwrap(), "a\nb");
    let mut none: StrMap<StrMap<String>> = StrMap::new();
    apply_step_environment_updates(&mut env, &mut none, None, "x=1\n", "");
    assert_eq!(none.len(), 0);
}

#[test]
fn split_results_become_arguments_or_errors() {
    assert_eq!(runs_args_words(Some(vec![s("a"), s("b c")]), "\"a 'b c'\""), Ok(vec![s("a"), s("b c")]));
    assert_eq!(runs_args_words(None, "\"'open\""), Err(s("unmatched quote in runs.args: \"'open\"")));
    assert_eq!(with_args_words("o/a@v1", Some(vec![]), "\"\""), Ok(vec![]));
    assert_eq!(
        with_args_words("o/a@v1", None, "\"x\\\\\""),
        Err(s("Failed to parse 'with.args' for action 'o/a@v1': unmatched quote in \"x\\\\\""))
    );
}
