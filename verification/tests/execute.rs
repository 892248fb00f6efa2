use code_executer::error::CodeExecuteError;
use code_executer::evaluator::{Code, CodeAttributes, EvaluatorId, Evaluators};
use code_executer::execute::CodeExecuter;
use code_executer::reader::ReaderAction;
use code_executer::status::ProcessStatus;

fn code(contents: &str, evaluator_id: Option<EvaluatorId>) -> Code {
    Code { contents: contents.to_string(), attributes: CodeAttributes { evaluator_id } }
}

fn tokens(items: &[&str]) -> Vec<String> {
    items.iter().map(|item| item.to_string()).collect()
}

#[test]
fn code_without_evaluator_is_not_executable() {
    let evaluators = Evaluators::new();
    let result = CodeExecuter::execute(&code("echo hi", None), &evaluators);
    assert!(matches!(result, Err(CodeExecuteError::NotExecutableCode)));
}

#[test]
fn code_without_evaluator_is_not_executable_with_evaluators_defined() {
    let mut evaluators = Evaluators::new();
    evaluators.define("sh".to_string(), tokens(&["sh"]));
    let result = CodeExecuter::execute(&code("", None), &evaluators);
    assert!(matches!(result, Err(CodeExecuteError::NotExecutableCode)));
}

#[test]
fn undefined_evaluator_is_reported_by_name() {
    let evaluators = Evaluators::new();
    let wanted = Some(EvaluatorId::Custom("that-name".to_string()));
    let result = CodeExecuter::execute(&code("print(1)", wanted), &evaluators);
    match result {
        Err(CodeExecuteError::EvaluatorNotDefined(name)) => assert_eq!(name, "that-name"),
        other => panic!("unexpected result: {:?}", other),
    }
}

#[test]
fn undefined_evaluator_is_reported_among_others() {
    let mut evaluators = Evaluators::new();
    evaluators.define("python".to_string(), tokens(&["python3", "-u"]));
    let wanted = Some(EvaluatorId::Custom("pythons".to_string()));
    let result = CodeExecuter::execute(&code("print(1)", wanted), &evaluators);
    match result {
        Err(CodeExecuteError::EvaluatorNotDefined(name)) => assert_eq!(name, "pythons"),
        other => panic!("unexpected result: {:?}", other),
    }
}

#[test]
fn shell_is_not_looked_up_among_the_evaluators() {
    let mut evaluators = Evaluators::new();
    evaluators.define("sh".to_string(), tokens(&["bash", "-e"]));
    let launch = CodeExecuter::execute(&code("true", Some(EvaluatorId::Shell)), &evaluators).unwrap();
    let invocation = launch.source_written(Ok("/tmp/source".to_string())).unwrap();
    assert_eq!(invocation.program(), "sh");
    assert_eq!(invocation.arguments(), &tokens(&["/tmp/source"]));
}

#[test]
fn shell_runs_the_source_with_sh() {
    let evaluators = Evaluators::new();
    let contents = "echo 'hello world'\necho 'bye'";
    let launch = CodeExecuter::execute(&code(contents, Some(EvaluatorId::Shell)), &evaluators).unwrap();
    assert_eq!(launch.source(), contents);
    let invocation = launch.source_written(Ok("/tmp/.tmpAbCdEf".to_string())).unwrap();
    assert_eq!(invocation.program(), "sh");
    assert_eq!(invocation.arguments(), &tokens(&["/tmp/.tmpAbCdEf"]));
}

#[test]
fn custom_evaluator_runs_its_command_with_the_path_last() {
    let mut evaluators = Evaluators::new();
    evaluators.define("python".to_string(), tokens(&["python3", "-u", "-B"]));
    evaluators.define("ruby".to_string(), tokens(&["ruby"]));
    let wanted = Some(EvaluatorId::Custom("python".to_string()));
    let launch = CodeExecuter::execute(&code("print(1)", wanted), &evaluators).unwrap();
    assert_eq!(launch.source(), "print(1)");
    let invocation = launch.source_written(Ok("/tmp/source".to_string())).unwrap();
    assert_eq!(invocation.program(), "python3");
    assert_eq!(invocation.arguments(), &tokens(&["-u", "-B", "/tmp/source"]));
}

#[test]
fn evaluator_defined_twice_keeps_the_later_command() {
    let mut evaluators = Evaluators::new();
    evaluators.define("lua".to_string(), tokens(&["lua5.1"]));
    evaluators.define("lua".to_string(), tokens(&["lua5.4", "-W"]));
    assert_eq!(evaluators.get("lua"), Some(&tokens(&["lua5.4", "-W"])));
    assert_eq!(evaluators.get("lu"), None);
}

#[test]
fn evaluator_with_empty_command_runs_the_source_itself() {
    let mut evaluators = Evaluators::new();
    evaluators.define("direct".to_string(), Vec::new());
    let wanted = Some(EvaluatorId::Custom("direct".to_string()));
    let launch = CodeExecuter::execute(&code("#!/bin/sh\n", wanted), &evaluators).unwrap();
    let invocation = launch.source_written(Ok("/tmp/source".to_string())).unwrap();
    assert_eq!(invocation.program(), "/tmp/source");
    assert!(invocation.arguments().is_empty());
}

#[test]
fn begun_launch_keeps_command_and_source() {
    let launch = CodeExecuter::execute_shell(&tokens(&["node", "--no-warnings"]), "console.log(1)");
    assert_eq!(launch.source(), "console.log(1)");
    let invocation = launch.source_written(Ok("p".to_string())).unwrap();
    assert_eq!(invocation.program(), "node");
    assert_eq!(invocation.arguments(), &tokens(&["--no-warnings", "p"]));
}

#[test]
fn failed_source_is_a_temp_file_error() {
    let launch = CodeExecuter::execute_shell(&tokens(&["sh"]), "true");
    let cause = std::io::Error::new(std::io::ErrorKind::PermissionDenied, "no scratch space");
    match launch.source_written(Err(cause)) {
        Err(CodeExecuteError::TempFile(carried)) => {
            assert_eq!(carried.kind(), std::io::ErrorKind::PermissionDenied);
            assert_eq!(carried.to_string(), "no scratch space");
        },
        other => panic!("unexpected result: {:?}", other),
    }
}

#[test]
fn failed_spawn_is_a_spawn_error() {
    let launch = CodeExecuter::execute_shell(&tokens(&["no-such-interpreter"]), "true");
    let invocation = launch.source_written(Ok("/tmp/source".to_string())).unwrap();
    let cause = std::io::Error::new(std::io::ErrorKind::NotFound, "no such file");
    match invocation.spawned(Err(cause)) {
        Err(CodeExecuteError::SpawnProcess(carried)) => {
            assert_eq!(carried.kind(), std::io::ErrorKind::NotFound);
            assert_eq!(carried.to_string(), "no such file");
        },
        other => panic!("unexpected result: {:?}", other),
    }
}

#[test]
fn spawned_process_gets_a_fresh_reader() {
    let launch = CodeExecuter::execute_shell(&tokens(&["sh"]), "true");
    let invocation = launch.source_written(Ok("/tmp/source".to_string())).unwrap();
    let reader = invocation.spawned(Ok(())).unwrap();
    assert_eq!(reader.pending(), ReaderAction::ReadOutput);
    let state = reader.state();
    assert!(state.output.is_empty());
    assert!(state.error_output.is_empty());
    assert_eq!(state.status, ProcessStatus::Running);
}
