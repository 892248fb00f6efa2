//! Code execution: from a piece of code to the process that runs it.
//!
//! A launch goes through three decisions. [`CodeExecuter::execute`] picks the
//! command for the code, or refuses code that cannot run. The host then
//! writes the source to a temporary file, and [`Launch::source_written`]
//! turns a written file into the argument vector to spawn, and a failure
//! into the error of the launch. The host spawns that argument vector with
//! standard input closed and both output streams piped, and
//! [`Invocation::spawned`] turns a spawned process into the reader that
//! follows it, and a failure into the error of the launch. Nothing is
//! written or spawned for code that was refused, and nothing is spawned
//! without a written source.

use vstd::prelude::*;
use crate::error::CodeExecuteError;
use crate::evaluator::{command_of, Code, EvaluatorId, Evaluators};
use crate::reader::{ProcessReader, ReaderView};

verus! {

/// Allows executing code.
pub struct CodeExecuter;

/// A launch whose command is known and whose source is still to be written
/// to a temporary file.
#[derive(Debug)]
pub struct Launch {
    args: Vec<String>,
    code: String,
}

/// What a [`Launch`] holds.
pub struct LaunchView {
    /// The interpreter and its fixed arguments.
    pub command: Seq<Seq<char>>,
    /// The text that the temporary file is to hold.
    pub source: Seq<char>,
}

/// A launch whose source is written and whose process is still to be
/// spawned. Its view is the argument vector of the process, the program
/// first; it is never empty.
#[derive(Debug)]
pub struct Invocation {
    program: String,
    arguments: Vec<String>,
}

impl View for Launch {
    type V = LaunchView;

    closed spec fn view(&self) -> LaunchView {
        LaunchView { command: self.args.deep_view(), source: self.code@ }
    }
}

impl View for Invocation {
    type V = Seq<Seq<char>>;

    closed spec fn view(&self) -> Seq<Seq<char>> {
        seq![self.program@] + self.arguments.deep_view()
    }
}

impl CodeExecuter {
    /// Execute a piece of code: pick the command that runs it. Code without
    /// an evaluator is not executable; the shell evaluator stands for the
    /// command `sh`; a custom evaluator stands for the command defined under
    /// its name, and for an error that carries the name where none is.
    pub fn execute(code: &Code, evaluators: &Evaluators) -> (result: Result<
        Launch,
        CodeExecuteError,
    >)
        ensures
            match code.attributes.evaluator_id {
                None => result matches Err(CodeExecuteError::NotExecutableCode),
                Some(evaluator_id) => match command_of(evaluator_id, evaluators@) {
                    Some(command) => result matches Ok(launch) && launch@ == (LaunchView {
                        command,
                        source: code.contents@,
                    }),
                    None => result matches Err(CodeExecuteError::EvaluatorNotDefined(name))
                        && evaluator_id matches EvaluatorId::Custom(wanted) && name@ == wanted@,
                },
            },
    {
        if let Some(evaluator_id) = &code.attributes.evaluator_id {
            match evaluator_id {
                EvaluatorId::Shell => {
                    let mut args: Vec<String> = Vec::new();
                    args.push("sh".to_owned());
                    assert(args.deep_view() =~= seq!["sh"@]);
                    Ok(Self::execute_shell(&args, code.contents.as_str()))
                },
                EvaluatorId::Custom(evaluator_id) => {
                    if let Some(args) = evaluators.get(evaluator_id.as_str()) {
                        Ok(Self::execute_shell(args, code.contents.as_str()))
                    } else {
                        Err(CodeExecuteError::EvaluatorNotDefined(evaluator_id.clone()))
                    }
                },
            }
        } else {
            Err(CodeExecuteError::NotExecutableCode)
        }
    }

    /// Begin the launch of `code` under the command `args`.
    pub fn execute_shell(args: &Vec<String>, code: &str) -> (launch: Launch)
        ensures
            launch@ == (LaunchView { command: args.deep_view(), source: code@ }),
    {
        let launch = Launch { args: args.clone(), code: code.to_owned() };
        assert(launch.args.deep_view() =~= args.deep_view());
        launch
    }
}

impl Launch {
    /// The text that the temporary file is to hold.
    pub fn source(&self) -> (source: &str)
        ensures
            source@ == self@.source,
    {
        self.code.as_str()
    }

    /// Take in what became of the temporary file: the path of the file that
    /// holds the source, written and flushed, or the cause for which it
    /// could not be created, written or flushed. With a path, the process to
    /// spawn has the command of the launch as its first arguments and the
    /// path as its last.
    pub fn source_written(self, file: Result<String, std::io::Error>) -> (result: Result<
        Invocation,
        CodeExecuteError,
    >)
        ensures
            match file {
                Ok(path) => result matches Ok(invocation) && invocation@ == self@.command.push(
                    path@,
                ),
                Err(cause) => result matches Err(CodeExecuteError::TempFile(carried)) && carried
                    == cause,
            },
    {
        match file {
            Ok(path) => {
                let mut arguments = self.args;
                arguments.push(path);
                let ghost whole = arguments.deep_view();
                assert(whole =~= self@.command.push(path@));
                let program = arguments.remove(0);
                assert(seq![program@] + arguments.deep_view() =~= whole);
                Ok(Invocation { program, arguments })
            },
            Err(cause) => Err(CodeExecuteError::TempFile(cause)),
        }
    }
}

impl Invocation {
    /// The program to spawn: the first of the argument vector.
    pub fn program(&self) -> (program: &str)
        ensures
            self@.len() > 0,
            program@ == self@[0],
    {
        self.program.as_str()
    }

    /// The arguments to hand to the program: the argument vector without
    /// its first.
    pub fn arguments(&self) -> (arguments: &Vec<String>)
        ensures
            self@.len() > 0,
            arguments.deep_view() == self@.drop_first(),
    {
        assert(self.arguments.deep_view() =~= self@.drop_first());
        &self.arguments
    }

    /// Take in what became of the spawn: a process, or the cause for which
    /// none was spawned. With a process, the reader that follows it starts
    /// with nothing captured and the status `Running`.
    pub fn spawned(self, process: Result<(), std::io::Error>) -> (result: Result<
        ProcessReader,
        CodeExecuteError,
    >)
        ensures
            match process {
                Ok(_) => result matches Ok(reader) && reader@ == ReaderView::initial(),
                Err(cause) => result matches Err(CodeExecuteError::SpawnProcess(carried))
                    && carried == cause,
            },
    {
        match process {
            Ok(_) => Ok(ProcessReader::new()),
            Err(cause) => Err(CodeExecuteError::SpawnProcess(cause)),
        }
    }
}

} // verus!
