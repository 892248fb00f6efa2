//! Code fragments, the evaluators that run them, and the commands that the
//! evaluators stand for.

use vstd::prelude::*;
use vstd::hash_map::StringHashMap;

verus! {

/// The evaluator that a piece of code asks for.
#[derive(Clone, Debug)]
pub enum EvaluatorId {
    /// The built-in shell.
    Shell,
    /// An evaluator that the host defines, by its name.
    Custom(String),
}

/// The attributes of a piece of code.
#[derive(Clone, Debug)]
pub struct CodeAttributes {
    /// The evaluator that runs the code, where the code is meant to run.
    pub evaluator_id: Option<EvaluatorId>,
}

/// A piece of code.
#[derive(Clone, Debug)]
pub struct Code {
    /// The source text.
    pub contents: String,
    /// The attributes of the code.
    pub attributes: CodeAttributes,
}

/// The command of the built-in shell: the one token `sh`.
pub open spec fn shell_command() -> Seq<Seq<char>> {
    seq!["sh"@]
}

/// The evaluators that the host defines: each name with its command, the
/// interpreter followed by its fixed arguments.
pub struct Evaluators {
    commands: StringHashMap<Vec<String>>,
}

impl View for Evaluators {
    type V = Map<Seq<char>, Seq<Seq<char>>>;

    closed spec fn view(&self) -> Map<Seq<char>, Seq<Seq<char>>> {
        self.commands@.map_values(|command: Vec<String>| command.deep_view())
    }
}

impl Evaluators {
    /// No evaluator defined.
    pub fn new() -> (evaluators: Self)
        ensures
            evaluators@ == Map::<Seq<char>, Seq<Seq<char>>>::empty(),
    {
        let evaluators = Evaluators { commands: StringHashMap::new() };
        assert(evaluators@ =~= Map::<Seq<char>, Seq<Seq<char>>>::empty());
        evaluators
    }

    /// Define the evaluator `name` as `command`. A command defined under
    /// that name before is replaced.
    pub fn define(&mut self, name: String, command: Vec<String>)
        ensures
            final(self)@ == old(self)@.insert(name@, command.deep_view()),
    {
        self.commands.insert(name, command);
        assert(self@ =~= old(self)@.insert(name@, command.deep_view()));
    }

    /// The command of the evaluator `name`, if it is defined.
    pub fn get(&self, name: &str) -> (command: Option<&Vec<String>>)
        ensures
            match command {
                Some(tokens) => self@.contains_key(name@) && tokens.deep_view() == self@[name@],
                None => !self@.contains_key(name@),
            },
    {
        self.commands.get(name)
    }
}

/// The command that runs code with the evaluator `evaluator_id`, where
/// `evaluators` are the ones defined; `None` for a custom evaluator that is
/// not among them.
pub open spec fn command_of(evaluator_id: EvaluatorId, evaluators: Map<Seq<char>, Seq<Seq<char>>>)
    -> Option<Seq<Seq<char>>> {
    match evaluator_id {
        EvaluatorId::Shell => Some(shell_command()),
        EvaluatorId::Custom(name) => if evaluators.contains_key(name@) {
            Some(evaluators[name@])
        } else {
            None
        },
    }
}

} // verus!
