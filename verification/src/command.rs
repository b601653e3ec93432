//! A program to run, with its arguments.

use vstd::prelude::*;
use crate::text::{lemma_views_push, views};

verus! {

/// A program's name and the arguments it is started with. The library only describes the
/// command; the caller starts it.
#[derive(Debug, PartialEq, Eq)]
pub struct CommandLine {
    pub program: String,
    pub args: Vec<String>,
}

/// A command as texts.
pub struct CommandLineModel {
    pub program: Seq<char>,
    pub args: Seq<Seq<char>>,
}

impl View for CommandLine {
    type V = CommandLineModel;

    open spec fn view(&self) -> CommandLineModel {
        CommandLineModel { program: self.program@, args: views(self.args@) }
    }
}

impl CommandLine {
    /// A command without arguments.
    pub fn new(program: &str) -> (command: CommandLine)
        ensures
            command@ == (CommandLineModel { program: program@, args: Seq::empty() }),
    {
        let command = CommandLine { program: String::from_str(program), args: Vec::new() };
        assert(views(command.args@) =~= Seq::<Seq<char>>::empty());
        command
    }

    /// The command with one more argument at the end.
    pub fn arg(self, argument: &str) -> (command: CommandLine)
        ensures
            command@ == (CommandLineModel {
                program: self@.program,
                args: self@.args.push(argument@),
            }),
    {
        let mut command = self;
        let ghost before = command.args@;
        let last = String::from_str(argument);
        proof {
            lemma_views_push(before, last);
        }
        command.args.push(last);
        command
    }
}

} // verus!
