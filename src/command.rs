//! Commands that the application hands to its task runner, and the builder
//! that assembles them.

use vstd::prelude::*;
use crate::text::opt_text;

verus! {

/// How a command is run.
#[derive(Clone, Copy, Debug, PartialEq, Eq, Structural)]
pub enum CommandType {
    /// Run as the user.
    Normal,
    /// Run with root rights, through the session daemon.
    Privileged,
    /// Run through the AUR helper.
    Aur,
}

/// Status of a task as shown to the user.
#[derive(Clone, Copy, Debug, PartialEq, Eq, Structural)]
pub enum TaskStatus {
    Pending,
    Running,
    Success,
    Failed,
    Cancelled,
}

/// Result of running a command.
#[derive(Clone, Copy, Debug, PartialEq, Eq, Structural)]
pub enum CommandResult {
    Success,
    /// The command failed, with its exit code when one is known.
    Failure { exit_code: Option<i32> },
}

/// One step of a task.
#[derive(Clone, Debug)]
pub struct Command {
    pub command_type: CommandType,
    /// The program to run.
    pub program: String,
    pub args: Vec<String>,
    /// What the step does, in words for the user.
    pub description: String,
}

pub struct CommandView {
    pub command_type: CommandType,
    pub program: Seq<char>,
    pub args: Seq<Seq<char>>,
    pub description: Seq<char>,
}

impl View for Command {
    type V = CommandView;

    open spec fn view(&self) -> CommandView {
        CommandView {
            command_type: self.command_type,
            program: self.program@,
            args: self.args.deep_view(),
            description: self.description@,
        }
    }
}

/// Name under which an AUR command is handed to the runner, which picks the
/// installed helper.
pub open spec fn aur_program() -> Seq<char> {
    "aur"@
}

/// A `Command` under construction.
#[derive(Debug)]
pub struct CommandBuilder {
    command_type: CommandType,
    program: Option<String>,
    args: Vec<String>,
    description: Option<String>,
}

pub struct BuilderView {
    pub command_type: CommandType,
    pub program: Option<Seq<char>>,
    pub args: Seq<Seq<char>>,
    pub description: Option<Seq<char>>,
}

impl View for CommandBuilder {
    type V = BuilderView;

    closed spec fn view(&self) -> BuilderView {
        BuilderView {
            command_type: self.command_type,
            program: opt_text(self.program),
            args: self.args.deep_view(),
            description: opt_text(self.description),
        }
    }
}

/// Whether `build` can complete: a description is set, and a program unless
/// the command goes through the AUR helper.
pub open spec fn is_complete(b: BuilderView) -> bool {
    b.description is Some && (b.command_type == CommandType::Aur || b.program is Some)
}

impl CommandBuilder {
    /// Set the program to run; an AUR command ignores it.
    pub fn program(self, program: &str) -> (r: Self)
        ensures
            r@ == (BuilderView { program: Some(program@), ..self@ }),
    {
        CommandBuilder { program: Some(program.to_owned()), ..self }
    }

    /// Set all arguments at once.
    pub fn args(self, args: &[&str]) -> (r: Self)
        ensures
            r@ == (BuilderView { args: args@.map_values(|a: &str| a@), ..self@ }),
    {
        let mut v: Vec<String> = Vec::new();
        let mut i: usize = 0;
        while i < args.len()
            invariant
                i <= args@.len(),
                v.deep_view() == args@.subrange(0, i as int).map_values(|a: &str| a@),
            decreases args@.len() - i,
        {
            let ghost before = v.deep_view();
            v.push(args[i].to_owned());
            assert(v.deep_view() =~= before.push(args@[i as int]@));
            i = i + 1;
            assert(v.deep_view() =~= args@.subrange(0, i as int).map_values(|a: &str| a@));
        }
        assert(args@.subrange(0, i as int) =~= args@);
        CommandBuilder { args: v, ..self }
    }

    /// Set the description shown to the user.
    pub fn description(self, description: &str) -> (r: Self)
        ensures
            r@ == (BuilderView { description: Some(description@), ..self@ }),
    {
        CommandBuilder { description: Some(description.to_owned()), ..self }
    }

    /// The finished command. An AUR command runs `aur`; the others run the
    /// program that was set.
    pub fn build(self) -> (r: Command)
        requires
            is_complete(self@),
        ensures
            r@.command_type == self@.command_type,
            r@.program == (if self@.command_type == CommandType::Aur {
                aur_program()
            } else {
                self@.program->0
            }),
            r@.args == self@.args,
            r@.description == self@.description->0,
    {
        let program = match self.command_type {
            CommandType::Aur => "aur".to_owned(),
            _ => match self.program {
                Some(p) => p,
                None => "aur".to_owned(),
            },
        };
        let description = match self.description {
            Some(d) => d,
            None => String::new(),
        };
        Command { command_type: self.command_type, program, args: self.args, description }
    }
}

impl Command {
    /// Start building a command.
    pub fn builder() -> (r: CommandBuilderType) {
        CommandBuilderType
    }
}

/// The first step of the builder: choose the kind of command.
#[derive(Debug)]
pub struct CommandBuilderType;

pub open spec fn empty_builder(t: CommandType) -> BuilderView {
    BuilderView { command_type: t, program: None, args: seq![], description: None }
}

impl CommandBuilderType {
    fn start(t: CommandType) -> (r: CommandBuilder)
        ensures
            r@ == empty_builder(t),
    {
        let r = CommandBuilder { command_type: t, program: None, args: Vec::new(), description: None };
        assert(r@.args =~= Seq::<Seq<char>>::empty());
        r
    }

    /// A command run as the user.
    pub fn normal(self) -> (r: CommandBuilder)
        ensures
            r@ == empty_builder(CommandType::Normal),
    {
        Self::start(CommandType::Normal)
    }

    /// A command run with root rights.
    pub fn privileged(self) -> (r: CommandBuilder)
        ensures
            r@ == empty_builder(CommandType::Privileged),
    {
        Self::start(CommandType::Privileged)
    }

    /// A command run through the AUR helper.
    pub fn aur(self) -> (r: CommandBuilder)
        ensures
            r@ == empty_builder(CommandType::Aur),
    {
        Self::start(CommandType::Aur)
    }
}

} // verus!
