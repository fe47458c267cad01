//! Commands sent to the backend and the answers it gives.

use vstd::prelude::*;

use crate::error::MapError;

verus! {

/// The three operations the backend understands.
#[derive(Clone, Copy, Debug, PartialEq, Eq, Structural)]
pub enum CommandKind {
    /// Look a key up.
    GetKey,
    /// Bind a key to a value.
    SetKey,
    /// Remove a key.
    DelKey,
}

impl CommandKind {
    /// Number of arguments a command of this kind carries.
    pub open spec fn arity_spec(self) -> nat {
        match self {
            CommandKind::GetKey => 1,
            CommandKind::SetKey => 2,
            CommandKind::DelKey => 1,
        }
    }

    /// Number of arguments a command of this kind carries.
    pub fn arity(self) -> (n: usize)
        ensures
            n == self.arity_spec(),
    {
        match self {
            CommandKind::GetKey => 1,
            CommandKind::SetKey => 2,
            CommandKind::DelKey => 1,
        }
    }
}

/// The texts held by a sequence of strings, in order.
pub open spec fn texts(strings: Seq<String>) -> Seq<Seq<char>> {
    Seq::new(strings.len(), |i: int| strings[i]@)
}

/// What a command is: its kind and the texts of its arguments.
pub ghost struct CommandView {
    pub kind: CommandKind,
    pub arguments: Seq<Seq<char>>,
}

impl CommandView {
    /// The argument count is the one the kind asks for.
    pub open spec fn well_formed(self) -> bool {
        self.arguments.len() == self.kind.arity_spec()
    }
}

/// The command a lookup of `key` stands for.
pub open spec fn get_command(key: Seq<char>) -> CommandView {
    CommandView { kind: CommandKind::GetKey, arguments: seq![key] }
}

/// The command that binds `key` to `value`.
pub open spec fn set_command(key: Seq<char>, value: Seq<char>) -> CommandView {
    CommandView { kind: CommandKind::SetKey, arguments: seq![key, value] }
}

/// The command that removes `key`.
pub open spec fn del_command(key: Seq<char>) -> CommandView {
    CommandView { kind: CommandKind::DelKey, arguments: seq![key] }
}

/// One command for the backend.
///
/// A value of this type always carries exactly as many arguments as its kind
/// asks for, so a command of the wrong shape cannot be handed to the backend.
#[derive(Debug, PartialEq, Eq)]
pub struct RpcCommand {
    kind: CommandKind,
    arguments: Vec<String>,
}

impl View for RpcCommand {
    type V = CommandView;

    closed spec fn view(&self) -> CommandView {
        CommandView { kind: self.kind, arguments: texts(self.arguments@) }
    }
}

impl Clone for RpcCommand {
    fn clone(&self) -> (r: RpcCommand)
        ensures
            r@ == self@,
    {
        proof {
            use_type_invariant(self);
        }
        let arguments = self.arguments.clone();
        let r = RpcCommand { kind: self.kind, arguments };
        assert(r@.arguments =~= self@.arguments);
        r
    }
}

impl RpcCommand {
    #[verifier::type_invariant]
    spec fn arity_holds(self) -> bool {
        self.arguments@.len() == self.kind.arity_spec()
    }

    /// Builds a command from a kind and its arguments; refuses an argument
    /// count that the kind does not ask for.
    pub fn new(kind: CommandKind, arguments: Vec<String>) -> (r: Result<RpcCommand, MapError>)
        ensures
            match r {
                Ok(cmd) => {
                    &&& arguments@.len() == kind.arity_spec()
                    &&& cmd@ == CommandView { kind, arguments: texts(arguments@) }
                },
                Err(e) => {
                    &&& arguments@.len() != kind.arity_spec()
                    &&& e == MapError::WrongArity
                },
            },
    {
        if arguments.len() == kind.arity() {
            Ok(RpcCommand { kind, arguments })
        } else {
            Err(MapError::WrongArity)
        }
    }

    /// The command that looks `key` up.
    pub fn get(key: String) -> (cmd: RpcCommand)
        ensures
            cmd@ == get_command(key@),
    {
        let mut arguments: Vec<String> = Vec::new();
        arguments.push(key);
        let cmd = RpcCommand { kind: CommandKind::GetKey, arguments };
        assert(cmd@.arguments =~= seq![key@]);
        cmd
    }

    /// The command that binds `key` to `value`.
    pub fn set(key: String, value: String) -> (cmd: RpcCommand)
        ensures
            cmd@ == set_command(key@, value@),
    {
        let mut arguments: Vec<String> = Vec::new();
        arguments.push(key);
        arguments.push(value);
        let cmd = RpcCommand { kind: CommandKind::SetKey, arguments };
        assert(cmd@.arguments =~= seq![key@, value@]);
        cmd
    }

    /// The command that removes `key`.
    pub fn delete(key: String) -> (cmd: RpcCommand)
        ensures
            cmd@ == del_command(key@),
    {
        let mut arguments: Vec<String> = Vec::new();
        arguments.push(key);
        let cmd = RpcCommand { kind: CommandKind::DelKey, arguments };
        assert(cmd@.arguments =~= seq![key@]);
        cmd
    }

    /// The kind of this command.
    pub fn kind(&self) -> (kind: CommandKind)
        ensures
            kind == self@.kind,
    {
        self.kind
    }

    /// The arguments of this command, in order.
    pub fn arguments(&self) -> (arguments: &Vec<String>)
        ensures
            texts(arguments@) == self@.arguments,
            self@.well_formed(),
    {
        proof {
            use_type_invariant(self);
        }
        &self.arguments
    }

    /// Gives the arguments up, in order.
    pub fn into_arguments(self) -> (arguments: Vec<String>)
        ensures
            texts(arguments@) == self@.arguments,
            self@.well_formed(),
    {
        proof {
            use_type_invariant(&self);
        }
        self.arguments
    }
}

/// What the backend answers to a command.
#[derive(Clone, Debug, PartialEq, Eq)]
pub struct RpcResult {
    /// Whether the backend carried the command out.
    pub ok: bool,
    /// What the backend sent along, if anything.
    pub payload: Option<String>,
}

/// The call to the backend did not complete.
#[derive(Clone, Copy, Debug, PartialEq, Eq, Structural)]
pub struct TransportError;

} // verus!
