//! The pipeline definition: named steps, each an ordered command list, plus
//! the registry of builtin action names.
use vstd::prelude::*;
use crate::scalar::Scalar;
use crate::text;

verus! {

/// One command of a step: a builtin action resolved from the registry, an
/// external executable, or an in-place variable operation. Arguments and the
/// abort flag are optional in the definition; a missing argument list means
/// none, a missing flag means `false`.
pub enum Command {
    Builtin { action: String, args: Option<Vec<String>>, abort_on_failure: Option<bool> },
    Custom { action: String, args: Option<Vec<String>>, abort_on_failure: Option<bool> },
    Variable { operation: String, name: String, value: i32 },
}

/// An ordered list of commands, as one named step of the pipeline holds it.
pub struct Step {
    pub commands: Vec<Command>,
}

/// A pipeline definition: the initial variable mapping and the named steps,
/// both in declaration order.
pub struct Pipeline {
    pub variables: Vec<(String, Option<Scalar>)>,
    pub steps: Vec<(String, Step)>,
}

/// The runtime instance of a step: its name and its commands, run against the
/// owning worker's variable store.
pub struct Task {
    pub name: String,
    pub commands: Vec<Command>,
}

impl Task {
    /// Binds a step's commands to a name, ready to run.
    pub fn new(name: String, commands: Vec<Command>) -> (t: Task)
        ensures
            t.name == name,
            t.commands == commands,
    {
        Task { name, commands }
    }
}

/// The mathematical value of a command, with the optional parts defaulted.
pub enum CommandModel {
    Run { custom: bool, action: Seq<char>, args: Seq<Seq<char>>, abort: bool },
    VarOp { operation: Seq<char>, name: Seq<char>, delta: i32 },
}

/// The argument list of a command, defaulting a missing one to empty.
pub open spec fn args_val(a: Option<Vec<String>>) -> Seq<Seq<char>> {
    match a {
        Some(v) => v.deep_view(),
        None => Seq::empty(),
    }
}

/// The abort flag of a command, defaulting a missing one to `false`.
pub open spec fn abort_val(a: Option<bool>) -> bool {
    match a {
        Some(b) => b,
        None => false,
    }
}

impl Command {
    /// The mathematical value of this command.
    pub open spec fn view_val(&self) -> CommandModel {
        match self {
            Command::Builtin { action, args, abort_on_failure } => CommandModel::Run {
                custom: false,
                action: action@,
                args: args_val(*args),
                abort: abort_val(*abort_on_failure),
            },
            Command::Custom { action, args, abort_on_failure } => CommandModel::Run {
                custom: true,
                action: action@,
                args: args_val(*args),
                abort: abort_val(*abort_on_failure),
            },
            Command::Variable { operation, name, value } => CommandModel::VarOp {
                operation: operation@,
                name: name@,
                delta: *value,
            },
        }
    }
}

/// The mathematical value of a task: its name and command list.
pub struct TaskModel {
    pub name: Seq<char>,
    pub commands: Seq<CommandModel>,
}

impl View for Task {
    type V = TaskModel;

    open spec fn view(&self) -> TaskModel {
        TaskModel {
            name: self.name@,
            commands: self.commands@.map_values(|c: Command| c.view_val()),
        }
    }
}

/// Whether a name is among the registered builtin action names.
pub open spec fn contains_name(names: Seq<Seq<char>>, n: Seq<char>) -> bool {
    exists|i: int| 0 <= i < names.len() && names[i] == n
}

/// The table of builtin action names a worker may dispatch to. The actions
/// themselves run outside the pipeline engine; the registry decides whether a
/// name is known.
pub struct BuiltinRegistry {
    names: Vec<String>,
}

impl View for BuiltinRegistry {
    type V = Seq<Seq<char>>;

    closed spec fn view(&self) -> Seq<Seq<char>> {
        self.names.deep_view()
    }
}

/// The line a dispatch to an unregistered builtin name fails with.
pub open spec fn not_found_msg(action: Seq<char>) -> Seq<char> {
    "Builtin command '"@ + action + "' not found."@
}

impl BuiltinRegistry {
    /// An empty registry.
    pub fn new() -> (r: Self)
        ensures
            r@ == Seq::<Seq<char>>::empty(),
    {
        let r = BuiltinRegistry { names: Vec::new() };
        proof {
            assert(r@ =~= Seq::<Seq<char>>::empty());
        }
        r
    }

    /// Registers one more builtin action name.
    pub fn register(&mut self, name: &str)
        ensures
            final(self)@ == old(self)@.push(name@),
    {
        self.names.push(name.to_owned());
        proof {
            assert(self@ =~= old(self)@.push(name@));
        }
    }

    /// Whether the name is registered.
    pub fn is_registered(&self, name: &str) -> (r: bool)
        ensures
            r == contains_name(self@, name@),
    {
        let mut i: usize = 0;
        while i < self.names.len()
            invariant
                i <= self.names.len(),
                forall|j: int| 0 <= j < i ==> self@[j] != name@,
                self@.len() == self.names@.len(),
                forall|j: int| 0 <= j < self.names@.len() ==> self@[j] == self.names@[j]@,
            decreases self.names.len() - i,
        {
            if text::str_eq(self.names[i].as_str(), name) {
                proof {
                    assert(self@[i as int] == name@);
                }
                return true;
            }
            i = i + 1;
        }
        false
    }

    /// Resolves a builtin dispatch: the action to hand out for execution when
    /// the name is registered, and otherwise the "not found" failure line.
    pub fn execute(&self, action: &str, args: Vec<String>) -> (r: Result<Vec<String>, String>)
        ensures
            contains_name(self@, action@) ==> (r matches Ok(a) && a == args),
            !contains_name(self@, action@) ==> (r matches Err(m) && m@ == not_found_msg(action@)),
    {
        if self.is_registered(action) {
            Ok(args)
        } else {
            let mut m = "Builtin command '".to_owned();
            text::append_str(&mut m, action);
            text::append_str(&mut m, "' not found.");
            Err(m)
        }
    }
}

/// The registry populated at startup: archive fetch-and-extract, line-diff
/// threshold check, and build-tool invocation.
pub fn create_builtin_registry() -> (r: BuiltinRegistry)
    ensures
        r@ == seq!["download_and_extract_7z"@, "diff_file"@, "compile_cmake"@],
{
    let mut r = BuiltinRegistry::new();
    r.register("download_and_extract_7z");
    r.register("diff_file");
    r.register("compile_cmake");
    proof {
        assert(r@ =~= seq!["download_and_extract_7z"@, "diff_file"@, "compile_cmake"@]);
    }
    r
}

} // verus!
