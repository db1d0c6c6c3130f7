//! The description of a process to launch.

pub mod environment;
pub mod line;
pub mod program;

use vstd::prelude::*;

use self::environment::{
    after_set, block_of, block_reads_back, every_variable_stands_somewhere, invalid_input,
    name_fault, names_are_refused_for_what_they_hold, read_block, readable_variable, sorted, stands_at, variables, CaseTable, EnvEntry,
    EnvKey, Environment, Variables, EQUALS, NUL_IN_VALUE,
};
use self::line::{
    append_regular_arg, arguments_reach_the_program, crt_args, crt_program, only_what_must_be_is_quoted,
    quoted, quoted_args,
    quoted_program_reads_back, quoting_adds_no_terminator, QUOTE, SPACE,
};
use crate::io_error::{IoError, IoErrorKind};
use crate::wide::{contains_nul, contains_unit, encode, WideString};
use crate::win32::{CREATE_UNICODE_ENVIRONMENT, EXTENDED_STARTUPINFO_PRESENT};

verus! {

/// One element of a command line.
#[derive(Debug)]
pub enum Arg {
    /// An argument, quoted as the C runtime expects.
    Regular(WideString),
    /// Text that stands on the command line as it is.
    Raw(WideString),
}

/// What an [`Arg`] is.
pub enum ArgView {
    /// An argument, quoted as the C runtime expects.
    Regular(Seq<u16>),
    /// Text that stands on the command line as it is.
    Raw(Seq<u16>),
}

impl View for Arg {
    type V = ArgView;

    open spec fn view(&self) -> ArgView {
        match self {
            Arg::Regular(text) => ArgView::Regular(text@),
            Arg::Raw(text) => ArgView::Raw(text@),
        }
    }
}

impl Clone for Arg {
    fn clone(&self) -> (copy: Arg)
        ensures
            copy@ == self@,
    {
        match self {
            Arg::Regular(text) => Arg::Regular(text.clone()),
            Arg::Raw(text) => Arg::Raw(text.clone()),
        }
    }
}

impl ArgView {
    /// The text that was given.
    pub open spec fn text(self) -> Seq<u16> {
        match self {
            ArgView::Regular(text) => text,
            ArgView::Raw(text) => text,
        }
    }

    /// How the element is written on a command line.
    pub open spec fn units(self) -> Seq<u16> {
        match self {
            ArgView::Regular(text) => quoted(text),
            ArgView::Raw(text) => text,
        }
    }
}

/// One change of the environment.
#[derive(Debug)]
pub enum EnvOp {
    /// A variable is set.
    Assign(WideString, WideString),
    /// A variable is removed.
    Remove(WideString),
}

/// What an [`EnvOp`] is.
pub enum EnvOpView {
    /// A variable is set.
    Assign(Seq<u16>, Seq<u16>),
    /// A variable is removed.
    Remove(Seq<u16>),
}

impl View for EnvOp {
    type V = EnvOpView;

    open spec fn view(&self) -> EnvOpView {
        match self {
            EnvOp::Assign(key, value) => EnvOpView::Assign(key@, value@),
            EnvOp::Remove(key) => EnvOpView::Remove(key@),
        }
    }
}

impl Clone for EnvOp {
    fn clone(&self) -> (copy: EnvOp)
        ensures
            copy@ == self@,
    {
        match self {
            EnvOp::Assign(key, value) => EnvOp::Assign(key.clone(), value.clone()),
            EnvOp::Remove(key) => EnvOp::Remove(key.clone()),
        }
    }
}

impl EnvOpView {
    /// Why the change is refused.
    pub open spec fn fault(self) -> Option<&'static str> {
        match self {
            EnvOpView::Assign(key, value) => if name_fault(key) is Some {
                name_fault(key)
            } else if value.contains(0u16) {
                Some(NUL_IN_VALUE)
            } else {
                None
            },
            EnvOpView::Remove(key) => name_fault(key),
        }
    }

    /// The variables after the change.
    pub open spec fn apply(self, vars: Variables, table: &CaseTable) -> Variables {
        match self {
            EnvOpView::Assign(key, value) => after_set(vars, table.folded(key), key, value),
            EnvOpView::Remove(key) => vars.remove(table.folded(key)),
        }
    }
}

/// A process to launch.
#[derive(Debug)]
pub struct Command {
    program: WideString,
    args: Vec<Arg>,
    env_clear: bool,
    env_ops: Vec<EnvOp>,
    current_dir: Option<WideString>,
    creation_flags: u32,
    kill_on_drop: bool,
}

/// What a [`Command`] describes.
pub struct CommandView {
    /// The program.
    pub program: Seq<u16>,
    /// The elements of the command line after the program.
    pub args: Seq<ArgView>,
    /// Whether the parent's environment is left behind.
    pub env_clear: bool,
    /// The changes of the environment, in order.
    pub env_ops: Seq<EnvOpView>,
    /// The working directory, if it is not the parent's.
    pub current_dir: Option<Seq<u16>>,
    /// Extra creation flags.
    pub creation_flags: u32,
    /// Whether dropping the child terminates its tree.
    pub kill_on_drop: bool,
}

impl View for Command {
    type V = CommandView;

    closed spec fn view(&self) -> CommandView {
        CommandView {
            program: self.program@,
            args: self.args@.map_values(|arg: Arg| arg@),
            env_clear: self.env_clear,
            env_ops: self.env_ops@.map_values(|op: EnvOp| op@),
            current_dir: match self.current_dir {
                Some(dir) => Some(dir@),
                None => None,
            },
            creation_flags: self.creation_flags,
            kill_on_drop: self.kill_on_drop,
        }
    }
}

impl Clone for Command {
    fn clone(&self) -> (copy: Command)
        ensures
            copy@ == self@,
    {
        let mut args: Vec<Arg> = Vec::new();
        let mut i: usize = 0;
        while i < self.args.len()
            invariant
                i <= self.args@.len(),
                args@.len() == i,
                forall|j: int| 0 <= j < i ==> (#[trigger] args@[j])@ == self.args@[j]@,
            decreases self.args@.len() - i,
        {
            args.push(self.args[i].clone());
            i += 1;
        }
        let mut env_ops: Vec<EnvOp> = Vec::new();
        let mut i: usize = 0;
        while i < self.env_ops.len()
            invariant
                i <= self.env_ops@.len(),
                env_ops@.len() == i,
                forall|j: int| 0 <= j < i ==> (#[trigger] env_ops@[j])@ == self.env_ops@[j]@,
            decreases self.env_ops@.len() - i,
        {
            env_ops.push(self.env_ops[i].clone());
            i += 1;
        }
        let copy = Command {
            program: self.program.clone(),
            args,
            env_clear: self.env_clear,
            env_ops,
            current_dir: match &self.current_dir {
                Some(dir) => Some(dir.clone()),
                None => None,
            },
            creation_flags: self.creation_flags,
            kill_on_drop: self.kill_on_drop,
        };
        assert(copy@.args =~= self@.args);
        assert(copy@.env_ops =~= self@.env_ops);
        copy
    }
}

impl Command {
    /// Creates a builder for launching `program`.
    ///
    /// The program is not resolved here.
    pub fn new(program: WideString) -> (command: Command)
        ensures
            command@ == (CommandView {
                program: program@,
                args: Seq::empty(),
                env_clear: false,
                env_ops: Seq::empty(),
                current_dir: None,
                creation_flags: 0,
                kill_on_drop: false,
            }),
    {
        let command = Command {
            program,
            args: Vec::new(),
            env_clear: false,
            env_ops: Vec::new(),
            current_dir: None,
            creation_flags: 0,
            kill_on_drop: false,
        };
        assert(command@.args =~= Seq::empty());
        assert(command@.env_ops =~= Seq::empty());
        command
    }

    /// Appends one argument, quoted and escaped as the C runtime expects.
    pub fn arg(&mut self, arg: WideString) -> (command: &mut Command)
        ensures
            command@ == (CommandView {
                args: old(self)@.args.push(ArgView::Regular(arg@)),
                ..old(self)@
            }),
            *final(self) == *final(command),
    {
        self.args.push(Arg::Regular(arg));
        assert(self@.args =~= old(self)@.args.push(ArgView::Regular(arg@)));
        self
    }

    /// Appends text to the command line as it is, bypassing all quoting.
    pub fn raw_arg(&mut self, text: WideString) -> (command: &mut Command)
        ensures
            command@ == (CommandView {
                args: old(self)@.args.push(ArgView::Raw(text@)),
                ..old(self)@
            }),
            *final(self) == *final(command),
    {
        self.args.push(Arg::Raw(text));
        assert(self@.args =~= old(self)@.args.push(ArgView::Raw(text@)));
        self
    }

    /// Appends several arguments, each as [`Command::arg`] does.
    pub fn args(&mut self, args: Vec<WideString>) -> (command: &mut Command)
        ensures
            command@ == (CommandView {
                args: old(self)@.args + Seq::new(
                    args@.len(),
                    |i: int| ArgView::Regular(args@[i]@),
                ),
                ..old(self)@
            }),
            *final(self) == *final(command),
    {
        let mut i: usize = 0;
        let ghost added = Seq::new(args@.len(), |i: int| ArgView::Regular(args@[i]@));
        assert(added.take(0) =~= Seq::<ArgView>::empty());
        assert(self@.args =~= old(self)@.args + added.take(0));
        while i < args.len()
            invariant
                i <= args@.len(),
                added == Seq::new(args@.len(), |i: int| ArgView::Regular(args@[i]@)),
                self@ == (CommandView {
                    args: old(self)@.args + added.take(i as int),
                    ..old(self)@
                }),
            decreases args@.len() - i,
        {
            let ghost before = self@.args;
            self.args.push(Arg::Regular(args[i].clone()));
            assert(self@.args =~= before.push(ArgView::Regular(args@[i as int]@)));
            i += 1;
            assert(added.take(i as int) =~= added.take(i - 1).push(
                ArgView::Regular(args@[i - 1]@),
            ));
            assert(self@.args =~= old(self)@.args + added.take(i as int));
        }
        assert(added.take(i as int) =~= added);
        self
    }

    /// Sets an environment variable for the child.
    pub fn env(&mut self, key: WideString, value: WideString) -> (command: &mut Command)
        ensures
            command@ == (CommandView {
                env_ops: old(self)@.env_ops.push(EnvOpView::Assign(key@, value@)),
                ..old(self)@
            }),
            *final(self) == *final(command),
    {
        self.env_ops.push(EnvOp::Assign(key, value));
        assert(self@.env_ops =~= old(self)@.env_ops.push(EnvOpView::Assign(key@, value@)));
        self
    }

    /// Sets several environment variables, each as [`Command::env`] does.
    pub fn envs(&mut self, vars: Vec<(WideString, WideString)>) -> (command: &mut Command)
        ensures
            command@ == (CommandView {
                env_ops: old(self)@.env_ops + Seq::new(
                    vars@.len(),
                    |i: int| EnvOpView::Assign(vars@[i].0@, vars@[i].1@),
                ),
                ..old(self)@
            }),
            *final(self) == *final(command),
    {
        let mut i: usize = 0;
        let ghost added = Seq::new(
            vars@.len(),
            |i: int| EnvOpView::Assign(vars@[i].0@, vars@[i].1@),
        );
        assert(added.take(0) =~= Seq::<EnvOpView>::empty());
        assert(self@.env_ops =~= old(self)@.env_ops + added.take(0));
        while i < vars.len()
            invariant
                i <= vars@.len(),
                added == Seq::new(
                    vars@.len(),
                    |i: int| EnvOpView::Assign(vars@[i].0@, vars@[i].1@),
                ),
                self@ == (CommandView {
                    env_ops: old(self)@.env_ops + added.take(i as int),
                    ..old(self)@
                }),
            decreases vars@.len() - i,
        {
            let ghost before = self@.env_ops;
            let (key, value) = (&vars[i].0, &vars[i].1);
            self.env_ops.push(EnvOp::Assign(key.clone(), value.clone()));
            assert(self@.env_ops =~= before.push(
                EnvOpView::Assign(vars@[i as int].0@, vars@[i as int].1@),
            ));
            i += 1;
            assert(added.take(i as int) =~= added.take(i - 1).push(
                EnvOpView::Assign(vars@[i - 1].0@, vars@[i - 1].1@),
            ));
            assert(self@.env_ops =~= old(self)@.env_ops + added.take(i as int));
        }
        assert(added.take(i as int) =~= added);
        self
    }

    /// Removes an environment variable from the child's environment.
    pub fn env_remove(&mut self, key: WideString) -> (command: &mut Command)
        ensures
            command@ == (CommandView {
                env_ops: old(self)@.env_ops.push(EnvOpView::Remove(key@)),
                ..old(self)@
            }),
            *final(self) == *final(command),
    {
        self.env_ops.push(EnvOp::Remove(key));
        assert(self@.env_ops =~= old(self)@.env_ops.push(EnvOpView::Remove(key@)));
        self
    }

    /// Clears the child's environment, including the changes recorded so far.
    /// Variables set afterwards still apply.
    pub fn env_clear(&mut self) -> (command: &mut Command)
        ensures
            command@ == (CommandView {
                env_clear: true,
                env_ops: Seq::empty(),
                ..old(self)@
            }),
            *final(self) == *final(command),
    {
        self.env_clear = true;
        self.env_ops = Vec::new();
        assert(self@.env_ops =~= Seq::empty());
        self
    }

    /// Sets the child's working directory.
    pub fn current_dir(&mut self, dir: WideString) -> (command: &mut Command)
        ensures
            command@ == (CommandView { current_dir: Some(dir@), ..old(self)@ }),
            *final(self) == *final(command),
    {
        self.current_dir = Some(dir);
        self
    }

    /// Sets extra creation flags, which are added to those always passed.
    pub fn creation_flags(&mut self, flags: u32) -> (command: &mut Command)
        ensures
            command@ == (CommandView { creation_flags: flags, ..old(self)@ }),
            *final(self) == *final(command),
    {
        self.creation_flags = flags;
        self
    }

    /// Sets whether dropping the child terminates its whole process tree.
    pub fn kill_on_drop(&mut self, kill: bool) -> (command: &mut Command)
        ensures
            command@ == (CommandView { kill_on_drop: kill, ..old(self)@ }),
            *final(self) == *final(command),
    {
        self.kill_on_drop = kill;
        self
    }

    /// Returns the program.
    pub fn get_program(&self) -> (program: &WideString)
        ensures
            program@ == self@.program,
    {
        &self.program
    }

    /// Returns the working directory, if one was set.
    pub fn get_current_dir(&self) -> (dir: Option<&WideString>)
        ensures
            dir is Some <==> self@.current_dir is Some,
            dir is Some ==> dir->0@ == self@.current_dir->0,
    {
        match &self.current_dir {
            Some(dir) => Some(dir),
            None => None,
        }
    }

    /// Returns the working directory, NUL-terminated, or `None` if it is the
    /// parent's.
    ///
    /// # Errors
    ///
    /// [`IoErrorKind::InvalidInput`] if and only if it holds a zero unit.
    pub fn build_current_dir(&self) -> (dir: Result<Option<Vec<u16>>, IoError>)
        ensures
            dir is Err <==> self@.current_dir is Some && self@.current_dir->0.contains(0u16),
            dir is Err ==> invalid_input(dir->Err_0, NUL_IN_DIRECTORY@),
            dir is Err ==> dir->Err_0.message@ == "current directory contains an interior NUL"@,
            dir is Ok ==> {
                &&& dir->Ok_0 is Some <==> self@.current_dir is Some
                &&& dir->Ok_0 is Some ==> dir->Ok_0->0@ == self@.current_dir->0.push(0u16)
            },
    {
        match &self.current_dir {
            Some(dir) => {
                if contains_nul(dir.as_units()) {
                    return Err(IoError::new(IoErrorKind::InvalidInput, NUL_IN_DIRECTORY));
                }
                let mut units: Vec<u16> = Vec::new();
                units.extend_from_slice(dir.as_units());
                units.push(0);
                assert(units@ =~= dir@.push(0u16));
                Ok(Some(units))
            },
            None => Ok(None),
        }
    }

    /// Returns whether dropping the child terminates its tree.
    pub fn get_kill_on_drop(&self) -> (kill: bool)
        ensures
            kill == self@.kill_on_drop,
    {
        self.kill_on_drop
    }

    /// Returns the flags for creating the process: the extra ones, and the two
    /// that the start-up information and the environment block need.
    pub fn process_creation_flags(&self) -> (flags: u32)
        ensures
            flags == self@.creation_flags | EXTENDED_STARTUPINFO_PRESENT
                | CREATE_UNICODE_ENVIRONMENT,
            flags == self@.creation_flags | 0x0008_0400u32,
    {
        let extra: u32 = self.creation_flags;
        assert(extra | 0x0008_0000u32 | 0x0000_0400u32 == extra | 0x0008_0400u32) by (bit_vector);
        self.creation_flags | EXTENDED_STARTUPINFO_PRESENT | CREATE_UNICODE_ENVIRONMENT
    }

    /// Returns the command line, NUL-terminated: the program in quotes, and each
    /// further element after a space.
    ///
    /// # Errors
    ///
    /// [`IoErrorKind::InvalidInput`] if and only if the program holds a zero
    /// unit or a quote, or an argument holds a zero unit.
    pub fn build_command_line(&self) -> (line: Result<Vec<u16>, IoError>)
        ensures
            line is Err <==> line_fault(self@) is Some,
            line is Err ==> invalid_input(line->Err_0, line_fault(self@)->0@),
            line is Ok ==> line->Ok_0@ == command_line(self@),
    {
        let program = self.program.as_units();
        if contains_nul(program) {
            return Err(IoError::new(IoErrorKind::InvalidInput, NUL_IN_PROGRAM));
        }
        if contains_unit(program, QUOTE) {
            return Err(IoError::new(IoErrorKind::InvalidInput, QUOTE_IN_PROGRAM));
        }
        let mut line: Vec<u16> = Vec::new();
        line.push(QUOTE);
        line.extend_from_slice(program);
        line.push(QUOTE);
        let ghost head = line@;
        assert(head =~= seq![QUOTE] + self@.program + seq![QUOTE]);
        let mut i: usize = 0;
        assert(self@.args.skip(0) =~= self@.args);
        while i < self.args.len()
            invariant
                i <= self.args@.len(),
                !self@.program.contains(0u16),
                !self@.program.contains(QUOTE),
                forall|j: int| 0 <= j < i ==> !(#[trigger] self@.args[j]).text().contains(0u16),
                line@ + arg_units(self@.args.skip(i as int)) == head + arg_units(self@.args),
            decreases self.args@.len() - i,
        {
            let ghost before = line@;
            let ghost rest = self@.args.skip(i as int);
            assert(rest.skip(1) =~= self@.args.skip(i + 1));
            assert(rest[0] == self.args@[i as int]@);
            assert(self@.args[i as int] == rest[0]);
            line.push(SPACE);
            match &self.args[i] {
                Arg::Regular(text) => {
                    if contains_nul(text.as_units()) {
                        return Err(IoError::new(IoErrorKind::InvalidInput, NUL_IN_ARGUMENT));
                    }
                    append_regular_arg(&mut line, text.as_units());
                },
                Arg::Raw(text) => {
                    if contains_nul(text.as_units()) {
                        return Err(IoError::new(IoErrorKind::InvalidInput, NUL_IN_ARGUMENT));
                    }
                    line.extend_from_slice(text.as_units());
                },
            }
            assert(line@ =~= before + (seq![SPACE] + rest[0].units()));
            assert(before + (seq![SPACE] + rest[0].units() + arg_units(rest.skip(1))) =~= line@
                + arg_units(rest.skip(1)));
            i += 1;
        }
        assert(self@.args.skip(i as int) =~= seq![]);
        assert(line@ =~= head + arg_units(self@.args));
        line.push(0);
        assert(line@ =~= command_line(self@));
        Ok(line)
    }

    /// Returns the child's environment block, or `None` if the child has the
    /// parent's environment unchanged.
    ///
    /// `parent` lists the parent's variables, which are inherited unless the
    /// environment was cleared, and `table` is the operating system's
    /// upper-casing, by which names are compared and sorted.
    ///
    /// # Errors
    ///
    /// [`IoErrorKind::InvalidInput`] if and only if a name that was set or
    /// removed is empty or holds a zero unit or an equals sign, or a value that
    /// was set holds a zero unit.
    pub fn build_environment_block(
        &self,
        parent: &[(WideString, WideString)],
        table: &CaseTable,
    ) -> (block: Result<Option<Vec<u16>>, IoError>)
        ensures
            block is Err <==> env_fault(self@.env_ops) is Some,
            block is Err ==> invalid_input(block->Err_0, env_fault(self@.env_ops)->0@),
            block is Ok ==> {
                &&& block->Ok_0 is None <==> !self@.env_clear && self@.env_ops.len() == 0
                &&& block->Ok_0 is Some ==> exists|entries: Seq<EnvEntry>|
                    {
                        &&& #[trigger] sorted(entries)
                        &&& variables(entries) == child_variables(self@, parent@, table)
                        &&& block->Ok_0->0@ == block_of(entries)
                    }
            },
    {
        match self.child_environment(parent, table) {
            Ok(Some(env)) => {
                assert(sorted(env.spec_entries()));
                Ok(Some(env.to_block()))
            },
            Ok(None) => Ok(None),
            Err(err) => Err(err),
        }
    }

    /// Returns the `PATH` of a child whose environment is not the parent's, if
    /// it has one; executables are searched there first.
    ///
    /// # Errors
    ///
    /// As for [`Command::build_environment_block`].
    pub fn child_path(
        &self,
        parent: &[(WideString, WideString)],
        table: &CaseTable,
    ) -> (path: Result<Option<WideString>, IoError>)
        ensures
            path is Err <==> env_fault(self@.env_ops) is Some,
            path is Err ==> invalid_input(path->Err_0, env_fault(self@.env_ops)->0@),
            path is Ok ==> {
                let changed = self@.env_clear || self@.env_ops.len() > 0;
                let vars = child_variables(self@, parent@, table);
                let name = table.folded(encode("PATH"@));
                &&& path->Ok_0 is Some <==> changed && vars.contains_key(name)
                &&& path->Ok_0 is Some ==> path->Ok_0->0@ == vars[name].1
            },
    {
        match self.child_environment(parent, table) {
            Ok(Some(env)) => {
                let name = WideString::from_text("PATH");
                match env.get(&EnvKey::inherited(&name, table)) {
                    Some(value) => Ok(Some(value.clone())),
                    None => Ok(None),
                }
            },
            Ok(None) => Ok(None),
            Err(err) => Err(err),
        }
    }

    /// Returns the child's environment, or `None` if it is the parent's.
    fn child_environment(
        &self,
        parent: &[(WideString, WideString)],
        table: &CaseTable,
    ) -> (env: Result<Option<Environment>, IoError>)
        ensures
            env is Err <==> env_fault(self@.env_ops) is Some,
            env is Err ==> invalid_input(env->Err_0, env_fault(self@.env_ops)->0@),
            env is Ok ==> {
                &&& env->Ok_0 is None <==> !self@.env_clear && self@.env_ops.len() == 0
                &&& env->Ok_0 is Some ==> {
                    &&& env->Ok_0->0.wf()
                    &&& env->Ok_0->0.spec_variables() == child_variables(self@, parent@, table)
                }
            },
    {
        if !self.env_clear && self.env_ops.len() == 0 {
            return Ok(None);
        }
        let mut env = Environment::new();
        if !self.env_clear {
            let mut i: usize = 0;
            assert(parent@.take(0) =~= Seq::empty());
            while i < parent.len()
                invariant
                    i <= parent@.len(),
                    env.wf(),
                    env.spec_variables() == inherited(parent@.take(i as int), table),
                decreases parent@.len() - i,
            {
                let (key, value) = (&parent[i].0, &parent[i].1);
                env.set(EnvKey::inherited(key, table), value.clone());
                i += 1;
                assert(parent@.take(i as int).drop_last() =~= parent@.take(i - 1));
            }
            assert(parent@.take(i as int) =~= parent@);
        }
        let ghost base = base_variables(self@, parent@, table);
        let ghost ops = self@.env_ops;
        let mut i: usize = 0;
        assert(ops.take(0) =~= Seq::empty());
        while i < self.env_ops.len()
            invariant
                i <= self.env_ops@.len(),
                ops == self@.env_ops,
                ops.len() == self.env_ops@.len(),
                env.wf(),
                base == base_variables(self@, parent@, table),
                env.spec_variables() == applied(ops.take(i as int), base, table),
                env_fault(ops.take(i as int)) is None,
            decreases self.env_ops@.len() - i,
        {
            let ghost so_far = ops.take(i as int);
            let ghost next = ops.take(i + 1);
            proof {
                assert(next.drop_last() =~= so_far);
                assert(next.last() == self.env_ops@[i as int]@);
                lemma_fault_of_prefix(ops, i + 1);
            }
            match &self.env_ops[i] {
                EnvOp::Assign(key, value) => {
                    let name = match EnvKey::new(key, table) {
                        Ok(name) => name,
                        Err(err) => return Err(err),
                    };
                    if contains_nul(value.as_units()) {
                        return Err(IoError::new(IoErrorKind::InvalidInput, NUL_IN_VALUE));
                    }
                    env.set(name, value.clone());
                },
                EnvOp::Remove(key) => {
                    let name = match EnvKey::new(key, table) {
                        Ok(name) => name,
                        Err(err) => return Err(err),
                    };
                    env.remove(&name);
                },
            }
            i += 1;
        }
        assert(ops.take(i as int) =~= ops);
        Ok(Some(env))
    }
}

/// Why a program with a zero unit is refused.
pub const NUL_IN_PROGRAM: &'static str = "program contains an interior NUL";

/// Why a program with a quote is refused.
pub const QUOTE_IN_PROGRAM: &'static str = "program must not contain a double quote";

/// Why an argument with a zero unit is refused.
pub const NUL_IN_ARGUMENT: &'static str = "argument contains an interior NUL";

/// Why a working directory with a zero unit is refused.
pub const NUL_IN_DIRECTORY: &'static str = "current directory contains an interior NUL";

/// Why a command has no command line.
pub open spec fn line_fault(command: CommandView) -> Option<&'static str> {
    if command.program.contains(0u16) {
        Some(NUL_IN_PROGRAM)
    } else if command.program.contains(QUOTE) {
        Some(QUOTE_IN_PROGRAM)
    } else if exists|i: int|
        0 <= i < command.args.len() && (#[trigger] command.args[i]).text().contains(0u16) {
        Some(NUL_IN_ARGUMENT)
    } else {
        None
    }
}

/// How elements are written one after the other, each after a space.
pub open spec fn arg_units(args: Seq<ArgView>) -> Seq<u16>
    decreases args.len(),
{
    if args.len() == 0 {
        seq![]
    } else {
        seq![SPACE] + args[0].units() + arg_units(args.skip(1))
    }
}

/// The command line of a command.
pub open spec fn command_line(command: CommandView) -> Seq<u16> {
    seq![QUOTE] + command.program + seq![QUOTE] + arg_units(command.args) + seq![0u16]
}

/// A command line is one string to the operating system: it ends in a zero unit
/// and holds no other.
pub proof fn command_line_is_one_string(command: CommandView)
    requires
        line_fault(command) is None,
    ensures
        command_line(command).last() == 0,
        !command_line(command).drop_last().contains(0u16),
{
    let line = command_line(command);
    let head = seq![QUOTE] + command.program + seq![QUOTE];
    let tail = arg_units(command.args);
    lemma_arg_units_have_no_zero(command.args);
    assert forall|i: int| 0 <= i < line.len() - 1 implies line[i] != 0 by {
        if i < head.len() {
            assert(line[i] == head[i]);
            if 0 < i < head.len() - 1 {
                assert(head[i] == command.program[i - 1]);
            }
        } else {
            assert(line[i] == tail[i - head.len()]);
        }
    }
}

proof fn lemma_arg_units_have_no_zero(args: Seq<ArgView>)
    requires
        forall|i: int| 0 <= i < args.len() ==> !(#[trigger] args[i]).text().contains(0u16),
    ensures
        forall|i: int| 0 <= i < arg_units(args).len() ==> #[trigger] arg_units(args)[i] != 0,
    decreases args.len(),
{
    if args.len() > 0 {
        let rest = args.skip(1);
        assert forall|i: int| 0 <= i < rest.len() implies !(#[trigger] rest[i]).text().contains(
            0u16,
        ) by {
            assert(rest[i] == args[i + 1]);
        }
        lemma_arg_units_have_no_zero(rest);
        assert(!args[0].text().contains(0u16));
        quoting_adds_no_terminator(args[0].text());
        let first = args[0].units();
        assert forall|i: int| 0 <= i < arg_units(args).len() implies #[trigger] arg_units(args)[i]
            != 0 by {
            if 0 < i <= first.len() {
                assert(arg_units(args)[i] == first[i - 1]);
            } else if i > first.len() {
                assert(arg_units(args)[i] == arg_units(rest)[i - 1 - first.len()]);
            }
        }
    }
}

/// A program that is launched with arguments alone, no raw text among them,
/// receives exactly its name and these arguments, whatever they hold.
pub proof fn program_and_arguments_reach_the_process(command: CommandView, args: Seq<Seq<u16>>)
    requires
        line_fault(command) is None,
        command.args == Seq::new(args.len(), |i: int| ArgView::Regular(args[i])),
    ensures
        ({
            let (program, rest) = crt_program(command_line(command).drop_last());
            &&& program == command.program
            &&& crt_args(rest, args.len()) == (args, Seq::<u16>::empty())
        }),
{
    let rest = arg_units(command.args);
    assert(command_line(command).drop_last() =~= seq![QUOTE] + command.program + seq![QUOTE]
        + rest);
    quoted_program_reads_back(command.program, rest);
    lemma_regular_units(args);
    arguments_reach_the_program(args);
}

proof fn lemma_regular_units(args: Seq<Seq<u16>>)
    ensures
        arg_units(Seq::new(args.len(), |i: int| ArgView::Regular(args[i]))) == quoted_args(args),
    decreases args.len(),
{
    if args.len() > 0 {
        let views = Seq::new(args.len(), |i: int| ArgView::Regular(args[i]));
        let tail = args.skip(1);
        lemma_regular_units(tail);
        assert(views.skip(1) =~= Seq::new(tail.len(), |i: int| ArgView::Regular(tail[i])));
    }
}

/// Why the changes of an environment are refused: the first fault among them.
pub open spec fn env_fault(ops: Seq<EnvOpView>) -> Option<&'static str>
    decreases ops.len(),
{
    if ops.len() == 0 {
        None
    } else if env_fault(ops.drop_last()) is Some {
        env_fault(ops.drop_last())
    } else {
        ops.last().fault()
    }
}

/// A fault among the first changes is the fault of them all.
proof fn lemma_fault_of_prefix(ops: Seq<EnvOpView>, k: int)
    requires
        0 <= k <= ops.len(),
    ensures
        env_fault(ops.take(k)) is Some ==> env_fault(ops) == env_fault(ops.take(k)),
    decreases ops.len(),
{
    if k < ops.len() {
        assert(ops.drop_last().take(k) =~= ops.take(k));
        lemma_fault_of_prefix(ops.drop_last(), k);
    } else {
        assert(ops.take(k) =~= ops);
    }
}

/// The variables that a process has of its parent.
pub open spec fn inherited(parent: Seq<(WideString, WideString)>, table: &CaseTable) -> Variables
    decreases parent.len(),
{
    if parent.len() == 0 {
        Map::empty()
    } else {
        let (key, value) = parent.last();
        after_set(inherited(parent.drop_last(), table), table.folded(key@), key@, value@)
    }
}

/// The variables after the changes `ops`, in order.
pub open spec fn applied(ops: Seq<EnvOpView>, base: Variables, table: &CaseTable) -> Variables
    decreases ops.len(),
{
    if ops.len() == 0 {
        base
    } else {
        ops.last().apply(applied(ops.drop_last(), base, table), table)
    }
}

/// The variables before any change: the parent's, unless the environment was
/// cleared.
pub open spec fn base_variables(
    command: CommandView,
    parent: Seq<(WideString, WideString)>,
    table: &CaseTable,
) -> Variables {
    if command.env_clear {
        Map::empty()
    } else {
        inherited(parent, table)
    }
}

/// The variables of the child.
pub open spec fn child_variables(
    command: CommandView,
    parent: Seq<(WideString, WideString)>,
    table: &CaseTable,
) -> Variables {
    applied(command.env_ops, base_variables(command, parent, table), table)
}

/// Whether every variable can be told apart in a block.
pub open spec fn all_readable(vars: Variables) -> bool {
    forall|name: Seq<u16>| #[trigger]
        vars.contains_key(name) ==> readable_variable(vars[name])
}

/// Inherited variables can be told apart if the parent's can.
proof fn lemma_inherited_readable(parent: Seq<(WideString, WideString)>, table: &CaseTable)
    requires
        forall|i: int|
            0 <= i < parent.len() ==> readable_variable(
                ((#[trigger] parent[i]).0@, parent[i].1@),
            ),
    ensures
        all_readable(inherited(parent, table)),
    decreases parent.len(),
{
    if parent.len() > 0 {
        let before = parent.drop_last();
        assert forall|i: int| 0 <= i < before.len() implies readable_variable(
            ((#[trigger] before[i]).0@, before[i].1@),
        ) by {
            assert(before[i] == parent[i]);
        }
        lemma_inherited_readable(before, table);
        assert(readable_variable((parent[parent.len() - 1].0@, parent[parent.len() - 1].1@)));
    }
}

/// Changes that are accepted keep variables that can be told apart so.
proof fn lemma_applied_readable(ops: Seq<EnvOpView>, base: Variables, table: &CaseTable)
    requires
        all_readable(base),
        env_fault(ops) is None,
    ensures
        all_readable(applied(ops, base, table)),
    decreases ops.len(),
{
    if ops.len() > 0 {
        lemma_applied_readable(ops.drop_last(), base, table);
        if let EnvOpView::Assign(key, value) = ops.last() {
            assert(!key.skip(1).contains(EQUALS)) by {
                if key.skip(1).contains(EQUALS) {
                    let i = choose|i: int| 0 <= i < key.skip(1).len() && key.skip(1)[i] == EQUALS;
                    assert(key[i + 1] == EQUALS);
                }
            }
            assert(readable_variable((key, value)));
        }
    }
}

/// The child reads exactly the variables that were meant for it off its
/// environment block: each of them, with its spelling and value, and no other.
/// The parent's variables, where they are inherited, have to be ones that a
/// block can hold.
pub proof fn environment_reaches_the_child(
    command: CommandView,
    parent: Seq<(WideString, WideString)>,
    table: &CaseTable,
    entries: Seq<EnvEntry>,
)
    requires
        env_fault(command.env_ops) is None,
        !command.env_clear ==> forall|i: int|
            0 <= i < parent.len() ==> readable_variable(
                ((#[trigger] parent[i]).0@, parent[i].1@),
            ),
        sorted(entries),
        variables(entries) == child_variables(command, parent, table),
    ensures
        ({
            let read = read_block(block_of(entries));
            let meant = child_variables(command, parent, table);
            &&& read.len() == entries.len()
            &&& forall|i: int|
                0 <= i < read.len() ==> {
                    &&& meant.contains_key(entries[i].folded())
                    &&& #[trigger] read[i] == meant[entries[i].folded()]
                }
            &&& forall|name: Seq<u16>| #[trigger]
                meant.contains_key(name) ==> exists|i: int| #[trigger]
                    stands_at(entries, name, i) && read[i] == meant[name]
        }),
{
    let meant = child_variables(command, parent, table);
    if !command.env_clear {
        lemma_inherited_readable(parent, table);
    }
    assert(all_readable(base_variables(command, parent, table)));
    lemma_applied_readable(command.env_ops, base_variables(command, parent, table), table);
    every_variable_stands_somewhere(entries);
    block_reads_back(entries);
}

/// The last assignment of a variable decides its value, by whichever spelling of
/// its name it was made; a variable that existed keeps the spelling it had; and
/// all other variables are as before.
pub proof fn last_assignment_decides(
    ops: Seq<EnvOpView>,
    base: Variables,
    table: &CaseTable,
    key: Seq<u16>,
    value: Seq<u16>,
)
    ensures
        ({
            let before = applied(ops, base, table);
            let after = applied(ops.push(EnvOpView::Assign(key, value)), base, table);
            let name = table.folded(key);
            &&& after.contains_key(name)
            &&& after[name].1 == value
            &&& after[name].0 == (if before.contains_key(name) {
                before[name].0
            } else {
                key
            })
            &&& forall|other: Seq<u16>|
                other != name ==> {
                    &&& (#[trigger] after.contains_key(other)) == before.contains_key(other)
                    &&& before.contains_key(other) ==> after[other] == before[other]
                }
        }),
{
    assert(ops.push(EnvOpView::Assign(key, value)).drop_last() =~= ops);
}

/// A variable that was removed is gone, whatever the spelling of its name, and
/// setting it again reinstates it under the new spelling.
pub proof fn removal_forgets_the_variable(
    ops: Seq<EnvOpView>,
    base: Variables,
    table: &CaseTable,
    key: Seq<u16>,
    again: Seq<u16>,
    value: Seq<u16>,
)
    requires
        table.folded(again) == table.folded(key),
    ensures
        ({
            let removed = ops.push(EnvOpView::Remove(key));
            let name = table.folded(key);
            &&& !applied(removed, base, table).contains_key(name)
            &&& applied(removed.push(EnvOpView::Assign(again, value)), base, table)[name] == (
                again,
                value,
            )
        }),
{
    let removed = ops.push(EnvOpView::Remove(key));
    let reinstated = removed.push(EnvOpView::Assign(again, value));
    let name = table.folded(key);
    assert(removed.drop_last() =~= ops);
    assert(reinstated.drop_last() =~= removed);
    assert(applied(removed, base, table) == applied(ops, base, table).remove(name));
    assert(applied(reinstated, base, table) == after_set(
        applied(removed, base, table),
        name,
        again,
        value,
    ));
}

proof fn lemma_appended_units(args: Seq<ArgView>, arg: ArgView)
    ensures
        arg_units(args.push(arg)) == arg_units(args) + seq![SPACE] + arg.units(),
    decreases args.len(),
{
    let longer = args.push(arg);
    if args.len() == 0 {
        assert(longer.skip(1) =~= Seq::<ArgView>::empty());
        assert(arg_units(longer.skip(1)) =~= Seq::<u16>::empty());
        assert(arg_units(longer) =~= arg_units(args) + seq![SPACE] + arg.units());
    } else {
        lemma_appended_units(args.skip(1), arg);
        assert(longer.skip(1) =~= args.skip(1).push(arg));
        assert(longer[0] == args[0]);
        assert(arg_units(longer) =~= arg_units(args) + seq![SPACE] + arg.units());
    }
}

/// Raw text stands on the command line unit by unit as it was given, whatever it
/// holds, one space behind what was there before it.
pub proof fn raw_text_stands_as_given(command: CommandView, text: Seq<u16>)
    ensures
        command_line(
            (CommandView { args: command.args.push(ArgView::Raw(text)), ..command }),
        ) == command_line(command).drop_last() + seq![0x20u16] + text + seq![0u16],
{
    lemma_appended_units(command.args, ArgView::Raw(text));
    let longer = CommandView { args: command.args.push(ArgView::Raw(text)), ..command };
    assert(command_line(longer) =~= command_line(command).drop_last() + seq![0x20u16] + text
        + seq![0u16]);
}

/// A regular argument stands one space behind what was there before it, quoted as
/// the C runtime expects: as it is where it is plain, in quotes otherwise.
pub proof fn regular_argument_is_appended_quoted(command: CommandView, text: Seq<u16>)
    ensures
        command_line(
            (CommandView { args: command.args.push(ArgView::Regular(text)), ..command }),
        ) == command_line(command).drop_last() + seq![0x20u16] + quoted(text) + seq![0u16],
        text.len() > 0 && (forall|i: int|
            0 <= i < text.len() ==> #[trigger] text[i] != 0x20 && text[i] != 0x09 && text[i] != 0x22
                && text[i] != 0x7C) ==> command_line(
            (CommandView { args: command.args.push(ArgView::Regular(text)), ..command }),
        ) == command_line(command).drop_last() + seq![0x20u16] + text + seq![0u16],
{
    lemma_appended_units(command.args, ArgView::Regular(text));
    let longer = CommandView { args: command.args.push(ArgView::Regular(text)), ..command };
    assert(command_line(longer) =~= command_line(command).drop_last() + seq![0x20u16] + quoted(text)
        + seq![0u16]);
    only_what_must_be_is_quoted(text);
}

/// A command line begins with the program in quotes, and without arguments it is
/// nothing else.
pub proof fn command_line_begins_with_the_program(command: CommandView)
    ensures
        command.args.len() == 0 ==> command_line(command) == seq![0x22u16] + command.program
            + seq![0x22u16, 0u16],
        command_line(command).len() >= command.program.len() + 3,
        command_line(command).take(command.program.len() as int + 2) == seq![0x22u16]
            + command.program + seq![0x22u16],
{
    let line = command_line(command);
    assert(line.take(command.program.len() as int + 2) =~= seq![0x22u16] + command.program
        + seq![0x22u16]);
    if command.args.len() == 0 {
        assert(line =~= seq![0x22u16] + command.program + seq![0x22u16, 0u16]);
    }
}

/// A command has a command line exactly where its program holds neither a zero
/// unit nor a quote and none of its elements, raw ones included, holds a zero unit;
/// otherwise the first of these faults is named.
pub proof fn command_lines_are_refused_for_what_they_hold(command: CommandView)
    ensures
        ({
            let bad_element = exists|i: int|
                0 <= i < command.args.len() && (match #[trigger] command.args[i] {
                    ArgView::Regular(text) => text.contains(0u16),
                    ArgView::Raw(text) => text.contains(0u16),
                });
            let program = command.program;
            &&& line_fault(command) is None <==> !program.contains(0u16) && !program.contains(
                0x22u16,
            ) && !bad_element
            &&& program.contains(0u16) ==> line_fault(command)->0@
                == "program contains an interior NUL"@
            &&& !program.contains(0u16) && program.contains(0x22u16) ==> line_fault(command)->0@
                == "program must not contain a double quote"@
            &&& !program.contains(0u16) && !program.contains(0x22u16) && bad_element ==> line_fault(
                command,
            )->0@ == "argument contains an interior NUL"@
        }),
{
    if exists|i: int|
        0 <= i < command.args.len() && (#[trigger] command.args[i]).text().contains(0u16) {
        let i = choose|i: int|
            0 <= i < command.args.len() && (#[trigger] command.args[i]).text().contains(0u16);
        assert(match command.args[i] {
            ArgView::Regular(text) => text.contains(0u16),
            ArgView::Raw(text) => text.contains(0u16),
        });
    }
    if exists|i: int|
        0 <= i < command.args.len() && (match #[trigger] command.args[i] {
            ArgView::Regular(text) => text.contains(0u16),
            ArgView::Raw(text) => text.contains(0u16),
        }) {
        let i = choose|i: int|
            0 <= i < command.args.len() && (match #[trigger] command.args[i] {
                ArgView::Regular(text) => text.contains(0u16),
                ArgView::Raw(text) => text.contains(0u16),
            });
        assert(command.args[i].text().contains(0u16));
    }
}

/// A change of the environment is accepted exactly where its name is one, and its
/// value, if it has one, holds no zero unit. The fault of the name comes first.
pub proof fn changes_are_refused_for_what_they_hold(key: Seq<u16>, value: Seq<u16>)
    ensures
        ({
            let good = key.len() > 0 && !key.contains(0u16) && !key.contains(0x3Du16);
            let assign = EnvOpView::Assign(key, value);
            let remove = EnvOpView::Remove(key);
            &&& assign.fault() is None <==> good && !value.contains(0u16)
            &&& remove.fault() is None <==> good
            &&& !good ==> assign.fault() == name_fault(key) && remove.fault() == name_fault(key)
            &&& good && value.contains(0u16) ==> assign.fault()->0@
                == "environment value contains an interior NUL"@
        }),
{
    names_are_refused_for_what_they_hold(key);
}

/// The changes of an environment are refused exactly where one of them is, and the
/// first one that is names the fault.
pub proof fn first_refused_change_is_reported(ops: Seq<EnvOpView>, k: int)
    ensures
        (forall|i: int| 0 <= i < ops.len() ==> (#[trigger] ops[i]).fault() is None) ==> env_fault(
            ops,
        ) is None,
        0 <= k < ops.len() && ops[k].fault() is Some && (forall|i: int|
            0 <= i < k ==> (#[trigger] ops[i]).fault() is None) ==> env_fault(ops)
            == ops[k].fault(),
    decreases ops.len(),
{
    if ops.len() > 0 {
        let fewer = ops.drop_last();
        first_refused_change_is_reported(fewer, k);
        if forall|i: int| 0 <= i < ops.len() ==> (#[trigger] ops[i]).fault() is None {
            assert forall|i: int| 0 <= i < fewer.len() implies (#[trigger] fewer[i]).fault() is None by {
                assert(fewer[i] == ops[i]);
            }
            assert(ops[ops.len() - 1].fault() is None);
        }
        if 0 <= k < ops.len() && forall|i: int| 0 <= i < k ==> (#[trigger] ops[i]).fault() is None {
            assert forall|i: int| 0 <= i < k implies (#[trigger] fewer[i]).fault() is None by {
                assert(fewer[i] == ops[i]);
            }
        }
    }
}

/// Whether none of the parent's variables from `from` up to `to` has the name of
/// `parent[i]`.
pub open spec fn sole_from(
    parent: Seq<(WideString, WideString)>,
    table: &CaseTable,
    i: int,
    from: int,
    to: int,
) -> bool {
    forall|j: int|
        from <= j < to ==> table.folded((#[trigger] parent[j]).0@) != table.folded(parent[i].0@)
}

/// Every variable of the parent is inherited, whatever its name and its value
/// hold. Where the parent lists a name more than once, the last value counts and
/// the first spelling stays.
pub proof fn every_parent_variable_is_inherited(
    parent: Seq<(WideString, WideString)>,
    table: &CaseTable,
    i: int,
)
    requires
        0 <= i < parent.len(),
    ensures
        inherited(parent, table).contains_key(table.folded(parent[i].0@)),
        sole_from(parent, table, i, i + 1, parent.len() as int) ==> inherited(
            parent,
            table,
        )[table.folded(parent[i].0@)].1 == parent[i].1@,
        sole_from(parent, table, i, 0, i) ==> inherited(parent, table)[table.folded(
            parent[i].0@,
        )].0 == parent[i].0@,
    decreases parent.len(),
{
    let before = parent.drop_last();
    let n = parent.len() - 1;
    let name = table.folded(parent[i].0@);
    if i < n {
        every_parent_variable_is_inherited(before, table, i);
        assert(before[i] == parent[i]);
        if sole_from(parent, table, i, i + 1, parent.len() as int) {
            assert forall|j: int| i + 1 <= j < before.len() implies table.folded(
                (#[trigger] before[j]).0@,
            ) != name by {
                assert(before[j] == parent[j]);
            }
            assert(table.folded(parent[n].0@) != name);
        }
        if sole_from(parent, table, i, 0, i) {
            assert forall|j: int| 0 <= j < i implies table.folded((#[trigger] before[j]).0@)
                != name by {
                assert(before[j] == parent[j]);
            }
        }
    } else if sole_from(parent, table, i, 0, i) {
        assert forall|j: int| 0 <= j < before.len() implies table.folded((#[trigger] before[j]).0@)
            != name by {
            assert(before[j] == parent[j]);
        }
        only_parent_variables_are_inherited(before, table, name);
    }
}

/// Nothing is inherited that the parent does not have.
pub proof fn only_parent_variables_are_inherited(
    parent: Seq<(WideString, WideString)>,
    table: &CaseTable,
    name: Seq<u16>,
)
    requires
        forall|j: int| 0 <= j < parent.len() ==> table.folded((#[trigger] parent[j]).0@) != name,
    ensures
        !inherited(parent, table).contains_key(name),
    decreases parent.len(),
{
    if parent.len() > 0 {
        let before = parent.drop_last();
        assert forall|j: int| 0 <= j < before.len() implies table.folded((#[trigger] before[j]).0@)
            != name by {
            assert(before[j] == parent[j]);
        }
        only_parent_variables_are_inherited(before, table, name);
        assert(table.folded(parent[parent.len() - 1].0@) != name);
    }
}

/// Whether a change is one of the variable with upper case `name`.
pub open spec fn concerns(op: EnvOpView, table: &CaseTable, name: Seq<u16>) -> bool {
    match op {
        EnvOpView::Assign(key, value) => table.folded(key) == name,
        EnvOpView::Remove(key) => table.folded(key) == name,
    }
}

/// A variable that no change concerns stays as it was.
pub proof fn unconcerned_variables_stay(
    ops: Seq<EnvOpView>,
    base: Variables,
    table: &CaseTable,
    name: Seq<u16>,
)
    requires
        forall|j: int| 0 <= j < ops.len() ==> !concerns(#[trigger] ops[j], table, name),
    ensures
        applied(ops, base, table).contains_key(name) == base.contains_key(name),
        base.contains_key(name) ==> applied(ops, base, table)[name] == base[name],
    decreases ops.len(),
{
    if ops.len() > 0 {
        let fewer = ops.drop_last();
        assert forall|j: int| 0 <= j < fewer.len() implies !concerns(
            #[trigger] fewer[j],
            table,
            name,
        ) by {
            assert(fewer[j] == ops[j]);
        }
        unconcerned_variables_stay(fewer, base, table, name);
        assert(!concerns(ops[ops.len() - 1], table, name));
    }
}

/// Of all the changes of one variable the last decides: an assignment gives it its
/// value, a removal takes it away.
pub proof fn last_change_decides(
    ops: Seq<EnvOpView>,
    base: Variables,
    table: &CaseTable,
    name: Seq<u16>,
    i: int,
)
    requires
        0 <= i < ops.len(),
        concerns(ops[i], table, name),
        forall|j: int| i < j < ops.len() ==> !concerns(#[trigger] ops[j], table, name),
    ensures
        ops[i] matches EnvOpView::Assign(key, value) ==> {
            &&& applied(ops, base, table).contains_key(name)
            &&& applied(ops, base, table)[name].1 == value
        },
        ops[i] is Remove ==> !applied(ops, base, table).contains_key(name),
    decreases ops.len(),
{
    if i < ops.len() - 1 {
        let fewer = ops.drop_last();
        assert(fewer[i] == ops[i]);
        assert forall|j: int| i < j < fewer.len() implies !concerns(
            #[trigger] fewer[j],
            table,
            name,
        ) by {
            assert(fewer[j] == ops[j]);
        }
        last_change_decides(fewer, base, table, name, i);
        assert(!concerns(ops[ops.len() - 1], table, name));
    }
}

/// A child whose environment was not cleared has every variable of its parent that
/// no change concerns, with the value that the parent gave it last.
pub proof fn parent_variables_reach_the_child(
    command: CommandView,
    parent: Seq<(WideString, WideString)>,
    table: &CaseTable,
    i: int,
)
    requires
        !command.env_clear,
        0 <= i < parent.len(),
        sole_from(parent, table, i, i + 1, parent.len() as int),
        forall|j: int|
            0 <= j < command.env_ops.len() ==> !concerns(
                #[trigger] command.env_ops[j],
                table,
                table.folded(parent[i].0@),
            ),
    ensures
        child_variables(command, parent, table).contains_key(table.folded(parent[i].0@)),
        child_variables(command, parent, table)[table.folded(parent[i].0@)].1 == parent[i].1@,
{
    every_parent_variable_is_inherited(parent, table, i);
    unconcerned_variables_stay(
        command.env_ops,
        inherited(parent, table),
        table,
        table.folded(parent[i].0@),
    );
}

/// The last change of a variable decides what the child has of it, whatever its
/// parent has.
pub proof fn changes_reach_the_child(
    command: CommandView,
    parent: Seq<(WideString, WideString)>,
    table: &CaseTable,
    name: Seq<u16>,
    i: int,
)
    requires
        0 <= i < command.env_ops.len(),
        concerns(command.env_ops[i], table, name),
        forall|j: int|
            i < j < command.env_ops.len() ==> !concerns(
                #[trigger] command.env_ops[j],
                table,
                name,
            ),
    ensures
        command.env_ops[i] matches EnvOpView::Assign(key, value) ==> {
            &&& child_variables(command, parent, table).contains_key(name)
            &&& child_variables(command, parent, table)[name].1 == value
        },
        command.env_ops[i] is Remove ==> !child_variables(command, parent, table).contains_key(
            name,
        ),
{
    last_change_decides(
        command.env_ops,
        base_variables(command, parent, table),
        table,
        name,
        i,
    );
}

/// A child whose environment was cleared has nothing of its parent: what no change
/// concerns it does not have. Nor does any child have what neither its parent nor a
/// change names.
pub proof fn cleared_environment_inherits_nothing(
    command: CommandView,
    parent: Seq<(WideString, WideString)>,
    table: &CaseTable,
    name: Seq<u16>,
)
    requires
        command.env_clear || forall|j: int|
            0 <= j < parent.len() ==> table.folded((#[trigger] parent[j]).0@) != name,
        forall|j: int|
            0 <= j < command.env_ops.len() ==> !concerns(
                #[trigger] command.env_ops[j],
                table,
                name,
            ),
    ensures
        !child_variables(command, parent, table).contains_key(name),
{
    if !command.env_clear {
        only_parent_variables_are_inherited(parent, table, name);
    }
    unconcerned_variables_stay(
        command.env_ops,
        base_variables(command, parent, table),
        table,
        name,
    );
}

} // verus!
