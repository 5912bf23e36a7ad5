//! Commands that start other programs.

use vstd::prelude::*;

use crate::text::{pair_views, views};

verus! {

/// A command: a program, its arguments, the variables set for it and the directory it runs in.
#[derive(Debug)]
pub struct ToolCommand {
    /// The program.
    pub program: String,
    /// The arguments.
    pub args: Vec<String>,
    /// The variables in the order in which they are set; a later value counts.
    pub env: Vec<(String, String)>,
    /// The directory, if it is not that of the caller.
    pub cwd: Option<String>,
}

/// A command as a mathematical value.
pub struct CommandData {
    /// The program.
    pub program: Seq<char>,
    /// The arguments.
    pub args: Seq<Seq<char>>,
    /// The variables.
    pub env: Seq<(Seq<char>, Seq<char>)>,
    /// The directory.
    pub cwd: Option<Seq<char>>,
}

/// The value of a variable: the last one set.
pub open spec fn variable(env: Seq<(Seq<char>, Seq<char>)>, key: Seq<char>) -> Option<Seq<char>>
    decreases env.len(),
{
    if env.len() == 0 {
        None
    } else if env.last().0 == key {
        Some(env.last().1)
    } else {
        variable(env.drop_last(), key)
    }
}

/// What is set later counts; what is not set later stays.
pub proof fn later_variables_count(
    first: Seq<(Seq<char>, Seq<char>)>,
    second: Seq<(Seq<char>, Seq<char>)>,
    key: Seq<char>,
)
    ensures
        variable(first + second, key) == (match variable(second, key) {
            Some(v) => Some(v),
            None => variable(first, key),
        }),
    decreases second.len(),
{
    if second.len() == 0 {
        assert(first + second =~= first);
    } else {
        assert((first + second).drop_last() =~= first + second.drop_last());
        later_variables_count(first, second.drop_last(), key);
    }
}

impl ToolCommand {
    /// The mathematical value.
    pub open spec fn data(&self) -> CommandData {
        CommandData {
            program: self.program@,
            args: views(self.args@),
            env: pair_views(self.env@),
            cwd: match self.cwd {
                Some(d) => Some(d@),
                None => None,
            },
        }
    }

    /// A command without arguments.
    pub fn new(program: &str) -> (out: ToolCommand)
        ensures
            out.data() == (CommandData {
                program: program@,
                args: Seq::empty(),
                env: Seq::empty(),
                cwd: None,
            }),
    {
        let out = ToolCommand {
            program: program.to_owned(),
            args: Vec::new(),
            env: Vec::new(),
            cwd: None,
        };
        assert(out.data().args =~= Seq::empty());
        assert(out.data().env =~= Seq::empty());
        out
    }

    /// The command with one more argument.
    pub fn arg(self, value: &str) -> (out: ToolCommand)
        ensures
            out.data() == (CommandData { args: self.data().args.push(value@), ..self.data() }),
    {
        let mut args = self.args;
        let ghost before = args@;
        args.push(value.to_owned());
        let out = ToolCommand { program: self.program, args, env: self.env, cwd: self.cwd };
        assert(out.data().args =~= views(before).push(value@));
        out
    }

    /// The command with one more variable.
    pub fn env(self, key: &str, value: &str) -> (out: ToolCommand)
        ensures
            out.data() == (CommandData { env: self.data().env.push((key@, value@)), ..self.data() }),
    {
        let mut env = self.env;
        let ghost before = env@;
        env.push((key.to_owned(), value.to_owned()));
        let out = ToolCommand { program: self.program, args: self.args, env, cwd: self.cwd };
        assert(out.data().env =~= pair_views(before).push((key@, value@)));
        out
    }

    /// The command with more variables.
    pub fn envs(self, vars: &Vec<(String, String)>) -> (out: ToolCommand)
        ensures
            out.data() == (CommandData { env: self.data().env + pair_views(vars@), ..self.data() }),
    {
        let ghost start = self.data();
        let mut out = self;
        assert(start.env + pair_views(vars@.take(0)) =~= start.env);
        for i in 0..vars.len()
            invariant
                out.data() == (CommandData {
                    env: start.env + pair_views(vars@.take(i as int)),
                    ..start
                }),
        {
            out = out.env(&vars[i].0, &vars[i].1);
            assert(out.data().env =~= start.env + pair_views(vars@.take(i + 1)));
        }
        assert(vars@.take(vars@.len() as int) =~= vars@);
        out
    }

    /// The command run in a directory.
    pub fn in_dir(self, dir: &str) -> (out: ToolCommand)
        ensures
            out.data() == (CommandData { cwd: Some(dir@), ..self.data() }),
    {
        ToolCommand {
            program: self.program,
            args: self.args,
            env: self.env,
            cwd: Some(dir.to_owned()),
        }
    }
}

/// A variable has the value that it was given last.
pub proof fn the_last_value_counts(
    env: Seq<(Seq<char>, Seq<char>)>,
    key: Seq<char>,
    value: Seq<char>,
    other: Seq<char>,
)
    ensures
        variable(env.push((key, value)), key) == Some(value),
        other != key ==> variable(env.push((key, value)), other) == variable(env, other),
        variable(Seq::empty(), key) is None,
{
    assert(env.push((key, value)).drop_last() =~= env);
}

/// What is shown of a command is what it holds.
pub proof fn commands_are_shown(c: ToolCommand)
    ensures
        c.data().program == c.program@,
        c.data().args == views(c.args@),
        c.data().env == pair_views(c.env@),
        c.cwd matches Some(d) ==> c.data().cwd == Some(d@),
        c.cwd is None ==> c.data().cwd is None,
{
}

} // verus!
