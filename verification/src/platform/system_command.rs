use crate::text::{copy_str, join, join_strings};
use vstd::prelude::*;

verus! {

/// A program to run with its arguments and environment variables.
pub struct SystemCommand {
    program: String,
    args: Vec<String>,
    envs: Vec<(String, String)>,
}

impl SystemCommand {
    /// The program to run.
    pub closed spec fn program_view(&self) -> Seq<char> {
        self.program@
    }

    /// The arguments, in order.
    pub closed spec fn args_view(&self) -> Seq<Seq<char>> {
        self.args.deep_view()
    }

    /// The environment variables set for the command, as (name, value)
    /// pairs in the order they were set.
    pub closed spec fn envs_view(&self) -> Seq<(Seq<char>, Seq<char>)> {
        self.envs.deep_view()
    }

    /// A command that runs `program` without arguments.
    pub fn new(program: &str) -> (r: SystemCommand)
        ensures
            r.program_view() == program@,
            r.args_view() == Seq::<Seq<char>>::empty(),
            r.envs_view() == Seq::<(Seq<char>, Seq<char>)>::empty(),
    {
        let r = SystemCommand { program: program.to_owned(), args: Vec::new(), envs: Vec::new() };
        assert(r.args_view() =~= Seq::<Seq<char>>::empty());
        assert(r.envs_view() =~= Seq::<(Seq<char>, Seq<char>)>::empty());
        r
    }

    /// Appends an argument.
    pub fn arg(&mut self, arg: &str)
        ensures
            final(self).program_view() == old(self).program_view(),
            final(self).args_view() == old(self).args_view().push(arg@),
            final(self).envs_view() == old(self).envs_view(),
    {
        let ghost before = self.args.deep_view();
        self.args.push(arg.to_owned());
        assert(self.args.deep_view() =~= before.push(arg@));
    }

    /// Sets an environment variable for the command.
    pub fn set_env(&mut self, key: &str, value: &str)
        ensures
            final(self).program_view() == old(self).program_view(),
            final(self).args_view() == old(self).args_view(),
            final(self).envs_view() == old(self).envs_view().push((key@, value@)),
    {
        let ghost before = self.envs.deep_view();
        self.envs.push((key.to_owned(), value.to_owned()));
        assert(self.envs.deep_view() =~= before.push((key@, value@)));
    }

    /// The program.
    pub fn get_program(&self) -> (r: &str)
        ensures
            r@ == self.program_view(),
    {
        self.program.as_str()
    }

    /// The arguments.
    pub fn get_args(&self) -> (r: &Vec<String>)
        ensures
            r.deep_view() == self.args_view(),
    {
        &self.args
    }

    /// The environment variables.
    pub fn get_envs(&self) -> (r: &Vec<(String, String)>)
        ensures
            r.deep_view() == self.envs_view(),
    {
        &self.envs
    }

    /// The command line: the program and its arguments, separated by spaces.
    pub fn to_string(&self) -> (r: String)
        ensures
            r@ == command_line(self.program_view(), self.args_view()),
    {
        let mut words: Vec<String> = Vec::new();
        words.push(copy_str(self.program.as_str()));
        let mut i: usize = 0;
        while i < self.args.len()
            invariant
                i <= self.args@.len(),
                words.deep_view() =~= seq![self.program@] + self.args.deep_view().take(i as int),
            decreases self.args@.len() - i,
        {
            let ghost before = words.deep_view();
            words.push(copy_str(self.args[i].as_str()));
            assert(words.deep_view() =~= before.push(self.args@[i as int]@));
            assert(self.args.deep_view().take(i + 1) =~= self.args.deep_view().take(i as int).push(
                self.args.deep_view()[i as int],
            ));
            i = i + 1;
        }
        assert(self.args.deep_view().take(self.args@.len() as int) =~= self.args.deep_view());
        join_strings(&words, " ")
    }
}

/// The command line of a program and its arguments.
pub open spec fn command_line(program: Seq<char>, args: Seq<Seq<char>>) -> Seq<char> {
    join(seq![program] + args, " "@)
}

} // verus!
