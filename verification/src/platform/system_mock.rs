use crate::error::Error;
use crate::platform::system::{command_view, System};
use crate::platform::system_command::{command_line, SystemCommand};
use crate::text::{copy_str, str_eq};
use vstd::prelude::*;

verus! {

/// A host that answers commands from a table of outputs, records every
/// command it was asked to run and takes user input from a queue.
pub struct SystemMock {
    outputs: Vec<(String, Vec<u8>)>,
    executed: Vec<String>,
    inputs: Vec<String>,
    written: String,
    runs: Ghost<Seq<(Seq<char>, Seq<Seq<char>>)>>,
    answers: Ghost<Seq<Result<Vec<u8>, Error>>>,
}

/// The output the table holds for a command line: the first entry for it.
pub open spec fn output_for(outputs: Seq<(Seq<char>, Seq<u8>)>, line: Seq<char>) -> Option<Seq<u8>>
    decreases outputs.len(),
{
    if outputs.len() == 0 {
        None
    } else if outputs[0].0 == line {
        Some(outputs[0].1)
    } else {
        output_for(outputs.drop_first(), line)
    }
}

impl SystemMock {
    /// The table of command outputs, in the order they were added.
    pub closed spec fn outputs_view(&self) -> Seq<(Seq<char>, Seq<u8>)> {
        Seq::new(self.outputs@.len(), |i: int| (self.outputs@[i].0@, self.outputs@[i].1@))
    }

    /// The command lines run so far, oldest first.
    pub closed spec fn executed_view(&self) -> Seq<Seq<char>> {
        self.executed.deep_view()
    }

    /// The input lines not read yet, next first.
    pub closed spec fn inputs_view(&self) -> Seq<Seq<char>> {
        self.inputs.deep_view()
    }

    /// Everything written to the terminal.
    pub closed spec fn written_view(&self) -> Seq<char> {
        self.written@
    }

    /// The commands run so far, each by its program and arguments.
    pub closed spec fn runs_view(&self) -> Seq<(Seq<char>, Seq<Seq<char>>)> {
        self.runs@
    }

    /// What the host answered to each command run.
    pub closed spec fn answers_view(&self) -> Seq<Result<Vec<u8>, Error>> {
        self.answers@
    }

    /// A host with no command outputs, no commands run and no input.
    pub fn new() -> (r: SystemMock)
        ensures
            r.outputs_view() == Seq::<(Seq<char>, Seq<u8>)>::empty(),
            r.executed_view() == Seq::<Seq<char>>::empty(),
            r.inputs_view() == Seq::<Seq<char>>::empty(),
            r.written_view() == Seq::<char>::empty(),
            r.runs_view() == Seq::<(Seq<char>, Seq<Seq<char>>)>::empty(),
            r.answers_view() == Seq::<Result<Vec<u8>, Error>>::empty(),
    {
        let r = SystemMock {
            outputs: Vec::new(),
            executed: Vec::new(),
            inputs: Vec::new(),
            written: String::new(),
            runs: Ghost(Seq::empty()),
            answers: Ghost(Seq::empty()),
        };
        assert(r.outputs_view() =~= Seq::<(Seq<char>, Seq<u8>)>::empty());
        assert(r.executed_view() =~= Seq::<Seq<char>>::empty());
        assert(r.inputs_view() =~= Seq::<Seq<char>>::empty());
        r
    }

    /// The host that also answers the command line `command` with `output`.
    pub fn add_command_output(self, command: &str, output: &[u8]) -> (r: SystemMock)
        ensures
            r.outputs_view() == self.outputs_view().push((command@, output@)),
            r.executed_view() == self.executed_view(),
            r.inputs_view() == self.inputs_view(),
            r.written_view() == self.written_view(),
            r.runs_view() == self.runs_view(),
            r.answers_view() == self.answers_view(),
    {
        let mut r = self;
        let ghost before = r.outputs_view();
        let mut bytes: Vec<u8> = Vec::new();
        let mut i: usize = 0;
        while i < output.len()
            invariant
                i <= output@.len(),
                bytes@ == output@.take(i as int),
            decreases output@.len() - i,
        {
            bytes.push(output[i]);
            i = i + 1;
            assert(bytes@ =~= output@.take(i as int));
        }
        assert(output@.take(output@.len() as int) =~= output@);
        r.outputs.push((command.to_owned(), bytes));
        assert(r.outputs_view() =~= before.push((command@, output@)));
        r
    }

    /// Queues a line of user input.
    pub fn push_input(&mut self, line: &str)
        ensures
            final(self).inputs_view() == old(self).inputs_view().push(line@),
            final(self).outputs_view() == old(self).outputs_view(),
            final(self).executed_view() == old(self).executed_view(),
            final(self).written_view() == old(self).written_view(),
            final(self).runs_view() == old(self).runs_view(),
            final(self).answers_view() == old(self).answers_view(),
    {
        let ghost before = self.inputs.deep_view();
        self.inputs.push(line.to_owned());
        assert(self.inputs.deep_view() =~= before.push(line@));
    }

    /// The command lines run so far, oldest first.
    pub fn get_executed_commands(&self) -> (r: Vec<String>)
        ensures
            r.deep_view() == self.executed_view(),
    {
        crate::models::image::clone_strings(&self.executed)
    }

    /// Everything written to the terminal so far.
    pub fn get_written(&self) -> (r: String)
        ensures
            r@ == self.written_view(),
    {
        copy_str(self.written.as_str())
    }

    fn find_output(&self, line: &str) -> (r: Option<Vec<u8>>)
        ensures
            r.deep_view() == output_for(self.outputs_view(), line@),
    {
        let ghost all = self.outputs_view();
        let mut i: usize = 0;
        assert(all.skip(0) =~= all);
        while i < self.outputs.len()
            invariant
                i <= self.outputs@.len(),
                all == self.outputs_view(),
                output_for(all, line@) == output_for(all.skip(i as int), line@),
            decreases self.outputs@.len() - i,
        {
            assert(all.skip(i as int)[0] == all[i as int]);
            assert(all.skip(i as int).drop_first() =~= all.skip(i + 1));
            if str_eq(self.outputs[i].0.as_str(), line) {
                let bytes = self.outputs[i].1.clone();
                assert(bytes@ =~= self.outputs@[i as int].1@);
                assert(bytes.deep_view() =~= bytes@);
                return Some(bytes);
            }
            i = i + 1;
        }
        None
    }
}

impl System for SystemMock {
    open spec fn terminal_text(&self) -> Seq<char> {
        self.written_view()
    }

    open spec fn pending_lines(&self) -> Seq<Seq<char>> {
        self.inputs_view()
    }

    open spec fn commands_run(&self) -> Seq<(Seq<char>, Seq<Seq<char>>)> {
        self.runs_view()
    }

    open spec fn answers_given(&self) -> Seq<Result<Vec<u8>, Error>> {
        self.answers_view()
    }

    /// Records the command line and answers it from the table; a command
    /// line the table does not know counts as a program that is not there.
    fn run_command(&mut self, command: &SystemCommand) -> (r: Result<Vec<u8>, Error>)
        ensures
            final(self).executed_view() == old(self).executed_view().push(
                command_line(command.program_view(), command.args_view()),
            ),
            final(self).outputs_view() == old(self).outputs_view(),
            final(self).inputs_view() == old(self).inputs_view(),
            final(self).written_view() == old(self).written_view(),
            match output_for(old(self).outputs_view(), command_line(command.program_view(), command.args_view())) {
                Some(out) => r matches Ok(bytes) && bytes@ == out,
                None => r matches Err(Error::SystemCommandNotFound(p)) && p@ == command.program_view(),
            },
    {
        let line = command.to_string();
        let found = self.find_output(line.as_str());
        let ghost before = self.executed.deep_view();
        self.executed.push(line);
        assert(self.executed.deep_view() =~= before.push(
            command_line(command.program_view(), command.args_view()),
        ));
        let r = match found {
            Some(bytes) => Ok(bytes),
            None => Err(Error::SystemCommandNotFound(command.get_program().to_owned())),
        };
        self.runs = Ghost(self.runs@.push(command_view(*command)));
        self.answers = Ghost(self.answers@.push(r));
        r
    }

    /// Takes the next queued line; an empty line once the queue is empty.
    fn read_line(&mut self) -> (r: String)
        ensures
            old(self).inputs_view().len() > 0 ==> r@ == old(self).inputs_view()[0]
                && final(self).inputs_view() == old(self).inputs_view().drop_first(),
            old(self).inputs_view().len() == 0 ==> r@ == Seq::<char>::empty()
                && final(self).inputs_view() == old(self).inputs_view(),
            final(self).outputs_view() == old(self).outputs_view(),
            final(self).executed_view() == old(self).executed_view(),
            final(self).written_view() == old(self).written_view(),
    {
        if self.inputs.len() == 0 {
            String::new()
        } else {
            let ghost before = self.inputs.deep_view();
            let line = self.inputs.remove(0);
            assert(self.inputs.deep_view() =~= before.drop_first());
            line
        }
    }

    /// Appends the text to what the terminal shows.
    fn write(&mut self, text: &str)
        ensures
            final(self).written_view() == old(self).written_view() + text@,
            final(self).outputs_view() == old(self).outputs_view(),
            final(self).executed_view() == old(self).executed_view(),
            final(self).inputs_view() == old(self).inputs_view(),
    {
        crate::text::push_str(&mut self.written, text);
    }
}

} // verus!
