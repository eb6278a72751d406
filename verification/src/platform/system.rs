use crate::error::Error;
use crate::platform::system_command::SystemCommand;
use vstd::prelude::*;

verus! {

/// A command by its program and arguments.
pub open spec fn command_view(command: SystemCommand) -> (Seq<char>, Seq<Seq<char>>) {
    (command.program_view(), command.args_view())
}

/// The host the library works on: it runs commands and talks to the user.
/// Its state is seen through four spec functions: what the terminal shows,
/// the input lines still to be read, the commands run and what the host
/// answered to each. An implementation defines them for its own state; the
/// empty defaults are for hosts outside the proofs.
pub trait System {
    /// Everything written to the terminal.
    closed spec fn terminal_text(&self) -> Seq<char> {
        Seq::empty()
    }

    /// The lines of user input not read yet, next first.
    closed spec fn pending_lines(&self) -> Seq<Seq<char>> {
        Seq::empty()
    }

    /// The commands run so far, oldest first.
    closed spec fn commands_run(&self) -> Seq<(Seq<char>, Seq<Seq<char>>)> {
        Seq::empty()
    }

    /// What the host answered to each command run, oldest first.
    closed spec fn answers_given(&self) -> Seq<Result<Vec<u8>, Error>> {
        Seq::empty()
    }

    /// Runs a command to its end and returns what it wrote to its output.
    fn run_command(&mut self, command: &SystemCommand) -> (r: Result<Vec<u8>, Error>)
        ensures
            final(self).commands_run() == old(self).commands_run().push(command_view(*command)),
            final(self).answers_given() == old(self).answers_given().push(r),
            final(self).terminal_text() == old(self).terminal_text(),
            final(self).pending_lines() == old(self).pending_lines(),
    ;

    /// Reads one line of user input, without its line end; an empty line
    /// when there is no input left.
    fn read_line(&mut self) -> (r: String)
        ensures
            old(self).pending_lines().len() > 0 ==> r@ == old(self).pending_lines()[0]
                && final(self).pending_lines() == old(self).pending_lines().drop_first(),
            old(self).pending_lines().len() == 0 ==> r@ == Seq::<char>::empty()
                && final(self).pending_lines() == old(self).pending_lines(),
            final(self).terminal_text() == old(self).terminal_text(),
            final(self).commands_run() == old(self).commands_run(),
            final(self).answers_given() == old(self).answers_given(),
    ;

    /// Writes text to the terminal.
    fn write(&mut self, text: &str)
        ensures
            final(self).terminal_text() == old(self).terminal_text() + text@,
            final(self).pending_lines() == old(self).pending_lines(),
            final(self).commands_run() == old(self).commands_run(),
            final(self).answers_given() == old(self).answers_given(),
    ;
}

} // verus!
