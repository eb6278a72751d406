use crate::platform::system::System;
use vstd::prelude::*;

verus! {

/// The terminal of the host.
pub struct Console<'a, S: System> {
    system: &'a mut S,
}

/// The reply that reading a line gives on a host with these pending lines:
/// the next line, or an empty line when there is none.
pub open spec fn next_reply(pending: Seq<Seq<char>>) -> Seq<char> {
    if pending.len() > 0 {
        pending[0]
    } else {
        Seq::empty()
    }
}

/// The pending lines after one is read.
pub open spec fn after_reply(pending: Seq<Seq<char>>) -> Seq<Seq<char>> {
    if pending.len() > 0 {
        pending.drop_first()
    } else {
        pending
    }
}

impl<'a, S: System> Console<'a, S> {
    /// The host the console talks through.
    pub closed spec fn host(&self) -> S {
        *self.system
    }

    pub fn new(system: &'a mut S) -> (r: Console<'a, S>)
        ensures
            r.host() == *old(system),
    {
        Console { system }
    }

    /// Writes `text` and returns the line the user answers: the host's
    /// next pending line, or an empty line when it has none.
    pub fn prompt(&mut self, text: &str) -> (r: String)
        ensures
            final(self).host().terminal_text() == old(self).host().terminal_text() + text@,
            r@ == next_reply(old(self).host().pending_lines()),
            final(self).host().pending_lines() == after_reply(old(self).host().pending_lines()),
            final(self).host().commands_run() == old(self).host().commands_run(),
            final(self).host().answers_given() == old(self).host().answers_given(),
    {
        self.system.write(text);
        self.system.read_line()
    }

    /// Writes `text` as a line of its own: the text, then a line end.
    pub fn info(&mut self, text: &str)
        ensures
            final(self).host().terminal_text() == old(self).host().terminal_text() + text@ + "\n"@,
            final(self).host().pending_lines() == old(self).host().pending_lines(),
            final(self).host().commands_run() == old(self).host().commands_run(),
            final(self).host().answers_given() == old(self).host().answers_given(),
    {
        self.system.write(text);
        self.system.write("\n");
    }
}

} // verus!
