use crate::platform::system::System;
use crate::text::{copy_str, lowercase, push_str, str_eq, to_lowercase};
use crate::view::console::{after_reply, next_reply, Console};
use vstd::prelude::*;

verus! {

/// Whether a reply agrees: `y` or `yes` in any case.
pub open spec fn is_agreement(reply: Seq<char>) -> bool {
    lowercase(reply) == "y"@ || lowercase(reply) == "yes"@
}

/// A question the user answers with yes or no; no is the default.
pub struct ConfirmDialog {
    message: String,
}

impl ConfirmDialog {
    /// The question.
    pub closed spec fn message_view(&self) -> Seq<char> {
        self.message@
    }

    pub fn new(message: &str) -> (r: ConfirmDialog)
        ensures
            r.message_view() == message@,
    {
        ConfirmDialog { message: message.to_owned() }
    }

    /// The prompt: the question followed by ` [y/N]: `.
    pub fn prompt_text(&self) -> (r: String)
        ensures
            r@ == self.message_view() + " [y/N]: "@,
    {
        let mut r = copy_str(self.message.as_str());
        push_str(&mut r, " [y/N]: ");
        r
    }

    /// Whether a reply agrees: `y` or `yes` in any case.
    pub fn accepts(reply: &str) -> (r: bool)
        ensures
            r == is_agreement(reply@),
            vstd::utf8::is_ascii_chars(reply@) ==> (r <==> (crate::text::ascii_lowercase(reply@) == "y"@
                || crate::text::ascii_lowercase(reply@) == "yes"@)),
    {
        let lower = to_lowercase(reply);
        str_eq(lower.as_str(), "y") || str_eq(lower.as_str(), "yes")
    }

    /// Asks the question and says whether the user agreed: the reply that
    /// the console reads (the host's next pending line) is `y` or `yes` in
    /// any case.
    pub fn confirm<S: System>(&self, console: &mut Console<S>) -> (r: bool)
        ensures
            final(console).host().terminal_text() == old(console).host().terminal_text()
                + self.message_view() + " [y/N]: "@,
            final(console).host().pending_lines() == after_reply(old(console).host().pending_lines()),
            r == is_agreement(next_reply(old(console).host().pending_lines())),
            vstd::utf8::is_ascii_chars(next_reply(old(console).host().pending_lines())) ==> (r <==> (
            crate::text::ascii_lowercase(next_reply(old(console).host().pending_lines())) == "y"@
                || crate::text::ascii_lowercase(next_reply(old(console).host().pending_lines())) == "yes"@)),
    {
        let text = self.prompt_text();
        let reply = console.prompt(text.as_str());
        ConfirmDialog::accepts(reply.as_str())
    }
}

} // verus!
