//! What the workflow asks of the person at the terminal.

use vstd::prelude::*;

verus! {

/// Where a merge commit's message is staged for editing.
pub open spec fn commit_message_path_text() -> Seq<char> {
    ".git/COMMIT_EDITMSG"@
}

/// Where a tag's message is staged for editing.
pub open spec fn tag_message_path_text() -> Seq<char> {
    ".git/TAG_EDITMSG"@
}

/// Where a merge commit's message is staged for editing.
pub fn commit_message_path() -> (r: &'static str)
    ensures
        r@ == commit_message_path_text(),
{
    ".git/COMMIT_EDITMSG"
}

/// Where a tag's message is staged for editing.
pub fn tag_message_path() -> (r: &'static str)
    ensures
        r@ == tag_message_path_text(),
{
    ".git/TAG_EDITMSG"
}

/// The person at the terminal, as far as the workflow needs them: someone who
/// edits a proposed message and answers a prompt. The workflow relies on
/// nothing about what they return.
pub trait Operator {
    /// Presents `proposal`, staged at `path`, for editing and returns the
    /// text that was left there.
    fn edit_message(&mut self, path: &str, proposal: &str) -> String;

    /// Shows `prompt` and returns the line that was entered, trimmed.
    fn input(&mut self, prompt: &str) -> String;
}

} // verus!
