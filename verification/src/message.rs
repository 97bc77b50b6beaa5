//! Messages for the log file.

use vstd::prelude::*;

verus! {

/// A line of the log file.
#[derive(Clone, Debug)]
pub struct FeroxMessage {
    /// what kind of entry it is
    pub kind: String,

    /// the text
    pub message: String,

    /// how important it is
    pub level: String,

    /// the part of the program that it comes from
    pub module: String,
}

/// A message as a mathematical value.
pub struct FeroxMessageView {
    pub kind: Seq<char>,
    pub message: Seq<char>,
    pub level: Seq<char>,
    pub module: Seq<char>,
}

impl View for FeroxMessage {
    type V = FeroxMessageView;

    open spec fn view(&self) -> FeroxMessageView {
        FeroxMessageView {
            kind: self.kind@,
            message: self.message@,
            level: self.level@,
            module: self.module@,
        }
    }
}

/// A message is seen with all its parts.
pub proof fn messages_are_seen_as_they_are(message: FeroxMessage)
    ensures
        message@.kind == message.kind@,
        message@.message == message.message@,
        message@.level == message.level@,
        message@.module == message.module@,
{
}

} // verus!
