//! The two closed sets of messages and the errors of the transport.

use vstd::prelude::*;

verus! {

/// An editing operation, sent from the front end to the engine.
#[derive(Debug, Clone, Copy, PartialEq, Eq)]
pub enum Op {
    /// Insert one character at the cursor.
    InsertChar(char),
}

/// A draw command, sent from the engine to the front end.
#[derive(Debug, PartialEq, Eq)]
pub enum DrawCommand {
    /// The authoritative content of line `line_num` is now `text`.
    RenderLine { line_num: usize, text: String },
}

/// The mathematical content of a [`DrawCommand`].
pub enum DrawCommandView {
    RenderLine { line_num: nat, text: Seq<char> },
}

impl View for DrawCommand {
    type V = DrawCommandView;

    open spec fn view(&self) -> DrawCommandView {
        match self {
            DrawCommand::RenderLine { line_num, text } => DrawCommandView::RenderLine {
                line_num: *line_num as nat,
                text: text@,
            },
        }
    }
}

impl Clone for DrawCommand {
    fn clone(&self) -> (copy: DrawCommand)
        ensures
            copy == *self,
    {
        match self {
            DrawCommand::RenderLine { line_num, text } => DrawCommand::RenderLine {
                line_num: *line_num,
                text: text.clone(),
            },
        }
    }
}

/// A byte region cannot serve as a mailbox.
#[derive(Debug, Clone, Copy, PartialEq, Eq)]
pub struct ChannelUnavailable;

/// An encoded message does not fit the mailbox.
#[derive(Debug, Clone, Copy, PartialEq, Eq)]
pub struct PayloadTooLarge;

/// Payload bytes do not decode to a message.
#[derive(Debug, Clone, Copy, PartialEq, Eq)]
pub struct DecodeFailed;

} // verus!
