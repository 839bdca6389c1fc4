//! What a frame asks of the screen: the commands that drawing produces, for
//! the caller to carry out in their order.

use vstd::prelude::*;
use crate::annotatedstring::{AnnotatedString, AnnotatedText};
use crate::geometry::{Position, RowIdx};

verus! {

/// One request to the screen.
#[derive(Debug)]
#[allow(inconsistent_fields)]
pub enum DrawCommand {
    /// Hide the caret.
    HideCaret,
    /// Show the caret.
    ShowCaret,
    /// Put the caret at a position.
    MoveCaretTo(Position),
    /// Clear a row and write plain text on it.
    PrintRow { row: RowIdx, text: String },
    /// Clear a row and write text on it in inverted colours, over the whole
    /// width of the screen.
    PrintInvertedRow { row: RowIdx, text: String },
    /// Clear a row and write annotated text on it.
    PrintAnnotatedRow { row: RowIdx, text: AnnotatedString },
    /// Send what was requested so far to the screen.
    Flush,
}

/// The mathematical model of a [`DrawCommand`].
#[allow(inconsistent_fields)]
pub enum Drawing {
    HideCaret,
    ShowCaret,
    MoveCaretTo(Position),
    PrintRow { row: int, text: Seq<char> },
    PrintInvertedRow { row: int, text: Seq<char> },
    PrintAnnotatedRow { row: int, text: AnnotatedText },
    Flush,
}

impl View for DrawCommand {
    type V = Drawing;

    open spec fn view(&self) -> Drawing {
        match *self {
            DrawCommand::HideCaret => Drawing::HideCaret,
            DrawCommand::ShowCaret => Drawing::ShowCaret,
            DrawCommand::MoveCaretTo(position) => Drawing::MoveCaretTo(position),
            DrawCommand::PrintRow { row, text } => Drawing::PrintRow { row: row as int, text: text@ },
            DrawCommand::PrintInvertedRow { row, text } => Drawing::PrintInvertedRow { row: row as int, text: text@ },
            DrawCommand::PrintAnnotatedRow { row, text } => Drawing::PrintAnnotatedRow { row: row as int, text: text@ },
            DrawCommand::Flush => Drawing::Flush,
        }
    }
}

/// The models of a sequence of commands, in the same order.
pub open spec fn drawings(commands: Seq<DrawCommand>) -> Seq<Drawing> {
    commands.map_values(|c: DrawCommand| c@)
}

/// Puts `command` at the end of `frame`.
pub fn push_command(frame: &mut Vec<DrawCommand>, command: DrawCommand)
    ensures
        drawings(final(frame)@) == drawings(old(frame)@).push(command@),
{
    frame.push(command);
    proof {
        assert(drawings(frame@) =~= drawings(old(frame)@).push(command@));
    }
}

/// Moves the commands of `more` to the end of `frame`.
pub fn append_commands(frame: &mut Vec<DrawCommand>, more: Vec<DrawCommand>)
    ensures
        drawings(final(frame)@) == drawings(old(frame)@) + drawings(more@),
{
    let mut more = more;
    let ghost added = more@;
    frame.append(&mut more);
    proof {
        assert(drawings(frame@) =~= drawings(old(frame)@) + drawings(added));
    }
}

} // verus!
