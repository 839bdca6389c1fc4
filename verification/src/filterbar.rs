//! The bar in which the filter is entered.

use vstd::prelude::*;
use vstd::utf8::encode_utf8;
use crate::command::Edit;
use crate::geometry::{least, ColIdx, RowIdx, Size};
use crate::render::{drawings, DrawCommand, Drawing};
use crate::uicomponent::UIComponent;

verus! {

/// The mathematical model of a bar in which text is entered.
pub struct EntryState {
    /// The text entered so far.
    pub value: Seq<char>,
    /// The bar is to be drawn anew.
    pub needs_redraw: bool,
    /// The size of the bar.
    pub size: Size,
}

/// The text after an edit command: a character is appended, the last
/// character is removed, and the other commands leave the text as it is.
pub open spec fn edited(value: Seq<char>, command: Edit) -> Seq<char> {
    match command {
        Edit::Insert(ch) => value.push(ch),
        Edit::DeleteBackward => if value.len() > 0 {
            value.drop_last()
        } else {
            value
        },
        Edit::Delete | Edit::InsertNewLine => value,
    }
}

/// What a bar shows: the prompt and the text if their bytes fit into
/// `width` columns, else nothing.
pub open spec fn entry_line(prompt: Seq<char>, value: Seq<char>, width: int) -> Seq<char> {
    if encode_utf8(prompt + value).len() <= width {
        prompt + value
    } else {
        Seq::empty()
    }
}

/// The column after the prompt and the text, or the last column where
/// they do not fit.
pub open spec fn entry_caret(prompt: Seq<char>, value: Seq<char>, width: int) -> int {
    least((encode_utf8(prompt).len() + encode_utf8(value).len()) as int, width)
}

impl EntryState {
    /// The state after an edit command.
    pub open spec fn after_edit(self, command: Edit) -> EntryState {
        EntryState { value: edited(self.value, command), needs_redraw: true, ..self }
    }

    /// The state with the text emptied.
    pub open spec fn after_clear(self) -> EntryState {
        EntryState { value: Seq::empty(), needs_redraw: true, ..self }
    }

    /// The state that asks for the bar to be drawn anew.
    pub open spec fn after_redraw(self) -> EntryState {
        EntryState { needs_redraw: true, ..self }
    }

    /// The state with a new size, to be drawn anew.
    pub open spec fn after_resize(self, size: Size) -> EntryState {
        EntryState { size, needs_redraw: true, ..self }
    }

    /// The state after the bar was rendered: marked as drawn.
    pub open spec fn after_render(self) -> EntryState {
        EntryState { needs_redraw: false, ..self }
    }

    /// The command that draws the bar with `prompt` on row `row`.
    pub open spec fn frame(self, prompt: Seq<char>, row: int) -> Seq<Drawing> {
        seq![Drawing::PrintRow { row, text: entry_line(prompt, self.value, self.size.width as int) }]
    }

    /// The commands of rendering the bar: its frame if it is to be drawn
    /// anew, else none.
    pub open spec fn rendering(self, prompt: Seq<char>, row: int) -> Seq<Drawing> {
        if self.needs_redraw {
            self.frame(prompt, row)
        } else {
            Seq::empty()
        }
    }
}

/// Carries out an edit command on the text `value`.
pub fn edit_text(value: &mut String, command: Edit)
    ensures
        final(value)@ == edited(old(value)@, command),
{
    match command {
        Edit::Insert(ch) => {
            value.push(ch);
        },
        Edit::DeleteBackward => {
            let _ = value.pop();
        },
        Edit::Delete | Edit::InsertNewLine => {},
    }
}

/// The line that a bar with `prompt` and the text `value` shows at `width`
/// columns.
pub fn make_entry_line(prompt: &str, value: &str, width: usize) -> (r: String)
    ensures
        r@ == entry_line(prompt@, value@, width as int),
{
    let mut message = prompt.to_owned();
    message.append(value);
    if message.as_str().as_bytes().len() <= width {
        message
    } else {
        String::new()
    }
}

/// The column of the caret in a bar with `prompt` and the text `value` at
/// `width` columns.
pub fn entry_caret_col(prompt: &str, value: &str, width: usize) -> (r: ColIdx)
    ensures
        r == entry_caret(prompt@, value@, width as int),
{
    let used: usize = prompt.as_bytes().len().saturating_add(value.as_bytes().len());
    if used < width {
        used
    } else {
        width
    }
}

/// The bar in which the filter is entered.
pub struct FilterBar {
    value: String,
    needs_redraw: bool,
    size: Size,
}

impl FilterBar {
    /// What stands before the filter.
    pub open spec fn prompt() -> Seq<char> {
        "> "@
    }

    /// The model of the bar.
    pub closed spec fn state(&self) -> EntryState {
        EntryState { value: self.value@, needs_redraw: self.needs_redraw, size: self.size }
    }

    /// An empty bar of no size.
    pub fn new() -> (r: Self)
        ensures
            r.state() == (EntryState {
                value: Seq::empty(),
                needs_redraw: false,
                size: Size { height: 0, width: 0 },
            }),
    {
        Self { value: String::new(), needs_redraw: false, size: Size { height: 0, width: 0 } }
    }

    /// Carries out an edit command on the filter and marks the bar to be
    /// drawn anew.
    pub fn handle_edit_command(&mut self, command: Edit)
        ensures
            final(self).state() == old(self).state().after_edit(command),
    {
        edit_text(&mut self.value, command);
        self.needs_redraw = true;
    }

    /// The column of the caret: after the prompt and the filter, or the
    /// last column where they do not fit.
    pub fn caret_position_col(&self) -> (r: ColIdx)
        ensures
            r == entry_caret(Self::prompt(), self.state().value, self.state().size.width as int),
    {
        entry_caret_col("> ", self.value.as_str(), self.size.width)
    }

    /// A copy of the filter.
    pub fn value(&self) -> (r: String)
        ensures
            r@ == self.state().value,
    {
        self.value.clone()
    }

    /// Empties the filter and marks the bar to be drawn anew.
    pub fn clear_value(&mut self)
        ensures
            final(self).state() == old(self).state().after_clear(),
    {
        self.value = String::new();
        self.needs_redraw = true;
    }
}

impl UIComponent for FilterBar {
    open spec fn wf(&self) -> bool {
        true
    }

    fn set_needs_redraw(&mut self, value: bool)
        ensures
            final(self).state() == (EntryState { needs_redraw: value, ..old(self).state() }),
    {
        self.needs_redraw = value;
    }

    fn needs_redraw(&self) -> (r: bool)
        ensures
            r == self.state().needs_redraw,
    {
        self.needs_redraw
    }

    fn set_size(&mut self, size: Size)
        ensures
            final(self).state() == (EntryState { size, ..old(self).state() }),
    {
        self.size = size;
    }

    fn resize(&mut self, size: Size)
        ensures
            final(self).state() == old(self).state().after_resize(size),
    {
        self.set_size(size);
        self.set_needs_redraw(true);
    }

    fn draw(&mut self, origin_row: RowIdx) -> (r: Vec<DrawCommand>)
        ensures
            final(self).state() == old(self).state(),
            drawings(r@) == old(self).state().frame(Self::prompt(), origin_row as int),
    {
        let text = make_entry_line("> ", self.value.as_str(), self.size.width);
        let mut frame: Vec<DrawCommand> = Vec::new();
        frame.push(DrawCommand::PrintRow { row: origin_row, text });
        proof {
            assert(drawings(frame@) =~= self.state().frame(Self::prompt(), origin_row as int));
        }
        frame
    }

    fn render(&mut self, origin_row: RowIdx) -> (r: Vec<DrawCommand>)
        ensures
            final(self).state() == old(self).state().after_render(),
            drawings(r@) == old(self).state().rendering(Self::prompt(), origin_row as int),
    {
        if self.needs_redraw() {
            let frame = self.draw(origin_row);
            self.set_needs_redraw(false);
            frame
        } else {
            let frame: Vec<DrawCommand> = Vec::new();
            proof {
                assert(drawings(frame@) =~= Seq::<Drawing>::empty());
            }
            frame
        }
    }
}

} // verus!
