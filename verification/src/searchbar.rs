//! The bar in which the search query is entered.

use vstd::prelude::*;
use crate::command::Edit;
use crate::filterbar::{edit_text, entry_caret, entry_caret_col, make_entry_line, EntryState};
use crate::geometry::{ColIdx, RowIdx, Size};
use crate::render::{drawings, DrawCommand, Drawing};
use crate::uicomponent::UIComponent;

verus! {

/// The bar in which the search query is entered.
pub struct SearchBar {
    value: String,
    needs_redraw: bool,
    size: Size,
}

impl SearchBar {
    /// What stands before the query.
    pub open spec fn prompt() -> Seq<char> {
        "/"@
    }

    /// The model of the bar.
    pub closed spec fn state(&self) -> EntryState {
        EntryState { value: self.value@, needs_redraw: self.needs_redraw, size: self.size }
    }

    /// An empty bar of no size.
    pub fn new() -> (r: Self)
        ensures
            r.state() == (EntryState {
                value: Seq::empty(),
                needs_redraw: false,
                size: Size { height: 0, width: 0 },
            }),
    {
        Self { value: String::new(), needs_redraw: false, size: Size { height: 0, width: 0 } }
    }

    /// Carries out an edit command on the query and marks the bar to be
    /// drawn anew.
    pub fn handle_edit_command(&mut self, command: Edit)
        ensures
            final(self).state() == old(self).state().after_edit(command),
    {
        edit_text(&mut self.value, command);
        self.needs_redraw = true;
    }

    /// The column of the caret: after the prompt and the query, or the
    /// last column where they do not fit.
    pub fn caret_position_col(&self) -> (r: ColIdx)
        ensures
            r == entry_caret(Self::prompt(), self.state().value, self.state().size.width as int),
    {
        entry_caret_col("/", self.value.as_str(), self.size.width)
    }

    /// A copy of the query.
    pub fn value(&self) -> (r: String)
        ensures
            r@ == self.state().value,
    {
        self.value.clone()
    }

    /// Asks for the bar to be drawn anew.
    pub fn redraw(&mut self)
        ensures
            final(self).state() == old(self).state().after_redraw(),
    {
        self.needs_redraw = true;
    }

    /// Empties the query and marks the bar to be drawn anew.
    pub fn clear_value(&mut self)
        ensures
            final(self).state() == old(self).state().after_clear(),
    {
        self.value = String::new();
        self.needs_redraw = true;
    }
}

impl UIComponent for SearchBar {
    open spec fn wf(&self) -> bool {
        true
    }

    fn set_needs_redraw(&mut self, value: bool)
        ensures
            final(self).state() == (EntryState { needs_redraw: value, ..old(self).state() }),
    {
        self.needs_redraw = value;
    }

    fn needs_redraw(&self) -> (r: bool)
        ensures
            r == self.state().needs_redraw,
    {
        self.needs_redraw
    }

    fn set_size(&mut self, size: Size)
        ensures
            final(self).state() == (EntryState { size, ..old(self).state() }),
    {
        self.size = size;
    }

    fn resize(&mut self, size: Size)
        ensures
            final(self).state() == old(self).state().after_resize(size),
    {
        self.set_size(size);
        self.set_needs_redraw(true);
    }

    fn draw(&mut self, origin_row: RowIdx) -> (r: Vec<DrawCommand>)
        ensures
            final(self).state() == old(self).state(),
            drawings(r@) == old(self).state().frame(Self::prompt(), origin_row as int),
    {
        let text = make_entry_line("/", self.value.as_str(), self.size.width);
        let mut frame: Vec<DrawCommand> = Vec::new();
        frame.push(DrawCommand::PrintRow { row: origin_row, text });
        proof {
            assert(drawings(frame@) =~= self.state().frame(Self::prompt(), origin_row as int));
        }
        frame
    }

    fn render(&mut self, origin_row: RowIdx) -> (r: Vec<DrawCommand>)
        ensures
            final(self).state() == old(self).state().after_render(),
            drawings(r@) == old(self).state().rendering(Self::prompt(), origin_row as int),
    {
        if self.needs_redraw() {
            let frame = self.draw(origin_row);
            self.set_needs_redraw(false);
            frame
        } else {
            let frame: Vec<DrawCommand> = Vec::new();
            proof {
                assert(drawings(frame@) =~= Seq::<Drawing>::empty());
            }
            frame
        }
    }
}

} // verus!
