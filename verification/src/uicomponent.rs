//! What every part of the screen can do.

use vstd::prelude::*;
use crate::geometry::{RowIdx, Size};
use crate::render::DrawCommand;

verus! {

/// A part of the screen: it has a size, knows whether it is to be drawn anew,
/// and draws itself from a given row on.
pub trait UIComponent {
    /// The invariant of the component.
    spec fn wf(&self) -> bool;

    /// Says whether the component is to be drawn anew.
    fn set_needs_redraw(&mut self, value: bool)
        requires
            old(self).wf(),
        ensures
            final(self).wf(),
    ;

    /// Tells whether the component is to be drawn anew.
    fn needs_redraw(&self) -> (r: bool)
        requires
            self.wf(),
    ;

    /// Gives the component a new size.
    fn set_size(&mut self, size: Size)
        requires
            old(self).wf(),
        ensures
            final(self).wf(),
    ;

    /// Gives the component a new size and marks it to be drawn anew.
    fn resize(&mut self, size: Size)
        requires
            old(self).wf(),
        ensures
            final(self).wf(),
    ;

    /// What the component shows from row `origin_row` on.
    fn draw(&mut self, origin_row: RowIdx) -> (r: Vec<DrawCommand>)
        requires
            old(self).wf(),
        ensures
            final(self).wf(),
    ;

    /// Draws the component if it is to be drawn anew, and then marks it as
    /// drawn.
    fn render(&mut self, origin_row: RowIdx) -> (r: Vec<DrawCommand>)
        requires
            old(self).wf(),
        ensures
            final(self).wf(),
    ;
}

} // verus!
