//! The bar that shows the mode and the position.

use vstd::prelude::*;
use vstd::utf8::encode_utf8;
use crate::geometry::{sat_sub, RowIdx, Size};
use crate::render::{drawings, DrawCommand, Drawing};
use crate::strings::{push_right_aligned, right_aligned};
use crate::tuistatus::{Mode, TuiStatus};
use crate::uicomponent::UIComponent;

verus! {

/// The mathematical model of a [`StatusBar`].
pub struct StatusBarState {
    /// The status shown.
    pub status: TuiStatus,
    /// The bar is to be drawn anew.
    pub needs_redraw: bool,
    /// The size of the bar.
    pub size: Size,
}

/// The line of the status bar at `width` columns: the name of the mode, and
/// the position indicator at the right end of what is left of the width.
/// Nothing where the bytes of the line do not fit.
pub open spec fn status_line(status: TuiStatus, width: int) -> Seq<char> {
    let mode = status.mode.label();
    let line = mode + right_aligned(status.position_indicator(), sat_sub(width, encode_utf8(mode).len() as int));
    if encode_utf8(line).len() <= width {
        line
    } else {
        Seq::empty()
    }
}

impl StatusBarState {
    /// The state after a status was handed in: a status that differs from
    /// the one shown takes its place, and the bar is to be drawn anew.
    pub open spec fn after_update(self, status: TuiStatus) -> StatusBarState {
        if status != self.status {
            StatusBarState { status, needs_redraw: true, ..self }
        } else {
            self
        }
    }

    /// The state with a new size, to be drawn anew.
    pub open spec fn after_resize(self, size: Size) -> StatusBarState {
        StatusBarState { size, needs_redraw: true, ..self }
    }

    /// The state after the bar was rendered: marked as drawn.
    pub open spec fn after_render(self) -> StatusBarState {
        StatusBarState { needs_redraw: false, ..self }
    }

    /// The command that draws the bar on row `row`.
    pub open spec fn frame(self, row: int) -> Seq<Drawing> {
        seq![Drawing::PrintInvertedRow { row, text: status_line(self.status, self.size.width as int) }]
    }

    /// The commands of rendering the bar: its frame if it is to be drawn
    /// anew, else none.
    pub open spec fn rendering(self, row: int) -> Seq<Drawing> {
        if self.needs_redraw {
            self.frame(row)
        } else {
            Seq::empty()
        }
    }
}

/// The bar that shows the mode and the position.
pub struct StatusBar {
    current_status: TuiStatus,
    needs_redraw: bool,
    size: Size,
}

impl StatusBar {
    /// The model of the bar.
    pub closed spec fn state(&self) -> StatusBarState {
        StatusBarState { status: self.current_status, needs_redraw: self.needs_redraw, size: self.size }
    }

    /// A bar of no size that shows the normal mode and no line.
    pub fn new() -> (r: Self)
        ensures
            r.state() == (StatusBarState {
                status: TuiStatus { mode: Mode::Normal, total_lines: 0, current_line_idx: 0 },
                needs_redraw: false,
                size: Size { height: 0, width: 0 },
            }),
    {
        Self {
            current_status: TuiStatus { mode: Mode::Normal, total_lines: 0, current_line_idx: 0 },
            needs_redraw: false,
            size: Size { height: 0, width: 0 },
        }
    }

    /// Hands in a status: see [`StatusBarState::after_update`].
    pub fn update_status(&mut self, new_status: TuiStatus)
        ensures
            final(self).state() == old(self).state().after_update(new_status),
    {
        if new_status != self.current_status {
            self.current_status = new_status;
            self.needs_redraw = true;
        }
    }
}

impl UIComponent for StatusBar {
    open spec fn wf(&self) -> bool {
        true
    }

    fn set_needs_redraw(&mut self, value: bool)
        ensures
            final(self).state() == (StatusBarState { needs_redraw: value, ..old(self).state() }),
    {
        self.needs_redraw = value;
    }

    fn needs_redraw(&self) -> (r: bool)
        ensures
            r == self.state().needs_redraw,
    {
        self.needs_redraw
    }

    fn set_size(&mut self, size: Size)
        ensures
            final(self).state() == (StatusBarState { size, ..old(self).state() }),
    {
        self.size = size;
    }

    fn resize(&mut self, size: Size)
        ensures
            final(self).state() == old(self).state().after_resize(size),
    {
        self.set_size(size);
        self.set_needs_redraw(true);
    }

    fn draw(&mut self, origin_row: RowIdx) -> (r: Vec<DrawCommand>)
        ensures
            final(self).state() == old(self).state(),
            drawings(r@) == old(self).state().frame(origin_row as int),
    {
        let width = self.size.width;
        let mode_text = self.current_status.mode.as_str();
        let position_indicator = self.current_status.position_indicator_to_string();
        let remainder_len: usize = width.saturating_sub(mode_text.as_bytes().len());
        let mut status = mode_text.to_owned();
        push_right_aligned(&mut status, position_indicator.as_str(), remainder_len);
        let text = if status.as_str().as_bytes().len() <= width {
            status
        } else {
            String::new()
        };
        let mut frame: Vec<DrawCommand> = Vec::new();
        frame.push(DrawCommand::PrintInvertedRow { row: origin_row, text });
        proof {
            assert(drawings(frame@) =~= self.state().frame(origin_row as int));
        }
        frame
    }

    fn render(&mut self, origin_row: RowIdx) -> (r: Vec<DrawCommand>)
        ensures
            final(self).state() == old(self).state().after_render(),
            drawings(r@) == old(self).state().rendering(origin_row as int),
    {
        if self.needs_redraw() {
            let frame = self.draw(origin_row);
            self.set_needs_redraw(false);
            frame
        } else {
            let frame: Vec<DrawCommand> = Vec::new();
            proof {
                assert(drawings(frame@) =~= Seq::<Drawing>::empty());
            }
            frame
        }
    }
}

} // verus!
