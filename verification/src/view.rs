//! The viewport onto the active collection: the selected line, the scroll
//! offset, movement, filtering and the search session.

use vstd::prelude::*;
use vstd::view::View as _;
use vstd::string::StringSliceAdditionalSpecFns;
use vstd::utf8::encode_utf8;
use crate::annotatedstring::AnnotatedText;
use crate::buffer::{backward_hit, forward_hit, found_index, Buffer};
use crate::command::Move;
use crate::geometry::{least, sat_sub, LineIdx, RowIdx, Size};
use crate::highlighter::{line_spans, Highlighter};
use crate::render::{drawings, DrawCommand, Drawing};
use crate::service::{fitting, Item};
use crate::tuistatus::{Mode, TuiStatus};
use crate::uicomponent::UIComponent;

verus! {

/// A search session: the position to go back to when the search is
/// dismissed, and the query entered so far.
#[derive(Debug)]
pub struct SearchInfo {
    pub prev_location: LineIdx,
    pub prev_scroll_offset: RowIdx,
    pub query: Option<String>,
}

/// The mathematical model of a [`SearchInfo`].
pub struct SearchSession {
    pub prev_location: int,
    pub prev_scroll_offset: int,
    pub query: Option<Seq<char>>,
}

impl SearchInfo {
    /// The model of the session.
    pub open spec fn model(&self) -> SearchSession {
        SearchSession {
            prev_location: self.prev_location as int,
            prev_scroll_offset: self.prev_scroll_offset as int,
            query: match self.query {
                Some(q) => Some(q@),
                None => None,
            },
        }
    }
}

/// The direction of a search.
#[derive(Clone, Copy, Debug, PartialEq, Eq, Structural)]
pub enum SearchDirection {
    Forward,
    Backward,
}

/// Half of `height`, rounded up.
pub open spec fn half_up(height: int) -> int {
    (height + 1) / 2
}

/// The scroll offset that shows line `to` in a window of `height` rows which
/// stood at `offset`: `to` itself where the line lay above the window, the
/// offset that makes it the last row where it lay below, else `offset`.
pub open spec fn scrolled(offset: int, to: int, height: int) -> int {
    if to < offset {
        to
    } else if to >= offset + height {
        to - height + 1
    } else {
        offset
    }
}

/// The number of lines that a move command goes: one line, or one page less
/// a line, times the multiplier if there is one.
pub open spec fn move_step(command: Move, height: int, multiplier: Option<usize>) -> int {
    let base = match command {
        Move::Up | Move::Down => 1,
        Move::PageUp | Move::PageDown => sat_sub(height, 1),
    };
    match multiplier {
        Some(m) => base * m,
        None => base,
    }
}

/// The mathematical model of a [`View`].
pub struct ViewState {
    /// All items.
    pub all: Seq<Item>,
    /// The active collection.
    pub lines: Seq<Item>,
    /// The size of the window.
    pub size: Size,
    /// The index of the selected line.
    pub location: int,
    /// The index of the line shown on the first row.
    pub scroll_offset: int,
    /// The window is to be drawn anew.
    pub needs_redraw: bool,
    /// The selected line is shown as selected.
    pub highlight_selected: bool,
    /// The search session, if there is one.
    pub search: Option<SearchSession>,
}

impl ViewState {
    /// The index of the last line, or zero on an empty collection.
    pub open spec fn last_line(self) -> int {
        sat_sub(self.lines.len() as int, 1)
    }

    /// The selected line exists, or the collection is empty and the selected
    /// index is zero.
    pub open spec fn location_valid(self) -> bool {
        0 <= self.location <= self.last_line()
    }

    /// The selected line lies inside the window.
    pub open spec fn shows_location(self) -> bool {
        self.scroll_offset <= self.location < self.scroll_offset + self.size.height
    }

    /// The bytes of the query of the search session, if there is one.
    pub open spec fn query_bytes(self) -> Option<Seq<u8>> {
        match self.search {
            Some(session) => match session.query {
                Some(q) => Some(encode_utf8(q)),
                None => None,
            },
            None => None,
        }
    }

    /// The state with the selected index brought back into the collection.
    pub open spec fn snapped(self) -> ViewState {
        ViewState { location: least(self.location, self.last_line()), needs_redraw: true, ..self }
    }

    /// The state with the window scrolled so that it shows the selected line.
    pub open spec fn scrolled_into_view(self) -> ViewState {
        ViewState {
            scroll_offset: scrolled(self.scroll_offset, self.location, self.size.height as int),
            needs_redraw: true,
            ..self
        }
    }

    /// The state after a move command: the selected index goes up or down by
    /// the step of the command, stops at the first and at the last line, and
    /// the window follows it.
    pub open spec fn after_move(self, command: Move, multiplier: Option<usize>) -> ViewState {
        let step = move_step(command, self.size.height as int, multiplier);
        let location = match command {
            Move::Up | Move::PageUp => sat_sub(self.location, step),
            Move::Down | Move::PageDown => least(self.location + step, self.last_line()),
        };
        (ViewState { location, ..self }).scrolled_into_view()
    }

    /// The state after the window got the size `size`.
    pub open spec fn after_resize(self, size: Size) -> ViewState {
        (ViewState { size, ..self }).scrolled_into_view()
    }

    /// The state after a search: where it found a line, that line is
    /// selected and shown in the middle of the window.
    pub open spec fn after_jump(self, target: Option<int>) -> ViewState {
        match target {
            Some(idx) => ViewState {
                location: idx,
                scroll_offset: sat_sub(idx, half_up(self.size.height as int)),
                needs_redraw: true,
                ..self
            },
            None => ViewState { needs_redraw: true, ..self },
        }
    }

    /// What a search from `from` in the given direction finds with the query
    /// of the session: nothing without a session or a query.
    pub open spec fn search_target(self, from: int, direction: SearchDirection) -> Option<int> {
        match self.query_bytes() {
            Some(q) => match direction {
                SearchDirection::Forward => forward_hit(self.lines, q, from),
                SearchDirection::Backward => backward_hit(self.lines, q, from),
            },
            None => None,
        }
    }

    /// The state after a search from `from` in the given direction.
    pub open spec fn after_search(self, from: int, direction: SearchDirection) -> ViewState {
        self.after_jump(self.search_target(from, direction))
    }

    /// The state with `query` as the query of the search session, if there
    /// is a session.
    pub open spec fn with_query(self, query: Seq<char>) -> ViewState {
        ViewState {
            search: match self.search {
                Some(session) => Some(SearchSession { query: Some(query), ..session }),
                None => None,
            },
            ..self
        }
    }

    /// The state in which the selected line is shown as selected, or is not.
    pub open spec fn after_highlight(self, value: bool) -> ViewState {
        ViewState { highlight_selected: value, needs_redraw: true, ..self }
    }

    /// The state with the first line selected and shown.
    pub open spec fn after_scroll_to_start(self) -> ViewState {
        (ViewState { location: 0, ..self }).scrolled_into_view()
    }

    /// The state after a jump to the next line after the selected one that
    /// holds the query.
    pub open spec fn after_search_next(self) -> ViewState {
        self.after_search(self.location + 1, SearchDirection::Forward)
    }

    /// The state after a jump to the next line before the selected one
    /// that holds the query.
    pub open spec fn after_search_prev(self) -> ViewState {
        self.after_search(sat_sub(self.location, 1), SearchDirection::Backward)
    }

    /// The state after `query` became the query of the session and the first
    /// line from the selected one on that holds it was jumped to.
    pub open spec fn after_query(self, query: Seq<char>) -> ViewState {
        self.with_query(query).after_search(self.location, SearchDirection::Forward)
    }

    /// The state with a new search session that remembers the position.
    pub open spec fn after_enter_search(self) -> ViewState {
        ViewState {
            search: Some(
                SearchSession { prev_location: self.location, prev_scroll_offset: self.scroll_offset, query: None },
            ),
            ..self
        }
    }

    /// The state after the window was rendered: marked as drawn.
    pub open spec fn after_render(self) -> ViewState {
        ViewState { needs_redraw: false, ..self }
    }

    /// The state after the search was dismissed: the position of the session
    /// is restored, as far as the collection reaches, the window shows it,
    /// and the session is gone. Without a session the position stays.
    pub open spec fn after_dismiss(self) -> ViewState {
        match self.search {
            Some(session) => (ViewState {
                location: least(session.prev_location, self.last_line()),
                scroll_offset: session.prev_scroll_offset,
                search: None,
                ..self
            }).scrolled_into_view(),
            None => ViewState { needs_redraw: true, ..self },
        }
    }

    /// The state after the search was confirmed: the position stays, and the
    /// session keeps the query but goes back to no earlier position.
    pub open spec fn after_confirm(self) -> ViewState {
        ViewState {
            search: match self.search {
                Some(session) => Some(
                    SearchSession {
                        prev_location: self.location,
                        prev_scroll_offset: self.scroll_offset,
                        ..session
                    },
                ),
                None => None,
            },
            needs_redraw: true,
            ..self
        }
    }

    /// What row `i` of the window shows when the window starts at row
    /// `origin` of the screen: the line at that place with its annotations, or
    /// a tilde where the collection has ended.
    pub open spec fn row_drawing(self, origin: int, i: int) -> Drawing {
        let idx = self.scroll_offset + i;
        if idx < self.lines.len() {
            let text = self.lines[idx].line_bytes();
            Drawing::PrintAnnotatedRow {
                row: origin + i,
                text: AnnotatedText {
                    text,
                    annotations: line_spans(
                        text,
                        self.query_bytes(),
                        self.highlight_selected && idx == self.location,
                    ),
                },
            }
        } else {
            Drawing::PrintRow { row: origin + i, text: "~"@ }
        }
    }

    /// The number of rows of the window that lie on a screen whose rows are
    /// counted in `usize`, when the window starts at row `origin`.
    pub open spec fn rows_on_screen(self, origin: int) -> int {
        least(self.size.height as int, usize::MAX - origin)
    }

    /// What the window shows when it starts at row `origin` of the screen,
    /// row by row.
    pub open spec fn frame(self, origin: int) -> Seq<Drawing> {
        Seq::new(self.rows_on_screen(origin) as nat, |i: int| self.row_drawing(origin, i))
    }

    /// The commands of rendering the window: its frame if it is to be drawn
    /// anew, else none.
    pub open spec fn rendering(self, origin: int) -> Seq<Drawing> {
        if self.needs_redraw {
            self.frame(origin)
        } else {
            Seq::empty()
        }
    }

    /// The state after the filter was set to the bytes `query`: the active
    /// collection is the items whose name begins with them, and the selected
    /// index is brought back into it.
    pub open spec fn after_filter(self, query: Seq<u8>) -> ViewState {
        (ViewState { lines: self.all.filter(crate::buffer::name_begins_with(query)), ..self }).snapped()
    }

    /// The state after the items that the raw lines `lines` become took the
    /// place of the collection.
    pub open spec fn after_load(self, lines: Seq<String>) -> ViewState {
        (ViewState {
            all: crate::buffer::loaded_items(lines, self.size.width as int),
            lines: crate::buffer::loaded_items(lines, self.size.width as int),
            ..self
        }).snapped()
    }
}

/// A window of at least one row that was scrolled to a line shows that line.
pub proof fn lemma_scrolled_shows(offset: int, to: int, height: int)
    requires
        height > 0,
    ensures
        scrolled(offset, to, height) <= to < scrolled(offset, to, height) + height,
{
}

/// After a move, and after a change of size, a window of at least one row
/// shows the selected line, and the selected line exists or the collection is
/// empty.
pub proof fn lemma_move_and_resize_show_location(
    state: ViewState,
    command: Move,
    multiplier: Option<usize>,
    size: Size,
)
    requires
        state.location_valid(),
    ensures
        state.size.height > 0 ==> state.after_move(command, multiplier).shows_location(),
        state.after_move(command, multiplier).location_valid(),
        size.height > 0 ==> state.after_resize(size).shows_location(),
        state.after_resize(size).location_valid(),
{
    let step = move_step(command, state.size.height as int, multiplier);
    assert(step >= 0) by (nonlinear_arith)
        requires
            step == move_step(command, state.size.height as int, multiplier),
    {
        match multiplier {
            Some(m) => {
                let base = match command {
                    Move::Up | Move::Down => 1,
                    Move::PageUp | Move::PageDown => sat_sub(state.size.height as int, 1),
                };
                assert(base >= 0 && m >= 0);
                assert(base * m >= 0);
            },
            None => {},
        }
    }
}

/// The viewport onto the active collection.
pub struct View {
    buffer: Buffer,
    needs_redraw: bool,
    size: Size,
    location: LineIdx,
    scroll_offset: RowIdx,
    search_info: Option<SearchInfo>,
    hilight_selected_line: bool,
}

/// Computes the step of a move command, stopping at the greatest `usize`.
fn step_of(command: Move, height: usize, multiplier: Option<usize>) -> (r: usize)
    ensures
        r == least(move_step(command, height as int, multiplier), usize::MAX as int),
{
    let base: usize = match command {
        Move::Up | Move::Down => 1,
        Move::PageUp | Move::PageDown => height.saturating_sub(1),
    };
    match multiplier {
        Some(m) => match base.checked_mul(m) {
            Some(product) => product,
            None => usize::MAX,
        },
        None => base,
    }
}

impl View {
    /// The model of the viewport.
    pub closed spec fn state(&self) -> ViewState {
        ViewState {
            all: self.buffer.all(),
            lines: self.buffer.active(),
            size: self.size,
            location: self.location as int,
            scroll_offset: self.scroll_offset as int,
            needs_redraw: self.needs_redraw,
            highlight_selected: self.hilight_selected_line,
            search: match self.search_info {
                Some(info) => Some(info.model()),
                None => None,
            },
        }
    }

    /// In a well-formed viewport the selected line exists, or the collection
    /// is empty and the selected index is zero.
    pub proof fn lemma_location_valid(&self)
        requires
            self.wf(),
        ensures
            self.state().location_valid(),
    {
    }

    /// A viewport of no size onto an empty collection.
    pub fn new() -> (r: Self)
        ensures
            r.wf(),
            r.state() == (ViewState {
                all: Seq::empty(),
                lines: Seq::empty(),
                size: Size { height: 0, width: 0 },
                location: 0,
                scroll_offset: 0,
                needs_redraw: false,
                highlight_selected: false,
                search: None,
            }),
    {
        Self {
            buffer: Buffer::new(),
            needs_redraw: false,
            size: Size { height: 0, width: 0 },
            location: 0,
            scroll_offset: 0,
            search_info: None,
            hilight_selected_line: false,
        }
    }

    /// Says whether the selected line is shown as selected.
    pub fn set_hilight_selected_line(&mut self, value: bool)
        requires
            old(self).wf(),
        ensures
            final(self).wf(),
            final(self).state() == old(self).state().after_highlight(value),
    {
        self.hilight_selected_line = value;
        self.needs_redraw = true;
    }

    /// The index of the selected line.
    pub fn location(&self) -> (r: LineIdx)
        ensures
            r == self.state().location,
    {
        self.location
    }

    /// The index of the line shown on the first row.
    pub fn scroll_offset(&self) -> (r: RowIdx)
        ensures
            r == self.state().scroll_offset,
    {
        self.scroll_offset
    }

    /// The number of lines of the active collection.
    pub fn height(&self) -> (r: usize)
        ensures
            r == self.state().lines.len(),
    {
        self.buffer.height()
    }

    /// The name of the selected item, if the collection is not empty.
    pub fn get_selected_service_name(&self) -> (r: Option<String>)
        requires
            self.wf(),
        ensures
            match r {
                Some(name) => self.state().lines.len() > 0 && name@ == self.state().lines[self.state().location].name,
                None => self.state().lines.len() == 0,
            },
    {
        self.buffer.get_selected_service_name(self.location)
    }

    /// Replaces the collection by the items that the raw lines `lines` become
    /// at the width of the window, with no filter set, and brings the
    /// selected index back into the collection.
    pub fn load(&mut self, lines: &Vec<String>)
        requires
            old(self).wf(),
        ensures
            final(self).wf(),
            final(self).state() == old(self).state().after_load(lines@),
    {
        self.buffer = Buffer::load(lines, self.size.width);
        self.snap_to_valid_line();
    }

    /// The status for the status bar in the given mode.
    pub fn get_status(&self, mode: Mode) -> (r: TuiStatus)
        ensures
            r.mode == mode,
            r.total_lines == self.state().lines.len(),
            r.current_line_idx == self.state().location,
    {
        TuiStatus { mode, total_lines: self.buffer.height(), current_line_idx: self.location }
    }

    /// Scrolls the window so that it shows the selected line.
    pub fn scroll_location_into_view(&mut self)
        requires
            old(self).wf(),
        ensures
            final(self).wf(),
            final(self).state() == old(self).state().scrolled_into_view(),
    {
        let height = self.size.height;
        let to = self.location;
        let total = self.buffer.height();
        assert(to <= sat_sub(total as int, 1) < usize::MAX);
        if to < self.scroll_offset {
            self.scroll_offset = to;
        } else if to - self.scroll_offset >= height {
            self.scroll_offset = to - height + 1;
        }
        self.needs_redraw = true;
    }

    /// Scrolls the window so that the selected line stands in its middle.
    fn center_location(&mut self)
        requires
            old(self).wf(),
        ensures
            final(self).wf(),
            final(self).state() == (ViewState {
                scroll_offset: sat_sub(old(self).state().location, half_up(old(self).state().size.height as int)),
                needs_redraw: true,
                ..old(self).state()
            }),
    {
        let height = self.size.height;
        let vertical_mid: usize = height / 2 + height % 2;
        self.scroll_offset = self.location.saturating_sub(vertical_mid);
        self.needs_redraw = true;
    }

    /// Brings the selected index back into the collection.
    fn snap_to_valid_line(&mut self)
        requires
            old(self).buffer.wf(),
        ensures
            final(self).wf(),
            final(self).state() == old(self).state().snapped(),
    {
        let last = self.buffer.height().saturating_sub(1);
        if self.location > last {
            self.location = last;
        }
        self.needs_redraw = true;
    }

    /// Selects the first line and scrolls the window to it.
    pub fn scroll_to_start(&mut self)
        requires
            old(self).wf(),
        ensures
            final(self).wf(),
            final(self).state() == old(self).state().after_scroll_to_start(),
    {
        self.location = 0;
        self.scroll_location_into_view();
    }

    /// Carries out a move command, `multiplier` times if there is a
    /// multiplier: see [`ViewState::after_move`]. The selected line then
    /// exists, and a window of at least one row shows it.
    pub fn handle_move_command(&mut self, command: Move, multiplier: Option<usize>)
        requires
            old(self).wf(),
        ensures
            final(self).wf(),
            final(self).state() == old(self).state().after_move(command, multiplier),
            final(self).state().location_valid(),
            old(self).state().size.height > 0 ==> final(self).state().shows_location(),
    {
        let step = step_of(command, self.size.height, multiplier);
        let last = self.buffer.height().saturating_sub(1);
        proof {
            lemma_move_and_resize_show_location(old(self).state(), command, multiplier, self.size);
        }
        match command {
            Move::Up | Move::PageUp => {
                self.location = self.location.saturating_sub(step);
            },
            Move::Down | Move::PageDown => {
                let target = self.location.saturating_add(step);
                self.location = if target < last {
                    target
                } else {
                    last
                };
            },
        }
        self.scroll_location_into_view();
    }

    /// Sets the filter of the collection to `query` and brings the selected
    /// index back into the collection.
    pub fn filter(&mut self, query: &str)
        requires
            old(self).wf(),
        ensures
            final(self).wf(),
            final(self).state() == old(self).state().after_filter(query.spec_bytes()),
    {
        self.buffer.filter(query);
        self.snap_to_valid_line();
    }

    /// The query of the search session, if there is one.
    fn get_search_query(&self) -> (r: Option<&str>)
        ensures
            match r {
                Some(q) => self.state().search.is_some() && self.state().search.unwrap().query == Some(q@),
                None => self.state().search.is_none() || self.state().search.unwrap().query.is_none(),
            },
    {
        match &self.search_info {
            Some(info) => match &info.query {
                Some(q) => Some(q.as_str()),
                None => None,
            },
            None => None,
        }
    }

    /// Searches from `from` in the given direction with the query of the
    /// session, and jumps to the line that was found.
    fn search_in_direction(&mut self, from: LineIdx, direction: SearchDirection)
        requires
            old(self).wf(),
        ensures
            final(self).wf(),
            final(self).state() == old(self).state().after_search(from as int, direction),
    {
        let found = match self.get_search_query() {
            Some(query) => match direction {
                SearchDirection::Forward => self.buffer.search_forward(query, from),
                SearchDirection::Backward => self.buffer.search_backward(query, from),
            },
            None => None,
        };
        proof {
            assert(found_index(found) == old(self).state().search_target(from as int, direction));
        }
        match found {
            Some(location) => {
                self.location = location;
                self.center_location();
            },
            None => {
                self.needs_redraw = true;
            },
        }
    }

    /// Jumps to the next line after the selected one that holds the query.
    pub fn search_next(&mut self)
        requires
            old(self).wf(),
        ensures
            final(self).wf(),
            final(self).state() == old(self).state().after_search_next(),
    {
        let total = self.buffer.height();
        assert(self.location <= sat_sub(total as int, 1) < usize::MAX);
        let from = self.location.saturating_add(1);
        self.search_in_direction(from, SearchDirection::Forward);
    }

    /// Jumps to the next line before the selected one that holds the
    /// query.
    pub fn search_prev(&mut self)
        requires
            old(self).wf(),
        ensures
            final(self).wf(),
            final(self).state() == old(self).state().after_search_prev(),
    {
        let from = self.location.saturating_sub(1);
        self.search_in_direction(from, SearchDirection::Backward);
    }

    /// Makes `query` the query of the search session, if there is one, and
    /// jumps to the first line from the selected one on that holds it.
    pub fn search(&mut self, query: &str)
        requires
            old(self).wf(),
        ensures
            final(self).wf(),
            final(self).state() == old(self).state().after_query(query@),
    {
        match &mut self.search_info {
            Some(info) => {
                info.query = Some(query.to_owned());
            },
            None => {},
        }
        assert(self.state() == old(self).state().with_query(query@));
        let from = self.location;
        self.search_in_direction(from, SearchDirection::Forward);
    }

    /// Begins a search session that remembers the position.
    pub fn enter_search(&mut self)
        requires
            old(self).wf(),
        ensures
            final(self).wf(),
            final(self).state() == old(self).state().after_enter_search(),
    {
        self.search_info = Some(
            SearchInfo { prev_location: self.location, prev_scroll_offset: self.scroll_offset, query: None },
        );
    }

    /// Confirms the search: see [`ViewState::after_confirm`].
    pub fn exit_search(&mut self)
        requires
            old(self).wf(),
        ensures
            final(self).wf(),
            final(self).state() == old(self).state().after_confirm(),
    {
        let location = self.location;
        let scroll_offset = self.scroll_offset;
        match &mut self.search_info {
            Some(info) => {
                info.prev_location = location;
                info.prev_scroll_offset = scroll_offset;
            },
            None => {},
        }
        self.needs_redraw = true;
    }

    /// Dismisses the search: see [`ViewState::after_dismiss`].
    pub fn dismiss_search(&mut self)
        requires
            old(self).wf(),
        ensures
            final(self).wf(),
            final(self).state() == old(self).state().after_dismiss(),
    {
        let restored = match &self.search_info {
            Some(info) => Some((info.prev_location, info.prev_scroll_offset)),
            None => None,
        };
        self.search_info = None;
        match restored {
            Some((location, scroll_offset)) => {
                self.location = location;
                self.scroll_offset = scroll_offset;
                self.snap_to_valid_line();
                self.scroll_location_into_view();
            },
            None => {
                self.needs_redraw = true;
            },
        }
    }

}

impl UIComponent for View {
    /// The collection is well-formed, and the selected line exists or the
    /// collection is empty and the selected index is zero.
    closed spec fn wf(&self) -> bool {
        &&& self.buffer.wf()
        &&& self.state().location_valid()
    }

    /// Says whether the window is to be drawn anew.
    fn set_needs_redraw(&mut self, value: bool)
        ensures
            final(self).wf(),
            final(self).state() == (ViewState { needs_redraw: value, ..old(self).state() }),
    {
        self.needs_redraw = value;
    }

    /// Tells whether the window is to be drawn anew.
    fn needs_redraw(&self) -> (r: bool)
        ensures
            r == self.state().needs_redraw,
    {
        self.needs_redraw
    }

    /// Gives the window the size `size` and scrolls it so that it shows the
    /// selected line.
    fn set_size(&mut self, size: Size)
        ensures
            final(self).wf(),
            final(self).state() == old(self).state().after_resize(size),
            size.height > 0 ==> final(self).state().shows_location(),
    {
        self.size = size;
        self.scroll_location_into_view();
    }

    /// Gives the window the size `size`, scrolls it so that it shows the
    /// selected line, and marks it to be drawn anew.
    fn resize(&mut self, size: Size)
        ensures
            final(self).wf(),
            final(self).state() == old(self).state().after_resize(size),
            size.height > 0 ==> final(self).state().shows_location(),
    {
        self.set_size(size);
        self.set_needs_redraw(true);
    }

    /// What the window shows when it starts at row `origin_row` of the
    /// screen: one command for each of its rows, see [`ViewState::frame`].
    fn draw(&mut self, origin_row: RowIdx) -> (r: Vec<DrawCommand>)
        ensures
            final(self).state() == old(self).state(),
            drawings(r@) == old(self).state().frame(origin_row as int),
    {
        let room: usize = usize::MAX - origin_row;
        let rows: usize = if self.size.height < room {
            self.size.height
        } else {
            room
        };
        let query = self.get_search_query();
        let mut highlighter = Highlighter::new(query, self.location);
        let ghost state = self.state();
        let ghost origin = origin_row as int;
        let mut frame: Vec<DrawCommand> = Vec::new();
        let mut i: usize = 0;
        while i < rows
            invariant
                self.wf(),
                state == self.state(),
                origin == origin_row as int,
                rows == state.rows_on_screen(origin),
                i <= rows,
                highlighter.query() == state.query_bytes(),
                highlighter.selected_location() == state.location,
                frame@.len() == i,
                forall|k: int| 0 <= k < i ==> (#[trigger] frame@[k])@ == state.row_drawing(origin, k),
            decreases rows - i,
        {
            let line_idx = self.scroll_offset.saturating_add(i);
            let total = self.buffer.height();
            self.buffer.highlight(line_idx, &mut highlighter, self.hilight_selected_line);
            let command = match self.buffer.get_highlighted_string(line_idx, &highlighter) {
                Some(text) => {
                    proof {
                        let bytes = state.lines[line_idx as int].line_bytes();
                        let marks = line_spans(
                            bytes,
                            state.query_bytes(),
                            state.highlight_selected && line_idx == state.location,
                        );
                        crate::highlighter::lemma_line_spans_within(
                            bytes,
                            state.query_bytes(),
                            state.highlight_selected && line_idx == state.location,
                        );
                        crate::sequence::lemma_filter_keeps_all(marks, fitting(bytes.len() as int));
                        assert(text@ == (AnnotatedText { text: bytes, annotations: marks }));
                    }
                    DrawCommand::PrintAnnotatedRow { row: origin_row + i, text }
                },
                None => DrawCommand::PrintRow { row: origin_row + i, text: "~".to_owned() },
            };
            proof {
                assert(command@ == state.row_drawing(origin, i as int));
            }
            frame.push(command);
            i += 1;
        }
        proof {
            assert(drawings(frame@) =~= state.frame(origin));
        }
        frame
    }

    /// Draws the window if it is to be drawn anew, and then marks it as
    /// drawn. Otherwise nothing is drawn.
    fn render(&mut self, origin_row: RowIdx) -> (r: Vec<DrawCommand>)
        ensures
            final(self).wf(),
            final(self).state() == old(self).state().after_render(),
            drawings(r@) == old(self).state().rendering(origin_row as int),
    {
        if self.needs_redraw {
            let frame = self.draw(origin_row);
            self.needs_redraw = false;
            frame
        } else {
            let frame: Vec<DrawCommand> = Vec::new();
            proof {
                assert(drawings(frame@) =~= Seq::<Drawing>::empty());
            }
            frame
        }
    }
}

} // verus!
