//! The session: the mode, the parts of the screen, and how commands change
//! them.

use vstd::prelude::*;
use vstd::view::View as _;
use vstd::utf8::encode_utf8;
use crate::command::{Command, Edit, Event, KeyEventKind, Move, System};
use crate::filterbar::{entry_caret, EntryState, FilterBar};
use crate::geometry::{sat_sub, Position, Size};
use crate::messagebar::{MessageBar, MessageBarState};
use crate::operation::{Operation, OperationType};
use crate::render::{append_commands, drawings, push_command, DrawCommand, Drawing};
use crate::searchbar::SearchBar;
use crate::statusbar::{StatusBar, StatusBarState};
use crate::strings::{parse_decimal, parsed_decimal};
use crate::tuistatus::{Mode, TuiStatus};
use crate::uicomponent::UIComponent;
use crate::view::{View, ViewState};

verus! {

/// The mathematical model of an [`Operation`].
pub struct PendingOperation {
    pub kind: OperationType,
    pub name: Seq<char>,
}

/// The mathematical model of a [`Tui`].
pub struct TuiState {
    /// The program is to end.
    pub should_quit: bool,
    /// The mode in which the next command is read.
    pub mode: Mode,
    /// The size of the screen.
    pub terminal_size: Size,
    /// The viewport.
    pub view: ViewState,
    /// The status bar.
    pub status_bar: StatusBarState,
    /// The bar of the filter.
    pub filter_bar: EntryState,
    /// The bar of the search query.
    pub search_bar: EntryState,
    /// The message bar.
    pub message_bar: MessageBarState,
    /// The action to run when the program has ended.
    pub operation: Option<PendingOperation>,
    /// The digits of the pending multiplier.
    pub multiplier: Option<Seq<char>>,
}

/// The text that the help key shows.
pub open spec fn help_message() -> Seq<char> {
    "Filter mode: i/a/I/A | Search mode: / | Dismiss: ctrl+c/esc | Confirm: enter | Search next: n | Search prev: N"@
}

/// The size of the viewport on a screen of size `size`: all rows but the
/// three of the bars.
pub open spec fn view_size(size: Size) -> Size {
    Size { height: sat_sub(size.height as int, 3) as usize, width: size.width }
}

/// The size of a bar on a screen of size `size`: one row.
pub open spec fn bar_size(size: Size) -> Size {
    Size { height: 1, width: size.width }
}

/// The command enters a decimal digit.
pub open spec fn digit_of(command: Command) -> Option<char> {
    match command {
        Command::Edit(Edit::Insert(ch)) => if '0' <= ch && ch <= '9' {
            Some(ch)
        } else {
            None
        },
        _ => None,
    }
}

impl TuiState {
    /// The pending multiplier as a number, if there is one and it can be
    /// read.
    pub open spec fn multiplier_value(self) -> Option<usize> {
        match self.multiplier {
            Some(digits) => parsed_decimal(digits),
            None => None,
        }
    }

    /// The state after `digit` was added to the multiplier, which the message
    /// bar then shows.
    pub open spec fn with_digit(self, digit: char) -> TuiState {
        let digits = match self.multiplier {
            Some(d) => d.push(digit),
            None => seq![digit],
        };
        TuiState { multiplier: Some(digits), message_bar: self.message_bar.after_update(digits), ..self }
    }

    /// The state after a control action of kind `kind` was asked for: the
    /// program is to end, and to run the action on the selected item if there
    /// is one.
    pub open spec fn with_operation(self, kind: OperationType) -> TuiState {
        TuiState {
            operation: if self.view.lines.len() > 0 {
                Some(PendingOperation { kind, name: self.view.lines[self.view.location].name })
            } else {
                self.operation
            },
            should_quit: true,
            ..self
        }
    }

    /// The status that the status bar is to show.
    pub open spec fn status(self) -> TuiStatus {
        TuiStatus {
            mode: self.mode,
            total_lines: self.view.lines.len() as usize,
            current_line_idx: self.view.location as usize,
        }
    }

    /// The state after the status bar was handed the status.
    pub open spec fn with_status_refreshed(self) -> TuiState {
        TuiState { status_bar: self.status_bar.after_update(self.status()), ..self }
    }

    /// The state after the screen got the size `size`: the viewport gets
    /// all rows but three, each bar one row, and all are to be drawn anew.
    pub open spec fn after_resize(self, size: Size) -> TuiState {
        TuiState {
            terminal_size: size,
            view: self.view.after_resize(view_size(size)),
            status_bar: self.status_bar.after_resize(bar_size(size)),
            filter_bar: self.filter_bar.after_resize(bar_size(size)),
            message_bar: self.message_bar.after_resize(bar_size(size)),
            search_bar: self.search_bar.after_resize(bar_size(size)),
            ..self
        }
    }

    /// The state after a move command in normal mode: the selection moves,
    /// by the multiplier if there is one, and a multiplier takes the message
    /// away.
    pub open spec fn after_motion(self, motion: Move) -> TuiState {
        let multiplier = self.multiplier_value();
        TuiState {
            view: self.view.after_move(motion, multiplier),
            message_bar: if multiplier.is_some() {
                self.message_bar.after_clear()
            } else {
                self.message_bar
            },
            ..self
        }
    }

    /// The state after the character `ch`, which is no digit, was entered in
    /// normal mode.
    pub open spec fn after_key(self, ch: char) -> TuiState {
        if ch == '/' {
            TuiState {
                mode: Mode::Search,
                view: self.view.after_enter_search(),
                search_bar: self.search_bar.after_redraw(),
                ..self
            }
        } else if ch == 'i' || ch == 'I' || ch == 'a' || ch == 'A' {
            TuiState {
                mode: Mode::Filter,
                view: self.view.after_highlight(false).after_scroll_to_start(),
                message_bar: self.message_bar.after_clear(),
                ..self
            }
        } else if ch == 'z' {
            TuiState { message_bar: self.message_bar.after_update(help_message()), ..self }
        } else if ch == 'n' {
            TuiState { view: self.view.after_search_next(), ..self }
        } else if ch == 'N' {
            TuiState { view: self.view.after_search_prev(), ..self }
        } else if ch == 'w' {
            self.with_operation(OperationType::Start)
        } else if ch == 'e' {
            self.with_operation(OperationType::Stop)
        } else if ch == 'r' {
            self.with_operation(OperationType::Reload)
        } else if ch == 't' {
            self.with_operation(OperationType::Restart)
        } else if ch == 'y' {
            self.with_operation(OperationType::Enable)
        } else if ch == 'u' {
            self.with_operation(OperationType::Disable)
        } else if ch == 'j' {
            self.after_motion(Move::Down)
        } else if ch == 'k' {
            self.after_motion(Move::Up)
        } else {
            self
        }
    }

    /// The state after a command in normal mode. A command to quit ends the
    /// program. A digit goes to the multiplier. Every other command is
    /// carried out, after which the multiplier is unset and the message bar
    /// is to be drawn anew.
    pub open spec fn after_normal(self, command: Command) -> TuiState {
        if command == Command::System(System::Quit) {
            TuiState { should_quit: true, ..self }
        } else {
            match digit_of(command) {
                Some(digit) => self.with_digit(digit),
                None => {
                    let acted = match command {
                        Command::Edit(Edit::Insert(ch)) => self.after_key(ch),
                        Command::Move(motion) => self.after_motion(motion),
                        _ => self,
                    };
                    TuiState { message_bar: acted.message_bar.after_redraw(), multiplier: None, ..acted }
                },
            }
        }
    }

    /// The state after a command in filter mode. Dismissing and confirming
    /// lead back to normal mode, where the selected line is shown as
    /// selected. Every other edit command edits the filter, which is then
    /// set. Other commands do nothing.
    pub open spec fn after_filter(self, command: Command) -> TuiState {
        match command {
            Command::System(System::Dismiss) | Command::Edit(Edit::InsertNewLine) => TuiState {
                mode: Mode::Normal,
                view: self.view.after_highlight(true),
                ..self
            },
            Command::Edit(edit) => {
                let bar = self.filter_bar.after_edit(edit);
                TuiState { filter_bar: bar, view: self.view.after_filter(encode_utf8(bar.value)), ..self }
            },
            _ => self,
        }
    }

    /// The state after a command in search mode. Dismissing leads back to
    /// normal mode and to the position at which the search began, with the
    /// query emptied. Confirming leads back to normal mode at the position
    /// reached. Every other edit command edits the query, which is then
    /// searched for. Moving down and up jumps to the next and to the last
    /// line that holds the query. Other commands do nothing.
    pub open spec fn after_search(self, command: Command) -> TuiState {
        match command {
            Command::System(System::Dismiss) => TuiState {
                mode: Mode::Normal,
                view: self.view.after_dismiss(),
                message_bar: self.message_bar.after_redraw(),
                search_bar: self.search_bar.after_clear(),
                ..self
            },
            Command::Edit(Edit::InsertNewLine) => TuiState {
                mode: Mode::Normal,
                view: self.view.after_confirm(),
                message_bar: self.message_bar.after_redraw(),
                ..self
            },
            Command::Edit(edit) => {
                let bar = self.search_bar.after_edit(edit);
                TuiState { search_bar: bar, view: self.view.after_query(bar.value), ..self }
            },
            Command::Move(Move::Down) => TuiState { view: self.view.after_search_next(), ..self },
            Command::Move(Move::Up) => TuiState { view: self.view.after_search_prev(), ..self },
            _ => self,
        }
    }

    /// The state after a command: a new size of the screen is taken in every
    /// mode, and every other command goes to the mode.
    pub open spec fn after_command(self, command: Command) -> TuiState {
        match command {
            Command::System(System::Resize(size)) => self.after_resize(size),
            _ => match self.mode {
                Mode::Normal => self.after_normal(command),
                Mode::Filter => self.after_filter(command),
                Mode::Search => self.after_search(command),
            },
        }
    }

    /// The state after an input event: a key that was pressed and a new size
    /// of the screen are read as commands, and every other event is passed
    /// over.
    pub open spec fn after_event(self, event: Event) -> TuiState {
        let counts = match event {
            Event::Key(key) => key.kind == KeyEventKind::Press,
            Event::Resize(_, _) => true,
            Event::Other => false,
        };
        match Command::of_event(event) {
            Some(command) => if counts {
                self.after_command(command)
            } else {
                self
            },
            None => self,
        }
    }

    /// Nothing is drawn on a screen without rows or without columns.
    pub open spec fn screen_is_empty(self) -> bool {
        self.terminal_size.width == 0 || self.terminal_size.height == 0
    }

    /// The commands that render the parts of the screen, given whether the
    /// message has expired: the filter bar on the first row, the status bar
    /// on the last row but one, the search bar or the message bar on the
    /// last row, and the viewport from the second row on, each as far as the
    /// screen has rows for it.
    pub open spec fn parts_rendering(self, expired: bool) -> Seq<Drawing> {
        self.filter_bar.rendering(FilterBar::prompt(), 0) + self.status_rendering() + self.last_row_rendering(
            expired,
        ) + self.view_rendering()
    }

    /// The commands that render the status bar, if the screen has a row for
    /// it.
    pub open spec fn status_rendering(self) -> Seq<Drawing> {
        if self.terminal_size.height > 1 {
            self.status_bar.rendering(self.terminal_size.height - 2)
        } else {
            Seq::empty()
        }
    }

    /// The commands that render the last row, if the screen has a row for
    /// it: the search bar in search mode, else the message bar.
    pub open spec fn last_row_rendering(self, expired: bool) -> Seq<Drawing> {
        if self.terminal_size.height > 2 {
            if self.mode == Mode::Search {
                self.search_bar.rendering(SearchBar::prompt(), self.terminal_size.height - 1)
            } else {
                self.message_bar.rendering(expired, self.terminal_size.height - 1)
            }
        } else {
            Seq::empty()
        }
    }

    /// The commands that render the viewport, if the screen has rows for it.
    pub open spec fn view_rendering(self) -> Seq<Drawing> {
        if self.terminal_size.height > 3 {
            self.view.rendering(1)
        } else {
            Seq::empty()
        }
    }

    /// The commands that show the caret in the bar in which text is
    /// entered: none in normal mode.
    pub open spec fn caret_drawings(self) -> Seq<Drawing> {
        match self.mode {
            Mode::Filter => seq![
                Drawing::MoveCaretTo(
                    Position {
                        col: entry_caret(
                            FilterBar::prompt(),
                            self.filter_bar.value,
                            self.filter_bar.size.width as int,
                        ) as usize,
                        row: 0,
                    },
                ),
                Drawing::ShowCaret,
            ],
            Mode::Search => seq![
                Drawing::MoveCaretTo(
                    Position {
                        col: entry_caret(
                            SearchBar::prompt(),
                            self.search_bar.value,
                            self.search_bar.size.width as int,
                        ) as usize,
                        row: (self.terminal_size.height - 1) as usize,
                    },
                ),
                Drawing::ShowCaret,
            ],
            Mode::Normal => Seq::empty(),
        }
    }

    /// The commands of one frame, given whether the message has expired:
    /// none on an empty screen; else the caret is hidden, the parts are
    /// rendered, the caret is shown in the bar in which text is entered, and
    /// all is sent to the screen.
    pub open spec fn screen(self, expired: bool) -> Seq<Drawing> {
        if self.screen_is_empty() {
            Seq::empty()
        } else {
            seq![Drawing::HideCaret] + self.parts_rendering(expired) + self.caret_drawings() + seq![Drawing::Flush]
        }
    }

    /// The state after one frame: what was rendered is marked as drawn.
    pub open spec fn after_refresh(self, expired: bool) -> TuiState {
        let height = self.terminal_size.height as int;
        if self.screen_is_empty() {
            self
        } else {
            TuiState {
                filter_bar: self.filter_bar.after_render(),
                status_bar: if height > 1 {
                    self.status_bar.after_render()
                } else {
                    self.status_bar
                },
                search_bar: if height > 2 && self.mode == Mode::Search {
                    self.search_bar.after_render()
                } else {
                    self.search_bar
                },
                message_bar: if height > 2 && self.mode != Mode::Search {
                    self.message_bar.after_render(expired)
                } else {
                    self.message_bar
                },
                view: if height > 3 {
                    self.view.after_render()
                } else {
                    self.view
                },
                ..self
            }
        }
    }
}

/// The commands of a frame that was put together part by part are the
/// commands of the parts in their order.
proof fn lemma_frame_joined(
    none: Seq<Drawing>,
    f: Seq<Drawing>,
    st: Seq<Drawing>,
    l: Seq<Drawing>,
    v: Seq<Drawing>,
    c: Seq<Drawing>,
)
    requires
        none.len() == 0,
    ensures
        (none.push(Drawing::HideCaret) + f + st + l + v + c).push(Drawing::Flush) == seq![Drawing::HideCaret] + (f
            + st + l + v) + c + seq![Drawing::Flush],
{
    assert((none.push(Drawing::HideCaret) + f + st + l + v + c).push(Drawing::Flush) =~= seq![Drawing::HideCaret]
        + (f + st + l + v) + c + seq![Drawing::Flush]);
}

/// The session: the mode, the parts of the screen, the pending multiplier,
/// and the action to run when the program has ended.
pub struct Tui {
    should_quit: bool,
    mode: Mode,
    terminal_size: Size,
    view: View,
    status_bar: StatusBar,
    filter_bar: FilterBar,
    search_bar: SearchBar,
    message_bar: MessageBar,
    operation: Option<Operation>,
    multiplier: Option<String>,
}

impl Tui {
    /// The model of the session.
    pub closed spec fn state(&self) -> TuiState {
        TuiState {
            should_quit: self.should_quit,
            mode: self.mode,
            terminal_size: self.terminal_size,
            view: self.view.state(),
            status_bar: self.status_bar.state(),
            filter_bar: self.filter_bar.state(),
            search_bar: self.search_bar.state(),
            message_bar: self.message_bar.state(),
            operation: match self.operation {
                Some(operation) => Some(PendingOperation { kind: operation.operation_type, name: operation.name@ }),
                None => None,
            },
            multiplier: match self.multiplier {
                Some(digits) => Some(digits@),
                None => None,
            },
        }
    }

    /// The viewport is well-formed.
    pub closed spec fn wf(&self) -> bool {
        self.view.wf()
    }

    /// In a well-formed session the selected line exists, or the collection
    /// is empty and the selected index is zero.
    pub proof fn lemma_location_valid(&self)
        requires
            self.wf(),
        ensures
            self.state().view.location_valid(),
    {
        self.view.lemma_location_valid();
    }

    /// The state of a session before it was given a size and items.
    pub open spec fn initial() -> TuiState {
        TuiState {
            should_quit: false,
            mode: Mode::Normal,
            terminal_size: Size { height: 0, width: 0 },
            view: ViewState {
                all: Seq::empty(),
                lines: Seq::empty(),
                size: Size { height: 0, width: 0 },
                location: 0,
                scroll_offset: 0,
                needs_redraw: false,
                highlight_selected: false,
                search: None,
            },
            status_bar: StatusBarState {
                status: TuiStatus { mode: Mode::Normal, total_lines: 0, current_line_idx: 0 },
                needs_redraw: false,
                size: Size { height: 0, width: 0 },
            },
            filter_bar: EntryState { value: Seq::empty(), needs_redraw: false, size: Size { height: 0, width: 0 } },
            search_bar: EntryState { value: Seq::empty(), needs_redraw: false, size: Size { height: 0, width: 0 } },
            message_bar: MessageBarState {
                text: Seq::empty(),
                needs_redraw: false,
                cleared_after_expiry: false,
                size: Size { height: 0, width: 0 },
            },
            operation: None,
            multiplier: None,
        }
    }

    /// The state of a new session on a screen of size `size` with the items
    /// that the raw lines `lines` become.
    pub open spec fn started(size: Size, lines: Seq<String>) -> TuiState {
        let sized = (TuiState { view: Self::initial().view.after_highlight(true), ..Self::initial() }).after_resize(
            size,
        );
        (TuiState { view: sized.view.after_load(lines), ..sized }).with_status_refreshed()
    }

    /// A session in normal mode on a screen of size `size`, with the items
    /// that the raw lines `lines` become.
    pub fn new(size: Size, lines: &Vec<String>) -> (r: Self)
        ensures
            r.wf(),
            r.state() == Self::started(size, lines@),
    {
        let mut tui = Self {
            should_quit: false,
            mode: Mode::Normal,
            terminal_size: Size { height: 0, width: 0 },
            view: View::new(),
            status_bar: StatusBar::new(),
            filter_bar: FilterBar::new(),
            search_bar: SearchBar::new(),
            message_bar: MessageBar::new(),
            operation: None,
            multiplier: None,
        };
        assert(tui.state() == Self::initial());
        tui.view.set_hilight_selected_line(true);
        tui.handle_resize_command(size);
        tui.view.load(lines);
        tui.refresh_status();
        tui
    }

    /// Tells whether the program is to end.
    pub fn should_quit(&self) -> (r: bool)
        ensures
            r == self.state().should_quit,
    {
        self.should_quit
    }

    /// The mode in which the next command is read.
    pub fn mode(&self) -> (r: Mode)
        ensures
            r == self.state().mode,
    {
        self.mode
    }

    /// The action to run when the program has ended, if there is one.
    pub fn operation(&self) -> (r: Option<&Operation>)
        ensures
            match r {
                Some(operation) => self.state().operation == Some(
                    PendingOperation { kind: operation.operation_type, name: operation.name@ },
                ),
                None => self.state().operation.is_none(),
            },
    {
        self.operation.as_ref()
    }

    /// The viewport.
    pub fn viewport(&self) -> (r: &View)
        ensures
            r.state() == self.state().view,
            self.wf() ==> r.wf(),
    {
        &self.view
    }

    /// Adds `digit` to the pending multiplier.
    fn append_multiplier(&mut self, digit: char)
        requires
            old(self).wf(),
        ensures
            final(self).wf(),
            final(self).state() == (TuiState {
                multiplier: Some(
                    match old(self).state().multiplier {
                        Some(d) => d.push(digit),
                        None => seq![digit],
                    },
                ),
                ..old(self).state()
            }),
    {
        match &mut self.multiplier {
            Some(digits) => {
                digits.push(digit);
            },
            None => {
                let mut digits = String::new();
                digits.push(digit);
                proof {
                    assert(digits@ =~= seq![digit]);
                }
                self.multiplier = Some(digits);
            },
        }
    }

    /// The pending multiplier as a number, if there is one and it can be
    /// read.
    pub fn get_multiplier(&self) -> (r: Option<usize>)
        ensures
            r == self.state().multiplier_value(),
    {
        match &self.multiplier {
            Some(digits) => parse_decimal(digits.as_str()),
            None => None,
        }
    }

    /// Asks for a control action of kind `operation_type` on the selected
    /// item, and for the program to end.
    fn set_operation_result(&mut self, operation_type: OperationType)
        requires
            old(self).wf(),
        ensures
            final(self).wf(),
            final(self).state() == old(self).state().with_operation(operation_type),
    {
        match self.view.get_selected_service_name() {
            Some(name) => {
                self.operation = Some(Operation::new(operation_type, name));
            },
            None => {},
        }
        self.should_quit = true;
    }

    /// Hands the status to the status bar.
    pub fn refresh_status(&mut self)
        requires
            old(self).wf(),
        ensures
            final(self).wf(),
            final(self).state() == old(self).state().with_status_refreshed(),
    {
        let status = self.view.get_status(self.mode);
        assert(status == self.state().status());
        self.status_bar.update_status(status);
    }

    /// Takes in a new size of the screen.
    pub fn handle_resize_command(&mut self, size: Size)
        requires
            old(self).wf(),
        ensures
            final(self).wf(),
            final(self).state() == old(self).state().after_resize(size),
    {
        self.terminal_size = size;
        self.view.resize(Size { height: size.height.saturating_sub(3), width: size.width });
        let bar = Size { height: 1, width: size.width };
        self.status_bar.resize(bar);
        self.filter_bar.resize(bar);
        self.message_bar.resize(bar);
        self.search_bar.resize(bar);
    }

    /// Carries out a move command in normal mode.
    fn move_selection(&mut self, motion: Move)
        requires
            old(self).wf(),
        ensures
            final(self).wf(),
            final(self).state() == old(self).state().after_motion(motion),
    {
        let multiplier = self.get_multiplier();
        self.view.handle_move_command(motion, multiplier);
        if multiplier.is_some() {
            self.message_bar.clear_message();
        }
    }

    /// Carries out the command of a character, which is no digit, in normal
    /// mode.
    fn process_key_during_normal(&mut self, ch: char)
        requires
            old(self).wf(),
        ensures
            final(self).wf(),
            final(self).state() == old(self).state().after_key(ch),
    {
        if ch == '/' {
            self.mode = Mode::Search;
            self.view.enter_search();
            self.search_bar.redraw();
        } else if ch == 'i' || ch == 'I' || ch == 'a' || ch == 'A' {
            self.mode = Mode::Filter;
            self.view.set_hilight_selected_line(false);
            self.view.scroll_to_start();
            self.message_bar.clear_message();
        } else if ch == 'z' {
            self.message_bar.update_message(
                "Filter mode: i/a/I/A | Search mode: / | Dismiss: ctrl+c/esc | Confirm: enter | Search next: n | Search prev: N",
            );
        } else if ch == 'n' {
            self.view.search_next();
        } else if ch == 'N' {
            self.view.search_prev();
        } else if ch == 'w' {
            self.set_operation_result(OperationType::Start);
        } else if ch == 'e' {
            self.set_operation_result(OperationType::Stop);
        } else if ch == 'r' {
            self.set_operation_result(OperationType::Reload);
        } else if ch == 't' {
            self.set_operation_result(OperationType::Restart);
        } else if ch == 'y' {
            self.set_operation_result(OperationType::Enable);
        } else if ch == 'u' {
            self.set_operation_result(OperationType::Disable);
        } else if ch == 'j' {
            self.move_selection(Move::Down);
        } else if ch == 'k' {
            self.move_selection(Move::Up);
        }
    }

    /// Carries out a command in normal mode: see [`TuiState::after_normal`].
    pub fn process_command_during_normal(&mut self, command: Command)
        requires
            old(self).wf(),
        ensures
            final(self).wf(),
            final(self).state() == old(self).state().after_normal(command),
    {
        match command {
            Command::System(System::Quit) => {
                self.should_quit = true;
                return ;
            },
            Command::Edit(Edit::Insert(ch)) => {
                if '0' <= ch && ch <= '9' {
                    self.append_multiplier(ch);
                    match &self.multiplier {
                        Some(digits) => {
                            self.message_bar.update_message(digits.as_str());
                        },
                        None => {},
                    }
                    return ;
                }
                self.process_key_during_normal(ch);
            },
            Command::Move(motion) => {
                self.move_selection(motion);
            },
            _ => {},
        }
        self.message_bar.redraw();
        self.multiplier = None;
    }

    /// Carries out a command in filter mode: see [`TuiState::after_filter`].
    pub fn process_command_during_filter(&mut self, command: Command)
        requires
            old(self).wf(),
        ensures
            final(self).wf(),
            final(self).state() == old(self).state().after_filter(command),
    {
        match command {
            Command::System(System::Dismiss) | Command::Edit(Edit::InsertNewLine) => {
                self.mode = Mode::Normal;
                self.view.set_hilight_selected_line(true);
            },
            Command::Edit(edit) => {
                self.filter_bar.handle_edit_command(edit);
                let value = self.filter_bar.value();
                self.view.filter(value.as_str());
            },
            _ => {},
        }
    }

    /// Carries out a command in search mode: see [`TuiState::after_search`].
    pub fn process_command_during_search(&mut self, command: Command)
        requires
            old(self).wf(),
        ensures
            final(self).wf(),
            final(self).state() == old(self).state().after_search(command),
    {
        match command {
            Command::System(System::Dismiss) => {
                self.mode = Mode::Normal;
                self.view.dismiss_search();
                self.message_bar.redraw();
                self.search_bar.clear_value();
            },
            Command::Edit(Edit::InsertNewLine) => {
                self.mode = Mode::Normal;
                self.view.exit_search();
                self.message_bar.redraw();
            },
            Command::Edit(edit) => {
                self.search_bar.handle_edit_command(edit);
                let value = self.search_bar.value();
                self.view.search(value.as_str());
            },
            Command::Move(Move::Down) => {
                self.view.search_next();
            },
            Command::Move(Move::Up) => {
                self.view.search_prev();
            },
            _ => {},
        }
    }

    /// Carries out a command: see [`TuiState::after_command`].
    pub fn process_command(&mut self, command: Command)
        requires
            old(self).wf(),
        ensures
            final(self).wf(),
            final(self).state() == old(self).state().after_command(command),
    {
        match command {
            Command::System(System::Resize(size)) => {
                self.handle_resize_command(size);
            },
            _ => match self.mode {
                Mode::Normal => self.process_command_during_normal(command),
                Mode::Filter => self.process_command_during_filter(command),
                Mode::Search => self.process_command_during_search(command),
            },
        }
    }

    /// Takes in an input event: see [`TuiState::after_event`].
    pub fn evaluate_event(&mut self, event: Event)
        requires
            old(self).wf(),
        ensures
            final(self).wf(),
            final(self).state() == old(self).state().after_event(event),
    {
        let should_process = match event {
            Event::Key(key) => key.kind == KeyEventKind::Press,
            Event::Resize(_, _) => true,
            Event::Other => false,
        };
        if should_process {
            match Command::try_from(event) {
                Some(command) => {
                    self.process_command(command);
                },
                None => {},
            }
        }
    }

    /// Renders the status bar, if the screen has a row for it.
    fn render_status(&mut self) -> (r: Vec<DrawCommand>)
        requires
            old(self).wf(),
        ensures
            final(self).wf(),
            final(self).state() == (TuiState {
                status_bar: if old(self).state().terminal_size.height > 1 {
                    old(self).state().status_bar.after_render()
                } else {
                    old(self).state().status_bar
                },
                ..old(self).state()
            }),
            drawings(r@) == old(self).state().status_rendering(),
    {
        if self.terminal_size.height > 1 {
            self.status_bar.render(self.terminal_size.height - 2)
        } else {
            let frame: Vec<DrawCommand> = Vec::new();
            proof {
                assert(drawings(frame@) =~= Seq::<Drawing>::empty());
            }
            frame
        }
    }

    /// Renders the last row, if the screen has a row for it.
    fn render_last_row(&mut self, message_expired: bool) -> (r: Vec<DrawCommand>)
        requires
            old(self).wf(),
        ensures
            final(self).wf(),
            final(self).state() == (TuiState {
                search_bar: if old(self).state().terminal_size.height > 2 && old(self).state().mode
                    == Mode::Search {
                    old(self).state().search_bar.after_render()
                } else {
                    old(self).state().search_bar
                },
                message_bar: if old(self).state().terminal_size.height > 2 && old(self).state().mode
                    != Mode::Search {
                    old(self).state().message_bar.after_render(message_expired)
                } else {
                    old(self).state().message_bar
                },
                ..old(self).state()
            }),
            drawings(r@) == old(self).state().last_row_rendering(message_expired),
    {
        if self.terminal_size.height > 2 {
            if Mode::is_search(self.mode) {
                self.search_bar.render(self.terminal_size.height - 1)
            } else {
                self.message_bar.render_when(self.terminal_size.height - 1, message_expired)
            }
        } else {
            let frame: Vec<DrawCommand> = Vec::new();
            proof {
                assert(drawings(frame@) =~= Seq::<Drawing>::empty());
            }
            frame
        }
    }

    /// Renders the viewport, if the screen has rows for it.
    fn render_view(&mut self) -> (r: Vec<DrawCommand>)
        requires
            old(self).wf(),
        ensures
            final(self).wf(),
            final(self).state() == (TuiState {
                view: if old(self).state().terminal_size.height > 3 {
                    old(self).state().view.after_render()
                } else {
                    old(self).state().view
                },
                ..old(self).state()
            }),
            drawings(r@) == old(self).state().view_rendering(),
    {
        if self.terminal_size.height > 3 {
            self.view.render(1)
        } else {
            let frame: Vec<DrawCommand> = Vec::new();
            proof {
                assert(drawings(frame@) =~= Seq::<Drawing>::empty());
            }
            frame
        }
    }

    /// The commands that show the caret in the bar in which text is entered.
    fn caret_commands(&self) -> (r: Vec<DrawCommand>)
        requires
            self.state().terminal_size.height > 0,
        ensures
            drawings(r@) == self.state().caret_drawings(),
    {
        let mut frame: Vec<DrawCommand> = Vec::new();
        match self.mode {
            Mode::Filter => {
                let col = self.filter_bar.caret_position_col();
                push_command(&mut frame, DrawCommand::MoveCaretTo(Position { col, row: 0 }));
                push_command(&mut frame, DrawCommand::ShowCaret);
            },
            Mode::Search => {
                let col = self.search_bar.caret_position_col();
                let row: usize = self.terminal_size.height - 1;
                push_command(&mut frame, DrawCommand::MoveCaretTo(Position { col, row }));
                push_command(&mut frame, DrawCommand::ShowCaret);
            },
            Mode::Normal => {},
        }
        proof {
            assert(drawings(frame@) =~= self.state().caret_drawings());
        }
        frame
    }

    /// The commands of one frame, given whether the message has expired: see
    /// [`TuiState::screen`].
    pub fn refresh_screen_when(&mut self, message_expired: bool) -> (r: Vec<DrawCommand>)
        requires
            old(self).wf(),
        ensures
            final(self).wf(),
            final(self).state() == old(self).state().after_refresh(message_expired),
            drawings(r@) == old(self).state().screen(message_expired),
    {
        let mut frame: Vec<DrawCommand> = Vec::new();
        let ghost before = self.state();
        if self.terminal_size.width == 0 || self.terminal_size.height == 0 {
            proof {
                assert(drawings(frame@) =~= before.screen(message_expired));
            }
            return frame;
        }
        push_command(&mut frame, DrawCommand::HideCaret);
        let filter = self.filter_bar.render(0);
        let ghost f = drawings(filter@);
        append_commands(&mut frame, filter);
        let status = self.render_status();
        let ghost st = drawings(status@);
        append_commands(&mut frame, status);
        let last = self.render_last_row(message_expired);
        let ghost l = drawings(last@);
        append_commands(&mut frame, last);
        let view = self.render_view();
        let ghost v = drawings(view@);
        append_commands(&mut frame, view);
        let caret = self.caret_commands();
        let ghost c = drawings(caret@);
        append_commands(&mut frame, caret);
        push_command(&mut frame, DrawCommand::Flush);
        proof {
            assert(c == before.caret_drawings());
            assert(f + st + l + v == before.parts_rendering(message_expired));
            lemma_frame_joined(drawings(Seq::<DrawCommand>::empty()), f, st, l, v, c);
        }
        frame
    }

    /// The commands of one frame. The message bar depends on the time: the
    /// result is what [`Self::refresh_screen_when`] gives for a message that
    /// has expired or for one that has not.
    pub fn refresh_screen(&mut self) -> (r: Vec<DrawCommand>)
        requires
            old(self).wf(),
        ensures
            final(self).wf(),
            exists|expired: bool|
                final(self).state() == old(self).state().after_refresh(expired) && drawings(r@) == old(
                    self,
                ).state().screen(expired),
    {
        let expired = self.message_bar.message_expired();
        let r = self.refresh_screen_when(expired);
        proof {
            assert(self.state() == old(self).state().after_refresh(expired) && drawings(r@) == old(
                self,
            ).state().screen(expired));
        }
        r
    }
}

} // verus!
