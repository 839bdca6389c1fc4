//! The mode of the program and the status that the status bar shows.

use vstd::prelude::*;
use crate::geometry::least;
use crate::strings::{decimal, push_decimal};

verus! {

/// The way in which the next command is read.
#[derive(Clone, Copy, Debug, PartialEq, Eq, Structural)]
pub enum Mode {
    Filter,
    Search,
    Normal,
}

impl Default for Mode {
    fn default() -> (r: Self)
        ensures
            r == Mode::Normal,
    {
        Mode::Normal
    }
}

impl Mode {
    /// Tells whether `mode` is the search mode.
    pub fn is_search(mode: Self) -> (r: bool)
        ensures
            r == (mode == Mode::Search),
    {
        mode == Mode::Search
    }

    /// Tells whether `mode` is the filter mode.
    pub fn is_filter(mode: Self) -> (r: bool)
        ensures
            r == (mode == Mode::Filter),
    {
        mode == Mode::Filter
    }

    /// The name of the mode as the status bar shows it.
    pub open spec fn label(self) -> Seq<char> {
        match self {
            Mode::Filter => "FILTER"@,
            Mode::Search => "SEARCH"@,
            Mode::Normal => "NORMAL"@,
        }
    }

    /// The name of the mode as the status bar shows it.
    pub fn as_str(self) -> (r: &'static str)
        ensures
            r@ == self.label(),
    {
        match self {
            Mode::Filter => "FILTER",
            Mode::Search => "SEARCH",
            Mode::Normal => "NORMAL",
        }
    }
}

/// What the status bar shows: the mode, the number of lines, and the index of
/// the selected line.
#[derive(Clone, Copy, Debug, PartialEq, Eq, Structural)]
pub struct TuiStatus {
    pub mode: Mode,
    pub total_lines: usize,
    pub current_line_idx: usize,
}

impl Default for TuiStatus {
    fn default() -> (r: Self)
        ensures
            r == (TuiStatus { mode: Mode::Normal, total_lines: 0, current_line_idx: 0 }),
    {
        TuiStatus { mode: Mode::Normal, total_lines: 0, current_line_idx: 0 }
    }
}

impl TuiStatus {
    /// The position indicator: the number of the selected line, counted
    /// from one, a slash, and the number of lines.
    pub open spec fn position_indicator(self) -> Seq<char> {
        decimal(least(self.current_line_idx + 1, usize::MAX as int) as nat) + seq!['/'] + decimal(
            self.total_lines as nat,
        )
    }

    /// The position indicator as text.
    pub fn position_indicator_to_string(&self) -> (r: String)
        ensures
            r@ == self.position_indicator(),
    {
        let mut text = String::new();
        push_decimal(&mut text, self.current_line_idx.saturating_add(1));
        text.push('/');
        push_decimal(&mut text, self.total_lines);
        proof {
            assert(text@ =~= self.position_indicator());
        }
        text
    }
}

} // verus!
