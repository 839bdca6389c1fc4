//! The bar that shows a message for a while, and the key hints otherwise.

use std::time::{Duration, Instant};
use vstd::prelude::*;
use vstd::utf8::encode_utf8;
use crate::geometry::{sat_sub, RowIdx, Size};
use crate::render::{drawings, DrawCommand, Drawing};
use crate::strings::{push_right_aligned, right_aligned};
use crate::uicomponent::UIComponent;

verus! {

/// A point in time as `std` measures it. Nothing is known of its value.
#[verifier::external_type_specification]
#[verifier::external_body]
pub struct ExInstant(Instant);

/// `Instant::now` returns the present time. Nothing is claimed of it.
pub assume_specification[ Instant::now ]() -> Instant
;

/// `Instant::elapsed` returns the time that has passed since the instant.
/// Nothing is claimed of it.
pub assume_specification[ Instant::elapsed ](since: &Instant) -> Duration
;

/// `Duration::as_nanos` returns the duration in nanoseconds. Nothing is
/// claimed of it.
pub assume_specification[ Duration::as_nanos ](duration: &Duration) -> u128
;

/// The time for which a message is shown, in nanoseconds.
pub const MESSAGE_NANOS: u128 = 3_000_000_000;

/// A message and the time at which it was set.
pub struct Message {
    text: String,
    time: Instant,
}

impl Message {
    /// The message `text`, set now.
    fn new(text: String) -> (r: Self)
        ensures
            r.text@ == text@,
    {
        Self { text, time: Instant::now() }
    }

    /// Tells whether more time has passed since the message was set than a
    /// message is shown for.
    pub fn is_expired(&self) -> bool {
        expired_after(self.time.elapsed().as_nanos())
    }
}

/// Tells whether a message that was set `nanos` nanoseconds ago has been
/// shown for longer than a message is shown for.
pub fn expired_after(nanos: u128) -> (r: bool)
    ensures
        r == (nanos > MESSAGE_NANOS),
{
    nanos > MESSAGE_NANOS
}

/// The mathematical model of a [`MessageBar`].
pub struct MessageBarState {
    /// The text of the message.
    pub text: Seq<char>,
    /// The bar was asked to be drawn anew.
    pub needs_redraw: bool,
    /// The bar needs no drawing on account of a message that has expired.
    pub cleared_after_expiry: bool,
    /// The size of the bar.
    pub size: Size,
}

/// The key hints at `width` columns: the left hint, and the right hint at
/// the right end of what is left of the width.
pub open spec fn default_message(width: int) -> Seq<char> {
    let left = "alternate loaded/all: f"@;
    left + right_aligned("show keys: o | help: p | exit: ctrl+q"@, sat_sub(width, encode_utf8(left).len() as int))
}

impl MessageBarState {
    /// The state that shows the message `text`.
    pub open spec fn after_update(self, text: Seq<char>) -> MessageBarState {
        MessageBarState { text, needs_redraw: true, cleared_after_expiry: false, ..self }
    }

    /// The state without a message.
    pub open spec fn after_clear(self) -> MessageBarState {
        MessageBarState { text: Seq::empty(), needs_redraw: true, cleared_after_expiry: true, ..self }
    }

    /// The state with a new size, to be drawn anew.
    pub open spec fn after_resize(self, size: Size) -> MessageBarState {
        MessageBarState { size, needs_redraw: true, ..self }
    }

    /// The state that asks for the bar to be drawn anew.
    pub open spec fn after_redraw(self) -> MessageBarState {
        MessageBarState { needs_redraw: true, ..self }
    }

    /// The bar is to be drawn anew when its message has expired or not: it
    /// was asked to, or the message has expired and the bar was not drawn
    /// since.
    pub open spec fn redraw_due(self, expired: bool) -> bool {
        (!self.cleared_after_expiry && expired) || self.needs_redraw
    }

    /// What the bar shows when its message has expired or not: the message,
    /// or the key hints where the message is empty or has expired.
    pub open spec fn line(self, expired: bool) -> Seq<char> {
        if expired || self.text.len() == 0 {
            default_message(self.size.width as int)
        } else {
            self.text
        }
    }

    /// The command that draws the bar on row `row`.
    pub open spec fn frame(self, expired: bool, row: int) -> Seq<Drawing> {
        seq![Drawing::PrintRow { row, text: self.line(expired) }]
    }

    /// The state after the bar was drawn.
    pub open spec fn after_draw(self, expired: bool) -> MessageBarState {
        MessageBarState { cleared_after_expiry: self.cleared_after_expiry || expired, ..self }
    }

    /// The state after the bar was rendered: drawn if that was due, and then
    /// marked as drawn.
    pub open spec fn after_render(self, expired: bool) -> MessageBarState {
        if self.redraw_due(expired) {
            MessageBarState { needs_redraw: false, ..self.after_draw(expired) }
        } else {
            self
        }
    }

    /// The commands of rendering the bar on row `row`.
    pub open spec fn rendering(self, expired: bool, row: int) -> Seq<Drawing> {
        if self.redraw_due(expired) {
            self.frame(expired, row)
        } else {
            Seq::empty()
        }
    }
}

/// The bar that shows a message for a while, and the key hints otherwise.
pub struct MessageBar {
    current_message: Message,
    needs_redraw: bool,
    cleared_after_expiry: bool,
    size: Size,
}

impl MessageBar {
    /// The model of the bar.
    pub closed spec fn state(&self) -> MessageBarState {
        MessageBarState {
            text: self.current_message.text@,
            needs_redraw: self.needs_redraw,
            cleared_after_expiry: self.cleared_after_expiry,
            size: self.size,
        }
    }

    /// A bar of no size without a message.
    pub fn new() -> (r: Self)
        ensures
            r.state() == (MessageBarState {
                text: Seq::empty(),
                needs_redraw: false,
                cleared_after_expiry: false,
                size: Size { height: 0, width: 0 },
            }),
    {
        Self {
            current_message: Message::new(String::new()),
            needs_redraw: false,
            cleared_after_expiry: false,
            size: Size { height: 0, width: 0 },
        }
    }

    /// Shows `new_message` from now on.
    pub fn update_message(&mut self, new_message: &str)
        ensures
            final(self).state() == old(self).state().after_update(new_message@),
    {
        self.current_message = Message::new(new_message.to_owned());
        self.cleared_after_expiry = false;
        self.needs_redraw = true;
    }

    /// Takes the message away.
    pub fn clear_message(&mut self)
        ensures
            final(self).state() == old(self).state().after_clear(),
    {
        self.current_message = Message::new(String::new());
        self.cleared_after_expiry = true;
        self.needs_redraw = true;
    }

    /// Asks for the bar to be drawn anew.
    pub fn redraw(&mut self)
        ensures
            final(self).state() == old(self).state().after_redraw(),
    {
        self.needs_redraw = true;
    }

    /// Tells whether the message has been shown for longer than a message is
    /// shown for.
    pub fn message_expired(&self) -> bool {
        self.current_message.is_expired()
    }

    /// Tells whether the bar is to be drawn anew, given whether its message
    /// has expired.
    pub fn needs_redraw_when(&self, expired: bool) -> (r: bool)
        ensures
            r == self.state().redraw_due(expired),
    {
        (!self.cleared_after_expiry && expired) || self.needs_redraw
    }

    /// What the bar shows on row `origin_row`, given whether its message has
    /// expired.
    pub fn draw_when(&mut self, origin_row: RowIdx, expired: bool) -> (r: Vec<DrawCommand>)
        ensures
            final(self).state() == old(self).state().after_draw(expired),
            drawings(r@) == old(self).state().frame(expired, origin_row as int),
    {
        if expired {
            self.cleared_after_expiry = true;
        }
        let text = if expired || self.current_message.text.as_str().is_empty() {
            let left = "alternate loaded/all: f";
            let remainder_len: usize = self.size.width.saturating_sub(left.as_bytes().len());
            let mut hints = left.to_owned();
            push_right_aligned(&mut hints, "show keys: o | help: p | exit: ctrl+q", remainder_len);
            hints
        } else {
            self.current_message.text.clone()
        };
        let mut frame: Vec<DrawCommand> = Vec::new();
        frame.push(DrawCommand::PrintRow { row: origin_row, text });
        proof {
            assert(drawings(frame@) =~= old(self).state().frame(expired, origin_row as int));
        }
        frame
    }

    /// Draws the bar on row `origin_row` if that is due, and then marks it as
    /// drawn, given whether its message has expired.
    pub fn render_when(&mut self, origin_row: RowIdx, expired: bool) -> (r: Vec<DrawCommand>)
        ensures
            final(self).state() == old(self).state().after_render(expired),
            drawings(r@) == old(self).state().rendering(expired, origin_row as int),
    {
        if self.needs_redraw_when(expired) {
            let frame = self.draw_when(origin_row, expired);
            self.needs_redraw = false;
            frame
        } else {
            let frame: Vec<DrawCommand> = Vec::new();
            proof {
                assert(drawings(frame@) =~= Seq::<Drawing>::empty());
            }
            frame
        }
    }
}

impl UIComponent for MessageBar {
    open spec fn wf(&self) -> bool {
        true
    }

    fn set_needs_redraw(&mut self, value: bool)
        ensures
            final(self).state() == (MessageBarState { needs_redraw: value, ..old(self).state() }),
    {
        self.needs_redraw = value;
    }

    /// The result depends on the time: it is what [`Self::needs_redraw_when`]
    /// gives for a message that has expired or for one that has not.
    fn needs_redraw(&self) -> (r: bool)
        ensures
            exists|expired: bool| r == self.state().redraw_due(expired),
    {
        let expired = self.message_expired();
        let r = self.needs_redraw_when(expired);
        proof {
            assert(r == self.state().redraw_due(expired));
        }
        r
    }

    fn set_size(&mut self, size: Size)
        ensures
            final(self).state() == (MessageBarState { size, ..old(self).state() }),
    {
        self.size = size;
    }

    fn resize(&mut self, size: Size)
        ensures
            final(self).state() == old(self).state().after_resize(size),
    {
        self.set_size(size);
        self.set_needs_redraw(true);
    }

    /// The result depends on the time: it is what [`Self::draw_when`] gives
    /// for a message that has expired or for one that has not.
    fn draw(&mut self, origin_row: RowIdx) -> (r: Vec<DrawCommand>)
        ensures
            exists|expired: bool|
                final(self).state() == old(self).state().after_draw(expired) && drawings(r@) == old(
                    self,
                ).state().frame(expired, origin_row as int),
    {
        let expired = self.message_expired();
        let r = self.draw_when(origin_row, expired);
        proof {
            assert(self.state() == old(self).state().after_draw(expired) && drawings(r@) == old(
                self,
            ).state().frame(expired, origin_row as int));
        }
        r
    }

    /// The result depends on the time: it is what [`Self::render_when`]
    /// gives for a message that has expired or for one that has not.
    fn render(&mut self, origin_row: RowIdx) -> (r: Vec<DrawCommand>)
        ensures
            exists|expired: bool|
                final(self).state() == old(self).state().after_render(expired) && drawings(r@) == old(
                    self,
                ).state().rendering(expired, origin_row as int),
    {
        let expired = self.message_expired();
        let r = self.render_when(origin_row, expired);
        proof {
            assert(self.state() == old(self).state().after_render(expired) && drawings(r@) == old(
                self,
            ).state().rendering(expired, origin_row as int));
        }
        r
    }
}

} // verus!
