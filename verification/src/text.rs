use vstd::prelude::*;

use crate::base_types::{Component, Event, EventQueue};
use crate::surface::{cmd_is, DrawCommand, Surface, COLOR_BLACK, COLOR_WHITE};
use crate::utils::{TextBinder, TextStore};

verus! {

/// A block of text in the UI.
/// When building, use TextBuilder::set_text to set immutable text.
/// For dynamic text, set a TextBinder via TextBuilder::set_text_binder,
/// which allows the text to be mutated later on through the shared cell.
pub struct Text {
    pub text: String,
    pub text_binder: Option<TextBinder>,
    pub x_pos: i32,
    pub y_pos: i32,
    pub fg_color: i16,
    pub bg_color: i16,
}

impl Text {
    /// The text actually shown: the bound cell's current value when a binder
    /// is set, the fixed text otherwise.
    pub open spec fn actual_text_spec(self, cells: Seq<Seq<char>>) -> Seq<char> {
        match self.text_binder {
            Some(binder) => if binder.valid(cells) {
                cells[binder.id()]
            } else {
                Seq::<char>::empty()
            },
            None => self.text@,
        }
    }

    pub fn get_actual_text(&self, store: &TextStore) -> (r: String)
        ensures
            r@ == self.actual_text_spec(store@),
    {
        match &self.text_binder {
            Some(binder) => binder.get(store),
            None => self.text.clone(),
        }
    }
}

impl Component for Text {
    /// Text does not react to events: everything is left as it was.
    open spec fn on_event_spec(
        pre: Self,
        post: Self,
        pre_event: Event,
        post_event: Event,
        pre_queue: Seq<Event>,
        post_queue: Seq<Event>,
        pre_cells: Seq<Seq<char>>,
        post_cells: Seq<Seq<char>>,
    ) -> bool {
        &&& post == pre
        &&& post_event == pre_event
        &&& post_queue == pre_queue
        &&& post_cells == pre_cells
    }

    /// Text always declines focus.
    open spec fn gained_focus_spec(pre: Self, post: Self, accepted: bool) -> bool {
        &&& post == pre
        &&& !accepted
    }

    open spec fn lost_focus_spec(pre: Self, post: Self) -> bool {
        post == pre
    }

    /// Drawing appends exactly one run: the shown text at the block's
    /// position, in its colors.
    open spec fn draw_spec(
        c: Self,
        cells: Seq<Seq<char>>,
        pre_commands: Seq<DrawCommand>,
        post_commands: Seq<DrawCommand>,
    ) -> bool {
        &&& post_commands.len() == pre_commands.len() + 1
        &&& post_commands.take(pre_commands.len() as int) == pre_commands
        &&& cmd_is(
            post_commands.last(),
            c.x_pos as int,
            c.y_pos as int,
            c.fg_color,
            c.bg_color,
            c.actual_text_spec(cells),
        )
    }

    fn on_event(&mut self, event: &mut Event, event_queue: &mut EventQueue, store: &mut TextStore) {
    }

    fn on_gained_focus(&mut self) -> (accepted: bool) {
        false
    }

    fn on_lost_focus(&mut self) {
    }

    fn draw(&self, surface: &mut Surface, store: &TextStore) {
        let text = self.get_actual_text(store);
        surface.put(self.x_pos as i64, self.y_pos as i64, self.fg_color, self.bg_color, text);
        proof {
            assert(final(surface)@.take(old(surface)@.len() as int) =~= old(surface)@);
        }
    }
}

/// Builder for a Text component.
pub struct TextBuilder {
    pub text: String,
    pub text_binder: Option<TextBinder>,
    pub x_pos: i32,
    pub y_pos: i32,
    pub fg_color: i16,
    pub bg_color: i16,
}

impl TextBuilder {
    /// Creates a new TextBuilder with default options: empty text, no binder,
    /// the origin, and white on black.
    pub fn new() -> (r: TextBuilder)
        ensures
            r.text@ == Seq::<char>::empty(),
            r.text_binder is None,
            r.x_pos == 0,
            r.y_pos == 0,
            r.fg_color == COLOR_WHITE,
            r.bg_color == COLOR_BLACK,
    {
        TextBuilder {
            text: String::new(),
            text_binder: None,
            x_pos: 0,
            y_pos: 0,
            fg_color: COLOR_WHITE,
            bg_color: COLOR_BLACK,
        }
    }

    /// Set the displayed text.
    pub fn set_text(self, text: &str) -> (r: TextBuilder)
        ensures
            r.text@ == text@,
            r.text_binder == self.text_binder,
            r.x_pos == self.x_pos,
            r.y_pos == self.y_pos,
            r.fg_color == self.fg_color,
            r.bg_color == self.bg_color,
    {
        TextBuilder { text: text.to_owned(), ..self }
    }

    /// Allow text to be set via a TextBinder.
    /// Note: a set binder overrides anything set by set_text.
    pub fn set_text_binder(self, binder: TextBinder) -> (r: TextBuilder)
        ensures
            r.text == self.text,
            r.text_binder == Some(binder),
            r.x_pos == self.x_pos,
            r.y_pos == self.y_pos,
            r.fg_color == self.fg_color,
            r.bg_color == self.bg_color,
    {
        TextBuilder { text_binder: Some(binder), ..self }
    }

    /// Set placement on the screen.
    pub fn set_position(self, x_pos: i32, y_pos: i32) -> (r: TextBuilder)
        ensures
            r.text == self.text,
            r.text_binder == self.text_binder,
            r.x_pos == x_pos,
            r.y_pos == y_pos,
            r.fg_color == self.fg_color,
            r.bg_color == self.bg_color,
    {
        TextBuilder { x_pos, y_pos, ..self }
    }

    /// Set the color of the text itself.
    pub fn set_fg_color(self, fg_color: i16) -> (r: TextBuilder)
        ensures
            r.text == self.text,
            r.text_binder == self.text_binder,
            r.x_pos == self.x_pos,
            r.y_pos == self.y_pos,
            r.fg_color == fg_color,
            r.bg_color == self.bg_color,
    {
        TextBuilder { fg_color, ..self }
    }

    /// Set the background color.
    pub fn set_bg_color(self, bg_color: i16) -> (r: TextBuilder)
        ensures
            r.text == self.text,
            r.text_binder == self.text_binder,
            r.x_pos == self.x_pos,
            r.y_pos == self.y_pos,
            r.fg_color == self.fg_color,
            r.bg_color == bg_color,
    {
        TextBuilder { bg_color, ..self }
    }

    /// Builds the Text component with the assigned options.
    pub fn build(self) -> (t: Text)
        ensures
            t.text == self.text,
            t.text_binder == self.text_binder,
            t.x_pos == self.x_pos,
            t.y_pos == self.y_pos,
            t.fg_color == self.fg_color,
            t.bg_color == self.bg_color,
    {
        Text {
            text: self.text,
            text_binder: self.text_binder,
            x_pos: self.x_pos,
            y_pos: self.y_pos,
            fg_color: self.fg_color,
            bg_color: self.bg_color,
        }
    }
}

} // verus!
