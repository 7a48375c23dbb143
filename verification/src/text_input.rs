use vstd::prelude::*;
use vstd::string::StrSliceExecFns;

use crate::base_types::{Component, Event, EventDetail, EventQueue, FormAction, InputToken};
use crate::surface::{
    build_framed_row, build_framed_text, build_labeled_row, cmd_is, framed_row, DrawCommand,
    Surface, COLOR_BLUE, COLOR_RED, COLOR_WHITE,
};
use crate::utils::{push_char, TextBinder, TextStore};

verus! {

/// The text after one backspace: the last character removed, and empty text
/// left as it is.
pub open spec fn pop_char_spec(text: Seq<char>) -> Seq<char> {
    if text.len() > 0 {
        text.drop_last()
    } else {
        text
    }
}

/// The characters shown in the box: short text padded with spaces to the
/// box's width; long text truncated to its tail while the box holds focus
/// (the newest input stays visible) and to its head otherwise.
pub open spec fn visible_text(text: Seq<char>, width: int, focused: bool) -> Seq<char> {
    if text.len() <= width {
        text + Seq::new((width - text.len()) as nat, |i: int| ' ')
    } else if focused {
        text.skip(text.len() - width)
    } else {
        text.take(width)
    }
}

/// The box's top border: a plain frame when no label is set, else the label
/// set into the frame, padded out to the box's width when it is shorter (and
/// left whole when it is longer).
pub open spec fn input_top_row(label: Seq<char>, width: int) -> Seq<char> {
    if label.len() == 0 {
        framed_row('\u{250c}', '\u{2500}', width as nat, '\u{2510}')
    } else {
        seq!['\u{2552}'] + label + Seq::new(
            if width > label.len() {
                (width - label.len()) as nat
            } else {
                0
            },
            |i: int| '\u{2550}',
        ) + seq!['\u{2555}']
    }
}

/// The box's text row: the visible text between the two side borders.
pub open spec fn input_text_row(text: Seq<char>, width: int, focused: bool) -> Seq<char> {
    seq!['\u{2502}'] + visible_text(text, width, focused) + seq!['\u{2502}']
}

/// A text input box within the UI: a framed, optionally labeled box whose
/// content lives in a shared text cell, edited by typed characters and
/// backspace while the box holds focus.
pub struct TextInput {
    pub has_focus: bool,
    pub label: String,
    pub text_binder: TextBinder,
    pub x_pos: i32,
    pub y_pos: i32,
    pub box_width: u32,
    pub neutral_fg_color: i16,
    pub focus_fg_color: i16,
    pub neutral_bg_color: i16,
    pub focus_bg_color: i16,
}

impl TextInput {
    /// The box's current text: the bound cell's value, empty when the handle
    /// addresses no cell of the store at hand.
    pub open spec fn current_text(self, cells: Seq<Seq<char>>) -> Seq<char> {
        if self.text_binder.valid(cells) {
            cells[self.text_binder.id()]
        } else {
            Seq::<char>::empty()
        }
    }

    /// The cells after the box's text is replaced by `text`: a handle that
    /// addresses no cell writes nothing.
    pub open spec fn with_text(self, cells: Seq<Seq<char>>, text: Seq<char>) -> Seq<Seq<char>> {
        if self.text_binder.valid(cells) {
            cells.update(self.text_binder.id(), text)
        } else {
            cells
        }
    }

    /// The exact reaction of a text input to a dispatched event: the event,
    /// the queue and the text cells afterwards. An event someone already
    /// handled is left alone, as is every event while the box does not hold
    /// focus. A focused box marks backspace (the dedicated key or the delete
    /// character) handled and removes the last character; marks tab handled
    /// and queues one AdvanceFocus event; and marks any other typed
    /// character handled and appends it. A mouse click changes nothing:
    /// clicking does not move focus.
    pub open spec fn reaction(
        self,
        ev: Event,
        queue: Seq<Event>,
        cells: Seq<Seq<char>>,
    ) -> (Event, Seq<Event>, Seq<Seq<char>>) {
        if ev.handled {
            (ev, queue, cells)
        } else {
            match ev.detail {
                EventDetail::InputEvent(token) => match token {
                    InputToken::Backspace => if self.has_focus {
                        (
                            Event { detail: ev.detail, handled: true },
                            queue,
                            self.with_text(cells, pop_char_spec(self.current_text(cells))),
                        )
                    } else {
                        (ev, queue, cells)
                    },
                    InputToken::Character(ch) => if !self.has_focus {
                        (ev, queue, cells)
                    } else if ch == '\t' {
                        (
                            Event { detail: ev.detail, handled: true },
                            queue.push(
                                Event {
                                    detail: EventDetail::ActionEvent(FormAction::AdvanceFocus),
                                    handled: false,
                                },
                            ),
                            cells,
                        )
                    } else if ch == '\u{7f}' {
                        (
                            Event { detail: ev.detail, handled: true },
                            queue,
                            self.with_text(cells, pop_char_spec(self.current_text(cells))),
                        )
                    } else {
                        (
                            Event { detail: ev.detail, handled: true },
                            queue,
                            self.with_text(cells, self.current_text(cells).push(ch)),
                        )
                    },
                    _ => (ev, queue, cells),
                },
                _ => (ev, queue, cells),
            }
        }
    }

    /// The on-screen width of the box.
    pub fn get_width(&self) -> (w: u32)
        ensures
            w == self.box_width,
    {
        self.box_width
    }

    /// A text input is always three rows tall.
    pub fn get_height(&self) -> (h: u32)
        ensures
            h == 3,
    {
        3
    }

    /// A snapshot of the box's current text.
    pub fn get_text(&self, store: &TextStore) -> (r: String)
        ensures
            r@ == self.current_text(store@),
    {
        self.text_binder.get(store)
    }

    /// Removes the last character of the box's text, through the shared
    /// cell.
    fn erase_last_char(&self, store: &mut TextStore)
        ensures
            final(store)@ == self.with_text(
                old(store)@,
                pop_char_spec(self.current_text(old(store)@)),
            ),
    {
        let text = self.text_binder.get(store);
        let n = text.as_str().unicode_len();
        if n > 0 {
            let shorter = text.as_str().substring_char(0, n - 1);
            proof {
                assert(shorter@ =~= pop_char_spec(text@));
            }
            self.text_binder.set(store, shorter);
        } else {
            self.text_binder.set(store, text.as_str());
        }
    }
}

impl Component for TextInput {
    /// The box itself never changes under dispatch; the event, the queue and
    /// the cells change exactly as [`TextInput::reaction`] says.
    open spec fn on_event_spec(
        pre: Self,
        post: Self,
        pre_event: Event,
        post_event: Event,
        pre_queue: Seq<Event>,
        post_queue: Seq<Event>,
        pre_cells: Seq<Seq<char>>,
        post_cells: Seq<Seq<char>>,
    ) -> bool {
        let done = pre.reaction(pre_event, pre_queue, pre_cells);
        &&& post == pre
        &&& post_event == done.0
        &&& post_queue == done.1
        &&& post_cells == done.2
    }

    /// A text input always accepts focus, and records that it holds it.
    open spec fn gained_focus_spec(pre: Self, post: Self, accepted: bool) -> bool {
        &&& post == TextInput { has_focus: true, ..pre }
        &&& accepted
    }

    /// Losing focus only clears the record of holding it.
    open spec fn lost_focus_spec(pre: Self, post: Self) -> bool {
        post == TextInput { has_focus: false, ..pre }
    }

    /// Drawing appends exactly three runs at the box's position — the top
    /// border carrying the label, the visible slice of the text between the
    /// side borders, and the bottom border — in the focus colors while the
    /// box holds focus and in the neutral colors otherwise.
    open spec fn draw_spec(
        c: Self,
        cells: Seq<Seq<char>>,
        pre_commands: Seq<DrawCommand>,
        post_commands: Seq<DrawCommand>,
    ) -> bool {
        let fg = if c.has_focus {
            c.focus_fg_color
        } else {
            c.neutral_fg_color
        };
        let bg = if c.has_focus {
            c.focus_bg_color
        } else {
            c.neutral_bg_color
        };
        let x = c.x_pos as int;
        let y = c.y_pos as int;
        let w = c.box_width as int;
        &&& post_commands.len() == pre_commands.len() + 3
        &&& post_commands.take(pre_commands.len() as int) == pre_commands
        &&& cmd_is(
            post_commands[pre_commands.len() as int],
            x,
            y,
            fg,
            bg,
            input_top_row(c.label@, w),
        )
        &&& cmd_is(
            post_commands[pre_commands.len() as int + 1],
            x,
            y + 1,
            fg,
            bg,
            input_text_row(c.current_text(cells), w, c.has_focus),
        )
        &&& cmd_is(
            post_commands[pre_commands.len() as int + 2],
            x,
            y + 2,
            fg,
            bg,
            framed_row('\u{2514}', '\u{2500}', c.box_width as nat, '\u{2518}'),
        )
    }

    fn on_event(&mut self, event: &mut Event, event_queue: &mut EventQueue, store: &mut TextStore) {
        if event.handled {
            return ;
        }
        match event.detail {
            EventDetail::InputEvent(token) => {
                match token {
                    InputToken::Backspace => {
                        if !self.has_focus {
                            return ;
                        }
                        self.erase_last_char(store);
                        event.handled = true;
                    },
                    InputToken::Character(ch) => {
                        if ch == '\t' {
                            if !self.has_focus {
                                return ;
                            }
                            event.handled = true;
                            event_queue.dispatch_event(
                                EventDetail::ActionEvent(FormAction::AdvanceFocus),
                            );
                        } else {
                            if !self.has_focus {
                                return ;
                            }
                            event.handled = true;
                            // Backspace comes in as a character in some shells.
                            if ch == '\u{7f}' {
                                self.erase_last_char(store);
                            } else {
                                let mut text = self.text_binder.get(store);
                                push_char(&mut text, ch);
                                self.text_binder.set(store, text.as_str());
                            }
                        }
                    },
                    _ => {},
                }
            },
            _ => {},
        }
    }

    fn on_gained_focus(&mut self) -> (accepted: bool) {
        self.has_focus = true;
        true
    }

    fn on_lost_focus(&mut self) {
        self.has_focus = false;
    }

    fn draw(&self, surface: &mut Surface, store: &TextStore) {
        let fg_color = if self.has_focus {
            self.focus_fg_color
        } else {
            self.neutral_fg_color
        };
        let bg_color = if self.has_focus {
            self.focus_bg_color
        } else {
            self.neutral_bg_color
        };

        let x = self.x_pos as i64;
        let y = self.y_pos as i64;
        let width = self.box_width as usize;

        let label_len = self.label.as_str().unicode_len();
        let top = if label_len == 0 {
            build_framed_row('\u{250c}', '\u{2500}', width, '\u{2510}')
        } else {
            let padding = if width > label_len {
                width - label_len
            } else {
                0
            };
            build_labeled_row('\u{2552}', self.label.as_str(), '\u{2550}', padding, '\u{2555}')
        };
        surface.put(x, y, fg_color, bg_color, top);

        let text = self.text_binder.get(store);
        let text_len = text.as_str().unicode_len();
        let middle = if text_len <= width {
            build_labeled_row('\u{2502}', text.as_str(), ' ', width - text_len, '\u{2502}')
        } else if self.has_focus {
            build_framed_text(
                '\u{2502}',
                text.as_str().substring_char(text_len - width, text_len),
                '\u{2502}',
            )
        } else {
            build_framed_text('\u{2502}', text.as_str().substring_char(0, width), '\u{2502}')
        };
        proof {
            assert(middle@ =~= input_text_row(
                self.current_text(store@),
                self.box_width as int,
                self.has_focus,
            ));
        }
        surface.put(x, y + 1, fg_color, bg_color, middle);

        let bottom = build_framed_row('\u{2514}', '\u{2500}', width, '\u{2518}');
        surface.put(x, y + 2, fg_color, bg_color, bottom);
        proof {
            assert(final(surface)@.take(old(surface)@.len() as int) =~= old(surface)@);
        }
    }
}

/// Builder for a text input component.
pub struct TextInputBuilder {
    pub label: String,
    pub text_binder: TextBinder,
    pub x_pos: i32,
    pub y_pos: i32,
    pub box_width: u32,
    pub neutral_fg_color: i16,
    pub focus_fg_color: i16,
    pub neutral_bg_color: i16,
    pub focus_bg_color: i16,
}

impl TextInputBuilder {
    /// Create a new TextInputBuilder with default data: no label, a fresh
    /// empty text cell of its own, the origin, zero width, and white on blue
    /// that turns white on red under focus.
    pub fn new(store: &mut TextStore) -> (r: TextInputBuilder)
        ensures
            final(store)@ == old(store)@.push(Seq::<char>::empty()),
            r.label@ == Seq::<char>::empty(),
            r.text_binder.id() == old(store)@.len(),
            r.text_binder.valid(final(store)@),
            r.x_pos == 0,
            r.y_pos == 0,
            r.box_width == 0,
            r.neutral_fg_color == COLOR_WHITE,
            r.focus_fg_color == COLOR_WHITE,
            r.neutral_bg_color == COLOR_BLUE,
            r.focus_bg_color == COLOR_RED,
    {
        let binder = TextBinder::new(store, "");
        proof {
            reveal_strlit("");
            assert(""@ =~= Seq::<char>::empty());
        }
        TextInputBuilder {
            label: String::new(),
            text_binder: binder,
            x_pos: 0,
            y_pos: 0,
            box_width: 0,
            neutral_fg_color: COLOR_WHITE,
            focus_fg_color: COLOR_WHITE,
            neutral_bg_color: COLOR_BLUE,
            focus_bg_color: COLOR_RED,
        }
    }

    /// Set the label for the box.
    pub fn set_label(self, label: &str) -> (r: TextInputBuilder)
        ensures
            r.label@ == label@,
            r == (TextInputBuilder { label: r.label, ..self }),
    {
        TextInputBuilder { label: label.to_owned(), ..self }
    }

    /// Let the box's text be shared via a TextBinder of the caller's.
    pub fn set_text_binder(self, binder: TextBinder) -> (r: TextInputBuilder)
        ensures
            r == (TextInputBuilder { text_binder: binder, ..self }),
    {
        TextInputBuilder { text_binder: binder, ..self }
    }

    /// Set the TextInput's placement within the UI.
    pub fn set_position(self, x_pos: i32, y_pos: i32) -> (r: TextInputBuilder)
        ensures
            r == (TextInputBuilder { x_pos, y_pos, ..self }),
    {
        TextInputBuilder { x_pos, y_pos, ..self }
    }

    /// Set the width of the box's interior.
    pub fn set_box_width(self, box_width: u32) -> (r: TextInputBuilder)
        ensures
            r == (TextInputBuilder { box_width, ..self }),
    {
        TextInputBuilder { box_width, ..self }
    }

    /// Set the color of the text and border when not in focus.
    pub fn set_neutral_fg_color(self, neutral_fg_color: i16) -> (r: TextInputBuilder)
        ensures
            r == (TextInputBuilder { neutral_fg_color, ..self }),
    {
        TextInputBuilder { neutral_fg_color, ..self }
    }

    /// Set the color of the text and border when focused.
    pub fn set_focus_fg_color(self, focus_fg_color: i16) -> (r: TextInputBuilder)
        ensures
            r == (TextInputBuilder { focus_fg_color, ..self }),
    {
        TextInputBuilder { focus_fg_color, ..self }
    }

    /// Set the background color when not in focus.
    pub fn set_neutral_bg_color(self, neutral_bg_color: i16) -> (r: TextInputBuilder)
        ensures
            r == (TextInputBuilder { neutral_bg_color, ..self }),
    {
        TextInputBuilder { neutral_bg_color, ..self }
    }

    /// Set the background color when focused.
    pub fn set_focus_bg_color(self, focus_bg_color: i16) -> (r: TextInputBuilder)
        ensures
            r == (TextInputBuilder { focus_bg_color, ..self }),
    {
        TextInputBuilder { focus_bg_color, ..self }
    }

    /// Builds the TextInput component with the set options, not yet focused.
    pub fn build(self) -> (t: TextInput)
        ensures
            !t.has_focus,
            t.label == self.label,
            t.text_binder == self.text_binder,
            t.x_pos == self.x_pos,
            t.y_pos == self.y_pos,
            t.box_width == self.box_width,
            t.neutral_fg_color == self.neutral_fg_color,
            t.focus_fg_color == self.focus_fg_color,
            t.neutral_bg_color == self.neutral_bg_color,
            t.focus_bg_color == self.focus_bg_color,
    {
        TextInput {
            has_focus: false,
            label: self.label,
            text_binder: self.text_binder,
            x_pos: self.x_pos,
            y_pos: self.y_pos,
            box_width: self.box_width,
            neutral_fg_color: self.neutral_fg_color,
            focus_fg_color: self.focus_fg_color,
            neutral_bg_color: self.neutral_bg_color,
            focus_bg_color: self.focus_bg_color,
        }
    }
}

} // verus!
