use vstd::prelude::*;
use vstd::string::StrSliceExecFns;

use crate::base_types::{Component, Event, EventDetail, EventQueue, FormAction, InputToken};
use crate::surface::{
    build_framed_row, build_framed_text, cmd_is, framed_row, DrawCommand, Surface, COLOR_BLUE,
    COLOR_RED, COLOR_WHITE,
};
use crate::utils::{in_window, is_in_window, TextBinder, TextStore};

verus! {

/// One thing a button does when it is activated, by the enter key while
/// focused or by a mouse click on it.
pub enum ButtonEffect {
    /// Add this event to the queue.
    Emit(EventDetail),
    /// Write this text to the shared cell behind the handle.
    SetText(TextBinder, String),
}

/// The queue and the text cells after one effect is applied: an emitted event
/// is appended to the queue, not yet handled; a text write replaces the
/// addressed cell (a handle that addresses no cell writes nothing).
pub open spec fn apply_effect(
    effect: ButtonEffect,
    queue: Seq<Event>,
    cells: Seq<Seq<char>>,
) -> (Seq<Event>, Seq<Seq<char>>) {
    match effect {
        ButtonEffect::Emit(detail) => (queue.push(Event { detail, handled: false }), cells),
        ButtonEffect::SetText(binder, text) => (
            queue,
            if binder.valid(cells) {
                cells.update(binder.id(), text@)
            } else {
                cells
            },
        ),
    }
}

/// The queue and the text cells after the effects are applied in order.
pub open spec fn apply_effects(
    effects: Seq<ButtonEffect>,
    queue: Seq<Event>,
    cells: Seq<Seq<char>>,
) -> (Seq<Event>, Seq<Seq<char>>)
    decreases effects.len(),
{
    if effects.len() == 0 {
        (queue, cells)
    } else {
        let stepped = apply_effect(effects[0], queue, cells);
        apply_effects(effects.drop_first(), stepped.0, stepped.1)
    }
}

/// Applying `effects` and then one more effect `e` is applying
/// `effects.push(e)`.
proof fn lemma_apply_effects_snoc(
    effects: Seq<ButtonEffect>,
    e: ButtonEffect,
    queue: Seq<Event>,
    cells: Seq<Seq<char>>,
)
    ensures
        apply_effects(effects.push(e), queue, cells) == ({
            let done = apply_effects(effects, queue, cells);
            apply_effect(e, done.0, done.1)
        }),
    decreases effects.len(),
{
    reveal_with_fuel(apply_effects, 2);
    if effects.len() == 0 {
        assert(effects.push(e).drop_first() =~= Seq::<ButtonEffect>::empty());
        assert(effects.push(e)[0] == e);
        let stepped = apply_effect(e, queue, cells);
        assert(apply_effects(effects.push(e), queue, cells) == apply_effects(
            Seq::<ButtonEffect>::empty(),
            stepped.0,
            stepped.1,
        ));
    } else {
        assert(effects.push(e).drop_first() =~= effects.drop_first().push(e));
        assert(effects.push(e)[0] == effects[0]);
        let stepped = apply_effect(effects[0], queue, cells);
        lemma_apply_effects_snoc(effects.drop_first(), e, stepped.0, stepped.1);
        assert(apply_effects(effects.push(e), queue, cells) == apply_effects(
            effects.drop_first().push(e),
            stepped.0,
            stepped.1,
        ));
        assert(apply_effects(effects, queue, cells) == apply_effects(
            effects.drop_first(),
            stepped.0,
            stepped.1,
        ));
    }
}

/// The width a button takes on screen: its label plus the two border
/// columns, held to the width type's range.
pub open spec fn button_width(label: Seq<char>) -> int {
    if label.len() + 2 <= u32::MAX {
        label.len() + 2 as int
    } else {
        u32::MAX as int
    }
}

/// A Button within the UI: a framed label that runs its effects when
/// activated.
pub struct Button {
    pub name: String,
    pub has_focus: bool,
    pub action: Option<Vec<ButtonEffect>>,
    pub label: String,
    pub x_pos: i32,
    pub y_pos: i32,
    pub neutral_fg_color: i16,
    pub focus_fg_color: i16,
    pub neutral_bg_color: i16,
    pub focus_bg_color: i16,
}

impl Button {
    /// The effects the button runs when activated: none when no action is
    /// set.
    pub open spec fn action_effects(self) -> Seq<ButtonEffect> {
        match self.action {
            Some(effects) => effects@,
            None => Seq::<ButtonEffect>::empty(),
        }
    }

    /// Whether this event, not yet handled by anyone, activates the button:
    /// the enter key while the button holds focus, or a mouse click inside
    /// its box (a direct click needs no focus).
    pub open spec fn activated_by(self, detail: EventDetail) -> bool {
        match detail {
            EventDetail::InputEvent(token) => match token {
                InputToken::Character(ch) => ch == '\n' && self.has_focus,
                InputToken::Mouse { x, y } => in_window(
                    self.x_pos as int,
                    self.y_pos as int,
                    button_width(self.label@),
                    3,
                    x as int,
                    y as int,
                ),
                _ => false,
            },
            _ => false,
        }
    }

    /// Whether this event, not yet handled by anyone, asks the button to pass
    /// focus on: the tab key while the button holds focus.
    pub open spec fn advances_focus_on(self, detail: EventDetail) -> bool {
        match detail {
            EventDetail::InputEvent(token) => match token {
                InputToken::Character(ch) => ch == '\t' && self.has_focus,
                _ => false,
            },
            _ => false,
        }
    }

    /// The exact reaction of a button to a dispatched event: the event, the
    /// queue and the text cells afterwards. An event someone already handled
    /// is left alone; an activating event is marked handled and the button's
    /// effects run; a tab is marked handled and one AdvanceFocus event is
    /// queued; everything else is left alone.
    pub open spec fn reaction(
        self,
        ev: Event,
        queue: Seq<Event>,
        cells: Seq<Seq<char>>,
    ) -> (Event, Seq<Event>, Seq<Seq<char>>) {
        if !ev.handled && self.activated_by(ev.detail) {
            let done = apply_effects(self.action_effects(), queue, cells);
            (Event { detail: ev.detail, handled: true }, done.0, done.1)
        } else if !ev.handled && self.advances_focus_on(ev.detail) {
            (
                Event { detail: ev.detail, handled: true },
                queue.push(
                    Event {
                        detail: EventDetail::ActionEvent(FormAction::AdvanceFocus),
                        handled: false,
                    },
                ),
                cells,
            )
        } else {
            (ev, queue, cells)
        }
    }

    pub fn get_name(&self) -> (r: &String)
        ensures
            r == self.name,
    {
        &self.name
    }

    /// The on-screen width: the label's characters plus the two border
    /// columns.
    pub fn get_width(&self) -> (w: u32)
        ensures
            w == button_width(self.label@),
    {
        let n = self.label.as_str().unicode_len();
        if n <= (u32::MAX - 2) as usize {
            n as u32 + 2
        } else {
            u32::MAX
        }
    }

    /// A button is always three rows tall.
    pub fn get_height(&self) -> (h: u32)
        ensures
            h == 3,
    {
        3
    }

    /// Runs the button's effects, in order, if an action is set.
    fn maybe_execute_action(&self, event_queue: &mut EventQueue, store: &mut TextStore)
        ensures
            final(event_queue)@ == apply_effects(
                self.action_effects(),
                old(event_queue)@,
                old(store)@,
            ).0,
            final(store)@ == apply_effects(
                self.action_effects(),
                old(event_queue)@,
                old(store)@,
            ).1,
    {
        match &self.action {
            Some(effects) => {
                let m = effects.len();
                let mut i: usize = 0;
                while i < m
                    invariant
                        m == effects@.len(),
                        i <= m,
                        effects@ == self.action_effects(),
                        event_queue@ == apply_effects(
                            effects@.take(i as int),
                            old(event_queue)@,
                            old(store)@,
                        ).0,
                        store@ == apply_effects(
                            effects@.take(i as int),
                            old(event_queue)@,
                            old(store)@,
                        ).1,
                    decreases m - i,
                {
                    proof {
                        lemma_apply_effects_snoc(
                            effects@.take(i as int),
                            effects@[i as int],
                            old(event_queue)@,
                            old(store)@,
                        );
                        assert(effects@.take(i + 1) =~= effects@.take(i as int).push(
                            effects@[i as int],
                        ));
                    }
                    match &effects[i] {
                        ButtonEffect::Emit(detail) => {
                            event_queue.dispatch_event(*detail);
                        },
                        ButtonEffect::SetText(binder, text) => {
                            binder.set(store, text.as_str());
                        },
                    }
                    i += 1;
                }
                proof {
                    assert(effects@.take(m as int) =~= effects@);
                }
            },
            None => {},
        }
    }
}

impl Component for Button {
    /// The button itself never changes under dispatch; the event, the queue
    /// and the cells change exactly as [`Button::reaction`] says.
    open spec fn on_event_spec(
        pre: Self,
        post: Self,
        pre_event: Event,
        post_event: Event,
        pre_queue: Seq<Event>,
        post_queue: Seq<Event>,
        pre_cells: Seq<Seq<char>>,
        post_cells: Seq<Seq<char>>,
    ) -> bool {
        let done = pre.reaction(pre_event, pre_queue, pre_cells);
        &&& post == pre
        &&& post_event == done.0
        &&& post_queue == done.1
        &&& post_cells == done.2
    }

    /// A button always accepts focus, and records that it holds it.
    open spec fn gained_focus_spec(pre: Self, post: Self, accepted: bool) -> bool {
        &&& post == Button { has_focus: true, ..pre }
        &&& accepted
    }

    /// Losing focus only clears the record of holding it.
    open spec fn lost_focus_spec(pre: Self, post: Self) -> bool {
        post == Button { has_focus: false, ..pre }
    }

    /// Drawing appends exactly three runs at the button's position — the top
    /// border, the framed label, the bottom border — in the focus colors
    /// while the button holds focus and in the neutral colors otherwise.
    open spec fn draw_spec(
        c: Self,
        cells: Seq<Seq<char>>,
        pre_commands: Seq<DrawCommand>,
        post_commands: Seq<DrawCommand>,
    ) -> bool {
        let fg = if c.has_focus {
            c.focus_fg_color
        } else {
            c.neutral_fg_color
        };
        let bg = if c.has_focus {
            c.focus_bg_color
        } else {
            c.neutral_bg_color
        };
        let x = c.x_pos as int;
        let y = c.y_pos as int;
        let llen = c.label@.len();
        &&& post_commands.len() == pre_commands.len() + 3
        &&& post_commands.take(pre_commands.len() as int) == pre_commands
        &&& cmd_is(
            post_commands[pre_commands.len() as int],
            x,
            y,
            fg,
            bg,
            framed_row('\u{250c}', '\u{2500}', llen, '\u{2510}'),
        )
        &&& cmd_is(
            post_commands[pre_commands.len() as int + 1],
            x,
            y + 1,
            fg,
            bg,
            seq!['\u{2502}'] + c.label@ + seq!['\u{2502}'],
        )
        &&& cmd_is(
            post_commands[pre_commands.len() as int + 2],
            x,
            y + 2,
            fg,
            bg,
            framed_row('\u{2514}', '\u{2500}', llen, '\u{2518}'),
        )
    }

    fn on_event(&mut self, event: &mut Event, event_queue: &mut EventQueue, store: &mut TextStore) {
        if event.handled {
            return ;
        }
        match event.detail {
            EventDetail::InputEvent(token) => {
                match token {
                    InputToken::Character(ch) => {
                        if ch == '\n' {
                            if !self.has_focus {
                                return ;
                            }
                            event.handled = true;
                            self.maybe_execute_action(event_queue, store);
                        } else if ch == '\t' {
                            if !self.has_focus {
                                return ;
                            }
                            event.handled = true;
                            event_queue.dispatch_event(
                                EventDetail::ActionEvent(FormAction::AdvanceFocus),
                            );
                        }
                    },
                    InputToken::Mouse { x, y } => {
                        if is_in_window(
                            self.x_pos,
                            self.y_pos,
                            self.get_width(),
                            self.get_height(),
                            x,
                            y,
                        ) {
                            // Focus does not matter since it was a direct click.
                            event.handled = true;
                            self.maybe_execute_action(event_queue, store);
                        }
                    },
                    _ => {},
                }
            },
            _ => {},
        }
    }

    fn on_gained_focus(&mut self) -> (accepted: bool) {
        self.has_focus = true;
        true
    }

    fn on_lost_focus(&mut self) {
        self.has_focus = false;
    }

    fn draw(&self, surface: &mut Surface, store: &TextStore) {
        let fg_color = if self.has_focus {
            self.focus_fg_color
        } else {
            self.neutral_fg_color
        };
        let bg_color = if self.has_focus {
            self.focus_bg_color
        } else {
            self.neutral_bg_color
        };

        let label_len = self.label.as_str().unicode_len();
        let x = self.x_pos as i64;
        let y = self.y_pos as i64;

        let top = build_framed_row('\u{250c}', '\u{2500}', label_len, '\u{2510}');
        surface.put(x, y, fg_color, bg_color, top);
        let middle = build_framed_text('\u{2502}', self.label.as_str(), '\u{2502}');
        surface.put(x, y + 1, fg_color, bg_color, middle);
        let bottom = build_framed_row('\u{2514}', '\u{2500}', label_len, '\u{2518}');
        surface.put(x, y + 2, fg_color, bg_color, bottom);
        proof {
            assert(final(surface)@.take(old(surface)@.len() as int) =~= old(surface)@);
        }
    }
}

/// Builder for a Button component.
pub struct ButtonBuilder {
    pub name: String,
    pub action: Option<Vec<ButtonEffect>>,
    pub label: String,
    pub x_pos: i32,
    pub y_pos: i32,
    pub neutral_fg_color: i16,
    pub focus_fg_color: i16,
    pub neutral_bg_color: i16,
    pub focus_bg_color: i16,
}

impl ButtonBuilder {
    /// Create a new ButtonBuilder with default data: no action, an empty
    /// label, the origin, and white on blue that turns white on red under
    /// focus.
    pub fn new(name: &String) -> (r: ButtonBuilder)
        ensures
            r.name@ == name@,
            r.action is None,
            r.label@ == Seq::<char>::empty(),
            r.x_pos == 0,
            r.y_pos == 0,
            r.neutral_fg_color == COLOR_WHITE,
            r.focus_fg_color == COLOR_WHITE,
            r.neutral_bg_color == COLOR_BLUE,
            r.focus_bg_color == COLOR_RED,
    {
        ButtonBuilder {
            name: name.clone(),
            action: None,
            label: String::new(),
            x_pos: 0,
            y_pos: 0,
            neutral_fg_color: COLOR_WHITE,
            focus_fg_color: COLOR_WHITE,
            neutral_bg_color: COLOR_BLUE,
            focus_bg_color: COLOR_RED,
        }
    }

    /// Assign the effects to run when the button is activated.
    pub fn set_action(self, action: Vec<ButtonEffect>) -> (r: ButtonBuilder)
        ensures
            r == (ButtonBuilder { action: Some(action), ..self }),
    {
        ButtonBuilder { action: Some(action), ..self }
    }

    /// Set the text within the button.
    pub fn set_label(self, label: &str) -> (r: ButtonBuilder)
        ensures
            r.label@ == label@,
            r == (ButtonBuilder { label: r.label, ..self }),
    {
        ButtonBuilder { label: label.to_owned(), ..self }
    }

    /// Set the button's placement within the UI.
    pub fn set_position(self, x_pos: i32, y_pos: i32) -> (r: ButtonBuilder)
        ensures
            r == (ButtonBuilder { x_pos, y_pos, ..self }),
    {
        ButtonBuilder { x_pos, y_pos, ..self }
    }

    /// Set the color of the text and border when not in focus.
    pub fn set_neutral_fg_color(self, neutral_fg_color: i16) -> (r: ButtonBuilder)
        ensures
            r == (ButtonBuilder { neutral_fg_color, ..self }),
    {
        ButtonBuilder { neutral_fg_color, ..self }
    }

    /// Set the color of the text and border when focused.
    pub fn set_focus_fg_color(self, focus_fg_color: i16) -> (r: ButtonBuilder)
        ensures
            r == (ButtonBuilder { focus_fg_color, ..self }),
    {
        ButtonBuilder { focus_fg_color, ..self }
    }

    /// Set the background color when not in focus.
    pub fn set_neutral_bg_color(self, neutral_bg_color: i16) -> (r: ButtonBuilder)
        ensures
            r == (ButtonBuilder { neutral_bg_color, ..self }),
    {
        ButtonBuilder { neutral_bg_color, ..self }
    }

    /// Set the background color when focused.
    pub fn set_focus_bg_color(self, focus_bg_color: i16) -> (r: ButtonBuilder)
        ensures
            r == (ButtonBuilder { focus_bg_color, ..self }),
    {
        ButtonBuilder { focus_bg_color, ..self }
    }

    /// Builds the button component with the set options, not yet focused.
    pub fn build(self) -> (b: Button)
        ensures
            b.name == self.name,
            !b.has_focus,
            b.action == self.action,
            b.label == self.label,
            b.x_pos == self.x_pos,
            b.y_pos == self.y_pos,
            b.neutral_fg_color == self.neutral_fg_color,
            b.focus_fg_color == self.focus_fg_color,
            b.neutral_bg_color == self.neutral_bg_color,
            b.focus_bg_color == self.focus_bg_color,
    {
        Button {
            has_focus: false,
            name: self.name,
            label: self.label,
            action: self.action,
            x_pos: self.x_pos,
            y_pos: self.y_pos,
            neutral_fg_color: self.neutral_fg_color,
            focus_fg_color: self.focus_fg_color,
            neutral_bg_color: self.neutral_bg_color,
            focus_bg_color: self.focus_bg_color,
        }
    }
}

} // verus!
