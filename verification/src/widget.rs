use vstd::prelude::*;

use crate::base_types::{Component, Event, EventQueue};
use crate::button::Button;
use crate::form::{
    focus_traversal_spec, gained_accepted, lemma_scan_position_injective, lemma_scanned_range,
    lost_calls, scan_position, scan_start, scanned, FocusCall,
};
use crate::surface::{DrawCommand, Surface};
use crate::text::Text;
use crate::text_input::TextInput;
use crate::utils::TextStore;

verus! {

/// The closed set of widgets the toolkit ships, as one type, so that a
/// single form can hold buttons, text blocks and input boxes side by side in
/// one tab order.
pub enum Widget {
    Button(Button),
    Text(Text),
    TextInput(TextInput),
}

impl Component for Widget {
    /// A widget keeps its variant and reacts exactly as that variant reacts.
    open spec fn on_event_spec(
        pre: Self,
        post: Self,
        pre_event: Event,
        post_event: Event,
        pre_queue: Seq<Event>,
        post_queue: Seq<Event>,
        pre_cells: Seq<Seq<char>>,
        post_cells: Seq<Seq<char>>,
    ) -> bool {
        match pre {
            Widget::Button(b) => (post matches Widget::Button(b2) && Button::on_event_spec(
                b,
                b2,
                pre_event,
                post_event,
                pre_queue,
                post_queue,
                pre_cells,
                post_cells,
            )),
            Widget::Text(t) => (post matches Widget::Text(t2) && Text::on_event_spec(
                t,
                t2,
                pre_event,
                post_event,
                pre_queue,
                post_queue,
                pre_cells,
                post_cells,
            )),
            Widget::TextInput(t) => (post matches Widget::TextInput(t2)
                && TextInput::on_event_spec(
                t,
                t2,
                pre_event,
                post_event,
                pre_queue,
                post_queue,
                pre_cells,
                post_cells,
            )),
        }
    }

    open spec fn gained_focus_spec(pre: Self, post: Self, accepted: bool) -> bool {
        match pre {
            Widget::Button(b) => (post matches Widget::Button(b2) && Button::gained_focus_spec(
                b,
                b2,
                accepted,
            )),
            Widget::Text(t) => (post matches Widget::Text(t2) && Text::gained_focus_spec(
                t,
                t2,
                accepted,
            )),
            Widget::TextInput(t) => (post matches Widget::TextInput(t2)
                && TextInput::gained_focus_spec(t, t2, accepted)),
        }
    }

    open spec fn lost_focus_spec(pre: Self, post: Self) -> bool {
        match pre {
            Widget::Button(b) => (post matches Widget::Button(b2) && Button::lost_focus_spec(
                b,
                b2,
            )),
            Widget::Text(t) => (post matches Widget::Text(t2) && Text::lost_focus_spec(t, t2)),
            Widget::TextInput(t) => (post matches Widget::TextInput(t2)
                && TextInput::lost_focus_spec(t, t2)),
        }
    }

    open spec fn draw_spec(
        c: Self,
        cells: Seq<Seq<char>>,
        pre_commands: Seq<DrawCommand>,
        post_commands: Seq<DrawCommand>,
    ) -> bool {
        match c {
            Widget::Button(b) => Button::draw_spec(b, cells, pre_commands, post_commands),
            Widget::Text(t) => Text::draw_spec(t, cells, pre_commands, post_commands),
            Widget::TextInput(t) => TextInput::draw_spec(t, cells, pre_commands, post_commands),
        }
    }

    fn on_event(&mut self, event: &mut Event, event_queue: &mut EventQueue, store: &mut TextStore) {
        match self {
            Widget::Button(b) => b.on_event(event, event_queue, store),
            Widget::Text(t) => t.on_event(event, event_queue, store),
            Widget::TextInput(t) => t.on_event(event, event_queue, store),
        }
    }

    fn on_gained_focus(&mut self) -> (accepted: bool) {
        match self {
            Widget::Button(b) => b.on_gained_focus(),
            Widget::Text(t) => t.on_gained_focus(),
            Widget::TextInput(t) => t.on_gained_focus(),
        }
    }

    fn on_lost_focus(&mut self) {
        match self {
            Widget::Button(b) => b.on_lost_focus(),
            Widget::Text(t) => t.on_lost_focus(),
            Widget::TextInput(t) => t.on_lost_focus(),
        }
    }

    fn draw(&self, surface: &mut Surface, store: &TextStore) {
        match self {
            Widget::Button(b) => b.draw(surface, store),
            Widget::Text(t) => t.draw(surface, store),
            Widget::TextInput(t) => t.draw(surface, store),
        }
    }
}

/// Whether this widget currently records holding focus.
pub open spec fn widget_focused(w: Widget) -> bool {
    match w {
        Widget::Button(b) => b.has_focus,
        Widget::Text(t) => false,
        Widget::TextInput(t) => t.has_focus,
    }
}

/// The focus cursor and the widgets agree: the cursor names a widget exactly
/// when that widget records holding focus. In particular at most one widget
/// holds focus.
pub open spec fn focus_consistent(comps: Seq<Widget>, focus: Option<usize>) -> bool {
    forall|i: int|
        0 <= i < comps.len() ==> (widget_focused(#[trigger] comps[i]) <==> (match focus {
            Some(j) => i == j as int,
            None => false,
        }))
}

/// Single-holder law: a focus traversal keeps the cursor and the widgets in
/// agreement, so at most one widget holds focus at any time — the new
/// holder, and nobody when the wrap found no acceptor.
pub proof fn lemma_traversal_keeps_single_focus(
    comps0: Seq<Widget>,
    focus0: Option<usize>,
    comps1: Seq<Widget>,
    focus1: Option<usize>,
    calls: Seq<FocusCall>,
)
    requires
        focus_consistent(comps0, focus0),
        (match focus0 {
            Some(j) => (j as int) < comps0.len(),
            None => true,
        }),
        focus_traversal_spec(comps0, focus0, comps1, focus1, calls),
    ensures
        focus_consistent(comps1, focus1),
{
    let n = comps0.len() as int;
    let start = scan_start(focus0);
    let prev: int = match focus0 {
        Some(j) => j as int,
        None => -1,
    };
    let lost = lost_calls(focus0);
    let gained = calls.skip(lost.len() as int);
    let len = gained.len() as int;

    assert forall|i: int|
        0 <= i < comps1.len() implies (widget_focused(#[trigger] comps1[i]) <==> (match focus1 {
        Some(j) => i == j as int,
        None => false,
    })) by {
        assert(comps1.len() == n);
        assert(widget_focused(comps0[i]) <==> (match focus0 {
            Some(j) => i == j as int,
            None => false,
        }));
        lemma_scanned_range(start, n, len, i);
        if focus1 is Some {
            let f = focus1->Some_0 as int;
            assert(gained[len - 1] == FocusCall::Gained(f, true));
            assert(f == scan_position(start, n, len - 1));
            assert(gained_accepted(gained, len - 1));
            lemma_scanned_range(start, n, len, f);
        }
        if i != prev && !scanned(start, n, len, i) {
            // Untouched: the widget kept its state, and it is not the new
            // holder, which was scanned.
            assert(comps1[i] == comps0[i]);
            assert(!widget_focused(comps0[i]));
            if focus1 is Some {
                let f = focus1->Some_0 as int;
                assert(f != i);
            }
        } else if i == prev {
            let j = focus0->Some_0 as int;
            if gained.len() == n && n >= 1 {
                // A full wrap reached the previous holder last; it was asked
                // in the state its lost-focus call left it, and — being a
                // widget kind that accepts — took focus back.
                let between = choose|between: Widget|
                    Widget::lost_focus_spec(comps0[j], between)
                        && #[trigger] Widget::gained_focus_spec(
                        between,
                        comps1[j],
                        gained_accepted(gained, n - 1),
                    );
                assert(widget_focused(comps0[j]));
                assert(!(comps0[j] is Text));
                assert(!(between is Text));
                assert(gained_accepted(gained, n - 1));
                assert(widget_focused(comps1[j]));
                assert(scan_position(start, n, n - 1) == prev);
                match focus1 {
                    Some(f) => {
                        lemma_scan_position_injective(start, n, len - 1, n - 1);
                        assert(f as int == prev);
                    },
                    None => {
                        assert(!gained_accepted(gained, n - 1));
                    },
                }
            } else {
                // The previous holder was only told it lost focus.
                assert(Widget::lost_focus_spec(comps0[j], comps1[j]));
                assert(widget_focused(comps0[j]));
                assert(!(comps0[j] is Text));
                assert(!widget_focused(comps1[j]));
                if focus1 is Some {
                    let f = focus1->Some_0 as int;
                    assert(scanned(start, n, len, f));
                    assert(f != prev);
                }
            }
        } else {
            // Scanned at some step k, and not the previous holder: the
            // acceptance call relates its old state to its new one.
            let k = choose|k: int| 0 <= k < len && #[trigger] scan_position(start, n, k) == i;
            assert(Widget::gained_focus_spec(comps0[i], comps1[i], gained_accepted(gained, k)));
            if gained_accepted(gained, k) {
                assert(k == len - 1);
                assert(widget_focused(comps1[i]));
                match focus1 {
                    Some(f) => {
                        assert(f as int == scan_position(start, n, len - 1) == i);
                    },
                    None => {
                        assert(!gained_accepted(gained, k));
                    },
                }
            } else {
                // Only a plain text block declines, and one never holds
                // focus.
                assert(comps0[i] is Text);
                assert(!widget_focused(comps1[i]));
                if focus1 is Some {
                    let f = focus1->Some_0 as int;
                    if f == i {
                        lemma_scan_position_injective(start, n, k, len - 1);
                        assert(gained_accepted(gained, k));
                    }
                    assert(f != i);
                }
            }
        }
    }
}

} // verus!
