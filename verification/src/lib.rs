//! A small terminal widget toolkit, verified where it decides.
//!
//! A [`Form`] owns an insertion-ordered list of components — the tab order —
//! an event queue, and a single focus cursor, and advances them one frame at
//! a time: draw every component in tab order into a [`Surface`], dispatch
//! one raw input token to every component, then drain the queue step by
//! step, handling Exit and AdvanceFocus on the way. Components implement the
//! [`Component`] capability contract; the shipped widgets — [`Button`],
//! [`Text`], [`TextInput`] — are collected in the closed [`Widget`] type.
//! Shared text lives in a [`TextStore`] arena addressed by [`TextBinder`]
//! handles. Everything that touches the real terminal stays outside and
//! talks to the library through plain values: tokens in, draw commands out.

mod base_types;
mod button;
mod form;
mod surface;
mod text;
mod text_input;
mod utils;
mod widget;

pub use base_types::{
    Component, Event, EventDetail, EventQueue, FormAction, InputToken, lemma_event_queue_lifo,
};
pub use button::{Button, ButtonBuilder, ButtonEffect, apply_effect, apply_effects, button_width};
pub use form::{
    DispatchStage, FocusCall, Form, all_declined, focus_traversal_spec, gained_accepted,
    is_focus_scan, lemma_at_most_one_wrap, lemma_initial_scan, lemma_lost_before_gained,
    lemma_scan_position_injective, lemma_scanned_range, lost_calls, scan_position, scan_start,
    scanned,
};
pub use surface::{
    COLOR_BLACK, COLOR_BLUE, COLOR_CYAN, COLOR_GREEN, COLOR_MAGENTA, COLOR_RED, COLOR_WHITE,
    COLOR_YELLOW, DrawCommand, Surface, cmd_is, framed_row,
};
pub use text::{Text, TextBuilder};
pub use text_input::{
    TextInput, TextInputBuilder, input_text_row, input_top_row, pop_char_spec, visible_text,
};
pub use utils::{TextBinder, TextStore, in_window, is_in_window, lemma_shared_cell};
pub use widget::{Widget, focus_consistent, lemma_traversal_keeps_single_focus, widget_focused};
