use conui::{
    Button, ButtonBuilder, ButtonEffect, Component, Event, EventDetail, EventQueue, Form,
    FormAction, InputToken, Surface, Text, TextBuilder, TextStore, Widget,
};

fn plain_button(store: &mut TextStore) -> Button {
    let _ = store;
    ButtonBuilder::new(&String::from("button")).set_label("OK").build()
}

fn plain_text() -> Text {
    TextBuilder::new().set_text("just text").build()
}

fn drain(form: &mut Form<Widget>, store: &mut TextStore) -> usize {
    let mut steps: usize = 0;
    loop {
        let (drained, _, _, _) = form.drain_step(store);
        if drained.is_none() {
            break;
        }
        steps += 1;
    }
    steps
}

fn widget_has_focus(w: &Widget) -> bool {
    match w {
        Widget::Button(b) => b.has_focus,
        Widget::Text(_) => false,
        Widget::TextInput(t) => t.has_focus,
    }
}

#[test]
fn queue_is_lifo() {
    let mut q = EventQueue::new();
    q.dispatch_event(EventDetail::ActionEvent(FormAction::Init));
    q.dispatch_event(EventDetail::ActionEvent(FormAction::AdvanceFocus));
    q.dispatch_event(EventDetail::ActionEvent(FormAction::Exit));

    let first = q.pop().expect("one event pending");
    assert!(matches!(first.detail, EventDetail::ActionEvent(FormAction::Exit)));
    assert!(!first.handled);

    let second = q.pop().expect("another event pending");
    assert!(matches!(second.detail, EventDetail::ActionEvent(FormAction::AdvanceFocus)));

    let third = q.pop().expect("a last event pending");
    assert!(matches!(third.detail, EventDetail::ActionEvent(FormAction::Init)));

    assert!(q.pop().is_none());
    assert_eq!(q.len(), 0);
}

#[test]
fn empty_queue_pop_is_not_an_error() {
    let mut q = EventQueue::new();
    assert!(q.pop().is_none());
    assert!(q.pop().is_none());
}

#[test]
fn form_starts_empty() {
    let form: Form<Widget> = Form::new();
    assert_eq!(form.components.len(), 0);
    assert!(form.focus_index.is_none());
    assert!(!form.terminated);
}

#[test]
fn initial_search_stops_at_first_acceptor() {
    let mut store = TextStore::new();
    let mut form: Form<Widget> = Form::new();
    form.push_component(Widget::Text(plain_text()));
    form.push_component(Widget::Text(plain_text()));
    form.push_component(Widget::Button(plain_button(&mut store)));
    form.push_component(Widget::Button(plain_button(&mut store)));

    form.advance_focus();
    assert_eq!(form.focus_index, Some(2));
    assert!(widget_has_focus(&form.components[2]));
    assert!(!widget_has_focus(&form.components[3]));
}

#[test]
fn initial_search_with_no_acceptor_leaves_focus_empty() {
    let mut form: Form<Widget> = Form::new();
    form.push_component(Widget::Text(plain_text()));
    form.push_component(Widget::Text(plain_text()));

    form.advance_focus();
    assert!(form.focus_index.is_none());
}

#[test]
fn focus_on_zero_components_stays_empty() {
    let mut form: Form<Widget> = Form::new();
    form.advance_focus();
    assert!(form.focus_index.is_none());
}

#[test]
fn single_focusable_component_reaccepts_on_every_advance() {
    let mut store = TextStore::new();
    let mut form: Form<Widget> = Form::new();
    form.push_component(Widget::Button(plain_button(&mut store)));

    form.advance_focus();
    assert_eq!(form.focus_index, Some(0));
    form.advance_focus();
    assert_eq!(form.focus_index, Some(0));
    assert!(widget_has_focus(&form.components[0]));
}

#[test]
fn advance_wraps_around_past_decliners() {
    let mut store = TextStore::new();
    let mut form: Form<Widget> = Form::new();
    form.push_component(Widget::Button(plain_button(&mut store)));
    form.push_component(Widget::Text(plain_text()));
    form.push_component(Widget::Button(plain_button(&mut store)));

    form.advance_focus();
    assert_eq!(form.focus_index, Some(0));
    form.advance_focus();
    assert_eq!(form.focus_index, Some(2));
    form.advance_focus();
    assert_eq!(form.focus_index, Some(0));
    assert!(widget_has_focus(&form.components[0]));
    assert!(!widget_has_focus(&form.components[2]));
}

#[test]
fn focused_button_marks_tab_handled_and_enqueues_advance() {
    let mut store = TextStore::new();
    let mut button = plain_button(&mut store);
    let mut queue = EventQueue::new();
    assert!(button.on_gained_focus());

    let mut event = Event {
        detail: EventDetail::InputEvent(InputToken::Character('\t')),
        handled: false,
    };
    button.on_event(&mut event, &mut queue, &mut store);

    assert!(event.handled);
    assert_eq!(queue.len(), 1);
    let queued = queue.pop().expect("the follow-up event");
    assert!(matches!(queued.detail, EventDetail::ActionEvent(FormAction::AdvanceFocus)));
    assert!(!queued.handled);
}

#[test]
fn tab_keystroke_moves_focus_to_next_component() {
    let mut store = TextStore::new();
    let mut form: Form<Widget> = Form::new();
    form.push_component(Widget::Button(plain_button(&mut store)));
    form.push_component(Widget::Button(plain_button(&mut store)));

    form.advance_focus();
    assert_eq!(form.focus_index, Some(0));

    form.process_input(InputToken::Character('\t'), &mut store);
    let steps = drain(&mut form, &mut store);

    assert_eq!(steps, 1);
    assert_eq!(form.focus_index, Some(1));
    assert!(!widget_has_focus(&form.components[0]));
    assert!(widget_has_focus(&form.components[1]));
    assert!(!form.terminated);
}

#[test]
fn enter_on_exit_button_terminates_after_one_drain() {
    let mut store = TextStore::new();
    let mut form: Form<Widget> = Form::new();
    let button = ButtonBuilder::new(&String::from("quit"))
        .set_label("Quit")
        .set_action(vec![ButtonEffect::Emit(EventDetail::ActionEvent(FormAction::Exit))])
        .build();
    form.push_component(Widget::Button(button));

    form.advance_focus();
    assert_eq!(form.focus_index, Some(0));

    // One input cycle and one drain cycle: the loop's run ends here.
    let mut surface = Surface::new();
    form.draw_frame(&mut surface, &store);
    form.process_input(InputToken::Character('\n'), &mut store);
    let steps = drain(&mut form, &mut store);

    assert_eq!(steps, 1);
    assert!(form.terminated);
}

#[test]
fn drained_events_run_in_reverse_of_generation_order() {
    let mut store = TextStore::new();
    let mut form: Form<Widget> = Form::new();
    let button = ButtonBuilder::new(&String::from("both"))
        .set_label("Both")
        .set_action(vec![
            ButtonEffect::Emit(EventDetail::ActionEvent(FormAction::AdvanceFocus)),
            ButtonEffect::Emit(EventDetail::ActionEvent(FormAction::Exit)),
        ])
        .build();
    form.push_component(Widget::Button(button));
    form.push_component(Widget::Button(plain_button(&mut store)));

    form.advance_focus();
    assert_eq!(form.focus_index, Some(0));

    form.process_input(InputToken::Character('\n'), &mut store);
    // The queue drains last-in-first-out: Exit first, then AdvanceFocus.
    let (first, _, _, _) = form.drain_step(&mut store);
    assert!(matches!(
        first.expect("exit drains first").detail,
        EventDetail::ActionEvent(FormAction::Exit)
    ));
    assert!(form.terminated);
    let (second, _, _, _) = form.drain_step(&mut store);
    assert!(matches!(
        second.expect("advance drains second").detail,
        EventDetail::ActionEvent(FormAction::AdvanceFocus)
    ));
    assert_eq!(form.focus_index, Some(1));
    let (third, _, _, _) = form.drain_step(&mut store);
    assert!(third.is_none());
}

#[test]
fn handled_input_event_reaches_all_components_without_short_circuit() {
    // Two buttons with focus on the first: the first marks the tab handled,
    // and the second still receives the event but leaves it alone.
    let mut store = TextStore::new();
    let mut form: Form<Widget> = Form::new();
    form.push_component(Widget::Button(plain_button(&mut store)));
    form.push_component(Widget::Button(plain_button(&mut store)));
    form.advance_focus();

    form.process_input(InputToken::Character('\t'), &mut store);
    // Exactly one AdvanceFocus was enqueued: the second button saw the event
    // already handled and did not enqueue another.
    assert_eq!(form.event_queue.len(), 1);
    drain(&mut form, &mut store);
    assert_eq!(form.focus_index, Some(1));
}

#[test]
fn exit_flag_persists_while_frame_finishes() {
    let mut store = TextStore::new();
    let mut form: Form<Widget> = Form::new();
    let button = ButtonBuilder::new(&String::from("quit"))
        .set_action(vec![ButtonEffect::Emit(EventDetail::ActionEvent(FormAction::Exit))])
        .build();
    form.push_component(Widget::Button(button));
    form.advance_focus();

    form.process_input(InputToken::Character('\n'), &mut store);
    drain(&mut form, &mut store);
    assert!(form.terminated);

    // The frame in progress still completes: drawing after the flag is set
    // still works.
    let mut surface = Surface::new();
    form.draw_frame(&mut surface, &store);
    assert_eq!(surface.len(), 3);
}

#[test]
fn at_most_one_widget_holds_focus() {
    let mut store = TextStore::new();
    let mut form: Form<Widget> = Form::new();
    form.push_component(Widget::Text(plain_text()));
    form.push_component(Widget::Button(plain_button(&mut store)));
    form.push_component(Widget::Button(plain_button(&mut store)));
    form.push_component(Widget::Text(plain_text()));

    let holders = |form: &Form<Widget>| -> usize {
        form.components.iter().filter(|w| widget_has_focus(w)).count()
    };

    assert_eq!(holders(&form), 0);
    for advance in 0..5 {
        form.advance_focus();
        assert_eq!(holders(&form), 1, "after advance {advance}");
        let focused = form.focus_index.expect("a button accepted");
        assert!(widget_has_focus(&form.components[focused]));
    }
}
