use conui::{
    ButtonBuilder, ButtonEffect, Component, Event, EventDetail, EventQueue, Form,
    InputToken, Surface, TextBinder, TextBuilder, TextInput, TextInputBuilder, TextStore, Widget,
    COLOR_BLACK, COLOR_BLUE, COLOR_GREEN, COLOR_RED, COLOR_WHITE, COLOR_YELLOW,
};

fn fresh_input(store: &mut TextStore, width: u32) -> TextInput {
    TextInputBuilder::new(store).set_box_width(width).build()
}

fn unhandled(token: InputToken) -> Event {
    Event { detail: EventDetail::InputEvent(token), handled: false }
}

#[test]
fn color_index_pairs_all_combinations() {
    assert_eq!(Form::<Widget>::color_index(0, 0), 0);
    assert_eq!(Form::<Widget>::color_index(0, 7), 7);
    assert_eq!(Form::<Widget>::color_index(1, 0), 8);
    assert_eq!(Form::<Widget>::color_index(7, 4), 60);
    assert_eq!(Form::<Widget>::color_index(7, 7), 63);
    assert_eq!(
        Form::<Widget>::color_index(COLOR_GREEN, COLOR_YELLOW),
        COLOR_GREEN * 8 + COLOR_YELLOW
    );
}

#[test]
fn button_draws_a_three_row_frame() {
    let store = TextStore::new();
    let button = ButtonBuilder::new(&String::from("ok"))
        .set_label("OK")
        .set_position(4, 2)
        .build();
    let mut surface = Surface::new();
    button.draw(&mut surface, &store);

    let commands = surface.commands();
    assert_eq!(commands.len(), 3);
    assert_eq!(commands[0].text, "\u{250c}\u{2500}\u{2500}\u{2510}");
    assert_eq!(commands[1].text, "\u{2502}OK\u{2502}");
    assert_eq!(commands[2].text, "\u{2514}\u{2500}\u{2500}\u{2518}");
    assert_eq!((commands[0].x, commands[0].y), (4, 2));
    assert_eq!((commands[1].x, commands[1].y), (4, 3));
    assert_eq!((commands[2].x, commands[2].y), (4, 4));
    assert_eq!(commands[0].fg_color, COLOR_WHITE);
    assert_eq!(commands[0].bg_color, COLOR_BLUE);
}

#[test]
fn focused_button_draws_in_focus_colors() {
    let store = TextStore::new();
    let mut button = ButtonBuilder::new(&String::from("ok")).set_label("Go").build();
    assert!(button.on_gained_focus());
    let mut surface = Surface::new();
    button.draw(&mut surface, &store);
    assert_eq!(surface.commands()[1].fg_color, COLOR_WHITE);
    assert_eq!(surface.commands()[1].bg_color, COLOR_RED);

    button.on_lost_focus();
    let mut surface2 = Surface::new();
    button.draw(&mut surface2, &store);
    assert_eq!(surface2.commands()[1].bg_color, COLOR_BLUE);
}

#[test]
fn draw_frame_clears_and_draws_in_tab_order() {
    let mut store = TextStore::new();
    let mut form: Form<Widget> = Form::new();
    form.push_component(Widget::Text(TextBuilder::new().set_text("one").build()));
    form.push_component(Widget::Button(
        ButtonBuilder::new(&String::from("two")).set_label("2").build(),
    ));
    let _ = TextBinder::new(&mut store, "unused");

    let mut surface = Surface::new();
    form.draw_frame(&mut surface, &store);
    assert_eq!(surface.len(), 4);
    assert_eq!(surface.commands()[0].text, "one");
    assert_eq!(surface.commands()[1].text, "\u{250c}\u{2500}\u{2510}");

    // A second frame starts from a cleared surface.
    form.draw_frame(&mut surface, &store);
    assert_eq!(surface.len(), 4);
}

#[test]
fn text_block_shows_static_or_bound_text() {
    let mut store = TextStore::new();
    let fixed = TextBuilder::new().set_text("fixed").set_position(1, 1).build();
    let mut surface = Surface::new();
    fixed.draw(&mut surface, &store);
    assert_eq!(surface.commands()[0].text, "fixed");
    assert_eq!(surface.commands()[0].fg_color, COLOR_WHITE);
    assert_eq!(surface.commands()[0].bg_color, COLOR_BLACK);

    let binder = TextBinder::new(&mut store, "bound");
    let dynamic = TextBuilder::new().set_text("overridden").set_text_binder(binder).build();
    let mut surface2 = Surface::new();
    dynamic.draw(&mut surface2, &store);
    assert_eq!(surface2.commands()[0].text, "bound");

    binder.set(&mut store, "updated");
    let mut surface3 = Surface::new();
    dynamic.draw(&mut surface3, &store);
    assert_eq!(surface3.commands()[0].text, "updated");
}

#[test]
fn text_input_pads_short_text_to_its_width() {
    let mut store = TextStore::new();
    let binder = TextBinder::new(&mut store, "ab");
    let input = TextInputBuilder::new(&mut store)
        .set_text_binder(binder)
        .set_box_width(4)
        .build();
    let mut surface = Surface::new();
    input.draw(&mut surface, &store);

    let commands = surface.commands();
    assert_eq!(commands[0].text, "\u{250c}\u{2500}\u{2500}\u{2500}\u{2500}\u{2510}");
    assert_eq!(commands[1].text, "\u{2502}ab  \u{2502}");
    assert_eq!(commands[2].text, "\u{2514}\u{2500}\u{2500}\u{2500}\u{2500}\u{2518}");
}

#[test]
fn text_input_truncates_to_head_unfocused_and_tail_focused() {
    let mut store = TextStore::new();
    let binder = TextBinder::new(&mut store, "abcdef");
    let mut input = TextInputBuilder::new(&mut store)
        .set_text_binder(binder)
        .set_box_width(4)
        .build();

    let mut surface = Surface::new();
    input.draw(&mut surface, &store);
    assert_eq!(surface.commands()[1].text, "\u{2502}abcd\u{2502}");

    assert!(input.on_gained_focus());
    let mut surface2 = Surface::new();
    input.draw(&mut surface2, &store);
    assert_eq!(surface2.commands()[1].text, "\u{2502}cdef\u{2502}");
}

#[test]
fn text_input_label_is_padded_or_left_whole() {
    let mut store = TextStore::new();
    let labeled = TextInputBuilder::new(&mut store)
        .set_label("Lbl")
        .set_box_width(4)
        .build();
    let mut surface = Surface::new();
    labeled.draw(&mut surface, &store);
    assert_eq!(surface.commands()[0].text, "\u{2552}Lbl\u{2550}\u{2555}");

    let long = TextInputBuilder::new(&mut store)
        .set_label("Label!")
        .set_box_width(4)
        .build();
    let mut surface2 = Surface::new();
    long.draw(&mut surface2, &store);
    assert_eq!(surface2.commands()[0].text, "\u{2552}Label!\u{2555}");
}

#[test]
fn typing_into_a_focused_input_appends_characters() {
    let mut store = TextStore::new();
    let mut input = fresh_input(&mut store, 8);
    let mut queue = EventQueue::new();
    assert!(input.on_gained_focus());

    for ch in ['h', 'i', '!'] {
        let mut event = unhandled(InputToken::Character(ch));
        input.on_event(&mut event, &mut queue, &mut store);
        assert!(event.handled);
    }
    assert_eq!(input.get_text(&store), "hi!");
    assert_eq!(queue.len(), 0);
}

#[test]
fn backspace_removes_the_last_character() {
    let mut store = TextStore::new();
    let binder = TextBinder::new(&mut store, "abc");
    let mut input = TextInputBuilder::new(&mut store).set_text_binder(binder).build();
    let mut queue = EventQueue::new();
    assert!(input.on_gained_focus());

    let mut event = unhandled(InputToken::Backspace);
    input.on_event(&mut event, &mut queue, &mut store);
    assert!(event.handled);
    assert_eq!(input.get_text(&store), "ab");

    // The delete character some shells send behaves like backspace.
    let mut event2 = unhandled(InputToken::Character('\u{7f}'));
    input.on_event(&mut event2, &mut queue, &mut store);
    assert_eq!(input.get_text(&store), "a");

    // Backspace on empty text stays empty.
    let mut event3 = unhandled(InputToken::Backspace);
    input.on_event(&mut event3, &mut queue, &mut store);
    let mut event4 = unhandled(InputToken::Backspace);
    input.on_event(&mut event4, &mut queue, &mut store);
    assert_eq!(input.get_text(&store), "");
}

#[test]
fn unfocused_input_ignores_typing() {
    let mut store = TextStore::new();
    let mut input = fresh_input(&mut store, 8);
    let mut queue = EventQueue::new();

    let mut event = unhandled(InputToken::Character('x'));
    input.on_event(&mut event, &mut queue, &mut store);
    assert!(!event.handled);
    assert_eq!(input.get_text(&store), "");
}

#[test]
fn input_shares_its_text_through_the_binder() {
    let mut store = TextStore::new();
    let binder = TextBinder::new(&mut store, "");
    let mut input = TextInputBuilder::new(&mut store).set_text_binder(binder).build();
    let mut queue = EventQueue::new();
    input.on_gained_focus();

    let mut event = unhandled(InputToken::Character('z'));
    input.on_event(&mut event, &mut queue, &mut store);
    assert_eq!(binder.get(&store), "z");
}

#[test]
fn mouse_click_inside_activates_a_button_without_focus() {
    let mut store = TextStore::new();
    let cell = TextBinder::new(&mut store, "untouched");
    let mut button = ButtonBuilder::new(&String::from("set"))
        .set_label("OK")
        .set_position(1, 1)
        .set_action(vec![ButtonEffect::SetText(cell, String::from("clicked"))])
        .build();
    let mut queue = EventQueue::new();

    // The label "OK" makes the button 4 wide and 3 tall: (5, 4) is the far
    // corner, inclusive.
    let mut miss = unhandled(InputToken::Mouse { x: 6, y: 4 });
    button.on_event(&mut miss, &mut queue, &mut store);
    assert!(!miss.handled);
    assert_eq!(cell.get(&store), "untouched");

    let mut hit = unhandled(InputToken::Mouse { x: 5, y: 4 });
    button.on_event(&mut hit, &mut queue, &mut store);
    assert!(hit.handled);
    assert_eq!(cell.get(&store), "clicked");
}

#[test]
fn enter_without_focus_does_nothing() {
    let mut store = TextStore::new();
    let cell = TextBinder::new(&mut store, "before");
    let mut button = ButtonBuilder::new(&String::from("set"))
        .set_action(vec![ButtonEffect::SetText(cell, String::from("after"))])
        .build();
    let mut queue = EventQueue::new();

    let mut event = unhandled(InputToken::Character('\n'));
    button.on_event(&mut event, &mut queue, &mut store);
    assert!(!event.handled);
    assert_eq!(cell.get(&store), "before");
}

#[test]
fn a_handled_event_is_left_alone() {
    let mut store = TextStore::new();
    let mut button = ButtonBuilder::new(&String::from("b")).build();
    button.on_gained_focus();
    let mut input = fresh_input(&mut store, 4);
    input.on_gained_focus();
    let mut queue = EventQueue::new();

    let mut event = Event {
        detail: EventDetail::InputEvent(InputToken::Character('\n')),
        handled: true,
    };
    button.on_event(&mut event, &mut queue, &mut store);
    input.on_event(&mut event, &mut queue, &mut store);
    assert!(event.handled);
    assert_eq!(queue.len(), 0);
    assert_eq!(input.get_text(&store), "");
}

#[test]
fn button_effects_apply_in_order() {
    let mut store = TextStore::new();
    let cell = TextBinder::new(&mut store, "");
    let mut button = ButtonBuilder::new(&String::from("twice"))
        .set_action(vec![
            ButtonEffect::SetText(cell, String::from("first")),
            ButtonEffect::SetText(cell, String::from("second")),
        ])
        .build();
    button.on_gained_focus();
    let mut queue = EventQueue::new();

    let mut event = unhandled(InputToken::Character('\n'));
    button.on_event(&mut event, &mut queue, &mut store);
    assert_eq!(cell.get(&store), "second");
}

#[test]
fn builders_apply_every_setting() {
    let mut store = TextStore::new();
    let binder = TextBinder::new(&mut store, "seed");

    let button = ButtonBuilder::new(&String::from("named"))
        .set_label("L")
        .set_position(7, 8)
        .set_neutral_fg_color(COLOR_GREEN)
        .set_focus_fg_color(COLOR_YELLOW)
        .set_neutral_bg_color(COLOR_BLACK)
        .set_focus_bg_color(COLOR_WHITE)
        .build();
    assert_eq!(button.get_name(), "named");
    assert_eq!(button.label, "L");
    assert_eq!((button.x_pos, button.y_pos), (7, 8));
    assert_eq!(button.neutral_fg_color, COLOR_GREEN);
    assert_eq!(button.focus_fg_color, COLOR_YELLOW);
    assert_eq!(button.neutral_bg_color, COLOR_BLACK);
    assert_eq!(button.focus_bg_color, COLOR_WHITE);
    assert!(!button.has_focus);

    let text = TextBuilder::new()
        .set_text("body")
        .set_position(2, 3)
        .set_fg_color(COLOR_RED)
        .set_bg_color(COLOR_BLUE)
        .build();
    assert_eq!(text.text, "body");
    assert_eq!((text.x_pos, text.y_pos), (2, 3));
    assert_eq!((text.fg_color, text.bg_color), (COLOR_RED, COLOR_BLUE));

    let input = TextInputBuilder::new(&mut store)
        .set_label("name")
        .set_text_binder(binder)
        .set_position(5, 6)
        .set_box_width(12)
        .set_neutral_fg_color(COLOR_BLACK)
        .set_focus_fg_color(COLOR_RED)
        .set_neutral_bg_color(COLOR_GREEN)
        .set_focus_bg_color(COLOR_BLUE)
        .build();
    assert_eq!(input.label, "name");
    assert_eq!((input.x_pos, input.y_pos), (5, 6));
    assert_eq!(input.box_width, 12);
    assert_eq!(input.get_text(&store), "seed");
    assert_eq!(input.get_width(), 12);
    assert_eq!(input.get_height(), 3);
}

#[test]
fn tab_in_an_input_requests_focus_advance() {
    let mut store = TextStore::new();
    let mut input = fresh_input(&mut store, 4);
    let mut queue = EventQueue::new();
    input.on_gained_focus();

    let mut event = unhandled(InputToken::Character('\t'));
    input.on_event(&mut event, &mut queue, &mut store);
    assert!(event.handled);
    let queued = queue.pop().expect("the follow-up event");
    assert!(matches!(
        queued.detail,
        EventDetail::ActionEvent(conui::FormAction::AdvanceFocus)
    ));
}

#[test]
fn newline_is_typed_into_an_input_like_any_character() {
    let mut store = TextStore::new();
    let mut input = fresh_input(&mut store, 4);
    let mut queue = EventQueue::new();
    input.on_gained_focus();

    let mut event = unhandled(InputToken::Character('\n'));
    input.on_event(&mut event, &mut queue, &mut store);
    assert!(event.handled);
    assert_eq!(input.get_text(&store), "\n");
}
