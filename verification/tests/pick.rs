use plannotator_tui::geometry::PickRect;
use plannotator_tui::message::{DocumentSource, Message, Provenance, Role};
use plannotator_tui::draw::{pick_label, role_color, role_label, row, PickColor, PickFrame, SpanStyle};
use plannotator_tui::pick::{App, Mode, PickError, PickKey, PickMouse, PICK_EMPTY_STATUS};

fn candidates() -> Vec<Message> {
    let message = |id: &str, role: Role, text: &str, at: &str| Message {
        id: id.to_owned(),
        role,
        text: text.to_owned(),
        at: Some(at.to_owned()),
    };
    vec![
        message(
            "m4",
            Role::Human,
            "Newest request\n\nPlease review this change.\n",
            "2026-08-28T12:41:00.000Z",
        ),
        message(
            "m3",
            Role::Assistant,
            "# Current reply\n\nHere is the latest response.\n",
            "2026-08-28T12:40:00.000Z",
        ),
        message(
            "m2",
            Role::Human,
            "Earlier request\n\nPlease keep the context.\n",
            "2026-08-28T12:38:00.000Z",
        ),
        message("m1", Role::Assistant, "# Earlier reply\n\nAn older response.\n", "2026-08-28T12:30:00.000Z"),
    ]
}

/// The terminal the picker is drawn in: 80 columns by 20 rows.
fn screen() -> PickRect {
    PickRect { x: 0, y: 0, width: 80, height: 20 }
}

/// Each listed candidate as one line of text.
fn listed_lines(frame: &PickFrame) -> Vec<String> {
    frame.lines.iter().map(|line| format!("{}{}{}", line.checkbox, line.label, line.text)).collect()
}

fn open() -> App {
    App::open_message("codex", "/tmp/transcript.jsonl", candidates(), 60).expect("opens")
}

#[test]
fn the_picker_renders_roles_and_multiselect_controls() {
    let mut app = open();
    assert_eq!(app.mode, Mode::Pick, "more than one candidate asks which");
    assert_eq!(app.open.content, "# Current reply\n\nHere is the latest response.\n");
    assert_eq!(app.pick_selected, vec![false; 4]);

    let frame = app.draw_pick(screen());
    let listed = listed_lines(&frame);
    assert_eq!(listed.len(), 4, "{listed:?}");
    assert!(listed[0].contains("[ ]"), "{:?}", listed[0]);
    assert!(listed[0].contains("You"), "{:?}", listed[0]);
    assert!(listed[0].contains("12:41"), "{:?}", listed[0]);
    assert!(listed[0].contains("Newest request"), "{:?}", listed[0]);
    assert!(listed[1].contains("[ ]"), "{:?}", listed[1]);
    assert!(listed[1].contains("Assistant"), "{:?}", listed[1]);
    assert!(listed[1].contains("12:40"), "{:?}", listed[1]);
    assert!(listed[1].contains("# Current reply"), "{:?}", listed[1]);
    assert!(frame.footer.contains("space toggle") && frame.footer.contains("0 selected"), "{}", frame.footer);

    assert_eq!(frame.lines[0].role, Role::Human);
    assert_eq!(frame.lines[1].role, Role::Assistant);
    assert_eq!(frame.lines[0].label_style.color, Some(PickColor::Yellow));
    assert_eq!(frame.lines[1].label_style.color, Some(PickColor::Cyan));
    assert!(frame.lines[0].label_style.reversed, "the picker cursor stays reversed");
    assert!(!frame.lines[1].label_style.reversed);

    app.pick_key(PickKey::Char(' '));
    assert_eq!(app.pick_selected, vec![true, false, false, false]);
    let frame = app.draw_pick(screen());
    assert!(listed_has(&frame, "[x] You"), "{:?}", listed_lines(&frame));
    assert!(frame.footer.contains("1 selected"), "{}", frame.footer);
    app.pick_key(PickKey::Char(' '));
    assert_eq!(app.pick_selected, vec![false; 4]);

    app.draw_pick(screen());
    let clicked = app.pick_rows[1].0;
    app.pick_mouse(PickMouse { left_press: true, column: clicked.x, row: clicked.y });
    assert_eq!(app.pick_cursor, 1);
    assert_eq!(app.pick_selected, vec![false, true, false, false]);
    let frame = app.draw_pick(screen());
    assert!(frame.lines[1].label_style.reversed, "clicking moves the reversed cursor");
    assert!(!frame.lines[0].label_style.reversed);
}

fn listed_has(frame: &PickFrame, text: &str) -> bool {
    listed_lines(frame).iter().any(|line| line.contains(text))
}

#[test]
fn entering_without_a_selection_stays_in_the_picker() {
    let mut app = open();
    app.pick_key(PickKey::Enter);
    assert_eq!(app.mode, Mode::Pick);
    assert_eq!(app.status.as_deref(), Some("select at least one message before opening"));
    let frame = app.draw_pick(screen());
    assert_eq!(frame.title, "select at least one message before opening");
}

#[test]
fn selecting_multiple_messages_opens_chronological_transient_conversation() {
    let mut app = open();
    app.pick_key(PickKey::Char(' '));
    app.pick_key(PickKey::Char('j'));
    app.pick_key(PickKey::Char(' '));
    app.pick_key(PickKey::Enter);

    assert_eq!(app.mode, Mode::Browse);
    assert_eq!(app.open.name, "codex · 2 messages");
    assert!(app.open.transient, "a composite message is never written to disk");
    let assistant = app.open.content.find("## Assistant\n\n# Current reply").expect("assistant heading");
    let human = app.open.content.find("## You\n\nNewest request").expect("human heading");
    assert!(assistant < human, "selected candidates are restored chronologically");
    match &app.open.provenance {
        Provenance::AgentMessage { host, session, message_id } => {
            assert_eq!(host, "codex");
            assert_eq!(session.as_deref(), Some("/tmp/transcript.jsonl"));
            assert!(message_id.is_none());
        }
        provenance => panic!("unexpected provenance: {provenance:?}"),
    }
    assert_eq!(app.status.as_deref(), Some("2 messages selected"));
}

#[test]
fn selecting_one_message_opens_its_raw_transient_source() {
    let mut app = open();
    app.pick_key(PickKey::Char(' '));
    app.pick_key(PickKey::Enter);

    assert_eq!(app.mode, Mode::Browse);
    assert_eq!(app.open.name, "codex · last message");
    assert_eq!(app.open.content, "Newest request\n\nPlease review this change.\n");
    assert!(app.open.transient, "a message is never written to disk");
    match &app.open.provenance {
        Provenance::AgentMessage { message_id, .. } => assert_eq!(message_id.as_deref(), Some("m4")),
        provenance => panic!("unexpected provenance: {provenance:?}"),
    }
    assert_eq!(app.status.as_deref(), Some("message 1 of 4"));
}

#[test]
fn escaping_the_picker_keeps_the_newest_assistant_message() {
    let mut app = open();
    app.pick_key(PickKey::Esc);
    assert_eq!(app.mode, Mode::Browse);
    assert_eq!(app.open.content, "# Current reply\n\nHere is the latest response.\n");
    assert_eq!(app.open.name, "codex · last message");
    assert!(app.open.transient);
    app.reopen_picker();
    assert_eq!(app.mode, Mode::Pick, "p reopens the picker");
}

#[test]
fn opening_nothing_is_refused() {
    let result = App::open_message("codex", "/t", Vec::new(), 60);
    assert!(matches!(result, Err(PickError::NoMessage)));
}

#[test]
fn a_single_candidate_opens_without_the_picker() {
    let only = vec![candidates().remove(0)];
    let mut app = App::open_message("codex", "/t", only, 60).expect("opens");
    assert_eq!(app.mode, Mode::Browse);
    assert_eq!(app.open.content, "Newest request\n\nPlease review this change.\n");
    app.reopen_picker();
    assert_eq!(app.mode, Mode::Browse, "one candidate leaves nothing to choose");
}

#[test]
fn without_an_assistant_the_newest_candidate_opens() {
    let humans: Vec<Message> = candidates().into_iter().filter(|m| m.role == Role::Human).collect();
    let app = App::open_message("codex", "/t", humans, 60).expect("opens");
    assert_eq!(app.open.content, "Newest request\n\nPlease review this change.\n");
}

#[test]
fn the_cursor_stays_on_the_list() {
    let mut app = open();
    app.pick_key(PickKey::Up);
    assert_eq!(app.pick_cursor, 0);
    app.pick_key(PickKey::Char('k'));
    assert_eq!(app.pick_cursor, 0);
    for _ in 0..10 {
        app.pick_key(PickKey::Down);
    }
    assert_eq!(app.pick_cursor, 3);
    app.pick_key(PickKey::Char('j'));
    assert_eq!(app.pick_cursor, 3);
}

#[test]
fn toggling_twice_restores_the_selection() {
    let mut app = open();
    app.toggle_pick(2);
    assert_eq!(app.pick_selected, vec![false, false, true, false]);
    app.toggle_pick(2);
    assert_eq!(app.pick_selected, vec![false; 4]);
    app.status = Some("kept".to_owned());
    app.toggle_pick(9);
    assert_eq!(app.pick_selected, vec![false; 4]);
    assert_eq!(app.status.as_deref(), Some("kept"), "an index past the list changes nothing");
}

#[test]
fn q_quits_and_other_keys_do_nothing() {
    let mut app = open();
    app.pick_key(PickKey::Other);
    app.pick_key(PickKey::Char('x'));
    assert!(!app.quit);
    assert_eq!(app.mode, Mode::Pick);
    app.pick_key(PickKey::Char('q'));
    assert!(app.quit);
}

#[test]
fn entering_clears_the_empty_selection_notice() {
    let mut app = open();
    app.pick_key(PickKey::Enter);
    assert_eq!(app.status.as_deref(), Some(PICK_EMPTY_STATUS));
    app.pick_key(PickKey::Char(' '));
    assert_eq!(app.status, None);
    let frame = app.draw_pick(screen());
    assert_eq!(frame.title, " select one or more messages ");
}

#[test]
fn the_picker_is_centred_inside_its_border() {
    let mut app = open();
    let frame = app.draw_pick(screen());
    assert_eq!(frame.rect, PickRect { x: 2, y: 7, width: 76, height: 6 });
    assert_eq!(frame.inner, PickRect { x: 3, y: 8, width: 74, height: 4 });
    assert_eq!(frame.lines[0].row, PickRect { x: 3, y: 8, width: 74, height: 1 });
    assert_eq!(frame.lines[3].row, PickRect { x: 3, y: 11, width: 74, height: 1 });
    assert_eq!(
        frame.footer,
        " space toggle · enter review · esc newest asst · q quit · 0 selected "
    );
    assert_eq!(frame.lines[0].text, " 12:41  Newest request");
    assert_eq!(frame.lines[0].checkbox, " [ ] ");
    assert_eq!(frame.border_color, PickColor::Cyan);
    assert_eq!(frame.lines[0].checkbox_style, SpanStyle { color: None, reversed: true });
    assert_eq!(frame.lines[0].text_style, SpanStyle { color: None, reversed: true });
    assert_eq!(frame.lines[1].checkbox_style, SpanStyle { color: None, reversed: false });
    assert_eq!(frame.lines[1].label_style, SpanStyle { color: Some(PickColor::Cyan), reversed: false });
}

#[test]
fn a_short_terminal_lists_what_fits() {
    let mut app = open();
    let frame = app.draw_pick(PickRect { x: 0, y: 0, width: 30, height: 5 });
    assert_eq!(frame.rect, PickRect { x: 2, y: 1, width: 26, height: 3 });
    assert_eq!(frame.inner, PickRect { x: 3, y: 2, width: 24, height: 1 });
    assert_eq!(frame.lines.len(), 1);
    assert_eq!(app.pick_rows.len(), 1);
    assert_eq!(frame.lines[0].text, " 12:41  Newest …");
}

#[test]
fn clicks_elsewhere_change_nothing() {
    let mut app = open();
    app.draw_pick(screen());
    app.pick_mouse(PickMouse { left_press: true, column: 0, row: 0 });
    assert_eq!(app.pick_selected, vec![false; 4]);
    let first = app.pick_rows[0].0;
    app.pick_mouse(PickMouse { left_press: false, column: first.x, row: first.y });
    assert_eq!(app.pick_selected, vec![false; 4]);
    app.pick_mouse(PickMouse { left_press: true, column: first.x + first.width - 1, row: first.y });
    assert_eq!(app.pick_selected, vec![true, false, false, false]);
}

#[test]
fn labels_show_time_and_first_line() {
    let c = candidates();
    assert_eq!(pick_label(&c[1]), "12:40  # Current reply");
    let blank = Message {
        id: "x".to_owned(),
        role: Role::Human,
        text: "\n   \n\t  indented first \r\nsecond".to_owned(),
        at: Some("yesterday".to_owned()),
    };
    assert_eq!(pick_label(&blank), "       indented first");
    let empty = Message { id: "y".to_owned(), role: Role::Human, text: " \n ".to_owned(), at: None };
    assert_eq!(pick_label(&empty), "       ");
}

#[test]
fn rows_past_the_end_are_empty() {
    let rows = vec!["a".to_owned(), "b".to_owned()];
    assert_eq!(row(&rows, 1), "b");
    assert_eq!(row(&rows, 2), "");
}

#[test]
fn role_colors() {
    assert_eq!(role_color(Role::Human), PickColor::Yellow);
    assert_eq!(role_color(Role::Assistant), PickColor::Cyan);
}

#[test]
fn role_labels() {
    assert_eq!(role_label(Role::Human), "You");
    assert_eq!(role_label(Role::Assistant), "Assistant");
}

#[test]
fn a_plain_screen_has_nothing_to_pick() {
    let source = DocumentSource::new("# Plan".to_owned(), "plan.md".to_owned(), true, Provenance::Stdin);
    let mut app = App::open(source, 60);
    assert_eq!(app.mode, Mode::Browse);
    app.reopen_picker();
    assert_eq!(app.mode, Mode::Browse);
    assert!(app.candidates.is_empty());
}
