use plannotator_tui::last::{
    failure_notice, last_action, message_heading, message_source, messages_source, newest_assistant,
    print_newest, stdin_source, LastAction, Lookup, PrintOutcome,
};
use plannotator_tui::message::{DocumentSource, Message, Provenance, Role};

fn message(id: &str, role: Role, text: &str) -> Message {
    Message { id: id.to_owned(), role, text: text.to_owned(), at: None }
}

#[test]
fn newest_assistant_skips_newer_human_candidates() {
    let messages = [
        message("u2", Role::Human, "newer prompt"),
        message("a1", Role::Assistant, "newest assistant reply"),
    ];

    assert_eq!(
        newest_assistant(&messages).map(|message| message.text.as_str()),
        Some("newest assistant reply")
    );
}

#[test]
fn messages_source_reverses_selected_candidates_into_a_chronological_review() {
    let messages = [
        message("a2", Role::Assistant, "latest reply"),
        message("u2", Role::Human, "follow-up"),
        message("a1", Role::Assistant, "initial reply"),
        message("u1", Role::Human, "initial prompt"),
    ];

    let source = messages_source("codex", "/tmp/transcript.jsonl", &messages);

    assert_eq!(
        source.content,
        "## You\n\ninitial prompt\n\n## Assistant\n\ninitial reply\n\n## You\n\nfollow-up\n\n## Assistant\n\nlatest reply"
    );
    assert_eq!(source.name, "codex · 4 messages");
    assert!(source.transient);
    assert_eq!(
        source.provenance,
        Provenance::AgentMessage {
            host: "codex".to_owned(),
            session: Some("/tmp/transcript.jsonl".to_owned()),
            message_id: None,
        }
    );
}

#[test]
fn newest_assistant_is_none_without_assistant_messages() {
    let messages = [message("u1", Role::Human, "a"), message("u0", Role::Human, "b")];
    assert!(newest_assistant(&messages).is_none());
    assert!(newest_assistant(&[]).is_none());
}

#[test]
fn newest_assistant_takes_the_first_of_several() {
    let messages = [
        message("a3", Role::Assistant, "third"),
        message("a2", Role::Assistant, "second"),
    ];
    assert_eq!(newest_assistant(&messages).map(|m| m.id.as_str()), Some("a3"));
}

#[test]
fn headings_name_the_role() {
    assert_eq!(message_heading(Role::Human), "## You\n\n");
    assert_eq!(message_heading(Role::Assistant), "## Assistant\n\n");
}

#[test]
fn a_single_message_conversation_has_no_separator() {
    let messages = [message("a1", Role::Assistant, "only")];
    let source = messages_source("codex", "/t", &messages);
    assert_eq!(source.content, "## Assistant\n\nonly");
    assert_eq!(source.name, "codex · 1 messages");
}

#[test]
fn an_empty_selection_makes_an_empty_conversation() {
    let source = messages_source("pi", "/t", &[]);
    assert_eq!(source.content, "");
    assert_eq!(source.name, "pi · 0 messages");
}

#[test]
fn a_conversation_of_twelve_counts_in_decimal() {
    let messages: Vec<Message> =
        (0..12).map(|i| message(&format!("m{i}"), Role::Human, &format!("{i}"))).collect();
    let source = messages_source("droid", "/t", &messages);
    assert_eq!(source.name, "droid · 12 messages");
    assert!(source.content.starts_with("## You\n\n11\n\n## You\n\n10"));
    assert!(source.content.ends_with("## You\n\n0"));
}

#[test]
fn message_source_keeps_the_raw_text_and_names_the_message() {
    let m = message("m7", Role::Assistant, "# Title\n\nbody\n");
    let source = message_source("codex", "/tmp/t.jsonl", &m);
    assert_eq!(
        source,
        DocumentSource {
            content: "# Title\n\nbody\n".to_owned(),
            name: "codex · last message".to_owned(),
            transient: true,
            provenance: Provenance::AgentMessage {
                host: "codex".to_owned(),
                session: Some("/tmp/t.jsonl".to_owned()),
                message_id: Some("m7".to_owned()),
            },
        }
    );
}

#[test]
fn stdin_becomes_a_transient_document() {
    let source = stdin_source("# hi\n\nfrom stdin\n".to_owned());
    assert_eq!(source.content, "# hi\n\nfrom stdin\n");
    assert_eq!(source.name, "stdin · message");
    assert!(source.transient);
    assert_eq!(source.provenance, Provenance::Stdin);
}

#[test]
fn print_writes_the_newest_assistant_reply() {
    let messages = [
        message("u2", Role::Human, "newer prompt"),
        message("a1", Role::Assistant, "assistant reply"),
    ];
    match print_newest("/tmp/t.jsonl", &messages) {
        PrintOutcome::Stdout(text) => assert_eq!(text, "assistant reply"),
        PrintOutcome::Stderr(notice) => panic!("unexpected notice {notice}"),
    }
}

#[test]
fn print_reports_a_human_only_transcript() {
    let messages = [message("u1", Role::Human, "a human prompt")];
    match print_newest("/tmp/t.jsonl", &messages) {
        PrintOutcome::Stderr(notice) => assert_eq!(
            notice,
            "plannotator-tui last: transcript /tmp/t.jsonl has no assistant messages yet"
        ),
        PrintOutcome::Stdout(text) => panic!("unexpected text {text}"),
    }
}

#[test]
fn failure_notices_name_the_command() {
    assert_eq!(failure_notice("no transcript found"), "plannotator-tui last: no transcript found");
}

#[test]
fn stdin_is_echoed_or_opened() {
    assert!(matches!(last_action(true, true, Lookup::NotYet), LastAction::EchoStdin));
    assert!(matches!(last_action(true, false, Lookup::NotYet), LastAction::OpenStdin));
}

#[test]
fn transcripts_are_looked_up_first() {
    assert!(matches!(last_action(false, true, Lookup::NotYet), LastAction::Locate));
    assert!(matches!(last_action(false, false, Lookup::NotYet), LastAction::Locate));
    assert!(matches!(last_action(false, true, Lookup::Found), LastAction::PrintNewest));
    assert!(matches!(last_action(false, false, Lookup::Found), LastAction::OpenMessages));
}

#[test]
fn print_turns_a_failed_lookup_into_a_notice() {
    match last_action(false, true, Lookup::Failed("does-not-exist.jsonl not found".to_owned())) {
        LastAction::Notice(notice) => {
            assert_eq!(notice, "plannotator-tui last: does-not-exist.jsonl not found")
        }
        _ => panic!("expected a notice"),
    }
    assert!(matches!(last_action(false, false, Lookup::Failed("x".to_owned())), LastAction::Fail));
}
