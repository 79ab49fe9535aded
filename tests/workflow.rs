use chrono::Datelike;
use accounting::bridge::ProtonMailBridgeBuilder;
use accounting::calendar::CalendarDate;
use accounting::outgoing::{compose_message, message_plan, outgoing_parts, ComposeError};
use accounting::statements::Attachment;
use accounting::workflow::{is_affirmative, Event, Mailbox, Outcome, Stage, Step, Workflow};

fn statement(name: &str, body: &[u8]) -> Attachment {
    Attachment {
        mime: "application/pdf".to_string(),
        filename: Some(name.to_string()),
        body: body.to_vec(),
    }
}

fn today() -> CalendarDate {
    CalendarDate { year: 2026, month: 10, day: 19 }
}

/// Runs both searches: the inbox gives `inbox`, the trash nothing.
fn searched(inbox: Vec<Vec<Attachment>>) -> (Workflow, Option<Step>) {
    let (mut w, step) = Workflow::start(&today());
    assert!(matches!(step, Step::Search(Mailbox::Inbox)));
    let ids: Vec<u32> = (1..=inbox.len() as u32).collect();
    let step = w.advance(Event::Matched(ids.clone()));
    match step {
        Some(Step::Fetch(Mailbox::Inbox, asked)) => assert_eq!(asked, ids),
        other => panic!("expected a fetch, got {:?}", other),
    }
    let step = w.advance(Event::Fetched(inbox));
    assert!(matches!(step, Some(Step::Search(Mailbox::Trash))));
    let step = w.advance(Event::Matched(Vec::new()));
    (w, step)
}

fn two_statements() -> Vec<Vec<Attachment>> {
    vec![
        vec![statement("mBiznes_a.pdf", b"first"), statement("other.pdf", b"x")],
        vec![statement("mBiznes_b.pdf", b"second")],
    ]
}

#[test]
fn search_without_matches_fetches_nothing() {
    let (mut w, _) = Workflow::start(&today());
    let step = w.advance(Event::Matched(Vec::new()));
    assert!(matches!(step, Some(Step::Search(Mailbox::Trash))));
    assert_eq!(w.stage, Stage::Searching(1));
}

#[test]
fn nothing_found_ends_without_prompt() {
    let (mut w, _) = Workflow::start(&today());
    assert!(matches!(w.advance(Event::Matched(Vec::new())), Some(Step::Search(Mailbox::Trash))));
    let step = w.advance(Event::Matched(Vec::new()));
    assert!(matches!(step, Some(Step::Finish(Outcome::NothingToDo))));
    assert_eq!(w.stage, Stage::Done(Outcome::NothingToDo));
    assert!(w.advance(Event::Answered("y".to_string())).is_none());
}

#[test]
fn matches_without_statements_end_without_prompt() {
    let (w, step) = searched(vec![vec![statement("other.pdf", b"x")], Vec::new()]);
    assert!(matches!(step, Some(Step::Finish(Outcome::NothingToDo))));
    assert!(w.found.is_empty());
}

#[test]
fn two_inbox_statements_are_sent_after_yes() {
    let (mut w, step) = searched(two_statements());
    assert!(matches!(step, Some(Step::Confirm)));
    let names: Vec<&str> = w.found.iter().map(|a| a.filename.as_deref().unwrap()).collect();
    assert_eq!(names, vec!["mBiznes_a.pdf", "mBiznes_b.pdf"]);
    let step = w.advance(Event::Answered("y\n".to_string()));
    let sent = match step {
        Some(Step::Send(sent)) => sent,
        other => panic!("expected a send, got {:?}", other),
    };
    assert_eq!(sent, vec![statement("mBiznes_a.pdf", b"first"), statement("mBiznes_b.pdf", b"second")]);
    assert_eq!(w.stage, Stage::Sending);
    assert!(matches!(w.advance(Event::Delivered), Some(Step::Finish(Outcome::Sent))));
    assert!(w.advance(Event::Answered("y".to_string())).is_none());
    assert!(w.advance(Event::Delivered).is_none());
}

#[test]
fn declining_never_sends() {
    for answer in ["n", "", "no", "\n", "N", " y", "ok"] {
        let (mut w, _) = searched(two_statements());
        let step = w.advance(Event::Answered(answer.to_string()));
        assert!(matches!(step, Some(Step::Finish(Outcome::Declined))), "answer {:?}", answer);
        assert_eq!(w.found.len(), 2);
        assert!(w.advance(Event::Delivered).is_none());
    }
}

#[test]
fn accepting_sends_once() {
    for answer in ["y", "Y", "yes", "Yes\n", "YES"] {
        let (mut w, _) = searched(two_statements());
        match w.advance(Event::Answered(answer.to_string())) {
            Some(Step::Send(sent)) => assert_eq!(sent.len(), 2, "answer {:?}", answer),
            other => panic!("answer {:?} gave {:?}", answer, other),
        }
        assert!(w.advance(Event::Answered(answer.to_string())).is_none());
    }
}

#[test]
fn affirmative_answers() {
    assert!(is_affirmative("y"));
    assert!(is_affirmative("Yes please"));
    assert!(!is_affirmative(""));
    assert!(!is_affirmative("no"));
    assert!(!is_affirmative("ÿ"));
}

#[test]
fn unexpected_event_changes_nothing() {
    let (mut w, _) = Workflow::start(&today());
    assert!(w.advance(Event::Delivered).is_none());
    assert!(w.advance(Event::Fetched(Vec::new())).is_none());
    assert_eq!(w.stage, Stage::Searching(0));
    assert_eq!(
        w.query,
        "FROM kontakt@mbank.pl SUBJECT \"elektroniczne zestawienie operacji za\" SINCE 01-Oct-2026"
    );
}

#[test]
fn parts_keep_type_name_and_content() {
    let list = vec![
        Attachment { mime: "application/pdf".to_string(), filename: Some("mBiznes_a.pdf".to_string()), body: b"A".to_vec() },
        Attachment { mime: "text/csv".to_string(), filename: Some("mBiznes_b.csv".to_string()), body: b"B".to_vec() },
    ];
    let parts = outgoing_parts(list).unwrap();
    assert_eq!(parts.len(), 2);
    assert_eq!(parts[0].content_type, "application/pdf");
    assert_eq!(parts[0].filename, "mBiznes_a.pdf");
    assert_eq!(parts[0].body, b"A".to_vec());
    assert_eq!(parts[1].content_type, "text/csv");
    assert_eq!(parts[1].filename, "mBiznes_b.csv");
}

#[test]
fn nameless_attachment_fails_the_whole_message() {
    let list = vec![
        statement("mBiznes_a.pdf", b"A"),
        Attachment { mime: "application/pdf".to_string(), filename: None, body: b"B".to_vec() },
    ];
    assert_eq!(outgoing_parts(list.clone()), Err(ComposeError::MissingFilename));
    assert_eq!(compose_message("me@example.com", "books@example.com", list), Err(ComposeError::MissingFilename));
}

#[test]
fn message_carries_names_and_types() {
    let list = vec![
        statement("mBiznes_a.pdf", b"first"),
        Attachment { mime: "text/csv".to_string(), filename: Some("mBiznes_b.csv".to_string()), body: b"second".to_vec() },
    ];
    let bytes = compose_message("me@example.com", "books@example.com", list).unwrap();
    let text = String::from_utf8_lossy(&bytes);
    assert!(text.contains("me@example.com"));
    assert!(text.contains("books@example.com"));
    assert!(text.contains("mBiznes_a.pdf"));
    assert!(text.contains("mBiznes_b.csv"));
    assert!(text.contains("application/pdf"));
    assert!(text.contains("text/csv"));
    assert!(text.contains("Subject:"));
}

#[test]
fn builder_keeps_settings() {
    let b = ProtonMailBridgeBuilder::new("127.0.0.1".to_string(), 1143, 1025, "me".to_string(), "pw".to_string());
    assert_eq!(b.host, "127.0.0.1");
    assert_eq!(b.imap_port, 1143);
    assert_eq!(b.smtp_port, 1025);
    assert_eq!(b.user, "me");
    assert_eq!(b.password, "pw");
}

#[test]
fn run_of_this_month_searches_since_its_first_day() {
    let (w, step) = Workflow::start_this_month().unwrap();
    assert!(matches!(step, Step::Search(Mailbox::Inbox)));
    let first = chrono::Utc::now().with_day(1).unwrap();
    let expected = format!(
        "FROM kontakt@mbank.pl SUBJECT \"elektroniczne zestawienie operacji za\" SINCE {}",
        first.format("%d-%b-%Y")
    );
    assert_eq!(w.query, expected);
}

#[test]
fn plan_names_sender_recipient_subject_and_parts() {
    let list = vec![statement("mBiznes_1.pdf", b"one"), statement("mBiznes_2.pdf", b"two")];
    let plan = message_plan("me@example.com", "books@example.com", list).unwrap();
    assert_eq!(plan.from, "me@example.com");
    assert_eq!(plan.to, "books@example.com");
    assert_eq!(plan.subject, "Wyciągi");
    assert_eq!(plan.parts.len(), 2);
    assert_eq!(plan.parts[0].filename, "mBiznes_1.pdf");
    assert_eq!(plan.parts[0].content_type, "application/pdf");
    assert_eq!(plan.parts[0].body, b"one".to_vec());
    assert_eq!(plan.parts[1].filename, "mBiznes_2.pdf");
    assert_eq!(plan.parts[1].body, b"two".to_vec());
}

#[test]
fn two_named_statements_make_one_message() {
    let list = vec![statement("mBiznes_1.pdf", b"one"), statement("mBiznes_2.pdf", b"two")];
    let bytes = compose_message("me@example.com", "books@example.com", list).unwrap();
    let text = String::from_utf8_lossy(&bytes);
    let first = text.find("mBiznes_1.pdf").unwrap();
    let second = text.find("mBiznes_2.pdf").unwrap();
    assert!(first < second);
    assert_eq!(text.matches("Content-Disposition: attachment").count(), 2);
    assert!(text.contains("multipart/mixed"));
}

#[test]
fn nameless_attachment_fails_the_plan() {
    let list = vec![Attachment { mime: "application/pdf".to_string(), filename: None, body: Vec::new() }];
    assert_eq!(message_plan("a@b", "c@d", list), Err(ComposeError::MissingFilename));
}
