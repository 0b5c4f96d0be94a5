use tickets::ticket::{
    Ticket, TicketDescription, TicketId, TicketParseError, TicketPatch, TicketStatus, TicketTitle,
    TicketUpdateError,
};

fn title(text: &str) -> TicketTitle {
    TicketTitle::try_from(text).unwrap()
}

fn description(text: &str) -> TicketDescription {
    TicketDescription::try_from(text).unwrap()
}

#[test]
fn test_ticket_status() {
    assert_eq!(TicketStatus::try_from("todo").unwrap(), TicketStatus::ToDo);
    assert_eq!(
        TicketStatus::try_from("inprogress").unwrap(),
        TicketStatus::InProgress
    );
    assert_eq!(TicketStatus::try_from("done").unwrap(), TicketStatus::Done);
    assert_eq!(
        TicketStatus::try_from("invalid").unwrap_err(),
        TicketParseError::StatusParseError("invalid".to_string())
    );
}

#[test]
fn test_ticket_title() {
    assert_eq!(
        TicketTitle::try_from("valid title").unwrap().as_str(),
        "valid title"
    );
    assert_eq!(
        TicketTitle::try_from("").unwrap_err(),
        TicketParseError::TitleEmptyError("".to_string())
    );
    assert_eq!(
        TicketTitle::try_from("a".repeat(51).as_str()).unwrap_err(),
        TicketParseError::TitleTooLongError("a".repeat(51))
    );
}

#[test]
fn test_ticket_description() {
    assert_eq!(
        TicketDescription::try_from("valid description")
            .unwrap()
            .as_str(),
        "valid description"
    );
    assert_eq!(
        TicketDescription::try_from("").unwrap_err(),
        TicketParseError::DebugEmptyError("".to_string())
    );
    assert_eq!(
        TicketDescription::try_from("a".repeat(501).as_str()).unwrap_err(),
        TicketParseError::DebugTooLongError("a".repeat(501))
    );
}

#[test]
fn test_ticket_id() {
    assert_eq!(TicketId::from(1).value(), 1);
    assert_eq!(TicketId::from(0).value(), 0);
    assert_eq!(TicketId::from(u64::MAX).value(), u64::MAX);
    assert_eq!(TicketId::try_from(42).unwrap().value(), 42);
}

#[test]
fn ticket_test_ticket_patch() {
    let patch = TicketPatch {
        id: TicketId::from(1),
        title: Some(title("Updated Title")),
        description: None,
        status: Some(TicketStatus::InProgress),
    };
    assert_eq!(patch.id, TicketId::from(1));
    assert_eq!(patch.title.unwrap(), title("Updated Title"));
    assert_eq!(patch.status.unwrap(), TicketStatus::InProgress);
}

#[test]
fn test_update_ticket() {
    let mut ticket = Ticket {
        title: title("Original Title"),
        description: description("Original Description"),
        id: TicketId::from(1),
        status: TicketStatus::ToDo,
    };
    let patch = TicketPatch {
        id: TicketId::from(1),
        title: Some(title("Updated Title")),
        description: None,
        status: Some(TicketStatus::InProgress),
    };
    ticket.update(patch).unwrap();
    assert_eq!(ticket.title, title("Updated Title"));
    assert_eq!(ticket.status, TicketStatus::InProgress);
}

#[test]
fn test_update_ticket_id_mismatch() {
    let mut ticket = Ticket {
        title: title("Original Title"),
        description: description("Original Description"),
        id: TicketId::from(1),
        status: TicketStatus::ToDo,
    };
    let patch = TicketPatch {
        id: TicketId::from(2),
        title: Some(title("Updated Title")),
        description: None,
        status: Some(TicketStatus::InProgress),
    };
    let result = ticket.update(patch);
    assert!(result.is_err());
    assert_eq!(
        result.unwrap_err(),
        TicketUpdateError {
            original_id: TicketId::from(1),
            patch_id: TicketId::from(2)
        }
    );
}

#[test]
fn update_with_other_id_changes_nothing() {
    let mut ticket = Ticket::new(
        TicketId::from(1),
        title("Original Title"),
        description("Original Description"),
        TicketStatus::ToDo,
    );
    let before = ticket.clone();
    let patch = TicketPatch::new(
        TicketId::from(2),
        Some(title("Updated Title")),
        Some(description("Updated Description")),
        Some(TicketStatus::Done),
    );
    assert!(ticket.update(patch).is_err());
    assert_eq!(ticket, before);
}

#[test]
fn update_keeps_fields_the_patch_leaves_out() {
    let mut ticket = Ticket::new(
        TicketId::from(9),
        title("Original Title"),
        description("Original Description"),
        TicketStatus::ToDo,
    );
    let patch = TicketPatch::new(TicketId::from(9), None, Some(description("New")), None);
    assert_eq!(ticket.update(patch), Ok(()));
    assert_eq!(ticket.id, TicketId::from(9));
    assert_eq!(ticket.title.as_str(), "Original Title");
    assert_eq!(ticket.description.as_str(), "New");
    assert_eq!(ticket.status, TicketStatus::ToDo);
}

#[test]
fn title_round_trip() {
    for text in ["a", "valid title", "ünïcödé", "x y z"] {
        assert_eq!(TicketTitle::try_from(text).unwrap().as_str(), text);
        assert_eq!(
            TicketTitle::try_from(text.to_string()).unwrap().as_str(),
            text
        );
        assert_eq!(TicketDescription::try_from(text).unwrap().as_str(), text);
        assert_eq!(
            TicketDescription::try_from(text.to_string())
                .unwrap()
                .as_str(),
            text
        );
    }
}

#[test]
fn title_length_bounds() {
    assert!(TicketTitle::try_from("a".repeat(50).as_str()).is_ok());
    assert_eq!(
        TicketTitle::try_from("a".repeat(51)).unwrap_err(),
        TicketParseError::TitleTooLongError("a".repeat(51))
    );
    assert_eq!(
        TicketTitle::try_from(String::new()).unwrap_err(),
        TicketParseError::TitleEmptyError(String::new())
    );
    // 25 characters of two bytes each are 50 bytes; one more byte is too many.
    assert!(TicketTitle::try_from("é".repeat(25).as_str()).is_ok());
    let too_long = format!("{}a", "é".repeat(25));
    assert_eq!(
        TicketTitle::try_from(too_long.as_str()).unwrap_err(),
        TicketParseError::TitleTooLongError(too_long.clone())
    );
}

#[test]
fn description_length_bounds() {
    assert!(TicketDescription::try_from("a".repeat(500).as_str()).is_ok());
    assert_eq!(
        TicketDescription::try_from("a".repeat(501)).unwrap_err(),
        TicketParseError::DebugTooLongError("a".repeat(501))
    );
    assert_eq!(
        TicketDescription::try_from(String::new()).unwrap_err(),
        TicketParseError::DebugEmptyError(String::new())
    );
    assert!(TicketDescription::try_from("é".repeat(250).as_str()).is_ok());
    assert!(TicketDescription::try_from(format!("{}a", "é".repeat(250))).is_err());
}

#[test]
fn status_in_any_letter_case() {
    for raw in ["todo", "TODO", "ToDo", "tOdO"] {
        assert_eq!(TicketStatus::try_from(raw), Ok(TicketStatus::ToDo));
    }
    for raw in ["inprogress", "InProgress", "INPROGRESS"] {
        assert_eq!(TicketStatus::try_from(raw), Ok(TicketStatus::InProgress));
        assert_eq!(
            TicketStatus::try_from(raw.to_string()),
            Ok(TicketStatus::InProgress)
        );
    }
    for raw in ["done", "Done", "DONE", "dOnE"] {
        assert_eq!(TicketStatus::try_from(raw), Ok(TicketStatus::Done));
    }
}

#[test]
fn status_rejects_everything_else() {
    for raw in [
        "", "to do", "todo ", " todo", "in progress", "in_progress", "don", "donee", "tod0",
        "t\u{00f6}do", "DON\u{0404}", "\u{212a}", "todoinprogress",
    ] {
        assert_eq!(
            TicketStatus::try_from(raw),
            Err(TicketParseError::StatusParseError(raw.to_string()))
        );
        assert_eq!(
            TicketStatus::try_from(raw.to_string()),
            Err(TicketParseError::StatusParseError(raw.to_string()))
        );
    }
}

#[test]
fn new_keeps_its_parts() {
    let ticket = Ticket::new(
        TicketId::from(42),
        title("this is a title"),
        description("this is a description"),
        TicketStatus::try_from("todo").unwrap(),
    );
    assert_eq!(ticket.id.value(), 42);
    assert_eq!(ticket.title.as_str(), "this is a title");
    assert_eq!(ticket.description.as_str(), "this is a description");
    assert_eq!(ticket.status, TicketStatus::ToDo);
    let patch = TicketPatch::new(TicketId::from(42), None, None, Some(TicketStatus::Done));
    assert_eq!(patch.id.value(), 42);
    assert_eq!(patch.title, None);
    assert_eq!(patch.description, None);
    assert_eq!(patch.status, Some(TicketStatus::Done));
    assert_eq!(patch.clone(), patch);
}
