use tickets::engine::{PatchError, StoreEngine};
use tickets::ticket::{
    Ticket, TicketDescription, TicketId, TicketPatch, TicketStatus, TicketTitle, TicketUpdateError,
};

fn ticket(id: u64, title: &str, description: &str, status: TicketStatus) -> Ticket {
    Ticket::new(
        TicketId::from(id),
        TicketTitle::try_from(title).unwrap(),
        TicketDescription::try_from(description).unwrap(),
        status,
    )
}

#[test]
fn empty_engine_holds_nothing() {
    let engine = StoreEngine::new();
    for id in [0, 1, 42, u64::MAX] {
        assert_eq!(engine.get(TicketId::from(id)), None);
    }
}

#[test]
fn get_after_insert() {
    let mut engine = StoreEngine::new();
    let first = ticket(7, "first", "the first ticket", TicketStatus::ToDo);
    engine.insert(first.clone());
    assert_eq!(engine.get(TicketId::from(7)), Some(first.clone()));
    assert_eq!(engine.get(TicketId::from(8)), None);
    // The copy handed out is no alias of what is held.
    let mut copy = engine.get(TicketId::from(7)).unwrap();
    copy.status = TicketStatus::Done;
    assert_eq!(engine.get(TicketId::from(7)), Some(first));
}

#[test]
fn last_insert_wins() {
    let mut engine = StoreEngine::new();
    engine.insert(ticket(7, "first", "the first ticket", TicketStatus::ToDo));
    let second = ticket(7, "second", "the second ticket", TicketStatus::InProgress);
    engine.insert(second.clone());
    assert_eq!(engine.get(TicketId::from(7)), Some(second));
}

#[test]
fn patch_of_absent_ticket() {
    let mut engine = StoreEngine::new();
    engine.insert(ticket(1, "one", "the one", TicketStatus::ToDo));
    let patch = TicketPatch::new(TicketId::from(2), None, None, Some(TicketStatus::Done));
    assert_eq!(
        engine.patch(TicketId::from(2), patch),
        Err(PatchError::NotFound(TicketId::from(2)))
    );
    assert_eq!(engine.get(TicketId::from(2)), None);
    assert_eq!(
        engine.get(TicketId::from(1)),
        Some(ticket(1, "one", "the one", TicketStatus::ToDo))
    );
}

#[test]
fn patch_with_other_id() {
    let mut engine = StoreEngine::new();
    let held = ticket(1, "one", "the one", TicketStatus::ToDo);
    engine.insert(held.clone());
    let patch = TicketPatch::new(
        TicketId::from(2),
        Some(TicketTitle::try_from("two").unwrap()),
        None,
        Some(TicketStatus::Done),
    );
    assert_eq!(
        engine.patch(TicketId::from(1), patch),
        Err(PatchError::Mismatch(TicketUpdateError {
            original_id: TicketId::from(1),
            patch_id: TicketId::from(2)
        }))
    );
    assert_eq!(engine.get(TicketId::from(1)), Some(held));
    assert_eq!(engine.get(TicketId::from(2)), None);
}

#[test]
fn patch_of_absent_ticket_comes_before_mismatch() {
    let mut engine = StoreEngine::new();
    let patch = TicketPatch::new(TicketId::from(2), None, None, None);
    assert_eq!(
        engine.patch(TicketId::from(1), patch),
        Err(PatchError::NotFound(TicketId::from(1)))
    );
}

#[test]
fn patch_sets_status_only() {
    let mut engine = StoreEngine::new();
    engine.insert(ticket(
        42,
        "this is a title",
        "this is a description",
        TicketStatus::ToDo,
    ));
    let patch = TicketPatch::new(TicketId::from(42), None, None, Some(TicketStatus::Done));
    assert_eq!(engine.patch(TicketId::from(42), patch), Ok(()));
    assert_eq!(
        engine.get(TicketId::from(42)),
        Some(ticket(
            42,
            "this is a title",
            "this is a description",
            TicketStatus::Done
        ))
    );
}

#[test]
fn distinct_inserts_are_all_held() {
    let mut engine = StoreEngine::new();
    let ids = [5u64, 3, 9, 0, u64::MAX, 4];
    for id in ids {
        engine.insert(ticket(id, &format!("title {id}"), "text", TicketStatus::ToDo));
    }
    for id in ids {
        assert_eq!(
            engine.get(TicketId::from(id)),
            Some(ticket(id, &format!("title {id}"), "text", TicketStatus::ToDo))
        );
    }
    assert_eq!(engine.get(TicketId::from(1)), None);
}

#[test]
fn patches_of_different_fields_in_either_order() {
    let title = TicketPatch::new(
        TicketId::from(1),
        Some(TicketTitle::try_from("new title").unwrap()),
        None,
        None,
    );
    let status = TicketPatch::new(TicketId::from(1), None, None, Some(TicketStatus::Done));
    let expected = ticket(1, "new title", "text", TicketStatus::Done);

    let mut engine = StoreEngine::new();
    engine.insert(ticket(1, "old title", "text", TicketStatus::ToDo));
    assert_eq!(engine.patch(TicketId::from(1), title.clone()), Ok(()));
    assert_eq!(engine.patch(TicketId::from(1), status.clone()), Ok(()));
    assert_eq!(engine.get(TicketId::from(1)), Some(expected.clone()));

    let mut engine = StoreEngine::new();
    engine.insert(ticket(1, "old title", "text", TicketStatus::ToDo));
    assert_eq!(engine.patch(TicketId::from(1), status), Ok(()));
    assert_eq!(engine.patch(TicketId::from(1), title), Ok(()));
    assert_eq!(engine.get(TicketId::from(1)), Some(expected));
}

#[test]
fn a_mismatch_becomes_a_patch_error() {
    let mismatch = TicketUpdateError {
        original_id: TicketId::from(1),
        patch_id: TicketId::from(2),
    };
    assert_eq!(PatchError::from(mismatch), PatchError::Mismatch(mismatch));
    let error: PatchError = mismatch.into();
    assert_eq!(error, PatchError::Mismatch(mismatch));
}
