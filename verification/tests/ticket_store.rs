use tickets::ticket::{Ticket, TicketId, TicketPatch, TicketStatus, TicketUpdateError};
use tickets::ticket_store::{PatchError, TicketStore};

fn get_ticket() -> Ticket {
    Ticket::new(
        42.into(),
        "this is a title".try_into().unwrap(),
        "this is a description".try_into().unwrap(),
        "todo".try_into().unwrap(),
    )
}

#[test]
fn test_ticket_insert_get() {
    let store = TicketStore::new();
    let ticket = get_ticket();
    store.insert(ticket.clone());

    assert_eq!(store.get(ticket.id), Some(ticket.clone()));
}

#[test]
fn ticket_store_test_ticket_patch() {
    let store = TicketStore::new();
    let ticket = get_ticket();
    store.insert(ticket.clone());

    let patch = TicketPatch::new(ticket.id, None, None, Some(TicketStatus::Done));
    store.patch(ticket.id, patch).unwrap();

    assert_eq!(store.get(ticket.id).unwrap().status, TicketStatus::Done);
}

#[test]
fn patch_leaves_title_and_description() {
    let store = TicketStore::new();
    store.insert(get_ticket());
    let patch = TicketPatch::new(42.into(), None, None, Some(TicketStatus::Done));
    assert_eq!(store.patch(42.into(), patch), Ok(()));
    let found = store.get(42.into()).unwrap();
    assert_eq!(found.id, TicketId::from(42));
    assert_eq!(found.title.as_str(), "this is a title");
    assert_eq!(found.description.as_str(), "this is a description");
    assert_eq!(found.status, TicketStatus::Done);
}

#[test]
fn empty_store_holds_nothing() {
    let store = TicketStore::new();
    for id in [0u64, 42, u64::MAX] {
        assert_eq!(store.get(id.into()), None);
    }
}

#[test]
fn clones_share_one_registry() {
    let store = TicketStore::new();
    let other = store.clone();
    store.insert(get_ticket());
    assert_eq!(other.get(42.into()), Some(get_ticket()));
    let patch = TicketPatch::new(42.into(), None, None, Some(TicketStatus::InProgress));
    assert_eq!(other.patch(42.into(), patch), Ok(()));
    assert_eq!(
        store.get(42.into()).unwrap().status,
        TicketStatus::InProgress
    );
}

#[test]
fn store_patch_errors() {
    let store = TicketStore::new();
    let patch = TicketPatch::new(42.into(), None, None, Some(TicketStatus::Done));
    assert_eq!(
        store.patch(42.into(), patch.clone()),
        Err(PatchError::NotFound(42.into()))
    );
    assert_eq!(store.get(42.into()), None);
    store.insert(get_ticket());
    let other = TicketPatch::new(7.into(), None, None, Some(TicketStatus::Done));
    assert_eq!(
        store.patch(42.into(), other),
        Err(PatchError::Mismatch(TicketUpdateError {
            original_id: 42.into(),
            patch_id: 7.into()
        }))
    );
    assert_eq!(store.get(42.into()), Some(get_ticket()));
}

#[test]
fn many_handles_insert_into_one_registry() {
    let store = TicketStore::new();
    let handles: Vec<TicketStore> = (0..16).map(|_| store.clone()).collect();
    for (id, handle) in handles.iter().enumerate() {
        let mut ticket = get_ticket();
        ticket.id = (id as u64).into();
        handle.insert(ticket);
    }
    for id in 0..16u64 {
        let mut expected = get_ticket();
        expected.id = id.into();
        assert_eq!(store.get(id.into()), Some(expected));
    }
    assert_eq!(store.get(16.into()), None);
}

#[test]
fn two_handles_patch_one_ticket_in_either_order() {
    for title_first in [true, false] {
        let store = TicketStore::new();
        store.insert(get_ticket());
        let title = TicketPatch::new(
            42.into(),
            Some("another title".try_into().unwrap()),
            None,
            None,
        );
        let status = TicketPatch::new(42.into(), None, None, Some(TicketStatus::Done));
        let (first, second) = if title_first {
            (title, status)
        } else {
            (status, title)
        };
        assert_eq!(store.clone().patch(42.into(), first), Ok(()));
        assert_eq!(store.clone().patch(42.into(), second), Ok(()));
        let found = store.get(42.into()).unwrap();
        assert_eq!(found.title.as_str(), "another title");
        assert_eq!(found.description.as_str(), "this is a description");
        assert_eq!(found.status, TicketStatus::Done);
    }
}
