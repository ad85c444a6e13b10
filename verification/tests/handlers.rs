use ticket_service::data::Status;
use ticket_service::error::{
    AppError, TicketDescriptionError, TicketPatchError, TicketTitleError,
};
use ticket_service::server::{create, get, parse_ticket_id, patch, StoreHandle};
use ticket_service::store::TicketId;

fn ready_handle() -> StoreHandle {
    let mut handle = StoreHandle::new();
    handle.init();
    handle
}

#[test]
fn handlers_fail_before_initialization() {
    let mut handle = StoreHandle::new();
    assert!(!handle.is_initialized());
    assert_eq!(
        get(&handle, 0),
        Err(AppError::TicketStoreNotInitialized)
    );
    assert_eq!(
        create(&mut handle, "T".to_string(), "D".to_string()),
        Err(AppError::TicketStoreNotInitialized)
    );
    assert_eq!(
        patch(&mut handle, 0, None, None, Some("Done".to_string())),
        Err(AppError::TicketStoreNotInitialized)
    );
}

#[test]
fn init_is_idempotent() {
    let mut handle = StoreHandle::new();
    handle.init();
    let id = create(&mut handle, "T".to_string(), "D".to_string()).unwrap();
    handle.init();
    let t = get(&handle, id.0).unwrap();
    assert_eq!(t.title.as_str(), "T");
    let id2 = create(&mut handle, "U".to_string(), "E".to_string()).unwrap();
    assert_eq!(id2, TicketId(1));
}

#[test]
fn create_validates_title_then_description() {
    let mut handle = ready_handle();
    assert_eq!(
        create(&mut handle, String::new(), "D".to_string()),
        Err(AppError::TicketTitleError(TicketTitleError::Empty))
    );
    assert_eq!(
        create(&mut handle, "a".repeat(51), "D".to_string()),
        Err(AppError::TicketTitleError(TicketTitleError::TooLong(50)))
    );
    assert_eq!(
        create(&mut handle, "T".to_string(), String::new()),
        Err(AppError::TicketDescriptionError(TicketDescriptionError::Empty))
    );
    assert_eq!(
        create(&mut handle, "T".to_string(), "d".repeat(301)),
        Err(AppError::TicketDescriptionError(TicketDescriptionError::TooLong(300)))
    );
    assert_eq!(
        create(&mut handle, String::new(), String::new()),
        Err(AppError::TicketTitleError(TicketTitleError::Empty))
    );
    assert!(get(&handle, 0).is_err());
}

#[test]
fn fetch_unknown_id_is_not_found() {
    let mut handle = ready_handle();
    assert_eq!(get(&handle, 0), Err(AppError::NotTicket));
    let id = create(&mut handle, "T".to_string(), "D".to_string()).unwrap();
    assert!(get(&handle, id.0).is_ok());
    assert_eq!(get(&handle, 1), Err(AppError::NotTicket));
    assert_eq!(get(&handle, u64::MAX), Err(AppError::NotTicket));
}

#[test]
fn empty_patch_is_rejected_and_changes_nothing() {
    let mut handle = ready_handle();
    let id = create(&mut handle, "T".to_string(), "D".to_string()).unwrap();
    assert_eq!(
        patch(&mut handle, id.0, None, None, None),
        Err(AppError::TicketPatchError(TicketPatchError::MustContainOneField))
    );
    let t = get(&handle, id.0).unwrap();
    assert_eq!(t.title.as_str(), "T");
    assert_eq!(t.description.as_str(), "D");
    assert_eq!(t.status, Status::ToDo);
}

#[test]
fn status_only_patch_keeps_title_and_description() {
    let mut handle = ready_handle();
    let id = create(&mut handle, "A title".to_string(), "A description".to_string()).unwrap();
    let after = patch(&mut handle, id.0, None, None, Some("inProgress".to_string())).unwrap();
    assert_eq!(after.title.as_str(), "A title");
    assert_eq!(after.description.as_str(), "A description");
    assert_eq!(after.status, Status::InProgress);
    let fetched = get(&handle, id.0).unwrap();
    assert_eq!(fetched.status, Status::InProgress);
    assert_eq!(fetched.title.as_str(), "A title");
}

#[test]
fn patch_validates_fields_in_order() {
    let mut handle = ready_handle();
    let id = create(&mut handle, "T".to_string(), "D".to_string()).unwrap();
    assert_eq!(
        patch(&mut handle, id.0, Some(String::new()), None, None),
        Err(AppError::TicketTitleError(TicketTitleError::Empty))
    );
    assert_eq!(
        patch(&mut handle, id.0, Some("a".repeat(51)), Some(String::new()), None),
        Err(AppError::TicketTitleError(TicketTitleError::TooLong(50)))
    );
    assert_eq!(
        patch(&mut handle, id.0, Some("ok".to_string()), Some("d".repeat(301)), None),
        Err(AppError::TicketDescriptionError(TicketDescriptionError::TooLong(300)))
    );
    assert_eq!(
        patch(&mut handle, id.0, None, None, Some("Blocked".to_string())),
        Err(AppError::InvalidTicketStatus("Blocked".to_string()))
    );
    // every rejection left the ticket untouched
    let t = get(&handle, id.0).unwrap();
    assert_eq!(t.title.as_str(), "T");
    assert_eq!(t.description.as_str(), "D");
    assert_eq!(t.status, Status::ToDo);
}

#[test]
fn patch_unknown_id_is_not_found() {
    let mut handle = ready_handle();
    assert_eq!(
        patch(&mut handle, 9, None, None, Some("Done".to_string())),
        Err(AppError::NotTicket)
    );
}

#[test]
fn sequential_patches_do_not_mix() {
    let mut handle = ready_handle();
    let id = create(&mut handle, "base title".to_string(), "base description".to_string())
        .unwrap();
    // first patch: title and status
    patch(
        &mut handle,
        id.0,
        Some("first title".to_string()),
        None,
        Some("InProgress".to_string()),
    )
    .unwrap();
    // second patch: description and status
    let after = patch(
        &mut handle,
        id.0,
        None,
        Some("second description".to_string()),
        Some("Done".to_string()),
    )
    .unwrap();
    // the outcome is the clean composition: later fields win whole,
    // untouched fields keep the earlier patch's value
    assert_eq!(after.title.as_str(), "first title");
    assert_eq!(after.description.as_str(), "second description");
    assert_eq!(after.status, Status::Done);
}

#[test]
fn ticket_id_segment_parses_or_fails() {
    assert_eq!(parse_ticket_id("0"), Ok(0));
    assert_eq!(parse_ticket_id("42"), Ok(42));
    assert_eq!(parse_ticket_id("abc"), Err(AppError::InvalidTicketId));
    assert_eq!(parse_ticket_id(""), Err(AppError::InvalidTicketId));
    assert_eq!(parse_ticket_id("-1"), Err(AppError::InvalidTicketId));
    assert_eq!(parse_ticket_id("1.5"), Err(AppError::InvalidTicketId));
}

#[test]
fn handle_is_not_exhausted_in_practice() {
    let mut handle = ready_handle();
    assert!(!handle.exhausted());
    create(&mut handle, "T".to_string(), "D".to_string()).unwrap();
    assert!(!handle.exhausted());
}
