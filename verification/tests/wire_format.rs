use ticket_service::data::Status;
use ticket_service::error::{
    AppError, TicketDescriptionError, TicketPatchError, TicketStatusError, TicketTitleError,
};
use ticket_service::server::{create, get, patch, StoreHandle};
use ticket_service::store::TicketId;
use ticket_service::wire::{
    created_body, error_body, json_escape, parse_u64, status_token, ticket_body, u64_to_decimal,
};

#[test]
fn decimal_rendering() {
    assert_eq!(u64_to_decimal(0), "0");
    assert_eq!(u64_to_decimal(7), "7");
    assert_eq!(u64_to_decimal(10), "10");
    assert_eq!(u64_to_decimal(305), "305");
    assert_eq!(u64_to_decimal(u64::MAX), "18446744073709551615");
}

#[test]
fn decimal_parsing() {
    assert_eq!(parse_u64("0"), Some(0));
    assert_eq!(parse_u64("42"), Some(42));
    assert_eq!(parse_u64("007"), Some(7));
    assert_eq!(parse_u64("+7"), Some(7));
    assert_eq!(parse_u64("18446744073709551615"), Some(u64::MAX));
    assert_eq!(parse_u64("18446744073709551616"), None);
    assert_eq!(parse_u64("99999999999999999999999"), None);
    assert_eq!(parse_u64(""), None);
    assert_eq!(parse_u64("+"), None);
    assert_eq!(parse_u64("-1"), None);
    assert_eq!(parse_u64("1a"), None);
    assert_eq!(parse_u64(" 1"), None);
}

#[test]
fn decimal_round_trip() {
    for n in [0u64, 1, 9, 10, 99, 12345, u64::MAX] {
        assert_eq!(parse_u64(u64_to_decimal(n).as_str()), Some(n));
    }
}

#[test]
fn json_escaping() {
    assert_eq!(json_escape("plain text"), "plain text");
    assert_eq!(json_escape("say \"hi\""), "say \\\"hi\\\"");
    assert_eq!(json_escape("back\\slash"), "back\\\\slash");
    assert_eq!(json_escape("line\nbreak"), "line\\nbreak");
    assert_eq!(json_escape("tab\there"), "tab\\there");
    assert_eq!(json_escape("\r\u{8}\u{c}"), "\\r\\b\\f");
    assert_eq!(json_escape("\u{1}\u{1f}"), "\\u0001\\u001f");
    assert_eq!(json_escape("unicode ok: é"), "unicode ok: é");
}

#[test]
fn status_tokens_are_canonical() {
    assert_eq!(status_token(&Status::ToDo), "ToDo");
    assert_eq!(status_token(&Status::InProgress), "InProgress");
    assert_eq!(status_token(&Status::Done), "Done");
}

#[test]
fn error_messages_are_stable() {
    assert_eq!(
        AppError::TicketTitleError(TicketTitleError::Empty).message(),
        "Ticket title error: The title cannot be empty"
    );
    assert_eq!(
        AppError::TicketTitleError(TicketTitleError::TooLong(50)).message(),
        "Ticket title error: The title cannot be longer than 50 characters"
    );
    assert_eq!(
        AppError::TicketDescriptionError(TicketDescriptionError::Empty).message(),
        "Ticket description error: The description cannot be empty"
    );
    assert_eq!(
        AppError::TicketDescriptionError(TicketDescriptionError::TooLong(300)).message(),
        "Ticket description error: The description cannot be longer than 300 characters"
    );
    assert_eq!(
        AppError::InvalidTicketStatus("Blocked".to_string()).message(),
        "Invalid ticket status: Blocked"
    );
    assert_eq!(
        TicketStatusError::Invalid("Blocked".to_string()).message(),
        "Invalid ticket status: Blocked"
    );
    assert_eq!(
        AppError::TicketPatchError(TicketPatchError::MustContainOneField).message(),
        "At least one field must be present"
    );
    assert_eq!(
        AppError::JsonParseError("bad body".to_string()).message(),
        "Failed to parse JSON: bad body"
    );
    assert_eq!(AppError::SerializationError.message(), "Failed to serialize response");
    assert_eq!(
        AppError::TicketStoreNotInitialized.message(),
        "Ticket store not initialized"
    );
    assert_eq!(AppError::NotTicket.message(), "Ticket not found");
    assert_eq!(AppError::InvalidTicketId.message(), "Invalid ticket ID");
}

#[test]
fn error_envelope_shape() {
    assert_eq!(
        error_body(&AppError::NotTicket),
        "{\"error\":\"Ticket not found\"}"
    );
    assert_eq!(
        error_body(&AppError::InvalidTicketStatus("a\"b".to_string())),
        "{\"error\":\"Invalid ticket status: a\\\"b\"}"
    );
}

#[test]
fn end_to_end_scenario() {
    let mut handle = StoreHandle::new();
    handle.init();

    // POST {"title":"Test Title","description":"Test Description"}
    let id = create(
        &mut handle,
        "Test Title".to_string(),
        "Test Description".to_string(),
    )
    .unwrap();
    assert_eq!(created_body(id), "{\"id\":0}");

    // GET /api/ticket/0
    let fetched = get(&handle, 0).unwrap();
    assert_eq!(
        ticket_body(&fetched),
        "{\"id\":0,\"title\":\"Test Title\",\"description\":\"Test Description\",\"status\":\"ToDo\"}"
    );

    // PATCH {"status":"InProgress"}
    let patched = patch(&mut handle, 0, None, None, Some("InProgress".to_string())).unwrap();
    assert_eq!(patched.status, Status::InProgress);
    assert_eq!(patched.title.as_str(), "Test Title");
    assert_eq!(patched.description.as_str(), "Test Description");
    assert_eq!(
        ticket_body(&patched),
        "{\"id\":0,\"title\":\"Test Title\",\"description\":\"Test Description\",\"status\":\"InProgress\"}"
    );

    // PATCH with an overlong title fails with the stable message and
    // leaves the ticket unchanged
    let err = patch(&mut handle, 0, Some("x".repeat(51)), None, None).unwrap_err();
    assert_eq!(
        error_body(&err),
        "{\"error\":\"Ticket title error: The title cannot be longer than 50 characters\"}"
    );
    let unchanged = get(&handle, 0).unwrap();
    assert_eq!(unchanged.title.as_str(), "Test Title");
    assert_eq!(unchanged.status, Status::InProgress);
}

#[test]
fn created_body_renders_large_ids() {
    assert_eq!(created_body(TicketId(9007199254740993)), "{\"id\":9007199254740993}");
}
