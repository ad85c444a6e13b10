use ticket_service::data::{
    validate_ticket, validate_ticket_draft, validate_ticket_patch, Status, Ticket,
    TicketDescription, TicketDraft, TicketPatch, TicketTitle,
};
use ticket_service::error::{
    TicketDescriptionError, TicketPatchError, TicketStatusError, TicketTitleError,
};
use ticket_service::store::TicketId;

#[test]
fn title_bounds() {
    assert!(TicketTitle::new("a".to_string()).is_ok());
    assert!(TicketTitle::new("a".repeat(50)).is_ok());
    assert_eq!(TicketTitle::new(String::new()), Err(TicketTitleError::Empty));
    assert_eq!(TicketTitle::new("a".repeat(51)), Err(TicketTitleError::TooLong(50)));
}

#[test]
fn description_bounds() {
    assert!(TicketDescription::new("d".to_string()).is_ok());
    assert!(TicketDescription::new("d".repeat(300)).is_ok());
    assert_eq!(TicketDescription::new(String::new()), Err(TicketDescriptionError::Empty));
    assert_eq!(TicketDescription::new("d".repeat(301)), Err(TicketDescriptionError::TooLong(300)));
}

#[test]
fn status_parse_case_insensitive() {
    assert_eq!(Status::parse("ToDo"), Ok(Status::ToDo));
    assert_eq!(Status::parse("todo"), Ok(Status::ToDo));
    assert_eq!(Status::parse("TODO"), Ok(Status::ToDo));
    assert_eq!(Status::parse("InProgress"), Ok(Status::InProgress));
    assert_eq!(Status::parse("inprogress"), Ok(Status::InProgress));
    assert_eq!(Status::parse("INPROGRESS"), Ok(Status::InProgress));
    assert_eq!(Status::parse("Done"), Ok(Status::Done));
    assert_eq!(Status::parse("dOnE"), Ok(Status::Done));
}

#[test]
fn status_parse_rejects_unknown() {
    assert_eq!(
        Status::parse("Blocked"),
        Err(TicketStatusError::Invalid("Blocked".to_string()))
    );
    assert_eq!(Status::parse(""), Err(TicketStatusError::Invalid(String::new())));
    assert_eq!(
        Status::parse("To Do"),
        Err(TicketStatusError::Invalid("To Do".to_string()))
    );
    assert_eq!(
        Status::parse("todoo"),
        Err(TicketStatusError::Invalid("todoo".to_string()))
    );
}

#[test]
fn patch_needs_one_field() {
    assert_eq!(
        TicketPatch::new(None, None, None),
        Err(TicketPatchError::MustContainOneField)
    );
    let p = TicketPatch::new(None, None, Some(Status::Done)).unwrap();
    assert_eq!(p.status, Some(Status::Done));
    assert!(p.title.is_none());
    assert!(p.description.is_none());
}

#[test]
fn validators_accept_valid_values() {
    let title = TicketTitle::new("A title".to_string()).unwrap();
    let description = TicketDescription::new("A description".to_string()).unwrap();
    let draft = TicketDraft { title: title.clone(), description: description.clone() };
    assert!(validate_ticket_draft(&draft).is_ok());
    let ticket = Ticket {
        id: TicketId(0),
        title,
        description,
        status: Status::ToDo,
    };
    assert!(validate_ticket(&ticket).is_ok());
    let patch = TicketPatch {
        title: Some(TicketTitle::new("New title".to_string()).unwrap()),
        description: None,
        status: None,
    };
    assert!(validate_ticket_patch(&patch).is_ok());
}
