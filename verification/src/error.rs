//! The error taxonomy of the service.
//!
//! Validation failures, lookup failures and startup faults are all
//! folded into [`AppError`], the one error shape that reaches the
//! wire.  Each error renders as a stable, human-readable message; the
//! exact text is part of the service contract and is specified by the
//! `spec_message` functions in this module.

use vstd::prelude::*;
use vstd::string::StringExecFns;

use crate::wire::{spec_u64_decimal, u64_to_decimal};

verus! {

/// Why a proposed ticket title was rejected.
#[derive(Debug, PartialEq, Eq, Structural)]
pub enum TicketTitleError {
    /// The title was the empty string.
    Empty,
    /// The title exceeded the given maximum number of characters.
    TooLong(usize),
}

/// Why a proposed ticket description was rejected.
#[derive(Debug, PartialEq, Eq, Structural)]
pub enum TicketDescriptionError {
    /// The description was the empty string.
    Empty,
    /// The description exceeded the given maximum number of characters.
    TooLong(usize),
}

/// Why a status token could not be parsed.
#[derive(Debug, PartialEq, Eq)]
pub enum TicketStatusError {
    /// The raw token that matched none of the known statuses.
    Invalid(String),
}

/// Why a ticket patch was rejected as a whole.
#[derive(Debug, PartialEq, Eq, Structural)]
pub enum TicketPatchError {
    /// A patch must set at least one field.
    MustContainOneField,
}

/// Every failure a request handler can surface.
#[derive(Debug, PartialEq, Eq)]
pub enum AppError {
    /// The title of a draft or patch failed validation.
    TicketTitleError(TicketTitleError),
    /// The description of a draft or patch failed validation.
    TicketDescriptionError(TicketDescriptionError),
    /// A status token failed to parse; carries the raw token.
    InvalidTicketStatus(String),
    /// A patch failed its whole-patch validation.
    TicketPatchError(TicketPatchError),
    /// The request body was not valid for the expected shape; carries
    /// the parser's own description of the fault.
    JsonParseError(String),
    /// The response could not be encoded (an internal fault).
    SerializationError,
    /// A handler ran before the shared store was initialized.
    TicketStoreNotInitialized,
    /// The requested identifier is absent from the store.
    NotTicket,
    /// The path segment did not parse as an unsigned 64-bit integer.
    InvalidTicketId,
}

/// The stable message text of a title error.
pub open spec fn spec_title_error_message(e: TicketTitleError) -> Seq<char> {
    match e {
        TicketTitleError::Empty => "The title cannot be empty"@,
        TicketTitleError::TooLong(n) => "The title cannot be longer than "@ + spec_u64_decimal(
            n as u64,
        ) + " characters"@,
    }
}

impl TicketTitleError {
    /// Renders the stable message text.
    pub fn message(&self) -> (r: String)
        ensures
            r@ == spec_title_error_message(*self),
    {
        match self {
            TicketTitleError::Empty => "The title cannot be empty".to_owned(),
            TicketTitleError::TooLong(n) => {
                let mut s = "The title cannot be longer than ".to_owned();
                let digits = u64_to_decimal(*n as u64);
                s.append(digits.as_str());
                s.append(" characters");
                s
            },
        }
    }
}

/// The stable message text of a description error.
pub open spec fn spec_description_error_message(e: TicketDescriptionError) -> Seq<char> {
    match e {
        TicketDescriptionError::Empty => "The description cannot be empty"@,
        TicketDescriptionError::TooLong(n) => "The description cannot be longer than "@
            + spec_u64_decimal(n as u64) + " characters"@,
    }
}

impl TicketDescriptionError {
    /// Renders the stable message text.
    pub fn message(&self) -> (r: String)
        ensures
            r@ == spec_description_error_message(*self),
    {
        match self {
            TicketDescriptionError::Empty => "The description cannot be empty".to_owned(),
            TicketDescriptionError::TooLong(n) => {
                let mut s = "The description cannot be longer than ".to_owned();
                let digits = u64_to_decimal(*n as u64);
                s.append(digits.as_str());
                s.append(" characters");
                s
            },
        }
    }
}

/// The stable message text of a status error.
pub open spec fn spec_status_error_message(e: TicketStatusError) -> Seq<char> {
    match e {
        TicketStatusError::Invalid(raw) => "Invalid ticket status: "@ + raw@,
    }
}

impl TicketStatusError {
    /// Renders the stable message text.
    pub fn message(&self) -> (r: String)
        ensures
            r@ == spec_status_error_message(*self),
    {
        match self {
            TicketStatusError::Invalid(raw) => {
                let mut s = "Invalid ticket status: ".to_owned();
                s.append(raw.as_str());
                s
            },
        }
    }
}

/// The stable message text of a patch error.
pub open spec fn spec_patch_error_message(e: TicketPatchError) -> Seq<char> {
    match e {
        TicketPatchError::MustContainOneField => "At least one field must be present"@,
    }
}

impl TicketPatchError {
    /// Renders the stable message text.
    pub fn message(&self) -> (r: String)
        ensures
            r@ == spec_patch_error_message(*self),
    {
        match self {
            TicketPatchError::MustContainOneField => "At least one field must be present".to_owned(
            ),
        }
    }
}

/// The stable, wire-visible message text of an application error.
pub open spec fn spec_app_error_message(e: AppError) -> Seq<char> {
    match e {
        AppError::TicketTitleError(te) => "Ticket title error: "@ + spec_title_error_message(te),
        AppError::TicketDescriptionError(de) => "Ticket description error: "@
            + spec_description_error_message(de),
        AppError::InvalidTicketStatus(raw) => "Invalid ticket status: "@ + raw@,
        AppError::TicketPatchError(pe) => spec_patch_error_message(pe),
        AppError::JsonParseError(detail) => "Failed to parse JSON: "@ + detail@,
        AppError::SerializationError => "Failed to serialize response"@,
        AppError::TicketStoreNotInitialized => "Ticket store not initialized"@,
        AppError::NotTicket => "Ticket not found"@,
        AppError::InvalidTicketId => "Invalid ticket ID"@,
    }
}

impl AppError {
    /// Renders the stable message text.
    pub fn message(&self) -> (r: String)
        ensures
            r@ == spec_app_error_message(*self),
    {
        match self {
            AppError::TicketTitleError(te) => {
                let mut s = "Ticket title error: ".to_owned();
                let m = te.message();
                s.append(m.as_str());
                s
            },
            AppError::TicketDescriptionError(de) => {
                let mut s = "Ticket description error: ".to_owned();
                let m = de.message();
                s.append(m.as_str());
                s
            },
            AppError::InvalidTicketStatus(raw) => {
                let mut s = "Invalid ticket status: ".to_owned();
                s.append(raw.as_str());
                s
            },
            AppError::TicketPatchError(pe) => pe.message(),
            AppError::JsonParseError(detail) => {
                let mut s = "Failed to parse JSON: ".to_owned();
                s.append(detail.as_str());
                s
            },
            AppError::SerializationError => "Failed to serialize response".to_owned(),
            AppError::TicketStoreNotInitialized => "Ticket store not initialized".to_owned(),
            AppError::NotTicket => "Ticket not found".to_owned(),
            AppError::InvalidTicketId => "Invalid ticket ID".to_owned(),
        }
    }
}

} // verus!
