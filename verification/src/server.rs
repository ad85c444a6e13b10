//! The request handlers: create, fetch and patch, written against the
//! process-wide store handle.
//!
//! Each handler takes request-shaped plain values, validates them,
//! reaches the shared store through a [`StoreHandle`], and returns
//! either the operation's result or the exact [`AppError`] the input
//! earns.  I/O, routing and locking live outside the library; the
//! handlers are the decisions.

use vstd::prelude::*;

use crate::data::{
    apply_patch_view, description_chars_valid, description_error, status_of, title_chars_valid,
    title_error, PatchView, Status, Ticket, TicketDescription, TicketDraft, TicketPatch,
    TicketTitle, TicketView,
};
use crate::error::{AppError, TicketPatchError};
use crate::store::{TicketId, TicketStore};

verus! {

/// The process-wide handle to the shared store.  It starts empty and
/// is initialized exactly once at startup; a handler that runs before
/// initialization fails with [`AppError::TicketStoreNotInitialized`].
pub struct StoreHandle {
    store: Option<TicketStore>,
}

impl StoreHandle {
    /// The store, if it has been initialized.
    pub closed spec fn spec_store(&self) -> Option<TicketStore> {
        self.store
    }

    /// Whether the store has been initialized.
    pub open spec fn is_ready(&self) -> bool {
        self.spec_store() is Some
    }

    /// The store's counter; meaningful once the handle is ready.
    pub open spec fn store_counter(&self) -> u64
        recommends
            self.is_ready(),
    {
        self.spec_store()->0.spec_counter()
    }

    /// The store's tickets; meaningful once the handle is ready.
    pub open spec fn store_tickets(&self) -> Map<u64, Ticket>
        recommends
            self.is_ready(),
    {
        self.spec_store()->0.spec_tickets()
    }

    /// Well-formedness: an initialized store is well-formed.
    pub open spec fn wf(&self) -> bool {
        self.is_ready() ==> self.spec_store()->0.wf()
    }

    /// A handle that is not yet wired to a store.
    pub fn new() -> (h: StoreHandle)
        ensures
            h.wf(),
            !h.is_ready(),
    {
        StoreHandle { store: None }
    }

    /// Initializes the store exactly once: the first call installs a
    /// fresh, empty store; later calls leave the existing one
    /// untouched.
    pub fn init(&mut self)
        requires
            old(self).wf(),
        ensures
            final(self).wf(),
            final(self).is_ready(),
            old(self).is_ready() ==> *final(self) == *old(self),
            !old(self).is_ready() ==> final(self).store_counter() == 0
                && final(self).store_tickets() == Map::<u64, Ticket>::empty(),
    {
        if self.store.is_none() {
            self.store = Some(TicketStore::new());
        }
    }

    /// Whether a handler may reach the store.
    pub fn is_initialized(&self) -> (b: bool)
        ensures
            b == self.is_ready(),
    {
        self.store.is_some()
    }

    /// Whether the identifier space is used up.  The service never
    /// reaches this in practice; callers check it before asking for a
    /// creation.
    pub fn exhausted(&self) -> (b: bool)
        ensures
            b == (self.is_ready() && self.store_counter() == u64::MAX),
    {
        match &self.store {
            Some(s) => s.counter_value() == u64::MAX,
            None => false,
        }
    }
}

/// Reads the `{id}` path segment: it must parse as an unsigned 64-bit
/// integer, else the request fails with
/// [`AppError::InvalidTicketId`].
pub fn parse_ticket_id(segment: &str) -> (r: Result<u64, AppError>)
    ensures
        crate::wire::spec_parse_u64(segment@) matches Some(n) ==> r == Ok::<u64, AppError>(n),
        crate::wire::spec_parse_u64(segment@) is None ==> r == Err::<u64, AppError>(
            AppError::InvalidTicketId,
        ),
{
    match crate::wire::parse_u64(segment) {
        Some(n) => Ok(n),
        None => Err(AppError::InvalidTicketId),
    }
}

/// Handles a creation request: validates the draft fields (title
/// first), then admits the draft to the store with status
/// [`Status::ToDo`] and returns the minted identifier.
pub fn create(handle: &mut StoreHandle, title: String, description: String) -> (r: Result<
    TicketId,
    AppError,
>)
    requires
        old(handle).wf(),
        old(handle).is_ready() ==> old(handle).store_counter() < u64::MAX,
    ensures
        final(handle).wf(),
        r is Err ==> *final(handle) == *old(handle),
        !title_chars_valid(title@) ==> r == Err::<TicketId, AppError>(AppError::TicketTitleError(
            title_error(title@),
        )),
        (title_chars_valid(title@) && !description_chars_valid(description@)) ==> r == Err::<
            TicketId,
            AppError,
        >(AppError::TicketDescriptionError(description_error(description@))),
        (title_chars_valid(title@) && description_chars_valid(description@)
            && !old(handle).is_ready()) ==> r == Err::<TicketId, AppError>(
            AppError::TicketStoreNotInitialized,
        ),
        (title_chars_valid(title@) && description_chars_valid(description@)
            && old(handle).is_ready()) ==> ({
            &&& r matches Ok(id)
            &&& id.0 == old(handle).store_counter()
            &&& !old(handle).store_tickets().contains_key(id.0)
            &&& final(handle).is_ready()
            &&& final(handle).store_counter() == old(handle).store_counter() + 1
            &&& final(handle).store_tickets() == old(handle).store_tickets().insert(
                id.0,
                final(handle).store_tickets()[id.0],
            )
            &&& final(handle).store_tickets()[id.0]@ == (TicketView {
                id: id.0,
                title: title@,
                description: description@,
                status: Status::ToDo,
            })
        }),
{
    let vtitle = match TicketTitle::new(title) {
        Ok(t) => t,
        Err(e) => {
            return Err(AppError::TicketTitleError(e));
        },
    };
    let vdescription = match TicketDescription::new(description) {
        Ok(d) => d,
        Err(e) => {
            return Err(AppError::TicketDescriptionError(e));
        },
    };
    let draft = TicketDraft { title: vtitle, description: vdescription };
    let taken = handle.store.take();
    match taken {
        Some(mut store) => {
            let id = store.add_ticket(draft);
            handle.store = Some(store);
            Ok(id)
        },
        None => Err(AppError::TicketStoreNotInitialized),
    }
}

/// Handles a fetch request: looks the identifier up and returns a
/// snapshot of the ticket's current state, or
/// [`AppError::NotTicket`] for an identifier the store never minted.
pub fn get(handle: &StoreHandle, id: u64) -> (r: Result<Ticket, AppError>)
    requires
        handle.wf(),
    ensures
        !handle.is_ready() ==> r == Err::<Ticket, AppError>(AppError::TicketStoreNotInitialized),
        (handle.is_ready() && !handle.store_tickets().contains_key(id)) ==> r == Err::<
            Ticket,
            AppError,
        >(AppError::NotTicket),
        (handle.is_ready() && handle.store_tickets().contains_key(id)) ==> (r matches Ok(t) && t
            == handle.store_tickets()[id]),
{
    let store = match &handle.store {
        Some(s) => s,
        None => {
            return Err(AppError::TicketStoreNotInitialized);
        },
    };
    match store.get(TicketId(id)) {
        Some(t) => Ok(t.clone()),
        None => Err(AppError::NotTicket),
    }
}

/// The patch a patch request denotes, once its raw fields have been
/// validated: present raw fields become present patch fields, with the
/// status token parsed.
pub open spec fn requested_patch_view(
    title: Option<Seq<char>>,
    description: Option<Seq<char>>,
    status: Option<Seq<char>>,
) -> PatchView {
    PatchView {
        title,
        description,
        status: match status {
            Some(s) => status_of(s),
            None => None,
        },
    }
}

/// Handles a patch request: validates the patch (emptiness first, then
/// the title, the description and the status token), looks the
/// identifier up, applies exactly the present fields and returns the
/// post-patch snapshot.  On any error the store is unchanged.
pub fn patch(
    handle: &mut StoreHandle,
    id: u64,
    title: Option<String>,
    description: Option<String>,
    status: Option<String>,
) -> (r: Result<Ticket, AppError>)
    requires
        old(handle).wf(),
    ensures
        final(handle).wf(),
        r is Err ==> *final(handle) == *old(handle),
        (title is None && description is None && status is None) ==> r == Err::<Ticket, AppError>(
            AppError::TicketPatchError(TicketPatchError::MustContainOneField),
        ),
        (!(title is None && description is None && status is None) && title is Some
            && !title_chars_valid(title->0@)) ==> r == Err::<Ticket, AppError>(
            AppError::TicketTitleError(title_error(title->0@)),
        ),
        (!(title is None && description is None && status is None) && (title is Some
            ==> title_chars_valid(title->0@)) && description is Some && !description_chars_valid(
            description->0@,
        )) ==> r == Err::<Ticket, AppError>(AppError::TicketDescriptionError(
            description_error(description->0@),
        )),
        (!(title is None && description is None && status is None) && (title is Some
            ==> title_chars_valid(title->0@)) && (description is Some ==> description_chars_valid(
            description->0@,
        )) && status is Some && status_of(status->0@) is None) ==> (r matches Err(
            AppError::InvalidTicketStatus(raw),
        ) && raw@ == status->0@),
        fields_acceptable(title, description, status) && !old(handle).is_ready() ==> r == Err::<
            Ticket,
            AppError,
        >(AppError::TicketStoreNotInitialized),
        (fields_acceptable(title, description, status) && old(handle).is_ready()
            && !old(handle).store_tickets().contains_key(id)) ==> r == Err::<Ticket, AppError>(
            AppError::NotTicket,
        ),
        (fields_acceptable(title, description, status) && old(handle).is_ready()
            && old(handle).store_tickets().contains_key(id)) ==> ({
            let before = old(handle).store_tickets()[id]@;
            let after = apply_patch_view(
                before,
                requested_patch_view(
                    match title {
                        Some(t) => Some(t@),
                        None => None,
                    },
                    match description {
                        Some(d) => Some(d@),
                        None => None,
                    },
                    match status {
                        Some(s) => Some(s@),
                        None => None,
                    },
                ),
            );
            &&& r matches Ok(t)
            &&& t@ == after
            &&& final(handle).is_ready()
            &&& final(handle).store_counter() == old(handle).store_counter()
            &&& final(handle).store_tickets() == old(handle).store_tickets().insert(id, t)
        }),
{
    if title.is_none() && description.is_none() && status.is_none() {
        return Err(AppError::TicketPatchError(TicketPatchError::MustContainOneField));
    }
    let vtitle = match title {
        Some(t) => match TicketTitle::new(t) {
            Ok(v) => Some(v),
            Err(e) => {
                return Err(AppError::TicketTitleError(e));
            },
        },
        None => None,
    };
    let vdescription = match description {
        Some(d) => match TicketDescription::new(d) {
            Ok(v) => Some(v),
            Err(e) => {
                return Err(AppError::TicketDescriptionError(e));
            },
        },
        None => None,
    };
    let vstatus = match status {
        Some(s) => match Status::parse(s.as_str()) {
            Ok(v) => Some(v),
            Err(crate::error::TicketStatusError::Invalid(raw)) => {
                return Err(AppError::InvalidTicketStatus(raw));
            },
        },
        None => None,
    };
    let ticket_patch = TicketPatch { title: vtitle, description: vdescription, status: vstatus };
    let taken = handle.store.take();
    match taken {
        Some(mut store) => {
            let applied = store.apply_patch(TicketId(id), &ticket_patch);
            handle.store = Some(store);
            match applied {
                Some(t) => Ok(t),
                None => Err(AppError::NotTicket),
            }
        },
        None => Err(AppError::TicketStoreNotInitialized),
    }
}

/// Whether every present raw field of a patch request is acceptable
/// and at least one field is present.
pub open spec fn fields_acceptable(
    title: Option<String>,
    description: Option<String>,
    status: Option<String>,
) -> bool {
    &&& !(title is None && description is None && status is None)
    &&& title is Some ==> title_chars_valid(title->0@)
    &&& description is Some ==> description_chars_valid(description->0@)
    &&& status is Some ==> status_of(status->0@) is Some
}

} // verus!
