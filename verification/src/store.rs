//! The ticket store: a map from identifier to ticket together with a
//! strictly increasing counter that mints identifiers.
//!
//! The well-formedness invariant [`TicketStore::wf`] pins the shape of
//! the store down: exactly the identifiers below the counter are
//! present, every ticket sits under its own identifier, and every
//! stored ticket satisfies the construction bounds.

use vstd::prelude::*;

use std::collections::BTreeMap;

use crate::data::{
    apply_patch_view, description_chars_valid, title_chars_valid, Status, Ticket, TicketDraft,
    TicketPatch, TicketView,
};

verus! {

/// An opaque 64-bit ticket identifier, assigned by the store at
/// creation and never reused.
#[derive(Clone, Copy, Debug, PartialEq, Eq, Structural, PartialOrd, Ord, Hash)]
pub struct TicketId(pub u64);

/// The concurrent collection owning all tickets and identifier
/// assignment.  Locking lives at the service boundary; the store
/// itself is the sequential heart that every access is serialized
/// through.
pub struct TicketStore {
    tickets: BTreeMap<u64, Ticket>,
    counter: u64,
}

impl TicketStore {
    /// The next identifier to be minted.
    pub closed spec fn spec_counter(&self) -> u64 {
        self.counter
    }

    /// The tickets currently held, keyed by identifier.
    pub closed spec fn spec_tickets(&self) -> Map<u64, Ticket> {
        self.tickets@
    }

    /// Well-formedness: exactly the identifiers below the counter are
    /// present, each ticket carries its own identifier, and each
    /// ticket's textual fields satisfy the construction bounds.
    pub open spec fn wf(&self) -> bool {
        &&& forall|k: u64| #[trigger] self.spec_tickets().contains_key(k) <==> k
            < self.spec_counter()
        &&& forall|k: u64|
            #[trigger] self.spec_tickets().contains_key(k) ==> {
                &&& self.spec_tickets()[k]@.id == k
                &&& self.spec_tickets()[k]@.valid()
            }
    }

    /// A fresh, empty store whose first identifier will be 0.
    pub fn new() -> (s: TicketStore)
        ensures
            s.wf(),
            s.spec_counter() == 0,
            s.spec_tickets() == Map::<u64, Ticket>::empty(),
    {
        TicketStore { tickets: BTreeMap::new(), counter: 0 }
    }

    /// What one `add_ticket` call does: the minted identifier is the
    /// old counter, the counter advances by one, and the map gains
    /// exactly the new ticket, built from the draft with status
    /// [`Status::ToDo`].
    pub open spec fn adds(pre: TicketStore, post: TicketStore, draft: TicketDraft, id: TicketId) -> bool {
        &&& id.0 == pre.spec_counter()
        &&& pre.spec_counter() < u64::MAX
        &&& post.spec_counter() == pre.spec_counter() + 1
        &&& !pre.spec_tickets().contains_key(id.0)
        &&& post.spec_tickets().contains_key(id.0)
        &&& post.spec_tickets() == pre.spec_tickets().insert(id.0, post.spec_tickets()[id.0])
        &&& post.spec_tickets()[id.0]@ == (TicketView {
            id: id.0,
            title: draft.title@,
            description: draft.description@,
            status: Status::ToDo,
        })
    }

    /// Mints the next identifier, admits the draft as a ticket with
    /// status [`Status::ToDo`], and returns the identifier.  The draft
    /// is pre-validated by the caller, so this never fails.
    pub fn add_ticket(&mut self, ticket: TicketDraft) -> (id: TicketId)
        requires
            old(self).wf(),
            old(self).spec_counter() < u64::MAX,
            title_chars_valid(ticket.title@),
            description_chars_valid(ticket.description@),
        ensures
            final(self).wf(),
            Self::adds(*old(self), *final(self), ticket, id),
    {
        let id = TicketId(self.counter);
        self.counter = self.counter + 1;
        let t = Ticket {
            id,
            title: ticket.title,
            description: ticket.description,
            status: Status::ToDo,
        };
        self.tickets.insert(id.0, t);
        id
    }

    /// The value of the identifier counter.
    pub fn counter_value(&self) -> (c: u64)
        ensures
            c == self.spec_counter(),
    {
        self.counter
    }

    /// Looks the identifier up; absence is not an error at this layer.
    pub fn get(&self, id: TicketId) -> (r: Option<&Ticket>)
        ensures
            match r {
                Some(t) => self.spec_tickets().contains_key(id.0) && *t
                    == self.spec_tickets()[id.0],
                None => !self.spec_tickets().contains_key(id.0),
            },
    {
        self.tickets.get(&id.0)
    }

    /// Applies a patch to the ticket under `id`, if present, and
    /// returns the post-patch snapshot.  The patch is applied in full
    /// or not at all: on `None` the store is unchanged.
    pub fn apply_patch(&mut self, id: TicketId, patch: &TicketPatch) -> (r: Option<Ticket>)
        requires
            old(self).wf(),
            patch.title matches Some(t) ==> title_chars_valid(t@),
            patch.description matches Some(d) ==> description_chars_valid(d@),
        ensures
            final(self).wf(),
            final(self).spec_counter() == old(self).spec_counter(),
            match r {
                Some(t) => {
                    &&& old(self).spec_tickets().contains_key(id.0)
                    &&& t@ == apply_patch_view(old(self).spec_tickets()[id.0]@, patch@)
                    &&& final(self).spec_tickets() == old(self).spec_tickets().insert(id.0, t)
                },
                None => {
                    &&& !old(self).spec_tickets().contains_key(id.0)
                    &&& *final(self) == *old(self)
                },
            },
    {
        let current = match self.tickets.get(&id.0) {
            Some(t) => t,
            None => {
                return None;
            },
        };
        let updated = Ticket {
            id: current.id,
            title: match &patch.title {
                Some(t) => t.clone(),
                None => current.title.clone(),
            },
            description: match &patch.description {
                Some(d) => d.clone(),
                None => current.description.clone(),
            },
            status: match &patch.status {
                Some(s) => *s,
                None => current.status,
            },
        };
        let snapshot = updated.clone();
        self.tickets.insert(id.0, updated);
        Some(snapshot)
    }
}

impl Default for TicketStore {
    /// The default store is the empty one.
    fn default() -> (s: Self)
        ensures
            s.wf(),
            s.spec_counter() == 0,
            s.spec_tickets() == Map::<u64, Ticket>::empty(),
    {
        TicketStore::new()
    }
}

/// Law: the identifiers a well-formed store holds are exactly the
/// initial segment below its counter — after `n` admissions starting
/// from the empty store these are `0, …, n-1`, with no gap and no
/// repetition.
pub proof fn lemma_ids_form_initial_segment(s: TicketStore)
    requires
        s.wf(),
    ensures
        s.spec_tickets().dom() =~= Set::new(|k: u64| k < s.spec_counter()),
{
}

/// Law: identifiers are minted in strictly increasing order — an
/// admission performed from any state at least as advanced as the one
/// an earlier admission produced returns a strictly greater identifier,
/// so no identifier is ever repeated.
pub proof fn lemma_ids_strictly_increase(
    s0: TicketStore,
    s1: TicketStore,
    d1: TicketDraft,
    id1: TicketId,
    s2: TicketStore,
    s3: TicketStore,
    d2: TicketDraft,
    id2: TicketId,
)
    requires
        TicketStore::adds(s0, s1, d1, id1),
        s1.spec_counter() <= s2.spec_counter(),
        TicketStore::adds(s2, s3, d2, id2),
    ensures
        id1.0 < id2.0,
{
}

/// Law: an identifier the store never minted is absent, and so cannot
/// be fetched.
pub proof fn lemma_unminted_id_absent(s: TicketStore, id: u64)
    requires
        s.wf(),
        id >= s.spec_counter(),
    ensures
        !s.spec_tickets().contains_key(id),
{
}

} // verus!
