//! The validated data model: titles, descriptions, statuses, tickets,
//! drafts and patches.
//!
//! A [`TicketTitle`] or [`TicketDescription`] can only be built through
//! its validating constructor, so a value of either type always
//! satisfies the length bounds.  A [`TicketPatch`] names only the
//! fields it changes; [`apply_patch_view`] is the mathematical meaning
//! of applying one to a ticket.

use vstd::prelude::*;
use vstd::string::StrSliceExecFns;

use crate::error::{
    AppError, TicketDescriptionError, TicketPatchError, TicketStatusError, TicketTitleError,
};
use crate::store::TicketId;

verus! {

/// A title may hold at most this many characters.
pub const TICKET_TITLE_MAX_LENGTH: usize = 50;

/// A description may hold at most this many characters.
pub const TICKET_DESCRIPTION_MAX_LENGTH: usize = 300;

/// The workflow state of a ticket.
#[derive(Clone, Copy, Debug, PartialEq, Eq, Structural)]
pub enum Status {
    ToDo,
    InProgress,
    Done,
}

/// The ASCII-lowercased code point of `c`: letters `A`..`Z` map to
/// their lowercase counterparts, every other character to itself.
pub open spec fn lower_code(c: char) -> int {
    if 65 <= c as u32 && c as u32 <= 90 {
        c as u32 + 32
    } else {
        c as u32 as int
    }
}

/// Case-insensitive equality of two character sequences, folding only
/// ASCII letters.
pub open spec fn ci_eq(a: Seq<char>, b: Seq<char>) -> bool {
    &&& a.len() == b.len()
    &&& forall|i: int| 0 <= i < a.len() ==> lower_code(a[i]) == lower_code(b[i])
}

/// Which status, if any, the token `s` denotes.  Matching is
/// case-insensitive against the canonical tokens.
pub open spec fn status_of(s: Seq<char>) -> Option<Status> {
    if ci_eq(s, "todo"@) {
        Some(Status::ToDo)
    } else if ci_eq(s, "inprogress"@) {
        Some(Status::InProgress)
    } else if ci_eq(s, "done"@) {
        Some(Status::Done)
    } else {
        None
    }
}

/// The ASCII-lowercased code point of `c`, executable form.
fn lower_code_exec(c: char) -> (r: u32)
    ensures
        r == lower_code(c),
{
    let u = c as u32;
    if 65 <= u && u <= 90 {
        u + 32
    } else {
        u
    }
}

/// Whether `a` and `b` are equal up to ASCII case.
fn eq_ignore_case(a: &str, b: &str) -> (r: bool)
    ensures
        r == ci_eq(a@, b@),
{
    let alen = a.unicode_len();
    let blen = b.unicode_len();
    if alen != blen {
        return false;
    }
    let mut i: usize = 0;
    while i < alen
        invariant
            i <= alen,
            alen == a@.len(),
            blen == b@.len(),
            alen == blen,
            forall|j: int| 0 <= j < i ==> lower_code(a@[j]) == lower_code(b@[j]),
        decreases alen - i,
    {
        let ca = a.get_char(i);
        let cb = b.get_char(i);
        if lower_code_exec(ca) != lower_code_exec(cb) {
            return false;
        }
        i = i + 1;
    }
    true
}

impl Status {
    /// Parses a wire token case-insensitively: `"todo"`, `"inprogress"`
    /// and `"done"` (in any case) are the three statuses; every other
    /// token is rejected with the raw input.
    pub fn parse(value: &str) -> (r: Result<Status, TicketStatusError>)
        ensures
            status_of(value@) matches Some(st) ==> r == Ok::<Status, TicketStatusError>(st),
            status_of(value@) is None ==> (r matches Err(TicketStatusError::Invalid(raw))
                && raw@ == value@),
    {
        if eq_ignore_case(value, "todo") {
            Ok(Status::ToDo)
        } else if eq_ignore_case(value, "inprogress") {
            Ok(Status::InProgress)
        } else if eq_ignore_case(value, "done") {
            Ok(Status::Done)
        } else {
            Err(TicketStatusError::Invalid(value.to_owned()))
        }
    }
}

/// Whether `s` is an acceptable title: non-empty and within the bound.
pub open spec fn title_chars_valid(s: Seq<char>) -> bool {
    1 <= s.len() <= TICKET_TITLE_MAX_LENGTH
}

/// The error an invalid title is rejected with.
pub open spec fn title_error(s: Seq<char>) -> TicketTitleError
    recommends
        !title_chars_valid(s),
{
    if s.len() == 0 {
        TicketTitleError::Empty
    } else {
        TicketTitleError::TooLong(TICKET_TITLE_MAX_LENGTH)
    }
}

/// Whether `s` is an acceptable description: non-empty and within the
/// bound.
pub open spec fn description_chars_valid(s: Seq<char>) -> bool {
    1 <= s.len() <= TICKET_DESCRIPTION_MAX_LENGTH
}

/// The error an invalid description is rejected with.
pub open spec fn description_error(s: Seq<char>) -> TicketDescriptionError
    recommends
        !description_chars_valid(s),
{
    if s.len() == 0 {
        TicketDescriptionError::Empty
    } else {
        TicketDescriptionError::TooLong(TICKET_DESCRIPTION_MAX_LENGTH)
    }
}

/// A ticket title: non-empty, at most [`TICKET_TITLE_MAX_LENGTH`]
/// characters, constructible only through [`TicketTitle::new`].
#[derive(Debug, PartialEq, Eq)]
pub struct TicketTitle(String);

impl View for TicketTitle {
    type V = Seq<char>;

    closed spec fn view(&self) -> Seq<char> {
        self.0@
    }
}

impl Clone for TicketTitle {
    fn clone(&self) -> (r: Self)
        ensures
            r == *self,
    {
        TicketTitle(self.0.clone())
    }
}

impl TicketTitle {
    /// Accepts exactly the titles of 1 to [`TICKET_TITLE_MAX_LENGTH`]
    /// characters; an empty title is rejected as `Empty`, an overlong
    /// one as `TooLong`.
    pub fn new(title: String) -> (r: Result<TicketTitle, TicketTitleError>)
        ensures
            title_chars_valid(title@) ==> (r matches Ok(t) && t@ == title@),
            !title_chars_valid(title@) ==> r == Err::<TicketTitle, TicketTitleError>(
                title_error(title@),
            ),
    {
        let len = title.as_str().unicode_len();
        if len == 0 {
            return Err(TicketTitleError::Empty);
        }
        if len > TICKET_TITLE_MAX_LENGTH {
            return Err(TicketTitleError::TooLong(TICKET_TITLE_MAX_LENGTH));
        }
        Ok(TicketTitle(title))
    }

    /// The underlying text.
    pub fn as_str(&self) -> (r: &str)
        ensures
            r@ == self@,
    {
        self.0.as_str()
    }
}

/// A ticket description: non-empty, at most
/// [`TICKET_DESCRIPTION_MAX_LENGTH`] characters, constructible only
/// through [`TicketDescription::new`].
#[derive(Debug, PartialEq, Eq)]
pub struct TicketDescription(String);

impl View for TicketDescription {
    type V = Seq<char>;

    closed spec fn view(&self) -> Seq<char> {
        self.0@
    }
}

impl Clone for TicketDescription {
    fn clone(&self) -> (r: Self)
        ensures
            r == *self,
    {
        TicketDescription(self.0.clone())
    }
}

impl TicketDescription {
    /// Accepts exactly the descriptions of 1 to
    /// [`TICKET_DESCRIPTION_MAX_LENGTH`] characters; an empty
    /// description is rejected as `Empty`, an overlong one as
    /// `TooLong`.
    pub fn new(description: String) -> (r: Result<TicketDescription, TicketDescriptionError>)
        ensures
            description_chars_valid(description@) ==> (r matches Ok(d) && d@ == description@),
            !description_chars_valid(description@) ==> r == Err::<
                TicketDescription,
                TicketDescriptionError,
            >(description_error(description@)),
    {
        let len = description.as_str().unicode_len();
        if len == 0 {
            return Err(TicketDescriptionError::Empty);
        }
        if len > TICKET_DESCRIPTION_MAX_LENGTH {
            return Err(TicketDescriptionError::TooLong(TICKET_DESCRIPTION_MAX_LENGTH));
        }
        Ok(TicketDescription(description))
    }

    /// The underlying text.
    pub fn as_str(&self) -> (r: &str)
        ensures
            r@ == self@,
    {
        self.0.as_str()
    }
}

/// The mathematical content of a ticket.
pub ghost struct TicketView {
    pub id: u64,
    pub title: Seq<char>,
    pub description: Seq<char>,
    pub status: Status,
}

impl TicketView {
    /// Whether the textual fields satisfy the construction bounds.
    pub open spec fn valid(self) -> bool {
        &&& title_chars_valid(self.title)
        &&& description_chars_valid(self.description)
    }
}

/// A unit of work tracked by the service.
#[derive(Debug, PartialEq, Eq)]
pub struct Ticket {
    pub id: TicketId,
    pub title: TicketTitle,
    pub description: TicketDescription,
    pub status: Status,
}

impl View for Ticket {
    type V = TicketView;

    open spec fn view(&self) -> TicketView {
        TicketView {
            id: self.id.0,
            title: self.title@,
            description: self.description@,
            status: self.status,
        }
    }
}

impl Clone for Ticket {
    fn clone(&self) -> (r: Self)
        ensures
            r == *self,
    {
        Ticket {
            id: self.id,
            title: self.title.clone(),
            description: self.description.clone(),
            status: self.status,
        }
    }
}

/// A proposed ticket, not yet admitted to the store; its status is
/// implicitly [`Status::ToDo`].
#[derive(Debug, PartialEq, Eq)]
pub struct TicketDraft {
    pub title: TicketTitle,
    pub description: TicketDescription,
}

impl Clone for TicketDraft {
    fn clone(&self) -> (r: Self)
        ensures
            r == *self,
    {
        TicketDraft { title: self.title.clone(), description: self.description.clone() }
    }
}

/// The mathematical content of a patch: each field is either left
/// unchanged (`None`) or replaced (`Some`).
pub ghost struct PatchView {
    pub title: Option<Seq<char>>,
    pub description: Option<Seq<char>>,
    pub status: Option<Status>,
}

/// A partial update: only the present fields are applied; absent
/// fields mean "leave unchanged".
#[derive(Debug, PartialEq, Eq)]
pub struct TicketPatch {
    pub title: Option<TicketTitle>,
    pub description: Option<TicketDescription>,
    pub status: Option<Status>,
}

impl View for TicketPatch {
    type V = PatchView;

    open spec fn view(&self) -> PatchView {
        PatchView {
            title: match self.title {
                Some(t) => Some(t@),
                None => None,
            },
            description: match self.description {
                Some(d) => Some(d@),
                None => None,
            },
            status: self.status,
        }
    }
}

impl TicketPatch {
    /// A patch must set at least one field; a patch with all three
    /// absent is rejected.
    pub fn new(
        title: Option<TicketTitle>,
        description: Option<TicketDescription>,
        status: Option<Status>,
    ) -> (r: Result<TicketPatch, TicketPatchError>)
        ensures
            (title is None && description is None && status is None) ==> r == Err::<
                TicketPatch,
                TicketPatchError,
            >(TicketPatchError::MustContainOneField),
            !(title is None && description is None && status is None) ==> (r matches Ok(p)
                && p.title == title && p.description == description && p.status == status),
    {
        if title.is_none() && description.is_none() && status.is_none() {
            return Err(TicketPatchError::MustContainOneField);
        }
        Ok(TicketPatch { title, description, status })
    }
}

/// The meaning of applying a patch: every present field replaces the
/// ticket's, every absent field leaves it untouched, and the identifier
/// never changes.
pub open spec fn apply_patch_view(t: TicketView, p: PatchView) -> TicketView {
    TicketView {
        id: t.id,
        title: if p.title is Some {
            p.title->0
        } else {
            t.title
        },
        description: if p.description is Some {
            p.description->0
        } else {
            t.description
        },
        status: if p.status is Some {
            p.status->0
        } else {
            t.status
        },
    }
}

/// The clean merge of two patches applied one after the other: for each
/// field the later patch wins where it is present, otherwise the
/// earlier one.
pub open spec fn merge_patch_view(p1: PatchView, p2: PatchView) -> PatchView {
    PatchView {
        title: if p2.title is Some {
            p2.title
        } else {
            p1.title
        },
        description: if p2.description is Some {
            p2.description
        } else {
            p1.description
        },
        status: if p2.status is Some {
            p2.status
        } else {
            p1.status
        },
    }
}

/// Law: a patch that sets only the status changes the status and leaves
/// the title, the description and the identifier exactly as they were.
pub proof fn lemma_patch_status_only(t: TicketView, p: PatchView)
    requires
        p.title is None,
        p.description is None,
        p.status is Some,
    ensures
        apply_patch_view(t, p).status == p.status->0,
        apply_patch_view(t, p).title == t.title,
        apply_patch_view(t, p).description == t.description,
        apply_patch_view(t, p).id == t.id,
{
}

/// Law: an empty patch changes nothing.
pub proof fn lemma_empty_patch_is_identity(t: TicketView, p: PatchView)
    requires
        p.title is None,
        p.description is None,
        p.status is None,
    ensures
        apply_patch_view(t, p) == t,
{
}

/// Law: two patches applied in sequence never mix within a field — the
/// outcome is exactly the clean merge in which every field set by the
/// later patch comes wholly from it, and every other field set by the
/// earlier patch comes wholly from that one.
pub proof fn lemma_patches_apply_cleanly(t: TicketView, p1: PatchView, p2: PatchView)
    ensures
        apply_patch_view(apply_patch_view(t, p1), p2) == apply_patch_view(
            t,
            merge_patch_view(p1, p2),
        ),
{
}

/// Checks a ticket's textual fields against the construction bounds:
/// the title first, then the description.
pub fn validate_ticket(ticket: &Ticket) -> (r: Result<(), AppError>)
    ensures
        !title_chars_valid(ticket.title@) ==> r == Err::<(), AppError>(AppError::TicketTitleError(
            title_error(ticket.title@),
        )),
        title_chars_valid(ticket.title@) && !description_chars_valid(ticket.description@) ==> r
            == Err::<(), AppError>(AppError::TicketDescriptionError(
            description_error(ticket.description@),
        )),
        title_chars_valid(ticket.title@) && description_chars_valid(ticket.description@) ==> r
            == Ok::<(), AppError>(()),
{
    let title_len = ticket.title.as_str().unicode_len();
    if title_len == 0 {
        return Err(AppError::TicketTitleError(TicketTitleError::Empty));
    }
    if title_len > TICKET_TITLE_MAX_LENGTH {
        return Err(AppError::TicketTitleError(TicketTitleError::TooLong(TICKET_TITLE_MAX_LENGTH)));
    }
    let description_len = ticket.description.as_str().unicode_len();
    if description_len == 0 {
        return Err(AppError::TicketDescriptionError(TicketDescriptionError::Empty));
    }
    if description_len > TICKET_DESCRIPTION_MAX_LENGTH {
        return Err(AppError::TicketDescriptionError(TicketDescriptionError::TooLong(
            TICKET_DESCRIPTION_MAX_LENGTH,
        )));
    }
    Ok(())
}

/// Checks a draft's textual fields against the construction bounds:
/// the title first, then the description.
pub fn validate_ticket_draft(ticket_draft: &TicketDraft) -> (r: Result<(), AppError>)
    ensures
        !title_chars_valid(ticket_draft.title@) ==> r == Err::<(), AppError>(
            AppError::TicketTitleError(title_error(ticket_draft.title@)),
        ),
        title_chars_valid(ticket_draft.title@) && !description_chars_valid(
            ticket_draft.description@,
        ) ==> r == Err::<(), AppError>(AppError::TicketDescriptionError(
            description_error(ticket_draft.description@),
        )),
        title_chars_valid(ticket_draft.title@) && description_chars_valid(
            ticket_draft.description@,
        ) ==> r == Ok::<(), AppError>(()),
{
    let title_len = ticket_draft.title.as_str().unicode_len();
    if title_len == 0 {
        return Err(AppError::TicketTitleError(TicketTitleError::Empty));
    }
    if title_len > TICKET_TITLE_MAX_LENGTH {
        return Err(AppError::TicketTitleError(TicketTitleError::TooLong(TICKET_TITLE_MAX_LENGTH)));
    }
    let description_len = ticket_draft.description.as_str().unicode_len();
    if description_len == 0 {
        return Err(AppError::TicketDescriptionError(TicketDescriptionError::Empty));
    }
    if description_len > TICKET_DESCRIPTION_MAX_LENGTH {
        return Err(AppError::TicketDescriptionError(TicketDescriptionError::TooLong(
            TICKET_DESCRIPTION_MAX_LENGTH,
        )));
    }
    Ok(())
}

/// Whether a patch sets no field at all.
pub open spec fn patch_view_is_empty(p: PatchView) -> bool {
    p.title is None && p.description is None && p.status is None
}

/// Checks a patch: it must set at least one field, and every present
/// textual field must satisfy the construction bounds (the title is
/// checked before the description).
pub fn validate_ticket_patch(ticket_patch: &TicketPatch) -> (r: Result<(), AppError>)
    ensures
        patch_view_is_empty(ticket_patch@) ==> r == Err::<(), AppError>(AppError::TicketPatchError(
            TicketPatchError::MustContainOneField,
        )),
        (!patch_view_is_empty(ticket_patch@) && ticket_patch@.title is Some && !title_chars_valid(
            ticket_patch@.title->0,
        )) ==> r == Err::<(), AppError>(AppError::TicketTitleError(
            title_error(ticket_patch@.title->0),
        )),
        (!patch_view_is_empty(ticket_patch@) && (ticket_patch@.title is Some ==> title_chars_valid(
            ticket_patch@.title->0,
        )) && ticket_patch@.description is Some && !description_chars_valid(
            ticket_patch@.description->0,
        )) ==> r == Err::<(), AppError>(AppError::TicketDescriptionError(
            description_error(ticket_patch@.description->0),
        )),
        (!patch_view_is_empty(ticket_patch@) && (ticket_patch@.title is Some ==> title_chars_valid(
            ticket_patch@.title->0,
        )) && (ticket_patch@.description is Some ==> description_chars_valid(
            ticket_patch@.description->0,
        ))) ==> r == Ok::<(), AppError>(()),
{
    if ticket_patch.title.is_none() && ticket_patch.description.is_none()
        && ticket_patch.status.is_none() {
        return Err(AppError::TicketPatchError(TicketPatchError::MustContainOneField));
    }
    if let Some(title) = &ticket_patch.title {
        let title_len = title.as_str().unicode_len();
        if title_len == 0 {
            return Err(AppError::TicketTitleError(TicketTitleError::Empty));
        }
        if title_len > TICKET_TITLE_MAX_LENGTH {
            return Err(AppError::TicketTitleError(TicketTitleError::TooLong(
                TICKET_TITLE_MAX_LENGTH,
            )));
        }
    }
    if let Some(description) = &ticket_patch.description {
        let description_len = description.as_str().unicode_len();
        if description_len == 0 {
            return Err(AppError::TicketDescriptionError(TicketDescriptionError::Empty));
        }
        if description_len > TICKET_DESCRIPTION_MAX_LENGTH {
            return Err(AppError::TicketDescriptionError(TicketDescriptionError::TooLong(
                TICKET_DESCRIPTION_MAX_LENGTH,
            )));
        }
    }
    Ok(())
}

} // verus!
