//! The journal handlers' decisions: which rows to read, write or delete for
//! the user of the session, and what the rows that came back stand for.

use crate::error::{axum_form_rejection, AppError, CallSite, CallSiteView, ErrorKind};
use crate::extract::{
    check_not_empty, must_not_be_empty, views, FieldError, FieldErrorView, Validate,
};
use crate::ids::{now_v7, parse_uuid, uuid_text_value};
use crate::session::Session;
use crate::text::concatenate;
use chrono::NaiveDate;
use vstd::prelude::*;

verus! {

/// A calendar date, as `chrono` holds it. The library carries dates through
/// and never looks inside one.
#[verifier::external_type_specification]
#[verifier::external_body]
pub struct ExNaiveDate(chrono::NaiveDate);

/// The response header that tells the page to reload the entries after a
/// successful change.
pub const HX_TRIGGER: &'static str = "HX-Trigger";

/// The value of [`HX_TRIGGER`].
pub const LOAD_JOURNAL_ENTRIES: &'static str = "load-journal-entries";

/// What precedes the offending text in the cause of an entry whose identifier
/// is no UUID.
pub const INVALID_ENTRY_ID: &'static str = "invalid entry id: ";

/// A journal entry.
#[derive(Debug, PartialEq, Eq)]
pub struct Entry {
    pub date: NaiveDate,
    pub id: u128,
    pub content: String,
}

/// The form that creates or changes an entry. The value may not be empty; the
/// identifier is absent for a new entry.
#[derive(Debug, PartialEq, Eq)]
pub struct EntryForm {
    pub id: Option<String>,
    pub value: String,
}

/// The path parameters that name one entry.
#[derive(Debug, PartialEq, Eq)]
pub struct DateAndId {
    pub date: NaiveDate,
    pub id: u128,
}

impl Validate for EntryForm {
    open spec fn failures(&self) -> Seq<FieldErrorView> {
        must_not_be_empty("value"@, self.value@)
    }

    fn validate(&self) -> (r: Result<(), Vec<FieldError>>) {
        let mut errors: Vec<FieldError> = Vec::new();
        assert(views(errors@) =~= Seq::<FieldErrorView>::empty());
        check_not_empty(&mut errors, "value", self.value.as_str());
        proof {
            assert(views(errors@) =~= self.failures());
        }
        if errors.len() == 0 {
            Ok(())
        } else {
            Err(errors)
        }
    }
}

/// The rows to read: the entries of one user on one date.
#[derive(Debug, PartialEq, Eq)]
pub struct EntryQuery {
    pub user_id: u128,
    pub date: NaiveDate,
}

/// The row to write.
#[derive(Debug, PartialEq, Eq)]
pub struct EntryWrite {
    pub user_id: u128,
    pub date: NaiveDate,
    pub id: u128,
    pub content: String,
}

/// The mathematical content of an [`EntryWrite`].
pub struct EntryWriteView {
    pub user_id: u128,
    pub date: NaiveDate,
    pub id: u128,
    pub content: Seq<char>,
}

impl View for EntryWrite {
    type V = EntryWriteView;

    open spec fn view(&self) -> EntryWriteView {
        EntryWriteView {
            user_id: self.user_id,
            date: self.date,
            id: self.id,
            content: self.content@,
        }
    }
}

/// The row to delete.
#[derive(Debug, PartialEq, Eq)]
pub struct EntryDelete {
    pub user_id: u128,
    pub date: NaiveDate,
    pub id: u128,
}

/// The entries that the rows of one date stand for: row by row, the row's
/// identifier and content under the date that was asked for.
pub fn entries_from_rows(date: NaiveDate, rows: &Vec<(u128, String)>) -> (entries: Vec<Entry>)
    ensures
        entries@.len() == rows@.len(),
        forall|i: int|
            0 <= i < rows@.len() ==> {
                &&& (#[trigger] entries@[i]).date == date
                &&& entries@[i].id == rows@[i].0
                &&& entries@[i].content@ == rows@[i].1@
            },
{
    let mut entries: Vec<Entry> = Vec::new();
    let mut i: usize = 0;
    while i < rows.len()
        invariant
            i <= rows@.len(),
            entries@.len() == i,
            forall|j: int|
                0 <= j < i ==> {
                    &&& (#[trigger] entries@[j]).date == date
                    &&& entries@[j].id == rows@[j].0
                    &&& entries@[j].content@ == rows@[j].1@
                },
        decreases rows@.len() - i,
    {
        entries.push(Entry { date, id: rows[i].0, content: rows[i].1.clone() });
        i = i + 1;
    }
    entries
}

/// The rows that the entries page of `date` reads: those of the session's user.
pub fn get_journal_entries(session: &Session, date: NaiveDate) -> (query: EntryQuery)
    ensures
        query.user_id == session.user_id,
        query.date == date,
{
    EntryQuery { user_id: session.user_id, date }
}

/// The error for a form whose entry identifier is no UUID.
pub open spec fn invalid_entry_id(text: Seq<char>, location: CallSiteView) -> ErrorKind {
    ErrorKind::BadRequestError { location, source: INVALID_ENTRY_ID@ + text }
}

/// The identifier that a form names: none for a new entry, else the UUID
/// written in the form. An identifier that is no UUID makes the form malformed.
pub fn entry_id(form_id: &Option<String>, location: CallSite) -> (r: Result<Option<u128>, AppError>)
    ensures
        match form_id {
            None => r == Ok::<Option<u128>, AppError>(None),
            Some(text) => match uuid_text_value(text@) {
                Some(id) => r == Ok::<Option<u128>, AppError>(Some(id)),
                None => r matches Err(e) && e@ == invalid_entry_id(text@, location@),
            },
        },
{
    match form_id {
        None => Ok(None),
        Some(text) => match parse_uuid(text.as_str()) {
            Some(id) => Ok(Some(id)),
            None => Err(axum_form_rejection(location, concatenate(INVALID_ENTRY_ID, text.as_str()))),
        },
    }
}

/// The row that writes `content` for the session's user on `date` under `id`.
pub fn entry_write(session: &Session, date: NaiveDate, id: u128, content: &str) -> (write:
    EntryWrite)
    ensures
        write@ == (EntryWriteView { user_id: session.user_id, date, id, content: content@ }),
{
    EntryWrite { user_id: session.user_id, date, id, content: content.to_owned() }
}

/// The row that a validated entry form writes: for the session's user, on
/// `date`, with the form's value as content, under the form's identifier or,
/// for a new entry, under a fresh one. A form whose identifier is no UUID is
/// rejected as malformed and nothing is written.
pub fn update_journal_entry(
    session: &Session,
    date: NaiveDate,
    entry: &EntryForm,
    location: CallSite,
) -> (r: Result<EntryWrite, AppError>)
    ensures
        match r {
            Ok(write) => {
                &&& write@.user_id == session.user_id
                &&& write@.date == date
                &&& write@.content == entry.value@
                &&& entry.id matches Some(text) ==> uuid_text_value(text@) == Some(write@.id)
            },
            Err(e) => entry.id matches Some(text) && uuid_text_value(text@) is None && e@
                == invalid_entry_id(text@, location@),
        },
{
    match entry_id(&entry.id, location) {
        Ok(named) => {
            let id = match named {
                Some(id) => id,
                None => now_v7(),
            };
            Ok(entry_write(session, date, id, entry.value.as_str()))
        },
        Err(e) => Err(e),
    }
}

/// The header that answers a successful change of the entries: it tells the
/// page to load them again.
pub fn mutation_trigger() -> (header: (&'static str, &'static str))
    ensures
        header.0@ == HX_TRIGGER@,
        header.1@ == LOAD_JOURNAL_ENTRIES@,
{
    (HX_TRIGGER, LOAD_JOURNAL_ENTRIES)
}

/// The row that deleting the entry named by `params` removes: the one of the
/// session's user.
pub fn delete_journal_entry(session: &Session, params: &DateAndId) -> (delete: EntryDelete)
    ensures
        delete.user_id == session.user_id,
        delete.date == params.date,
        delete.id == params.id,
{
    EntryDelete { user_id: session.user_id, date: params.date, id: params.id }
}

} // verus!
