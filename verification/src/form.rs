//! The diagnostic endpoint that echoes one field of a submitted form.

use vstd::prelude::*;
use vstd::string::*;
use crate::reply::{failure, outcome_view, Failure, FailureKind, OutcomeView, Reply, ReplyView};

verus! {

/// What a form holds under a name.
#[derive(Debug, PartialEq, Eq)]
pub enum FormEntry {
    /// A text field, with its value.
    Field(String),
    /// A file attachment.
    File,
}

/// The mathematical content of a [`FormEntry`].
pub ghost enum FormEntryView {
    Field(Seq<char>),
    File,
}

impl View for FormEntry {
    type V = FormEntryView;

    open spec fn view(&self) -> FormEntryView {
        match *self {
            FormEntry::Field(value) => FormEntryView::Field(value@),
            FormEntry::File => FormEntryView::File,
        }
    }
}

/// The view of what was found under a name, if anything.
pub open spec fn entry_view(entry: Option<FormEntry>) -> Option<FormEntryView> {
    match entry {
        Some(e) => Some(e@),
        None => None,
    }
}

/// The echo: a text field comes back as the one member of a JSON object; a
/// file is refused; a field that the form lacks is a bad request.
pub open spec fn form_echo(field: Seq<char>, entry: Option<FormEntryView>) -> OutcomeView {
    match entry {
        Some(FormEntryView::Field(value)) => Ok(
            ReplyView::Json { status: 200, members: seq![(field, value)] },
        ),
        Some(FormEntryView::File) => Err(
            failure(FailureKind::InvalidInput, 422, "`field` param in form shouldn't be a File"@),
        ),
        None => Err(failure(FailureKind::InvalidInput, 400, "Bad Request"@)),
    }
}

/// Answers a request to echo the field named `field`, given what the
/// submitted form holds under that name.
pub fn handle_form_echo(field: &str, entry: Option<FormEntry>) -> (outcome: Result<Reply, Failure>)
    ensures
        outcome_view(outcome) == form_echo(field@, entry_view(entry)),
{
    match entry {
        Some(FormEntry::Field(value)) => {
            let mut members: Vec<(String, String)> = Vec::new();
            members.push((field.to_owned(), value));
            assert(members.deep_view() =~= seq![(field@, value@)]);
            Ok(Reply::Json { status: 200, members })
        },
        Some(FormEntry::File) => Err(
            Failure::new(
                FailureKind::InvalidInput,
                422,
                "`field` param in form shouldn't be a File",
            ),
        ),
        None => Err(Failure::new(FailureKind::InvalidInput, 400, "Bad Request")),
    }
}

} // verus!
