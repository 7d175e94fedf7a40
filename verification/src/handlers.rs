//! Handler orchestration: what each request handler shows next. Every
//! request is independent; these functions are pure and the four outcomes
//! are the empty form, the form re-rendered with errors, a redirect to the
//! greeting page, and the greeting page itself.

use vstd::prelude::*;
use crate::validation::{
    ErrorKind, FieldError, FieldName, ValidationResult, ValidationView, spec_errors,
    spec_validate, validate,
};

verus! {

/// The context the form view is rendered with: the raw values to redisplay,
/// one flag per field saying whether it has at least one error, and every
/// finding formatted as `"<field>: <description>"`.
#[derive(PartialEq, Eq, Debug)]
pub struct FormPage {
    pub first_name: String,
    pub last_name: String,
    pub first_name_error: bool,
    pub last_name_error: bool,
    pub errors: Vec<String>,
}

/// A successful submission: redirect to the greeting page carrying the
/// display name, with a one-time flash message attached.
#[derive(PartialEq, Eq, Debug)]
pub struct GreetingRedirect {
    pub name: String,
    pub flash: String,
}

/// What the submit handler decides: redirect on success, re-render on failure.
#[derive(PartialEq, Eq, Debug)]
pub enum SubmitOutcome {
    Redirect(GreetingRedirect),
    Render(FormPage),
}

/// The context the greeting view is rendered with.
#[derive(PartialEq, Eq, Debug)]
pub struct GreetingPage {
    pub name: String,
    pub message: String,
}

/// The name a field is reported under.
pub open spec fn spec_field_name(f: FieldName) -> Seq<char> {
    match f {
        FieldName::FirstName => "first_name"@,
        FieldName::LastName => "last_name"@,
    }
}

/// The human-readable description of a finding.
pub open spec fn spec_description(k: ErrorKind) -> Seq<char> {
    match k {
        ErrorKind::EmptyField => "must not be empty"@,
        ErrorKind::InvalidCharacters => "must contain only letters"@,
    }
}

/// A finding formatted for display: `"<field>: <description>"`.
pub open spec fn spec_error_line(e: FieldError) -> Seq<char> {
    spec_field_name(e.field) + ": "@ + spec_description(e.kind)
}

/// `errors` holds at least one finding for `f`.
pub open spec fn has_error_for(errors: Seq<FieldError>, f: FieldName) -> bool {
    exists|i: int| 0 <= i < errors.len() && errors[i].field == f
}

fn field_name_text(f: FieldName) -> (s: &'static str)
    ensures
        s@ == spec_field_name(f),
{
    match f {
        FieldName::FirstName => "first_name",
        FieldName::LastName => "last_name",
    }
}

fn description_text(k: ErrorKind) -> (s: &'static str)
    ensures
        s@ == spec_description(k),
{
    match k {
        ErrorKind::EmptyField => "must not be empty",
        ErrorKind::InvalidCharacters => "must contain only letters",
    }
}

/// Formats one finding for display.
pub fn error_line(e: &FieldError) -> (s: String)
    ensures
        s@ == spec_error_line(*e),
{
    let mut s = String::from_str(field_name_text(e.field));
    s.append(": ");
    s.append(description_text(e.kind));
    s
}

/// Formats every finding, keeping the order.
pub fn error_lines(errors: &Vec<FieldError>) -> (lines: Vec<String>)
    ensures
        lines@.len() == errors@.len(),
        forall|i: int| 0 <= i < errors@.len() ==> lines@[i]@ == spec_error_line(errors@[i]),
{
    let mut lines: Vec<String> = Vec::new();
    let mut i: usize = 0;
    while i < errors.len()
        invariant
            i <= errors@.len(),
            lines@.len() == i,
            forall|j: int| 0 <= j < i ==> lines@[j]@ == spec_error_line(errors@[j]),
        decreases errors@.len() - i,
    {
        lines.push(error_line(&errors[i]));
        i += 1;
    }
    lines
}

/// Whether any finding concerns `f`.
pub fn has_error(errors: &Vec<FieldError>, f: FieldName) -> (b: bool)
    ensures
        b == has_error_for(errors@, f),
{
    let mut i: usize = 0;
    while i < errors.len()
        invariant
            i <= errors@.len(),
            forall|j: int| 0 <= j < i ==> errors@[j].field != f,
        decreases errors@.len() - i,
    {
        if errors[i].field == f {
            assert(errors@[i as int].field == f);
            return true;
        }
        i += 1;
    }
    false
}

/// The flash message attached to a successful submission.
pub open spec fn spec_success_flash() -> Seq<char> {
    "It Worked!"@
}

/// The display name of a successful submission: `"<first> <last>"`.
pub open spec fn spec_display_name(first: Seq<char>, last: Seq<char>) -> Seq<char> {
    first + " "@ + last
}

/// The submit handler. On a valid submission it redirects to the greeting
/// page, carrying the display name and the success flash message; on an
/// invalid one it re-renders the form with the raw values the user typed,
/// a per-field error flag, and every finding formatted for display.
pub fn submit(first_name: String, last_name: String) -> (out: SubmitOutcome)
    ensures
        spec_validate(first_name@, last_name@) matches ValidationView::Accepted { .. } ==> (
        out matches SubmitOutcome::Redirect(r) && r.name@ == spec_display_name(
            first_name@,
            last_name@,
        ) && r.flash@ == spec_success_flash()),
        spec_validate(first_name@, last_name@) matches ValidationView::Rejected { errors, .. }
            ==> (out matches SubmitOutcome::Render(page) && page.first_name@ == first_name@
            && page.last_name@ == last_name@ && page.first_name_error == has_error_for(
            errors,
            FieldName::FirstName,
        ) && page.last_name_error == has_error_for(errors, FieldName::LastName)
            && page.errors@.len() == errors.len() && (forall|i: int|
            0 <= i < errors.len() ==> page.errors@[i]@ == spec_error_line(errors[i]))),
{
    match validate(first_name, last_name) {
        ValidationResult::Valid(p) => {
            let mut name = p.first_name;
            name.append(" ");
            name.append(p.last_name.as_str());
            SubmitOutcome::Redirect(
                GreetingRedirect { name, flash: String::from_str("It Worked!") },
            )
        },
        ValidationResult::Invalid(e) => {
            let first_name_error = has_error(&e.errors, FieldName::FirstName);
            let last_name_error = has_error(&e.errors, FieldName::LastName);
            let errors = error_lines(&e.errors);
            SubmitOutcome::Render(
                FormPage {
                    first_name: e.first_name,
                    last_name: e.last_name,
                    first_name_error,
                    last_name_error,
                    errors,
                },
            )
        },
    }
}

/// The greeting handler: shows the name from the query and the pending
/// flash message, or an empty message when none is pending.
pub fn greeting(name: String, flash: Option<String>) -> (page: GreetingPage)
    ensures
        page.name@ == name@,
        flash matches Some(m) ==> page.message@ == m@,
        flash is None ==> page.message@ == Seq::<char>::empty(),
{
    let message = match flash {
        Some(m) => m,
        None => String::new(),
    };
    GreetingPage { name, message }
}

/// The form handler: the form view with nothing pre-filled and no errors.
pub fn empty_form() -> (page: FormPage)
    ensures
        page.first_name@ == Seq::<char>::empty(),
        page.last_name@ == Seq::<char>::empty(),
        !page.first_name_error,
        !page.last_name_error,
        page.errors@ == Seq::<String>::empty(),
{
    FormPage {
        first_name: String::new(),
        last_name: String::new(),
        first_name_error: false,
        last_name_error: false,
        errors: Vec::new(),
    }
}

} // verus!
