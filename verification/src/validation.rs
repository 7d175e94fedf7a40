//! The validator: checks the raw `first_name` and `last_name` form values
//! against the rules for a valid submission, and reports every rule a field
//! breaks. It is a pure function of its input and has no side effects.
//!
//! A field passes when it is non-empty and consists of letters only; the
//! alphabet accepted is the ASCII one. A field that is empty, or blank after
//! trimming whitespace, gets an `EmptyField` error; one that contains any
//! non-letter character gets an `InvalidCharacters` error. A blank but
//! non-empty field therefore collects both.

use vstd::prelude::*;

verus! {

/// A form field of the submission; the form has exactly these two.
#[derive(Clone, Copy, PartialEq, Eq, Structural, Debug)]
pub enum FieldName {
    FirstName,
    LastName,
}

/// The reason a field failed validation.
#[derive(Clone, Copy, PartialEq, Eq, Structural, Debug)]
pub enum ErrorKind {
    /// The field was missing, empty, or blank after trimming whitespace.
    EmptyField,
    /// The field contained a character that is not a letter.
    InvalidCharacters,
}

/// One validation finding: which field failed, and why.
#[derive(Clone, Copy, PartialEq, Eq, Structural, Debug)]
pub struct FieldError {
    pub field: FieldName,
    pub kind: ErrorKind,
}

/// The characters the validator accepts: the ASCII letters.
pub open spec fn is_letter(c: char) -> bool {
    ('a' <= c && c <= 'z') || ('A' <= c && c <= 'Z')
}

/// The whitespace characters trimming removes: the ASCII whitespace set.
pub open spec fn is_space(c: char) -> bool {
    c == ' ' || c == '\t' || c == '\n' || c == '\r' || c == '\x0C'
}

/// Every character of `s` is a letter.
pub open spec fn all_letters(s: Seq<char>) -> bool {
    forall|i: int| 0 <= i < s.len() ==> is_letter(s[i])
}

/// `s` is empty once whitespace is trimmed: every character is whitespace.
pub open spec fn blank(s: Seq<char>) -> bool {
    forall|i: int| 0 <= i < s.len() ==> is_space(s[i])
}

/// A field value that passes validation outright.
pub open spec fn field_ok(s: Seq<char>) -> bool {
    !blank(s) && all_letters(s)
}

/// The errors one field collects, in the order they are checked:
/// emptiness first, then the character rule.
pub open spec fn errors_for(field: FieldName, s: Seq<char>) -> Seq<FieldError> {
    (if blank(s) {
        seq![FieldError { field, kind: ErrorKind::EmptyField }]
    } else {
        Seq::empty()
    }) + (if !all_letters(s) {
        seq![FieldError { field, kind: ErrorKind::InvalidCharacters }]
    } else {
        Seq::empty()
    })
}

/// All errors of a submission: the first name's findings, then the last name's.
pub open spec fn spec_errors(first: Seq<char>, last: Seq<char>) -> Seq<FieldError> {
    errors_for(FieldName::FirstName, first) + errors_for(FieldName::LastName, last)
}

fn char_is_letter(c: char) -> (b: bool)
    ensures
        b == is_letter(c),
{
    ('a' <= c && c <= 'z') || ('A' <= c && c <= 'Z')
}

fn char_is_space(c: char) -> (b: bool)
    ensures
        b == is_space(c),
{
    c == ' ' || c == '\t' || c == '\n' || c == '\r' || c == '\x0C'
}

/// A validated submission. A value of this type exists only for input on
/// which both fields passed validation; there is no partially valid `Person`.
#[derive(PartialEq, Eq, Debug)]
pub struct Person {
    pub first_name: String,
    pub last_name: String,
}

impl Person {
    /// Both fields pass validation.
    pub open spec fn wf(self) -> bool {
        field_ok(self.first_name@) && field_ok(self.last_name@)
    }
}

/// A failed submission: the raw values the user typed, kept so the caller
/// can redisplay them, and every finding of the validator.
#[derive(PartialEq, Eq, Debug)]
pub struct FormErrors {
    pub first_name: String,
    pub last_name: String,
    pub errors: Vec<FieldError>,
}

/// What validation produced: a valid `Person`, or the findings.
#[derive(PartialEq, Eq, Debug)]
pub enum ValidationResult {
    Valid(Person),
    Invalid(FormErrors),
}

/// The mathematical value of a `ValidationResult`.
#[verifier::ext_equal]
pub enum ValidationView {
    Accepted { first: Seq<char>, last: Seq<char> },
    Rejected { first: Seq<char>, last: Seq<char>, errors: Seq<FieldError> },
}

impl View for ValidationResult {
    type V = ValidationView;

    open spec fn view(&self) -> ValidationView {
        match self {
            ValidationResult::Valid(p) => ValidationView::Accepted {
                first: p.first_name@,
                last: p.last_name@,
            },
            ValidationResult::Invalid(e) => ValidationView::Rejected {
                first: e.first_name@,
                last: e.last_name@,
                errors: e.errors@,
            },
        }
    }
}

/// What validating a submission yields: accepted exactly when no field
/// collects an error, and otherwise rejected with every finding.
pub open spec fn spec_validate(first: Seq<char>, last: Seq<char>) -> ValidationView {
    if spec_errors(first, last).len() == 0 {
        ValidationView::Accepted { first, last }
    } else {
        ValidationView::Rejected { first, last, errors: spec_errors(first, last) }
    }
}

/// Whether `s` is empty or whitespace-only.
pub fn text_is_blank(s: &str) -> (b: bool)
    ensures
        b == blank(s@),
{
    let len = s.unicode_len();
    let mut i: usize = 0;
    while i < len
        invariant
            i <= len,
            len == s@.len(),
            forall|j: int| 0 <= j < i ==> is_space(s@[j]),
        decreases len - i,
    {
        let c = s.get_char(i);
        if !char_is_space(c) {
            assert(!is_space(s@[i as int]));
            return false;
        }
        i += 1;
    }
    true
}

/// Whether every character of `s` is a letter.
pub fn text_all_letters(s: &str) -> (b: bool)
    ensures
        b == all_letters(s@),
{
    let len = s.unicode_len();
    let mut i: usize = 0;
    while i < len
        invariant
            i <= len,
            len == s@.len(),
            forall|j: int| 0 <= j < i ==> is_letter(s@[j]),
        decreases len - i,
    {
        let c = s.get_char(i);
        if !char_is_letter(c) {
            assert(!is_letter(s@[i as int]));
            return false;
        }
        i += 1;
    }
    true
}

/// Checks the raw form values and produces either a valid `Person` or the
/// full list of findings together with the raw values for redisplay.
pub fn validate(first_name: String, last_name: String) -> (r: ValidationResult)
    ensures
        r@ == spec_validate(first_name@, last_name@),
        (r matches ValidationResult::Valid(p) ==> p.wf()),
{
    let mut errors: Vec<FieldError> = Vec::new();

    let first_blank = text_is_blank(first_name.as_str());
    let first_letters = text_all_letters(first_name.as_str());
    if first_blank {
        errors.push(FieldError { field: FieldName::FirstName, kind: ErrorKind::EmptyField });
    }
    if !first_letters {
        errors.push(
            FieldError { field: FieldName::FirstName, kind: ErrorKind::InvalidCharacters },
        );
    }

    let last_blank = text_is_blank(last_name.as_str());
    let last_letters = text_all_letters(last_name.as_str());
    if last_blank {
        errors.push(FieldError { field: FieldName::LastName, kind: ErrorKind::EmptyField });
    }
    if !last_letters {
        errors.push(FieldError { field: FieldName::LastName, kind: ErrorKind::InvalidCharacters });
    }

    proof {
        assert(errors@ =~= spec_errors(first_name@, last_name@));
    }

    if errors.len() == 0 {
        ValidationResult::Valid(Person { first_name, last_name })
    } else {
        ValidationResult::Invalid(FormErrors { first_name, last_name, errors })
    }
}

/// The text of a possibly absent raw field value: absent reads as empty.
pub open spec fn raw_text(v: Option<String>) -> Seq<char> {
    match v {
        Some(s) => s@,
        None => Seq::empty(),
    }
}

/// The raw value of a possibly absent field, with absent read as empty.
pub fn or_empty(v: Option<String>) -> (s: String)
    ensures
        s@ == raw_text(v),
{
    match v {
        Some(s) => s,
        None => String::new(),
    }
}

/// Checks a submission whose fields may be absent: an absent field counts
/// as empty, and so collects an `EmptyField` error.
pub fn validate_form(first_name: Option<String>, last_name: Option<String>) -> (r:
    ValidationResult)
    ensures
        r@ == spec_validate(raw_text(first_name), raw_text(last_name)),
        (r matches ValidationResult::Valid(p) ==> p.wf()),
{
    validate(or_empty(first_name), or_empty(last_name))
}

/// Law: a submission whose two fields are non-empty and purely alphabetic
/// is accepted, unchanged and with no findings.
pub proof fn lemma_valid_fields_accepted(first: Seq<char>, last: Seq<char>)
    requires
        first.len() > 0,
        all_letters(first),
        last.len() > 0,
        all_letters(last),
    ensures
        spec_validate(first, last) == (ValidationView::Accepted { first, last }),
{
    assert(is_letter(first[0]) && !is_space(first[0]));
    assert(is_letter(last[0]) && !is_space(last[0]));
    assert(spec_errors(first, last).len() == 0);
}

/// Law: a submission with an empty or whitespace-only field is rejected,
/// and the findings report `EmptyField` for that field.
pub proof fn lemma_blank_field_rejected(first: Seq<char>, last: Seq<char>)
    requires
        blank(first) || blank(last),
    ensures
        spec_validate(first, last) matches ValidationView::Rejected { errors, .. } && (blank(first)
            ==> errors.contains(
            (FieldError { field: FieldName::FirstName, kind: ErrorKind::EmptyField }),
        )) && (blank(last) ==> errors.contains(
            (FieldError { field: FieldName::LastName, kind: ErrorKind::EmptyField }),
        )),
{
    let es = spec_errors(first, last);
    let ef = errors_for(FieldName::FirstName, first);
    if blank(first) {
        let e = FieldError { field: FieldName::FirstName, kind: ErrorKind::EmptyField };
        assert(es[0] == e);
        assert(es.contains(e));
    }
    if blank(last) {
        let e = FieldError { field: FieldName::LastName, kind: ErrorKind::EmptyField };
        assert(es[ef.len() as int] == e);
        assert(es.contains(e));
    }
    assert(es.len() > 0);
}

/// Law: a submission with a field containing any non-letter character is
/// rejected, and the findings report `InvalidCharacters` for that field.
pub proof fn lemma_invalid_characters_rejected(first: Seq<char>, last: Seq<char>)
    requires
        !all_letters(first) || !all_letters(last),
    ensures
        spec_validate(first, last) matches ValidationView::Rejected { errors, .. } && (!all_letters(
            first,
        ) ==> errors.contains(
            (FieldError { field: FieldName::FirstName, kind: ErrorKind::InvalidCharacters }),
        )) && (!all_letters(last) ==> errors.contains(
            (FieldError { field: FieldName::LastName, kind: ErrorKind::InvalidCharacters }),
        )),
{
    let es = spec_errors(first, last);
    let ef = errors_for(FieldName::FirstName, first);
    let el = errors_for(FieldName::LastName, last);
    if !all_letters(first) {
        let e = FieldError { field: FieldName::FirstName, kind: ErrorKind::InvalidCharacters };
        assert(es[ef.len() - 1] == e);
        assert(es.contains(e));
    }
    if !all_letters(last) {
        let e = FieldError { field: FieldName::LastName, kind: ErrorKind::InvalidCharacters };
        assert(es[ef.len() + el.len() - 1] == e);
        assert(es.contains(e));
    }
    assert(es.len() > 0);
}

/// Law: validation is a pure function of its input, so validating the same
/// input twice yields identical results.
pub proof fn lemma_validate_idempotent(
    first: Seq<char>,
    last: Seq<char>,
    r1: ValidationResult,
    r2: ValidationResult,
)
    requires
        r1@ == spec_validate(first, last),
        r2@ == spec_validate(first, last),
    ensures
        r1@ == r2@,
{
}

} // verus!
