//! A small library behind a name-entry web form: it validates the submitted
//! first and last name, and decides what each request handler shows next —
//! a redirect to the greeting page on success, or the form again with
//! per-field error annotations on failure.

pub mod handlers;
pub mod validation;
