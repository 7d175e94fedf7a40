use hello_form::handlers::{
    GreetingRedirect, SubmitOutcome, empty_form, error_line, error_lines, greeting, has_error,
    submit,
};
use hello_form::validation::{ErrorKind, FieldError, FieldName};

#[test]
fn submit_valid_names_redirects_with_flash() {
    let out = submit(String::from("Max"), String::from("Svensson"));
    assert_eq!(
        out,
        SubmitOutcome::Redirect(GreetingRedirect {
            name: String::from("Max Svensson"),
            flash: String::from("It Worked!"),
        })
    );
}

#[test]
fn submit_empty_first_name_rerenders_form() {
    let out = submit(String::from(""), String::from("Svensson"));
    match out {
        SubmitOutcome::Render(page) => {
            assert_eq!(page.first_name, "");
            assert_eq!(page.last_name, "Svensson");
            assert!(page.first_name_error);
            assert!(!page.last_name_error);
            assert_eq!(page.errors, vec![String::from("first_name: must not be empty")]);
        }
        SubmitOutcome::Redirect(_) => panic!("an empty first name must not succeed"),
    }
}

#[test]
fn submit_digit_in_first_name_reports_invalid_characters() {
    let out = submit(String::from("M4x"), String::from("Svensson"));
    match out {
        SubmitOutcome::Render(page) => {
            assert!(page.first_name_error);
            assert!(!page.last_name_error);
            assert_eq!(
                page.errors,
                vec![String::from("first_name: must contain only letters")]
            );
        }
        SubmitOutcome::Redirect(_) => panic!("a digit in the first name must not succeed"),
    }
}

#[test]
fn submit_two_bad_fields_flags_both() {
    let out = submit(String::from(" "), String::from("S5"));
    match out {
        SubmitOutcome::Render(page) => {
            assert!(page.first_name_error);
            assert!(page.last_name_error);
            assert_eq!(
                page.errors,
                vec![
                    String::from("first_name: must not be empty"),
                    String::from("first_name: must contain only letters"),
                    String::from("last_name: must contain only letters"),
                ]
            );
        }
        SubmitOutcome::Redirect(_) => panic!("two bad fields must not succeed"),
    }
}

#[test]
fn greeting_without_flash_shows_empty_message() {
    let page = greeting(String::from("Max Svensson"), None);
    assert_eq!(page.name, "Max Svensson");
    assert_eq!(page.message, "");
}

#[test]
fn greeting_with_flash_shows_it_once_given() {
    let page = greeting(String::from("Max Svensson"), Some(String::from("It Worked!")));
    assert_eq!(page.name, "Max Svensson");
    assert_eq!(page.message, "It Worked!");
}

#[test]
fn empty_form_has_no_values_and_no_errors() {
    let page = empty_form();
    assert_eq!(page.first_name, "");
    assert_eq!(page.last_name, "");
    assert!(!page.first_name_error);
    assert!(!page.last_name_error);
    assert!(page.errors.is_empty());
}

#[test]
fn error_line_formats_field_and_description() {
    let s = error_line(&FieldError { field: FieldName::LastName, kind: ErrorKind::EmptyField });
    assert_eq!(s, "last_name: must not be empty");
    let s = error_line(&FieldError {
        field: FieldName::FirstName,
        kind: ErrorKind::InvalidCharacters,
    });
    assert_eq!(s, "first_name: must contain only letters");
}

#[test]
fn error_lines_keep_the_order() {
    let errors = vec![
        FieldError { field: FieldName::LastName, kind: ErrorKind::InvalidCharacters },
        FieldError { field: FieldName::FirstName, kind: ErrorKind::EmptyField },
    ];
    let lines = error_lines(&errors);
    assert_eq!(
        lines,
        vec![
            String::from("last_name: must contain only letters"),
            String::from("first_name: must not be empty"),
        ]
    );
}

#[test]
fn has_error_finds_only_the_named_field() {
    let errors = vec![FieldError { field: FieldName::FirstName, kind: ErrorKind::EmptyField }];
    assert!(has_error(&errors, FieldName::FirstName));
    assert!(!has_error(&errors, FieldName::LastName));
    let none: Vec<FieldError> = Vec::new();
    assert!(!has_error(&none, FieldName::FirstName));
}
