use lessons::logs::{extract_errors, validate_email, validate_ingredients};

#[test]
fn extract_errors_keeps_error_lines_in_order() {
    let text = "ERROR disk full\nINFO all good\nERROR no space\nWARN odd";
    assert_eq!(
        extract_errors(text),
        vec![String::from("ERROR disk full"), String::from("ERROR no space")]
    );
}

#[test]
fn extract_errors_on_empty_text() {
    assert_eq!(extract_errors(""), Vec::<String>::new());
}

#[test]
fn extract_errors_single_line_without_newline() {
    assert_eq!(extract_errors("ERROR"), vec![String::from("ERROR")]);
    assert_eq!(extract_errors("INFO"), Vec::<String>::new());
}

#[test]
fn extract_errors_with_trailing_newline_and_blank_lines() {
    let text = "\nERROR a\n\nERROR b\n";
    assert_eq!(
        extract_errors(text),
        vec![String::from("ERROR a"), String::from("ERROR b")]
    );
}

#[test]
fn extract_errors_requires_the_prefix_at_the_start() {
    let text = "an ERROR in the middle\nERRO too short";
    assert_eq!(extract_errors(text), Vec::<String>::new());
}

#[test]
fn validate_email_accepts_an_at_sign() {
    assert!(validate_email(String::from("hello@world.com")).is_ok());
}

#[test]
fn validate_email_rejects_without_at_sign() {
    let outcome = validate_email(String::from("helloworld.com"));
    assert_eq!(outcome.unwrap_err(), "emails must have an @");
}

#[test]
fn validate_ingredients_boundary() {
    let three = vec![
        String::from("Cheese"),
        String::from("Tomato"),
        String::from("Salt"),
    ];
    assert!(validate_ingredients(&three).is_ok());

    let four = vec![
        String::from("Cheese"),
        String::from("Tomato"),
        String::from("Salt"),
        String::from("Onions"),
    ];
    let outcome = validate_ingredients(&four);
    assert_eq!(outcome.unwrap_err(), "too many ingredients");
}
