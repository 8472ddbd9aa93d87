use lessons::text::{explode, find_color_or, move_elements, shorten_string, str_contains, to_uppercase};

#[test]
fn shorten_string_keeps_first_characters() {
    let mut colors = vec![String::from("blue"), String::from("green"), String::from("red")];
    shorten_string(&mut colors);
    assert_eq!(colors, vec![String::from("b"), String::from("g"), String::from("r")]);
}

#[test]
fn shorten_string_leaves_empty_strings_empty() {
    let mut elements = vec![String::new(), String::from("x")];
    shorten_string(&mut elements);
    assert_eq!(elements, vec![String::new(), String::from("x")]);
}

#[test]
fn to_uppercase_makes_new_uppercased_elements() {
    let colors = vec![String::from("blue"), String::from("Green"), String::from("rED")];
    let uppercased = to_uppercase(&colors);
    assert_eq!(
        uppercased,
        vec![String::from("BLUE"), String::from("GREEN"), String::from("RED")]
    );
    assert_eq!(colors[0], "blue");
}

#[test]
fn move_elements_appends_in_order() {
    let source = vec![String::from("x"), String::from("y")];
    let mut destination = vec![String::from("z")];
    move_elements(source, &mut destination);
    assert_eq!(
        destination,
        vec![String::from("z"), String::from("x"), String::from("y")]
    );
}

#[test]
fn explode_splits_into_single_characters() {
    let exploded = explode(&[String::from("hi"), String::new()]);
    assert_eq!(exploded.len(), 2);
    assert_eq!(exploded[0], vec![String::from("h"), String::from("i")]);
    assert!(exploded[1].is_empty());
}

#[test]
fn str_contains_finds_runs() {
    assert!(str_contains("green", "re"));
    assert!(str_contains("green", ""));
    assert!(str_contains("green", "green"));
    assert!(!str_contains("green", "greens"));
    assert!(!str_contains("blue", "re"));
}

#[test]
fn find_color_or_first_match_or_fallback() {
    let colors = vec![String::from("blue"), String::from("green"), String::from("red")];
    assert_eq!(find_color_or(&colors, "re", "orange"), "green");
    assert_eq!(find_color_or(&colors, "ry", "orange"), "orange");
}
