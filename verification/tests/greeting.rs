use ketav::greeting::greet;

#[test]
fn greet_plain_name() {
    assert_eq!(greet("World"), "Hello, World! You've been greeted from Rust!");
}

#[test]
fn greet_empty_name() {
    assert_eq!(greet(""), "Hello, ! You've been greeted from Rust!");
}

#[test]
fn greet_name_with_spaces_and_punctuation() {
    assert_eq!(
        greet("Ada Lovelace, Esq."),
        "Hello, Ada Lovelace, Esq.! You've been greeted from Rust!"
    );
}

#[test]
fn greet_name_beyond_ascii() {
    assert_eq!(greet("Zoë 読書家"), "Hello, Zoë 読書家! You've been greeted from Rust!");
}

#[test]
fn greet_has_no_other_side_channel() {
    let first = greet("reader");
    let second = greet("reader");
    assert_eq!(first, second);
    assert_eq!(first, "Hello, reader! You've been greeted from Rust!");
}
