use macro_lab::greeting::base_greeting_fn;

#[test]
fn greets_with_the_greeting_first() {
    assert_eq!(base_greeting_fn("Sam", "Hello"), "Hello, Sam!");
    assert_eq!(base_greeting_fn("world", "Goodbye"), "Goodbye, world!");
}

#[test]
fn greets_with_empty_parts() {
    assert_eq!(base_greeting_fn("", ""), ", !");
}
