use property_backend::greeting::greet;

#[test]
fn greet_builds_the_greeting() {
    assert_eq!(greet("World"), "Hello, World!");
}

#[test]
fn greet_keeps_the_name_as_given() {
    assert_eq!(greet("Alice Johnson"), "Hello, Alice Johnson!");
}

#[test]
fn greet_with_empty_name() {
    assert_eq!(greet(""), "Hello, !");
}
