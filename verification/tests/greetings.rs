use imposclib::greetings::{hello, index};

#[test]
fn index_greets_the_world() {
    assert_eq!(index(), "Hello, world!");
}

#[test]
fn hello_greets_by_name() {
    assert_eq!(hello(String::from("world")), String::from("Hello, world!"));
    assert_eq!(hello(String::from("Verus")), String::from("Hello, Verus!"));
    assert_eq!(hello(String::new()), String::from("Hello, !"));
}
