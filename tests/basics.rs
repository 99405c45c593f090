use std::cell::RefCell;

use mvp::{add, add_two, greeting, Guess};

#[test]
fn test_assert() {
    let x = 5;
    assert!(x > 3);
    assert!(x > 3, "x should be greater than 3, but got {x}");
}

#[test]
fn test_assert_eq() {
    let x = 5;
    let y = 5;
    assert_eq!(x, y, "x and y should be equal, but got {x} and {y}");
}

#[test]
fn test_assert_ne() {
    let x = 4;
    let y = 5;
    assert_ne!(x, y, "x and y should not be equal, but got {x} and {y}");
}

#[test]
fn greeting_contains_name() {
    let result = greeting("Carol");
    assert!(
        result.contains("Carol"),
        "Greeting did not contain name, value was `{result}`"
    );
}

#[test]
fn greeting_exact_text() {
    assert_eq!(greeting("Carol"), "Hello, Carol!");
}

#[test]
fn it_works() -> Result<(), String> {
    let result = add(2, 2);

    if result == 4 {
        Ok(())
    } else {
        Err(String::from("two plus two does not equal four"))
    }
}

#[test]
fn add_two_adds_two() {
    assert_eq!(add_two(0), 2);
    assert_eq!(add_two(40), 42);
}

#[test]
fn guess_keeps_its_value() {
    assert_eq!(Guess::new(1).value(), 1);
    assert_eq!(Guess::new(100).value(), 100);
}

#[test]
fn test_refcell_borrowing() {
    let x = RefCell::new(5);
    {
        let mut y = x.borrow_mut();
        *y += 1;
    }
    {
        let z = x.borrow();
        assert_eq!(*z, 6);
    }
}
