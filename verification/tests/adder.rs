use rust_book::adder;
use rust_book::adder::{divide, greetings, Rectangle};

#[test]
fn it_works() {
    let result = adder::add(2, 2);
    assert_eq!(result, 4);
}

#[test]
fn larger_can_hold_smaller() {
    let larger = Rectangle {
        width: 8,
        height: 7,
    };
    let smaller = Rectangle {
        width: 5,
        height: 1,
    };
    assert!(larger.can_hold(&smaller));
}

#[test]
fn smaller_cannot_hold_larger() {
    let larger = Rectangle {
        width: 8,
        height: 7,
    };
    let smaller = Rectangle {
        width: 5,
        height: 1,
    };
    assert!(!smaller.can_hold(&larger));
}

#[test]
fn greetings_contains_name() {
    let result = greetings("Carol");
    assert!(
        result.contains("Carol"),
        "Greeting did not contain name, value was `{}`",
        result
    );
}

#[test]
#[should_panic]
fn should_panic() {
    let result = adder::add(100, 1);
    assert_eq!(result, 1);
}

#[test]
#[should_panic(expected = "assertion `left == right` failed\n  left: 101\n right: 1")]
fn should_panic_with_message() {
    let result = adder::add(100, 1);
    assert_eq!(result, 1);
}

#[test]
fn it_works_with_result() -> Result<(), String> {
    if adder::add(2, 2) == 4 {
        Ok(())
    } else {
        Err(String::from("Two plus two does not equal four"))
    }
}

#[test]
fn divide_by_zero() -> Result<(), String> {
    let result = divide(10, 0);
    if result.is_err() {
        return Ok(());
    }
    Err(String::from("Test failed"))
}

#[test]
fn divide_gives_the_whole_quotient() {
    assert_eq!(divide(10, 3), Ok(3));
    assert_eq!(divide(0, 7), Ok(0));
    assert_eq!(divide(usize::MAX, 1), Ok(usize::MAX));
}

#[test]
fn divide_says_why_it_cannot() {
    assert_eq!(divide(10, 0), Err(String::from("Cannot divide by zero")));
    assert_eq!(divide(0, 0), Err(String::from("Cannot divide by zero")));
}

#[test]
fn add_reaches_the_largest_number() {
    assert_eq!(adder::add(usize::MAX - 1, 1), usize::MAX);
    assert_eq!(adder::add(0, 0), 0);
}

#[test]
fn greetings_is_spelled_out() {
    assert_eq!(greetings("Carol"), "Hello, Carol!");
    assert_eq!(greetings(""), "Hello, !");
}

#[test]
fn rectangle_needs_room_on_both_sides() {
    let rectangle = Rectangle { width: 8, height: 7 };
    assert!(!rectangle.can_hold(&Rectangle { width: 8, height: 1 }));
    assert!(!rectangle.can_hold(&Rectangle { width: 1, height: 7 }));
    assert!(!rectangle.can_hold(&Rectangle { width: 8, height: 7 }));
    assert!(rectangle.can_hold(&Rectangle { width: 7, height: 6 }));
}
