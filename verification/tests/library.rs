use greetcalc::greet;
use greetcalc::add_two;
use greetcalc::factorial;
use greetcalc::decimal::to_decimal;
use greetcalc::demo::demo_lines;

#[test]
fn test_greet() {
    assert_eq!(greet("World"), "Hello, World!");
    assert_eq!(greet("Rust"), "Hello, Rust!");
    assert_eq!(greet(""), "Hello, !");
}

#[test]
fn test_add() {
    assert_eq!(greetcalc::add(2, 3), 5);
    assert_eq!(greetcalc::add(-1, 1), 0);
    assert_eq!(greetcalc::add(0, 0), 0);
    assert_eq!(greetcalc::add(100, 200), 300);
}

#[test]
fn test_factorial() {
    assert_eq!(factorial(0), 1);
    assert_eq!(factorial(1), 1);
    assert_eq!(factorial(2), 2);
    assert_eq!(factorial(3), 6);
    assert_eq!(factorial(4), 24);
    assert_eq!(factorial(5), 120);
}

#[test]
fn test_factorial_larger_numbers() {
    assert_eq!(factorial(6), 720);
    assert_eq!(factorial(7), 5040);
}

#[test]
fn test_factorial_largest_argument() {
    assert_eq!(factorial(12), 479001600);
}

#[test]
fn test_add_commutes_on_samples() {
    assert_eq!(greetcalc::add(2, 3), greetcalc::add(3, 2));
    assert_eq!(greetcalc::add(-7, 40), greetcalc::add(40, -7));
    assert_eq!(greetcalc::add(0, -5), greetcalc::add(-5, 0));
}

#[test]
fn test_add_extremes() {
    assert_eq!(greetcalc::add(i32::MAX, 0), i32::MAX);
    assert_eq!(greetcalc::add(i32::MIN, 0), i32::MIN);
    assert_eq!(greetcalc::add(i32::MAX, i32::MIN), -1);
}

#[test]
fn test_add_two() {
    assert_eq!(add_two(2), 4);
    assert_eq!(add_two(-2), 0);
    assert_eq!(add_two(0), greetcalc::add(0, 2));
    assert_eq!(add_two(41), greetcalc::add(41, 2));
}

#[test]
fn test_factorial_recurrence_on_samples() {
    for n in 1u32..=12 {
        assert_eq!(
            factorial(n),
            n * factorial(n - 1)
        );
    }
}

#[test]
fn test_greet_long_name() {
    let name = "a".repeat(1000);
    let message = greet(&name);
    assert_eq!(message, format!("Hello, {}!", name));
}

#[test]
fn test_to_decimal() {
    assert_eq!(to_decimal(0), "0");
    assert_eq!(to_decimal(9), "9");
    assert_eq!(to_decimal(10), "10");
    assert_eq!(to_decimal(120), "120");
    assert_eq!(to_decimal(4294967295), "4294967295");
}

#[test]
fn test_demo_lines() {
    let lines = demo_lines();
    assert_eq!(lines.len(), 3);
    assert_eq!(lines[0], "Hello, Rust Developer!");
    assert_eq!(lines[1], "2 + 3 = 5");
    assert_eq!(lines[2], "5! = 120");
}
