use primer::basics;
use primer::concepts::errors::report;
use primer::concepts::macros::say_hello;
use primer::concepts::ownership::{calculate_length, take_ownership};
use primer::concepts::pattern_matching::destructure::{self, Point};
use primer::concepts::pattern_matching::structs::{self, Message};
use primer::print;
use primer::render::{digit, magnitude, render_decimal, render_radix};

#[test]
fn digits_zero_to_f() {
    let all: Vec<&str> = (0u8..16).map(digit).collect();
    assert_eq!(
        all,
        vec!["0", "1", "2", "3", "4", "5", "6", "7", "8", "9", "a", "b", "c", "d", "e", "f"]
    );
}

#[test]
fn decimal_of_small_and_extreme_numbers() {
    assert_eq!(render_decimal(0), "0");
    assert_eq!(render_decimal(7), "7");
    assert_eq!(render_decimal(27), "27");
    assert_eq!(render_decimal(-1), "-1");
    assert_eq!(render_decimal(-100), "-100");
    assert_eq!(render_decimal(i64::MAX), "9223372036854775807");
    assert_eq!(render_decimal(i64::MIN), "-9223372036854775808");
}

#[test]
fn decimal_agrees_with_std_formatting() {
    for n in [0i64, 1, 9, 10, 11, 99, 100, 101, 1000, 65535, -9, -10, -11, -65536, 1 << 40] {
        assert_eq!(render_decimal(n), format!("{}", n));
    }
}

#[test]
fn radix_of_ten() {
    assert_eq!(render_radix(10, 2), "1010");
    assert_eq!(render_radix(10, 16), "a");
    assert_eq!(render_radix(10, 8), "12");
    assert_eq!(render_radix(10, 10), "10");
}

#[test]
fn radix_agrees_with_std_formatting() {
    for n in [0u64, 1, 2, 7, 8, 15, 16, 255, 256, 4095, 1 << 32, u64::MAX] {
        assert_eq!(render_radix(n, 2), format!("{:b}", n));
        assert_eq!(render_radix(n, 8), format!("{:o}", n));
        assert_eq!(render_radix(n, 10), format!("{}", n));
        assert_eq!(render_radix(n, 16), format!("{:x}", n));
    }
}

#[test]
fn radix_in_other_bases() {
    assert_eq!(render_radix(0, 3), "0");
    assert_eq!(render_radix(26, 3), "222");
    assert_eq!(render_radix(27, 3), "1000");
    assert_eq!(render_radix(143, 12), "bb");
}

#[test]
fn magnitude_of_both_signs() {
    assert_eq!(magnitude(0), 0);
    assert_eq!(magnitude(5), 5);
    assert_eq!(magnitude(-5), 5);
    assert_eq!(magnitude(i64::MAX), 9_223_372_036_854_775_807);
    assert_eq!(magnitude(i64::MIN), 9_223_372_036_854_775_808);
}

#[test]
fn length_of_a_borrowed_string() {
    let another_string = String::from("hello, Rust");
    assert_eq!(calculate_length(&another_string), 11);
    assert_eq!(another_string, "hello, Rust");
    assert_eq!(calculate_length(&String::new()), 0);
}

#[test]
fn length_counts_bytes_not_characters() {
    assert_eq!(calculate_length(&String::from("h\u{e9}llo")), 6);
    assert_eq!(calculate_length(&String::from("\u{1f600}")), 4);
}

#[test]
fn taken_string_comes_back_as_the_line() {
    let my_string = String::from("hello, world");
    assert_eq!(take_ownership(my_string), "hello, world");
    assert_eq!(take_ownership(String::new()), "");
}

#[test]
fn types_entry_point_returns() {
    basics::types::run();
}

#[test]
fn vars_lines() {
    assert_eq!(basics::vars::run(), vec!["My name is Alex and I am 27", "ID: 1"]);
    assert_eq!(basics::vars::ID, 1);
    assert_eq!(basics::vars::introduction("Sam", -3), "My name is Sam and I am -3");
    assert_eq!(basics::vars::id_line(42), "ID: 42");
}

#[test]
fn print_lines() {
    assert_eq!(
        print::run(),
        vec![
            "Hello from print.rs file",
            "Number: 1",
            "Alex is from New Orleans and likes to code",
            "Alex is from New Orleans and likes to code",
            "Binary: 1010 Hex: a Octal: 12",
            "(12, true, \"hello\")",
            "10 + 10 = 20",
        ]
    );
}

#[test]
fn print_lines_agree_with_std_formatting() {
    let lines = print::run();
    assert_eq!(lines[1], format!("Number: {}", 1));
    assert_eq!(
        lines[2],
        format!("{0} is from {1} and likes to {2}", "Alex", "New Orleans", "code")
    );
    assert_eq!(lines[4], format!("Binary: {:b} Hex: {:x} Octal: {:o}", 10, 10, 10));
    assert_eq!(lines[5], format!("{:?}", (12, true, "hello")));
    assert_eq!(lines[6], format!("10 + 10 = {}", 10 + 10));
}

#[test]
fn print_pieces() {
    assert_eq!(print::number_line(-40), "Number: -40");
    assert_eq!(print::profile_line("Kim", "Oslo", "ski"), "Kim is from Oslo and likes to ski");
    assert_eq!(print::radix_line(255), "Binary: 11111111 Hex: ff Octal: 377");
    assert_eq!(print::sum_line(2, -5), "2 + -5 = -3");
    assert_eq!(print::sum_line(i32::MAX, i32::MAX), "2147483647 + 2147483647 = 4294967294");
    assert_eq!(print::triple_line(0, false), "(0, false, \"hello\")");
}

#[test]
fn report_of_success_and_failure() {
    assert_eq!(report(&Ok(String::from("abc"))), "File content: abc");
    assert_eq!(
        report(&Err(String::from("No such file or directory (os error 2)"))),
        "Failed to read the file: No such file or directory (os error 2)"
    );
    assert_eq!(report(&Ok(String::new())), "File content: ");
}

#[test]
fn greeting_is_fixed() {
    assert_eq!(say_hello(), "Hello, world!");
    assert_eq!(say_hello(), say_hello());
}

#[test]
fn point_lines() {
    let point = Point { x: 0, y: 7 };
    assert_eq!(point.position_line(), "The point is at (0, 7)");
    assert_eq!(point.x_axis_line(), "The point is on the x-axis at 0");
    assert_eq!(
        destructure::run(),
        vec!["The point is at (0, 7)", "The point is on the x-axis at 0"]
    );
    let other = Point { x: -3, y: 12 };
    assert_eq!(other.position_line(), "The point is at (-3, 12)");
    assert_eq!(other.x_axis_line(), "The point is on the x-axis at -3");
}

#[test]
fn message_lines() {
    assert_eq!(Message::Quit.describe(), "The Quit variant has no data to destructure.");
    assert_eq!(Message::Write(String::from("Hello, Rust!")).describe(), "Text message: Hello, Rust!");
    assert_eq!(
        Message::ChangeColor(255, 0, 0).describe(),
        "Change the color to red 255, green 0, and blue 0"
    );
    assert_eq!(
        structs::run(),
        vec![
            "The Quit variant has no data to destructure.",
            "Text message: Hello, Rust!",
            "Change the color to red 255, green 0, and blue 0",
        ]
    );
}
