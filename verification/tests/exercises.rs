use basics::demos::{
    another_function, branch_for, chosen_number, countdown, repeat_until_three, shadowed_math,
    Branch,
};
use basics::fibonacci::fib;
use basics::lyrics::{sing, twelve_days, verse_lines};
use basics::temperature::{convert, ConvertError};

#[test]
fn convert_fahrenheit_freezing() {
    // 32 F is the freezing point: exactly 0 C under the 556/1000 ratio.
    assert_eq!(convert('f', 32_000), Ok(0));
}

#[test]
fn convert_celsius_zero() {
    // 0 C is exactly 32 F.
    assert_eq!(convert('c', 0), Ok(32_000_000));
}

#[test]
fn convert_invalid_mode() {
    assert_eq!(convert('x', 0), Err(ConvertError::InvalidMode));
}

#[test]
fn convert_fahrenheit_sample() {
    // (22.2 - 32) * 0.556 = -5.4488 degrees Celsius.
    assert_eq!(convert('f', 22_200), Ok(-5_448_800));
}

#[test]
fn convert_celsius_sample() {
    // 55.21 * 1.8 + 32 = 131.378 degrees Fahrenheit.
    assert_eq!(convert('c', 55_210), Ok(131_378_000));
}

#[test]
fn fib_base_cases() {
    assert_eq!(fib(0), 0);
    assert_eq!(fib(1), 1);
}

#[test]
fn fib_ten() {
    assert_eq!(fib(10), 55);
}

#[test]
fn fib_twenty_nine() {
    assert_eq!(fib(29), 514229);
}

#[test]
fn fib_recurrence_holds_on_samples() {
    for n in 2..20 {
        assert_eq!(fib(n), fib(n - 1) + fib(n - 2));
    }
}

#[test]
fn fib_thirty() {
    assert_eq!(fib(30), 832040);
}

#[test]
fn sing_has_two_lines_per_day_in_order() {
    let days = twelve_days();
    let lines = sing();
    assert_eq!(lines.len(), 24);
    for (i, day) in days.iter().enumerate() {
        assert_eq!(lines[2 * i], format!("On the {} day of Christmas", day));
        assert_eq!(lines[2 * i + 1], "My true love gave to me");
    }
}

#[test]
fn twelve_days_labels() {
    let days = twelve_days();
    let expected = vec![
        "first", "second", "third", "fourth", "fifth", "sixth", "seventh", "eighth", "ninth",
        "tenth", "eleventh", "twelfth",
    ];
    assert_eq!(days, expected);
}

#[test]
fn verse_lines_on_two_labels() {
    let days = vec![String::from("first"), String::from("second")];
    let lines = verse_lines(&days);
    assert_eq!(
        lines,
        vec![
            "On the first day of Christmas",
            "My true love gave to me",
            "On the second day of Christmas",
            "My true love gave to me",
        ]
    );
}

#[test]
fn verse_lines_on_no_labels() {
    let days: Vec<String> = Vec::new();
    assert!(verse_lines(&days).is_empty());
}

#[test]
fn another_function_returns_nine() {
    assert_eq!(another_function(6), 9);
    assert_eq!(another_function(-100), 9);
}

#[test]
fn shadowed_math_is_forty() {
    assert_eq!(shadowed_math(), 40);
}

#[test]
fn branch_for_chain() {
    assert_eq!(branch_for(3), Branch::AboveTwo);
    assert_eq!(branch_for(2), Branch::BelowFour);
    assert_eq!(branch_for(-5), Branch::BelowFour);
}

#[test]
fn chosen_number_both_ways() {
    assert_eq!(chosen_number(true), 5);
    assert_eq!(chosen_number(false), 6);
}

#[test]
fn repeat_until_three_runs_three_times() {
    assert_eq!(repeat_until_three(), (3, 6));
}

#[test]
fn countdown_from_three() {
    assert_eq!(countdown(3), vec![3, 2, 1]);
}

#[test]
fn countdown_from_zero_is_empty() {
    assert!(countdown(0).is_empty());
}
