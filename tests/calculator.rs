use arith_cli::commands::add;
use arith_cli::commands::sub;
use arith_cli::decimal::{to_decimal, to_signed_decimal};
use arith_cli::{run, AddOptions, SubCommands, SubOptions};

#[test]
fn add_two_and_three() {
    let line = add::execute(AddOptions { num1: 2, num2: 3 });
    assert_eq!(line, "2 + 3 = 5");
}

#[test]
fn sub_three_from_five() {
    let line = sub::execute(SubOptions { num1: 5, num2: 3 });
    assert_eq!(line, "5 - 3 = 2");
}

#[test]
fn sub_five_from_three_is_negative() {
    let line = sub::execute(SubOptions { num1: 3, num2: 5 });
    assert_eq!(line, "3 - 5 = -2");
}

#[test]
fn add_past_sixteen_bits_is_exact() {
    let line = add::execute(AddOptions { num1: 65535, num2: 65535 });
    assert_eq!(line, "65535 + 65535 = 131070");
    assert_eq!(AddOptions { num1: 65535, num2: 1 }.sum(), 65536);
}

#[test]
fn add_zeros() {
    let line = add::execute(AddOptions { num1: 0, num2: 0 });
    assert_eq!(line, "0 + 0 = 0");
}

#[test]
fn sub_past_sixteen_bits_is_exact() {
    let low = sub::execute(SubOptions { num1: -32768, num2: 32767 });
    assert_eq!(low, "-32768 - 32767 = -65535");
    let high = sub::execute(SubOptions { num1: 32767, num2: -32768 });
    assert_eq!(high, "32767 - -32768 = 65535");
    assert_eq!(SubOptions { num1: -32768, num2: 1 }.difference(), -32769);
}

#[test]
fn run_dispatches_on_subcommand() {
    let a = run(SubCommands::Add(AddOptions { num1: 10, num2: 20 }));
    assert_eq!(a, "10 + 20 = 30");
    let s = run(SubCommands::Sub(SubOptions { num1: 10, num2: 20 }));
    assert_eq!(s, "10 - 20 = -10");
}

#[test]
fn decimal_text_matches_formatting() {
    for n in [0u32, 7, 10, 99, 100, 1234567, u32::MAX] {
        assert_eq!(to_decimal(n), format!("{}", n));
    }
    for i in [0i32, -1, 9, -10, 42, -98765, i32::MAX, i32::MIN] {
        assert_eq!(to_signed_decimal(i), format!("{}", i));
    }
}
