use journal_cli::numeral::{push_decimal, push_digits};
use journal_cli::path::join;
use journal_cli::template::render;

fn decimal_of(i: i32) -> String {
    let mut out = String::new();
    push_decimal(&mut out, i);
    out
}

fn digits_of(n: u64) -> String {
    let mut out = String::new();
    push_digits(&mut out, n);
    out
}

#[test]
fn digits_of_small_numbers() {
    assert_eq!(digits_of(0), "0");
    assert_eq!(digits_of(7), "7");
    assert_eq!(digits_of(9), "9");
    assert_eq!(digits_of(10), "10");
    assert_eq!(digits_of(1234567890), "1234567890");
}

#[test]
fn digits_of_the_largest_number() {
    assert_eq!(digits_of(u64::MAX), "18446744073709551615");
}

#[test]
fn digits_are_appended_to_what_is_there() {
    let mut out = String::from("page ");
    push_digits(&mut out, 42);
    assert_eq!(out, "page 42");
}

#[test]
fn digits_agree_with_the_standard_library() {
    for n in 0..2000u64 {
        assert_eq!(digits_of(n), n.to_string());
    }
    for n in [99_999u64, 100_000, 4_294_967_295, 4_294_967_296] {
        assert_eq!(digits_of(n), n.to_string());
    }
}

#[test]
fn decimal_of_signed_numbers() {
    assert_eq!(decimal_of(0), "0");
    assert_eq!(decimal_of(2024), "2024");
    assert_eq!(decimal_of(-5), "-5");
    assert_eq!(decimal_of(-120), "-120");
    assert_eq!(decimal_of(i32::MAX), "2147483647");
    assert_eq!(decimal_of(i32::MIN), "-2147483648");
}

#[test]
fn decimal_agrees_with_the_standard_library() {
    for i in -1500..1500i32 {
        assert_eq!(decimal_of(i), i.to_string());
    }
}

#[test]
fn join_puts_a_slash_between() {
    assert_eq!(join("/home/me", "demo"), "/home/me/demo");
    assert_eq!(join("", "demo"), "/demo");
    assert_eq!(join("/home/me", ""), "/home/me/");
    assert_eq!(join("/home/me", "/abs"), "/home/me//abs");
}

#[test]
fn render_replaces_the_token() {
    assert_eq!(render("# {}\n\nbody", "2024/03/07"), "# 2024/03/07\n\nbody");
}

#[test]
fn render_without_token_changes_nothing() {
    assert_eq!(render("no token here", "2024/03/07"), "no token here");
    assert_eq!(render("", "2024/03/07"), "");
    assert_eq!(render("{", "x"), "{");
    assert_eq!(render("}", "x"), "}");
    assert_eq!(render("}{", "x"), "}{");
    assert_eq!(render("{ }", "x"), "{ }");
}

#[test]
fn render_replaces_every_token() {
    assert_eq!(render("{}", "x"), "x");
    assert_eq!(render("{}{}", "ab"), "abab");
    assert_eq!(render("a{}b{}c", "-"), "a-b-c");
    assert_eq!(render("{} and {}", "2024/03/07"), "2024/03/07 and 2024/03/07");
}

#[test]
fn render_reads_braces_from_the_left() {
    assert_eq!(render("{{}}", "x"), "{x}");
    assert_eq!(render("{{}", "x"), "{x");
    assert_eq!(render("{}}", "x"), "x}");
    assert_eq!(render("{{{}", "x"), "{{x");
    assert_eq!(render("tail {", "x"), "tail {");
    assert_eq!(render("tail {}", "x"), "tail x");
}

#[test]
fn render_does_not_read_the_value_again() {
    assert_eq!(render("a{}b", "{}"), "a{}b");
    assert_eq!(render("{}", "{}{}"), "{}{}");
    assert_eq!(render("{}}", "{"), "{}");
}

#[test]
fn render_with_an_empty_value_removes_the_token() {
    assert_eq!(render("a{}b", ""), "ab");
}

#[test]
fn render_keeps_text_beyond_ascii() {
    assert_eq!(render("## 省察 {} (試行)", "2024/03/07"), "## 省察 2024/03/07 (試行)");
    assert_eq!(render("{}é{}", "ü"), "üéü");
}

#[test]
fn render_agrees_with_the_standard_library() {
    let templates = [
        "", "{}", "{", "}", "{{", "}}", "{}{}", "{{}}", "}{", "a{}", "{}a", "a{b}c", "{{{}}}",
        "x{}y{}z{", "省{}察", "{}{}{}", "{ {} }",
    ];
    let values = ["", "v", "{}", "{", "}", "2024/03/07", "省察"];
    for template in templates {
        for value in values {
            assert_eq!(render(template, value), template.replace("{}", value));
        }
    }
}
