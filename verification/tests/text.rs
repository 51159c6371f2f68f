use the_way::text::{concat_lines, decimal_string, framed, join};

fn strings(parts: &[&str]) -> Vec<String> {
    parts.iter().map(|part| String::from(*part)).collect()
}

#[test]
fn decimal_of_zero() {
    assert_eq!(decimal_string(0), "0");
}

#[test]
fn decimal_of_one_digit() {
    assert_eq!(decimal_string(7), "7");
    assert_eq!(decimal_string(9), "9");
}

#[test]
fn decimal_of_ten() {
    assert_eq!(decimal_string(10), "10");
}

#[test]
fn decimal_of_several_digits() {
    assert_eq!(decimal_string(12345), "12345");
    assert_eq!(decimal_string(1002003), "1002003");
}

#[test]
fn decimal_of_the_largest_number() {
    assert_eq!(decimal_string(usize::MAX), usize::MAX.to_string());
}

#[test]
fn decimal_agrees_with_std_on_a_range() {
    let mut n: usize = 0;
    while n < 2000 {
        assert_eq!(decimal_string(n), n.to_string());
        n += 1;
    }
}

#[test]
fn join_of_nothing_is_empty() {
    assert_eq!(join(&strings(&[]), ":"), "");
}

#[test]
fn join_of_one_part_has_no_separator() {
    assert_eq!(join(&strings(&["list"]), ":"), "list");
}

#[test]
fn join_puts_the_separator_between_parts() {
    assert_eq!(join(&strings(&["a", "b", "c"]), ":"), "a:b:c");
    assert_eq!(join(&strings(&["a", "", "c"]), ", "), "a, , c");
}

#[test]
fn join_agrees_with_std() {
    let parts = strings(&["net", "web", "", "http"]);
    assert_eq!(join(&parts, "::"), parts.join("::"));
}

#[test]
fn concat_lines_of_nothing_is_empty() {
    assert_eq!(concat_lines(&strings(&[])), "");
}

#[test]
fn concat_lines_puts_nothing_between() {
    assert_eq!(concat_lines(&strings(&["fn main() {\n", "}\n"])), "fn main() {\n}\n");
    assert_eq!(concat_lines(&strings(&["", "a", "", "b"])), "ab");
}

#[test]
fn framed_keeps_the_order() {
    assert_eq!(framed("<", "middle", ">"), "<middle>");
    assert_eq!(framed("", "", ""), "");
}
