use md_editor::text::{bool_str, decimal};
use md_editor::trace::{header, note_probe, note_read_err, note_read_ok};

fn list(items: &[&str]) -> Vec<String> {
    items.iter().map(|s| s.to_string()).collect()
}

#[test]
fn decimal_of_small_numbers() {
    assert_eq!(decimal(0), "0");
    assert_eq!(decimal(7), "7");
    assert_eq!(decimal(9), "9");
    assert_eq!(decimal(10), "10");
    assert_eq!(decimal(42), "42");
    assert_eq!(decimal(100), "100");
    assert_eq!(decimal(1234567890), "1234567890");
}

#[test]
fn decimal_agrees_with_std() {
    let mut n: usize = 1;
    for _ in 0..18 {
        assert_eq!(decimal(n), format!("{}", n));
        assert_eq!(decimal(n - 1), format!("{}", n - 1));
        n = n * 10 + 3;
    }
    assert_eq!(decimal(usize::MAX), format!("{}", usize::MAX));
}

#[test]
fn truth_values_as_text() {
    assert_eq!(bool_str(true), "true");
    assert_eq!(bool_str(false), "false");
}

#[test]
fn header_of_no_arguments() {
    assert_eq!(header(&list(&[])), "args(0):");
}

#[test]
fn header_counts_and_brackets() {
    assert_eq!(header(&list(&["prog"])), "args(1): [prog]");
    assert_eq!(header(&list(&["prog", "-x", "/tmp/a.md"])), "args(3): [prog] [-x] [/tmp/a.md]");
}

#[test]
fn header_keeps_arguments_raw() {
    assert_eq!(header(&list(&["p", "", "a b", "[x]"])), "args(4): [p] [] [a b] [[x]]");
}

#[test]
fn header_of_many_arguments() {
    let args = list(&["a", "b", "c", "d", "e", "f", "g", "h", "i", "j", "k"]);
    assert_eq!(header(&args), "args(11): [a] [b] [c] [d] [e] [f] [g] [h] [i] [j] [k]");
}

#[test]
fn probe_line() {
    let mut trace = String::from("args(2): [prog] [a.md]");
    note_probe(&mut trace, "a.md", true);
    assert_eq!(trace, "args(2): [prog] [a.md]\ntry: a.md exists=true");
    let mut trace = String::new();
    note_probe(&mut trace, "/no/such", false);
    assert_eq!(trace, "\ntry: /no/such exists=false");
}

#[test]
fn read_ok_line_counts_bytes() {
    let mut trace = String::from("x");
    note_read_ok(&mut trace, "hello");
    assert_eq!(trace, "x\nread OK: 5 bytes");
    let mut trace = String::new();
    note_read_ok(&mut trace, "");
    assert_eq!(trace, "\nread OK: 0 bytes");
}

#[test]
fn read_ok_line_counts_bytes_not_characters() {
    let mut trace = String::new();
    note_read_ok(&mut trace, "h\u{e9}llo");
    assert_eq!(trace, "\nread OK: 6 bytes");
    let mut trace = String::new();
    note_read_ok(&mut trace, "\u{20ac}\u{1f600}");
    assert_eq!(trace, "\nread OK: 7 bytes");
}

#[test]
fn read_err_line() {
    let mut trace = String::from("x");
    note_read_err(&mut trace, "stream did not contain valid UTF-8");
    assert_eq!(trace, "x\nread ERR: stream did not contain valid UTF-8");
}
