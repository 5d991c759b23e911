use catr::numfmt::{format_counter, u64_to_dec};
use catr::render::{render_file, render_line};
use catr::Config;

fn config(number_lines: bool, number_nonblank_lines: bool) -> Config {
    Config {
        files: vec!["-".to_string()],
        number_lines,
        number_nonblank_lines,
    }
}

fn lines(xs: &[&str]) -> Vec<String> {
    xs.iter().map(|s| s.to_string()).collect()
}

#[test]
fn plain_mode_passes_lines_through_verbatim() {
    let c = config(false, false);
    let input = lines(&["alpha", "beta", "gamma"]);
    assert_eq!(render_file(&c, &input), input);
}

#[test]
fn plain_mode_is_idempotent() {
    let c = config(false, false);
    let input = lines(&["x", "", "y"]);
    let once = render_file(&c, &input);
    let twice = render_file(&c, &once);
    assert_eq!(once, twice);
}

#[test]
fn number_all_lines() {
    let c = config(true, false);
    let input = lines(&["x", "y"]);
    assert_eq!(
        render_file(&c, &input),
        lines(&["     1\tx", "     2\ty"])
    );
}

#[test]
fn number_all_numbers_blank_lines_too() {
    let c = config(true, false);
    let input = lines(&["", "a"]);
    assert_eq!(render_file(&c, &input), lines(&["     1\t", "     2\ta"]));
}

#[test]
fn number_nonblank_example() {
    let c = config(false, true);
    let input = lines(&["one", "", "two"]);
    assert_eq!(
        render_file(&c, &input),
        lines(&["     1\tone", "", "     2\ttwo"])
    );
}

#[test]
fn number_nonblank_leaves_blank_lines_bare() {
    let c = config(false, true);
    let input = lines(&["", "", "a", ""]);
    assert_eq!(
        render_file(&c, &input),
        lines(&["", "", "     1\ta", ""])
    );
}

#[test]
fn nonblank_counter_restarts_for_each_input() {
    let c = config(false, true);
    let first = render_file(&c, &lines(&["a", "b"]));
    let second = render_file(&c, &lines(&["c"]));
    assert_eq!(first, lines(&["     1\ta", "     2\tb"]));
    assert_eq!(second, lines(&["     1\tc"]));
}

#[test]
fn empty_input_renders_empty() {
    assert_eq!(render_file(&config(true, false), &lines(&[])), lines(&[]));
    assert_eq!(render_file(&config(false, true), &lines(&[])), lines(&[]));
    assert_eq!(render_file(&config(false, false), &lines(&[])), lines(&[]));
}

#[test]
fn render_line_by_line() {
    let n = config(true, false);
    let b = config(false, true);
    let plain = config(false, false);
    assert_eq!(render_line(&n, "x", 0, 0), "     1\tx");
    assert_eq!(render_line(&n, "x", 9, 0), "    10\tx");
    assert_eq!(render_line(&b, "", 3, 2), "");
    assert_eq!(render_line(&b, "w", 3, 2), "     3\tw");
    assert_eq!(render_line(&plain, "w", 3, 2), "w");
}

#[test]
fn decimal_rendering() {
    assert_eq!(u64_to_dec(0), "0");
    assert_eq!(u64_to_dec(9), "9");
    assert_eq!(u64_to_dec(10), "10");
    assert_eq!(u64_to_dec(905), "905");
    assert_eq!(u64_to_dec(18446744073709551615), "18446744073709551615");
}

#[test]
fn counter_field_is_six_wide() {
    assert_eq!(format_counter(0), "     0");
    assert_eq!(format_counter(42), "    42");
    assert_eq!(format_counter(123456), "123456");
    assert_eq!(format_counter(1234567), "1234567");
}
