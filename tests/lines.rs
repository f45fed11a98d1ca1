use log_cli::lines::{file_header, render_line, render_lines, Lines};

#[test]
fn from_texts_numbers_from_zero() {
    let lines = Lines::from_texts(vec!["a".to_string(), "b".to_string()]);
    assert_eq!(
        lines.enumerated_lines(),
        &vec![(0, "a".to_string()), (1, "b".to_string())]
    );
}

#[test]
fn set_lines_replaces_lines() {
    let mut lines = Lines::new(vec![(0, "a".to_string())]);
    lines.set_lines(vec![(4, "e".to_string())]);
    assert_eq!(lines.enumerated_lines(), &vec![(4, "e".to_string())]);
}

#[test]
fn render_pads_to_largest_index() {
    let lines = vec![(9, "nine".to_string()), (10, "ten".to_string()), (123, "x".to_string())];
    assert_eq!(
        render_lines(&lines),
        vec!["ln009 nine".to_string(), "ln010 ten".to_string(), "ln123 x".to_string()]
    );
}

#[test]
fn render_of_nothing_is_nothing() {
    assert!(render_lines(&Vec::new()).is_empty());
    assert!(Lines::new(Vec::new()).render().is_empty());
}

#[test]
fn render_single_line() {
    assert_eq!(render_line(&(7, "seven".to_string()), 3), "ln007 seven");
    assert_eq!(render_line(&(1234, "big".to_string()), 2), "ln1234 big");
    assert_eq!(render_line(&(0, "".to_string()), 1), "ln0 ");
}

#[test]
fn header_counts_from_one() {
    assert_eq!(file_header(0, 2, "a.log"), "File (1/2): a.log");
    assert_eq!(file_header(11, 12, "b.log"), "File (12/12): b.log");
}
