use log_cli::parser::utils::{
    split_chars, split_double, string_to_date_range_array, string_to_filepath_string,
    string_to_function_string, string_to_line_range_array,
};
use log_cli::parser::{Parser, ParserConfig, ParserOptions};

#[test]
fn test_string_to_line_range_array() {
    let string = "0:100".to_string();
    let expected: [u32; 2] = [0, 100];
    let res = string_to_line_range_array(Some(&string)).unwrap();

    assert_eq!(res.len(), 2);
    assert_eq!(res, expected);
    assert_eq!(string_to_line_range_array(None), None);
}

#[test]
fn test_string_to_date_range_array() {
    let string = "2022-01-01 08:00::2022-01-02 08:00".to_string();
    let expected: [String; 2] = [
        "2022-01-01 08:00".to_string(),
        "2022-01-02 08:00".to_string(),
    ];
    let res = string_to_date_range_array(Some(&string)).unwrap();

    assert_eq!(res.len(), 2);
    assert_eq!(res, expected);
    assert_eq!(string_to_date_range_array(None), None);
}

#[test]
fn test_string_to_function_string() {
    let string = "my_function()".to_string();
    let expected = "my_function()".to_string();
    let res = string_to_function_string(Some(&string)).unwrap();

    assert_eq!(res, expected);
    assert_eq!(string_to_function_string(None), None);
}

#[test]
fn test_string_to_filepath_string() {
    let string = "sample.log".to_string();
    let expected = "sample.log".to_string();
    let res = string_to_filepath_string(&string);

    assert_eq!(res, expected);
}

#[test]
fn line_range_array_ignores_extra_pieces() {
    let string = "3:4:5".to_string();
    assert_eq!(string_to_line_range_array(Some(&string)), Some([3, 4]));
}

#[test]
fn split_chars_keeps_empty_pieces() {
    assert_eq!(split_chars("a::b:", ':'), vec!["a", "", "b", ""]);
    assert_eq!(split_chars("", ':'), vec![""]);
}

#[test]
fn split_double_matches_from_the_left() {
    assert_eq!(split_double("a:::b", ':'), vec!["a", ":b"]);
    assert_eq!(split_double("x", ':'), vec!["x"]);
    assert_eq!(split_double("::", ':'), vec!["", ""]);
}

#[test]
fn parser_holds_its_configuration() {
    let options = ParserOptions::new(Some([1, 2]), None, Some("f()".to_string()));
    let config = ParserConfig::new("sample.log".to_string(), options);
    let parser = Parser::new(config);
    assert_eq!(parser.config.filepath, "sample.log");
    assert_eq!(parser.config.options.line_range, Some([1, 2]));
    assert_eq!(parser.config.options.function, Some("f()".to_string()));
}
