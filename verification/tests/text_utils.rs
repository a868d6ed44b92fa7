use shared_utils::path_safety::{property_safe_path, safe_path_arg};
use shared_utils::text::{join_strings, lines_of, parse_unsigned, trim_string};

#[test]
fn text_lines_and_trim() {
    assert_eq!(lines_of("foo\nbar\n\r\nbaz\r"), vec!["foo", "bar", "", "baz\r"]);
    assert_eq!(lines_of(""), Vec::<String>::new());
    assert_eq!(lines_of("\n"), vec![""]);
    assert_eq!(trim_string("\u{3000} a b \t"), "a b");
    assert_eq!(join_strings(&vec!["a".to_string(), "b".to_string()], "::"), "a::b");
    assert_eq!(parse_unsigned("+255", 255), Some(255));
    assert_eq!(parse_unsigned("256", 255), None);
    assert_eq!(parse_unsigned("", 255), None);
    assert_eq!(parse_unsigned("+", 255), None);
    assert_eq!(parse_unsigned("1a", 255), None);
}

#[test]
fn path_arguments_are_never_options() {
    assert_eq!(safe_path_arg("-rf.png"), "./-rf.png");
    assert_eq!(safe_path_arg("a-b.png"), "a-b.png");
    assert_eq!(property_safe_path("100%.jpg"), "100%%.jpg");
}
