use open_coder::parser::parse_input;
use open_coder::text::{str_eq, u64_to_string};

#[test]
fn non_command_lines_parse_to_nothing() {
    assert!(parse_input("hello").is_none());
    assert!(parse_input("").is_none());
    assert!(parse_input("set top_p").is_none());
    assert!(parse_input(" /set").is_none());
}

#[test]
fn command_without_arguments() {
    let (command, args) = parse_input("/exit").unwrap();
    assert_eq!(command, "/exit");
    assert_eq!(args, "");
}

#[test]
fn command_with_one_argument() {
    let (command, args) = parse_input("/set top_p").unwrap();
    assert_eq!(command, "/set");
    assert_eq!(args, "top_p");
}

#[test]
fn command_splits_on_first_space_only() {
    let (command, args) = parse_input("/set a b c").unwrap();
    assert_eq!(command, "/set");
    assert_eq!(args, "a b c");
}

#[test]
fn command_splits_at_the_first_whitespace_of_any_kind() {
    let (command, args) = parse_input("/a\tb c").unwrap();
    assert_eq!(command, "/a");
    assert_eq!(args, "b c");

    let (command, args) = parse_input("/cmd\narg").unwrap();
    assert_eq!(command, "/cmd");
    assert_eq!(args, "arg");

    let (command, args) = parse_input("/cmd\u{a0}arg one").unwrap();
    assert_eq!(command, "/cmd");
    assert_eq!(args, "arg one");
}

#[test]
fn command_keeps_later_spaces_in_args() {
    let (command, args) = parse_input("/cmd  x").unwrap();
    assert_eq!(command, "/cmd");
    assert_eq!(args, " x");
}

#[test]
fn bare_slash_is_a_command() {
    let (command, args) = parse_input("/").unwrap();
    assert_eq!(command, "/");
    assert_eq!(args, "");
}

#[test]
fn str_eq_compares_contents() {
    assert!(str_eq("", ""));
    assert!(str_eq("stop", "stop"));
    assert!(!str_eq("stop", "stop "));
    assert!(!str_eq("stop", "Stop"));
    assert!(str_eq("höh", "höh"));
}

#[test]
fn u64_renders_in_decimal() {
    assert_eq!(u64_to_string(0), "0");
    assert_eq!(u64_to_string(7), "7");
    assert_eq!(u64_to_string(40), "40");
    assert_eq!(u64_to_string(1234567890), "1234567890");
    assert_eq!(u64_to_string(u64::MAX), "18446744073709551615");
}
