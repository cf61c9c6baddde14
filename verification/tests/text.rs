use emojify::cli_args::{Args, DEFAULT_SPACE};
use emojify::error::ParseError;
use emojify::text::join_with_space;

#[test]
fn join_puts_one_space_between_neighbours() {
    assert_eq!(join_with_space(&vec![]), "");
    assert_eq!(join_with_space(&vec!["a".to_string()]), "a");
    assert_eq!(join_with_space(&vec!["a".to_string(), "b".to_string()]), "a b");
    assert_eq!(
        join_with_space(&vec!["a".to_string(), String::new(), "bc".to_string()]),
        "a  bc"
    );
    let words = vec!["G".to_string(), "r8".to_string(), "!".to_string()];
    assert_eq!(join_with_space(&words), words.join(" "));
}

#[test]
fn args_take_the_default_space_where_none_is_given() {
    assert_eq!(DEFAULT_SPACE, ":white_small_square:");
    let args = Args::new(vec!["a".to_string()], None);
    assert_eq!(args.words, vec!["a".to_string()]);
    assert_eq!(args.space, ":white_small_square:");
    let custom = Args::new(vec![], Some(":white_circle:".to_string()));
    assert!(custom.words.is_empty());
    assert_eq!(custom.space, ":white_circle:");
}

#[test]
fn errors_describe_themselves() {
    assert_eq!(ParseError::MissingSpace.message(), "Args space is not set!");
    assert_eq!(
        ParseError::UnmappedNumeric('٣').message(),
        "Character ٣ not found in NUMBERS"
    );
}
