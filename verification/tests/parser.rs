use emojify::cli_args::Args;
use emojify::error::ParseError;
use emojify::parser::{parse_clusters, parse_grapheme, parse_text, run};

#[test]
fn test_simple_str() {
    assert_eq!(
        parse_text("test", None),
        Ok(String::from(
            ":alphabet-yellow-t: :alphabet-yellow-e: :alphabet-yellow-s: :alphabet-yellow-t:"
        )),
    )
}

#[test]
fn test_non_ascii_chars() {
    assert_eq!(parse_text("tą", None), Ok(String::from(":alphabet-yellow-t: ą")),)
}

#[test]
fn test_parse_graphene_ascii() {
    assert_eq!(parse_grapheme("a", None).unwrap().as_str(), ":alphabet-yellow-a:",);
    assert_eq!(parse_grapheme("A", None).unwrap().as_str(), ":alphabet-white-a:");
}

#[test]
fn test_parse_text_numbers() {
    assert_eq!(
        parse_text("1234567890", None).unwrap().as_str(),
        ":one: :two: :three: :four: :five: :six: :seven: :eight: :nine: :zero:"
    )
}

#[test]
fn test_exclam() {
    assert_eq!(
        parse_grapheme("!", None).unwrap(),
        ":alphabet-yellow-exclamation:",
    )
}

#[test]
fn test_question_mark() {
    assert_eq!(
        parse_grapheme("?", None).unwrap(),
        ":alphabet-yellow-question:"
    )
}

#[test]
fn test_other_special_characters() {
    assert_eq!(parse_grapheme("$", None).unwrap(), "$");
    assert_eq!(parse_grapheme("*", None).unwrap(), "*");
}

#[test]
fn test_space_in_text() {
    let args = Args { words: vec![], space: ":white-small-square:".to_string() };
    assert_eq!(
        parse_text("G r8", Some(&args)).unwrap(),
        ":alphabet-white-g: :white-small-square: :alphabet-yellow-r: :eight:"
    )
}

#[test]
fn test_custom_space() {
    let custom_space_args = Args { words: vec![], space: ":white_circle:".to_string() };
    let result = parse_grapheme(" ", Some(&custom_space_args)).unwrap();
    assert_eq!(result, ":white_circle:")
}

#[test]
fn test_run_with_polish_chars() {
    let cli_args = Args {
        words: vec!["ą\u{a0}ę ć".to_string()],
        space: String::from(":thinking:"),
    };
    assert_eq!(
        run(cli_args).unwrap(),
        "ą :thinking: ę :thinking: ć",
    )
}

#[test]
fn run_joins_words_with_the_space_token() {
    let cli_args = Args {
        words: vec!["G".to_string(), "r8".to_string()],
        space: String::from(":white-small-square:"),
    };
    assert_eq!(
        run(cli_args),
        Ok(String::from(
            ":alphabet-white-g: :white-small-square: :alphabet-yellow-r: :eight:"
        )),
    );
}

#[test]
fn run_with_default_space_on_one_word() {
    let cli_args = Args::new(vec!["test".to_string()], None);
    assert_eq!(
        run(cli_args).unwrap(),
        ":alphabet-yellow-t: :alphabet-yellow-e: :alphabet-yellow-s: :alphabet-yellow-t:"
    );
    let digits = Args::new(vec!["1234567890".to_string()], None);
    assert_eq!(
        run(digits).unwrap(),
        ":one: :two: :three: :four: :five: :six: :seven: :eight: :nine: :zero:"
    );
}

#[test]
fn run_puts_default_space_between_words() {
    let cli_args = Args::new(vec!["a".to_string(), "b".to_string()], None);
    assert_eq!(
        run(cli_args).unwrap(),
        ":alphabet-yellow-a: :white_small_square: :alphabet-yellow-b:"
    );
}

#[test]
fn run_without_words_gives_empty_line() {
    assert_eq!(run(Args::new(vec![], None)), Ok(String::new()));
    assert_eq!(run(Args::new(vec![String::new()], None)), Ok(String::new()));
}

#[test]
fn run_keeps_the_space_around_an_empty_word() {
    let cli_args = Args {
        words: vec!["a".to_string(), String::new(), "b".to_string()],
        space: "_".to_string(),
    };
    assert_eq!(run(cli_args).unwrap(), ":alphabet-yellow-a: _ _ :alphabet-yellow-b:");
}

#[test]
fn run_reports_a_numeral_without_token() {
    let cli_args = Args::new(vec!["a".to_string(), "٣".to_string()], None);
    assert_eq!(run(cli_args), Err(ParseError::UnmappedNumeric('٣')));
}

#[test]
fn empty_text_gives_empty_line() {
    assert_eq!(parse_text("", None), Ok(String::new()));
}

#[test]
fn whitespace_without_token_is_an_error() {
    assert_eq!(parse_grapheme(" ", None), Err(ParseError::MissingSpace));
    assert_eq!(parse_grapheme("\t", None), Err(ParseError::MissingSpace));
    assert_eq!(parse_grapheme("\u{3000}", None), Err(ParseError::MissingSpace));
    assert_eq!(parse_text("G r8", None), Err(ParseError::MissingSpace));
}

#[test]
fn numeral_without_token_is_an_error() {
    assert_eq!(parse_grapheme("٣", None), Err(ParseError::UnmappedNumeric('٣')));
    assert_eq!(parse_grapheme("①", None), Err(ParseError::UnmappedNumeric('①')));
    assert_eq!(parse_grapheme("৬", None), Err(ParseError::UnmappedNumeric('৬')));
    assert_eq!(parse_grapheme("½", None), Err(ParseError::UnmappedNumeric('½')));
    assert_eq!(parse_text("a৬b", None), Err(ParseError::UnmappedNumeric('৬')));
}

#[test]
fn first_cluster_without_token_decides_the_error() {
    assert_eq!(parse_text("a ٣", None), Err(ParseError::MissingSpace));
    assert_eq!(parse_text("a٣ ", None), Err(ParseError::UnmappedNumeric('٣')));
    let args = Args::new(vec![], None);
    assert_eq!(parse_text("a ٣", Some(&args)), Err(ParseError::UnmappedNumeric('٣')));
}

#[test]
fn non_ascii_whitespace_becomes_the_token() {
    let args = Args { words: vec![], space: ":thinking:".to_string() };
    assert_eq!(parse_grapheme("\u{a0}", Some(&args)).unwrap(), ":thinking:");
    assert_eq!(parse_grapheme("\u{2003}", Some(&args)).unwrap(), ":thinking:");
    assert_eq!(parse_grapheme("\n", Some(&args)).unwrap(), ":thinking:");
}

#[test]
fn non_ascii_letters_and_symbols_pass_through() {
    assert_eq!(parse_grapheme("ą", None).unwrap(), "ą");
    assert_eq!(parse_grapheme("K", None).unwrap(), ":alphabet-white-k:");
    assert_eq!(parse_grapheme("و", None).unwrap(), "و");
    assert_eq!(parse_grapheme("藏", None).unwrap(), "藏");
    assert_eq!(parse_grapheme("三", None).unwrap(), "三");
    assert_eq!(parse_grapheme("越", None).unwrap(), "越");
    assert_eq!(parse_grapheme("🎉", None).unwrap(), "🎉");
    assert_eq!(parse_text("$*%", None).unwrap(), "$ * %");
}

#[test]
fn cluster_of_several_code_points_is_one_unchanged_token() {
    assert_eq!(parse_grapheme("e\u{301}", None).unwrap(), "e\u{301}");
    assert_eq!(parse_grapheme("\r\n", None).unwrap(), "\r\n");
    assert_eq!(parse_grapheme("3\u{301}", None).unwrap(), "3\u{301}");
    assert_eq!(
        parse_text("a\u{310}e\u{301}x", None).unwrap(),
        "a\u{310} e\u{301} :alphabet-yellow-x:"
    );
    assert_eq!(
        parse_text("a\r\nb", None).unwrap(),
        ":alphabet-yellow-a: \r\n :alphabet-yellow-b:"
    );
    assert_eq!(parse_text("🇷🇺🇸🇹", None).unwrap(), "🇷🇺 🇸🇹");
}

#[test]
fn one_token_for_each_cluster() {
    let args = Args { words: vec![], space: "_".to_string() };
    let line = parse_text("ab e\u{301}!9$", Some(&args)).unwrap();
    assert_eq!(line.split(' ').count(), 7);
    assert_eq!(
        line,
        ":alphabet-yellow-a: :alphabet-yellow-b: _ e\u{301} :alphabet-yellow-exclamation: :nine: $"
    );
}

#[test]
fn rewriting_twice_is_not_rewriting_once() {
    let once = parse_text("a", None).unwrap();
    assert_eq!(once, ":alphabet-yellow-a:");
    let twice = parse_text(once.as_str(), None).unwrap();
    assert_ne!(twice, once);
    assert!(twice.starts_with(": :alphabet-yellow-a: :alphabet-yellow-l: "));
}

#[test]
fn parse_clusters_maps_the_clusters_it_is_given() {
    let args = Args { words: vec![], space: ":white-small-square:".to_string() };
    assert_eq!(
        parse_clusters(&vec!["G", " ", "r", "8"], Some(&args)).unwrap(),
        ":alphabet-white-g: :white-small-square: :alphabet-yellow-r: :eight:"
    );
    assert_eq!(parse_clusters(&vec![], None), Ok(String::new()));
    assert_eq!(parse_clusters(&vec!["ab", "?"], None).unwrap(), "ab :alphabet-yellow-question:");
    assert_eq!(parse_clusters(&vec!["a", " ", "٣"], None), Err(ParseError::MissingSpace));
    assert_eq!(
        parse_clusters(&vec!["a", "٣", " "], None),
        Err(ParseError::UnmappedNumeric('٣'))
    );
}
