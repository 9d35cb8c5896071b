use parinfer_cli::flags::{usage, InputType, Mode, Options, OutputType, ParseError};

fn parse(args: &[&str]) -> Result<Options, ParseError> {
    let owned: Vec<String> = args.iter().map(|s| s.to_string()).collect();
    Options::parse(&owned)
}

#[test]
fn empty_args_give_every_default() {
    let o = parse(&[]).unwrap();
    assert_eq!(o.want_help(), false);
    assert_eq!(o.input_type(), InputType::Text);
    assert_eq!(o.output_type(), OutputType::Text);
    assert_eq!(o.mode(), Mode::Smart);
    assert_eq!(o.comment_char(), ';');
}

#[test]
fn mode_and_comment_char_round_trip() {
    let o = parse(&["-m", "paren", "--comment-char", "#"]).unwrap();
    assert_eq!(o.mode(), Mode::Paren);
    assert_eq!(o.comment_char(), '#');
    assert_eq!(o.want_help(), false);
    assert_eq!(o.input_type(), InputType::Text);
    assert_eq!(o.output_type(), OutputType::Text);
}

#[test]
fn help_flag_short_and_long() {
    assert!(parse(&["-h"]).unwrap().want_help());
    assert!(parse(&["--help"]).unwrap().want_help());
}

#[test]
fn mode_words_and_abbreviations() {
    assert_eq!(parse(&["-m", "i"]).unwrap().mode(), Mode::Indent);
    assert_eq!(parse(&["-m", "indent"]).unwrap().mode(), Mode::Indent);
    assert_eq!(parse(&["-m", "p"]).unwrap().mode(), Mode::Paren);
    assert_eq!(parse(&["--mode", "paren"]).unwrap().mode(), Mode::Paren);
    assert_eq!(parse(&["-m", "s"]).unwrap().mode(), Mode::Smart);
    assert_eq!(parse(&["-m", "smart"]).unwrap().mode(), Mode::Smart);
}

#[test]
fn input_and_output_formats() {
    let o = parse(&["--input-format", "json", "--output-format", "kakoune"]).unwrap();
    assert_eq!(o.input_type(), InputType::Json);
    assert_eq!(o.output_type(), OutputType::Kakoune);
    let o = parse(&["--input-format", "kakoune", "--output-format", "json"]).unwrap();
    assert_eq!(o.input_type(), InputType::Kakoune);
    assert_eq!(o.output_type(), OutputType::Json);
    let o = parse(&["--input-format", "text", "--output-format", "text"]).unwrap();
    assert_eq!(o.input_type(), InputType::Text);
    assert_eq!(o.output_type(), OutputType::Text);
}

#[test]
fn bad_mode_is_rejected_with_its_value() {
    match parse(&["-m", "indentt"]) {
        Err(ParseError::BadMode(v)) => assert_eq!(v, "indentt"),
        other => panic!("expected BadMode, got {:?}", other),
    }
}

#[test]
fn bad_input_format_is_rejected_with_its_value() {
    match parse(&["--input-format", "yaml"]) {
        Err(ParseError::BadInputFormat(v)) => assert_eq!(v, "yaml"),
        other => panic!("expected BadInputFormat, got {:?}", other),
    }
}

#[test]
fn bad_output_format_is_rejected_with_its_value() {
    match parse(&["--output-format", "Text"]) {
        Err(ParseError::BadOutputFormat(v)) => assert_eq!(v, "Text"),
        other => panic!("expected BadOutputFormat, got {:?}", other),
    }
}

#[test]
fn comment_char_must_be_one_character() {
    match parse(&["--comment-char", ""]) {
        Err(ParseError::BadCommentChar(v)) => assert_eq!(v, ""),
        other => panic!("expected BadCommentChar, got {:?}", other),
    }
    match parse(&["--comment-char", ";;"]) {
        Err(ParseError::BadCommentChar(v)) => assert_eq!(v, ";;"),
        other => panic!("expected BadCommentChar, got {:?}", other),
    }
    assert_eq!(parse(&["--comment-char", "%"]).unwrap().comment_char(), '%');
}

#[test]
fn unknown_flag_is_an_argument_error() {
    match parse(&["--frobnicate"]) {
        Err(ParseError::Args(msg)) => assert!(!msg.is_empty()),
        other => panic!("expected Args, got {:?}", other),
    }
}

#[test]
fn missing_value_is_an_argument_error() {
    match parse(&["--comment-char"]) {
        Err(ParseError::Args(msg)) => assert!(!msg.is_empty()),
        other => panic!("expected Args, got {:?}", other),
    }
}

#[test]
fn usage_lists_the_flags() {
    let text = usage();
    assert_ne!(text, "Usage: parinfer-rust [options]");
    assert!(text.contains("Usage: parinfer-rust [options]"));
    assert!(text.contains("--input-format"));
    assert!(text.contains("--output-format"));
    assert!(text.contains("--comment-char"));
    assert!(text.contains("--mode"));
    assert!(text.contains("--help"));
}
