use dias::cmd_line::matching::{find_arg, ArgNames, Token};
use dias::cmd_line::{ArgId, DummyParsed, DummyParser, ParsingError};

#[test]
fn dummy_flags() {
    let mut parser = DummyParser::new();
    let foo = parser.add_flag(&['f'], &["foo"]);
    let bar = parser.add_flag(&['b'], &["bar"]);

    let args = parser.parse().unwrap();
    assert_eq!(args.get(&foo), None);
    assert_eq!(args.get(&bar), None);
}

#[test]
fn dummy_options() {
    let mut parser = DummyParser::new();
    let foo = parser.add_option_with::<_, _, _>(&['f'], &["foo"], str::parse::<i32>);
    let bar = parser.add_option::<String, std::convert::Infallible>(&['b'], &["bar"]);

    let args = parser.parse().unwrap();
    assert_eq!(args.get(&foo), None);
    assert_eq!(args.get(&bar), None);
}

#[test]
fn dummy_ids_count_up() {
    let mut parser = DummyParser::new();
    let a = parser.add_flag(&['a'], &["aa"]);
    let b = parser.add_option::<i32, std::num::ParseIntError>(&['b'], &["bb"]);
    let c = parser.add_option_with(&['c'], &["cc"], |s: &str| s.parse::<u8>());
    assert_eq!((a.id, b.id, c.id), (0, 1, 2));
    let parsed = DummyParsed::new();
    assert_eq!(parsed.get(&c), None);
}

#[test]
fn arg_id_keeps_its_number() {
    let id: ArgId<String> = ArgId::new(7);
    assert_eq!(id.id, 7);
}

#[test]
fn parsing_error_texts() {
    assert_eq!(ParsingError::ParsingFailed.to_string(), "could not parse arguments");
    assert_eq!(
        ParsingError::ValueParsingFailed {
            arg_name: "foo".to_string(),
            error: "invalid digit found in string".to_string()
        }
        .to_string(),
        "could not parse value for option argument foo: invalid digit found in string"
    );
    assert_eq!(
        ParsingError::UnknownOption { arg_name: "baz".to_string() }.to_string(),
        "found unknown option argument baz"
    );
    assert_eq!(
        ParsingError::MissingValue { arg_name: "foo".to_string() }.to_string(),
        "no value for option argument foo"
    );
    assert_eq!(
        ParsingError::UnknownValue.to_string(),
        "found unknown value which is not an option argument or expected value for one"
    );
}

fn foo_bar() -> Vec<ArgNames> {
    vec![
        ArgNames { short: vec!['f'], long: vec!["foo".to_string()] },
        ArgNames { short: vec!['b'], long: vec!["bar".to_string()] },
    ]
}

#[test]
fn match_arg_by_short_and_long_name() {
    let names = ArgNames { short: vec!['f'], long: vec!["foo".to_string()] };
    assert_eq!(names.match_arg(&Token::Short('f')), Some("f".to_string()));
    assert_eq!(names.match_arg(&Token::Long("foo".to_string())), Some("foo".to_string()));
    assert_eq!(names.match_arg(&Token::Short('b')), None);
    assert_eq!(names.match_arg(&Token::Long("fo".to_string())), None);
    assert_eq!(names.match_arg(&Token::Value("foo".to_string())), None);
}

#[test]
fn find_arg_picks_the_first_match() {
    let args = foo_bar();
    assert!(matches!(find_arg(&args, &Token::Long("bar".to_string())), Ok((1, n)) if n == "bar"));
    assert!(matches!(find_arg(&args, &Token::Short('f')), Ok((0, n)) if n == "f"));
    let twice = vec![
        ArgNames { short: vec!['x'], long: vec![] },
        ArgNames { short: vec!['x'], long: vec![] },
    ];
    assert!(matches!(find_arg(&twice, &Token::Short('x')), Ok((0, _))));
}

#[test]
fn find_arg_reports_unknown_tokens() {
    let args = foo_bar();
    assert!(matches!(
        find_arg(&args, &Token::Long("baz".to_string())),
        Err(ParsingError::UnknownOption { arg_name }) if arg_name == "baz"
    ));
    assert!(matches!(
        find_arg(&args, &Token::Short('x')),
        Err(ParsingError::UnknownOption { arg_name }) if arg_name == "x"
    ));
    assert!(matches!(
        find_arg(&args, &Token::Value("abc".to_string())),
        Err(ParsingError::UnknownValue)
    ));
    assert!(matches!(find_arg(&vec![], &Token::Short('f')), Err(ParsingError::UnknownOption { .. })));
}

#[test]
fn lookup_order_is_long_then_short() {
    let names = ArgNames { short: vec!['f', 'g'], long: vec!["foo".to_string(), "fu".to_string()] };
    assert_eq!(names.lookup_order(), vec!["foo", "fu", "f", "g"]);
    let none = ArgNames { short: vec![], long: vec![] };
    assert!(none.lookup_order().is_empty());
}
