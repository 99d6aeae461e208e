use suoi_simp::Fs;
use suoi_simp::ImportError;
use suoi_simp::Tokens;

fn chars(s: &str) -> Vec<char> {
    s.chars().collect()
}

fn text(t: Option<&[char]>) -> Option<String> {
    t.map(|s| s.iter().collect())
}

#[test]
fn lines_split_at_line_feeds() {
    assert_eq!(Fs::parse_lines("a\nb c\n\nd"), vec![chars("a"), chars("b c"), chars(""), chars("d")]);
}

#[test]
fn lines_drop_the_carriage_return_before_a_line_feed() {
    assert_eq!(Fs::parse_lines("foo\r\nbar\n\nbaz\r"), vec![
        chars("foo"),
        chars("bar"),
        chars(""),
        chars("baz\r"),
    ]);
}

#[test]
fn lines_need_no_final_line_ending() {
    assert_eq!(Fs::parse_lines("foo\nbar\n\r\nbaz"), vec![
        chars("foo"),
        chars("bar"),
        chars(""),
        chars("baz"),
    ]);
    assert_eq!(Fs::parse_lines("foo\n"), vec![chars("foo")]);
}

#[test]
fn lines_of_empty_text_are_none() {
    assert_eq!(Fs::parse_lines(""), Vec::<Vec<char>>::new());
    assert_eq!(Fs::parse_lines("\n"), vec![chars("")]);
}

#[test]
fn lines_agree_with_the_standard_splitter() {
    let cases = ["", "\n", "\r\n", "a", "a\r", "a\r\n\r\nb", "\n\na\n", "x\ry\nz", "o A\nv 1 2 3\n"];
    for case in cases {
        let expected: Vec<Vec<char>> = case.lines().map(chars).collect();
        assert_eq!(Fs::parse_lines(case), expected, "{:?}", case);
    }
}

#[test]
fn tokens_are_the_words_of_a_line() {
    let line = chars(" Mary   had\ta little  \r\x0C lamb");
    let mut tokens = Tokens::new(&line);
    for word in ["Mary", "had", "a", "little", "lamb"] {
        assert_eq!(text(tokens.next()), Some(word.to_string()));
    }
    assert_eq!(tokens.next(), None);
    assert_eq!(tokens.next(), None);
}

#[test]
fn tokens_of_a_blank_line_are_none() {
    for line in ["", "   ", "\t \t"] {
        let line = chars(line);
        let mut tokens = Tokens::new(&line);
        assert_eq!(tokens.next(), None);
        assert_eq!(tokens.remainder(), None);
    }
}

#[test]
fn vertical_tab_is_no_whitespace() {
    let line = chars("a\x0Bb c");
    let mut tokens = Tokens::new(&line);
    assert_eq!(text(tokens.next()), Some("a\x0Bb".to_string()));
    assert_eq!(text(tokens.next()), Some("c".to_string()));
}

#[test]
fn remainder_is_the_unread_text() {
    let line = chars("Mary had a little lamb");
    let mut tokens = Tokens::new(&line);
    assert_eq!(text(tokens.remainder()), Some("Mary had a little lamb".to_string()));
    tokens.next();
    assert_eq!(text(tokens.remainder()), Some("had a little lamb".to_string()));
    while tokens.next().is_some() {}
    assert_eq!(tokens.remainder(), None);
}

#[test]
fn remainder_keeps_inner_and_outer_whitespace() {
    let line = chars("o  My  Name ");
    let (cmd, tokens) = Tokens::directive(&line);
    assert_eq!(text(Some(cmd)), Some("o".to_string()));
    assert_eq!(text(tokens.remainder()), Some(" My  Name ".to_string()));
}

#[test]
fn remainder_after_a_lone_keyword_is_missing() {
    let line = chars("o");
    let (_, tokens) = Tokens::directive(&line);
    assert_eq!(tokens.remainder(), None);
    let line = chars("o ");
    let (_, tokens) = Tokens::directive(&line);
    assert_eq!(text(tokens.remainder()), Some(String::new()));
}

#[test]
fn directive_of_a_blank_line_is_empty() {
    let line = chars("  \t ");
    let (cmd, tokens) = Tokens::directive(&line);
    assert_eq!(cmd.len(), 0);
    assert_eq!(tokens.remainder(), None);
}

#[test]
fn directive_skips_leading_whitespace() {
    let line = chars("\t v 1 2 3");
    let (cmd, mut tokens) = Tokens::directive(&line);
    assert_eq!(text(Some(cmd)), Some("v".to_string()));
    assert_eq!(text(tokens.next()), Some("1".to_string()));
}

#[test]
fn parse_uint_reads_one_word() {
    let line = chars("illum 2 7");
    let (_, mut tokens) = Tokens::directive(&line);
    assert_eq!(Fs::parse_uint(&mut tokens), Ok(2));
    assert_eq!(Fs::parse_uint(&mut tokens), Ok(7));
    assert_eq!(Fs::parse_uint(&mut tokens), Err(ImportError::InvalidData));
}

#[test]
fn parse_uint_rejects_what_is_no_unsigned_integer() {
    for word in ["-1", "1.0", "x", "4294967296", "+", "1_000", "0x10"] {
        let line = chars(word);
        let mut tokens = Tokens::new(&line);
        assert_eq!(Fs::parse_uint(&mut tokens), Err(ImportError::InvalidData), "{}", word);
    }
}

#[test]
fn parse_uint_agrees_with_the_standard_parser() {
    for word in ["0", "+0", "42", "0042", "4294967295", "4294967296", "99999999999", "-0", "", "+", "٣", "1e3"] {
        let line = chars(word);
        let mut tokens = Tokens::new(&line);
        let got = Fs::parse_uint(&mut tokens).ok();
        let expected = if word.is_empty() { None } else { word.parse::<u32>().ok() };
        assert_eq!(got, expected, "{}", word);
    }
}

#[test]
fn parse_float_reads_one_word() {
    let line = chars("Ns 96.078431 1e3");
    let (_, mut tokens) = Tokens::directive(&line);
    let x = Fs::parse_float(&mut tokens).unwrap();
    assert_eq!(x.as_str(), "96.078431");
    assert_eq!(x.as_str().parse::<f32>().unwrap(), 96.078431);
    let y = Fs::parse_float(&mut tokens).unwrap();
    assert_eq!(y.as_str().parse::<f32>().unwrap(), 1000.0);
    assert_eq!(Fs::parse_float(&mut tokens).err(), Some(ImportError::InvalidData));
}

#[test]
fn parse_float_rejects_what_is_no_number() {
    for word in ["abc", "1,5", "1.2.3", "--1", "e5", ".", "+", "1e", "1e+", "0x1p3", "in", "infinit", "1_0"] {
        let line = chars(word);
        let mut tokens = Tokens::new(&line);
        assert_eq!(Fs::parse_float(&mut tokens).err(), Some(ImportError::InvalidData), "{}", word);
    }
}

#[test]
fn parse_float_agrees_with_the_standard_parser() {
    let words = [
        "0", "1", "-1", "+1", "3.14", "-3.14", "2.5E10", "2.5e10", "2.5E-10", "5.", ".5", "7", "007",
        "inf", "-inf", "+infinity", "NaN", "nan", "INF", "Infinity", "iNfInItY", "-NAN", "1e5", "1.e5",
        ".5e-3", "1e+5", "e", "e5", "1e", "1e+", ".", "+.", "-.e1", "1.5.2", "1 ", " 1", "", "١", "1f", "0x10",
        "1e5.5", "..", "infx", "na", "+", "-", "1E5", "1ee5", "12345678901234567890123456789",
        "0.000000000000000000000000000000000000000000001", "1e-999", "1e999", "K", "ınf",
    ];
    for word in words {
        let got = suoi_simp::Decimal::parse(&chars(word)).is_some();
        assert_eq!(got, word.parse::<f32>().is_ok(), "{:?}", word);
    }
}

#[test]
fn parse_vector3_needs_three_numbers() {
    let line = chars("v 1.0 -2 3e0 4");
    let (_, mut tokens) = Tokens::directive(&line);
    let v = Fs::parse_vector3(&mut tokens).unwrap();
    assert_eq!((v.x.as_str(), v.y.as_str(), v.z.as_str()), ("1.0", "-2", "3e0"));
    let line = chars("v 1.0 2.0");
    let (_, mut tokens) = Tokens::directive(&line);
    assert_eq!(Fs::parse_vector3(&mut tokens).err(), Some(ImportError::InvalidData));
    let line = chars("v 1.0 x 2.0");
    let (_, mut tokens) = Tokens::directive(&line);
    assert_eq!(Fs::parse_vector3(&mut tokens).err(), Some(ImportError::InvalidData));
}

#[test]
fn parse_vector2_needs_two_numbers() {
    let line = chars("vt 0.25 0.75");
    let (_, mut tokens) = Tokens::directive(&line);
    let v = Fs::parse_vector2(&mut tokens).unwrap();
    assert_eq!((v.x.as_str(), v.y.as_str()), ("0.25", "0.75"));
    let line = chars("vt 0.25");
    let (_, mut tokens) = Tokens::directive(&line);
    assert_eq!(Fs::parse_vector2(&mut tokens).err(), Some(ImportError::InvalidData));
}
