use pacbrew::error::BrewError;
use pacbrew::filter::{accepts_all, compile_all, filter_lines, keep_accepted};
use pacbrew::text::{first_byte, split_lines, trim_cr};
use regex::Regex;

fn words(items: &[&str]) -> Vec<String> {
    items.iter().map(|w| w.to_string()).collect()
}

#[test]
fn split_lines_on_line_feeds() {
    assert_eq!(split_lines("a\nb\nc"), vec!["a", "b", "c"]);
    assert_eq!(split_lines("a\nb\n"), vec!["a", "b"]);
    assert_eq!(split_lines("one line"), vec!["one line"]);
}

#[test]
fn split_lines_of_nothing_is_empty() {
    assert_eq!(split_lines(""), Vec::<&str>::new());
}

#[test]
fn split_lines_keeps_empty_lines() {
    assert_eq!(split_lines("\n"), vec![""]);
    assert_eq!(split_lines("\n\n"), vec!["", ""]);
    assert_eq!(split_lines("a\n\nb"), vec!["a", "", "b"]);
    assert_eq!(split_lines("\na"), vec!["", "a"]);
}

#[test]
fn split_lines_drops_a_carriage_return_before_a_line_feed() {
    assert_eq!(split_lines("a\r\nb\r\n"), vec!["a", "b"]);
    assert_eq!(split_lines("a\r\r\nb"), vec!["a\r", "b"]);
    assert_eq!(split_lines("\r\n"), vec![""]);
    assert_eq!(split_lines("a\rb\nc"), vec!["a\rb", "c"]);
}

#[test]
fn split_lines_keeps_a_carriage_return_at_the_very_end() {
    assert_eq!(split_lines("a\nb\r"), vec!["a", "b\r"]);
    assert_eq!(split_lines("\r"), vec!["\r"]);
}

#[test]
fn split_lines_handles_text_beyond_ascii() {
    assert_eq!(split_lines("héllo\nwörld\r\n日本語\n😀"), vec!["héllo", "wörld", "日本語", "😀"]);
    assert_eq!(split_lines("é\r\n"), vec!["é"]);
    assert_eq!(split_lines("\u{10a}\n\u{10d}"), vec!["\u{10a}", "\u{10d}"]);
}

#[test]
fn split_lines_agrees_with_the_standard_library() {
    let samples = [
        "",
        "a",
        "a\n",
        "a\nb",
        "a\r\nb",
        "\n\n\n",
        "x\r\n\r\ny\n",
        "git 2.40\nvim 9.0\npython@3.11 3.11.3\n",
        "ünïcödé\r\nline\n",
    ];
    for text in samples {
        let want: Vec<&str> = text.lines().collect();
        assert_eq!(split_lines(text), want, "{:?}", text);
    }
}

#[test]
fn trim_cr_removes_one_carriage_return() {
    assert_eq!(trim_cr("abc\r"), "abc");
    assert_eq!(trim_cr("abc\r\r"), "abc\r");
    assert_eq!(trim_cr("abc"), "abc");
    assert_eq!(trim_cr(""), "");
    assert_eq!(trim_cr("\r"), "");
    assert_eq!(trim_cr("\rabc"), "\rabc");
    assert_eq!(trim_cr("é\r"), "é");
}

#[test]
fn first_byte_finds_the_first_or_the_length() {
    assert_eq!(first_byte(b"abcabc", b'b'), 1);
    assert_eq!(first_byte(b"abcabc", b'a'), 0);
    assert_eq!(first_byte(b"abc", b'z'), 3);
    assert_eq!(first_byte(b"", b'a'), 0);
}

#[test]
fn filter_without_keywords_keeps_every_line() {
    let got = filter_lines("git\nvim\n\npython\n", &vec![]);
    assert_eq!(got, Ok(words(&["git", "vim", "", "python"])));
}

#[test]
fn filter_keeps_lines_that_match_every_keyword() {
    let text = "python@3.11\npython@3.12\nruby\npy3\n";
    assert_eq!(filter_lines(text, &words(&["py"])), Ok(words(&["python@3.11", "python@3.12", "py3"])));
    assert_eq!(filter_lines(text, &words(&["py", "3"])), Ok(words(&["python@3.11", "python@3.12", "py3"])));
    assert_eq!(filter_lines(text, &words(&["py", "12"])), Ok(words(&["python@3.12"])));
    assert_eq!(filter_lines(text, &words(&["12", "py"])), Ok(words(&["python@3.12"])));
    assert_eq!(filter_lines(text, &words(&["py", "ruby"])), Ok(vec![]));
}

#[test]
fn filter_matches_anywhere_in_a_line_and_by_pattern() {
    let text = "libfoo\nfoolib\nbar\nfo\n";
    assert_eq!(filter_lines(text, &words(&["foo"])), Ok(words(&["libfoo", "foolib"])));
    assert_eq!(filter_lines(text, &words(&["^foo"])), Ok(words(&["foolib"])));
    assert_eq!(filter_lines(text, &words(&["foo$"])), Ok(words(&["libfoo"])));
    assert_eq!(filter_lines(text, &words(&["fo+", "b"])), Ok(words(&["libfoo", "foolib"])));
    assert_eq!(filter_lines(text, &words(&["^(bar|fo)$"])), Ok(words(&["bar", "fo"])));
}

#[test]
fn filter_keeps_the_order_and_repeated_lines() {
    let text = "b1\na1\nb2\na1\n";
    assert_eq!(filter_lines(text, &words(&["1"])), Ok(words(&["b1", "a1", "a1"])));
}

#[test]
fn filter_is_case_sensitive() {
    assert_eq!(filter_lines("Git\ngit\n", &words(&["git"])), Ok(words(&["git"])));
}

#[test]
fn filter_fails_on_a_keyword_that_does_not_compile() {
    let got = filter_lines("a\nb\n", &words(&["a", "b(", "c["]));
    assert_eq!(got, Err(BrewError::InvalidFilterPattern { pattern: "b(".to_string() }));
    let got = filter_lines("", &words(&["*"]));
    assert_eq!(got, Err(BrewError::InvalidFilterPattern { pattern: "*".to_string() }));
}

#[test]
fn filter_of_empty_text_is_empty() {
    assert_eq!(filter_lines("", &words(&["a"])), Ok(vec![]));
    assert_eq!(filter_lines("", &vec![]), Ok(vec![]));
}

#[test]
fn an_empty_keyword_matches_every_line() {
    assert_eq!(filter_lines("a\n\nb", &words(&[""])), Ok(words(&["a", "", "b"])));
}

#[test]
fn compile_all_gives_one_expression_for_each_keyword() {
    let got = compile_all(&words(&["a+", "b", "^c$"])).unwrap();
    assert_eq!(got.len(), 3);
    assert_eq!(got[0].as_str(), "a+");
    assert_eq!(got[1].as_str(), "b");
    assert_eq!(got[2].as_str(), "^c$");
    assert!(compile_all(&vec![]).unwrap().is_empty());
}

#[test]
fn compile_all_reports_the_first_keyword_that_is_refused() {
    let got = compile_all(&words(&["ok", "(", "["]));
    assert_eq!(got.err(), Some(BrewError::InvalidFilterPattern { pattern: "(".to_string() }));
}

#[test]
fn accepts_all_wants_every_expression_to_match() {
    let res = vec![Regex::new("a").unwrap(), Regex::new("b+").unwrap()];
    assert!(accepts_all(&res, "xxabxx"));
    assert!(accepts_all(&res, "b a"));
    assert!(!accepts_all(&res, "aaa"));
    assert!(!accepts_all(&res, "bbb"));
    assert!(!accepts_all(&res, ""));
    assert!(accepts_all(&vec![], ""));
    assert!(accepts_all(&vec![], "anything"));
}

#[test]
fn keep_accepted_filters_by_compiled_expressions() {
    let res = vec![Regex::new("^lib").unwrap(), Regex::new(r"\d").unwrap()];
    let got = keep_accepted("libpng 1.6\nlibfoo\npng2\nlib2\r\nlast", &res);
    assert_eq!(got, words(&["libpng 1.6", "lib2"]));
    assert_eq!(keep_accepted("a\nb", &vec![]), words(&["a", "b"]));
}
