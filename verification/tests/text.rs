use aish::text;

fn strings(items: &[&str]) -> Vec<String> {
    items.iter().map(|s| s.to_string()).collect()
}

#[test]
fn str_eq_compares_texts() {
    assert!(text::str_eq("shell", "shell"));
    assert!(!text::str_eq("shell", "shel"));
    assert!(!text::str_eq("shell", "shelf"));
    assert!(text::str_eq("", ""));
    assert!(text::str_eq("größe", "größe"));
    assert!(!text::str_eq("große", "größe"));
}

#[test]
fn to_chars_gives_every_character() {
    assert_eq!(text::to_chars("aß€"), vec!['a', 'ß', '€']);
    assert_eq!(text::to_chars(""), Vec::<char>::new());
}

#[test]
fn concat_puts_texts_in_a_row() {
    assert_eq!(text::concat("Read file: ", "a.txt"), "Read file: a.txt");
    assert_eq!(text::concat3("a", "", "c"), "ac");
}

#[test]
fn contains_text_finds_exact_items_only() {
    let list = strings(&[".env", ".pem"]);
    assert!(text::contains_text(&list, ".env"));
    assert!(!text::contains_text(&list, ".ENV"));
    assert!(!text::contains_text(&list, "env"));
    assert!(!text::contains_text(&Vec::new(), ".env"));
}

#[test]
fn join_puts_the_separator_between_items() {
    assert_eq!(text::join(&strings(&["a", "b", "c"]), "\n"), "a\nb\nc");
    assert_eq!(text::join(&strings(&["only"]), "\n"), "only");
    assert_eq!(text::join(&strings(&[]), "\n"), "");
    assert_eq!(text::join(&strings(&["", ""]), ", "), ", ");
}

#[test]
fn replace_changes_every_occurrence_from_the_left() {
    assert_eq!(text::replace("*.log", "*", ".*"), ".*.log");
    assert_eq!(text::replace("a*b*c", "*", ".*"), "a.*b.*c");
    assert_eq!(text::replace("cwd={{CWD}};{{CWD}}", "{{CWD}}", "/tmp"), "cwd=/tmp;/tmp");
    assert_eq!(text::replace("aaa", "aa", "b"), "ba");
    assert_eq!(text::replace("abc", "x", "y"), "abc");
    assert_eq!(text::replace("python-3.11", "python-", ""), "3.11");
    assert_eq!(text::replace("", "x", "y"), "");
}

#[test]
fn replace_does_not_look_into_what_it_put_in() {
    assert_eq!(text::replace("ab", "a", "aa"), "aab");
    assert_eq!(text::replace("xx", "x", "xx"), "xxxx");
}

#[test]
fn replace_with_empty_pattern_changes_nothing() {
    assert_eq!(text::replace("abc", "", "-"), "abc");
}

#[test]
fn decimal_of_numbers() {
    assert_eq!(text::u32_to_string(0), "0");
    assert_eq!(text::u32_to_string(7), "7");
    assert_eq!(text::u32_to_string(4096), "4096");
    assert_eq!(text::u32_to_string(u32::MAX), "4294967295");
    assert_eq!(text::i32_to_string(3), "3");
    assert_eq!(text::i32_to_string(0), "0");
    assert_eq!(text::i32_to_string(-1), "-1");
    assert_eq!(text::i32_to_string(i32::MIN), "-2147483648");
    assert_eq!(text::i32_to_string(i32::MAX), "2147483647");
}

#[test]
fn parse_u32_reads_digits() {
    assert_eq!(text::parse_u32("0"), Some(0));
    assert_eq!(text::parse_u32("4096"), Some(4096));
    assert_eq!(text::parse_u32("+12"), Some(12));
    assert_eq!(text::parse_u32("007"), Some(7));
    assert_eq!(text::parse_u32("4294967295"), Some(u32::MAX));
}

#[test]
fn parse_u32_rejects_what_is_no_number() {
    assert_eq!(text::parse_u32(""), None);
    assert_eq!(text::parse_u32("+"), None);
    assert_eq!(text::parse_u32("-1"), None);
    assert_eq!(text::parse_u32("12a"), None);
    assert_eq!(text::parse_u32(" 12"), None);
    assert_eq!(text::parse_u32("1_000"), None);
    assert_eq!(text::parse_u32("4294967296"), None);
    assert_eq!(text::parse_u32("99999999999999999999999"), None);
    assert_eq!(text::parse_u32("++1"), None);
}

#[test]
fn parse_u32_agrees_with_the_standard_parser() {
    for text in ["0", "+0", "42", "0042", "4294967295", "4294967296", "", "+", "-0", "1 ", "x"] {
        assert_eq!(text::parse_u32(text), text.parse::<u32>().ok(), "{}", text);
    }
}

#[test]
fn lines_splits_at_line_feeds() {
    assert_eq!(text::lines("a\nb\nc"), strings(&["a", "b", "c"]));
    assert_eq!(text::lines("a\nb\n"), strings(&["a", "b"]));
    assert_eq!(text::lines("a\r\nb"), strings(&["a", "b"]));
    assert_eq!(text::lines("a\n\nb"), strings(&["a", "", "b"]));
    assert_eq!(text::lines(""), strings(&[]));
    assert_eq!(text::lines("\n"), strings(&[""]));
    assert_eq!(text::lines("a\rb"), strings(&["a\rb"]));
    assert_eq!(text::lines("last\r"), strings(&["last\r"]));
}

#[test]
fn lines_agrees_with_the_standard_iterator() {
    for text in ["", "\n", "\r\n", "a", "a\n", "a\r\n\r\nb", "x\r", "one\ntwo\r\nthree\n\n"] {
        let expected: Vec<String> = text.lines().map(|l| l.to_string()).collect();
        assert_eq!(text::lines(text), expected, "{:?}", text);
    }
}

#[test]
fn contains_finds_a_part_anywhere() {
    assert!(text::contains("flask==2.0\ndjango", "django"));
    assert!(text::contains("django", "django"));
    assert!(!text::contains("djang", "django"));
    assert!(text::contains("anything", ""));
    assert!(text::contains("", ""));
    assert!(!text::contains("", "a"));
    assert!(text::contains("aab", "ab"));
}

#[test]
fn starts_with_looks_at_the_start_only() {
    assert!(text::starts_with("go 1.21", "go "));
    assert!(!text::starts_with("  go 1.21", "go "));
    assert!(!text::starts_with("go", "go "));
    assert!(text::starts_with("x", ""));
}

#[test]
fn split_gives_one_more_piece_than_separators() {
    assert_eq!(text::split("a=b=c", '='), strings(&["a", "b", "c"]));
    assert_eq!(text::split("abc", '='), strings(&["abc"]));
    assert_eq!(text::split("", '='), strings(&[""]));
    assert_eq!(text::split("=", '='), strings(&["", ""]));
    assert_eq!(text::split("a==", '='), strings(&["a", "", ""]));
}

#[test]
fn split_agrees_with_the_standard_iterator() {
    for text in ["", "=", "a=b", "==x=", "no separator", "<java.version>17</java.version>"] {
        for sep in ['=', '>', '<'] {
            let expected: Vec<String> = text.split(sep).map(|l| l.to_string()).collect();
            assert_eq!(text::split(text, sep), expected, "{:?} {:?}", text, sep);
        }
    }
}

#[test]
fn trim_takes_white_space_off_both_ends() {
    assert_eq!(text::trim("  main \n"), "main");
    assert_eq!(text::trim("\t\r\n"), "");
    assert_eq!(text::trim("a b"), "a b");
    assert_eq!(text::trim(""), "");
    assert_eq!(text::trim("\u{a0}x\u{3000}"), "x");
}

#[test]
fn white_space_is_what_the_standard_library_says() {
    let mut code: u32 = 0;
    while code <= 0x3100 {
        if let Some(c) = char::from_u32(code) {
            assert_eq!(text::is_whitespace(c), c.is_whitespace(), "U+{:04X}", code);
        }
        code += 1;
    }
    assert!(!text::is_whitespace('\u{feff}'));
    assert!(!text::is_whitespace('\u{180e}'));
}

#[test]
fn trim_matches_takes_one_character_off_both_ends() {
    assert_eq!(text::trim_matches("\"3.11\"", '"'), "3.11");
    assert_eq!(text::trim_matches("\"\"x\"", '"'), "x");
    assert_eq!(text::trim_matches("x", '"'), "x");
    assert_eq!(text::trim_matches("\"\"", '"'), "");
    assert_eq!(text::trim_matches("a\"b", '"'), "a\"b");
}

#[test]
fn words_are_runs_without_white_space() {
    assert_eq!(text::words("go 1.21"), strings(&["go", "1.21"]));
    assert_eq!(text::words("  a \t b\n"), strings(&["a", "b"]));
    assert_eq!(text::words("   "), strings(&[]));
    assert_eq!(text::words(""), strings(&[]));
    assert_eq!(text::words("one"), strings(&["one"]));
}

#[test]
fn words_agree_with_the_standard_iterator() {
    for line in ["", " ", "go 1.21", "\tgo\u{a0}1.21\r\n", "a  b   c", "x\u{2003}y", "no-space"] {
        let expected: Vec<String> = line.split_whitespace().map(|w| w.to_string()).collect();
        assert_eq!(text::words(line), expected, "{:?}", line);
    }
}

#[test]
fn trimming_agrees_with_the_standard_library() {
    for s in ["", " ", " a ", "\n\ta b\r\n", "\u{3000}x\u{2028}", "\"q\"", "''x'", "\"\"\"", "x"] {
        assert_eq!(text::trim(s), s.trim(), "{:?}", s);
        assert_eq!(text::trim_matches(s, '"'), s.trim_matches('"'), "{:?}", s);
        assert_eq!(text::trim_matches(s, '\''), s.trim_matches('\''), "{:?}", s);
    }
}

#[test]
fn searching_agrees_with_the_standard_library() {
    let texts = ["", "a", "aa", "aab", "abab", "django==4.2\nflask", "{{CWD}} and {{CWD}}"];
    let parts = ["a", "ab", "ba", "aa", "b", "django", "{{CWD}}", "{{", "}}"];
    for s in texts {
        for p in parts {
            assert_eq!(text::contains(s, p), s.contains(p), "{:?} {:?}", s, p);
            assert_eq!(text::starts_with(s, p), s.starts_with(p), "{:?} {:?}", s, p);
            assert_eq!(text::replace(s, p, "-"), s.replace(p, "-"), "{:?} {:?}", s, p);
            assert_eq!(text::replace(s, p, ""), s.replace(p, ""), "{:?} {:?}", s, p);
            assert_eq!(text::replace(s, p, "aa"), s.replace(p, "aa"), "{:?} {:?}", s, p);
        }
    }
}

#[test]
fn find_gives_the_first_place() {
    let chars = text::to_chars("a: b: {x} {y}");
    assert_eq!(text::find(&chars, ": "), Some(1));
    assert_eq!(text::find(&chars, "{y}"), Some(10));
    assert_eq!(text::find(&chars, "z"), None);
    assert_eq!(text::find(&chars, ""), Some(0));
    assert_eq!(text::find_char(&chars, '{'), Some(6));
    assert_eq!(text::find_char(&chars, '?'), None);
    assert_eq!(text::rfind_char(&chars, '}'), Some(12));
    assert_eq!(text::rfind_char(&chars, 'a'), Some(0));
    assert_eq!(text::rfind_char(&chars, '?'), None);
    assert_eq!(text::slice(&chars, 6, 9), "{x}");
    assert_eq!(text::slice(&chars, 3, 3), "");
}

#[test]
fn numbers_are_rows_of_digits() {
    assert!(text::is_number("0"));
    assert!(text::is_number("429"));
    assert!(text::is_number("00000000000000000000000000000001"));
    assert!(!text::is_number(""));
    assert!(!text::is_number("-1"));
    assert!(!text::is_number("4.5"));
    assert!(!text::is_number("1e3"));
    assert!(!text::is_number("٣"));
}
