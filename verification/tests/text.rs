use desk_imager::components::get_ollama_url;
use desk_imager::app_state::AppState;
use desk_imager::text::{
    blank, char_is_whitespace, find_in, join_with, keep_nonempty, list_contains, list_eq, list_without, lowercase_all,
    parse_labels, parse_port, parse_search_terms, split_trimmed, str_contains, str_eq, substring,
    to_chars, trim_bounds,
};

fn strings(items: &[&str]) -> Vec<String> {
    items.iter().map(|s| s.to_string()).collect()
}

#[test]
fn labels_are_split_trimmed_and_filtered() {
    assert_eq!(parse_labels("cat, animal"), strings(&["cat", "animal"]));
    assert_eq!(parse_labels("  tree ,, sky,  ,grass  "), strings(&["tree", "sky", "grass"]));
    assert_eq!(parse_labels("one label"), strings(&["one label"]));
}

#[test]
fn labels_of_empty_or_blank_text_are_none() {
    assert_eq!(parse_labels(""), Vec::<String>::new());
    assert_eq!(parse_labels("   "), Vec::<String>::new());
    assert_eq!(parse_labels(",,,"), Vec::<String>::new());
    assert_eq!(parse_labels(" , \t,\n"), Vec::<String>::new());
}

#[test]
fn labels_keep_inner_whitespace_and_case() {
    assert_eq!(parse_labels(" Red Car ,BLUE  sky"), strings(&["Red Car", "BLUE  sky"]));
}

#[test]
fn labels_agree_with_the_iterator_chain() {
    for text in ["a,b", " a , b ", ",a,,b,", "a", "", " ", "x y, z\u{a0}, \u{3000}w"] {
        let expected: Vec<String> = text
            .split(',')
            .map(|s| s.trim())
            .filter(|s| !s.is_empty())
            .map(String::from)
            .collect();
        assert_eq!(parse_labels(text), expected, "for {:?}", text);
    }
}

#[test]
fn pieces_keep_the_empty_ones() {
    assert_eq!(split_trimmed("a,,b"), strings(&["a", "", "b"]));
    assert_eq!(split_trimmed(""), strings(&[""]));
    assert_eq!(split_trimmed(","), strings(&["", ""]));
    assert_eq!(split_trimmed(" a "), strings(&["a"]));
    assert_eq!(keep_nonempty(strings(&["a", "", "b", ""])), strings(&["a", "b"]));
}

#[test]
fn search_terms_are_lowercase() {
    assert_eq!(parse_search_terms("Cat, DOG ,, Straße"), strings(&["cat", "dog", "straße"]));
    assert_eq!(lowercase_all(&strings(&["ÄB", "x"])), strings(&["äb", "x"]));
}

#[test]
fn trimming_cuts_unicode_whitespace() {
    let chars = to_chars("\u{2003} a b\t\n");
    assert_eq!(trim_bounds(&chars, 0, chars.len()), (2, 5));
    assert_eq!(trim_bounds(&chars, 3, 3), (3, 3));
    let spaces = to_chars("   ");
    let (a, b) = trim_bounds(&spaces, 0, 3);
    assert_eq!(a, b);
}

#[test]
fn blank_texts() {
    assert!(blank(""));
    assert!(blank(" \t\n"));
    assert!(!blank(" x "));
}

#[test]
fn substring_counts_characters_not_bytes() {
    assert_eq!(substring("žluťoučký", 1, 4), "luť");
    assert_eq!(substring("abc", 0, 0), "");
    assert_eq!(substring("abc", 0, 3), "abc");
}

#[test]
fn containment() {
    assert!(str_contains("/home/me/cat.png", "cat"));
    assert!(str_contains("abc", ""));
    assert!(str_contains("", ""));
    assert!(!str_contains("", "a"));
    assert!(!str_contains("abc", "abcd"));
    assert!(!str_contains("abc", "ac"));
    assert!(str_contains("aab", "ab"));
    assert!(!str_contains("Cat", "cat"));
}

#[test]
fn folded_search_reads_capitals_as_small_letters() {
    let hay = to_chars("It is TRUE.");
    assert!(find_in(&hay, &to_chars("true"), true));
    assert!(!find_in(&hay, &to_chars("true"), false));
    assert!(!find_in(&hay, &to_chars("TRUE"), true));
    assert!(find_in(&hay, &to_chars("TRUE"), false));
}

#[test]
fn text_equality_and_lists() {
    assert!(str_eq("a", "a"));
    assert!(!str_eq("a", "A"));
    assert!(!str_eq("a", "ab"));
    assert!(list_contains(&strings(&["llama", "clip"]), "clip"));
    assert!(!list_contains(&strings(&["llama"]), "clip"));
    assert!(list_eq(&strings(&["a", "b"]), &strings(&["a", "b"])));
    assert!(!list_eq(&strings(&["a", "b"]), &strings(&["b", "a"])));
    assert!(!list_eq(&strings(&["a"]), &strings(&["a", "b"])));
    assert_eq!(list_without(&strings(&["a", "b", "a", "c"]), "a"), strings(&["b", "c"]));
}

#[test]
fn joining() {
    assert_eq!(join_with(&strings(&["a", "b", "c"]), "\n"), "a\nb\nc");
    assert_eq!(join_with(&strings(&["a"]), "\n"), "a");
    assert_eq!(join_with(&strings(&[]), "\n"), "");
    assert_eq!(join_with(&strings(&["", ""]), ", "), ", ");
}

#[test]
fn ports_parse_as_sixteen_bit_decimals() {
    let port = |s: &str| parse_port(&to_chars(s), 0);
    assert_eq!(port("11434"), Some(11434));
    assert_eq!(port("0"), Some(0));
    assert_eq!(port("0080"), Some(80));
    assert_eq!(port("+80"), Some(80));
    assert_eq!(port("65535"), Some(65535));
    assert_eq!(port("65536"), None);
    assert_eq!(port("99999999999999999999"), None);
    assert_eq!(port(""), None);
    assert_eq!(port("+"), None);
    assert_eq!(port("-1"), None);
    assert_eq!(port("++1"), None);
    assert_eq!(port("11434/"), None);
    assert_eq!(port(" 80"), None);
    assert_eq!(port("8_0"), None);
    assert_eq!(port("１２"), None);
    assert_eq!(parse_port(&to_chars("ab:42"), 3), Some(42));
}

#[test]
fn ports_agree_with_the_standard_parser() {
    for s in ["1", "+1", "-0", "00", "65535", "65536", "70000", "", "+", "1a", "a1", "+-1", "٣"] {
        assert_eq!(parse_port(&to_chars(s), 0), s.parse::<u16>().ok(), "for {:?}", s);
    }
}

fn state_with_url(url: &str) -> AppState {
    let mut state = AppState::new(None);
    state.ollama_state.url = url.to_string();
    state
}

#[test]
fn server_address_splits_at_its_last_colon() {
    let state = state_with_url("http://127.0.0.1:11434");
    assert_eq!(get_ollama_url(Some(&state)), ("http://127.0.0.1".to_string(), 11434));
    let state = state_with_url("http://[::1]:8080");
    assert_eq!(get_ollama_url(Some(&state)), ("http://[::1]".to_string(), 8080));
}

#[test]
fn server_address_without_port_gives_the_fallback() {
    let fallback = ("http://localhost/".to_string(), 11343);
    assert_eq!(get_ollama_url(None), fallback);
    for url in ["http://127.0.0.1:11434/", "localhost", "", "http://host:", "http://host:99999"] {
        assert_eq!(get_ollama_url(Some(&state_with_url(url))), fallback, "for {:?}", url);
    }
    assert_eq!(get_ollama_url(Some(&AppState::new(None))), fallback);
}

#[test]
fn white_space_is_the_unicode_property() {
    for code in 0..=0x10ffff_u32 {
        if let Some(c) = char::from_u32(code) {
            assert_eq!(char_is_whitespace(c), c.is_whitespace(), "for U+{:04X}", code);
        }
    }
}

#[test]
fn trimming_agrees_with_the_standard_trim() {
    for text in ["", " ", " a ", "\u{a0}a\u{3000}", "a\u{200b}", "\u{1680}x y\u{2028}\u{2029}", "\u{85}\u{feff}z"] {
        let chars = to_chars(text);
        let (a, b) = trim_bounds(&chars, 0, chars.len());
        assert_eq!(substring(text, a, b), text.trim(), "for {:?}", text);
    }
}
