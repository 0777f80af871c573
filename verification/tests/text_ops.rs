use rtdlib::text::{
    capitalize_chars, chars_to_string, clean_text, contains_chars, ends_with_chars, eq_chars,
    lower_chars, replace_chars, starts_with_chars, str_to_chars, to_lower_char, to_upper_char,
    trim_chars,
};

fn s(v: &str) -> Vec<char> {
    str_to_chars(v)
}

#[test]
fn case_folding_is_ascii_only() {
    assert_eq!(to_lower_char('A'), 'a');
    assert_eq!(to_lower_char('z'), 'z');
    assert_eq!(to_lower_char('9'), '9');
    assert_eq!(to_upper_char('a'), 'A');
    assert_eq!(to_upper_char('_'), '_');
    assert_eq!(chars_to_string(&lower_chars(&s("UserStatus"))), "userstatus");
}

#[test]
fn substring_search() {
    assert!(contains_chars(&s("this class is a base class"), &s("base class")));
    assert!(!contains_chars(&s("short"), &s("longer pattern")));
    assert!(contains_chars(&s("anything"), &s("")));
    assert!(starts_with_chars(&s("inherited by Foo"), &s("inherited by")));
    assert!(!starts_with_chars(&s("x inherited by"), &s("inherited by")));
    assert!(ends_with_chars(&s("length_"), &s("_")));
    assert!(!ends_with_chars(&s("length"), &s("_")));
}

#[test]
fn equality_trim_and_replace() {
    assert!(eq_chars(&s("abc"), &s("abc")));
    assert!(!eq_chars(&s("abc"), &s("abd")));
    assert_eq!(chars_to_string(&trim_chars(&s("  hi there \t\n"))), "hi there");
    assert_eq!(chars_to_string(&trim_chars(&s("   "))), "");
    assert_eq!(
        chars_to_string(&replace_chars(&s("std::vector<int>"), &s("std::vector"), &s("Vec"))),
        "Vec<int>"
    );
    assert_eq!(
        chars_to_string(&replace_chars(&s("a b c"), &s(" "), &s(""))),
        "abc"
    );
    assert_eq!(chars_to_string(&capitalize_chars(&s("realSubclass"))), "RealSubclass");
    assert_eq!(chars_to_string(&capitalize_chars(&s(""))), "");
}

#[test]
fn element_text_is_trimmed_and_unescaped() {
    let parts = vec![" say ".to_string(), "&quot;hi&quot; ".to_string()];
    assert_eq!(clean_text(&parts), "say \"hi\"");
}
