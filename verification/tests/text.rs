use github_webhook_type_generator::docs::strip_docs;
use github_webhook_type_generator::lexical::{sort_strings, str_le};
use github_webhook_type_generator::strmap::StringMap;
use github_webhook_type_generator::text::{
    chars_of, push_decimal, rename_to_valid_ident, str_eq, to_pascal, to_snake,
};

#[test]
fn chars_of_lists_the_characters() {
    assert_eq!(chars_of("héllo"), vec!['h', 'é', 'l', 'l', 'o']);
    assert_eq!(chars_of(""), Vec::<char>::new());
}

#[test]
fn to_pascal_lowers_and_capitalizes_each_term() {
    assert_eq!(to_pascal("pull_request_review"), "PullRequestReview");
    assert_eq!(to_pascal("PULL_REQUEST"), "PullRequest");
    assert_eq!(to_pascal("already"), "Already");
    assert_eq!(to_pascal("MixedCase"), "Mixedcase");
    assert_eq!(to_pascal("_"), "");
    assert_eq!(to_pascal("é_x"), "éX");
}

#[test]
fn to_snake_lowers_and_separates() {
    assert_eq!(to_snake("IssueComment"), "issue_comment");
    assert_eq!(to_snake("A"), "a");
    assert_eq!(to_snake("already_snake"), "already_snake");
}

#[test]
fn rename_to_valid_ident_makes_pascal_case_identifiers() {
    assert_eq!(rename_to_valid_ident("in_progress"), "InProgress");
    assert_eq!(rename_to_valid_ident("created-at"), "CreatedAt");
    assert_eq!(rename_to_valid_ident("first time"), "FirstTime");
    assert_eq!(rename_to_valid_ident("APPROVED"), "Approved");
    assert_eq!(rename_to_valid_ident("Bot"), "Bot");
    assert_eq!(rename_to_valid_ident(""), "");
}

#[test]
fn rename_to_valid_ident_prefixes_a_leading_digit() {
    assert_eq!(rename_to_valid_ident("2fa_enabled"), "N2faEnabled");
    assert_eq!(rename_to_valid_ident("+1"), "N1");
    assert_eq!(rename_to_valid_ident("v_2"), "VN2");
}

#[test]
fn rename_to_valid_ident_drops_what_is_no_letter_or_digit() {
    assert_eq!(rename_to_valid_ident("a.b:c"), "Abc");
    assert_eq!(rename_to_valid_ident("...x"), "X");
    assert_eq!(rename_to_valid_ident("é"), "");
}

#[test]
fn push_decimal_writes_numerals() {
    let mut s = "n".to_owned();
    push_decimal(0, &mut s);
    assert_eq!(s, "n0");
    let mut s = String::new();
    push_decimal(7, &mut s);
    assert_eq!(s, "7");
    let mut s = String::new();
    push_decimal(1234567890, &mut s);
    assert_eq!(s, "1234567890");
    let mut s = String::new();
    push_decimal(18446744073709551616, &mut s);
    assert_eq!(s, "18446744073709551616");
}

#[test]
fn strip_docs_joins_the_lines_of_a_block_comment() {
    assert_eq!(strip_docs("* Hello\n * world ").0, "Hello world");
    assert_eq!(strip_docs("*\n   * The action that was performed.\n   ").0, "The action that was performed.");
    assert_eq!(strip_docs(" plain").0, "plain");
    assert_eq!(strip_docs("").0, "");
    assert_eq!(strip_docs("***").0, "");
}

#[test]
fn strip_docs_keeps_empty_lines_as_blanks() {
    assert_eq!(strip_docs("* a\n *\n * b").0, "a * b");
    assert_eq!(strip_docs("* a\n\n * b").0, "a  b");
}

#[test]
fn strip_docs_strips_repeated_line_markers() {
    assert_eq!(strip_docs("* * * x").0, "x");
    assert_eq!(strip_docs("a\n* * b").0, "a b");
    assert_eq!(strip_docs("a\n*b").0, "a *b");
}

#[test]
fn str_le_is_the_order_of_str() {
    assert!(str_le("", ""));
    assert!(str_le("", "a"));
    assert!(!str_le("a", ""));
    assert!(str_le("a", "a"));
    assert!(str_le("a", "ab"));
    assert!(!str_le("ab", "a"));
    assert!(str_le("B", "a"));
    assert!(!str_le("a", "B"));
    assert!(str_le("abc", "abd"));
    assert!(str_le("z", "é"));
    for (a, b) in [("User", "Bot"), ("a", "A"), ("", "x"), ("ab", "abc"), ("é", "e")] {
        assert_eq!(str_le(a, b), a <= b);
        assert_eq!(str_le(b, a), b <= a);
    }
}

#[test]
fn sort_strings_sorts_as_the_standard_sort_does() {
    let input = vec!["b", "a", "ab", "B", "", "a", "é"];
    let mut expected: Vec<String> = input.iter().map(|s| s.to_string()).collect();
    expected.sort();
    let sorted = sort_strings(input.iter().map(|s| s.to_string()).collect());
    assert_eq!(sorted, expected);
    assert_eq!(sorted, vec!["", "B", "a", "a", "ab", "b", "é"]);
    assert_eq!(sort_strings(vec![]), Vec::<String>::new());
}

#[test]
fn string_map_stores_and_replaces() {
    let mut m: StringMap<u32> = StringMap::new();
    assert_eq!(m.len(), 0);
    assert_eq!(m.get("a"), None);
    assert!(!m.contains_key("a"));
    m.insert("a".to_owned(), 1);
    m.insert("b".to_owned(), 2);
    m.insert("a".to_owned(), 3);
    assert_eq!(m.len(), 2);
    assert_eq!(m.get("a"), Some(&3));
    assert_eq!(m.get("b"), Some(&2));
    assert_eq!(m.get("ab"), None);
    assert!(m.contains_key("b"));
    assert_eq!(m.key_at(0), "a");
    assert_eq!(m.key_at(1), "b");
}

#[test]
fn string_map_removes() {
    let mut m: StringMap<u32> = StringMap::new();
    m.insert("a".to_owned(), 1);
    m.insert("b".to_owned(), 2);
    m.insert("c".to_owned(), 3);
    assert_eq!(m.remove("b"), Some(2));
    assert_eq!(m.remove("b"), None);
    assert_eq!(m.len(), 2);
    assert_eq!(m.get("a"), Some(&1));
    assert_eq!(m.get("c"), Some(&3));
    assert_eq!(m.key_at(1), "c");
}

#[test]
fn str_eq_compares_the_characters() {
    assert!(str_eq("", ""));
    assert!(str_eq("type", "type"));
    assert!(str_eq("héllo", "héllo"));
    assert!(!str_eq("type", "types"));
    assert!(!str_eq("types", "type"));
    assert!(!str_eq("type", "typo"));
    assert!(!str_eq("", "a"));
    assert!(!str_eq("e", "é"));
}

#[test]
fn a_pascal_name_survives_the_way_to_snake_and_back() {
    for name in ["PullRequest", "User", "HTTPServer", "Foo2Bar", "A", "", "9Lives", "ΔForce", "Éa"] {
        assert_eq!(to_pascal(&to_snake(name)), name);
    }
    assert_eq!(to_pascal(&to_snake("pullRequest")), "PullRequest");
    assert_eq!(to_pascal(&to_snake("Pull_Request")), "PullRequest");
}
