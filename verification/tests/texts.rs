use snippets_hub::languages::{get_file_extension, lsp_response};
use snippets_hub::ordering::{count_marked, key_before, mark_all, marked_positions, order_positions, OrderKey};
use snippets_hub::text::{chars_of, has_substring, lists, str_contains, text_before, text_same};

fn chars(s: &str) -> Vec<char> {
    s.chars().collect()
}

#[test]
fn file_extension_of_each_language() {
    assert_eq!(get_file_extension("python"), "py");
    assert_eq!(get_file_extension("javascript"), "js");
    assert_eq!(get_file_extension("rust"), "rs");
    assert_eq!(get_file_extension("go"), "go");
    assert_eq!(get_file_extension("java"), "java");
    assert_eq!(get_file_extension("cpp"), "cpp");
    assert_eq!(get_file_extension("c"), "c");
    assert_eq!(get_file_extension("haskell"), "txt");
    assert_eq!(get_file_extension("Python"), "txt");
    assert_eq!(get_file_extension(""), "txt");
}

#[test]
fn canned_language_server_answers() {
    assert_eq!(
        lsp_response("initialize"),
        "{\"capabilities\": {\"completionProvider\": true, \"hoverProvider\": true}}"
    );
    assert_eq!(lsp_response("textDocument/completion"), "{\"items\": []}");
    assert_eq!(lsp_response("textDocument/hover"), "{\"contents\": []}");
    assert_eq!(lsp_response("shutdown"), "{}");
    assert_eq!(lsp_response(""), "{}");
}

#[test]
fn characters_of_a_text() {
    assert_eq!(chars_of("a\u{e9}\u{1f600}z"), vec!['a', '\u{e9}', '\u{1f600}', 'z']);
    assert!(chars_of("").is_empty());
}

#[test]
fn substring_search() {
    assert!(has_substring(&chars("hello world"), &chars("lo w")));
    assert!(has_substring(&chars("hello"), &chars("hello")));
    assert!(has_substring(&chars("hello"), &chars("")));
    assert!(has_substring(&chars(""), &chars("")));
    assert!(has_substring(&chars("aab"), &chars("ab")));
    assert!(has_substring(&chars("hello"), &chars("o")));
    assert!(!has_substring(&chars("hello"), &chars("hello!")));
    assert!(!has_substring(&chars("hello"), &chars("HELLO")));
    assert!(!has_substring(&chars(""), &chars("a")));
    assert!(!has_substring(&chars("abab"), &chars("aba_")));
    assert!(str_contains("gr\u{fc}\u{df}e", &chars("\u{fc}\u{df}")));
    assert!(!str_contains("100%", &chars("%%")));
}

#[test]
fn order_of_texts() {
    assert!(text_before(&chars("2024-05-09"), &chars("2024-05-10")));
    assert!(!text_before(&chars("2024-05-10"), &chars("2024-05-10")));
    assert!(!text_before(&chars("2024-05-11"), &chars("2024-05-10")));
    assert!(text_before(&chars("abc"), &chars("abcd")));
    assert!(!text_before(&chars("abcd"), &chars("abc")));
    assert!(text_before(&chars(""), &chars("a")));
    assert!(!text_before(&chars(""), &chars("")));
    assert!(text_before(&chars("Z"), &chars("a")));
    assert!(text_before(&chars("z"), &chars("\u{e9}")));
    assert!(text_same(&chars("abc"), &chars("abc")));
    assert!(!text_same(&chars("abc"), &chars("abd")));
    assert!(!text_same(&chars("abc"), &chars("ab")));
    assert!(lists(&vec!["a".to_string(), "b".to_string()], &"b".to_string()));
    assert!(!lists(&vec!["a".to_string(), "b".to_string()], &"c".to_string()));
}

#[test]
fn order_of_keys() {
    assert!(key_before(&OrderKey::Number(-5), &OrderKey::Number(3)));
    assert!(!key_before(&OrderKey::Number(3), &OrderKey::Number(3)));
    assert!(key_before(&OrderKey::Text(chars("a")), &OrderKey::Text(chars("b"))));
    assert!(key_before(&OrderKey::Number(9), &OrderKey::Text(chars("1"))));
    assert!(!key_before(&OrderKey::Text(chars("1")), &OrderKey::Number(9)));
}

#[test]
fn positions_are_ordered_by_key_and_ties_keep_their_order() {
    let keys: Vec<OrderKey> = [5, 1, 5, 3, 1, 9].iter().map(|n| OrderKey::Number(*n)).collect();
    let all = marked_positions(&mark_all(keys.len()));
    assert_eq!(all, vec![0, 1, 2, 3, 4, 5]);
    assert_eq!(order_positions(&keys, &all, false), vec![1, 4, 3, 0, 2, 5]);
    assert_eq!(order_positions(&keys, &all, true), vec![5, 0, 2, 3, 1, 4]);
    let some = marked_positions(&vec![true, false, true, false, true, false]);
    assert_eq!(some, vec![0, 2, 4]);
    assert_eq!(order_positions(&keys, &some, true), vec![0, 2, 4]);
    assert_eq!(order_positions(&keys, &some, false), vec![4, 0, 2]);
    assert_eq!(count_marked(&vec![true, false, true, true]), 3);
    assert_eq!(count_marked(&Vec::new()), 0);
    assert!(order_positions(&keys, &Vec::new(), true).is_empty());
}
