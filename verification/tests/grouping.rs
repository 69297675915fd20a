use comparison_app::grouping::{group_by_key, positions_with, sorted_unique, text_less};
use comparison_app::points::{request_batches, KEYS_PER_REQUEST};
use comparison_app::text::join_texts;

fn strings(items: &[&str]) -> Vec<String> {
    items.iter().map(|s| s.to_string()).collect()
}

#[test]
fn texts_compare_like_strings() {
    for (a, b) in [("a", "b"), ("a", "ab"), ("", "a"), ("Z", "a"), ("é", "z"), ("70", "700"), ("9", "10"), ("ab", "ab")] {
        assert_eq!(text_less(a, b), a.to_string() < b.to_string(), "{a} < {b}");
        assert_eq!(text_less(b, a), b.to_string() < a.to_string(), "{b} < {a}");
    }
}

#[test]
fn point_ids_are_sorted_without_repeats() {
    let ids = strings(&["7014", "7013", "7013", "7016", "7014", "10"]);
    let mut expected = ids.clone();
    expected.sort();
    expected.dedup();
    assert_eq!(sorted_unique(&ids), expected);
    assert_eq!(sorted_unique(&[]), Vec::<String>::new());
}

#[test]
fn rows_are_grouped_by_inverter_in_id_order() {
    let inverters = strings(&["inv-b", "inv-a", "inv-b", "inv-c", "inv-a"]);
    let groups = group_by_key(&inverters);
    assert_eq!(
        groups,
        vec![
            ("inv-a".to_string(), vec![1, 4]),
            ("inv-b".to_string(), vec![0, 2]),
            ("inv-c".to_string(), vec![3]),
        ]
    );
    assert_eq!(positions_with(&inverters, "inv-b"), vec![0, 2]);
    assert!(positions_with(&inverters, "inv-z").is_empty());
    assert!(group_by_key(&[]).is_empty());
}

#[test]
fn keys_are_sent_twenty_at_a_time() {
    let keys: Vec<String> = (0..45).map(|i| format!("{i}_11_0_0")).collect();
    let batches = request_batches(&keys, KEYS_PER_REQUEST);
    assert_eq!(batches.len(), 3);
    assert_eq!(batches.iter().map(Vec::len).collect::<Vec<_>>(), vec![20, 20, 5]);
    assert_eq!(batches.concat(), keys);
    let expected: Vec<Vec<String>> = keys.chunks(20).map(|c| c.to_vec()).collect();
    assert_eq!(batches, expected);
    assert!(request_batches(&[], 20).is_empty());
    assert_eq!(request_batches(&keys[..20], 20).len(), 1);
}

#[test]
fn texts_are_joined_with_the_separator() {
    assert_eq!(join_texts(&strings(&["1", "2", "3"]), ","), "1,2,3");
    assert_eq!(join_texts(&strings(&["only"]), ","), "only");
    assert_eq!(join_texts(&[], ","), "");
}
