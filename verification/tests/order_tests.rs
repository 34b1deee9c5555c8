use mutools::order::display_order;

fn names(v: &[&str]) -> Vec<String> {
    v.iter().map(|s| s.to_string()).collect()
}

#[test]
fn order_ignores_case() {
    assert_eq!(display_order(&names(&["b", "A", "c"])), vec![1, 0, 2]);
    assert_eq!(display_order(&names(&["Zeta", "alpha", "Beta"])), vec![1, 2, 0]);
}

#[test]
fn order_keeps_equal_names_in_place() {
    assert_eq!(display_order(&names(&["b", "A", "a", "B"])), vec![1, 2, 0, 3]);
    assert_eq!(display_order(&names(&["x", "X", "x"])), vec![0, 1, 2]);
}

#[test]
fn order_prefix_first_and_empty() {
    assert_eq!(display_order(&names(&["abc", "ab", "", "a"])), vec![2, 3, 1, 0]);
    assert_eq!(display_order(&names(&[])), Vec::<usize>::new());
}

#[test]
fn order_by_code_point() {
    assert_eq!(display_order(&names(&["优化", "_x", "9", "Z"])), vec![2, 1, 3, 0]);
}
