use powerselect::discovery::get_selections;

fn texts(items: &[&str]) -> Vec<String> {
    items.iter().map(|item| item.to_string()).collect()
}

#[test]
fn get_selections_of_two_reads() {
    let found = get_selections(
        Some("powersave\n".to_string()),
        Some("performance powersave schedutil\n".to_string()),
    );
    assert_eq!(
        found,
        Some(("powersave\n".to_string(), texts(&["performance", "powersave", "schedutil"])))
    );
}

#[test]
fn get_selections_leaves_the_current_value_as_read() {
    let found = get_selections(Some("  schedutil \n".to_string()), Some("a".to_string()));
    assert_eq!(found, Some(("  schedutil \n".to_string(), texts(&["a"]))));
}

#[test]
fn get_selections_without_current_value() {
    assert_eq!(get_selections(None, Some("a b".to_string())), None);
}

#[test]
fn get_selections_without_available_values() {
    assert_eq!(get_selections(Some("a".to_string()), None), None);
}

#[test]
fn get_selections_without_either() {
    assert_eq!(get_selections(None, None), None);
}

#[test]
fn get_selections_keeps_order_and_duplicates() {
    let found = get_selections(Some("x".to_string()), Some("b a b c a\n".to_string()));
    assert_eq!(found, Some(("x".to_string(), texts(&["b", "a", "b", "c", "a"]))));
}

#[test]
fn get_selections_of_an_empty_file() {
    let found = get_selections(Some(String::new()), Some(String::new()));
    assert_eq!(found, Some((String::new(), texts(&[""]))));
}
