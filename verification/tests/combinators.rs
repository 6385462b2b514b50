use lessons::combinators::{filter_and_uppercase, flatten_options};

#[test]
fn keeps_and_uppercases_words_starting_with_a_or_b() {
    let words = vec![
        "apple".to_string(),
        "banana".to_string(),
        "grape".to_string(),
        "orange".to_string(),
        "pear".to_string(),
    ];
    let result = filter_and_uppercase(words);
    assert_eq!(result, vec!["APPLE".to_string(), "BANANA".to_string()]);
}

#[test]
fn empty_words_are_dropped() {
    let words = vec!["".to_string(), "bee".to_string()];
    assert_eq!(filter_and_uppercase(words), vec!["BEE".to_string()]);
}

#[test]
fn flattening_drops_the_missing_entries() {
    let products = vec![
        Some("charger".to_string()),
        Some("battery".to_string()),
        None,
        Some("cellphone".to_string()),
    ];
    let products_without_none = flatten_options(products);
    assert_eq!(
        products_without_none,
        vec!["charger".to_string(), "battery".to_string(), "cellphone".to_string()]
    );
}

#[test]
fn flattening_all_missing_gives_empty() {
    let products: Vec<Option<String>> = vec![None, None];
    assert_eq!(flatten_options(products), Vec::<String>::new());
}
