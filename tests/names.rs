use nor::names::truncate_node_name;

#[test]
fn test_truncate() {
    assert_eq!(
        truncate_node_name("foo bar baz qux fred barney".to_string()),
        "foo bar baz qux fred".to_string()
    );
    assert_eq!(
        truncate_node_name("foobarbazquxfredbarneywaldo".to_string()),
        "foobarbazquxfredbarneywaldo".to_string()
    );
}

#[test]
fn truncate_keeps_short_names() {
    assert_eq!(truncate_node_name("Built-in Audio".to_string()), "Built-in Audio");
    assert_eq!(truncate_node_name(String::new()), "");
}

#[test]
fn truncate_stops_before_reaching_width() {
    // 23 characters fit; a result of exactly 24 does not
    assert_eq!(
        truncate_node_name("aaaaaaaaaa bbbbbbbbbbbb ccc".to_string()),
        "aaaaaaaaaa bbbbbbbbbbbb"
    );
    assert_eq!(
        truncate_node_name("aaaaaaaaaa bbbbbbbbbbbbb ccc".to_string()),
        "aaaaaaaaaa"
    );
}

#[test]
fn truncate_long_first_word_then_more() {
    assert_eq!(
        truncate_node_name("foobarbazquxfredbarneywaldo and more".to_string()),
        "foobarbazquxfredbarneywaldo"
    );
}

#[test]
fn truncate_counts_characters_not_bytes() {
    let name = "Lautsprecher Ääöü Büro".to_string();
    assert_eq!(truncate_node_name(name.clone()), name);
}

#[test]
fn truncate_results_stay_under_width() {
    let names = [
        "Family 17h HD Audio Controller Analog Stereo",
        "USB Audio Device Digital Output",
        "a b c d e f g h i j k l m n o p q r s t",
        "GA102 High Definition Audio Controller",
    ];
    for n in names {
        let r = truncate_node_name(n.to_string());
        assert!(r.chars().count() < 24, "{r}");
        assert!(n.starts_with(r.as_str()));
    }
}
