use vienna::label::base_name;

#[test]
fn base_name_takes_what_follows_the_last_separator() {
    assert_eq!(base_name("dir/sub/c.txt").as_str(), "c.txt");
    assert_eq!(base_name("a/b.txt").as_str(), "b.txt");
}

#[test]
fn base_name_of_a_bare_name_is_the_name() {
    assert_eq!(base_name("plain.txt").as_str(), "plain.txt");
}

#[test]
fn base_name_of_empty_or_trailing_separator_is_empty() {
    assert_eq!(base_name("").as_str(), "");
    assert_eq!(base_name("dir/").as_str(), "");
}

#[test]
fn base_name_handles_multibyte_characters() {
    assert_eq!(base_name("docs/ünïcode.txt").as_str(), "ünïcode.txt");
}
