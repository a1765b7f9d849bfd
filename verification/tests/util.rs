use boxes_store::db::{bool_as_int, escape, get_db_environment};

#[test]
fn escape_doubles_single_quotes() {
    assert_eq!(escape("it's"), "it''s");
    assert_eq!(escape("'"), "''");
    assert_eq!(escape("''"), "''''");
    assert_eq!(escape("don't panic, it's fine"), "don''t panic, it''s fine");
}

#[test]
fn escape_keeps_other_text_unchanged() {
    assert_eq!(escape(""), "");
    assert_eq!(escape("abc.example.org"), "abc.example.org");
    assert_eq!(escape("127.0.0.1"), "127.0.0.1");
}

#[test]
fn bool_as_int_maps_to_zero_and_one() {
    assert_eq!(bool_as_int(&true), 1);
    assert_eq!(bool_as_int(&false), 0);
}

#[test]
fn db_environment_paths() {
    assert_eq!(get_db_environment(true), "./boxes_test.sqlite");
    assert_eq!(get_db_environment(false), "./boxes.sqlite");
}
