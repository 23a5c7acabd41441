use wormhole_native::{file_name_for_offer, join_output_path};

#[test]
fn offer_name_is_last_component() {
    assert_eq!(file_name_for_offer("dir/a.txt"), "a.txt");
    assert_eq!(file_name_for_offer("/abs/path/to/x"), "x");
    assert_eq!(file_name_for_offer("a.txt"), "a.txt");
}

#[test]
fn offer_name_ignores_trailing_slashes() {
    assert_eq!(file_name_for_offer("dir/"), "dir");
    assert_eq!(file_name_for_offer("dir/a.txt/"), "a.txt");
    assert_eq!(file_name_for_offer("dir//"), "dir");
}

#[test]
fn offer_name_falls_back_when_no_component_is_left() {
    assert_eq!(file_name_for_offer(""), "file");
    assert_eq!(file_name_for_offer("/"), "file");
    assert_eq!(file_name_for_offer("//"), "file");
    assert_eq!(file_name_for_offer(".."), "file");
    assert_eq!(file_name_for_offer("a/.."), "file");
}

#[test]
fn offer_name_keeps_dotted_names() {
    assert_eq!(file_name_for_offer("a/..b"), "..b");
    assert_eq!(file_name_for_offer("a/b.."), "b..");
}

#[test]
fn output_path_joins_with_single_slash() {
    assert_eq!(join_output_path("out", "a.txt"), "out/a.txt");
    assert_eq!(join_output_path("out/", "a.txt"), "out/a.txt");
    assert_eq!(join_output_path("", "a.txt"), "a.txt");
    assert_eq!(join_output_path("/tmp/downloads", "a.txt"), "/tmp/downloads/a.txt");
}
