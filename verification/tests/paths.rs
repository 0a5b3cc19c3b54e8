use rcv::names::{base_name, join_path, output_path_for, webp_file_name};

#[test]
fn test_output_path_basic() {
    let out = output_path_for("photos/cat.jpg", "out");
    assert_eq!(out, "out/cat.webp");
}

#[test]
fn test_output_path_nested_source() {
    let out = output_path_for("a/b/c/picture.png", "converted");
    assert_eq!(out, "converted/picture.webp");
}

#[test]
fn test_output_path_placeholder_trailing_slash() {
    let out = output_path_for("photos/", "out");
    assert_eq!(out, "out/default.webp");
}

#[test]
fn test_output_path_placeholder_empty() {
    let out = output_path_for("", "out");
    assert_eq!(out, "out/default.webp");
}

#[test]
fn test_output_path_placeholder_dot_dot() {
    let out = output_path_for("..", "out");
    assert_eq!(out, "out/default.webp");
}

#[test]
fn test_output_path_placeholder_dot() {
    let out = output_path_for("photos/.", "out");
    assert_eq!(out, "out/default.webp");
}

#[test]
fn test_output_path_no_extension() {
    let out = output_path_for("dir/noext", "out");
    assert_eq!(out, "out/noext.webp");
}

#[test]
fn test_output_path_deterministic() {
    let first = output_path_for("photos/cat.jpg", "out");
    let second = output_path_for("photos/cat.jpg", "out");
    assert_eq!(first, second);
}

#[test]
fn test_base_name_plain() {
    assert_eq!(base_name("a/b/c.txt"), "c.txt");
    assert_eq!(base_name("c.txt"), "c.txt");
}

#[test]
fn test_webp_name_multi_dot() {
    assert_eq!(webp_file_name("archive.tar.gz"), "archive.tar.webp");
}

#[test]
fn test_webp_name_hidden_file() {
    assert_eq!(webp_file_name(".hidden"), ".hidden.webp");
}

#[test]
fn test_join_path_cases() {
    assert_eq!(join_path("out", "a.webp"), "out/a.webp");
    assert_eq!(join_path("out/", "a.webp"), "out/a.webp");
    assert_eq!(join_path("", "a.webp"), "a.webp");
}
