use rustnn::text::{eq_ignore_ascii_case, sanitize_test_id, str_eq};

#[test]
fn sanitize_replaces_filename_unsafe_characters() {
    assert_eq!(
        sanitize_test_id("relu float32: 2D <tensor> / \\ | ? *"),
        "relu_float32__2D__tensor___________"
    );
}

#[test]
fn sanitize_keeps_safe_characters_and_replaces_non_ascii() {
    assert_eq!(sanitize_test_id("abc-XYZ_019"), "abc-XYZ_019");
    assert_eq!(sanitize_test_id("é.ü"), "___");
    assert_eq!(sanitize_test_id(""), "");
}

#[test]
fn string_comparisons() {
    assert!(str_eq("nchw", "nchw"));
    assert!(!str_eq("nchw", "NCHW"));
    assert!(eq_ignore_ascii_case("nchw", "NCHW"));
    assert!(!eq_ignore_ascii_case("nchw", "nhwc"));
}
