use wgsl_shader::{lower_dash, LowerDash};

#[test]
fn words_and_capitals() {
    assert_eq!(lower_dash("MyFeature Name"), "my-feature-name");
}

#[test]
fn single_word_unchanged() {
    assert_eq!(lower_dash("simple"), "simple");
}

#[test]
fn empty_stays_empty() {
    assert_eq!(lower_dash(""), "");
    assert_eq!(lower_dash("   \t "), "");
}

#[test]
fn leading_capital_has_no_hyphen() {
    assert_eq!(lower_dash("Timestamp"), "timestamp");
    assert_eq!(lower_dash("a Query"), "a-query");
    assert_eq!(lower_dash("x_Query"), "x-query");
}

#[test]
fn every_capital_starts_a_sub_word() {
    assert_eq!(lower_dash("ABC"), "a-b-c");
    assert_eq!(lower_dash("shaderF16"), "shader-f16");
}

#[test]
fn underscores_and_whitespace_split() {
    assert_eq!(lower_dash("TEXTURE_COMPRESSION_BC"), "t-e-x-t-u-r-e-c-o-m-p-r-e-s-s-i-o-n-b-c");
    assert_eq!(lower_dash("depth_clip  control"), "depth-clip-control");
    assert_eq!(lower_dash("  padded\nname "), "padded-name");
}

#[test]
fn underscore_edges_follow_terminator_split() {
    assert_eq!(lower_dash("a_"), "a");
    assert_eq!(lower_dash("_a"), "-a");
    assert_eq!(lower_dash("a__b"), "a--b");
    assert_eq!(lower_dash("a__ b"), "a--b");
    assert_eq!(lower_dash("_"), "");
    assert_eq!(lower_dash("x _ y"), "x--y");
}

#[test]
fn unicode_letters_are_lowered() {
    assert_eq!(lower_dash("ÄpfelÖl"), "äpfel-öl");
    assert_eq!(lower_dash("İ"), "i\u{307}");
}

#[test]
fn wrapper_struct_matches_function() {
    assert_eq!(LowerDash("Pipeline StatisticsQuery").to_text(), "pipeline-statistics-query");
    let mut out = String::from("x");
    LowerDash::write_lower('Q', true, &mut out);
    assert_eq!(out, "x-q");
    LowerDash::write_lower('R', false, &mut out);
    assert_eq!(out, "x-qr");
}
