use mcpacker::utils::sanitize_filename;

#[test]
fn reserved_characters_become_underscores() {
    assert_eq!(sanitize_filename("a/b\\c:d*e?f\"g<h>i|j"), "a_b_c_d_e_f_g_h_i_j");
}

#[test]
fn control_characters_become_underscores() {
    assert_eq!(sanitize_filename("a\u{0}b\u{1f}c\u{7f}d\u{9f}e"), "a_b_c_d_e");
    assert_eq!(sanitize_filename("a\tb"), "a_b");
}

#[test]
fn whitespace_then_dots_are_trimmed() {
    assert_eq!(sanitize_filename("  name.jar  "), "name.jar");
    assert_eq!(sanitize_filename("..name.jar.."), "name.jar");
    assert_eq!(sanitize_filename(" .name. "), "name");
    assert_eq!(sanitize_filename(". a ."), " a ");
    assert_eq!(sanitize_filename("\u{3000}x\u{a0}"), "x");
}

#[test]
fn empty_results_get_the_fallback_name() {
    assert_eq!(sanitize_filename(""), "unnamed");
    assert_eq!(sanitize_filename("   "), "unnamed");
    assert_eq!(sanitize_filename("..."), "unnamed");
    assert_eq!(sanitize_filename(" . "), "unnamed");
}

#[test]
fn ordinary_names_are_kept() {
    assert_eq!(sanitize_filename("sodium-fabric-0.5.8+mc1.20.4.jar"), "sodium-fabric-0.5.8+mc1.20.4.jar");
    assert_eq!(sanitize_filename("Ünïcödé 模组.jar"), "Ünïcödé 模组.jar");
}

#[test]
fn lone_separator_is_replaced() {
    assert_eq!(sanitize_filename("/"), "_");
    assert_eq!(sanitize_filename("\n"), "_");
}
