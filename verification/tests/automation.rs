use passgui::automation::focus_script;
use passgui::automation::previous_app_from_output;
use passgui::automation::trim_whitespace;
use passgui::automation::type_argument;

#[test]
fn focus_script_quotes_the_application_name() {
    assert_eq!(
        focus_script("Safari"),
        "tell application \"Safari\" to activate"
    );
}

#[test]
fn type_argument_prefixes_the_typing_verb() {
    assert_eq!(type_argument("s3cr3t"), "t:s3cr3t");
    assert_eq!(type_argument(""), "t:");
}

#[test]
fn previous_app_is_trimmed_query_output() {
    assert_eq!(
        previous_app_from_output(b"Terminal\n".to_vec()),
        Some("Terminal".to_string())
    );
    assert_eq!(
        previous_app_from_output(b"  Visual Studio Code \r\n".to_vec()),
        Some("Visual Studio Code".to_string())
    );
}

#[test]
fn previous_app_sheds_unicode_whitespace() {
    assert_eq!(
        previous_app_from_output("Safari\u{00A0}\n".as_bytes().to_vec()),
        Some("Safari".to_string())
    );
}

#[test]
fn undecodable_query_output_is_rejected() {
    assert_eq!(previous_app_from_output(vec![0xc3, 0x28]), None);
}

#[test]
fn trim_removes_only_surrounding_whitespace() {
    assert_eq!(trim_whitespace(" a b \t"), "a b");
    assert_eq!(trim_whitespace("\r\n"), "");
    assert_eq!(trim_whitespace("x"), "x");
    assert_eq!(trim_whitespace(""), "");
}

#[test]
fn trim_removes_unicode_whitespace_like_the_standard_library() {
    assert_eq!(trim_whitespace("a\u{00A0}"), "a");
    assert_eq!(
        trim_whitespace("\u{2028}\u{3000} Finder\u{2000}\u{200A}"),
        "Finder"
    );
    assert_eq!(trim_whitespace("a\u{200B}"), "a\u{200B}");
    assert_eq!(trim_whitespace(" a b \t"), " a b \t".trim());
    assert_eq!(
        trim_whitespace("\u{0085}x\u{00A0}"),
        "\u{0085}x\u{00A0}".trim()
    );
}
