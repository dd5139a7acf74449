use hanyeongkey::replace::line_endings::{
    canonical_line_endings, equivalent_selection_text, line_endings, preserve_line_endings,
    LineEnding,
};

#[test]
fn selection_validation_accepts_equivalent_windows_line_endings() {
    assert!(equivalent_selection_text(
        "first\r\n\r\nsecond\rthird",
        "first\n\nsecond\nthird"
    ));
    assert!(!equivalent_selection_text(
        "first\r\nsecond",
        "first\nchanged"
    ));
}

#[test]
fn replacement_uses_the_copied_selections_exact_line_endings() {
    assert_eq!(
        preserve_line_endings(
            "안녕하세요\n\n과\r동이\r\n",
            "dkssudgktpdy\r\n\r\nrhk\nehddl\r"
        ),
        Some("안녕하세요\r\n\r\n과\n동이\r".into())
    );
}

#[test]
fn replacement_rejects_a_different_line_count() {
    assert_eq!(preserve_line_endings("one\ntwo", "one"), None);
}

#[test]
fn line_endings_are_listed_in_order() {
    assert_eq!(
        line_endings("a\r\nb\rc\nd\r\n"),
        vec![LineEnding::CrLf, LineEnding::Cr, LineEnding::Lf, LineEnding::CrLf]
    );
    assert_eq!(line_endings("plain"), vec![]);
}

#[test]
fn canonical_form_uses_single_line_feeds_and_is_stable() {
    let once = canonical_line_endings("a\r\nb\rc\n\r\n");
    assert_eq!(once, "a\nb\nc\n\n");
    assert_eq!(canonical_line_endings(&once), once);
}

#[test]
fn preserved_replacement_reads_back_with_the_selections_endings() {
    let selected = "x\r\ny\rz";
    let output = preserve_line_endings("1\n2\n3", selected).unwrap();
    assert_eq!(line_endings(&output), line_endings(selected));
    assert_eq!(canonical_line_endings(&output), canonical_line_endings("1\n2\n3"));
}

#[test]
fn a_lone_carriage_return_before_a_line_feed_reads_back_as_one_ending() {
    let output = preserve_line_endings("\n\n", "\ra\n").unwrap();
    assert_eq!(output, "\r\n");
    assert_eq!(line_endings(&output), vec![LineEnding::CrLf]);
}
