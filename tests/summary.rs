use robocyril_api::summary::extract_first_paragraph;

#[test]
fn first_paragraph_skips_heading() {
    let content = "# Title\n\nFirst real paragraph text.\n\nSecond paragraph";
    assert_eq!(extract_first_paragraph(content), "First real paragraph text.");
}

#[test]
fn first_paragraph_joins_lines_with_spaces() {
    let content = "\n\n## Intro\n  one  \ntwo\n# next\nthree";
    assert_eq!(extract_first_paragraph(content), "one two");
}

#[test]
fn first_paragraph_handles_crlf() {
    let content = "# T\r\n\r\nalpha\r\nbeta\r\n\r\ngamma";
    assert_eq!(extract_first_paragraph(content), "alpha beta");
}

#[test]
fn first_paragraph_of_empty_content_is_empty() {
    assert_eq!(extract_first_paragraph(""), "");
    assert_eq!(extract_first_paragraph("# only a heading\n\n"), "");
}

#[test]
fn first_paragraph_keeps_exactly_two_hundred_characters() {
    let text = "a".repeat(200);
    assert_eq!(extract_first_paragraph(&text), text);
}

#[test]
fn first_paragraph_truncates_long_text() {
    let text = "b".repeat(201);
    let expected = format!("{}...", "b".repeat(197));
    assert_eq!(extract_first_paragraph(&text), expected);
}

#[test]
fn first_paragraph_truncation_trims_trailing_space() {
    let mut text = "c".repeat(196);
    text.push(' ');
    text.push_str(&"d".repeat(20));
    let expected = format!("{}...", "c".repeat(196));
    assert_eq!(extract_first_paragraph(&text), expected);
}

#[test]
fn first_paragraph_counts_characters() {
    // 150 two-byte characters: 300 bytes but 150 characters, so nothing is cut.
    let text = "é".repeat(150);
    assert_eq!(extract_first_paragraph(&text), text);
    let text = "é".repeat(200);
    assert_eq!(extract_first_paragraph(&text), text);
    let long = "é".repeat(201);
    let expected = format!("{}...", "é".repeat(197));
    assert_eq!(extract_first_paragraph(&long), expected);
}
