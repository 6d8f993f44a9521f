use robocyril_api::feed::{escape_xml, feed_error_document, render_feed, truncate_content};
use robocyril_api::model::{Post, Timestamp};

#[test]
fn escape_replaces_all_five_characters() {
    assert_eq!(escape_xml("a & b < c > d \" e ' f"), "a &amp; b &lt; c &gt; d &quot; e &apos; f");
    assert_eq!(escape_xml("&amp;"), "&amp;amp;");
    assert_eq!(escape_xml("plain"), "plain");
    assert_eq!(escape_xml(""), "");
}

#[test]
fn truncate_drops_headings_and_fences() {
    let content = "# Heading\nline one\n```\ncode\n```\nline two";
    assert_eq!(truncate_content(content, 300), "line one code line two");
}

#[test]
fn truncate_cuts_and_marks_long_content() {
    let content = "abcdefghij";
    assert_eq!(truncate_content(content, 4), "abcd...");
    assert_eq!(truncate_content(content, 10), "abcdefghij");
}

#[test]
fn truncate_counts_characters_not_bytes() {
    let content = "é".repeat(10);
    assert_eq!(truncate_content(&content, 10), content);
    assert_eq!(truncate_content(&"é".repeat(11), 10), format!("{}...", "é".repeat(10)));
}

#[test]
fn truncate_measures_original_content_length() {
    // The heading makes the content longer than the limit, the text is not.
    let content = "# A long heading line\nshort";
    assert_eq!(truncate_content(content, 10), "short...");
}

fn sample_post() -> Post {
    Post {
        id: Some(1),
        slug: "fish-chips".to_string(),
        title: "Fish & Chips <3".to_string(),
        content: "It's \"good\".".to_string(),
        repo: None,
        created_at: Timestamp { secs: 0, nanos: 0 },
        published_at: Some(Timestamp { secs: 1_700_000_000, nanos: 0 }),
        tags: vec!["a&b".to_string()],
        commit_range: None,
    }
}

#[test]
fn feed_escapes_every_text_field() {
    let doc = render_feed(&vec![sample_post()], "https://x.org/b?a=1&c=2", "T <1>", "D 'q'");
    assert!(doc.contains("<title>Fish &amp; Chips &lt;3</title>"));
    assert!(doc.contains("<description>It&apos;s &quot;good&quot;.</description>"));
    assert!(doc.contains("<category>a&amp;b</category>"));
    assert!(doc.contains("<link>https://x.org/b?a=1&amp;c=2/#/post/fish-chips</link>"));
    assert!(doc.contains("<title>T &lt;1&gt;</title>"));
    assert!(doc.contains("<description>D &apos;q&apos;</description>"));
    assert!(!doc.contains("Fish & Chips"));
}

#[test]
fn feed_dates_and_layout() {
    let doc = render_feed(&vec![sample_post()], "https://x.org", "T", "D");
    assert!(doc.contains("<pubDate>Tue, 14 Nov 2023 22:13:20 GMT</pubDate>"));
    assert!(doc.contains("<lastBuildDate>Tue, 14 Nov 2023 22:13:20 GMT</lastBuildDate>"));
    assert!(doc.contains("<guid isPermaLink=\"true\">https://x.org/#/post/fish-chips</guid>"));
    assert!(doc.starts_with("<?xml version=\"1.0\" encoding=\"UTF-8\"?>\n<rss version=\"2.0\""));
    assert!(doc.ends_with("\n</channel>\n</rss>"));
}

#[test]
fn empty_feed_has_no_items() {
    let doc = render_feed(&vec![], "u", "t", "d");
    assert!(!doc.contains("<item>"));
    assert!(doc.contains("<lastBuildDate></lastBuildDate>"));
}

#[test]
fn feed_error_document_escapes_message() {
    assert_eq!(
        feed_error_document("Query failed", "no <table>"),
        "<?xml version=\"1.0\" encoding=\"UTF-8\"?>\n<error>Query failed: no &lt;table&gt;</error>"
    );
}
