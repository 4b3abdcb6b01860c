use perfwindow::changelog::{parse_changelog, parse_inline_md, ChangelogNode, InlineSpan};
use perfwindow::release_notes::changelog_text;

fn bullet_plain_text(node: &ChangelogNode) -> String {
    let ChangelogNode::Bullet(spans) = node else {
        panic!("not a bullet");
    };
    spans
        .iter()
        .map(|s| match s {
            InlineSpan::Plain(t) | InlineSpan::Bold(t) | InlineSpan::Italic(t) | InlineSpan::Code(t) => {
                t.clone()
            }
            InlineSpan::Link { text, .. } => text.clone(),
        })
        .collect::<String>()
}

#[test]
fn parses_a_version_header() {
    let md = "## [0.3.0] — 2026-05-24\n";
    let nodes = parse_changelog(md);
    assert_eq!(
        nodes,
        vec![ChangelogNode::VersionHeader {
            tag: "0.3.0".to_string(),
            date: "2026-05-24".to_string(),
        }]
    );
}

#[test]
fn skips_the_unreleased_section() {
    let md = "## [Unreleased]\n\n## [0.1.0] — 2026-05-19\n";
    let nodes = parse_changelog(md);
    assert_eq!(nodes.len(), 1);
    assert!(matches!(
        &nodes[0],
        ChangelogNode::VersionHeader { tag, .. } if tag == "0.1.0"
    ));
}

#[test]
fn folds_a_multi_line_bullet_into_one_string() {
    let md = "\
## [0.1.0] — 2026-05-19

### Added
- The Settings and Update modals can no longer extend past the bottom of
  the app window. Previously, on a non-maximised window, the modals grew.
";
    let nodes = parse_changelog(md);
    let bullets: Vec<&ChangelogNode> = nodes
        .iter()
        .filter(|n| matches!(n, ChangelogNode::Bullet(_)))
        .collect();
    assert_eq!(bullets.len(), 1);
    let text = bullet_plain_text(bullets[0]);
    assert!(text.contains("bottom of the app window"));
    assert!(text.contains("Previously"));
}

#[test]
fn skips_trailing_link_references() {
    let md = "\
## [0.1.0] — 2026-05-19

### Added
- First.

[Unreleased]: https://example.com/compare/v0.1.0...HEAD
[0.1.0]: https://example.com/releases/tag/v0.1.0
";
    let nodes = parse_changelog(md);
    for n in &nodes {
        if let ChangelogNode::Bullet(spans) = n {
            for s in spans {
                if let InlineSpan::Plain(t) | InlineSpan::Bold(t) | InlineSpan::Italic(t) | InlineSpan::Code(t) = s {
                    assert!(!t.contains("http"), "bullet leaked link line: {t}");
                }
            }
        }
    }
}

#[test]
fn inline_parser_emits_typed_spans() {
    assert_eq!(
        parse_inline_md("**HEALTH** column"),
        vec![
            InlineSpan::Bold("HEALTH".to_string()),
            InlineSpan::Plain(" column".to_string()),
        ]
    );
    assert_eq!(
        parse_inline_md("a *small* bit"),
        vec![
            InlineSpan::Plain("a ".to_string()),
            InlineSpan::Italic("small".to_string()),
            InlineSpan::Plain(" bit".to_string()),
        ]
    );
    assert_eq!(
        parse_inline_md("call `format_uptime`"),
        vec![
            InlineSpan::Plain("call ".to_string()),
            InlineSpan::Code("format_uptime".to_string()),
        ]
    );
    assert_eq!(
        parse_inline_md("[Keep a Changelog](https://keepachangelog.com) is here"),
        vec![
            InlineSpan::Link {
                text: "Keep a Changelog".to_string(),
                url: "https://keepachangelog.com".to_string(),
            },
            InlineSpan::Plain(" is here".to_string()),
        ]
    );
}

#[test]
fn unbalanced_delimiters_degrade_to_plain() {
    let spans = parse_inline_md("call * (a star) here");
    let only_plain = spans.iter().all(|s| matches!(s, InlineSpan::Plain(_)));
    assert!(only_plain, "unbalanced * leaked into a non-Plain span: {spans:?}");
}

#[test]
fn inline_spans_cover_the_whole_text() {
    let src = "mix **bold** and *it* with `code` and [a](b) done";
    let spans = parse_inline_md(src);
    let rebuilt: String = spans
        .iter()
        .map(|s| match s {
            InlineSpan::Plain(t) => t.clone(),
            InlineSpan::Bold(t) => format!("**{t}**"),
            InlineSpan::Italic(t) => format!("*{t}*"),
            InlineSpan::Code(t) => format!("`{t}`"),
            InlineSpan::Link { text, url } => format!("[{text}]({url})"),
        })
        .collect();
    assert_eq!(rebuilt, src);
}

#[test]
fn embedded_changelog_parses_without_panic() {
    let text = changelog_text();
    let nodes = parse_changelog(&text);
    assert!(
        nodes
            .iter()
            .any(|n| matches!(n, ChangelogNode::VersionHeader { tag, .. } if tag == "0.1.0")),
        "expected v0.1.0 header in the embedded changelog"
    );
}

#[test]
fn embedded_changelog_starts_with_the_newest_release() {
    let text = changelog_text();
    let nodes = parse_changelog(&text);
    assert!(matches!(
        &nodes[0],
        ChangelogNode::VersionHeader { tag, .. } if tag == "0.9.5"
    ));
}
