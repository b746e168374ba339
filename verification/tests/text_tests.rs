use issue_summarizer::event::{CommentInfo, IssueInfo};
use issue_summarizer::prompts::{aggregated_text, conversation_key, labels_joined};
use issue_summarizer::reply::reply_text;
use issue_summarizer::strutil::{parse_u32, str_contains, u64_to_dec_string};

fn sample_issue() -> IssueInfo {
    IssueInfo {
        user_login: "alice".to_string(),
        title: "Crash on save".to_string(),
        number: 12,
        html_url: "https://example.com/o/r/issues/12".to_string(),
        body: Some("It crashes.".to_string()),
        labels: vec!["bug".to_string(), "urgent".to_string()],
    }
}

#[test]
fn decimal_rendering_is_exact() {
    assert_eq!(u64_to_dec_string(0), "0");
    assert_eq!(u64_to_dec_string(7), "7");
    assert_eq!(u64_to_dec_string(10), "10");
    assert_eq!(u64_to_dec_string(16384), "16384");
    assert_eq!(u64_to_dec_string(u64::MAX), "18446744073709551615");
}

#[test]
fn conversation_key_embeds_issue_number() {
    assert_eq!(conversation_key(12), "issue_12");
    assert_eq!(conversation_key(0), "issue_0");
}

#[test]
fn substring_search_is_plain_containment() {
    assert!(str_contains("please @flows_summarize this", "@flows_summarize"));
    assert!(str_contains("@flows_summarize", "@flows_summarize"));
    assert!(!str_contains("please summarize", "@flows_summarize"));
    assert!(!str_contains("", "@flows_summarize"));
    assert!(str_contains("anything", ""));
    assert!(str_contains("", ""));
    assert!(!str_contains("@flows_summariz", "@flows_summarize"));
    assert!(str_contains("über ünïcode @flows_summarize täil", "@flows_summarize"));
}

#[test]
fn parse_u32_accepts_plain_numerals_only() {
    assert_eq!(parse_u32("0"), Some(0));
    assert_eq!(parse_u32("16384"), Some(16384));
    assert_eq!(parse_u32("4294967295"), Some(u32::MAX));
    assert_eq!(parse_u32("4294967296"), None);
    assert_eq!(parse_u32(""), None);
    assert_eq!(parse_u32("-1"), None);
    assert_eq!(parse_u32("+1"), Some(1));
    assert_eq!(parse_u32("+"), None);
    assert_eq!(parse_u32("++1"), None);
    assert_eq!(parse_u32("12a"), None);
    assert_eq!(parse_u32(" 12"), None);
}

#[test]
fn labels_join_with_comma_and_space() {
    let no_labels: Vec<String> = vec![];
    assert_eq!(labels_joined(&no_labels), "");
    assert_eq!(labels_joined(&vec!["bug".to_string()]), "bug");
    assert_eq!(
        labels_joined(&vec!["bug".to_string(), "urgent".to_string(), "ui".to_string()]),
        "bug, urgent, ui"
    );
}

#[test]
fn aggregated_text_lists_comments_in_fetch_order() {
    let issue = sample_issue();
    let comments = vec![
        CommentInfo {
            user_login: "bob".to_string(),
            body: Some("Same here.".to_string()),
        },
        CommentInfo {
            user_login: "carol".to_string(),
            body: None,
        },
    ];
    let text = aggregated_text(&issue, &comments);
    assert_eq!(
        text,
        "User 'alice', opened an issue titled 'Crash on save', labeled 'bug, urgent', \
         with the following post: 'It crashes.'.\n\
         bob commented: Same here.\n\
         carol commented: \n"
    );
}

#[test]
fn aggregated_text_without_comments_is_just_the_header() {
    let issue = IssueInfo {
        user_login: "alice".to_string(),
        title: "Bug X".to_string(),
        number: 1,
        html_url: "https://example.com/o/r/issues/1".to_string(),
        body: None,
        labels: vec![],
    };
    let text = aggregated_text(&issue, &vec![]);
    assert_eq!(
        text,
        "User 'alice', opened an issue titled 'Bug X', labeled '', \
         with the following post: ''.\n"
    );
}

#[test]
fn reply_has_four_lines_in_order() {
    let body = reply_text(
        "Crash on save",
        "https://example.com/o/r/issues/12",
        "The crash comes from a double free.",
        "bob",
    );
    let lines: Vec<&str> = body.split('\n').collect();
    assert_eq!(
        lines,
        vec![
            "Crash on save",
            "https://example.com/o/r/issues/12",
            "The crash comes from a double free.",
            "This result is generated by flows.network. Triggered by @bob",
        ]
    );
}
