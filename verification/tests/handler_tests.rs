use issue_summarizer::config::Config;
use issue_summarizer::event::{
    CommentInfo, IssueCommentAction, IssueCommentEvent, IssueInfo, WebhookPayload,
};
use issue_summarizer::handler::{step, Action, Phase, StepEvent};

fn test_config() -> Config {
    Config::from_values(
        Some("octo-org".to_string()),
        Some("octo-repo".to_string()),
        None,
        Some("https://llm.example/api".to_string()),
        None,
        None,
        Some("SECRET-REDACTED".to_string()),
    )
    .unwrap()
}

fn issue(title: &str, number: u64, url: &str, body: Option<&str>, labels: &[&str]) -> IssueInfo {
    IssueInfo {
        user_login: "alice".to_string(),
        title: title.to_string(),
        number,
        html_url: url.to_string(),
        body: body.map(|b| b.to_string()),
        labels: labels.iter().map(|l| l.to_string()).collect(),
    }
}

fn delivery(action: IssueCommentAction, comment_body: Option<&str>) -> WebhookPayload {
    WebhookPayload::IssueComment(IssueCommentEvent {
        action,
        issue: issue(
            "Bug X",
            7,
            "https://example.com/octo-org/octo-repo/issues/7",
            None,
            &[],
        ),
        comment: CommentInfo {
            user_login: "bob".to_string(),
            body: comment_body.map(|b| b.to_string()),
        },
    })
}

#[test]
fn other_event_kind_is_ignored() {
    let cfg = test_config();
    let (phase, action) = step(&cfg, Phase::Idle, StepEvent::Delivery(WebhookPayload::Other));
    assert!(matches!(phase, Phase::Idle));
    assert!(matches!(action, Action::NoCall));
}

#[test]
fn edited_comment_is_ignored() {
    let cfg = test_config();
    let payload = delivery(
        IssueCommentAction::Edited,
        Some("please @flows_summarize this"),
    );
    let (phase, action) = step(&cfg, Phase::Idle, StepEvent::Delivery(payload));
    assert!(matches!(phase, Phase::Idle));
    assert!(matches!(action, Action::NoCall));
}

#[test]
fn deleted_comment_is_ignored() {
    let cfg = test_config();
    let payload = delivery(
        IssueCommentAction::Deleted,
        Some("please @flows_summarize this"),
    );
    let (_, action) = step(&cfg, Phase::Idle, StepEvent::Delivery(payload));
    assert!(matches!(action, Action::NoCall));
}

#[test]
fn comment_without_trigger_is_ignored() {
    let cfg = test_config();
    let payload = delivery(IssueCommentAction::Created, Some("just chatting"));
    let (phase, action) = step(&cfg, Phase::Idle, StepEvent::Delivery(payload));
    assert!(matches!(phase, Phase::Idle));
    assert!(matches!(action, Action::NoCall));
}

#[test]
fn comment_with_no_body_is_ignored() {
    let cfg = test_config();
    let payload = delivery(IssueCommentAction::Created, None);
    let (_, action) = step(&cfg, Phase::Idle, StepEvent::Delivery(payload));
    assert!(matches!(action, Action::NoCall));
}

#[test]
fn trigger_match_is_case_sensitive() {
    let cfg = test_config();
    let payload = delivery(IssueCommentAction::Created, Some("@FLOWS_SUMMARIZE please"));
    let (_, action) = step(&cfg, Phase::Idle, StepEvent::Delivery(payload));
    assert!(matches!(action, Action::NoCall));
}

#[test]
fn qualifying_delivery_requests_comment_list() {
    let cfg = test_config();
    let payload = delivery(
        IssueCommentAction::Created,
        Some("please @flows_summarize this"),
    );
    let (phase, action) = step(&cfg, Phase::Idle, StepEvent::Delivery(payload));
    assert!(matches!(phase, Phase::AwaitingComments { .. }));
    match action {
        Action::ListComments {
            issue_number,
            per_page,
        } => {
            assert_eq!(issue_number, 7);
            assert_eq!(per_page, 100);
        }
        other => panic!("expected a comment-list request, got {:?}", other),
    }
}

#[test]
fn failed_comment_listing_makes_no_completion_call() {
    let cfg = test_config();
    let payload = delivery(
        IssueCommentAction::Created,
        Some("please @flows_summarize this"),
    );
    let (phase, _) = step(&cfg, Phase::Idle, StepEvent::Delivery(payload));
    let (phase, action) = step(
        &cfg,
        phase,
        StepEvent::CommentsResult(Err("listing failed".to_string())),
    );
    assert!(matches!(phase, Phase::Idle));
    assert!(matches!(action, Action::NoCall));
}

#[test]
fn failed_completion_posts_no_comment() {
    let cfg = test_config();
    let payload = delivery(
        IssueCommentAction::Created,
        Some("please @flows_summarize this"),
    );
    let (phase, _) = step(&cfg, Phase::Idle, StepEvent::Delivery(payload));
    let (phase, _) = step(&cfg, phase, StepEvent::CommentsResult(Ok(vec![])));
    let (phase, action) = step(
        &cfg,
        phase,
        StepEvent::CompletionResult(Err("service unavailable".to_string())),
    );
    assert!(matches!(phase, Phase::Idle));
    assert!(matches!(action, Action::NoCall));
}

#[test]
fn full_run_scenario_header_only() {
    let cfg = test_config();
    let payload = delivery(
        IssueCommentAction::Created,
        Some("please @flows_summarize this"),
    );

    let (phase, action) = step(&cfg, Phase::Idle, StepEvent::Delivery(payload));
    assert!(matches!(action, Action::ListComments { .. }));

    let (phase, action) = step(&cfg, phase, StepEvent::CommentsResult(Ok(vec![])));
    let header = "User 'alice', opened an issue titled 'Bug X', labeled '', \
                  with the following post: ''.\n";
    match action {
        Action::Complete {
            conversation_key,
            user_prompt,
            params,
        } => {
            assert_eq!(conversation_key, "issue_7");
            assert_eq!(
                user_prompt,
                format!(
                    "Analyze the GitHub issue content: {}. Provide a concise analysis \
                     touching upon: The central problem discussed in the issue. The main \
                     solutions proposed or agreed upon. Aim for a succinct, analytical \
                     summary that stays under 128 tokens.",
                    header
                )
            );
            assert_eq!(
                params.system_prompt,
                "Given the information that user 'alice' opened an issue titled 'Bug X', \
                 your task is to deeply analyze the content of the issue posts. Distill \
                 the crux of the issue, the potential solutions suggested."
            );
            assert_eq!(params.model_name, "gpt-4");
            assert_eq!(params.token_limit, 16384);
            assert!(params.restart);
            assert_eq!(params.temperature_tenths, 7);
            assert_eq!(params.max_output_tokens, 192);
        }
        other => panic!("expected a completion request, got {:?}", other),
    }

    let (phase, action) = step(
        &cfg,
        phase,
        StepEvent::CompletionResult(Ok("A concise summary.".to_string())),
    );
    match action {
        Action::PostComment { issue_number, body } => {
            assert_eq!(issue_number, 7);
            let lines: Vec<&str> = body.split('\n').collect();
            assert_eq!(
                lines,
                vec![
                    "Bug X",
                    "https://example.com/octo-org/octo-repo/issues/7",
                    "A concise summary.",
                    "This result is generated by flows.network. Triggered by @bob",
                ]
            );
        }
        other => panic!("expected a posted comment, got {:?}", other),
    }

    let (phase, action) = step(&cfg, phase, StepEvent::PostResult(Ok(())));
    assert!(matches!(phase, Phase::Idle));
    assert!(matches!(action, Action::NoCall));
}

#[test]
fn redelivered_event_is_processed_again() {
    // No deduplication: the same delivery starts a second run.
    let cfg = test_config();
    for _ in 0..2 {
        let payload = delivery(
            IssueCommentAction::Created,
            Some("please @flows_summarize this"),
        );
        let (phase, action) = step(&cfg, Phase::Idle, StepEvent::Delivery(payload));
        assert!(matches!(action, Action::ListComments { .. }));
        let (phase, action) = step(&cfg, phase, StepEvent::CommentsResult(Ok(vec![])));
        assert!(matches!(action, Action::Complete { .. }));
        let (_, action) = step(
            &cfg,
            phase,
            StepEvent::CompletionResult(Ok("Summary.".to_string())),
        );
        assert!(matches!(action, Action::PostComment { .. }));
    }
}

#[test]
fn custom_trigger_phrase_is_honored() {
    let cfg = Config::from_values(
        Some("o".to_string()),
        Some("r".to_string()),
        Some("!tldr".to_string()),
        Some("e".to_string()),
        None,
        None,
        Some("k".to_string()),
    )
    .unwrap();
    let hit = delivery(IssueCommentAction::Created, Some("give me the !tldr"));
    let (_, action) = step(&cfg, Phase::Idle, StepEvent::Delivery(hit));
    assert!(matches!(action, Action::ListComments { .. }));
    let miss = delivery(
        IssueCommentAction::Created,
        Some("please @flows_summarize this"),
    );
    let (_, action) = step(&cfg, Phase::Idle, StepEvent::Delivery(miss));
    assert!(matches!(action, Action::NoCall));
}

#[test]
fn mismatched_event_makes_no_call() {
    let cfg = test_config();
    let (phase, action) = step(
        &cfg,
        Phase::Idle,
        StepEvent::CompletionResult(Ok("stray".to_string())),
    );
    assert!(matches!(phase, Phase::Idle));
    assert!(matches!(action, Action::NoCall));
}
