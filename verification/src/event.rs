//! The closed model of the one webhook event this crate reacts to.
//!
//! A delivery arrives as a tagged payload: either an issue-comment
//! event, carried as a strongly typed record, or anything else, which
//! the handler ignores.  The driver that receives raw deliveries
//! converts them into these types before calling into this crate.

use vstd::prelude::*;

verus! {

/// What happened to the comment that the event reports.
#[derive(Clone, Copy, Debug, PartialEq, Eq, Structural)]
pub enum IssueCommentAction {
    Created,
    Edited,
    Deleted,
}

/// The issue a comment belongs to, as read from the webhook payload.
#[derive(Clone, Debug)]
pub struct IssueInfo {
    /// Login of the user who opened the issue.
    pub user_login: String,
    pub title: String,
    pub number: u64,
    pub html_url: String,
    /// The opening post; absent when the issue was opened without one.
    pub body: Option<String>,
    /// Names of the labels on the issue, in payload order.
    pub labels: Vec<String>,
}

/// One comment: its author and its text.
#[derive(Clone, Debug)]
pub struct CommentInfo {
    pub user_login: String,
    /// Absent when the platform reports a comment without a body.
    pub body: Option<String>,
}

/// An issue-comment event: the action, the issue, and the comment
/// the action concerns.
#[derive(Clone, Debug)]
pub struct IssueCommentEvent {
    pub action: IssueCommentAction,
    pub issue: IssueInfo,
    pub comment: CommentInfo,
}

/// A webhook delivery, reduced to the cases the handler distinguishes.
#[derive(Clone, Debug)]
pub enum WebhookPayload {
    IssueComment(IssueCommentEvent),
    /// Any other event kind; always ignored.
    Other,
}

/// The text of an optional body: the empty sequence when absent.
pub open spec fn body_text(body: Option<String>) -> Seq<char> {
    match body {
        Option::Some(s) => s@,
        Option::None => Seq::empty(),
    }
}

/// Returns the body's text, or the empty string when there is none.
pub fn body_or_empty(body: &Option<String>) -> (r: &str)
    ensures
        r@ == body_text(*body),
{
    match body {
        Option::Some(s) => s.as_str(),
        Option::None => {
            let r = "";
            proof {
                reveal_strlit("");
                assert(r@ =~= Seq::<char>::empty());
            }
            r
        },
    }
}

} // verus!
