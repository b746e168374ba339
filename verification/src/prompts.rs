//! Building the aggregated issue text, the two prompts, and the reply
//! that is posted back, each pinned to an exact character sequence.

use vstd::prelude::*;
use crate::event::{body_or_empty, body_text, CommentInfo, IssueInfo};
use crate::strutil::{spec_dec_string, u64_to_dec_string};

verus! {

/// Label names joined with ", ", in order.
pub open spec fn spec_labels_joined(labels: Seq<String>) -> Seq<char>
    decreases labels.len(),
{
    if labels.len() == 0 {
        Seq::empty()
    } else if labels.len() == 1 {
        labels[0]@
    } else {
        spec_labels_joined(labels.drop_last()) + ", "@ + labels.last()@
    }
}

/// Joins label names with ", ".
pub fn labels_joined(labels: &Vec<String>) -> (r: String)
    ensures
        r@ == spec_labels_joined(labels@),
{
    let mut r = String::new();
    let mut i: usize = 0;
    assert(r@ =~= spec_labels_joined(labels@.take(0)));
    while i < labels.len()
        invariant
            i <= labels.len(),
            r@ == spec_labels_joined(labels@.take(i as int)),
        decreases labels.len() - i,
    {
        if i > 0 {
            r.append(", ");
        }
        r.append(labels[i].as_str());
        proof {
            assert(labels@.take(i as int + 1).drop_last() =~= labels@.take(i as int));
            assert(labels@.take(i as int + 1).last() == labels@[i as int]);
            assert(r@ =~= spec_labels_joined(labels@.take(i as int + 1)));
        }
        i += 1;
    }
    proof {
        assert(labels@.take(labels@.len() as int) =~= labels@);
    }
    r
}

/// The header line of the aggregated text: who opened the issue, its
/// title, its labels, and the opening post.
pub open spec fn spec_header_line(issue: IssueInfo) -> Seq<char> {
    "User '"@ + issue.user_login@ + "', opened an issue titled '"@ + issue.title@ + "', labeled '"@
        + spec_labels_joined(issue.labels@) + "', with the following post: '"@ + body_text(
        issue.body,
    ) + "'.\n"@
}

/// Builds the header line of the aggregated text.
pub fn header_line(issue: &IssueInfo) -> (r: String)
    ensures
        r@ == spec_header_line(*issue),
{
    let mut r = String::from_str("User '");
    r.append(issue.user_login.as_str());
    r.append("', opened an issue titled '");
    r.append(issue.title.as_str());
    r.append("', labeled '");
    let labs = labels_joined(&issue.labels);
    r.append(labs.as_str());
    r.append("', with the following post: '");
    r.append(body_or_empty(&issue.body));
    r.append("'.\n");
    assert(r@ =~= spec_header_line(*issue));
    r
}

/// One line of the aggregated text per fetched comment.
pub open spec fn spec_comment_line(c: CommentInfo) -> Seq<char> {
    c.user_login@ + " commented: "@ + body_text(c.body) + "\n"@
}

/// Builds the line recording one comment.
pub fn comment_line(c: &CommentInfo) -> (r: String)
    ensures
        r@ == spec_comment_line(*c),
{
    let mut r = c.user_login.clone();
    r.append(" commented: ");
    r.append(body_or_empty(&c.body));
    r.append("\n");
    assert(r@ =~= spec_comment_line(*c));
    r
}

/// The comment lines of the whole thread, in fetch order.
pub open spec fn spec_comments_text(cs: Seq<CommentInfo>) -> Seq<char>
    decreases cs.len(),
{
    if cs.len() == 0 {
        Seq::empty()
    } else {
        spec_comments_text(cs.drop_last()) + spec_comment_line(cs.last())
    }
}

/// The whole aggregated text: the header line, then one line per
/// comment, in fetch order.
pub open spec fn spec_aggregated_text(issue: IssueInfo, cs: Seq<CommentInfo>) -> Seq<char> {
    spec_header_line(issue) + spec_comments_text(cs)
}

/// Builds the aggregated text for an issue and its comment thread.
pub fn aggregated_text(issue: &IssueInfo, comments: &Vec<CommentInfo>) -> (r: String)
    ensures
        r@ == spec_aggregated_text(*issue, comments@),
{
    let mut r = header_line(issue);
    let mut i: usize = 0;
    assert(r@ =~= spec_header_line(*issue) + spec_comments_text(comments@.take(0)));
    while i < comments.len()
        invariant
            i <= comments.len(),
            r@ == spec_header_line(*issue) + spec_comments_text(comments@.take(i as int)),
        decreases comments.len() - i,
    {
        let line = comment_line(&comments[i]);
        r.append(line.as_str());
        proof {
            assert(comments@.take(i as int + 1).drop_last() =~= comments@.take(i as int));
            assert(comments@.take(i as int + 1).last() == comments@[i as int]);
            assert(r@ =~= spec_header_line(*issue) + spec_comments_text(
                comments@.take(i as int + 1),
            ));
        }
        i += 1;
    }
    proof {
        assert(comments@.take(comments@.len() as int) =~= comments@);
    }
    r
}

/// The system prompt: names the issue creator and title and asks for
/// the crux of the issue and the solutions suggested.
pub open spec fn spec_system_prompt(issue: IssueInfo) -> Seq<char> {
    "Given the information that user '"@ + issue.user_login@ + "' opened an issue titled '"@
        + issue.title@
        + "', your task is to deeply analyze the content of the issue posts. Distill the crux of the issue, the potential solutions suggested."@
}

/// Builds the system prompt for an issue.
pub fn system_prompt(issue: &IssueInfo) -> (r: String)
    ensures
        r@ == spec_system_prompt(*issue),
{
    let mut r = String::from_str("Given the information that user '");
    r.append(issue.user_login.as_str());
    r.append("' opened an issue titled '");
    r.append(issue.title.as_str());
    r.append(
        "', your task is to deeply analyze the content of the issue posts. Distill the crux of the issue, the potential solutions suggested.",
    );
    assert(r@ =~= spec_system_prompt(*issue));
    r
}

/// The user prompt: embeds the aggregated text and asks for a concise
/// analysis.
pub open spec fn spec_user_prompt(aggregated: Seq<char>) -> Seq<char> {
    "Analyze the GitHub issue content: "@ + aggregated
        + ". Provide a concise analysis touching upon: The central problem discussed in the issue. The main solutions proposed or agreed upon. Aim for a succinct, analytical summary that stays under 128 tokens."@
}

/// Builds the user prompt around the aggregated text.
pub fn user_prompt(aggregated: &str) -> (r: String)
    ensures
        r@ == spec_user_prompt(aggregated@),
{
    let mut r = String::from_str("Analyze the GitHub issue content: ");
    r.append(aggregated);
    r.append(
        ". Provide a concise analysis touching upon: The central problem discussed in the issue. The main solutions proposed or agreed upon. Aim for a succinct, analytical summary that stays under 128 tokens.",
    );
    assert(r@ =~= spec_user_prompt(aggregated@));
    r
}

/// The conversation key that scopes any state the completion service
/// keeps: "issue_" followed by the issue number.
pub open spec fn spec_conversation_key(n: nat) -> Seq<char> {
    "issue_"@ + spec_dec_string(n)
}

/// Builds the conversation key for an issue number.
pub fn conversation_key(n: u64) -> (r: String)
    ensures
        r@ == spec_conversation_key(n as nat),
{
    let mut r = String::from_str("issue_");
    let num = u64_to_dec_string(n);
    r.append(num.as_str());
    r
}

} // verus!
