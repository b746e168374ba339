//! The handler's decision logic, as a state machine.
//!
//! Each webhook delivery starts a run: screening, fetching the comment
//! thread, one completion call, one posted reply.  The remote calls
//! themselves happen outside this crate; `step` is handed each call's
//! outcome and decides the next phase and the next call, so that every
//! decision — including that no call follows a failure — is verified
//! here.

use vstd::prelude::*;
use crate::config::Config;
use crate::event::{
    body_or_empty, body_text, CommentInfo, IssueCommentAction, IssueCommentEvent, WebhookPayload,
};
use crate::prompts::{
    aggregated_text, conversation_key, spec_aggregated_text, spec_conversation_key,
    spec_system_prompt, spec_user_prompt, system_prompt, user_prompt,
};
use crate::reply::{reply_text, spec_reply_text};
use crate::strutil::{contains_seq, str_contains};

verus! {

/// The settings of one completion call, mirroring what the service
/// accepts.  The temperature is held in tenths, so 7 stands for 0.7.
#[derive(Debug)]
pub struct ChatParams {
    pub model_name: String,
    /// Context-window size of the model.
    pub token_limit: u32,
    /// True: the call starts a fresh conversation.
    pub restart: bool,
    pub system_prompt: String,
    /// Sampling temperature in tenths.
    pub temperature_tenths: u32,
    pub max_output_tokens: u32,
}

/// Where a run stands: idle, or waiting for one remote call's outcome.
#[derive(Debug)]
pub enum Phase {
    /// Awaiting a qualifying delivery.
    Idle,
    /// The comment thread is being fetched.
    AwaitingComments { event: IssueCommentEvent },
    /// The completion call is in flight.
    AwaitingCompletion { event: IssueCommentEvent },
    /// The reply is being posted.
    AwaitingPost { event: IssueCommentEvent },
}

/// What the driver reports to the state machine: a fresh delivery, or
/// the outcome of the call it was last asked to make.  An `Err` value
/// carries the remote error's rendering, which the decision ignores.
#[derive(Debug)]
pub enum StepEvent {
    Delivery(WebhookPayload),
    CommentsResult(Result<Vec<CommentInfo>, String>),
    CompletionResult(Result<String, String>),
    PostResult(Result<(), String>),
}

/// The single remote call the driver must make next, or none.
#[derive(Debug)]
pub enum Action {
    /// Make no call: the run is over or the delivery was ignored.
    NoCall,
    /// List the issue's comments, first page only.
    ListComments { issue_number: u64, per_page: u32 },
    /// Request one completion.
    Complete { conversation_key: String, user_prompt: String, params: ChatParams },
    /// Post the reply on the issue.
    PostComment { issue_number: u64, body: String },
}

/// A delivery qualifies when it is an issue-comment event, the
/// comment was created (not edited or deleted), and its body contains
/// the trigger phrase.
pub open spec fn spec_qualifies(payload: WebhookPayload, trigger: Seq<char>) -> bool {
    match payload {
        WebhookPayload::IssueComment(ev) => ev.action == IssueCommentAction::Created
            && contains_seq(body_text(ev.comment.body), trigger),
        WebhookPayload::Other => false,
    }
}

/// Screens a delivery: returns the event exactly when it qualifies.
pub fn screen(payload: WebhookPayload, trigger: &String) -> (r: Option<IssueCommentEvent>)
    ensures
        r is Some <==> spec_qualifies(payload, trigger@),
        r matches Some(ev) ==> payload == WebhookPayload::IssueComment(ev),
{
    match payload {
        WebhookPayload::IssueComment(ev) => {
            if !(ev.action == IssueCommentAction::Created) {
                return None;
            }
            let triggered = str_contains(body_or_empty(&ev.comment.body), trigger.as_str());
            if triggered {
                Some(ev)
            } else {
                None
            }
        },
        WebhookPayload::Other => None,
    }
}

/// The event fits the phase: a delivery while idle, or the outcome of
/// exactly the call the machine is waiting on.
pub open spec fn event_fits(phase: Phase, event: StepEvent) -> bool {
    match (phase, event) {
        (Phase::Idle, StepEvent::Delivery(_)) => true,
        (Phase::AwaitingComments { .. }, StepEvent::CommentsResult(_)) => true,
        (Phase::AwaitingCompletion { .. }, StepEvent::CompletionResult(_)) => true,
        (Phase::AwaitingPost { .. }, StepEvent::PostResult(_)) => true,
        _ => false,
    }
}

/// One decision of the handler: from the current phase and what just
/// happened, the next phase and the single call to make, if any.
///
/// The contract pins every case: deliveries that do not qualify are
/// ignored without any call; a failed fetch or completion ends the run
/// with no further call; the completion request embeds the aggregated
/// text of the issue and thread; the posted reply is the four-line
/// summary text.
pub fn step(cfg: &Config, phase: Phase, event: StepEvent) -> (r: (Phase, Action))
    ensures
        // An unrelated or ill-fitting event never causes a call.
        !event_fits(phase, event) ==> r == (Phase::Idle, Action::NoCall),
        // A delivery that does not qualify is ignored silently.
        event matches StepEvent::Delivery(p) && phase is Idle && !spec_qualifies(
            p,
            cfg.trigger_phrase@,
        ) ==> r == (Phase::Idle, Action::NoCall),
        // A qualifying delivery asks for the comment thread, first
        // page, up to 100 comments.
        event matches StepEvent::Delivery(WebhookPayload::IssueComment(ev)) ==> (phase is Idle
            && spec_qualifies(WebhookPayload::IssueComment(ev), cfg.trigger_phrase@) ==> {
            &&& r.0 == (Phase::AwaitingComments { event: ev })
            &&& r.1 == (Action::ListComments { issue_number: ev.issue.number, per_page: 100u32 })
        }),
        // A failed fetch ends the run: no completion call is made.
        phase is AwaitingComments ==> (event matches StepEvent::CommentsResult(res) && res
            is Err ==> r == (Phase::Idle, Action::NoCall)),
        // A fetched thread leads to exactly one completion request,
        // whose user prompt embeds the aggregated text: the header
        // line, then one line per comment in fetch order.
        phase matches Phase::AwaitingComments { event: ev } ==> (event matches
            StepEvent::CommentsResult(Result::Ok(cs)) ==> {
            &&& r.0 == (Phase::AwaitingCompletion { event: ev })
            &&& r.1 matches Action::Complete { conversation_key, user_prompt, params }
            &&& conversation_key@ == spec_conversation_key(ev.issue.number as nat)
            &&& user_prompt@ == spec_user_prompt(spec_aggregated_text(ev.issue, cs@))
            &&& params.model_name@ == cfg.llm_model_name@
            &&& params.token_limit == cfg.llm_ctx_size
            &&& params.restart == true
            &&& params.system_prompt@ == spec_system_prompt(ev.issue)
            &&& params.temperature_tenths == 7u32
            &&& params.max_output_tokens == 192u32
        }),
        // A failed completion ends the run: nothing is posted.
        phase is AwaitingCompletion ==> (event matches StepEvent::CompletionResult(res) && res
            is Err ==> r == (Phase::Idle, Action::NoCall)),
        // A summary is posted back as the four-line reply.
        phase matches Phase::AwaitingCompletion { event: ev } ==> (event matches
            StepEvent::CompletionResult(Result::Ok(summary)) ==> {
            &&& r.0 == (Phase::AwaitingPost { event: ev })
            &&& r.1 matches Action::PostComment { issue_number, body }
            &&& issue_number == ev.issue.number
            &&& body@ == spec_reply_text(
                ev.issue.title@,
                ev.issue.html_url@,
                summary@,
                ev.comment.user_login@,
            )
        }),
        // Whether posting succeeded or failed, the run is over.
        phase is AwaitingPost && event is PostResult ==> r == (Phase::Idle, Action::NoCall),
        // No call is ever made except from the matching phase: a
        // fetch only for a qualifying delivery, a completion only
        // after a successful fetch, a post only after a successful
        // completion.
        r.1 is ListComments ==> phase is Idle && (event matches StepEvent::Delivery(p)
            && spec_qualifies(p, cfg.trigger_phrase@)),
        r.1 is Complete ==> phase is AwaitingComments && (event matches StepEvent::CommentsResult(
            res,
        ) && res is Ok),
        r.1 is PostComment ==> phase is AwaitingCompletion && (event matches
            StepEvent::CompletionResult(res) && res is Ok),
{
    match phase {
        Phase::Idle => {
            match event {
                StepEvent::Delivery(payload) => {
                    match screen(payload, &cfg.trigger_phrase) {
                        Option::Some(ev) => {
                            let number = ev.issue.number;
                            (
                                Phase::AwaitingComments { event: ev },
                                Action::ListComments { issue_number: number, per_page: 100 },
                            )
                        },
                        Option::None => (Phase::Idle, Action::NoCall),
                    }
                },
                _ => (Phase::Idle, Action::NoCall),
            }
        },
        Phase::AwaitingComments { event: ev } => {
            match event {
                StepEvent::CommentsResult(res) => {
                    match res {
                        Result::Ok(cs) => {
                            let agg = aggregated_text(&ev.issue, &cs);
                            let up = user_prompt(agg.as_str());
                            let key = conversation_key(ev.issue.number);
                            let sp = system_prompt(&ev.issue);
                            let params = ChatParams {
                                model_name: cfg.llm_model_name.clone(),
                                token_limit: cfg.llm_ctx_size,
                                restart: true,
                                system_prompt: sp,
                                temperature_tenths: 7,
                                max_output_tokens: 192,
                            };
                            (
                                Phase::AwaitingCompletion { event: ev },
                                Action::Complete {
                                    conversation_key: key,
                                    user_prompt: up,
                                    params,
                                },
                            )
                        },
                        Result::Err(_) => (Phase::Idle, Action::NoCall),
                    }
                },
                _ => (Phase::Idle, Action::NoCall),
            }
        },
        Phase::AwaitingCompletion { event: ev } => {
            match event {
                StepEvent::CompletionResult(res) => {
                    match res {
                        Result::Ok(summary) => {
                            let body = reply_text(
                                ev.issue.title.as_str(),
                                ev.issue.html_url.as_str(),
                                summary.as_str(),
                                ev.comment.user_login.as_str(),
                            );
                            let number = ev.issue.number;
                            (
                                Phase::AwaitingPost { event: ev },
                                Action::PostComment { issue_number: number, body },
                            )
                        },
                        Result::Err(_) => (Phase::Idle, Action::NoCall),
                    }
                },
                _ => (Phase::Idle, Action::NoCall),
            }
        },
        Phase::AwaitingPost { event: _ } => {
            match event {
                StepEvent::PostResult(_) => (Phase::Idle, Action::NoCall),
                _ => (Phase::Idle, Action::NoCall),
            }
        },
    }
}

} // verus!
