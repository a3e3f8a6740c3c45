use vstd::prelude::*;

use crate::diff::diff_chunks;
use crate::model::{
    message_views, Candidate, PrInfo, PromptMessage, ReviewError, Role, ToolOutput,
};
use crate::prompts::Prompts;
use crate::review::{
    assemble_review_messages, candidate_views, chosen_reply, context_prompt,
    describe_prompt, description_prompt, diff_message_views, generate_diff_messages,
    review_context, review_messages, select_description, select_review_response,
};

verus! {

/// What the caller is to do next.
#[derive(Debug, PartialEq, Eq)]
pub enum Action {
    /// Run the hosting tool for the diff of the pull request.
    FetchDiff,
    /// Run the hosting tool for the title and commits of the pull request.
    FetchMetadata,
    /// Parse this metadata payload.
    ParseMetadata(String),
    /// Send these messages to the chat-style completion service.
    SubmitChat(Vec<PromptMessage>),
    /// Send this prompt to the plain completion service.
    SubmitCompletion(String),
    /// Stop, with this outcome.
    Finish(Result<String, ReviewError>),
}

/// What the caller reports back after doing an action.
pub enum Event {
    /// The hosting tool ran.
    ToolExited(ToolOutput),
    /// The metadata payload was parsed; `None` where it was not well formed.
    MetadataParsed(Option<PrInfo>),
    /// The chat-style completion service answered, or failed with a message.
    ChatAnswered(Result<Vec<Candidate>, String>),
    /// The plain completion service answered with its candidate texts, or
    /// failed with a message.
    CompletionAnswered(Result<Vec<String>, String>),
}

/// Where a review stands.
#[derive(Debug, PartialEq, Eq)]
pub enum ReviewState {
    AwaitDiff,
    /// The diff came; its chunk messages are kept.
    AwaitMetadata(Vec<PromptMessage>),
    AwaitParse(Vec<PromptMessage>),
    AwaitAnswer,
    Done,
}

/// Where a description stands.
#[derive(Debug, PartialEq, Eq)]
pub enum DescribeState {
    AwaitMetadata,
    AwaitParse,
    AwaitAnswer,
    Done,
}

/// The step that ends a run on an event that was not waited for.
pub open spec fn unexpected_step<S>(next: S, act: Action, done: S) -> bool {
    next == done && act == Action::Finish(Err(ReviewError::UnexpectedEvent))
}

/// The step that ends a run on a failed run of the hosting tool.
pub open spec fn tool_failure_step<S>(out: ToolOutput, next: S, act: Action, done: S) -> bool {
    next == done && act == Action::Finish(Err(ReviewError::ExternalTool(out.stderr)))
}

/// The outcome of a review from the candidates of the completion service.
pub open spec fn review_outcome(cs: Seq<Candidate>, r: Result<String, ReviewError>) -> bool {
    match chosen_reply(candidate_views(cs)) {
        None => r == Err::<String, ReviewError>(ReviewError::NoResponse),
        Some(t) => r is Ok && r->Ok_0@ == t,
    }
}

/// One step of a review: from `s` on event `e`, to `next`, asking for `act`.
pub open spec fn review_step_spec(
    s: ReviewState,
    e: Event,
    p: Prompts,
    next: ReviewState,
    act: Action,
) -> bool {
    match s {
        ReviewState::AwaitDiff => match e {
            Event::ToolExited(out) => if !out.success {
                tool_failure_step(out, next, act, ReviewState::Done)
            } else if diff_chunks(out.stdout@).len() == 0 {
                next == ReviewState::Done && act == Action::Finish(
                    Err(ReviewError::EmptyDiff),
                )
            } else {
                &&& act == Action::FetchMetadata
                &&& match next {
                    ReviewState::AwaitMetadata(d) => message_views(d@) == diff_message_views(
                        p.diff@,
                        out.stdout@,
                    ),
                    _ => false,
                }
            },
            _ => unexpected_step(next, act, ReviewState::Done),
        },
        ReviewState::AwaitMetadata(d) => match e {
            Event::ToolExited(out) => if !out.success {
                tool_failure_step(out, next, act, ReviewState::Done)
            } else {
                next == ReviewState::AwaitParse(d) && act == Action::ParseMetadata(out.stdout)
            },
            _ => unexpected_step(next, act, ReviewState::Done),
        },
        ReviewState::AwaitParse(d) => match e {
            Event::MetadataParsed(parsed) => match parsed {
                None => next == ReviewState::Done && act == Action::Finish(
                    Err(ReviewError::MetadataParse),
                ),
                Some(info) => if d@.len() == 0 {
                    next == ReviewState::Done && act == Action::Finish(
                        Err(ReviewError::EmptyDiff),
                    )
                } else {
                    &&& next == ReviewState::AwaitAnswer
                    &&& match act {
                        Action::SubmitChat(ms) => message_views(ms@) == review_messages(
                            p.system@,
                            message_views(d@),
                            context_prompt(p.review@, info),
                            p.finish@,
                        ),
                        _ => false,
                    }
                },
            },
            _ => unexpected_step(next, act, ReviewState::Done),
        },
        ReviewState::AwaitAnswer => match e {
            Event::ChatAnswered(answer) => next == ReviewState::Done && match answer {
                Err(m) => act == Action::Finish(Err(ReviewError::CompletionService(m))),
                Ok(cs) => match act {
                    Action::Finish(r) => review_outcome(cs@, r),
                    _ => false,
                },
            },
            _ => unexpected_step(next, act, ReviewState::Done),
        },
        ReviewState::Done => unexpected_step(next, act, ReviewState::Done),
    }
}

/// One step of a description: from `s` on event `e`, to `next`, asking for
/// `act`.
pub open spec fn describe_step_spec(
    s: DescribeState,
    e: Event,
    p: Prompts,
    next: DescribeState,
    act: Action,
) -> bool {
    match s {
        DescribeState::AwaitMetadata => match e {
            Event::ToolExited(out) => if !out.success {
                tool_failure_step(out, next, act, DescribeState::Done)
            } else {
                next == DescribeState::AwaitParse && act == Action::ParseMetadata(out.stdout)
            },
            _ => unexpected_step(next, act, DescribeState::Done),
        },
        DescribeState::AwaitParse => match e {
            Event::MetadataParsed(parsed) => match parsed {
                None => next == DescribeState::Done && act == Action::Finish(
                    Err(ReviewError::MetadataParse),
                ),
                Some(info) => {
                    &&& next == DescribeState::AwaitAnswer
                    &&& match act {
                        Action::SubmitCompletion(prompt) => prompt@ == description_prompt(
                            p.describe@,
                            info,
                        ),
                        _ => false,
                    }
                },
            },
            _ => unexpected_step(next, act, DescribeState::Done),
        },
        DescribeState::AwaitAnswer => match e {
            Event::CompletionAnswered(answer) => next == DescribeState::Done && match answer {
                Err(m) => act == Action::Finish(Err(ReviewError::CompletionService(m))),
                Ok(cs) => match act {
                    Action::Finish(r) => if cs@.len() == 0 {
                        r == Err::<String, ReviewError>(ReviewError::NoResponse)
                    } else {
                        r is Ok && r->Ok_0@ == cs@[0]@
                    },
                    _ => false,
                },
            },
            _ => unexpected_step(next, act, DescribeState::Done),
        },
        DescribeState::Done => unexpected_step(next, act, DescribeState::Done),
    }
}

impl ReviewState {
    /// The first step of a review: fetch the diff.
    pub fn start() -> (r: (ReviewState, Action))
        ensures
            r.0 == ReviewState::AwaitDiff,
            r.1 == Action::FetchDiff,
    {
        (ReviewState::AwaitDiff, Action::FetchDiff)
    }

    /// The next state of a review and the action it asks for.
    pub fn step(self, event: Event, prompts: &Prompts) -> (r: (ReviewState, Action))
        ensures
            review_step_spec(self, event, *prompts, r.0, r.1),
    {
        match self {
            ReviewState::AwaitDiff => match event {
                Event::ToolExited(out) => {
                    if !out.success {
                        (ReviewState::Done, Action::Finish(Err(ReviewError::ExternalTool(out.stderr))))
                    } else {
                        let d = generate_diff_messages(out.stdout.as_str(), prompts.diff.as_str());
                        assert(message_views(d@).len() == d@.len());
                        assert(diff_message_views(prompts.diff@, out.stdout@).len() == diff_chunks(
                            out.stdout@,
                        ).len());
                        if d.len() == 0 {
                            (ReviewState::Done, Action::Finish(Err(ReviewError::EmptyDiff)))
                        } else {
                            (ReviewState::AwaitMetadata(d), Action::FetchMetadata)
                        }
                    }
                },
                _ => (ReviewState::Done, Action::Finish(Err(ReviewError::UnexpectedEvent))),
            },
            ReviewState::AwaitMetadata(d) => match event {
                Event::ToolExited(out) => {
                    if !out.success {
                        (ReviewState::Done, Action::Finish(Err(ReviewError::ExternalTool(out.stderr))))
                    } else {
                        (ReviewState::AwaitParse(d), Action::ParseMetadata(out.stdout))
                    }
                },
                _ => (ReviewState::Done, Action::Finish(Err(ReviewError::UnexpectedEvent))),
            },
            ReviewState::AwaitParse(d) => match event {
                Event::MetadataParsed(parsed) => match parsed {
                    None => (ReviewState::Done, Action::Finish(Err(ReviewError::MetadataParse))),
                    Some(info) => {
                        if d.len() == 0 {
                            (ReviewState::Done, Action::Finish(Err(ReviewError::EmptyDiff)))
                        } else {
                            let context = review_context(prompts.review.as_str(), &info);
                            let ms = assemble_review_messages(prompts, &d, context);
                            (ReviewState::AwaitAnswer, Action::SubmitChat(ms))
                        }
                    },
                },
                _ => (ReviewState::Done, Action::Finish(Err(ReviewError::UnexpectedEvent))),
            },
            ReviewState::AwaitAnswer => match event {
                Event::ChatAnswered(answer) => match answer {
                    Err(m) => (
                        ReviewState::Done,
                        Action::Finish(Err(ReviewError::CompletionService(m))),
                    ),
                    Ok(cs) => (ReviewState::Done, Action::Finish(select_review_response(&cs))),
                },
                _ => (ReviewState::Done, Action::Finish(Err(ReviewError::UnexpectedEvent))),
            },
            ReviewState::Done => (
                ReviewState::Done,
                Action::Finish(Err(ReviewError::UnexpectedEvent)),
            ),
        }
    }
}

impl DescribeState {
    /// The first step of a description: fetch the metadata.
    pub fn start() -> (r: (DescribeState, Action))
        ensures
            r.0 == DescribeState::AwaitMetadata,
            r.1 == Action::FetchMetadata,
    {
        (DescribeState::AwaitMetadata, Action::FetchMetadata)
    }

    /// The next state of a description and the action it asks for.
    pub fn step(self, event: Event, prompts: &Prompts) -> (r: (DescribeState, Action))
        ensures
            describe_step_spec(self, event, *prompts, r.0, r.1),
    {
        match self {
            DescribeState::AwaitMetadata => match event {
                Event::ToolExited(out) => {
                    if !out.success {
                        (DescribeState::Done, Action::Finish(Err(ReviewError::ExternalTool(out.stderr))))
                    } else {
                        (DescribeState::AwaitParse, Action::ParseMetadata(out.stdout))
                    }
                },
                _ => (DescribeState::Done, Action::Finish(Err(ReviewError::UnexpectedEvent))),
            },
            DescribeState::AwaitParse => match event {
                Event::MetadataParsed(parsed) => match parsed {
                    None => (DescribeState::Done, Action::Finish(Err(ReviewError::MetadataParse))),
                    Some(info) => {
                        let prompt = describe_prompt(prompts.describe.as_str(), &info);
                        (DescribeState::AwaitAnswer, Action::SubmitCompletion(prompt))
                    },
                },
                _ => (DescribeState::Done, Action::Finish(Err(ReviewError::UnexpectedEvent))),
            },
            DescribeState::AwaitAnswer => match event {
                Event::CompletionAnswered(answer) => match answer {
                    Err(m) => (
                        DescribeState::Done,
                        Action::Finish(Err(ReviewError::CompletionService(m))),
                    ),
                    Ok(cs) => (DescribeState::Done, Action::Finish(select_description(&cs))),
                },
                _ => (DescribeState::Done, Action::Finish(Err(ReviewError::UnexpectedEvent))),
            },
            DescribeState::Done => (
                DescribeState::Done,
                Action::Finish(Err(ReviewError::UnexpectedEvent)),
            ),
        }
    }
}

/// A run of a review: on `events[i]` the review goes from `states[i]` to
/// `states[i + 1]` and asks for `actions[i]`.
pub open spec fn review_run(
    states: Seq<ReviewState>,
    events: Seq<Event>,
    actions: Seq<Action>,
    p: Prompts,
) -> bool {
    &&& states.len() == events.len() + 1
    &&& actions.len() == events.len()
    &&& forall|i: int|
        0 <= i < events.len() ==> review_step_spec(
            states[i],
            #[trigger] events[i],
            p,
            states[i + 1],
            actions[i],
        )
}

proof fn lemma_review_stays_done(
    states: Seq<ReviewState>,
    events: Seq<Event>,
    actions: Seq<Action>,
    p: Prompts,
    k: int,
    j: int,
)
    requires
        review_run(states, events, actions, p),
        0 <= k < j <= events.len(),
        states[k + 1] == ReviewState::Done,
    ensures
        states[j] == ReviewState::Done,
    decreases j - k,
{
    if j > k + 1 {
        lemma_review_stays_done(states, events, actions, p, k, j - 1);
        assert(review_step_spec(states[j - 1], events[j - 1], p, states[j], actions[j - 1]));
    }
}

/// When the hosting tool fails while a review waits for the diff or for the
/// metadata, the review ends with that tool's error, and no later step asks
/// for anything but to stop: nothing is sent to the completion service.
pub proof fn lemma_tool_failure_ends_review(
    states: Seq<ReviewState>,
    events: Seq<Event>,
    actions: Seq<Action>,
    p: Prompts,
    k: int,
)
    requires
        review_run(states, events, actions, p),
        0 <= k < events.len(),
        states[k] is AwaitDiff || states[k] is AwaitMetadata,
        events[k] is ToolExited,
        !events[k]->ToolExited_0.success,
    ensures
        actions[k] == Action::Finish(Err(ReviewError::ExternalTool(events[k]->ToolExited_0.stderr))),
        forall|j: int|
            k < j < events.len() ==> #[trigger] actions[j] == Action::Finish(
                Err(ReviewError::UnexpectedEvent),
            ),
{
    assert(review_step_spec(states[k], events[k], p, states[k + 1], actions[k]));
    assert forall|j: int| k < j < events.len() implies #[trigger] actions[j] == Action::Finish(
        Err(ReviewError::UnexpectedEvent),
    ) by {
        lemma_review_stays_done(states, events, actions, p, k, j);
        assert(review_step_spec(states[j], events[j], p, states[j + 1], actions[j]));
    }
}

proof fn lemma_no_reply_from_system(cs: Seq<(Role, Seq<char>)>)
    requires
        forall|i: int| 0 <= i < cs.len() ==> (#[trigger] cs[i]).0 == Role::System,
    ensures
        chosen_reply(cs) == None::<Seq<char>>,
    decreases cs.len(),
{
    if cs.len() > 0 {
        assert(cs[0].0 == Role::System);
        let rest = cs.drop_first();
        assert forall|i: int| 0 <= i < rest.len() implies (#[trigger] rest[i]).0 == Role::System by {
            assert(rest[i] == cs[i + 1]);
        }
        lemma_no_reply_from_system(rest);
    }
}

/// When every candidate of the completion service is a system message, the
/// review fails with `NoResponse`.
pub proof fn lemma_system_candidates_give_no_response(
    cs: Vec<Candidate>,
    p: Prompts,
    next: ReviewState,
    act: Action,
)
    requires
        review_step_spec(ReviewState::AwaitAnswer, Event::ChatAnswered(Ok(cs)), p, next, act),
        forall|i: int| 0 <= i < cs@.len() ==> (#[trigger] cs@[i]).role == Role::System,
    ensures
        next == ReviewState::Done,
        act == Action::Finish(Err(ReviewError::NoResponse)),
{
    let cv = candidate_views(cs@);
    assert forall|i: int| 0 <= i < cv.len() implies (#[trigger] cv[i]).0 == Role::System by {
        assert(cs@[i].role == Role::System);
    }
    lemma_no_reply_from_system(cv);
}

/// A run of a description: on `events[i]` the description goes from
/// `states[i]` to `states[i + 1]` and asks for `actions[i]`.
pub open spec fn describe_run(
    states: Seq<DescribeState>,
    events: Seq<Event>,
    actions: Seq<Action>,
    p: Prompts,
) -> bool {
    &&& states.len() == events.len() + 1
    &&& actions.len() == events.len()
    &&& forall|i: int|
        0 <= i < events.len() ==> describe_step_spec(
            states[i],
            #[trigger] events[i],
            p,
            states[i + 1],
            actions[i],
        )
}

proof fn lemma_describe_stays_done(
    states: Seq<DescribeState>,
    events: Seq<Event>,
    actions: Seq<Action>,
    p: Prompts,
    k: int,
    j: int,
)
    requires
        describe_run(states, events, actions, p),
        0 <= k < j <= events.len(),
        states[k + 1] == DescribeState::Done,
    ensures
        states[j] == DescribeState::Done,
    decreases j - k,
{
    if j > k + 1 {
        lemma_describe_stays_done(states, events, actions, p, k, j - 1);
        assert(describe_step_spec(states[j - 1], events[j - 1], p, states[j], actions[j - 1]));
    }
}

/// When the hosting tool fails while a description waits for the metadata,
/// the description ends with that tool's error, and no later step asks for
/// anything but to stop: nothing is sent to the completion service.
pub proof fn lemma_tool_failure_ends_description(
    states: Seq<DescribeState>,
    events: Seq<Event>,
    actions: Seq<Action>,
    p: Prompts,
    k: int,
)
    requires
        describe_run(states, events, actions, p),
        0 <= k < events.len(),
        states[k] is AwaitMetadata,
        events[k] is ToolExited,
        !events[k]->ToolExited_0.success,
    ensures
        actions[k] == Action::Finish(Err(ReviewError::ExternalTool(events[k]->ToolExited_0.stderr))),
        forall|j: int|
            k < j < events.len() ==> #[trigger] actions[j] == Action::Finish(
                Err(ReviewError::UnexpectedEvent),
            ),
{
    assert(describe_step_spec(states[k], events[k], p, states[k + 1], actions[k]));
    assert forall|j: int| k < j < events.len() implies #[trigger] actions[j] == Action::Finish(
        Err(ReviewError::UnexpectedEvent),
    ) by {
        lemma_describe_stays_done(states, events, actions, p, k, j);
        assert(describe_step_spec(states[j], events[j], p, states[j + 1], actions[j]));
    }
}

} // verus!
