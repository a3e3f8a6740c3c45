use vstd::prelude::*;

use crate::diff::{diff_chunks, split_diff_into_files, views};
use crate::model::{
    headlines, message_views, Candidate, PrInfo, PromptMessage, ReviewError, Role, ToolOutput,
};
use crate::prompts::Prompts;
use crate::template::{binding_views, render, rendered, Binding};
use vstd::string::StringExecFns;

verus! {

/// The texts `ls` joined, a newline between each two.
pub open spec fn join_lines(ls: Seq<Seq<char>>) -> Seq<char>
    decreases ls.len(),
{
    if ls.len() == 0 {
        seq![]
    } else if ls.len() == 1 {
        ls[0]
    } else {
        join_lines(ls.drop_last()) + seq!['\n'] + ls.last()
    }
}

/// The review context: the review template with the title and the commit
/// headlines filled in.
pub open spec fn context_prompt(template: Seq<char>, info: PrInfo) -> Seq<char> {
    rendered(
        template,
        seq![("title"@, info.title@), ("commit_messages"@, join_lines(headlines(info)))],
    )
}

/// The description prompt: the description template with the title and the
/// commit headlines filled in.
pub open spec fn description_prompt(template: Seq<char>, info: PrInfo) -> Seq<char> {
    rendered(
        template,
        seq![("prompt"@, info.title@), ("commit_messages"@, join_lines(headlines(info)))],
    )
}

/// The message that carries one chunk of a diff.
pub open spec fn chunk_message(template: Seq<char>, chunk: Seq<char>) -> (Role, Seq<char>) {
    (Role::User, rendered(template, seq![("diff"@, chunk)]))
}

/// One message per chunk of the diff, in order.
pub open spec fn diff_message_views(template: Seq<char>, diff: Seq<char>) -> Seq<(Role, Seq<char>)> {
    diff_chunks(diff).map_values(|c: Seq<char>| chunk_message(template, c))
}

/// The full review request: the system prompt, the first chunk's message, the
/// context, every chunk's message in order, and the finishing instruction.
pub open spec fn review_messages(
    system: Seq<char>,
    chunks: Seq<(Role, Seq<char>)>,
    context: Seq<char>,
    finish: Seq<char>,
) -> Seq<(Role, Seq<char>)> {
    seq![(Role::System, system), chunks[0], (Role::User, context)] + chunks + seq![
        (Role::User, finish),
    ]
}

/// The text of the first candidate that is not a system message, if any.
pub open spec fn chosen_reply(cs: Seq<(Role, Seq<char>)>) -> Option<Seq<char>>
    decreases cs.len(),
{
    if cs.len() == 0 {
        None
    } else if cs[0].0 == Role::System {
        chosen_reply(cs.drop_first())
    } else {
        Some(cs[0].1)
    }
}

/// The role and text of each candidate, in order.
pub open spec fn candidate_views(cs: Seq<Candidate>) -> Seq<(Role, Seq<char>)> {
    cs.map_values(|c: Candidate| c@)
}

/// The commit headlines of a pull request, one per line.
pub fn join_headlines(info: &PrInfo) -> (r: String)
    ensures
        r@ == join_lines(headlines(*info)),
{
    let ghost hs = headlines(*info);
    let mut out = String::new();
    let mut i: usize = 0;
    while i < info.commits.len()
        invariant
            hs == headlines(*info),
            i <= hs.len(),
            out@ == join_lines(hs.take(i as int)),
        decreases hs.len() - i,
    {
        assert(hs.take(i + 1).drop_last() =~= hs.take(i as int));
        if i > 0 {
            out.append("\n");
            proof {
                reveal_strlit("\n");
            }
        } else {
            assert(hs.take(1) =~= seq![hs[0]]);
        }
        out.append(info.commits[i].message_headline.as_str());
        i = i + 1;
    }
    assert(hs.take(i as int) =~= hs);
    out
}

/// Renders the review context for a pull request.
pub fn review_context(template: &str, info: &PrInfo) -> (r: String)
    ensures
        r@ == context_prompt(template@, *info),
{
    let title = Binding { name: String::from_str("title"), value: info.title.clone() };
    let commits = Binding {
        name: String::from_str("commit_messages"),
        value: join_headlines(info),
    };
    let bindings = vec![title, commits];
    assert(binding_views(bindings@) =~= seq![
        ("title"@, info.title@),
        ("commit_messages"@, join_lines(headlines(*info))),
    ]);
    render(template, &bindings)
}

/// Renders the description prompt for a pull request.
pub fn describe_prompt(template: &str, info: &PrInfo) -> (r: String)
    ensures
        r@ == description_prompt(template@, *info),
{
    let title = Binding { name: String::from_str("prompt"), value: info.title.clone() };
    let commits = Binding {
        name: String::from_str("commit_messages"),
        value: join_headlines(info),
    };
    let bindings = vec![title, commits];
    assert(binding_views(bindings@) =~= seq![
        ("prompt"@, info.title@),
        ("commit_messages"@, join_lines(headlines(*info))),
    ]);
    render(template, &bindings)
}

/// One user message per chunk of the diff, the chunk filled into the diff
/// template, in the order of the chunks.
pub fn generate_diff_messages(diff: &str, template: &str) -> (r: Vec<PromptMessage>)
    ensures
        message_views(r@) == diff_message_views(template@, diff@),
{
    let chunks = split_diff_into_files(diff);
    let ghost cv = views(chunks@);
    let mut messages: Vec<PromptMessage> = Vec::new();
    let mut i: usize = 0;
    while i < chunks.len()
        invariant
            cv == views(chunks@),
            cv == diff_chunks(diff@),
            i <= chunks@.len(),
            message_views(messages@) == diff_message_views(template@, diff@).take(i as int),
        decreases chunks@.len() - i,
    {
        let b = Binding { name: String::from_str("diff"), value: chunks[i].clone() };
        let bindings = vec![b];
        assert(binding_views(bindings@) =~= seq![("diff"@, cv[i as int])]);
        let m = PromptMessage::user(render(template, &bindings));
        assert(m@ == diff_message_views(template@, diff@)[i as int]);
        let ghost before = messages@;
        messages.push(m);
        assert(messages@ =~= before.push(m));
        assert(message_views(before.push(m)) =~= message_views(before).push(m@));
        let ghost dm = diff_message_views(template@, diff@);
        assert(dm.take(i + 1) =~= dm.take(i as int).push(dm[i as int]));
        i = i + 1;
    }
    assert(diff_message_views(template@, diff@).take(i as int) =~= diff_message_views(
        template@,
        diff@,
    ));
    messages
}

/// Assembles a review request: the system prompt, the first diff message, the
/// context, all diff messages in order, and the finishing instruction.
pub fn assemble_review_messages(
    prompts: &Prompts,
    diff_messages: &Vec<PromptMessage>,
    context: String,
) -> (r: Vec<PromptMessage>)
    requires
        diff_messages@.len() > 0,
    ensures
        message_views(r@) == review_messages(
            prompts.system@,
            message_views(diff_messages@),
            context@,
            prompts.finish@,
        ),
{
    let ghost dv = message_views(diff_messages@);
    let mut messages: Vec<PromptMessage> = Vec::new();
    messages.push(PromptMessage::system(prompts.system.clone()));
    messages.push(diff_messages[0].duplicate());
    messages.push(PromptMessage::user(context));
    let ghost head = message_views(messages@);
    assert(head =~= seq![(Role::System, prompts.system@), dv[0], (Role::User, context@)]);
    let mut i: usize = 0;
    while i < diff_messages.len()
        invariant
            dv == message_views(diff_messages@),
            i <= dv.len(),
            message_views(messages@) == head + dv.take(i as int),
        decreases dv.len() - i,
    {
        let m = diff_messages[i].duplicate();
        let ghost before = messages@;
        messages.push(m);
        assert(messages@ =~= before.push(m));
        assert(message_views(before.push(m)) =~= message_views(before).push(m@));
        assert((head + dv.take(i as int)).push(dv[i as int]) =~= head + dv.take(i + 1));
        i = i + 1;
    }
    messages.push(PromptMessage::user(prompts.finish.clone()));
    assert(dv.take(i as int) =~= dv);
    assert(message_views(messages@) =~= review_messages(
        prompts.system@,
        dv,
        context@,
        prompts.finish@,
    ));
    messages
}

/// The text of the first candidate that is not a system message.
pub fn select_review_response(candidates: &Vec<Candidate>) -> (r: Result<String, ReviewError>)
    ensures
        match chosen_reply(candidate_views(candidates@)) {
            None => r == Err::<String, ReviewError>(ReviewError::NoResponse),
            Some(t) => r is Ok && r->Ok_0@ == t,
        },
{
    let ghost cv = candidate_views(candidates@);
    let mut i: usize = 0;
    assert(cv.skip(0) =~= cv);
    while i < candidates.len()
        invariant
            cv == candidate_views(candidates@),
            i <= cv.len(),
            chosen_reply(cv.skip(i as int)) == chosen_reply(cv),
        decreases cv.len() - i,
    {
        assert(cv.skip(i as int).drop_first() =~= cv.skip(i + 1));
        if candidates[i].role != Role::System {
            return Ok(candidates[i].content.clone());
        }
        i = i + 1;
    }
    Err(ReviewError::NoResponse)
}

/// The text of the first candidate of a plain completion.
pub fn select_description(choices: &Vec<String>) -> (r: Result<String, ReviewError>)
    ensures
        choices@.len() == 0 ==> r == Err::<String, ReviewError>(ReviewError::NoResponse),
        choices@.len() > 0 ==> r is Ok && r->Ok_0@ == choices@[0]@,
{
    if choices.len() == 0 {
        Err(ReviewError::NoResponse)
    } else {
        Ok(choices[0].clone())
    }
}

/// The payload of a run of the hosting tool: its standard output on success,
/// its standard error as an error otherwise.
pub fn tool_result(out: ToolOutput) -> (r: Result<String, ReviewError>)
    ensures
        out.success ==> r == Ok::<String, ReviewError>(out.stdout),
        !out.success ==> r == Err::<String, ReviewError>(ReviewError::ExternalTool(out.stderr)),
{
    if out.success {
        Ok(out.stdout)
    } else {
        Err(ReviewError::ExternalTool(out.stderr))
    }
}

} // verus!
