use pr_reviewer::model::{
    Candidate, PrAuthor, PrCommit, PrInfo, PromptMessage, ReviewError, Role, ToolOutput,
};
use pr_reviewer::prompts::Prompts;
use pr_reviewer::review::{
    assemble_review_messages, describe_prompt, generate_diff_messages, join_headlines,
    review_context, select_description, select_review_response, tool_result,
};
use pr_reviewer::session::{Action, DescribeState, Event, ReviewState};

fn prompts() -> Prompts {
    Prompts {
        system: "SYS".to_string(),
        review: "T={title} C={commit_messages}".to_string(),
        finish: "FIN".to_string(),
        diff: "D:{diff}".to_string(),
        describe: "P={prompt} C={commit_messages}".to_string(),
    }
}

fn commit(headline: &str) -> PrCommit {
    PrCommit {
        authored_date: "2023-01-01T00:00:00Z".to_string(),
        authors: vec![PrAuthor {
            email: "a@example.com".to_string(),
            id: "1".to_string(),
            login: "a".to_string(),
            name: "A".to_string(),
        }],
        committed_date: "2023-01-01T00:00:00Z".to_string(),
        message_body: String::new(),
        message_headline: headline.to_string(),
        oid: "abc".to_string(),
    }
}

fn info(title: &str, headlines: &[&str]) -> PrInfo {
    PrInfo { commits: headlines.iter().map(|h| commit(h)).collect(), title: title.to_string() }
}

fn ok_tool(stdout: &str) -> Event {
    Event::ToolExited(ToolOutput { success: true, stdout: stdout.to_string(), stderr: String::new() })
}

fn failed_tool(stderr: &str) -> Event {
    Event::ToolExited(ToolOutput { success: false, stdout: String::new(), stderr: stderr.to_string() })
}

fn user(s: &str) -> PromptMessage {
    PromptMessage { role: Role::User, content: s.to_string() }
}

fn system(s: &str) -> PromptMessage {
    PromptMessage { role: Role::System, content: s.to_string() }
}

fn review_until_submit(diff: &str, pr: PrInfo) -> Vec<PromptMessage> {
    let p = prompts();
    let (s, a) = ReviewState::start();
    assert_eq!(a, Action::FetchDiff);
    let (s, a) = s.step(ok_tool(diff), &p);
    assert_eq!(a, Action::FetchMetadata);
    let (s, a) = s.step(ok_tool("{}"), &p);
    assert_eq!(a, Action::ParseMetadata("{}".to_string()));
    let (s, a) = s.step(Event::MetadataParsed(Some(pr)), &p);
    assert_eq!(s, ReviewState::AwaitAnswer);
    match a {
        Action::SubmitChat(ms) => ms,
        other => panic!("expected a chat request, got {:?}", other),
    }
}

#[test]
fn review_sequence_repeats_first_chunk() {
    let diff = "diff --git a/x b/x\n+1\ndiff --git a/y b/y\n+2\n";
    let ms = review_until_submit(diff, info("Title", &["one", "two"]));
    let c1 = user("D:diff --git a/x b/x\n+1\n");
    let c2 = user("D:diff --git a/y b/y\n+2\n");
    assert_eq!(
        ms,
        vec![system("SYS"), c1.clone(), user("T=Title C=one\ntwo"), c1, c2, user("FIN")]
    );
}

#[test]
fn end_to_end_single_chunk_review() {
    let diff = "diff --git a/f b/f\n+x\n";
    let p = prompts();
    assert_eq!(generate_diff_messages(diff, &p.diff).len(), 1);
    let ms = review_until_submit(diff, info("Fix bug", &["Fix null check"]));
    let chunk = user("D:diff --git a/f b/f\n+x\n");
    assert_eq!(
        ms,
        vec![system("SYS"), chunk.clone(), user("T=Fix bug C=Fix null check"), chunk, user("FIN")]
    );
}

#[test]
fn review_with_standard_prompts_fills_placeholders() {
    let p = Prompts::standard();
    let ctx = review_context(&p.review, &info("Fix bug", &["Fix null check"]));
    assert!(ctx.contains("Fix bug"));
    assert!(ctx.contains("Fix null check"));
    assert!(!ctx.contains("{title}"));
    assert!(!ctx.contains("{commit_messages}"));
    let d = generate_diff_messages("diff --git a/f b/f\n+x\n", &p.diff);
    assert!(d[0].content.contains("+x\n"));
    assert!(!d[0].content.contains("{diff}"));
}

#[test]
fn failed_diff_fetch_ends_review() {
    let p = prompts();
    let (s, _) = ReviewState::start();
    let (s, a) = s.step(failed_tool("no such PR"), &p);
    assert_eq!(s, ReviewState::Done);
    assert_eq!(a, Action::Finish(Err(ReviewError::ExternalTool("no such PR".to_string()))));
    let (_, a) = s.step(Event::ChatAnswered(Ok(vec![])), &p);
    assert_eq!(a, Action::Finish(Err(ReviewError::UnexpectedEvent)));
}

#[test]
fn failed_metadata_fetch_ends_review() {
    let p = prompts();
    let (s, _) = ReviewState::start();
    let (s, _) = s.step(ok_tool("diff --git a/f b/f\n"), &p);
    let (s, a) = s.step(failed_tool("auth required"), &p);
    assert_eq!(s, ReviewState::Done);
    assert_eq!(a, Action::Finish(Err(ReviewError::ExternalTool("auth required".to_string()))));
}

#[test]
fn failed_metadata_fetch_ends_description() {
    let p = prompts();
    let (s, a) = DescribeState::start();
    assert_eq!(a, Action::FetchMetadata);
    let (s, a) = s.step(failed_tool("boom"), &p);
    assert_eq!(s, DescribeState::Done);
    assert_eq!(a, Action::Finish(Err(ReviewError::ExternalTool("boom".to_string()))));
}

#[test]
fn malformed_metadata_ends_review() {
    let p = prompts();
    let (s, _) = ReviewState::start();
    let (s, _) = s.step(ok_tool("diff --git a/f b/f\n"), &p);
    let (s, _) = s.step(ok_tool("not json"), &p);
    let (s, a) = s.step(Event::MetadataParsed(None), &p);
    assert_eq!(s, ReviewState::Done);
    assert_eq!(a, Action::Finish(Err(ReviewError::MetadataParse)));
}

#[test]
fn empty_diff_ends_review() {
    let p = prompts();
    let (s, _) = ReviewState::start();
    let (s, a) = s.step(ok_tool(""), &p);
    assert_eq!(s, ReviewState::Done);
    assert_eq!(a, Action::Finish(Err(ReviewError::EmptyDiff)));
}

#[test]
fn only_system_candidates_give_no_response() {
    let p = prompts();
    let s = ReviewState::AwaitAnswer;
    let cs = vec![
        Candidate { role: Role::System, content: "x".to_string() },
        Candidate { role: Role::System, content: "y".to_string() },
    ];
    let (s, a) = s.step(Event::ChatAnswered(Ok(cs)), &p);
    assert_eq!(s, ReviewState::Done);
    assert_eq!(a, Action::Finish(Err(ReviewError::NoResponse)));
}

#[test]
fn first_non_system_candidate_is_the_review() {
    let cs = vec![
        Candidate { role: Role::System, content: "skip".to_string() },
        Candidate { role: Role::User, content: "the review".to_string() },
        Candidate { role: Role::User, content: "later".to_string() },
    ];
    assert_eq!(select_review_response(&cs), Ok("the review".to_string()));
    assert_eq!(select_review_response(&vec![]), Err(ReviewError::NoResponse));
}

#[test]
fn completion_failure_is_passed_through() {
    let p = prompts();
    let (_, a) = ReviewState::AwaitAnswer.step(Event::ChatAnswered(Err("timeout".to_string())), &p);
    assert_eq!(a, Action::Finish(Err(ReviewError::CompletionService("timeout".to_string()))));
    let (_, a) =
        DescribeState::AwaitAnswer.step(Event::CompletionAnswered(Err("down".to_string())), &p);
    assert_eq!(a, Action::Finish(Err(ReviewError::CompletionService("down".to_string()))));
}

#[test]
fn description_flow() {
    let p = prompts();
    let (s, _) = DescribeState::start();
    let (s, a) = s.step(ok_tool("{}"), &p);
    assert_eq!(a, Action::ParseMetadata("{}".to_string()));
    let (s, a) = s.step(Event::MetadataParsed(Some(info("Add X", &["a", "b"]))), &p);
    assert_eq!(a, Action::SubmitCompletion("P=Add X C=a\nb".to_string()));
    let (s, a) = s.step(Event::CompletionAnswered(Ok(vec!["desc".to_string(), "x".to_string()])), &p);
    assert_eq!(s, DescribeState::Done);
    assert_eq!(a, Action::Finish(Ok("desc".to_string())));
}

#[test]
fn description_without_candidates_fails() {
    assert_eq!(select_description(&vec![]), Err(ReviewError::NoResponse));
    assert_eq!(select_description(&vec!["a".to_string()]), Ok("a".to_string()));
}

#[test]
fn headlines_are_joined_by_newlines() {
    assert_eq!(join_headlines(&info("t", &[])), "");
    assert_eq!(join_headlines(&info("t", &["a"])), "a");
    assert_eq!(join_headlines(&info("t", &["a", "b", "c"])), "a\nb\nc");
}

#[test]
fn describe_prompt_fills_title_and_commits() {
    assert_eq!(describe_prompt("{prompt}|{commit_messages}|{title}", &info("T", &["x", "y"])), "T|x\ny|{title}");
}

#[test]
fn assembled_messages_follow_fixed_order() {
    let p = prompts();
    let d = vec![user("c1")];
    let ms = assemble_review_messages(&p, &d, "ctx".to_string());
    assert_eq!(ms, vec![system("SYS"), user("c1"), user("ctx"), user("c1"), user("FIN")]);
}

#[test]
fn tool_result_gives_output_or_error() {
    let ok = ToolOutput { success: true, stdout: "out".to_string(), stderr: "err".to_string() };
    assert_eq!(tool_result(ok), Ok("out".to_string()));
    let bad = ToolOutput { success: false, stdout: "out".to_string(), stderr: "err".to_string() };
    assert_eq!(tool_result(bad), Err(ReviewError::ExternalTool("err".to_string())));
}

#[test]
fn error_messages_are_readable() {
    assert_eq!(ReviewError::NoResponse.message(), "No response from AI");
    assert_eq!(ReviewError::ExternalTool("e".to_string()).message(), "e");
}
