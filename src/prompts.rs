use vstd::prelude::*;

use vstd::string::StringExecFns;

verus! {

/// The system message that opens every review request.
pub const REVIEW_SYSTEM_PROMPT: &'static str = "You are an experienced software engineer reviewing a pull request. Point out bugs, risky changes and unclear code, and suggest concrete improvements. Be concise and specific.";

/// The context of a review; `{title}` and `{commit_messages}` are filled in.
pub const REVIEW_PROMPT: &'static str = "The pull request is titled \"{title}\". Its commits are:\n{commit_messages}\n\nThe messages around this one hold the diff of each changed file.";

/// The last message of a review request.
pub const REVIEW_PROMPT_FINISH: &'static str = "Write the review now, file by file, as a Markdown list of findings.";

/// The message that carries one file's diff; `{diff}` is filled in.
pub const DIFF_PROMPT: &'static str = "Diff of one file:\n```diff\n{diff}```";

/// The prompt for a short description; `{prompt}` and `{commit_messages}` are
/// filled in.
pub const DESCRIBE_PR_PROMPT: &'static str = "Write a short description for a pull request titled \"{prompt}\" with these commits:\n{commit_messages}\n\nDescription:";

/// The five templates of the review and description prompts.
pub struct Prompts {
    pub system: String,
    pub review: String,
    pub finish: String,
    pub diff: String,
    pub describe: String,
}

impl Prompts {
    /// The templates that the library ships with.
    pub fn standard() -> (r: Prompts)
        ensures
            r.system@ == REVIEW_SYSTEM_PROMPT@,
            r.review@ == REVIEW_PROMPT@,
            r.finish@ == REVIEW_PROMPT_FINISH@,
            r.diff@ == DIFF_PROMPT@,
            r.describe@ == DESCRIBE_PR_PROMPT@,
    {
        Prompts {
            system: String::from_str(REVIEW_SYSTEM_PROMPT),
            review: String::from_str(REVIEW_PROMPT),
            finish: String::from_str(REVIEW_PROMPT_FINISH),
            diff: String::from_str(DIFF_PROMPT),
            describe: String::from_str(DESCRIBE_PR_PROMPT),
        }
    }
}

} // verus!
