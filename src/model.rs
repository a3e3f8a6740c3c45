use vstd::prelude::*;

use vstd::string::StringExecFns;

verus! {

/// Who speaks in a prompt message or a candidate answer.
#[derive(Clone, Copy, PartialEq, Eq, Structural, Debug)]
pub enum Role {
    System,
    User,
    Assistant,
    Function,
}

/// One role-tagged message of a chat-style request.
#[derive(Clone, Debug, PartialEq, Eq)]
pub struct PromptMessage {
    pub role: Role,
    pub content: String,
}

impl View for PromptMessage {
    type V = (Role, Seq<char>);

    open spec fn view(&self) -> (Role, Seq<char>) {
        (self.role, self.content@)
    }
}

impl PromptMessage {
    /// A user message with the given text.
    pub fn user(content: String) -> (r: PromptMessage)
        ensures
            r@ == (Role::User, content@),
    {
        PromptMessage { role: Role::User, content }
    }

    /// A system message with the given text.
    pub fn system(content: String) -> (r: PromptMessage)
        ensures
            r@ == (Role::System, content@),
    {
        PromptMessage { role: Role::System, content }
    }

    /// A copy of the message.
    pub fn duplicate(&self) -> (r: PromptMessage)
        ensures
            r@ == self@,
    {
        PromptMessage { role: self.role, content: self.content.clone() }
    }
}

/// The role and text of each message, in order.
pub open spec fn message_views(v: Seq<PromptMessage>) -> Seq<(Role, Seq<char>)> {
    v.map_values(|m: PromptMessage| m@)
}

/// One candidate completion of a chat-style request.
#[derive(Debug)]
pub struct Candidate {
    pub role: Role,
    pub content: String,
}

impl View for Candidate {
    type V = (Role, Seq<char>);

    open spec fn view(&self) -> (Role, Seq<char>) {
        (self.role, self.content@)
    }
}

/// An author of a commit.
#[derive(Debug)]
pub struct PrAuthor {
    pub email: String,
    pub id: String,
    pub login: String,
    pub name: String,
}

/// A commit of a pull request.
#[derive(Debug)]
pub struct PrCommit {
    pub authored_date: String,
    pub authors: Vec<PrAuthor>,
    pub committed_date: String,
    pub message_body: String,
    pub message_headline: String,
    pub oid: String,
}

/// The metadata of a pull request: its title and its commits, in the order
/// in which the hosting tool listed them.
#[derive(Debug)]
pub struct PrInfo {
    pub commits: Vec<PrCommit>,
    pub title: String,
}

/// The headline of each commit, in order.
pub open spec fn headlines(info: PrInfo) -> Seq<Seq<char>> {
    info.commits@.map_values(|c: PrCommit| c.message_headline@)
}

/// What a run of the hosting tool gave back.
#[derive(Debug)]
pub struct ToolOutput {
    pub success: bool,
    pub stdout: String,
    pub stderr: String,
}

/// Why a review or a description could not be produced.
#[derive(Debug, PartialEq, Eq)]
pub enum ReviewError {
    /// The hosting tool exited with a failure; its standard error.
    ExternalTool(String),
    /// The metadata payload was not well formed.
    MetadataParse,
    /// The completion service failed; its message.
    CompletionService(String),
    /// The completion service gave no usable candidate.
    NoResponse,
    /// The diff holds no chunk to review.
    EmptyDiff,
    /// An event came that the current step does not wait for.
    UnexpectedEvent,
}

impl ReviewError {
    /// A readable account of the error.
    pub fn message(&self) -> (r: String)
        ensures
            r@ == match self {
                ReviewError::ExternalTool(e) => e@,
                ReviewError::MetadataParse => "Unable to parse PR info"@,
                ReviewError::CompletionService(e) => e@,
                ReviewError::NoResponse => "No response from AI"@,
                ReviewError::EmptyDiff => "The pull request has no diff"@,
                ReviewError::UnexpectedEvent => "Unexpected event"@,
            },
    {
        match self {
            ReviewError::ExternalTool(e) => e.clone(),
            ReviewError::MetadataParse => String::from_str("Unable to parse PR info"),
            ReviewError::CompletionService(e) => e.clone(),
            ReviewError::NoResponse => String::from_str("No response from AI"),
            ReviewError::EmptyDiff => String::from_str("The pull request has no diff"),
            ReviewError::UnexpectedEvent => String::from_str("Unexpected event"),
        }
    }
}

} // verus!
