//! Pipeline records as the dashboard shows them, and the rules around
//! fetching them: where to ask, and what to make of the reply.

use vstd::prelude::*;
use vstd::string::StringExecFns;
use crate::text::{decimal, decimal_string};

verus! {

/// State of a pipeline run.
#[derive(Debug, Clone, Copy, PartialEq, Eq, Structural)]
pub enum PipelineStatus {
    Created,
    WaitingForResource,
    Preparing,
    Pending,
    Running,
    Success,
    Failed,
    Canceled,
    Skipped,
    Manual,
    Scheduled,
}

/// What started a pipeline.
#[derive(Debug, Clone, Copy, PartialEq, Eq, Structural)]
pub enum PipelineSource {
    Push,
    Web,
    Trigger,
    Schedule,
    Api,
    External,
    Pipeline,
    Chat,
    WebIde,
    MergeRequestEvent,
    ExternalPullRequestEvent,
    ParentPipeline,
    OnDemandDastScan,
    OnDemandDastValidation,
    SecurityOrchestrationPolicy,
}

impl PipelineStatus {
    /// The name of the status as the table shows it.
    pub open spec fn name(self) -> Seq<char> {
        match self {
            PipelineStatus::Created => "Created"@,
            PipelineStatus::WaitingForResource => "WaitingForResource"@,
            PipelineStatus::Preparing => "Preparing"@,
            PipelineStatus::Pending => "Pending"@,
            PipelineStatus::Running => "Running"@,
            PipelineStatus::Success => "Success"@,
            PipelineStatus::Failed => "Failed"@,
            PipelineStatus::Canceled => "Canceled"@,
            PipelineStatus::Skipped => "Skipped"@,
            PipelineStatus::Manual => "Manual"@,
            PipelineStatus::Scheduled => "Scheduled"@,
        }
    }

    /// The name of the status: the variant's name, letter for letter.
    pub fn to_string(&self) -> (name: String)
        ensures
            name@ == self.name(),
    {
        let name: &'static str = match self {
            PipelineStatus::Created => "Created",
            PipelineStatus::WaitingForResource => "WaitingForResource",
            PipelineStatus::Preparing => "Preparing",
            PipelineStatus::Pending => "Pending",
            PipelineStatus::Running => "Running",
            PipelineStatus::Success => "Success",
            PipelineStatus::Failed => "Failed",
            PipelineStatus::Canceled => "Canceled",
            PipelineStatus::Skipped => "Skipped",
            PipelineStatus::Manual => "Manual",
            PipelineStatus::Scheduled => "Scheduled",
        };
        String::from_str(name)
    }
}

impl PipelineSource {
    /// The name of the source as the table shows it.
    pub open spec fn name(self) -> Seq<char> {
        match self {
            PipelineSource::Push => "Push"@,
            PipelineSource::Web => "Web"@,
            PipelineSource::Trigger => "Trigger"@,
            PipelineSource::Schedule => "Schedule"@,
            PipelineSource::Api => "Api"@,
            PipelineSource::External => "External"@,
            PipelineSource::Pipeline => "Pipeline"@,
            PipelineSource::Chat => "Chat"@,
            PipelineSource::WebIde => "WebIde"@,
            PipelineSource::MergeRequestEvent => "MergeRequestEvent"@,
            PipelineSource::ExternalPullRequestEvent => "ExternalPullRequestEvent"@,
            PipelineSource::ParentPipeline => "ParentPipeline"@,
            PipelineSource::OnDemandDastScan => "OnDemandDastScan"@,
            PipelineSource::OnDemandDastValidation => "OnDemandDastValidation"@,
            PipelineSource::SecurityOrchestrationPolicy => "SecurityOrchestrationPolicy"@,
        }
    }

    /// The name of the source: the variant's name, letter for letter.
    pub fn to_string(&self) -> (name: String)
        ensures
            name@ == self.name(),
    {
        let name: &'static str = match self {
            PipelineSource::Push => "Push",
            PipelineSource::Web => "Web",
            PipelineSource::Trigger => "Trigger",
            PipelineSource::Schedule => "Schedule",
            PipelineSource::Api => "Api",
            PipelineSource::External => "External",
            PipelineSource::Pipeline => "Pipeline",
            PipelineSource::Chat => "Chat",
            PipelineSource::WebIde => "WebIde",
            PipelineSource::MergeRequestEvent => "MergeRequestEvent",
            PipelineSource::ExternalPullRequestEvent => "ExternalPullRequestEvent",
            PipelineSource::ParentPipeline => "ParentPipeline",
            PipelineSource::OnDemandDastScan => "OnDemandDastScan",
            PipelineSource::OnDemandDastValidation => "OnDemandDastValidation",
            PipelineSource::SecurityOrchestrationPolicy => "SecurityOrchestrationPolicy",
        };
        String::from_str(name)
    }
}

/// A point in time: whole seconds since 1970-01-01 00:00:00 UTC, and the
/// nanoseconds past that second.
#[derive(Debug, Clone, Copy, PartialEq, Eq, Structural)]
pub struct Timestamp {
    pub secs: i64,
    pub nanos: u32,
}

/// The pattern in which instants are written: year, month and day with
/// hyphens, a space, and hours, minutes and seconds with colons.
pub open spec fn date_time_pattern() -> Seq<char> {
    "%Y-%m-%d %H:%M:%S"@
}

/// The instant `secs` seconds and `nanos` nanoseconds after the start of
/// 1970 in UTC, written after `pattern`; `None` for an instant that the
/// calendar library cannot hold.
pub uninterp spec fn utc_text(secs: i64, nanos: u32, pattern: Seq<char>) -> Option<Seq<char>>;

/// Makes the instant with `chrono::DateTime::from_timestamp` and writes it
/// with `chrono::DateTime::format`. The contract names the text; it is
/// `None` exactly where `from_timestamp` refuses the seconds or the
/// nanoseconds. Only the pattern of dates and times is let in, which
/// `format` can always write.
#[verifier::external_body]
fn format_utc(at: Timestamp, pattern: &str) -> (text: Option<String>)
    requires
        pattern@ == date_time_pattern(),
    ensures
        match text {
            Some(written) => utc_text(at.secs, at.nanos, pattern@) == Some(written@),
            None => utc_text(at.secs, at.nanos, pattern@) is None,
        },
{
    let instant = chrono::DateTime::<chrono::Utc>::from_timestamp(at.secs, at.nanos)?;
    Some(instant.format(pattern).to_string())
}

/// What a table cell shows for a written instant: the text, or nothing
/// where there is none.
pub open spec fn text_or_blank(text: Option<Seq<char>>) -> Seq<char> {
    match text {
        Some(written) => written,
        None => Seq::<char>::empty(),
    }
}

/// The cell for a written instant: the text, or an empty cell where the
/// instant could not be written.
pub fn cell_text(text: Option<String>) -> (cell: String)
    ensures
        cell@ == text_or_blank(text.deep_view()),
{
    match text {
        Some(written) => written,
        None => String::new(),
    }
}

impl Timestamp {
    /// What a table cell shows for this instant.
    pub open spec fn shown(self) -> Seq<char> {
        text_or_blank(utc_text(self.secs, self.nanos, date_time_pattern()))
    }

    /// The date and time in UTC for a table cell; empty for an instant out
    /// of the calendar's range.
    pub fn to_cell(&self) -> (cell: String)
        ensures
            cell@ == self.shown(),
    {
        cell_text(format_utc(*self, "%Y-%m-%d %H:%M:%S"))
    }
}

/// One pipeline as the server reports it.
#[derive(Debug)]
#[non_exhaustive]
pub struct GitlabPipeline {
    pub id: u32,
    pub status: PipelineStatus,
    pub source: PipelineSource,
    pub git_ref: String,
    pub web_url: String,
    pub created_at: Timestamp,
    pub updated_at: Timestamp,
}

/// What a [`GitlabPipeline`] holds, with its texts as sequences of
/// characters.
pub struct PipelineView {
    pub id: u32,
    pub status: PipelineStatus,
    pub source: PipelineSource,
    pub git_ref: Seq<char>,
    pub web_url: Seq<char>,
    pub created_at: Timestamp,
    pub updated_at: Timestamp,
}

impl View for GitlabPipeline {
    type V = PipelineView;

    open spec fn view(&self) -> PipelineView {
        PipelineView {
            id: self.id,
            status: self.status,
            source: self.source,
            git_ref: self.git_ref@,
            web_url: self.web_url@,
            created_at: self.created_at,
            updated_at: self.updated_at,
        }
    }
}

impl DeepView for GitlabPipeline {
    type V = PipelineView;

    open spec fn deep_view(&self) -> PipelineView {
        self@
    }
}

impl GitlabPipeline {
    /// A pipeline record with the given fields.
    pub fn new(
        id: u32,
        status: PipelineStatus,
        source: PipelineSource,
        git_ref: String,
        web_url: String,
        created_at: Timestamp,
        updated_at: Timestamp,
    ) -> (pipeline: GitlabPipeline)
        ensures
            pipeline@ == (PipelineView {
                id,
                status,
                source,
                git_ref: git_ref@,
                web_url: web_url@,
                created_at,
                updated_at,
            }),
    {
        GitlabPipeline { id, status, source, git_ref, web_url, created_at, updated_at }
    }
}

/// The pipelines of the selected project: not asked for yet, the list from
/// the last fetch that succeeded, or the message of the failure.
#[derive(Debug)]
pub enum PipelinesData {
    Loading,
    Loaded(Vec<GitlabPipeline>),
    Errors(String),
}

/// What a [`PipelinesData`] holds.
pub enum PipelinesDataView {
    Loading,
    Loaded(Seq<PipelineView>),
    Errors(Seq<char>),
}

impl View for PipelinesData {
    type V = PipelinesDataView;

    open spec fn view(&self) -> PipelinesDataView {
        match self {
            PipelinesData::Loading => PipelinesDataView::Loading,
            PipelinesData::Loaded(pipelines) => PipelinesDataView::Loaded(pipelines.deep_view()),
            PipelinesData::Errors(message) => PipelinesDataView::Errors(message@),
        }
    }
}

impl Default for PipelinesData {
    fn default() -> (data: PipelinesData)
        ensures
            data@ == PipelinesDataView::Loading,
    {
        PipelinesData::Loading
    }
}

/// Where to ask for the pipelines of a project.
#[derive(Debug)]
pub struct FetchRequest {
    /// The address of the project's pipelines.
    pub url: String,
    /// The value of the `per_page` query parameter.
    pub per_page: String,
}

/// The address of the pipelines of `gitlab_project` on the server at
/// `gitlab_url`.
pub open spec fn pipelines_url(gitlab_url: Seq<char>, gitlab_project: Seq<char>) -> Seq<char> {
    gitlab_url + "/projects/"@ + gitlab_project + "/pipelines"@
}

/// The request for at most `pagination_limit` pipelines of `gitlab_project`.
pub fn fetch_request(gitlab_url: &str, gitlab_project: &str, pagination_limit: usize) -> (request:
    FetchRequest)
    ensures
        request.url@ == pipelines_url(gitlab_url@, gitlab_project@),
        request.per_page@ == decimal(pagination_limit as nat),
{
    let mut url: String = String::from_str(gitlab_url);
    url.append("/projects/");
    url.append(gitlab_project);
    url.append("/pipelines");
    FetchRequest { url, per_page: decimal_string(pagination_limit) }
}

/// What came back for a [`FetchRequest`].
#[derive(Debug)]
pub enum FetchReply {
    /// No reply was had: the access token was missing, or the request could
    /// not be sent. The text says which.
    Failed(String),
    /// The server answered. `status` is the status line's number, `reason`
    /// the status as text, and `body` the pipelines read from the reply, or
    /// why they could not be read.
    Answered { status: u16, reason: String, body: Result<Vec<GitlabPipeline>, String> },
}

/// Whether an HTTP status stands for success: the numbers 200 to 299.
pub open spec fn is_success(status: u16) -> bool {
    200 <= status < 300
}

/// Whether `status` stands for success. Only the body of a successful
/// reply is read.
pub fn succeeded(status: u16) -> (yes: bool)
    ensures
        yes == is_success(status),
{
    200 <= status && status < 300
}

/// The message for a reply whose status is not a success.
pub open spec fn refusal(reason: Seq<char>) -> Seq<char> {
    "Failed to fetch pipelines: "@ + reason
}

/// What a reply amounts to: the pipelines, or the message of the failure.
pub open spec fn outcome_of(reply: FetchReply) -> Result<Seq<PipelineView>, Seq<char>> {
    match reply {
        FetchReply::Failed(message) => Err(message@),
        FetchReply::Answered { status, reason, body } => if is_success(status) {
            match body {
                Ok(pipelines) => Ok(pipelines.deep_view()),
                Err(message) => Err(message@),
            }
        } else {
            Err(refusal(reason@))
        },
    }
}

/// The view of a fetch outcome.
pub open spec fn outcome_view(outcome: Result<Vec<GitlabPipeline>, String>) -> Result<
    Seq<PipelineView>,
    Seq<char>,
> {
    match outcome {
        Ok(pipelines) => Ok(pipelines.deep_view()),
        Err(message) => Err(message@),
    }
}

/// Reads a reply: the pipelines where the server answered with success and
/// they could be read, else the failure's message. A status other than
/// success is reported as such, whatever the body held.
pub fn fetch_outcome(reply: FetchReply) -> (outcome: Result<Vec<GitlabPipeline>, String>)
    ensures
        outcome_view(outcome) == outcome_of(reply),
{
    match reply {
        FetchReply::Failed(message) => Err(message),
        FetchReply::Answered { status, reason, body } => {
            if succeeded(status) {
                body
            } else {
                let mut message: String = String::from_str("Failed to fetch pipelines: ");
                message.append(reason.as_str());
                Err(message)
            }
        },
    }
}

} // verus!
