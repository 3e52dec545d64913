use gitlab_tui::gitlab::{
    cell_text, fetch_outcome, fetch_request, succeeded, FetchReply, GitlabPipeline,
    PipelineSource, PipelineStatus, PipelinesData, Timestamp,
};

fn pipeline(id: u32) -> GitlabPipeline {
    GitlabPipeline::new(
        id,
        PipelineStatus::Success,
        PipelineSource::Push,
        String::from("main"),
        String::from("https://gitlab.example/p/1"),
        Timestamp { secs: 1_431_648_000, nanos: 0 },
        Timestamp { secs: 1_431_648_061, nanos: 5 },
    )
}

#[test]
fn request_names_the_projects_pipelines() {
    let request = fetch_request("https://gitlab.example/api/v4", "42", 25);
    assert_eq!(request.url, "https://gitlab.example/api/v4/projects/42/pipelines");
    assert_eq!(request.per_page, "25");
}

#[test]
fn request_takes_its_parts_as_they_are() {
    let request = fetch_request("", "group%2Fproject", 1);
    assert_eq!(request.url, "/projects/group%2Fproject/pipelines");
    assert_eq!(request.per_page, "1");
}

#[test]
fn a_successful_reply_gives_its_pipelines() {
    let reply = FetchReply::Answered {
        status: 200,
        reason: String::from("200 OK"),
        body: Ok(vec![pipeline(1), pipeline(2)]),
    };
    let pipelines = fetch_outcome(reply).expect("pipelines");
    assert_eq!(pipelines.len(), 2);
    assert_eq!(pipelines[0].id, 1);
    assert_eq!(pipelines[1].id, 2);
}

#[test]
fn every_status_from_200_to_299_is_a_success() {
    for status in [200u16, 201, 204, 299] {
        let reply =
            FetchReply::Answered { status, reason: String::from("ok"), body: Ok(Vec::new()) };
        assert!(fetch_outcome(reply).is_ok());
    }
}

#[test]
fn a_refusal_is_reported_with_its_status() {
    for (status, reason) in [(404u16, "404 Not Found"), (199, "199"), (300, "300 Multiple Choices")] {
        let reply = FetchReply::Answered {
            status,
            reason: String::from(reason),
            body: Ok(vec![pipeline(1)]),
        };
        let message = fetch_outcome(reply).err().expect("refused");
        assert_eq!(message, format!("Failed to fetch pipelines: {}", reason));
    }
}

#[test]
fn an_unreadable_body_is_reported_as_it_was_read() {
    let reply = FetchReply::Answered {
        status: 200,
        reason: String::from("200 OK"),
        body: Err(String::from("expected value at line 1 column 1")),
    };
    assert_eq!(
        fetch_outcome(reply).err(),
        Some(String::from("expected value at line 1 column 1"))
    );
}

#[test]
fn a_request_that_was_not_sent_is_reported_as_it_failed() {
    let reply = FetchReply::Failed(String::from("environment variable not found"));
    assert_eq!(fetch_outcome(reply).err(), Some(String::from("environment variable not found")));
}

#[test]
fn statuses_are_named_after_their_variants() {
    assert_eq!(PipelineStatus::Created.to_string(), "Created");
    assert_eq!(PipelineStatus::WaitingForResource.to_string(), "WaitingForResource");
    assert_eq!(PipelineStatus::Preparing.to_string(), "Preparing");
    assert_eq!(PipelineStatus::Pending.to_string(), "Pending");
    assert_eq!(PipelineStatus::Running.to_string(), "Running");
    assert_eq!(PipelineStatus::Success.to_string(), "Success");
    assert_eq!(PipelineStatus::Failed.to_string(), "Failed");
    assert_eq!(PipelineStatus::Canceled.to_string(), "Canceled");
    assert_eq!(PipelineStatus::Skipped.to_string(), "Skipped");
    assert_eq!(PipelineStatus::Manual.to_string(), "Manual");
    assert_eq!(PipelineStatus::Scheduled.to_string(), "Scheduled");
}

#[test]
fn sources_are_named_after_their_variants() {
    assert_eq!(PipelineSource::Push.to_string(), "Push");
    assert_eq!(PipelineSource::Web.to_string(), "Web");
    assert_eq!(PipelineSource::Trigger.to_string(), "Trigger");
    assert_eq!(PipelineSource::Schedule.to_string(), "Schedule");
    assert_eq!(PipelineSource::Api.to_string(), "Api");
    assert_eq!(PipelineSource::External.to_string(), "External");
    assert_eq!(PipelineSource::Pipeline.to_string(), "Pipeline");
    assert_eq!(PipelineSource::Chat.to_string(), "Chat");
    assert_eq!(PipelineSource::WebIde.to_string(), "WebIde");
    assert_eq!(PipelineSource::MergeRequestEvent.to_string(), "MergeRequestEvent");
    assert_eq!(PipelineSource::ExternalPullRequestEvent.to_string(), "ExternalPullRequestEvent");
    assert_eq!(PipelineSource::ParentPipeline.to_string(), "ParentPipeline");
    assert_eq!(PipelineSource::OnDemandDastScan.to_string(), "OnDemandDastScan");
    assert_eq!(PipelineSource::OnDemandDastValidation.to_string(), "OnDemandDastValidation");
    assert_eq!(
        PipelineSource::SecurityOrchestrationPolicy.to_string(),
        "SecurityOrchestrationPolicy"
    );
}

#[test]
fn an_instant_is_written_as_date_and_time_in_utc() {
    assert_eq!(Timestamp { secs: 0, nanos: 0 }.to_cell(), "1970-01-01 00:00:00");
    assert_eq!(Timestamp { secs: 1_431_648_000, nanos: 0 }.to_cell(), "2015-05-15 00:00:00");
    assert_eq!(Timestamp { secs: 1_431_648_061, nanos: 999_999_999 }.to_cell(), "2015-05-15 00:01:01");
    assert_eq!(Timestamp { secs: -1, nanos: 0 }.to_cell(), "1969-12-31 23:59:59");
    assert_eq!(Timestamp { secs: 951_782_400, nanos: 0 }.to_cell(), "2000-02-29 00:00:00");
}

#[test]
fn an_instant_out_of_range_leaves_the_cell_empty() {
    assert_eq!(Timestamp { secs: i64::MAX, nanos: 0 }.to_cell(), "");
    assert_eq!(Timestamp { secs: i64::MIN, nanos: 0 }.to_cell(), "");
    assert_eq!(Timestamp { secs: 0, nanos: 2_000_000_000 }.to_cell(), "");
}

#[test]
fn cell_text_is_the_text_or_nothing() {
    assert_eq!(cell_text(Some(String::from("2015-05-15 00:00:00"))), "2015-05-15 00:00:00");
    assert_eq!(cell_text(None), "");
}

#[test]
fn pipelines_start_as_loading() {
    assert!(matches!(PipelinesData::default(), PipelinesData::Loading));
}

#[test]
fn success_is_the_range_from_200_to_299() {
    assert!(!succeeded(0));
    assert!(!succeeded(199));
    assert!(succeeded(200));
    assert!(succeeded(299));
    assert!(!succeeded(300));
    assert!(!succeeded(u16::MAX));
}
