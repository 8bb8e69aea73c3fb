use azure_pipelines_runs::client::{
    interpret_status_response, interpret_trigger_response, PipelineError, RunStatusSnapshot,
    RunTriggerResult,
};
use azure_pipelines_runs::config::Config;
use azure_pipelines_runs::orchestrator::{
    tag_is_terminal, Action, Event, Orchestrator, Phase, Report, POLL_INTERVAL,
};
use azure_pipelines_runs::request::{MalformedParametersError, RunRequestBody};

fn config(template_parameters: &str, watch: bool) -> Config {
    Config {
        organization: "org".to_string(),
        project: "proj".to_string(),
        pipeline_id: 5,
        template_parameters: template_parameters.to_string(),
        watch,
    }
}

fn created(run_id: u32) -> RunTriggerResult {
    RunTriggerResult { pipeline_name: "build".to_string(), pipeline_id: 5, run_id }
}

fn polling(run_id: u32) -> Orchestrator {
    Orchestrator { phase: Phase::Polling, watch: true, run_id }
}

fn answered(tag: &str) -> Event {
    Event::PollAnswered(Ok(RunStatusSnapshot { state: tag.to_string() }))
}

fn progress(tag: &str, run_id: u32) -> Action {
    Action::Poll {
        report: Some(Report::Progress(tag.to_string())),
        run_id,
        delay: POLL_INTERVAL,
    }
}

#[test]
fn poll_interval_is_ten() {
    assert_eq!(POLL_INTERVAL, 10);
}

#[test]
fn terminal_tags_are_three_exact_words() {
    for tag in ["completed", "canceled", "failed"] {
        assert!(tag_is_terminal(&tag.to_string()));
    }
    for tag in ["Completed", "cancelled", "FAILED", "running", "inProgress", "", "completed ", "succeeded"] {
        assert!(!tag_is_terminal(&tag.to_string()), "{}", tag);
    }
}

#[test]
fn start_asks_for_the_request_to_be_submitted() {
    let (state, action) = Orchestrator::start(&config("{\"a\":1,\"b\":\"x\"}", true));
    assert_eq!(state, Orchestrator { phase: Phase::Triggering, watch: true, run_id: 0 });
    assert_eq!(
        action,
        Action::Submit(RunRequestBody { template_parameters: "{\"a\":1,\"b\":\"x\"}".to_string() })
    );
}

#[test]
fn start_without_parameters_sends_an_empty_object() {
    for watch in [false, true] {
        let (state, action) = Orchestrator::start(&config("", watch));
        assert_eq!(state.phase, Phase::Triggering);
        assert_eq!(state.watch, watch);
        assert_eq!(action, Action::Submit(RunRequestBody { template_parameters: "{}".to_string() }));
    }
}

#[test]
fn malformed_parameters_fail_before_anything_is_sent() {
    let (state, action) = Orchestrator::start(&config("[1,2,3]", true));
    assert_eq!(state.phase, Phase::Failed);
    assert_eq!(
        action,
        Action::Abort(PipelineError::MalformedParameters(MalformedParametersError::NotAnObject))
    );
    let (state, action) = Orchestrator::start(&config("not json", false));
    assert_eq!(state.phase, Phase::Failed);
    assert_eq!(
        action,
        Action::Abort(PipelineError::MalformedParameters(MalformedParametersError::InvalidJson))
    );
}

#[test]
fn watch_ends_at_the_third_tick() {
    let events = vec![answered("running"), answered("running"), answered("completed")];
    let (state, actions) = polling(9).replay(events);
    assert_eq!(state.phase, Phase::Terminal);
    assert_eq!(
        actions,
        vec![
            progress("running", 9),
            progress("running", 9),
            Action::Stop { report: Some(Report::Finished("completed".to_string())) },
        ]
    );
    let lines: Vec<String> = actions
        .iter()
        .map(|action| match action {
            Action::Poll { report: Some(report), .. } => report.line(),
            Action::Stop { report: Some(report) } => report.line(),
            _ => String::new(),
        })
        .collect();
    assert_eq!(
        lines,
        vec![
            "Pipeline status: running".to_string(),
            "Pipeline status: running".to_string(),
            "Pipeline has finished with status: completed".to_string(),
        ]
    );
}

#[test]
fn each_terminal_tag_ends_the_watch() {
    for tag in ["completed", "canceled", "failed"] {
        let (state, action) = polling(1).step(answered(tag));
        assert_eq!(state.phase, Phase::Terminal);
        assert_eq!(action, Action::Stop { report: Some(Report::Finished(tag.to_string())) });
    }
}

#[test]
fn watch_goes_on_until_cancelled() {
    let mut state = polling(77);
    let tags = ["notStarted", "queued", "running", "inProgress", "Completed", "unknown", ""];
    let mut ticks = 0;
    for round in 0..50 {
        let tag = tags[round % tags.len()];
        let (next, action) = state.step(answered(tag));
        assert_eq!(next, polling(77));
        assert_eq!(action, progress(tag, 77));
        state = next;
        ticks += 1;
    }
    assert_eq!(ticks, 50);
    let (state, action) = state.step(Event::Cancelled);
    assert_eq!(state.phase, Phase::Terminal);
    assert_eq!(action, Action::Stop { report: Some(Report::Cancelled) });
    assert_eq!(
        Report::Cancelled.line(),
        "Watch cancelled before the pipeline finished"
    );
}

#[test]
fn failed_poll_does_not_end_the_watch() {
    let events = vec![
        answered("running"),
        Event::PollAnswered(Err(PipelineError::StatusFetch { status: None })),
        answered("completed"),
    ];
    let (state, actions) = polling(3).replay(events);
    assert_eq!(state.phase, Phase::Terminal);
    assert_eq!(actions.len(), 3);
    assert_eq!(
        actions[1],
        Action::Poll { report: Some(Report::PollFailed(None)), run_id: 3, delay: 10 }
    );
    assert_eq!(
        actions[2],
        Action::Stop { report: Some(Report::Finished("completed".to_string())) }
    );
    let failures = actions
        .iter()
        .filter(|action| matches!(action, Action::Poll { report: Some(Report::PollFailed(_)), .. }))
        .count();
    assert_eq!(failures, 1);
}

#[test]
fn poll_refused_by_the_service_is_reported_and_retried() {
    let outcome = interpret_status_response(503, None);
    let (state, action) = polling(3).step(Event::PollAnswered(outcome));
    assert_eq!(state, polling(3));
    assert_eq!(
        action,
        Action::Poll { report: Some(Report::PollFailed(Some(503))), run_id: 3, delay: 10 }
    );
    assert_eq!(
        Report::PollFailed(Some(503)).line(),
        "Failed to retrieve pipeline status: 503"
    );
}

#[test]
fn undecodable_poll_answer_is_fatal() {
    let outcome = interpret_status_response(200, None);
    let (state, action) = polling(3).step(Event::PollAnswered(outcome));
    assert_eq!(state.phase, Phase::Failed);
    assert_eq!(action, Action::Abort(PipelineError::ResponseDecode));
}

#[test]
fn rejected_trigger_fails_and_never_polls() {
    let (state, _) = Orchestrator::start(&config("", true));
    let outcome = interpret_trigger_response(403, None, Some("forbidden".to_string()));
    let events = vec![
        Event::TriggerAnswered(outcome),
        Event::Reported,
        answered("running"),
        Event::Cancelled,
        answered("completed"),
    ];
    let (state, actions) = state.replay(events);
    assert_eq!(state.phase, Phase::Failed);
    assert_eq!(
        actions,
        vec![
            Action::Abort(PipelineError::TriggerRejected {
                status: 403,
                message: "forbidden".to_string()
            }),
            Action::Ignore,
            Action::Ignore,
            Action::Ignore,
            Action::Ignore,
        ]
    );
    assert!(!actions.iter().any(|action| matches!(action, Action::Poll { .. })));
}

#[test]
fn undecodable_trigger_answer_is_fatal() {
    let (state, _) = Orchestrator::start(&config("", true));
    let (state, action) = state.step(Event::TriggerAnswered(interpret_trigger_response(200, None, None)));
    assert_eq!(state.phase, Phase::Failed);
    assert_eq!(action, Action::Abort(PipelineError::ResponseDecode));
}

#[test]
fn unwatched_run_ends_after_the_report() {
    let (state, _) = Orchestrator::start(&config("", false));
    let outcome = interpret_trigger_response(200, Some(created(31)), None);
    let (state, actions) = state.replay(vec![Event::TriggerAnswered(outcome), Event::Reported]);
    assert_eq!(state, Orchestrator { phase: Phase::Terminal, watch: false, run_id: 31 });
    assert_eq!(actions, vec![Action::Announce(created(31)), Action::Stop { report: None }]);
}

#[test]
fn watched_run_polls_at_once_after_the_report() {
    let (state, _) = Orchestrator::start(&config("{}", true));
    let (state, action) = state.step(Event::TriggerAnswered(Ok(created(8))));
    assert_eq!(state, Orchestrator { phase: Phase::Triggered, watch: true, run_id: 8 });
    assert_eq!(action, Action::Announce(created(8)));
    let (state, action) = state.step(Event::Reported);
    assert_eq!(state, polling(8));
    assert_eq!(action, Action::Poll { report: None, run_id: 8, delay: 0 });
}

#[test]
fn events_out_of_place_are_ignored() {
    let triggering = Orchestrator { phase: Phase::Triggering, watch: true, run_id: 0 };
    assert_eq!(triggering.step(answered("completed")), (triggering, Action::Ignore));
    assert_eq!(triggering.step(Event::Cancelled), (triggering, Action::Ignore));
    let triggered = Orchestrator { phase: Phase::Triggered, watch: true, run_id: 2 };
    assert_eq!(triggered.step(answered("completed")), (triggered, Action::Ignore));
    assert_eq!(polling(2).step(Event::Reported), (polling(2), Action::Ignore));
    let terminal = Orchestrator { phase: Phase::Terminal, watch: true, run_id: 2 };
    assert_eq!(terminal.step(answered("running")), (terminal, Action::Ignore));
    let (state, actions) = polling(4).replay(Vec::new());
    assert_eq!(state, polling(4));
    assert!(actions.is_empty());
}
