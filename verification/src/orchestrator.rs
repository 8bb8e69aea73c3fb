//! The state machine of one run: trigger, report, and, where asked to watch,
//! poll until the run is over.
//!
//! The machine decides and never waits or sends. The program that drives it
//! performs each action it is handed and feeds back what happened.

use vstd::prelude::*;
use vstd::string::*;
use crate::client::{
    is_success_status, is_trigger_outcome, PipelineError, RunStatusSnapshot, RunTriggerResult,
};
use crate::config::Config;
use crate::request::{build_spec, RequestBodyBuilder, RunRequestBody};

verus! {

/// How long the driver waits between two polls.
pub const POLL_INTERVAL: u64 = 10;

/// Where a run stands.
#[derive(Clone, Copy, Debug, PartialEq, Eq, Structural)]
pub enum Phase {
    /// The run request is on its way.
    Triggering,
    /// The run was created and is being reported.
    Triggered,
    /// The run is watched.
    Polling,
    /// The work ended well.
    Terminal,
    /// The work ended with a fatal error.
    Failed,
}

/// The state of the machine. `run_id` is the created run's identifier from
/// `Triggered` on.
#[derive(Clone, Copy, Debug, PartialEq, Eq, Structural)]
pub struct Orchestrator {
    pub phase: Phase,
    pub watch: bool,
    pub run_id: u32,
}

/// What the driver feeds to the machine.
#[derive(Debug, PartialEq, Eq)]
pub enum Event {
    /// The trigger was answered, or refused.
    TriggerAnswered(Result<RunTriggerResult, PipelineError>),
    /// The created run was reported to the caller.
    Reported,
    /// A poll was answered, or failed.
    PollAnswered(Result<RunStatusSnapshot, PipelineError>),
    /// The caller asked the watch to end.
    Cancelled,
}

/// One line of progress for the caller.
#[derive(Clone, Debug, PartialEq, Eq)]
pub enum Report {
    /// The run goes on, in the state given.
    Progress(String),
    /// The run is over, in the state given.
    Finished(String),
    /// A poll failed; the watch goes on.
    PollFailed(Option<u16>),
    /// The watch ended on the caller's request.
    Cancelled,
}

/// What the machine asks the driver to do next.
#[derive(Clone, Debug, PartialEq, Eq)]
pub enum Action {
    /// Send the run request with this body, then feed `TriggerAnswered`.
    Submit(RunRequestBody),
    /// Report the created run, then feed `Reported`.
    Announce(RunTriggerResult),
    /// Report, wait `delay` time units, poll run `run_id`, then feed
    /// `PollAnswered`.
    Poll { report: Option<Report>, run_id: u32, delay: u64 },
    /// Report and end with success.
    Stop { report: Option<Report> },
    /// End with this error.
    Abort(PipelineError),
    /// Nothing: the event means nothing in this state.
    Ignore,
}

/// Whether a state tag says that the run is over. Tags are compared as they
/// are, letter for letter.
pub open spec fn is_terminal_tag(tag: Seq<char>) -> bool {
    tag == "completed"@ || tag == "canceled"@ || tag == "failed"@
}

/// Tells whether a state tag says that the run is over.
pub fn tag_is_terminal(tag: &String) -> (r: bool)
    ensures
        r == is_terminal_tag(tag@),
{
    let completed = String::from_str("completed");
    let canceled = String::from_str("canceled");
    let failed = String::from_str("failed");
    *tag == completed || *tag == canceled || *tag == failed
}

impl Orchestrator {
    /// The state with another phase.
    pub open spec fn at(self, phase: Phase) -> Orchestrator {
        Orchestrator { phase, watch: self.watch, run_id: self.run_id }
    }

    /// The state after an event, and the action that it calls for.
    pub open spec fn step_spec(self, event: Event) -> (Orchestrator, Action) {
        match self.phase {
            Phase::Triggering => match event {
                Event::TriggerAnswered(Ok(result)) => (
                    Orchestrator {
                        phase: Phase::Triggered,
                        watch: self.watch,
                        run_id: result.run_id,
                    },
                    Action::Announce(result),
                ),
                Event::TriggerAnswered(Err(error)) => (self.at(Phase::Failed), Action::Abort(error)),
                _ => (self, Action::Ignore),
            },
            Phase::Triggered => match event {
                Event::Reported => if self.watch {
                    (
                        self.at(Phase::Polling),
                        Action::Poll { report: None, run_id: self.run_id, delay: 0 },
                    )
                } else {
                    (self.at(Phase::Terminal), Action::Stop { report: None })
                },
                _ => (self, Action::Ignore),
            },
            Phase::Polling => match event {
                Event::PollAnswered(Ok(snapshot)) => if is_terminal_tag(snapshot.state@) {
                    (
                        self.at(Phase::Terminal),
                        Action::Stop { report: Some(Report::Finished(snapshot.state)) },
                    )
                } else {
                    (
                        self,
                        Action::Poll {
                            report: Some(Report::Progress(snapshot.state)),
                            run_id: self.run_id,
                            delay: POLL_INTERVAL,
                        },
                    )
                },
                Event::PollAnswered(Err(PipelineError::StatusFetch { status })) => (
                    self,
                    Action::Poll {
                        report: Some(Report::PollFailed(status)),
                        run_id: self.run_id,
                        delay: POLL_INTERVAL,
                    },
                ),
                Event::PollAnswered(Err(error)) => (self.at(Phase::Failed), Action::Abort(error)),
                Event::Cancelled => (
                    self.at(Phase::Terminal),
                    Action::Stop { report: Some(Report::Cancelled) },
                ),
                _ => (self, Action::Ignore),
            },
            Phase::Terminal => (self, Action::Ignore),
            Phase::Failed => (self, Action::Ignore),
        }
    }

    /// The state after a sequence of events.
    pub open spec fn run(self, events: Seq<Event>) -> Orchestrator
        decreases events.len(),
    {
        if events.len() == 0 {
            self
        } else {
            self.run(events.drop_last()).step_spec(events.last()).0
        }
    }

    /// The action that the `i`-th of a sequence of events calls for.
    pub open spec fn action_at(self, events: Seq<Event>, i: int) -> Action
        recommends
            0 <= i < events.len(),
    {
        self.run(events.take(i)).step_spec(events[i]).1
    }

    /// Begins a run: builds the request body from the template parameters.
    /// Where they are malformed the machine fails at once and nothing is
    /// sent; else it asks for the request to be submitted.
    pub fn start(config: &Config) -> (r: (Orchestrator, Action))
        ensures
            r.0.watch == config.watch,
            r.0.run_id == 0,
            match build_spec(config.template_parameters@) {
                Ok(text) => {
                    &&& r.0.phase == Phase::Triggering
                    &&& r.1 matches Action::Submit(body)
                    &&& body.template_parameters@ == text
                },
                Err(e) => {
                    &&& r.0.phase == Phase::Failed
                    &&& r.1 == Action::Abort(PipelineError::MalformedParameters(e))
                },
            },
    {
        match RequestBodyBuilder::build(config.template_parameters.as_str()) {
            Ok(body) => (
                Orchestrator { phase: Phase::Triggering, watch: config.watch, run_id: 0 },
                Action::Submit(body),
            ),
            Err(e) => (
                Orchestrator { phase: Phase::Failed, watch: config.watch, run_id: 0 },
                Action::Abort(PipelineError::MalformedParameters(e)),
            ),
        }
    }

    /// Takes a sequence of events one after the other: gives the state after
    /// the last of them, and the action that each of them called for.
    pub fn replay(self, events: Vec<Event>) -> (r: (Orchestrator, Vec<Action>))
        ensures
            r.0 == self.run(events@),
            r.1@.len() == events@.len(),
            forall|i: int|
                0 <= i < events@.len() ==> #[trigger] r.1@[i] == self.action_at(events@, i),
    {
        let ghost all = events@;
        let mut rest = events;
        let mut state = self;
        let mut actions: Vec<Action> = Vec::new();
        assert(all.take(0) =~= Seq::<Event>::empty());
        while rest.len() > 0
            invariant
                actions@.len() + rest@.len() == all.len(),
                rest@ == all.subrange(actions@.len() as int, all.len() as int),
                state == self.run(all.take(actions@.len() as int)),
                forall|i: int|
                    0 <= i < actions@.len() ==> #[trigger] actions@[i] == self.action_at(all, i),
            decreases rest.len(),
        {
            let ghost k = actions@.len() as int;
            let event = rest.remove(0);
            let (next, action) = state.step(event);
            proof {
                assert(event == all[k]);
                assert(all.take(k + 1).drop_last() =~= all.take(k));
                assert(all.take(k + 1).last() == all[k]);
                assert(rest@ =~= all.subrange(k + 1, all.len() as int));
            }
            state = next;
            actions.push(action);
        }
        assert(all.take(all.len() as int) =~= all);
        (state, actions)
    }

    /// Takes one event: gives the next state and the action to perform.
    pub fn step(self, event: Event) -> (r: (Orchestrator, Action))
        ensures
            r == self.step_spec(event),
    {
        match self.phase {
            Phase::Triggering => match event {
                Event::TriggerAnswered(Ok(result)) => (
                    Orchestrator {
                        phase: Phase::Triggered,
                        watch: self.watch,
                        run_id: result.run_id,
                    },
                    Action::Announce(result),
                ),
                Event::TriggerAnswered(Err(error)) => (
                    Orchestrator { phase: Phase::Failed, watch: self.watch, run_id: self.run_id },
                    Action::Abort(error),
                ),
                _ => (self, Action::Ignore),
            },
            Phase::Triggered => match event {
                Event::Reported => if self.watch {
                    (
                        Orchestrator {
                            phase: Phase::Polling,
                            watch: self.watch,
                            run_id: self.run_id,
                        },
                        Action::Poll { report: None, run_id: self.run_id, delay: 0 },
                    )
                } else {
                    (
                        Orchestrator {
                            phase: Phase::Terminal,
                            watch: self.watch,
                            run_id: self.run_id,
                        },
                        Action::Stop { report: None },
                    )
                },
                _ => (self, Action::Ignore),
            },
            Phase::Polling => match event {
                Event::PollAnswered(Ok(snapshot)) => if tag_is_terminal(&snapshot.state) {
                    (
                        Orchestrator {
                            phase: Phase::Terminal,
                            watch: self.watch,
                            run_id: self.run_id,
                        },
                        Action::Stop { report: Some(Report::Finished(snapshot.state)) },
                    )
                } else {
                    (
                        self,
                        Action::Poll {
                            report: Some(Report::Progress(snapshot.state)),
                            run_id: self.run_id,
                            delay: POLL_INTERVAL,
                        },
                    )
                },
                Event::PollAnswered(Err(PipelineError::StatusFetch { status })) => (
                    self,
                    Action::Poll {
                        report: Some(Report::PollFailed(status)),
                        run_id: self.run_id,
                        delay: POLL_INTERVAL,
                    },
                ),
                Event::PollAnswered(Err(error)) => (
                    Orchestrator { phase: Phase::Failed, watch: self.watch, run_id: self.run_id },
                    Action::Abort(error),
                ),
                Event::Cancelled => (
                    Orchestrator { phase: Phase::Terminal, watch: self.watch, run_id: self.run_id },
                    Action::Stop { report: Some(Report::Cancelled) },
                ),
                _ => (self, Action::Ignore),
            },
            Phase::Terminal => (self, Action::Ignore),
            Phase::Failed => (self, Action::Ignore),
        }
    }
}

/// Whether an event leaves a watch going: a poll answered with a tag that is
/// not terminal, or a poll that failed to fetch.
pub open spec fn keeps_polling(event: Event) -> bool {
    match event {
        Event::PollAnswered(Ok(snapshot)) => !is_terminal_tag(snapshot.state@),
        Event::PollAnswered(Err(PipelineError::StatusFetch { .. })) => true,
        _ => false,
    }
}

/// Whether an event is a poll answered with a terminal tag.
pub open spec fn ends_watch(event: Event) -> bool {
    event matches Event::PollAnswered(Ok(snapshot)) && is_terminal_tag(snapshot.state@)
}

/// A watch that sees only tags that are not terminal, and polls that failed
/// to fetch, never stops: after any number of such events the machine is
/// still polling the same run, and each of them asked for another poll
/// after the fixed interval.
pub proof fn lemma_watch_goes_on(state: Orchestrator, events: Seq<Event>)
    requires
        state.phase == Phase::Polling,
        forall|i: int| 0 <= i < events.len() ==> keeps_polling(#[trigger] events[i]),
    ensures
        state.run(events) == state,
        forall|i: int|
            0 <= i < events.len() ==> {
                &&& #[trigger] state.action_at(events, i) matches Action::Poll {
                    run_id,
                    delay,
                    ..
                }
                &&& run_id == state.run_id
                &&& delay == POLL_INTERVAL
            },
    decreases events.len(),
{
    if events.len() > 0 {
        lemma_watch_goes_on(state, events.drop_last());
        assert(keeps_polling(events.last()));
        let n = events.len() - 1;
        assert(events.take(n) =~= events.drop_last());
        assert forall|i: int| 0 <= i < events.len() implies {
            &&& #[trigger] state.action_at(events, i) matches Action::Poll { run_id, delay, .. }
            &&& run_id == state.run_id
            &&& delay == POLL_INTERVAL
        } by {
            if i < n {
                assert(events.take(i) =~= events.drop_last().take(i));
                assert(events[i] == events.drop_last()[i]);
                assert(state.action_at(events, i) == state.action_at(events.drop_last(), i));
            } else {
                assert(keeps_polling(events[i]));
            }
        }
    }
}

/// The first terminal tag ends a watch: after any number of events that
/// leave the watch going, a poll answered with a terminal tag brings the
/// machine to `Terminal` and asks the driver to report that tag and stop.
pub proof fn lemma_terminal_tag_ends_watch(state: Orchestrator, before: Seq<Event>, last: Event)
    requires
        state.phase == Phase::Polling,
        forall|i: int| 0 <= i < before.len() ==> keeps_polling(#[trigger] before[i]),
        ends_watch(last),
    ensures
        state.run(before.push(last)).phase == Phase::Terminal,
        state.action_at(before.push(last), before.len() as int) matches Action::Stop {
            report: Some(Report::Finished(tag)),
        } && last matches Event::PollAnswered(Ok(snapshot)) && tag == snapshot.state,
{
    lemma_watch_goes_on(state, before);
    let events = before.push(last);
    assert(events.drop_last() =~= before);
    assert(events.take(before.len() as int) =~= before);
}

/// `Terminal` and `Failed` are final: whatever events follow, the state
/// stays as it is and no action is asked for.
pub proof fn lemma_ended_stays_ended(state: Orchestrator, events: Seq<Event>)
    requires
        state.phase == Phase::Terminal || state.phase == Phase::Failed,
    ensures
        state.run(events) == state,
        forall|i: int|
            0 <= i < events.len() ==> #[trigger] state.action_at(events, i) == Action::Ignore,
    decreases events.len(),
{
    if events.len() > 0 {
        lemma_ended_stays_ended(state, events.drop_last());
        let n = events.len() - 1;
        assert(events.take(n) =~= events.drop_last());
        assert forall|i: int| 0 <= i < events.len() implies #[trigger] state.action_at(events, i)
            == Action::Ignore by {
            if i < n {
                assert(events.take(i) =~= events.drop_last().take(i));
                assert(events[i] == events.drop_last()[i]);
                assert(state.action_at(events, i) == state.action_at(events.drop_last(), i));
            }
        }
    }
}

/// A trigger that the service answers with a status other than success
/// fails the run and is never followed by a poll: the machine aborts with
/// the rejection, and whatever events follow, it stays `Failed` and asks
/// for nothing.
pub proof fn lemma_rejected_trigger_never_polls(
    state: Orchestrator,
    status: u16,
    decoded: Option<RunTriggerResult>,
    message: Option<String>,
    outcome: Result<RunTriggerResult, PipelineError>,
    later: Seq<Event>,
)
    requires
        state.phase == Phase::Triggering,
        !is_success_status(status),
        is_trigger_outcome(status, decoded, message, outcome),
    ensures
        ({
            let (failed, action) = state.step_spec(Event::TriggerAnswered(outcome));
            &&& failed.phase == Phase::Failed
            &&& action matches Action::Abort(PipelineError::TriggerRejected { status: s, .. })
            &&& s == status
            &&& failed.run(later) == failed
            &&& forall|i: int|
                0 <= i < later.len() ==> #[trigger] failed.action_at(later, i) == Action::Ignore
        }),
{
    let failed = state.step_spec(Event::TriggerAnswered(outcome)).0;
    lemma_ended_stays_ended(failed, later);
}

/// A run that is not watched ends as soon as the created run was reported,
/// without a poll.
pub proof fn lemma_unwatched_run_ends_after_report(state: Orchestrator, result: RunTriggerResult)
    requires
        state.phase == Phase::Triggering,
        !state.watch,
    ensures
        ({
            let events = seq![Event::TriggerAnswered(Ok(result)), Event::Reported];
            &&& state.run(events).phase == Phase::Terminal
            &&& state.action_at(events, 0) == Action::Announce(result)
            &&& state.action_at(events, 1) == (Action::Stop { report: None })
        }),
{
    let events = seq![Event::TriggerAnswered(Ok(result)), Event::Reported];
    let first = seq![Event::TriggerAnswered(Ok(result))];
    assert(events.drop_last() =~= first);
    assert(first.drop_last() =~= Seq::<Event>::empty());
    assert(events.take(0) =~= Seq::<Event>::empty());
    assert(events.take(1) =~= first);
    assert(state.run(Seq::<Event>::empty()) == state);
    assert(state.run(first) == state.step_spec(first.last()).0);
}

} // verus!
