//! Whole runs: what the machine prints and asks for over a sequence of
//! events, and the laws that hold of every run.

use crate::line::LineView;
use crate::messages::{
    build_banner, build_failed_notice, build_not_started_notice, build_succeeded_notice, catalog,
    test_banner,
};
use crate::orchestrator::{ActionView, EventView, OrchestratorView, Phase};
use crate::stage::{
    outcome_from_cache, outcome_of, InvocationView, ProcessReportView, Stage, StageOutcomeView,
    BUILD_TOOL,
};
use vstd::prelude::*;

verus! {

/// The machine after `events` were handed in, in order.
pub open spec fn state_after(start: OrchestratorView, events: Seq<EventView>) -> OrchestratorView
    decreases events.len(),
{
    if events.len() == 0 {
        start
    } else {
        state_after(start.after(events.first()), events.drop_first())
    }
}

/// The actions that the machine asked for while `events` were handed in,
/// in order. An event out of turn is answered with no action.
pub open spec fn actions_of(start: OrchestratorView, events: Seq<EventView>) -> Seq<ActionView>
    decreases events.len(),
{
    if events.len() == 0 {
        Seq::empty()
    } else {
        let rest = actions_of(start.after(events.first()), events.drop_first());
        if start.accepts(events.first()) {
            seq![start.transition(events.first()).action] + rest
        } else {
            rest
        }
    }
}

/// The lines that the machine printed while `events` were handed in, in
/// order. An event out of turn prints nothing.
pub open spec fn transcript_of(start: OrchestratorView, events: Seq<EventView>) -> Seq<LineView>
    decreases events.len(),
{
    if events.len() == 0 {
        Seq::empty()
    } else {
        let rest = transcript_of(start.after(events.first()), events.drop_first());
        if start.accepts(events.first()) {
            start.transition(events.first()).lines + rest
        } else {
            rest
        }
    }
}

/// Whether `action` asks to start the command of `stage`.
pub open spec fn starts(action: ActionView, stage: Stage) -> bool {
    action matches ActionView::Run { stage: started, .. } && started == stage
}

/// Whether none of `actions` asks to start the command of `stage`.
pub open spec fn never_starts(actions: Seq<ActionView>, stage: Stage) -> bool {
    forall|i: int| 0 <= i < actions.len() ==> !starts(#[trigger] actions[i], stage)
}

/// Whether the run is over in `phase`.
pub open spec fn is_over(phase: Phase) -> bool {
    phase == Phase::Succeeded || phase == Phase::Failed
}

/// The events of a whole run as an orderly caller hands them in: the start,
/// the look at the cache, the end of the build command where it was run,
/// and the end of the test command where the build stage succeeded.
pub open spec fn script(
    cache_exists: bool,
    build: ProcessReportView,
    test: ProcessReportView,
) -> Seq<EventView> {
    let probe = seq![EventView::Start, EventView::CacheProbed { exists: cache_exists }];
    if cache_exists {
        probe + seq![EventView::StageEnded { report: test }]
    } else if outcome_of(build) is Succeeded {
        probe + seq![
            EventView::StageEnded { report: build },
            EventView::StageEnded { report: test },
        ]
    } else {
        probe + seq![EventView::StageEnded { report: build }]
    }
}

/// How far a run has come: every phase is further along than the ones
/// before it, and the two ends of a run are equally far.
pub open spec fn progress(phase: Phase) -> nat {
    match phase {
        Phase::Init => 0,
        Phase::Building { invoked: false } => 1,
        Phase::Building { invoked: true } => 2,
        Phase::Testing => 3,
        Phase::Succeeded => 4,
        Phase::Failed => 4,
    }
}

/// A run is a single pass: every event that the machine accepts moves it
/// forward, so that it answers at most four events, and none in a phase
/// that it has left.
pub proof fn law_single_pass(start: OrchestratorView, events: Seq<EventView>)
    ensures
        progress(start.phase) + actions_of(start, events).len() <= progress(
            state_after(start, events).phase,
        ) <= 4,
    decreases events.len(),
{
    if events.len() > 0 {
        law_single_pass(start.after(events.first()), events.drop_first());
    }
}

/// Once a run is over, it stays over: whatever is handed in, the machine
/// keeps its state, prints nothing, and asks for nothing.
pub proof fn law_over_is_final(ended: OrchestratorView, events: Seq<EventView>)
    requires
        is_over(ended.phase),
    ensures
        state_after(ended, events) == ended,
        actions_of(ended, events) == Seq::<ActionView>::empty(),
        transcript_of(ended, events) == Seq::<LineView>::empty(),
    decreases events.len(),
{
    if events.len() > 0 {
        law_over_is_final(ended, events.drop_first());
    }
}

/// Once the cache has been looked at, no event makes the machine ask for
/// the build command.
proof fn lemma_build_starts_only_at_probe(at: OrchestratorView, events: Seq<EventView>)
    requires
        at.phase != Phase::Init,
        at.phase != (Phase::Building { invoked: false }),
    ensures
        never_starts(actions_of(at, events), Stage::Build),
    decreases events.len(),
{
    if events.len() > 0 {
        lemma_build_starts_only_at_probe(at.after(events.first()), events.drop_first());
    }
}

/// Once the test stage has been reached, no event makes the machine ask
/// for the test command.
proof fn lemma_test_starts_only_before_testing(at: OrchestratorView, events: Seq<EventView>)
    requires
        at.phase == Phase::Testing || is_over(at.phase),
    ensures
        never_starts(actions_of(at, events), Stage::Test),
    decreases events.len(),
{
    if events.len() > 0 {
        lemma_test_starts_only_before_testing(at.after(events.first()), events.drop_first());
    }
}

/// Nothing is retried: once the machine has asked for the command of a
/// stage, it never asks for that command again.
pub proof fn law_no_retry(
    at: OrchestratorView,
    event: EventView,
    later: Seq<EventView>,
    stage: Stage,
)
    requires
        at.accepts(event),
        starts(at.transition(event).action, stage),
    ensures
        never_starts(actions_of(at.after(event), later), stage),
{
    match stage {
        Stage::Build => lemma_build_starts_only_at_probe(at.after(event), later),
        Stage::Test => lemma_test_starts_only_before_testing(at.after(event), later),
    }
}

/// Cache skip: where the cache directory exists, the build stage counts as
/// succeeded without its command. The machine goes on to the test stage,
/// and never asks for the build command in the rest of the run.
pub proof fn law_cache_skip(at: OrchestratorView, later: Seq<EventView>)
    requires
        at.phase == (Phase::Building { invoked: false }),
    ensures
        outcome_from_cache(Stage::Build, true) == Some(StageOutcomeView::Succeeded),
        at.accepts(EventView::CacheProbed { exists: true }),
        at.transition(EventView::CacheProbed { exists: true }).phase == Phase::Testing,
        at.transition(EventView::CacheProbed { exists: true }).action == at.run(Stage::Test),
        never_starts(
            actions_of(at, seq![EventView::CacheProbed { exists: true }] + later),
            Stage::Build,
        ),
{
    let probed = EventView::CacheProbed { exists: true };
    let events = seq![probed] + later;
    assert(events.first() == probed);
    assert(events.drop_first() == later);
    lemma_build_starts_only_at_probe(at.after(probed), later);
}

/// Cache miss: where the cache directory does not exist, the machine asks
/// for the build command, with the build tool's arguments for a release
/// build into the cache directory and the project directory as working
/// directory, and asks for it exactly once in the run.
pub proof fn law_cache_miss(at: OrchestratorView, later: Seq<EventView>)
    requires
        at.phase == (Phase::Building { invoked: false }),
    ensures
        at.accepts(EventView::CacheProbed { exists: false }),
        at.transition(EventView::CacheProbed { exists: false }).action == (ActionView::Run {
            stage: Stage::Build,
            invocation: InvocationView {
                program: BUILD_TOOL@,
                args: seq!["build"@, "--release"@, "--target-dir"@, at.cache_dir],
                working_dir: at.project_dir,
            },
        }),
        ({
            let actions = actions_of(at, seq![EventView::CacheProbed { exists: false }] + later);
            &&& actions.len() >= 1
            &&& starts(actions[0], Stage::Build)
            &&& never_starts(actions.drop_first(), Stage::Build)
        }),
{
    let probed = EventView::CacheProbed { exists: false };
    let events = seq![probed] + later;
    assert(events.first() == probed);
    assert(events.drop_first() == later);
    lemma_build_starts_only_at_probe(at.after(probed), later);
    let actions = actions_of(at, events);
    assert(actions.drop_first() == actions_of(at.after(probed), later));
}

/// The test command is asked for exactly where the build stage has
/// succeeded: by skipping over an existing cache, or by its command.
pub proof fn law_test_follows_successful_build(at: OrchestratorView, event: EventView)
    requires
        at.accepts(event),
    ensures
        starts(at.transition(event).action, Stage::Test) <==> {
            ||| at.phase == (Phase::Building { invoked: false }) && event == (EventView::CacheProbed {
                exists: true,
            })
            ||| at.phase == (Phase::Building { invoked: true }) && (event matches EventView::StageEnded {
                report,
            } && outcome_of(report) is Succeeded)
        },
        starts(at.transition(event).action, Stage::Test) ==> at.transition(event).action == at.run(
            Stage::Test,
        ),
{
}

/// Short circuit: a build stage that failed, or whose command could not
/// be started, ends the run. The notice printed is the build's own, not
/// the failure group of the catalog; and whatever is handed in afterwards,
/// nothing more is printed and no command is asked for.
pub proof fn law_short_circuit(
    at: OrchestratorView,
    report: ProcessReportView,
    later: Seq<EventView>,
)
    requires
        at.phase == (Phase::Building { invoked: true }),
        !(outcome_of(report) is Succeeded),
    ensures
        at.accepts(EventView::StageEnded { report }),
        at.transition(EventView::StageEnded { report }).phase == Phase::Failed,
        at.transition(EventView::StageEnded { report }).action == ActionView::Finish,
        at.transition(EventView::StageEnded { report }).lines == build_stopped_notice(
            outcome_of(report),
        ),
        at.transition(EventView::StageEnded { report }).lines != catalog().on_failure,
        actions_of(at, seq![EventView::StageEnded { report }] + later) == seq![ActionView::Finish],
        transcript_of(at, seq![EventView::StageEnded { report }] + later) == at.transition(
            EventView::StageEnded { report },
        ).lines,
{
    let ended = EventView::StageEnded { report };
    let events = seq![ended] + later;
    assert(events.first() == ended);
    assert(events.drop_first() == later);
    law_over_is_final(at.after(ended), later);
    assert(build_failed_notice().len() == 2);
    assert(catalog().on_failure.len() == 4);
    match outcome_of(report) {
        StageOutcomeView::SpawnFailed { cause } => {
            assert(build_not_started_notice(cause).len() == 5);
        },
        _ => {},
    }
}

/// The build's own notice for an outcome that ends the run.
pub open spec fn build_stopped_notice(outcome: StageOutcomeView) -> Seq<LineView> {
    match outcome {
        StageOutcomeView::SpawnFailed { cause } => build_not_started_notice(cause),
        _ => build_failed_notice(),
    }
}

/// What a sequence of events gives is what its first event gives, followed
/// by what the others give from the state after it.
proof fn lemma_first_then_rest(start: OrchestratorView, first: EventView, rest: Seq<EventView>)
    ensures
        state_after(start, seq![first] + rest) == state_after(start.after(first), rest),
        actions_of(start, seq![first] + rest) == if start.accepts(first) {
            seq![start.transition(first).action] + actions_of(start.after(first), rest)
        } else {
            actions_of(start.after(first), rest)
        },
        transcript_of(start, seq![first] + rest) == if start.accepts(first) {
            start.transition(first).lines + transcript_of(start.after(first), rest)
        } else {
            transcript_of(start.after(first), rest)
        },
{
    let events = seq![first] + rest;
    assert(events.first() == first);
    assert(events.drop_first() == rest);
}

/// A whole run from start to end. It opens with the init group of the
/// catalog and closes with exactly one of three blocks: the build's own
/// notice where the build stage did not succeed, the failure group where
/// the test stage did not succeed, and the success group where both did.
/// The run ends succeeded in the last case only.
pub proof fn law_whole_run(
    start: OrchestratorView,
    cache_exists: bool,
    build: ProcessReportView,
    test: ProcessReportView,
)
    requires
        start.phase == Phase::Init,
    ensures
        ({
            let events = script(cache_exists, build, test);
            let built = cache_exists || outcome_of(build) is Succeeded;
            let passed = outcome_of(test) is Succeeded;
            let opening = if cache_exists {
                start.catalog.on_init + test_banner()
            } else if built {
                start.catalog.on_init + build_banner() + build_succeeded_notice() + test_banner()
            } else {
                start.catalog.on_init + build_banner()
            };
            let closing = if !built {
                build_stopped_notice(outcome_of(build))
            } else if passed {
                start.catalog.on_success
            } else {
                start.catalog.on_failure
            };
            &&& transcript_of(start, events) == opening + closing
            &&& state_after(start, events).phase == if built && passed {
                Phase::Succeeded
            } else {
                Phase::Failed
            }
        }),
{
    let none = Seq::<EventView>::empty();
    let probed = EventView::CacheProbed { exists: cache_exists };
    let build_ended = EventView::StageEnded { report: build };
    let test_ended = EventView::StageEnded { report: test };
    let events = script(cache_exists, build, test);
    let probing = start.after(EventView::Start);
    let probed_state = probing.after(probed);
    if cache_exists {
        let tail = seq![test_ended] + none;
        assert(events =~= seq![EventView::Start] + (seq![probed] + tail));
        lemma_first_then_rest(start, EventView::Start, seq![probed] + tail);
        lemma_first_then_rest(probing, probed, tail);
        lemma_first_then_rest(probed_state, test_ended, none);
        assert(transcript_of(start, events) =~= start.catalog.on_init + test_banner()
            + probed_state.transition(test_ended).lines);
    } else if outcome_of(build) is Succeeded {
        let built_state = probed_state.after(build_ended);
        let tail = seq![build_ended] + (seq![test_ended] + none);
        assert(events =~= seq![EventView::Start] + (seq![probed] + tail));
        lemma_first_then_rest(start, EventView::Start, seq![probed] + tail);
        lemma_first_then_rest(probing, probed, tail);
        lemma_first_then_rest(probed_state, build_ended, seq![test_ended] + none);
        lemma_first_then_rest(built_state, test_ended, none);
        assert(transcript_of(start, events) =~= start.catalog.on_init + build_banner()
            + build_succeeded_notice() + test_banner() + built_state.transition(
            test_ended,
        ).lines);
    } else {
        let tail = seq![build_ended] + none;
        assert(events =~= seq![EventView::Start] + (seq![probed] + tail));
        lemma_first_then_rest(start, EventView::Start, seq![probed] + tail);
        lemma_first_then_rest(probing, probed, tail);
        lemma_first_then_rest(probed_state, build_ended, none);
        assert(transcript_of(start, events) =~= start.catalog.on_init + build_banner()
            + build_stopped_notice(outcome_of(build)));
    }
}

} // verus!
