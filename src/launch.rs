use vstd::prelude::*;
use crate::listeners::{
    ListenerKind, ListenerPlan, listener_addr, listener_enabled, plan_listeners,
    planned_listeners,
};
use crate::race::{
    Race, RaceModel, RaceStep, StepModel, UnitOutcome, after_finish, finish_step, indices_except,
    outcome_result, start_step,
};
use crate::settings::LaunchSettings;
use crate::shutdown::{WatcherAction, WatcherModel, after_signal, signal_action};

verus! {

/// The error a launch returns: which listener stopped first, and why.
#[derive(Clone, Debug, PartialEq, Eq)]
pub struct LaunchError {
    pub listener: ListenerKind,
    pub cause: String,
}

/// What a launch begins with: the listeners to start, numbered by their place
/// in `listeners`, the race over them, and the race's first step.
#[derive(Debug)]
pub struct LaunchStart {
    pub listeners: Vec<ListenerPlan>,
    pub race: Race,
    pub step: RaceStep,
}

/// Decides which listeners to start and sets up the race between them.
pub fn start_launch(settings: &LaunchSettings) -> (r: LaunchStart)
    ensures
        r.listeners@ == planned_listeners(*settings),
        r.race@ == (RaceModel {
            units: planned_listeners(*settings).len(),
            settled: planned_listeners(*settings).len() == 0,
        }),
        r.step@ == start_step(planned_listeners(*settings).len()),
{
    let listeners = plan_listeners(settings);
    let (race, step) = Race::new(listeners.len());
    LaunchStart { listeners, race, step }
}

/// The result of a launch whose race `winner` decided with `outcome`.
pub open spec fn launch_result(
    listeners: Seq<ListenerPlan>,
    winner: Option<usize>,
    outcome: UnitOutcome,
) -> Result<(), LaunchError> {
    match outcome {
        UnitOutcome::Completed => Ok(()),
        UnitOutcome::Failed(cause) => Err(
            LaunchError { listener: listeners[winner.unwrap() as int].kind, cause },
        ),
    }
}

/// Turns the deciding outcome of a launch into its result, naming the listener
/// that failed.
pub fn finish_launch(listeners: &Vec<ListenerPlan>, winner: Option<usize>, outcome: UnitOutcome) -> (r:
    Result<(), LaunchError>)
    requires
        outcome is Failed ==> winner is Some && winner.unwrap() < listeners@.len(),
    ensures
        r == launch_result(listeners@, winner, outcome),
{
    match outcome {
        UnitOutcome::Completed => Ok(()),
        UnitOutcome::Failed(cause) => {
            let w = winner.unwrap();
            Err(LaunchError { listener: listeners[w].kind, cause })
        },
    }
}

/// Exactly the enabled listeners start, each at its own address, and none
/// twice.
pub proof fn lemma_only_enabled_listeners_start(s: LaunchSettings)
    ensures
        forall|k: ListenerKind|
            listener_enabled(s, k) <==> exists|i: int|
                0 <= i < planned_listeners(s).len() && #[trigger] planned_listeners(s)[i].kind == k,
        forall|i: int|
            0 <= i < planned_listeners(s).len() ==> #[trigger] planned_listeners(s)[i].addr
                == listener_addr(s, planned_listeners(s)[i].kind),
        forall|i: int, j: int|
            0 <= i < j < planned_listeners(s).len() ==> planned_listeners(s)[i].kind
                != planned_listeners(s)[j].kind,
{
    let p = planned_listeners(s);
    assert forall|k: ListenerKind| listener_enabled(s, k) implies exists|i: int|
        0 <= i < p.len() && #[trigger] p[i].kind == k by {
        let h: int = if s.server.http.enabled { 1 } else { 0 };
        let g: int = if s.server.grpc.enabled { 1 } else { 0 };
        let i: int = match k {
            ListenerKind::Http => 0,
            ListenerKind::Grpc => h,
            ListenerKind::Metrics => h + g,
        };
        assert(p[i].kind == k);
    }
}

/// Successive elements of `indices_except(n, skip)` are the units below `n`
/// but `skip`, each once, in increasing order.
pub proof fn lemma_indices_except(n: nat, skip: int)
    requires
        n <= usize::MAX,
    ensures
        forall|j: usize|
            indices_except(n, skip).contains(j) <==> (j < n && j != skip),
        forall|a: int, b: int|
            0 <= a < b < indices_except(n, skip).len() ==> indices_except(n, skip)[a]
                < indices_except(n, skip)[b],
        forall|a: int|
            0 <= a < indices_except(n, skip).len() ==> indices_except(n, skip)[a] < n,
    decreases n,
{
    if n > 0 {
        lemma_indices_except((n - 1) as nat, skip);
        let rest = indices_except((n - 1) as nat, skip);
        if n - 1 != skip {
            let all = rest.push((n - 1) as usize);
            assert forall|j: usize| all.contains(j) <==> (j < n && j != skip) by {
                if j == n - 1 {
                    assert(all[rest.len() as int] == j);
                }
                if all.contains(j) && j != n - 1 {
                    let a = choose|a: int| 0 <= a < all.len() && all[a] == j;
                    assert(rest[a] == j);
                }
                if rest.contains(j) {
                    let a = choose|a: int| 0 <= a < rest.len() && rest[a] == j;
                    assert(all[a] == j);
                }
            }
        }
    }
}

/// When a listener fails before any other has stopped, the launch returns its
/// error, every other listener is aborted at once, and whatever the others
/// report afterwards is dropped.
pub proof fn lemma_first_failure_decides(n: nat, unit: int, cause: String, later: int, other: UnitOutcome)
    requires
        0 <= unit < n <= usize::MAX,
    ensures
        finish_step(RaceModel { units: n, settled: false }, unit, UnitOutcome::Failed(cause))
            == (StepModel::Finish {
            winner: Some(unit as usize),
            abort: indices_except(n, unit),
            outcome: UnitOutcome::Failed(cause),
        }),
        outcome_result(UnitOutcome::Failed(cause)) == Err::<(), String>(cause),
        forall|j: usize| indices_except(n, unit).contains(j) <==> (j < n && j != unit),
        finish_step(after_finish(RaceModel { units: n, settled: false }), later, other)
            == StepModel::Discard,
{
    lemma_indices_except(n, unit);
}

/// When the shutdown signal fires while all listeners are healthy, a graceful
/// watcher asks its server to stop within its window, and the first listener
/// to complete makes the launch a success.
pub proof fn lemma_graceful_shutdown_succeeds(
    timeout_secs: u64,
    listeners: Seq<ListenerPlan>,
    unit: int,
)
    requires
        0 <= unit < listeners.len(),
    ensures
        signal_action(WatcherModel { graceful: true, timeout_secs, stop_requested: false })
            == (WatcherAction::StopServer { graceful: true, timeout_secs }),
        ({
            let step = finish_step(
                RaceModel { units: listeners.len(), settled: false },
                unit,
                UnitOutcome::Completed,
            );
            step matches StepModel::Finish { winner, outcome, .. } && launch_result(
                listeners,
                winner,
                outcome,
            ) == Ok::<(), LaunchError>(())
        }),
{
}

/// Seeing the shutdown signal a second time changes nothing and does nothing.
pub proof fn lemma_second_signal_has_no_effect(m: WatcherModel)
    ensures
        after_signal(after_signal(m)) == after_signal(m),
        signal_action(after_signal(m)) == WatcherAction::Ignore,
{
}

/// With no listener enabled, a launch starts nothing and succeeds at once.
pub proof fn lemma_nothing_enabled_succeeds_at_once(s: LaunchSettings)
    requires
        !s.server.http.enabled,
        !s.server.grpc.enabled,
        !s.metrics.enabled,
    ensures
        planned_listeners(s).len() == 0,
        start_step(planned_listeners(s).len()) == (StepModel::Finish {
            winner: None,
            abort: Seq::<usize>::empty(),
            outcome: UnitOutcome::Completed,
        }),
        launch_result(planned_listeners(s), None, UnitOutcome::Completed) == Ok::<(), LaunchError>(()),
{
}

} // verus!
