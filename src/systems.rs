//! The engine-side systems that keep the host's windows in step with the
//! window entities, and the checks on what the engine asks of the host.
use vstd::prelude::*;
use crate::lifecycle::{disconnect_actions, Action, WindowSignal};
use crate::registry::{UIKitWindow, UIKitWindows};

verus! {

broadcast use vstd::std_specs::hash::group_hash_axioms;

/// What to do for a window entity that was added by the engine.
#[derive(Debug, Clone, Copy, PartialEq, Eq, Structural)]
pub enum CreationRequest {
    /// Ask the host to activate a new scene, carrying the entity's id.
    Activate(u64),
    /// The host has no scenes, so no second window can be made.
    Unsupported(u64),
}

/// The requests for the newly added non-primary windows, in order. A window
/// that is already materialized (the host asked for it first) is skipped.
pub open spec fn creation_requests(initialized: Set<u64>, added: Seq<u64>, scenes_supported: bool) -> Seq<
    CreationRequest,
>
    decreases added.len(),
{
    if added.len() == 0 {
        seq![]
    } else {
        let rest = creation_requests(initialized, added.drop_last(), scenes_supported);
        let e = added.last();
        if initialized.contains(e) {
            rest
        } else if scenes_supported {
            rest.push(CreationRequest::Activate(e))
        } else {
            rest.push(CreationRequest::Unsupported(e))
        }
    }
}

/// Requests host windows for the entities whose window was just added.
pub fn create_windows<S, W>(
    added: &Vec<u64>,
    registry: &UIKitWindows<S, W>,
    scenes_supported: bool,
) -> (r: Vec<CreationRequest>)
    ensures
        r@ == creation_requests(registry@.dom(), added@, scenes_supported),
{
    let mut r: Vec<CreationRequest> = Vec::new();
    let mut i: usize = 0;
    while i < added.len()
        invariant
            i <= added@.len(),
            r@ == creation_requests(registry@.dom(), added@.subrange(0, i as int), scenes_supported),
        decreases added@.len() - i,
    {
        let e = added[i];
        proof {
            assert(added@.subrange(0, i as int + 1).drop_last() =~= added@.subrange(0, i as int));
        }
        if !registry.is_initialized(e) {
            if scenes_supported {
                r.push(CreationRequest::Activate(e));
            } else {
                r.push(CreationRequest::Unsupported(e));
            }
        }
        i = i + 1;
    }
    assert(added@.subrange(0, i as int) =~= added@);
    r
}

/// The changed entities that are registered with the host, in order.
pub open spec fn registered_changes(initialized: Set<u64>, changed: Seq<u64>) -> Seq<u64>
    decreases changed.len(),
{
    if changed.len() == 0 {
        seq![]
    } else {
        let rest = registered_changes(initialized, changed.drop_last());
        if initialized.contains(changed.last()) {
            rest.push(changed.last())
        } else {
            rest
        }
    }
}

/// The windows whose changed configuration is to be written to the host. An
/// entity not yet registered is skipped: it is set up when its scene
/// connects.
pub fn changed_windows<S, W>(changed: &Vec<u64>, registry: &UIKitWindows<S, W>) -> (r: Vec<u64>)
    ensures
        r@ == registered_changes(registry@.dom(), changed@),
{
    let mut r: Vec<u64> = Vec::new();
    let mut i: usize = 0;
    while i < changed.len()
        invariant
            i <= changed@.len(),
            r@ == registered_changes(registry@.dom(), changed@.subrange(0, i as int)),
        decreases changed@.len() - i,
    {
        let e = changed[i];
        proof {
            assert(changed@.subrange(0, i as int + 1).drop_last() =~= changed@.subrange(
                0,
                i as int,
            ));
        }
        if registry.is_initialized(e) {
            r.push(e);
        }
        i = i + 1;
    }
    assert(changed@.subrange(0, i as int) =~= changed@);
    r
}

/// The registry after the removed entities are unregistered, and the handles
/// of those that were registered, in order.
pub open spec fn despawned<V>(registry: Map<u64, V>, removed: Seq<u64>) -> (Map<u64, V>, Seq<V>)
    decreases removed.len(),
{
    if removed.len() == 0 {
        (registry, seq![])
    } else {
        let (m, out) = despawned(registry, removed.drop_last());
        let e = removed.last();
        if m.contains_key(e) {
            (m.remove(e), out.push(m[e]))
        } else {
            (m, out)
        }
    }
}

/// Unregisters the windows whose entity lost its window, handing back their
/// handles so that the host can be asked to destroy their scenes. An entity
/// that was not registered is skipped.
pub fn despawn_windows<S, W>(removed: &Vec<u64>, registry: &mut UIKitWindows<S, W>) -> (r: Vec<
    UIKitWindow<S, W>,
>)
    ensures
        (final(registry)@, r@) == despawned(old(registry)@, removed@),
{
    let mut r: Vec<UIKitWindow<S, W>> = Vec::new();
    let mut i: usize = 0;
    while i < removed.len()
        invariant
            i <= removed@.len(),
            (registry@, r@) == despawned(old(registry)@, removed@.subrange(0, i as int)),
        decreases removed@.len() - i,
    {
        let e = removed[i];
        proof {
            assert(removed@.subrange(0, i as int + 1).drop_last() =~= removed@.subrange(
                0,
                i as int,
            ));
        }
        if let Some(w) = registry.remove(e) {
            r.push(w);
        }
        i = i + 1;
    }
    assert(removed@.subrange(0, i as int) =~= removed@);
    r
}

/// Unregistering leaves exactly the entities that were registered and not
/// removed.
pub proof fn lemma_despawned_domain<V>(registry: Map<u64, V>, removed: Seq<u64>, k: u64)
    ensures
        despawned(registry, removed).0.contains_key(k) <==> registry.contains_key(k)
            && !removed.contains(k),
    decreases removed.len(),
{
    if removed.len() > 0 {
        lemma_despawned_domain(registry, removed.drop_last(), k);
        assert(removed.contains(k) <==> (removed.drop_last().contains(k) || removed.last() == k))
            by {
            if removed.contains(k) {
                let j = choose|j: int| 0 <= j < removed.len() && removed[j] == k;
                if j < removed.len() - 1 {
                    assert(removed.drop_last()[j] == k);
                }
            }
            if removed.drop_last().contains(k) {
                let j = choose|j: int| 0 <= j < removed.len() - 1 && removed.drop_last()[j] == k;
                assert(removed[j] == k);
            }
        }
    }
}

pub open spec fn is_destroyed_signal(a: Action) -> bool {
    a matches Action::Signal(WindowSignal::Destroyed(_))
}

/// A scene disconnects while its delegate still names entity `e`. The update
/// that follows sees the entities that lost their window since the last one
/// (`removed`): `e` is among them when the disconnection despawned it, or it
/// was despawned earlier by other logic, whose update unregistered it then.
/// Either way, the disconnection announces exactly one destruction, of `e`;
/// afterwards `e` is not registered; and a later disconnection of the same
/// delegate, which no longer names an entity, announces none.
pub proof fn lemma_disconnect_destroys_once<V>(registry: Map<u64, V>, e: u64, removed: Seq<u64>)
    requires
        removed.contains(e) || !registry.contains_key(e),
    ensures
        disconnect_actions(Some(e)).contains(Action::Signal(WindowSignal::Destroyed(e))),
        disconnect_actions(Some(e)).filter(|a: Action| is_destroyed_signal(a)).len() == 1,
        !despawned(registry, removed).0.contains_key(e),
        disconnect_actions(None).filter(|a: Action| is_destroyed_signal(a)).len() == 0,
{
    lemma_despawned_domain(registry, removed, e);
    let acts = disconnect_actions(Some(e));
    assert(acts[1] == Action::Signal(WindowSignal::Destroyed(e)));
    reveal_with_fuel(Seq::filter, 4);
    assert(acts.drop_last().drop_last().drop_last() =~= Seq::<Action>::empty());
    assert(disconnect_actions(None).drop_last() =~= Seq::<Action>::empty());
}

/// A request of the engine to end the process.
#[derive(Debug, Clone, Copy, PartialEq, Eq, Structural)]
pub enum ExitRequest {
    Success,
    /// A failure, with its nonzero exit code.
    Error(u8),
}

/// The host, not the application, ends the process. Returns the first of the
/// engine's exit requests, which is reported (fatal in debug builds); `None`
/// when there was none.
pub fn disallow_app_exit(exit_requests: &Vec<ExitRequest>) -> (r: Option<ExitRequest>)
    ensures
        exit_requests@.len() == 0 ==> r is None,
        exit_requests@.len() > 0 ==> r == Some(exit_requests@[0]),
{
    if exit_requests.len() == 0 {
        None
    } else {
        Some(exit_requests[0])
    }
}

/// Where the engine's plugins stand before the host takes over.
#[derive(Debug, Clone, Copy, PartialEq, Eq, Structural)]
pub enum PluginsPhase {
    Adding,
    Ready,
    Finished,
    Cleaned,
}

/// The runner's next step before it hands control to the host.
#[derive(Debug, Clone, Copy, PartialEq, Eq, Structural)]
pub enum RunnerStep {
    /// Poll the background task pools once more.
    TickTaskPools,
    /// Finish the plugins and clean them up.
    Finalize,
    /// Store the engine and enter the host's main loop.
    Start,
}

/// The plugins ended in a state from which the engine cannot start.
#[derive(Debug, Clone, Copy, PartialEq, Eq, Structural)]
pub enum RunnerError {
    NotCleaned(PluginsPhase),
}

/// Decides the runner's next step: poll while plugins are being added,
/// finalize them once (when they are ready), and start once they are
/// cleaned up. `finalized` says whether finalizing was already done.
pub fn runner_step(plugins: PluginsPhase, finalized: bool) -> (r: Result<RunnerStep, RunnerError>)
    ensures
        plugins == PluginsPhase::Cleaned ==> r == Ok::<RunnerStep, RunnerError>(RunnerStep::Start),
        plugins == PluginsPhase::Adding && !finalized ==> r == Ok::<RunnerStep, RunnerError>(
            RunnerStep::TickTaskPools,
        ),
        plugins == PluginsPhase::Ready && !finalized ==> r == Ok::<RunnerStep, RunnerError>(
            RunnerStep::Finalize,
        ),
        plugins != PluginsPhase::Cleaned && (finalized || plugins == PluginsPhase::Finished) ==> r
            == Err::<RunnerStep, RunnerError>(RunnerError::NotCleaned(plugins)),
{
    match plugins {
        PluginsPhase::Cleaned => Ok(RunnerStep::Start),
        PluginsPhase::Adding if !finalized => Ok(RunnerStep::TickTaskPools),
        PluginsPhase::Ready if !finalized => Ok(RunnerStep::Finalize),
        _ => Err(RunnerError::NotCleaned(plugins)),
    }
}

} // verus!
