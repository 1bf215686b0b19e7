//! How the host's lifecycle callbacks become window-entity creation
//! and removal, window signals, and engine update ticks.
//!
//! Each callback is a step from the delegate's state and what the callback
//! carries to a new state and a list of [`Action`]s, which the host binding
//! performs in order.
use vstd::prelude::*;
use crate::registry::{UIKitWindow, UIKitWindows};

verus! {

broadcast use vstd::std_specs::hash::group_hash_axioms;

/// Activity type of a request for a new window, which carries the id of
/// the entity that asked for it.
pub const WINDOW_ACTIVITY_TYPE: &'static str = "org.bevyengine.internal.new-window";

/// Key of the entity id in a new-window request's user info.
pub const USER_INFO_WINDOW_ENTITY_ID: &'static str = "BevyWindowEntityId";

/// A user activity as the host hands it over on a scene connection: its type,
/// and the entity id under [`USER_INFO_WINDOW_ENTITY_ID`] in its user info,
/// where one is there as a number.
#[derive(Debug)]
pub struct UserActivity {
    pub activity_type: String,
    pub entity_bits: Option<u64>,
}

/// The activity that asks the host for a scene for `entity`.
pub fn window_request(entity: u64) -> (r: UserActivity)
    ensures
        r.activity_type@ == WINDOW_ACTIVITY_TYPE@,
        r.entity_bits == Some(entity),
{
    UserActivity { activity_type: WINDOW_ACTIVITY_TYPE.to_owned(), entity_bits: Some(entity) }
}

/// The first activity of the window-request type, if any.
pub open spec fn first_request(activities: Seq<UserActivity>) -> Option<int>
    decreases activities.len(),
{
    if activities.len() == 0 {
        None
    } else if activities[0].activity_type@ == WINDOW_ACTIVITY_TYPE@ {
        Some(0)
    } else {
        match first_request(activities.drop_first()) {
            Some(i) => Some(i + 1),
            None => None,
        }
    }
}

/// The correlation token on a connection: the entity id of the first
/// window-request activity, where it carries one.
pub open spec fn token_of(activities: Seq<UserActivity>) -> Option<u64> {
    match first_request(activities) {
        Some(i) => activities[i].entity_bits,
        None => None,
    }
}

proof fn lemma_first_request_at(activities: Seq<UserActivity>, i: int)
    requires
        0 <= i < activities.len(),
        activities[i].activity_type@ == WINDOW_ACTIVITY_TYPE@,
        forall|j: int| 0 <= j < i ==> activities[j].activity_type@ != WINDOW_ACTIVITY_TYPE@,
    ensures
        first_request(activities) == Some(i),
    decreases i,
{
    if i > 0 {
        lemma_first_request_at(activities.drop_first(), i - 1);
    }
}

proof fn lemma_first_request_none(activities: Seq<UserActivity>)
    requires
        forall|j: int|
            0 <= j < activities.len() ==> activities[j].activity_type@ != WINDOW_ACTIVITY_TYPE@,
    ensures
        first_request(activities) == None::<int>,
    decreases activities.len(),
{
    if activities.len() > 0 {
        lemma_first_request_none(activities.drop_first());
    }
}

/// Finds the entity that a connecting scene was requested for.
pub fn window_token(activities: &Vec<UserActivity>) -> (r: Option<u64>)
    ensures
        r == token_of(activities@),
{
    let wanted = WINDOW_ACTIVITY_TYPE.to_owned();
    let mut i: usize = 0;
    while i < activities.len()
        invariant
            i <= activities@.len(),
            wanted@ == WINDOW_ACTIVITY_TYPE@,
            forall|j: int| 0 <= j < i ==> activities@[j].activity_type@ != WINDOW_ACTIVITY_TYPE@,
        decreases activities@.len() - i,
    {
        if activities[i].activity_type == wanted {
            proof {
                lemma_first_request_at(activities@, i as int);
            }
            return activities[i].entity_bits;
        }
        i = i + 1;
    }
    proof {
        lemma_first_request_none(activities@);
    }
    None
}

/// A connection that carries a request made for `entity` resolves to it.
pub proof fn lemma_request_round_trip(entity: u64, before: Seq<UserActivity>, after: Seq<
    UserActivity,
>, request: UserActivity)
    requires
        request.activity_type@ == WINDOW_ACTIVITY_TYPE@,
        request.entity_bits == Some(entity),
        forall|j: int| 0 <= j < before.len() ==> before[j].activity_type@ != WINDOW_ACTIVITY_TYPE@,
    ensures
        token_of(before.push(request) + after) == Some(entity),
{
    let all = before.push(request) + after;
    assert(all[before.len() as int] == request);
    assert forall|j: int| 0 <= j < before.len() implies all[j].activity_type@
        != WINDOW_ACTIVITY_TYPE@ by {
        assert(all[j] == before[j]);
    }
    lemma_first_request_at(all, before.len() as int);
}

/// What a query for the primary window found.
#[derive(Debug, Clone, Copy, PartialEq, Eq, Structural)]
pub enum PrimaryLookup {
    NoEntities,
    Single(u64),
    Multiple,
}

/// Which window entity a new host window is for.
#[derive(Debug, Clone, Copy, PartialEq, Eq, Structural)]
pub enum LaunchTarget {
    /// An entity that exists and is not yet materialized.
    Existing(u64),
    /// A new, non-primary window entity, to be created from defaults.
    SpawnWindow,
    /// The primary window entity, to be created from defaults.
    SpawnPrimary,
}

/// A launch that cannot go on.
#[derive(Debug, Clone, Copy, PartialEq, Eq, Structural)]
pub enum LaunchError {
    /// More than one entity is marked as the primary window.
    MultiplePrimaryWindows,
}

/// Which entity a connecting scene is for, in order of priority: the entity
/// named by the connection's token; the primary window if it is not yet
/// materialized (first launch); a new window if it is (a new window asked for
/// by the user or the system); a new primary window if there is none.
pub open spec fn connect_target(token: Option<u64>, primary: PrimaryLookup, initialized: Set<u64>) -> Result<
    LaunchTarget,
    LaunchError,
> {
    match token {
        Some(e) => Ok(LaunchTarget::Existing(e)),
        None => match primary {
            PrimaryLookup::Single(p) => if initialized.contains(p) {
                Ok(LaunchTarget::SpawnWindow)
            } else {
                Ok(LaunchTarget::Existing(p))
            },
            PrimaryLookup::NoEntities => Ok(LaunchTarget::SpawnPrimary),
            PrimaryLookup::Multiple => Err(LaunchError::MultiplePrimaryWindows),
        },
    }
}

/// Resolves which entity a connecting scene is for.
pub fn resolve_scene_connect<S, W>(
    token: Option<u64>,
    primary: PrimaryLookup,
    registry: &UIKitWindows<S, W>,
) -> (r: Result<LaunchTarget, LaunchError>)
    ensures
        r == connect_target(token, primary, registry@.dom()),
        token matches Some(e) ==> r == Ok::<LaunchTarget, LaunchError>(LaunchTarget::Existing(e)),
        forall|p: u64|
            token is None && primary == PrimaryLookup::Single(p) && registry@.contains_key(p)
                ==> r == Ok::<LaunchTarget, LaunchError>(LaunchTarget::SpawnWindow),
{
    match token {
        Some(e) => Ok(LaunchTarget::Existing(e)),
        None => match primary {
            PrimaryLookup::Single(p) => {
                if registry.is_initialized(p) {
                    Ok(LaunchTarget::SpawnWindow)
                } else {
                    Ok(LaunchTarget::Existing(p))
                }
            },
            PrimaryLookup::NoEntities => Ok(LaunchTarget::SpawnPrimary),
            PrimaryLookup::Multiple => Err(LaunchError::MultiplePrimaryWindows),
        },
    }
}

/// A scene that connects with a request made for `entity` is for that
/// entity, whatever the primary window's state, and never for a new or a
/// primary window.
pub proof fn lemma_requested_scene_is_for_entity(
    entity: u64,
    before: Seq<UserActivity>,
    after: Seq<UserActivity>,
    request: UserActivity,
    primary: PrimaryLookup,
    initialized: Set<u64>,
)
    requires
        request.activity_type@ == WINDOW_ACTIVITY_TYPE@,
        request.entity_bits == Some(entity),
        forall|j: int| 0 <= j < before.len() ==> before[j].activity_type@ != WINDOW_ACTIVITY_TYPE@,
    ensures
        connect_target(token_of(before.push(request) + after), primary, initialized) == Ok::<
            LaunchTarget,
            LaunchError,
        >(LaunchTarget::Existing(entity)),
{
    lemma_request_round_trip(entity, before, after, request);
}

/// A window signal for the engine.
#[derive(Debug, Clone, Copy, PartialEq, Eq, Structural)]
pub enum WindowSignal {
    Created(u64),
    Destroyed(u64),
    Foreground(u64),
    Background(u64),
    Activate(u64),
    Deactivate(u64),
    Focused(u64, bool),
}

/// One thing for the host binding to do.
#[derive(Debug, Clone, Copy, PartialEq, Eq, Structural)]
pub enum Action {
    /// Run one full engine update.
    Update,
    /// Send a window signal to the engine.
    Signal(WindowSignal),
    /// Make the scene's window key and visible.
    MakeKeyAndVisible,
    /// Remove the entity from the engine's world, if it is still there.
    Despawn(u64),
    /// Find or create the entity, materialize a host window for it, and
    /// complete the launch with the entity's id.
    Materialize(LaunchTarget),
    /// Take the engine out of its slot and drop it.
    Shutdown,
}

/// The actions that follow a window's materialization.
pub open spec fn created_actions(entity: u64) -> Seq<Action> {
    seq![Action::Signal(WindowSignal::Created(entity)), Action::Update]
}

/// Registers a materialized window and announces it.
pub fn complete_launch<S, W>(
    registry: &mut UIKitWindows<S, W>,
    entity: u64,
    uikit_window: UIKitWindow<S, W>,
) -> (r: Vec<Action>)
    requires
        !old(registry)@.contains_key(entity),
    ensures
        final(registry)@ == old(registry)@.insert(entity, uikit_window),
        r@ == created_actions(entity),
{
    registry.insert(entity, uikit_window);
    let r = vec![Action::Signal(WindowSignal::Created(entity)), Action::Update];
    assert(r@ =~= created_actions(entity));
    r
}

/// A callback on a connected scene.
#[derive(Debug, Clone, Copy, PartialEq, Eq, Structural)]
pub enum SceneEvent {
    WillEnterForeground,
    DidBecomeActive,
    WillResignActive,
    DidEnterBackground,
}

pub open spec fn scene_signal(event: SceneEvent, window: u64) -> WindowSignal {
    match event {
        SceneEvent::WillEnterForeground => WindowSignal::Foreground(window),
        SceneEvent::DidBecomeActive => WindowSignal::Activate(window),
        SceneEvent::WillResignActive => WindowSignal::Deactivate(window),
        SceneEvent::DidEnterBackground => WindowSignal::Background(window),
    }
}

/// The signal for the scene's entity if it has one, a request to make the
/// window key and visible when the scene becomes active and has a window,
/// then an update.
pub open spec fn scene_event_actions(entity: Option<u64>, event: SceneEvent, has_window: bool) -> Seq<
    Action,
> {
    let signal: Seq<Action> = match entity {
        Some(w) => seq![Action::Signal(scene_signal(event, w))],
        None => seq![],
    };
    let key: Seq<Action> = if event == SceneEvent::DidBecomeActive && has_window {
        seq![Action::MakeKeyAndVisible]
    } else {
        seq![]
    };
    signal + key + seq![Action::Update]
}

/// The actions of a disconnection: the scene's entity, if it still has one,
/// is removed and announced destroyed once; then an update.
pub open spec fn disconnect_actions(entity: Option<u64>) -> Seq<Action> {
    match entity {
        Some(e) => seq![
            Action::Despawn(e),
            Action::Signal(WindowSignal::Destroyed(e)),
            Action::Update,
        ],
        None => seq![Action::Update],
    }
}

/// The state of the delegate of one scene: the entity its window stands for,
/// once connected.
#[derive(Debug, Clone, Copy, PartialEq, Eq, Structural)]
pub struct SceneDelegate {
    pub entity: Option<u64>,
}

impl SceneDelegate {
    /// A delegate whose scene has not connected yet.
    pub fn new() -> (r: Self)
        ensures
            r.entity is None,
    {
        SceneDelegate { entity: None }
    }

    /// The scene connected and its window was materialized for `entity`:
    /// registers it, remembers the entity, and announces the window.
    pub fn connected<S, W>(
        &mut self,
        registry: &mut UIKitWindows<S, W>,
        entity: u64,
        uikit_window: UIKitWindow<S, W>,
    ) -> (r: Vec<Action>)
        requires
            !old(registry)@.contains_key(entity),
        ensures
            final(self).entity == Some(entity),
            final(registry)@ == old(registry)@.insert(entity, uikit_window),
            r@ == created_actions(entity),
    {
        self.entity = Some(entity);
        complete_launch(registry, entity, uikit_window)
    }

    /// A foreground, activation, resignation or background callback.
    pub fn on_scene_event(&self, event: SceneEvent, has_window: bool) -> (r: Vec<Action>)
        ensures
            r@ == scene_event_actions(self.entity, event, has_window),
    {
        let mut r: Vec<Action> = Vec::new();
        if let Some(w) = self.entity {
            let signal = match event {
                SceneEvent::WillEnterForeground => WindowSignal::Foreground(w),
                SceneEvent::DidBecomeActive => WindowSignal::Activate(w),
                SceneEvent::WillResignActive => WindowSignal::Deactivate(w),
                SceneEvent::DidEnterBackground => WindowSignal::Background(w),
            };
            r.push(Action::Signal(signal));
        }
        if event == SceneEvent::DidBecomeActive && has_window {
            r.push(Action::MakeKeyAndVisible);
        }
        let ghost after_key = r@;
        r.push(Action::Update);
        assert(r@ =~= scene_event_actions(self.entity, event, has_window)) by {
            assert(r@ =~= after_key + seq![Action::Update]);
        }
        r
    }

    /// The scene disconnected: its entity is removed (it may already be
    /// gone) and announced destroyed, and the delegate forgets it.
    pub fn disconnected(&mut self) -> (r: Vec<Action>)
        ensures
            final(self).entity is None,
            r@ == disconnect_actions(old(self).entity),
    {
        let r = match self.entity {
            Some(e) => vec![
                Action::Despawn(e),
                Action::Signal(WindowSignal::Destroyed(e)),
                Action::Update,
            ],
            None => vec![Action::Update],
        };
        self.entity = None;
        assert(r@ =~= disconnect_actions(old(self).entity));
        r
    }
}

/// Where the application stands in its life. `Terminated` is final.
#[derive(Debug, Clone, Copy, PartialEq, Eq, Structural)]
pub enum LifecyclePhase {
    Uninitialized,
    Launching,
    Running,
    Terminated,
}

/// A callback on the application delegate.
#[derive(Debug, Clone, Copy, PartialEq, Eq, Structural)]
pub enum AppEvent {
    WillFinishLaunching,
    /// Launching is done. Where the host has no scenes, the primary window is
    /// made here; `primary` is what a query for it found.
    DidFinishLaunching { scenes_supported: bool, primary: PrimaryLookup },
    WillEnterForeground,
    DidBecomeActive,
    WillResignActive,
    DidEnterBackground,
    MemoryWarning,
    OpenUrl,
    WillTerminate,
}

/// The target of the primary window's launch where the host has no scenes.
pub open spec fn primary_target(primary: PrimaryLookup) -> Result<LaunchTarget, LaunchError> {
    match primary {
        PrimaryLookup::Single(p) => Ok(LaunchTarget::Existing(p)),
        PrimaryLookup::NoEntities => Ok(LaunchTarget::SpawnPrimary),
        PrimaryLookup::Multiple => Err(LaunchError::MultiplePrimaryWindows),
    }
}

/// The phase after a callback.
pub open spec fn next_phase(phase: LifecyclePhase, event: AppEvent) -> LifecyclePhase {
    if phase == LifecyclePhase::Terminated {
        phase
    } else {
        match event {
            AppEvent::WillFinishLaunching => if phase == LifecyclePhase::Uninitialized {
                LifecyclePhase::Launching
            } else {
                phase
            },
            AppEvent::DidFinishLaunching { .. } => LifecyclePhase::Running,
            AppEvent::WillTerminate => LifecyclePhase::Terminated,
            _ => phase,
        }
    }
}

/// The actions of a callback: one update when launching begins; the primary
/// window's materialization when launching ends on a host without scenes
/// (its launch is completed with `complete_launch`); shutdown on
/// termination. Other callbacks, and every callback once terminated, do
/// nothing.
pub open spec fn app_actions(phase: LifecyclePhase, event: AppEvent) -> Result<
    Seq<Action>,
    LaunchError,
> {
    if phase == LifecyclePhase::Terminated {
        Ok(seq![])
    } else {
        match event {
            AppEvent::WillFinishLaunching => Ok(seq![Action::Update]),
            AppEvent::DidFinishLaunching { scenes_supported, primary } => if scenes_supported {
                Ok(seq![])
            } else {
                match primary_target(primary) {
                    Ok(t) => Ok(seq![Action::Materialize(t)]),
                    Err(e) => Err(e),
                }
            },
            AppEvent::WillTerminate => Ok(seq![Action::Shutdown]),
            _ => Ok(seq![]),
        }
    }
}

/// The state of the application delegate.
#[derive(Debug, Clone, Copy, PartialEq, Eq, Structural)]
pub struct ApplicationDelegate {
    pub phase: LifecyclePhase,
}

impl ApplicationDelegate {
    /// A delegate before the first callback.
    pub fn new() -> (r: Self)
        ensures
            r.phase == LifecyclePhase::Uninitialized,
    {
        ApplicationDelegate { phase: LifecyclePhase::Uninitialized }
    }

    /// Handles one callback.
    pub fn on_event(&mut self, event: AppEvent) -> (r: Result<Vec<Action>, LaunchError>)
        ensures
            final(self).phase == next_phase(old(self).phase, event),
            match (r, app_actions(old(self).phase, event)) {
                (Ok(v), Ok(s)) => v@ == s,
                (Err(e), Err(f)) => e == f,
                _ => false,
            },
    {
        let phase = self.phase;
        if phase == LifecyclePhase::Terminated {
            return Ok(Vec::new());
        }
        let r: Result<Vec<Action>, LaunchError> = match event {
            AppEvent::WillFinishLaunching => {
                if phase == LifecyclePhase::Uninitialized {
                    self.phase = LifecyclePhase::Launching;
                }
                Ok(vec![Action::Update])
            },
            AppEvent::DidFinishLaunching { scenes_supported, primary } => {
                self.phase = LifecyclePhase::Running;
                if scenes_supported {
                    Ok(Vec::new())
                } else {
                    match primary {
                        PrimaryLookup::Single(p) => Ok(
                            vec![Action::Materialize(LaunchTarget::Existing(p))],
                        ),
                        PrimaryLookup::NoEntities => Ok(
                            vec![Action::Materialize(LaunchTarget::SpawnPrimary)],
                        ),
                        PrimaryLookup::Multiple => Err(LaunchError::MultiplePrimaryWindows),
                    }
                }
            },
            AppEvent::WillTerminate => {
                self.phase = LifecyclePhase::Terminated;
                Ok(vec![Action::Shutdown])
            },
            _ => Ok(Vec::new()),
        };
        proof {
            if r is Ok && app_actions(phase, event) is Ok {
                assert(r->Ok_0@ =~= app_actions(phase, event)->Ok_0);
            }
        }
        r
    }
}

/// Once terminated, no callback changes the phase or asks for anything.
pub proof fn lemma_terminated_absorbing(event: AppEvent)
    ensures
        next_phase(LifecyclePhase::Terminated, event) == LifecyclePhase::Terminated,
        app_actions(LifecyclePhase::Terminated, event) == Ok::<Seq<Action>, LaunchError>(seq![]),
{
}

} // verus!
