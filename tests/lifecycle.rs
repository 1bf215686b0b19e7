use bevy_uikit::lifecycle::{
    complete_launch, resolve_scene_connect, window_request, window_token, Action, AppEvent,
    ApplicationDelegate, LaunchError, LaunchTarget, LifecyclePhase, PrimaryLookup, SceneDelegate,
    SceneEvent, UserActivity, WindowSignal, WINDOW_ACTIVITY_TYPE,
};
use bevy_uikit::{UIKitWindow, UIKitWindows};

fn handle(scene: Option<u32>) -> UIKitWindow<u32, &'static str> {
    UIKitWindow { scene, uiwindow: "window" }
}

fn activity(kind: &str, entity_bits: Option<u64>) -> UserActivity {
    UserActivity { activity_type: kind.to_string(), entity_bits }
}

#[test]
fn window_request_carries_its_entity() {
    let request = window_request(77);
    assert_eq!(request.activity_type, WINDOW_ACTIVITY_TYPE);
    assert_eq!(request.entity_bits, Some(77));
    assert_eq!(window_token(&vec![request]), Some(77));
}

#[test]
fn window_token_takes_first_request_activity() {
    let activities = vec![
        activity("com.example.browse", Some(1)),
        activity(WINDOW_ACTIVITY_TYPE, Some(2)),
        activity(WINDOW_ACTIVITY_TYPE, Some(3)),
    ];
    assert_eq!(window_token(&activities), Some(2));
}

#[test]
fn window_token_absent_without_request() {
    assert_eq!(window_token(&vec![]), None);
    assert_eq!(window_token(&vec![activity("com.example.browse", Some(1))]), None);
}

#[test]
fn window_token_absent_when_first_request_has_no_entity() {
    let activities =
        vec![activity(WINDOW_ACTIVITY_TYPE, None), activity(WINDOW_ACTIVITY_TYPE, Some(9))];
    assert_eq!(window_token(&activities), None);
}

#[test]
fn connect_with_token_materializes_named_entity_not_primary() {
    let registry: UIKitWindows<u32, &str> = UIKitWindows::new();
    let target = resolve_scene_connect(Some(42), PrimaryLookup::Single(1), &registry);
    assert_eq!(target, Ok(LaunchTarget::Existing(42)));
}

#[test]
fn connect_with_token_ignores_missing_primary() {
    let registry: UIKitWindows<u32, &str> = UIKitWindows::new();
    assert_eq!(
        resolve_scene_connect(Some(5), PrimaryLookup::NoEntities, &registry),
        Ok(LaunchTarget::Existing(5))
    );
}

#[test]
fn connect_without_token_initializes_uninitialized_primary() {
    let registry: UIKitWindows<u32, &str> = UIKitWindows::new();
    assert_eq!(
        resolve_scene_connect(None, PrimaryLookup::Single(1), &registry),
        Ok(LaunchTarget::Existing(1))
    );
}

#[test]
fn connect_without_token_and_initialized_primary_spawns_new_window() {
    let mut registry: UIKitWindows<u32, &str> = UIKitWindows::new();
    registry.insert(1, handle(Some(10)));
    assert_eq!(
        resolve_scene_connect(None, PrimaryLookup::Single(1), &registry),
        Ok(LaunchTarget::SpawnWindow)
    );
}

#[test]
fn connect_without_any_window_spawns_primary() {
    let registry: UIKitWindows<u32, &str> = UIKitWindows::new();
    assert_eq!(
        resolve_scene_connect(None, PrimaryLookup::NoEntities, &registry),
        Ok(LaunchTarget::SpawnPrimary)
    );
}

#[test]
fn connect_with_several_primaries_fails() {
    let registry: UIKitWindows<u32, &str> = UIKitWindows::new();
    assert_eq!(
        resolve_scene_connect(None, PrimaryLookup::Multiple, &registry),
        Err(LaunchError::MultiplePrimaryWindows)
    );
}

#[test]
fn scene_connection_registers_and_announces() {
    let mut registry: UIKitWindows<u32, &str> = UIKitWindows::new();
    let mut delegate = SceneDelegate::new();
    let actions = delegate.connected(&mut registry, 8, handle(Some(3)));
    assert_eq!(actions, vec![Action::Signal(WindowSignal::Created(8)), Action::Update]);
    assert_eq!(delegate.entity, Some(8));
    assert!(registry.is_initialized(8));
    assert_eq!(registry.get(8).unwrap().scene, Some(3));
}

#[test]
fn scene_events_become_signals() {
    let delegate = SceneDelegate { entity: Some(4) };
    assert_eq!(
        delegate.on_scene_event(SceneEvent::WillEnterForeground, true),
        vec![Action::Signal(WindowSignal::Foreground(4)), Action::Update]
    );
    assert_eq!(
        delegate.on_scene_event(SceneEvent::DidBecomeActive, true),
        vec![
            Action::Signal(WindowSignal::Activate(4)),
            Action::MakeKeyAndVisible,
            Action::Update
        ]
    );
    assert_eq!(
        delegate.on_scene_event(SceneEvent::DidBecomeActive, false),
        vec![Action::Signal(WindowSignal::Activate(4)), Action::Update]
    );
    assert_eq!(
        delegate.on_scene_event(SceneEvent::WillResignActive, true),
        vec![Action::Signal(WindowSignal::Deactivate(4)), Action::Update]
    );
    assert_eq!(
        delegate.on_scene_event(SceneEvent::DidEnterBackground, true),
        vec![Action::Signal(WindowSignal::Background(4)), Action::Update]
    );
}

#[test]
fn scene_events_without_entity_only_update() {
    let delegate = SceneDelegate::new();
    assert_eq!(
        delegate.on_scene_event(SceneEvent::DidBecomeActive, true),
        vec![Action::MakeKeyAndVisible, Action::Update]
    );
    assert_eq!(
        delegate.on_scene_event(SceneEvent::WillEnterForeground, false),
        vec![Action::Update]
    );
}

#[test]
fn disconnect_destroys_once() {
    let mut delegate = SceneDelegate { entity: Some(6) };
    let first = delegate.disconnected();
    assert_eq!(
        first,
        vec![Action::Despawn(6), Action::Signal(WindowSignal::Destroyed(6)), Action::Update]
    );
    assert_eq!(delegate.entity, None);
    let second = delegate.disconnected();
    assert_eq!(second, vec![Action::Update]);
}

#[test]
fn launch_without_scenes_creates_primary_window() {
    let mut registry: UIKitWindows<u32, &str> = UIKitWindows::new();
    let mut app = ApplicationDelegate::new();
    assert_eq!(app.on_event(AppEvent::WillFinishLaunching), Ok(vec![Action::Update]));
    assert_eq!(app.phase, LifecyclePhase::Launching);
    let actions = app
        .on_event(AppEvent::DidFinishLaunching {
            scenes_supported: false,
            primary: PrimaryLookup::NoEntities,
        })
        .unwrap();
    assert_eq!(actions, vec![Action::Materialize(LaunchTarget::SpawnPrimary)]);
    assert_eq!(app.phase, LifecyclePhase::Running);
    // The binding spawns the primary window entity, with id 21, and
    // materializes it without a scene.
    let created = complete_launch(&mut registry, 21, handle(None));
    assert!(registry.is_initialized(21));
    assert_eq!(registry.len(), 1);
    assert_eq!(created, vec![Action::Signal(WindowSignal::Created(21)), Action::Update]);
    let updates = created.iter().filter(|a| **a == Action::Update).count();
    assert_eq!(updates, 1);
}

#[test]
fn launch_without_scenes_uses_existing_primary() {
    let mut app = ApplicationDelegate::new();
    let _ = app.on_event(AppEvent::WillFinishLaunching);
    assert_eq!(
        app.on_event(AppEvent::DidFinishLaunching {
            scenes_supported: false,
            primary: PrimaryLookup::Single(3),
        }),
        Ok(vec![Action::Materialize(LaunchTarget::Existing(3))])
    );
}

#[test]
fn launch_with_scenes_defers_to_scene_connection() {
    let mut app = ApplicationDelegate::new();
    let _ = app.on_event(AppEvent::WillFinishLaunching);
    assert_eq!(
        app.on_event(AppEvent::DidFinishLaunching {
            scenes_supported: true,
            primary: PrimaryLookup::NoEntities,
        }),
        Ok(vec![])
    );
    assert_eq!(app.phase, LifecyclePhase::Running);
}

#[test]
fn launch_with_several_primaries_fails() {
    let mut app = ApplicationDelegate::new();
    assert_eq!(
        app.on_event(AppEvent::DidFinishLaunching {
            scenes_supported: false,
            primary: PrimaryLookup::Multiple,
        }),
        Err(LaunchError::MultiplePrimaryWindows)
    );
}

#[test]
fn termination_shuts_down_and_is_final() {
    let mut app = ApplicationDelegate::new();
    let _ = app.on_event(AppEvent::WillFinishLaunching);
    assert_eq!(app.on_event(AppEvent::MemoryWarning), Ok(vec![]));
    assert_eq!(app.on_event(AppEvent::WillTerminate), Ok(vec![Action::Shutdown]));
    assert_eq!(app.phase, LifecyclePhase::Terminated);
    assert_eq!(app.on_event(AppEvent::WillFinishLaunching), Ok(vec![]));
    assert_eq!(app.on_event(AppEvent::WillTerminate), Ok(vec![]));
    assert_eq!(app.phase, LifecyclePhase::Terminated);
}
