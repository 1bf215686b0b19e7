use bevy_uikit::synchronizer::{
    apply_window_changes, avoid_inf, float_equals, interface_style, plan_window_changes,
    size_equals, EnabledButtons, InterfaceStyle, NativeChange, NativeWindowState,
    ResizeConstraints, SceneState, Size, SizeRestrictions, WindowConfig, WindowTheme,
    WindowingBehaviors, F32_MAX_BITS,
};

fn bits(x: f32) -> u32 {
    x.to_bits()
}

fn default_config() -> WindowConfig {
    WindowConfig {
        title: "App".to_string(),
        resize_constraints: ResizeConstraints {
            min_width: bits(180.0),
            min_height: bits(120.0),
            max_width: bits(f32::INFINITY),
            max_height: bits(f32::INFINITY),
        },
        enabled_buttons: EnabledButtons { minimize: true, maximize: true, close: true },
        window_theme: None,
    }
}

fn fresh_native() -> NativeWindowState {
    NativeWindowState {
        scene: Some(SceneState {
            title: String::new(),
            size_restrictions: Some(SizeRestrictions {
                minimum_size: Size { width: bits(0.0), height: bits(0.0) },
                maximum_size: Size { width: bits(0.0), height: bits(0.0) },
                allows_full_screen: Some(false),
            }),
            windowing_behaviors: Some(WindowingBehaviors { miniaturizable: false, closable: true }),
        }),
        interface_style: Some(InterfaceStyle::Dark),
    }
}

#[test]
fn avoid_inf_clamps_positive_infinity() {
    assert_eq!(avoid_inf(bits(f32::INFINITY)), bits(f32::MAX));
    assert_eq!(avoid_inf(bits(f32::INFINITY)), F32_MAX_BITS);
}

#[test]
fn avoid_inf_clamps_nan() {
    assert_eq!(avoid_inf(bits(f32::NAN)), bits(f32::MAX));
    assert_eq!(avoid_inf(bits(-f32::NAN)), bits(f32::MAX));
}

#[test]
fn avoid_inf_keeps_finite_values_and_negative_infinity() {
    for x in [0.0f32, -0.0, 1.5, -7.25, 180.0, f32::MAX, f32::MIN, f32::MIN_POSITIVE, 1e-45] {
        assert_eq!(avoid_inf(bits(x)), bits(x));
    }
    assert_eq!(avoid_inf(bits(f32::NEG_INFINITY)), bits(f32::NEG_INFINITY));
}

#[test]
fn avoid_inf_agrees_with_min_of_max() {
    for x in [0.0f32, -0.0, 3.0, f32::INFINITY, f32::NEG_INFINITY, f32::NAN, f32::MAX, -1e30] {
        assert_eq!(avoid_inf(bits(x)), bits(x.min(f32::MAX)));
    }
}

#[test]
fn float_equality_follows_ieee() {
    assert!(float_equals(bits(0.0), bits(-0.0)));
    assert!(float_equals(bits(2.5), bits(2.5)));
    assert!(!float_equals(bits(2.5), bits(3.5)));
    assert!(!float_equals(bits(f32::NAN), bits(f32::NAN)));
    assert!(float_equals(bits(f32::INFINITY), bits(f32::INFINITY)));
    assert!(size_equals(
        Size { width: bits(1.0), height: bits(0.0) },
        Size { width: bits(1.0), height: bits(-0.0) }
    ));
    assert!(!size_equals(
        Size { width: bits(1.0), height: bits(2.0) },
        Size { width: bits(1.0), height: bits(3.0) }
    ));
}

#[test]
fn theme_maps_to_interface_style() {
    assert_eq!(interface_style(Some(WindowTheme::Light)), InterfaceStyle::Light);
    assert_eq!(interface_style(Some(WindowTheme::Dark)), InterfaceStyle::Dark);
    assert_eq!(interface_style(None), InterfaceStyle::Unspecified);
}

#[test]
fn plan_writes_only_differing_fields_in_order() {
    let config = default_config();
    let native = fresh_native();
    let plan = plan_window_changes(&config, &native);
    assert_eq!(
        plan,
        vec![
            NativeChange::SetTitle,
            NativeChange::SetMinimumSize(Size { width: bits(180.0), height: bits(120.0) }),
            NativeChange::SetMaximumSize(Size { width: bits(f32::MAX), height: bits(f32::MAX) }),
            NativeChange::SetAllowsFullScreen(true),
            NativeChange::SetMiniaturizable(true),
            NativeChange::SetInterfaceStyle(InterfaceStyle::Unspecified),
        ]
    );
}

#[test]
fn unbounded_maximum_is_never_forwarded_as_infinity() {
    let config = default_config();
    let plan = plan_window_changes(&config, &fresh_native());
    for change in plan {
        if let NativeChange::SetMaximumSize(size) = change {
            assert!(f32::from_bits(size.width).is_finite());
            assert!(f32::from_bits(size.height).is_finite());
            assert_eq!(size.width, bits(f32::MAX));
        }
    }
}

#[test]
fn second_synchronization_writes_nothing() {
    let config = default_config();
    let mut native = fresh_native();
    let first = plan_window_changes(&config, &native);
    assert!(!first.is_empty());
    apply_window_changes(&mut native, &config, &first);
    assert_eq!(native.scene.as_ref().unwrap().title, "App");
    assert_eq!(native.interface_style, Some(InterfaceStyle::Unspecified));
    let second = plan_window_changes(&config, &native);
    assert!(second.is_empty());
}

#[test]
fn second_synchronization_writes_nothing_with_nan_bounds() {
    let mut config = default_config();
    config.resize_constraints.min_width = bits(f32::NAN);
    config.window_theme = Some(WindowTheme::Light);
    let mut native = fresh_native();
    let first = plan_window_changes(&config, &native);
    apply_window_changes(&mut native, &config, &first);
    assert!(plan_window_changes(&config, &native).is_empty());
}

#[test]
fn negative_zero_matches_zero_without_a_write() {
    let mut config = default_config();
    config.resize_constraints.min_width = bits(-0.0);
    config.resize_constraints.min_height = bits(0.0);
    let mut native = fresh_native();
    native.scene.as_mut().unwrap().title = "App".to_string();
    let plan = plan_window_changes(&config, &native);
    assert!(!plan.iter().any(|c| matches!(c, NativeChange::SetMinimumSize(_))));
}

#[test]
fn without_scene_only_the_style_is_planned() {
    let config = WindowConfig { window_theme: Some(WindowTheme::Dark), ..default_config() };
    let native = NativeWindowState { scene: None, interface_style: Some(InterfaceStyle::Light) };
    assert_eq!(
        plan_window_changes(&config, &native),
        vec![NativeChange::SetInterfaceStyle(InterfaceStyle::Dark)]
    );
}

#[test]
fn unavailable_controls_are_never_planned() {
    let config = default_config();
    let native = NativeWindowState {
        scene: Some(SceneState {
            title: "App".to_string(),
            size_restrictions: Some(SizeRestrictions {
                minimum_size: Size { width: bits(180.0), height: bits(120.0) },
                maximum_size: Size { width: bits(1.0), height: bits(1.0) },
                allows_full_screen: None,
            }),
            windowing_behaviors: None,
        }),
        interface_style: None,
    };
    assert_eq!(
        plan_window_changes(&config, &native),
        vec![NativeChange::SetMaximumSize(Size { width: bits(f32::MAX), height: bits(f32::MAX) })]
    );
}

#[test]
fn closable_change_is_planned() {
    let config = WindowConfig {
        enabled_buttons: EnabledButtons { minimize: false, maximize: false, close: false },
        ..default_config()
    };
    let mut native = fresh_native();
    native.scene.as_mut().unwrap().title = "App".to_string();
    native.interface_style = Some(InterfaceStyle::Unspecified);
    let plan = plan_window_changes(&config, &native);
    assert_eq!(
        plan,
        vec![
            NativeChange::SetMinimumSize(Size { width: bits(180.0), height: bits(120.0) }),
            NativeChange::SetMaximumSize(Size { width: bits(f32::MAX), height: bits(f32::MAX) }),
            NativeChange::SetClosable(false),
        ]
    );
}
