//! One-directional reconciliation of a window's declarative configuration onto
//! the host's native window and scene.
//!
//! The host's state is read into a [`NativeWindowState`], the changes to make
//! are planned against it, and only those changes are written back. A field
//! that the host does not offer (an older OS, or a platform profile without
//! the control) is read as `None` and never planned.
//!
//! Sizes are single-precision IEEE 754 values, carried by their bit patterns.
use vstd::prelude::*;

verus! {

/// Bit pattern of `f32::MAX`, the largest finite single-precision value.
pub const F32_MAX_BITS: u32 = 0x7F7F_FFFF;

/// Bit pattern of positive infinity.
pub const F32_INFINITY_BITS: u32 = 0x7F80_0000;

/// Bit pattern of the sign bit alone.
pub const F32_SIGN_BIT: u32 = 0x8000_0000;

/// The bit pattern without its sign bit.
pub open spec fn magnitude(b: u32) -> u32 {
    (b % F32_SIGN_BIT) as u32
}

pub open spec fn is_nan(b: u32) -> bool {
    magnitude(b) > F32_INFINITY_BITS
}

pub open spec fn is_positive_infinity(b: u32) -> bool {
    b == F32_INFINITY_BITS
}

/// IEEE 754 equality: a NaN equals nothing, and the two zeros are equal.
pub open spec fn float_eq(a: u32, b: u32) -> bool {
    &&& !is_nan(a)
    &&& !is_nan(b)
    &&& (a == b || (magnitude(a) == 0 && magnitude(b) == 0))
}

/// `x.min(f32::MAX)`: positive infinity becomes `f32::MAX`, and so does a NaN
/// (`min` returns the other operand when one is NaN); every other value stays.
pub open spec fn clamped(b: u32) -> u32 {
    if is_nan(b) || is_positive_infinity(b) {
        F32_MAX_BITS
    } else {
        b
    }
}

/// Clamps a size bound to a finite value before it is handed to the host,
/// whose layout constraints reject infinities.
pub fn avoid_inf(b: u32) -> (r: u32)
    ensures
        r == clamped(b),
{
    let mag: u32 = b % F32_SIGN_BIT;
    if mag > F32_INFINITY_BITS || b == F32_INFINITY_BITS {
        F32_MAX_BITS
    } else {
        b
    }
}

/// Whether two single-precision values compare equal under IEEE 754.
pub fn float_equals(a: u32, b: u32) -> (r: bool)
    ensures
        r == float_eq(a, b),
{
    let ma: u32 = a % F32_SIGN_BIT;
    let mb: u32 = b % F32_SIGN_BIT;
    if ma > F32_INFINITY_BITS || mb > F32_INFINITY_BITS {
        false
    } else {
        a == b || (ma == 0 && mb == 0)
    }
}

/// A width and a height, each as a single-precision bit pattern.
#[derive(Debug, Clone, Copy, PartialEq, Eq, Structural)]
pub struct Size {
    pub width: u32,
    pub height: u32,
}

pub open spec fn size_eq(a: Size, b: Size) -> bool {
    float_eq(a.width, b.width) && float_eq(a.height, b.height)
}

/// Whether two sizes compare equal, component by component.
pub fn size_equals(a: Size, b: Size) -> (r: bool)
    ensures
        r == size_eq(a, b),
{
    float_equals(a.width, b.width) && float_equals(a.height, b.height)
}

/// Bounds on a window's size; an unbounded maximum is positive infinity.
#[derive(Debug, Clone, Copy, PartialEq, Eq, Structural)]
pub struct ResizeConstraints {
    pub min_width: u32,
    pub min_height: u32,
    pub max_width: u32,
    pub max_height: u32,
}

impl ResizeConstraints {
    /// The minimum size that the host is given.
    pub open spec fn native_min(self) -> Size {
        Size { width: clamped(self.min_width), height: clamped(self.min_height) }
    }

    /// The maximum size that the host is given.
    pub open spec fn native_max(self) -> Size {
        Size { width: clamped(self.max_width), height: clamped(self.max_height) }
    }
}

/// Which of the window-control buttons are enabled.
#[derive(Debug, Clone, Copy, PartialEq, Eq, Structural)]
pub struct EnabledButtons {
    pub minimize: bool,
    pub maximize: bool,
    pub close: bool,
}

#[derive(Debug, Clone, Copy, PartialEq, Eq, Structural)]
pub enum WindowTheme {
    Light,
    Dark,
}

/// The host's appearance override for a window.
#[derive(Debug, Clone, Copy, PartialEq, Eq, Structural)]
pub enum InterfaceStyle {
    Unspecified,
    Light,
    Dark,
}

pub open spec fn style_of(theme: Option<WindowTheme>) -> InterfaceStyle {
    match theme {
        Some(WindowTheme::Light) => InterfaceStyle::Light,
        Some(WindowTheme::Dark) => InterfaceStyle::Dark,
        None => InterfaceStyle::Unspecified,
    }
}

/// The host's appearance for a theme; no theme leaves it to the system.
pub fn interface_style(theme: Option<WindowTheme>) -> (r: InterfaceStyle)
    ensures
        r == style_of(theme),
{
    match theme {
        Some(WindowTheme::Light) => InterfaceStyle::Light,
        Some(WindowTheme::Dark) => InterfaceStyle::Dark,
        None => InterfaceStyle::Unspecified,
    }
}

/// The part of a window's configuration that reaches the host.
///
/// The configuration's other fields are either handled elsewhere (rendering,
/// frame latency), belong to other platforms (canvas, taskbar, title bar,
/// shadow, window level), or have no host counterpart yet (decorations,
/// IME, gestures, transparency, visibility, position, mode).
#[derive(Debug)]
pub struct WindowConfig {
    pub title: String,
    pub resize_constraints: ResizeConstraints,
    pub enabled_buttons: EnabledButtons,
    pub window_theme: Option<WindowTheme>,
}

pub struct ConfigView {
    pub title: Seq<char>,
    pub resize_constraints: ResizeConstraints,
    pub enabled_buttons: EnabledButtons,
    pub window_theme: Option<WindowTheme>,
}

impl View for WindowConfig {
    type V = ConfigView;

    open spec fn view(&self) -> ConfigView {
        ConfigView {
            title: self.title@,
            resize_constraints: self.resize_constraints,
            enabled_buttons: self.enabled_buttons,
            window_theme: self.window_theme,
        }
    }
}

/// The scene's size restrictions; `allows_full_screen` is `None` where the
/// host offers no full-screen control.
#[derive(Debug, Clone, Copy, PartialEq, Eq, Structural)]
pub struct SizeRestrictions {
    pub minimum_size: Size,
    pub maximum_size: Size,
    pub allows_full_screen: Option<bool>,
}

/// The scene's windowing behaviours.
#[derive(Debug, Clone, Copy, PartialEq, Eq, Structural)]
pub struct WindowingBehaviors {
    pub miniaturizable: bool,
    pub closable: bool,
}

/// What the host's scene currently holds.
#[derive(Debug)]
pub struct SceneState {
    pub title: String,
    pub size_restrictions: Option<SizeRestrictions>,
    pub windowing_behaviors: Option<WindowingBehaviors>,
}

/// What the host's window currently holds: its scene, absent where the host
/// has no scenes, and its appearance override, absent where the host has
/// none.
#[derive(Debug)]
pub struct NativeWindowState {
    pub scene: Option<SceneState>,
    pub interface_style: Option<InterfaceStyle>,
}

pub struct SceneView {
    pub title: Seq<char>,
    pub size_restrictions: Option<SizeRestrictions>,
    pub windowing_behaviors: Option<WindowingBehaviors>,
}

pub struct NativeView {
    pub scene: Option<SceneView>,
    pub interface_style: Option<InterfaceStyle>,
}

impl View for SceneState {
    type V = SceneView;

    open spec fn view(&self) -> SceneView {
        SceneView {
            title: self.title@,
            size_restrictions: self.size_restrictions,
            windowing_behaviors: self.windowing_behaviors,
        }
    }
}

impl View for NativeWindowState {
    type V = NativeView;

    open spec fn view(&self) -> NativeView {
        NativeView {
            scene: match self.scene {
                Some(s) => Some(s@),
                None => None,
            },
            interface_style: self.interface_style,
        }
    }
}

/// One write to the host. `SetTitle` writes the configuration's title.
#[derive(Debug, Clone, Copy, PartialEq, Eq, Structural)]
pub enum NativeChange {
    SetTitle,
    SetMinimumSize(Size),
    SetMaximumSize(Size),
    SetAllowsFullScreen(bool),
    SetMiniaturizable(bool),
    SetClosable(bool),
    SetInterfaceStyle(InterfaceStyle),
}

pub open spec fn title_changes(c: ConfigView, s: SceneView) -> Seq<NativeChange> {
    if s.title == c.title {
        seq![]
    } else {
        seq![NativeChange::SetTitle]
    }
}

pub open spec fn size_changes(c: ConfigView, r: Option<SizeRestrictions>) -> Seq<NativeChange> {
    match r {
        None => seq![],
        Some(r) => {
            let min = c.resize_constraints.native_min();
            let max = c.resize_constraints.native_max();
            let full = c.enabled_buttons.maximize;
            (if size_eq(min, r.minimum_size) {
                seq![]
            } else {
                seq![NativeChange::SetMinimumSize(min)]
            }) + (if size_eq(max, r.maximum_size) {
                seq![]
            } else {
                seq![NativeChange::SetMaximumSize(max)]
            }) + (match r.allows_full_screen {
                Some(v) if v != full => seq![NativeChange::SetAllowsFullScreen(full)],
                _ => seq![],
            })
        },
    }
}

pub open spec fn behavior_changes(c: ConfigView, b: Option<WindowingBehaviors>) -> Seq<NativeChange> {
    match b {
        None => seq![],
        Some(b) => (if b.miniaturizable == c.enabled_buttons.minimize {
            seq![]
        } else {
            seq![NativeChange::SetMiniaturizable(c.enabled_buttons.minimize)]
        }) + (if b.closable == c.enabled_buttons.close {
            seq![]
        } else {
            seq![NativeChange::SetClosable(c.enabled_buttons.close)]
        }),
    }
}

pub open spec fn style_changes(c: ConfigView, s: Option<InterfaceStyle>) -> Seq<NativeChange> {
    match s {
        Some(cur) if cur != style_of(c.window_theme) => seq![
            NativeChange::SetInterfaceStyle(style_of(c.window_theme)),
        ],
        _ => seq![],
    }
}

pub open spec fn scene_changes(c: ConfigView, s: Option<SceneView>) -> Seq<NativeChange> {
    match s {
        None => seq![],
        Some(s) => title_changes(c, s) + size_changes(c, s.size_restrictions) + behavior_changes(
            c,
            s.windowing_behaviors,
        ),
    }
}

/// The writes that bring the host in line with the configuration, in order:
/// scene title, minimum size, maximum size, full-screen, minimize and close
/// controls, then appearance. A field is written only where it differs.
pub open spec fn planned_changes(c: ConfigView, n: NativeView) -> Seq<NativeChange> {
    scene_changes(c, n.scene) + style_changes(c, n.interface_style)
}

/// What one write does to the host.
pub open spec fn apply_change(c: ConfigView, n: NativeView, ch: NativeChange) -> NativeView {
    match ch {
        NativeChange::SetTitle => match n.scene {
            Some(s) => NativeView { scene: Some(SceneView { title: c.title, ..s }), ..n },
            None => n,
        },
        NativeChange::SetMinimumSize(v) => match n.scene {
            Some(s) => match s.size_restrictions {
                Some(r) => NativeView {
                    scene: Some(
                        SceneView {
                            size_restrictions: Some(SizeRestrictions { minimum_size: v, ..r }),
                            ..s
                        },
                    ),
                    ..n
                },
                None => n,
            },
            None => n,
        },
        NativeChange::SetMaximumSize(v) => match n.scene {
            Some(s) => match s.size_restrictions {
                Some(r) => NativeView {
                    scene: Some(
                        SceneView {
                            size_restrictions: Some(SizeRestrictions { maximum_size: v, ..r }),
                            ..s
                        },
                    ),
                    ..n
                },
                None => n,
            },
            None => n,
        },
        NativeChange::SetAllowsFullScreen(v) => match n.scene {
            Some(s) => match s.size_restrictions {
                Some(r) => match r.allows_full_screen {
                    Some(_) => NativeView {
                        scene: Some(
                            SceneView {
                                size_restrictions: Some(
                                    SizeRestrictions { allows_full_screen: Some(v), ..r },
                                ),
                                ..s
                            },
                        ),
                        ..n
                    },
                    None => n,
                },
                None => n,
            },
            None => n,
        },
        NativeChange::SetMiniaturizable(v) => match n.scene {
            Some(s) => match s.windowing_behaviors {
                Some(b) => NativeView {
                    scene: Some(
                        SceneView {
                            windowing_behaviors: Some(WindowingBehaviors { miniaturizable: v, ..b }),
                            ..s
                        },
                    ),
                    ..n
                },
                None => n,
            },
            None => n,
        },
        NativeChange::SetClosable(v) => match n.scene {
            Some(s) => match s.windowing_behaviors {
                Some(b) => NativeView {
                    scene: Some(
                        SceneView {
                            windowing_behaviors: Some(WindowingBehaviors { closable: v, ..b }),
                            ..s
                        },
                    ),
                    ..n
                },
                None => n,
            },
            None => n,
        },
        NativeChange::SetInterfaceStyle(v) => match n.interface_style {
            Some(_) => NativeView { interface_style: Some(v), ..n },
            None => n,
        },
    }
}

/// What a sequence of writes does to the host, in order.
pub open spec fn apply_changes(c: ConfigView, n: NativeView, chs: Seq<NativeChange>) -> NativeView
    decreases chs.len(),
{
    if chs.len() == 0 {
        n
    } else {
        apply_change(c, apply_changes(c, n, chs.drop_last()), chs.last())
    }
}

fn plan_size_changes(config: &WindowConfig, restrictions: &SizeRestrictions) -> (r: Vec<
    NativeChange,
>)
    ensures
        r@ == size_changes(config@, Some(*restrictions)),
{
    let mut r: Vec<NativeChange> = Vec::new();
    let rc = config.resize_constraints;
    let min = Size { width: avoid_inf(rc.min_width), height: avoid_inf(rc.min_height) };
    if !size_equals(min, restrictions.minimum_size) {
        r.push(NativeChange::SetMinimumSize(min));
    }
    let max = Size { width: avoid_inf(rc.max_width), height: avoid_inf(rc.max_height) };
    if !size_equals(max, restrictions.maximum_size) {
        r.push(NativeChange::SetMaximumSize(max));
    }
    let full = config.enabled_buttons.maximize;
    if let Some(v) = restrictions.allows_full_screen {
        if v != full {
            r.push(NativeChange::SetAllowsFullScreen(full));
        }
    }
    r
}

fn plan_behavior_changes(config: &WindowConfig, behaviors: &WindowingBehaviors) -> (r: Vec<
    NativeChange,
>)
    ensures
        r@ == behavior_changes(config@, Some(*behaviors)),
{
    let mut r: Vec<NativeChange> = Vec::new();
    let minimize = config.enabled_buttons.minimize;
    if behaviors.miniaturizable != minimize {
        r.push(NativeChange::SetMiniaturizable(minimize));
    }
    let close = config.enabled_buttons.close;
    if behaviors.closable != close {
        r.push(NativeChange::SetClosable(close));
    }
    assert(r@ =~= behavior_changes(config@, Some(*behaviors)));
    r
}

fn plan_scene_changes(config: &WindowConfig, scene: &SceneState) -> (r: Vec<NativeChange>)
    ensures
        r@ == scene_changes(config@, Some(scene@)),
{
    let mut r: Vec<NativeChange> = Vec::new();
    if scene.title != config.title {
        r.push(NativeChange::SetTitle);
    }
    assert(r@ =~= title_changes(config@, scene@));
    if let Some(restrictions) = &scene.size_restrictions {
        let mut more = plan_size_changes(config, restrictions);
        r.append(&mut more);
    } else {
        assert(r@ =~= r@ + size_changes(config@, scene.size_restrictions));
    }
    if let Some(behaviors) = &scene.windowing_behaviors {
        let mut more = plan_behavior_changes(config, behaviors);
        r.append(&mut more);
    } else {
        assert(r@ =~= r@ + behavior_changes(config@, scene.windowing_behaviors));
    }
    r
}

/// Plans the writes that bring the host's window in line with `config`.
pub fn plan_window_changes(config: &WindowConfig, native: &NativeWindowState) -> (r: Vec<
    NativeChange,
>)
    ensures
        r@ == planned_changes(config@, native@),
{
    let mut r: Vec<NativeChange> = match &native.scene {
        Some(scene) => plan_scene_changes(config, scene),
        None => Vec::new(),
    };
    assert(r@ =~= scene_changes(config@, native@.scene));
    let ghost after_scene = r@;
    if let Some(current) = native.interface_style {
        let style = interface_style(config.window_theme);
        if current != style {
            r.push(NativeChange::SetInterfaceStyle(style));
        }
    }
    assert(r@ =~= after_scene + style_changes(config@, native.interface_style));
    r
}

/// The size restrictions once the configuration has been written: a size
/// that already compared equal keeps the host's value.
pub open spec fn synced_size(c: ConfigView, r: SizeRestrictions) -> SizeRestrictions {
    let min = c.resize_constraints.native_min();
    let max = c.resize_constraints.native_max();
    SizeRestrictions {
        minimum_size: if size_eq(min, r.minimum_size) {
            r.minimum_size
        } else {
            min
        },
        maximum_size: if size_eq(max, r.maximum_size) {
            r.maximum_size
        } else {
            max
        },
        allows_full_screen: match r.allows_full_screen {
            Some(_) => Some(c.enabled_buttons.maximize),
            None => None,
        },
    }
}

pub open spec fn synced_scene(c: ConfigView, s: SceneView) -> SceneView {
    SceneView {
        title: c.title,
        size_restrictions: match s.size_restrictions {
            Some(r) => Some(synced_size(c, r)),
            None => None,
        },
        windowing_behaviors: match s.windowing_behaviors {
            Some(_) => Some(
                WindowingBehaviors {
                    miniaturizable: c.enabled_buttons.minimize,
                    closable: c.enabled_buttons.close,
                },
            ),
            None => None,
        },
    }
}

/// The host's state once the configuration has been written.
pub open spec fn synced(c: ConfigView, n: NativeView) -> NativeView {
    NativeView {
        scene: match n.scene {
            Some(s) => Some(synced_scene(c, s)),
            None => None,
        },
        interface_style: match n.interface_style {
            Some(_) => Some(style_of(c.window_theme)),
            None => None,
        },
    }
}

proof fn lemma_apply_single(c: ConfigView, n: NativeView, x: NativeChange)
    ensures
        apply_changes(c, n, seq![x]) == apply_change(c, n, x),
{
    assert(seq![x].drop_last() =~= Seq::<NativeChange>::empty());
    assert(apply_changes(c, n, Seq::<NativeChange>::empty()) == n);
    assert(seq![x].last() == x);
}

proof fn lemma_apply_concat(c: ConfigView, n: NativeView, a: Seq<NativeChange>, b: Seq<NativeChange>)
    ensures
        apply_changes(c, n, a + b) == apply_changes(c, apply_changes(c, n, a), b),
    decreases b.len(),
{
    if b.len() == 0 {
        assert(a + b =~= a);
    } else {
        assert((a + b).drop_last() =~= a + b.drop_last());
        assert((a + b).last() == b.last());
        lemma_apply_concat(c, n, a, b.drop_last());
    }
}

/// Applies a sequence of zero or one writes.
proof fn lemma_apply_optional(c: ConfigView, n: NativeView, a: Seq<NativeChange>)
    requires
        a.len() <= 1,
    ensures
        a.len() == 0 ==> apply_changes(c, n, a) == n,
        a.len() == 1 ==> apply_changes(c, n, a) == apply_change(c, n, a[0]),
{
    if a.len() == 1 {
        assert(a =~= seq![a[0]]);
        lemma_apply_single(c, n, a[0]);
    }
}

proof fn lemma_apply_size(c: ConfigView, n: NativeView, s: SceneView, r: SizeRestrictions)
    requires
        n.scene == Some(s),
        s.size_restrictions == Some(r),
    ensures
        apply_changes(c, n, size_changes(c, Some(r))) == (NativeView {
            scene: Some(SceneView { size_restrictions: Some(synced_size(c, r)), ..s }),
            ..n
        }),
{
    let min = c.resize_constraints.native_min();
    let max = c.resize_constraints.native_max();
    let full = c.enabled_buttons.maximize;
    let a: Seq<NativeChange> = if size_eq(min, r.minimum_size) {
        seq![]
    } else {
        seq![NativeChange::SetMinimumSize(min)]
    };
    let b: Seq<NativeChange> = if size_eq(max, r.maximum_size) {
        seq![]
    } else {
        seq![NativeChange::SetMaximumSize(max)]
    };
    let f: Seq<NativeChange> = match r.allows_full_screen {
        Some(v) if v != full => seq![NativeChange::SetAllowsFullScreen(full)],
        _ => seq![],
    };
    assert(size_changes(c, Some(r)) == a + b + f);
    lemma_apply_concat(c, n, a + b, f);
    lemma_apply_concat(c, n, a, b);
    lemma_apply_optional(c, n, a);
    let n1 = apply_changes(c, n, a);
    let r1 = SizeRestrictions { minimum_size: synced_size(c, r).minimum_size, ..r };
    assert(n1 == NativeView {
        scene: Some(SceneView { size_restrictions: Some(r1), ..s }),
        ..n
    });
    lemma_apply_optional(c, n1, b);
    let n2 = apply_changes(c, n1, b);
    let r2 = SizeRestrictions { maximum_size: synced_size(c, r).maximum_size, ..r1 };
    assert(n2 == NativeView {
        scene: Some(SceneView { size_restrictions: Some(r2), ..s }),
        ..n
    });
    lemma_apply_optional(c, n2, f);
}

proof fn lemma_apply_behaviors(c: ConfigView, n: NativeView, s: SceneView, w: WindowingBehaviors)
    requires
        n.scene == Some(s),
        s.windowing_behaviors == Some(w),
    ensures
        apply_changes(c, n, behavior_changes(c, Some(w))) == (NativeView {
            scene: Some(
                SceneView {
                    windowing_behaviors: Some(
                        WindowingBehaviors {
                            miniaturizable: c.enabled_buttons.minimize,
                            closable: c.enabled_buttons.close,
                        },
                    ),
                    ..s
                },
            ),
            ..n
        }),
{
    let a: Seq<NativeChange> = if w.miniaturizable == c.enabled_buttons.minimize {
        seq![]
    } else {
        seq![NativeChange::SetMiniaturizable(c.enabled_buttons.minimize)]
    };
    let b: Seq<NativeChange> = if w.closable == c.enabled_buttons.close {
        seq![]
    } else {
        seq![NativeChange::SetClosable(c.enabled_buttons.close)]
    };
    lemma_apply_concat(c, n, a, b);
    lemma_apply_optional(c, n, a);
    let n1 = apply_changes(c, n, a);
    let w1 = WindowingBehaviors { miniaturizable: c.enabled_buttons.minimize, ..w };
    assert(n1 == NativeView {
        scene: Some(SceneView { windowing_behaviors: Some(w1), ..s }),
        ..n
    });
    lemma_apply_optional(c, n1, b);
}

proof fn lemma_apply_scene(c: ConfigView, n: NativeView, s: SceneView)
    requires
        n.scene == Some(s),
    ensures
        apply_changes(c, n, scene_changes(c, Some(s))) == (NativeView {
            scene: Some(synced_scene(c, s)),
            ..n
        }),
{
    let t = title_changes(c, s);
    let z = size_changes(c, s.size_restrictions);
    let b = behavior_changes(c, s.windowing_behaviors);
    lemma_apply_concat(c, n, t + z, b);
    lemma_apply_concat(c, n, t, z);
    lemma_apply_optional(c, n, t);
    let s1 = SceneView { title: c.title, ..s };
    let n1 = apply_changes(c, n, t);
    assert(n1 == NativeView { scene: Some(s1), ..n });
    let s2 = SceneView { size_restrictions: synced_scene(c, s).size_restrictions, ..s1 };
    let n2 = apply_changes(c, n1, z);
    match s.size_restrictions {
        Some(r) => lemma_apply_size(c, n1, s1, r),
        None => {},
    }
    assert(n2 == NativeView { scene: Some(s2), ..n });
    match s.windowing_behaviors {
        Some(w) => lemma_apply_behaviors(c, n2, s2, w),
        None => {},
    }
}

/// Writing the planned changes brings the host to the synced state.
pub proof fn lemma_apply_planned(c: ConfigView, n: NativeView)
    ensures
        apply_changes(c, n, planned_changes(c, n)) == synced(c, n),
{
    let sc = scene_changes(c, n.scene);
    let st = style_changes(c, n.interface_style);
    lemma_apply_concat(c, n, sc, st);
    let n1 = apply_changes(c, n, sc);
    match n.scene {
        Some(s) => lemma_apply_scene(c, n, s),
        None => {},
    }
    assert(n1 == NativeView { scene: synced(c, n).scene, ..n });
    lemma_apply_optional(c, n1, st);
}

/// Synchronizing twice with no change in between: the second pass plans no
/// write at all.
pub proof fn lemma_sync_idempotent(c: ConfigView, n: NativeView)
    ensures
        planned_changes(c, apply_changes(c, n, planned_changes(c, n))) == Seq::<NativeChange>::empty(),
{
    lemma_apply_planned(c, n);
    let m = synced(c, n);
    assert(scene_changes(c, m.scene) =~= Seq::<NativeChange>::empty());
    assert(planned_changes(c, m) =~= Seq::<NativeChange>::empty());
}

/// An unbounded maximum never reaches the host: positive infinity and NaN
/// become `f32::MAX`, and what the host is given is never either of them.
pub proof fn lemma_no_infinite_bound(rc: ResizeConstraints)
    ensures
        !is_positive_infinity(rc.native_max().width) && !is_nan(rc.native_max().width),
        !is_positive_infinity(rc.native_max().height) && !is_nan(rc.native_max().height),
        !is_positive_infinity(rc.native_min().width) && !is_nan(rc.native_min().width),
        !is_positive_infinity(rc.native_min().height) && !is_nan(rc.native_min().height),
        is_positive_infinity(rc.max_width) ==> rc.native_max().width == F32_MAX_BITS,
        is_positive_infinity(rc.max_height) ==> rc.native_max().height == F32_MAX_BITS,
{
}

impl NativeWindowState {
    /// Performs one write on this record of the host's state, as the host
    /// would.
    pub fn apply(&mut self, config: &WindowConfig, change: NativeChange)
        ensures
            final(self)@ == apply_change(config@, old(self)@, change),
    {
        match change {
            NativeChange::SetTitle => {
                if let Some(scene) = &mut self.scene {
                    scene.title = config.title.clone();
                }
            },
            NativeChange::SetMinimumSize(v) => {
                if let Some(scene) = &mut self.scene {
                    if let Some(r) = &mut scene.size_restrictions {
                        r.minimum_size = v;
                    }
                }
            },
            NativeChange::SetMaximumSize(v) => {
                if let Some(scene) = &mut self.scene {
                    if let Some(r) = &mut scene.size_restrictions {
                        r.maximum_size = v;
                    }
                }
            },
            NativeChange::SetAllowsFullScreen(v) => {
                if let Some(scene) = &mut self.scene {
                    if let Some(r) = &mut scene.size_restrictions {
                        if r.allows_full_screen.is_some() {
                            r.allows_full_screen = Some(v);
                        }
                    }
                }
            },
            NativeChange::SetMiniaturizable(v) => {
                if let Some(scene) = &mut self.scene {
                    if let Some(b) = &mut scene.windowing_behaviors {
                        b.miniaturizable = v;
                    }
                }
            },
            NativeChange::SetClosable(v) => {
                if let Some(scene) = &mut self.scene {
                    if let Some(b) = &mut scene.windowing_behaviors {
                        b.closable = v;
                    }
                }
            },
            NativeChange::SetInterfaceStyle(v) => {
                if self.interface_style.is_some() {
                    self.interface_style = Some(v);
                }
            },
        }
    }
}

/// Performs a sequence of writes on a record of the host's state, in order.
pub fn apply_window_changes(
    native: &mut NativeWindowState,
    config: &WindowConfig,
    changes: &Vec<NativeChange>,
)
    ensures
        final(native)@ == apply_changes(config@, old(native)@, changes@),
{
    let mut i: usize = 0;
    while i < changes.len()
        invariant
            i <= changes@.len(),
            native@ == apply_changes(config@, old(native)@, changes@.subrange(0, i as int)),
        decreases changes@.len() - i,
    {
        proof {
            let next = changes@.subrange(0, i as int + 1);
            assert(next.drop_last() =~= changes@.subrange(0, i as int));
            assert(next.last() == changes@[i as int]);
        }
        native.apply(config, changes[i]);
        i = i + 1;
    }
    assert(changes@.subrange(0, i as int) =~= changes@);
}

} // verus!
