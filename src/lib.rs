//! A windowing backend that bridges an engine's window entities to a mobile
//! GUI host's application and scene lifecycle.
//!
//! The library holds the decisions: which entity a connecting scene is for,
//! what each lifecycle callback asks of the engine, which writes bring the
//! host's window in line with a window's configuration, and when a message
//! to the running application must wait for the run loop. The host binding
//! performs what these decisions return.
use vstd::prelude::*;

pub mod host;
pub mod lifecycle;
pub mod registry;
pub mod synchronizer;
pub mod systems;

pub use crate::registry::{UIKitWindow, UIKitWindows};
pub use crate::systems::{changed_windows, create_windows, despawn_windows, disallow_app_exit};

verus! {

/// The plugin that drives an application through the host's lifecycle
/// callbacks.
#[derive(Debug, Default, Clone, Copy)]
pub struct UIKitPlugin;

impl UIKitPlugin {
    /// The plugin's name, unique among the application's plugins.
    pub fn name(&self) -> (r: &'static str)
        ensures
            r@ == "bevy_uikit::UIKitPlugin"@,
    {
        "bevy_uikit::UIKitPlugin"
    }
}

/// Settings of the plugin. There are none yet.
#[derive(Debug, Default, Clone, Copy, PartialEq, Eq)]
pub struct UIKitSettings {}

} // verus!
