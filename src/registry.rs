//! The registry of windows that have been materialized on the host.
//!
//! A window entity is named by its identifier's bits; the native handles are
//! whatever the host binding stores for a scene and a window.
use vstd::prelude::*;
use std::collections::HashMap;

verus! {

broadcast use vstd::std_specs::hash::group_hash_axioms;

/// The host's handles for one window. `scene` is absent where the host has no
/// independent scenes (single-window mode).
#[derive(Debug)]
pub struct UIKitWindow<S, W> {
    pub scene: Option<S>,
    pub uiwindow: W,
}

/// Maps window entities to their host handles.
///
/// An entity is registered at most once: a second registration is a defect
/// in the caller, so `insert` requires the entity to be absent.
#[derive(Debug)]
pub struct UIKitWindows<S, W> {
    entity_to_uikit: HashMap<u64, UIKitWindow<S, W>>,
}

impl<S, W> View for UIKitWindows<S, W> {
    type V = Map<u64, UIKitWindow<S, W>>;

    closed spec fn view(&self) -> Map<u64, UIKitWindow<S, W>> {
        self.entity_to_uikit@
    }
}

impl<S, W> UIKitWindows<S, W> {
    /// An empty registry.
    pub fn new() -> (r: Self)
        ensures
            r@ == Map::<u64, UIKitWindow<S, W>>::empty(),
    {
        UIKitWindows { entity_to_uikit: HashMap::new() }
    }

    /// The handles registered for `entity`, if any.
    pub fn get(&self, entity: u64) -> (r: Option<&UIKitWindow<S, W>>)
        ensures
            match r {
                Some(w) => self@.contains_key(entity) && *w == self@[entity],
                None => !self@.contains_key(entity),
            },
    {
        self.entity_to_uikit.get(&entity)
    }

    /// Whether `entity` has been materialized on the host.
    pub fn is_initialized(&self, entity: u64) -> (r: bool)
        ensures
            r == self@.contains_key(entity),
    {
        self.get(entity).is_some()
    }

    /// Registers the handles of a newly materialized window.
    pub fn insert(&mut self, entity: u64, uikit_window: UIKitWindow<S, W>)
        requires
            !old(self)@.contains_key(entity),
        ensures
            final(self)@ == old(self)@.insert(entity, uikit_window),
    {
        let _ = self.entity_to_uikit.insert(entity, uikit_window);
    }

    /// Unregisters `entity`, handing back its handles if it was registered.
    pub fn remove(&mut self, entity: u64) -> (r: Option<UIKitWindow<S, W>>)
        ensures
            final(self)@ == old(self)@.remove(entity),
            match r {
                Some(w) => old(self)@.contains_key(entity) && w == old(self)@[entity],
                None => !old(self)@.contains_key(entity),
            },
    {
        self.entity_to_uikit.remove(&entity)
    }

    /// The number of registered windows.
    pub fn len(&self) -> (r: usize)
        ensures
            r == self@.len(),
    {
        self.entity_to_uikit.len()
    }
}

impl<S, W> Default for UIKitWindows<S, W> {
    fn default() -> (r: Self)
        ensures
            r@ == Map::<u64, UIKitWindow<S, W>>::empty(),
    {
        Self::new()
    }
}

} // verus!
