//! Keys under which visual effects are registered.
use vstd::prelude::*;

verus! {

/// Unique identifier for a managed effect. Spawning an effect under a key
/// replaces the effect running under that key.
#[derive(Debug, Clone, PartialEq, Eq, PartialOrd, Ord, Hash)]
pub enum EffectKey {
    /// Startup splash screen animation
    Splash,
    /// Dialog open/close transition
    DialogTransition,
    /// Animation on a specific task row (by task ID)
    TaskRow(String),
    /// View change transition
    ViewTransition,
    /// Ambient effect on empty state artwork
    EmptyState,
}

impl Default for EffectKey {
    fn default() -> (r: Self)
        ensures
            r is Splash,
    {
        EffectKey::Splash
    }
}

} // verus!
