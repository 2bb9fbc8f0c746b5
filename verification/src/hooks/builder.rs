//! Step-by-step construction of a hook.
use vstd::prelude::*;
use crate::hooks::types::Direction;
use crate::hooks::Hook;

verus! {

/// A hook under construction.
pub struct HookBuilder<F> {
    pub direction: Option<Direction>,
    pub target_name: Option<String>,
    pub trigger_fn: F,
}

impl<F> HookBuilder<F> {
    /// A builder around `trigger_fn` with both filters absent.
    pub fn new(trigger_fn: F) -> (b: HookBuilder<F>)
        ensures
            b.direction is None,
            b.target_name is None,
            b.trigger_fn == trigger_fn,
    {
        HookBuilder { direction: None, target_name: None, trigger_fn }
    }

    /// Restricts the hook to payloads that travel in `direction`.
    pub fn direction(self, direction: Direction) -> (b: HookBuilder<F>)
        ensures
            b.direction == Some(direction),
            b.target_name == self.target_name,
            b.trigger_fn == self.trigger_fn,
    {
        HookBuilder {
            direction: Some(direction),
            target_name: self.target_name,
            trigger_fn: self.trigger_fn,
        }
    }

    /// Restricts the hook to payloads to or from the target `target_name`.
    pub fn target_name(self, target_name: String) -> (b: HookBuilder<F>)
        ensures
            b.direction == self.direction,
            b.target_name == Some(target_name),
            b.trigger_fn == self.trigger_fn,
    {
        HookBuilder {
            direction: self.direction,
            target_name: Some(target_name),
            trigger_fn: self.trigger_fn,
        }
    }

    /// The hook with the filters chosen so far.
    pub fn build(self) -> (h: Hook<F>)
        ensures
            h.direction == self.direction,
            h.target_name == self.target_name,
            h.trigger_fn == self.trigger_fn,
    {
        Hook {
            direction: self.direction,
            target_name: self.target_name,
            trigger_fn: self.trigger_fn,
        }
    }
}

} // verus!
