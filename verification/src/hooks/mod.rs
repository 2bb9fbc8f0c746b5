//! Hooks: filters with a trigger that may rewrite or reject a payload.
use vstd::prelude::*;
use crate::error::Result;

pub mod builder;
pub mod chain;
pub mod laws;
pub mod types;

pub use self::builder::HookBuilder;
pub use self::chain::{execute, Verdict};
pub use self::types::{Direction, HookRequest, HookResponse, RequestModel};

verus! {

/// What a trigger hands back: `Ok(Some(..))` replaces the payload, `Ok(None)`
/// keeps it, and an error rejects it.
pub type TriggerOutput = Result<Option<HookResponse>>;

/// A trigger with two optional filters. A filter that is absent lets every
/// request through.
pub struct Hook<F> {
    pub direction: Option<Direction>,
    pub target_name: Option<String>,
    pub trigger_fn: F,
}

/// The filters of a [`Hook`] as plain values.
pub struct HookFilter {
    pub direction: Option<Direction>,
    pub target_name: Option<Seq<char>>,
}

impl HookFilter {
    /// True when both filters let `request` through.
    pub open spec fn accepts(self, request: RequestModel) -> bool {
        &&& (self.direction matches Some(d) ==> d == request.direction)
        &&& (self.target_name matches Some(n) ==> n == request.target_name)
    }
}

impl<F> Hook<F> {
    /// The filters of this hook.
    pub open spec fn filter(&self) -> HookFilter {
        HookFilter {
            direction: self.direction,
            target_name: match self.target_name {
                Some(n) => Some(n@),
                None => None,
            },
        }
    }

    /// Starts a hook around `trigger_fn` that lets every request through.
    pub fn builder(trigger_fn: F) -> (b: HookBuilder<F>)
        ensures
            b.direction is None,
            b.target_name is None,
            b.trigger_fn == trigger_fn,
    {
        HookBuilder::new(trigger_fn)
    }

    /// Tells whether this hook's trigger is to run on `request`.
    pub fn matches(&self, request: &HookRequest) -> (m: bool)
        ensures
            m == self.filter().accepts(request@),
    {
        if let Some(direction) = self.direction {
            if direction != request.direction {
                return false;
            }
        }
        if let Some(target_name) = &self.target_name {
            if !(*target_name == request.target_name) {
                return false;
            }
        }
        true
    }
}

/// What precedes a payload on its way to a hook.
#[derive(Debug, Clone, Copy, PartialEq, Eq, Structural)]
pub struct Header {
    pub direction: Direction,
}

} // verus!
