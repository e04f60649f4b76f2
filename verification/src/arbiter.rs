//! Active-screen arbiter: decides, from the cursor position and the
//! registry, which endpoint currently owns input focus.
//!
//! Once a remote owns the focus, this machine is no longer authoritative
//! over the cursor, so the arbiter never recomputes or clears ownership;
//! no hand-back transition exists.

use crate::registry::{ClientEndpoint, ClientRegistry};
use crate::Display;
use vstd::prelude::*;

verus! {

/// The fixed pixel margin against the right screen edge.
pub const EDGE_MARGIN: u64 = 10;

/// The edge test: the cursor column is within the margin of the right
/// edge, that is `x >= width - EDGE_MARGIN`, stated without subtraction so
/// that a width smaller than the margin means the whole screen is edge.
pub open spec fn spec_at_right_edge(x: u64, width: u64) -> bool {
    x + EDGE_MARGIN >= width
}

/// Focus owner, if any.
#[derive(Debug)]
pub struct ScreenArbiter {
    active: Option<ClientEndpoint>,
}

impl View for ScreenArbiter {
    type V = Option<ClientEndpoint>;

    closed spec fn view(&self) -> Option<ClientEndpoint> {
        self.active
    }
}

impl ScreenArbiter {
    /// A fresh arbiter: the local screen owns the input.
    pub fn new() -> (r: ScreenArbiter)
        ensures
            r@ is None,
    {
        ScreenArbiter { active: None }
    }

    /// The endpoint currently holding input focus, read by the dispatch
    /// engine before every outbound send.
    pub fn active(&self) -> (r: Option<ClientEndpoint>)
        ensures
            r == self@,
    {
        self.active
    }

    /// The focus-handoff decision for a cursor at `(x, y)` in local pixel
    /// space. While a remote owns the focus nothing changes, whatever the
    /// cursor does: no hand-back is modeled. While the focus is local, it
    /// moves to the first registered endpoint exactly when some endpoint
    /// is registered and the cursor reaches the right-edge margin.
    pub fn active_client(&mut self, x: u64, _y: u64, display: &Display, registry: &ClientRegistry)
        ensures
            old(self)@ is Some ==> final(self)@ == old(self)@,
            old(self)@ is None && registry@.len() > 0 && spec_at_right_edge(x, display.width)
                ==> final(self)@ == Some(registry@[0]),
            old(self)@ is None && !(registry@.len() > 0 && spec_at_right_edge(x, display.width))
                ==> final(self)@ is None,
    {
        if self.active.is_none() {
            if registry.len() > 0 {
                if display.width <= EDGE_MARGIN || x >= display.width - EDGE_MARGIN {
                    self.active = Some(registry.get(0));
                }
            }
        }
    }
}

} // verus!
