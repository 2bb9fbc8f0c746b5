//! The values that travel between the proxy and its hooks.
use vstd::prelude::*;

verus! {

/// The way a payload travels through the proxy.
#[derive(Debug, Clone, Copy, PartialEq, Eq, Structural, PartialOrd, Ord, Hash)]
pub enum Direction {
    ClientToTarget,
    TargetToClient,
}

impl Default for Direction {
    fn default() -> (d: Direction)
        ensures
            d == Direction::ClientToTarget,
    {
        Direction::ClientToTarget
    }
}

impl Direction {
    /// True when the payload was sent by the client.
    pub fn from_client(&self) -> (r: bool)
        ensures
            r == (*self == Direction::ClientToTarget),
    {
        matches!(self, Direction::ClientToTarget)
    }

    /// True when the payload was sent by a target.
    pub fn from_target(&self) -> (r: bool)
        ensures
            r == (*self == Direction::TargetToClient),
    {
        matches!(self, Direction::TargetToClient)
    }

    /// True when the payload is on its way to the client.
    pub fn to_client(&self) -> (r: bool)
        ensures
            r == (*self == Direction::TargetToClient),
    {
        matches!(self, Direction::TargetToClient)
    }

    /// True when the payload is on its way to a target.
    pub fn to_target(&self) -> (r: bool)
        ensures
            r == (*self == Direction::ClientToTarget),
    {
        matches!(self, Direction::ClientToTarget)
    }
}

/// One payload handed to the hook chain.
#[derive(Debug)]
pub struct HookRequest {
    pub direction: Direction,
    pub target_name: String,
    pub data: Vec<u8>,
}

/// What a [`HookRequest`] is in contracts.
pub struct RequestModel {
    pub direction: Direction,
    pub target_name: Seq<char>,
    pub data: Seq<u8>,
}

impl View for HookRequest {
    type V = RequestModel;

    open spec fn view(&self) -> RequestModel {
        RequestModel {
            direction: self.direction,
            target_name: self.target_name@,
            data: self.data@,
        }
    }
}

impl Clone for HookRequest {
    fn clone(&self) -> (r: HookRequest)
        ensures
            r@ == self@,
    {
        HookRequest {
            direction: self.direction,
            target_name: self.target_name.clone(),
            data: self.data.clone(),
        }
    }
}

impl HookRequest {
    /// The request for `data`, travelling in `direction`, to or from the
    /// target `target_name`.
    pub fn new(direction: Direction, target_name: String, data: Vec<u8>) -> (r: HookRequest)
        ensures
            r.direction == direction,
            r.target_name == target_name,
            r.data == data,
    {
        HookRequest { direction, target_name, data }
    }
}

/// The payload that leaves the hook chain.
#[derive(Debug)]
pub struct HookResponse {
    pub data: Vec<u8>,
}

impl View for HookResponse {
    type V = Seq<u8>;

    open spec fn view(&self) -> Seq<u8> {
        self.data@
    }
}

impl HookResponse {
    /// The response that carries `data`.
    pub fn new(data: Vec<u8>) -> (r: HookResponse)
        ensures
            r.data == data,
    {
        HookResponse { data }
    }
}

} // verus!
