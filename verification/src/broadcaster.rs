//! The broadcaster: it owns a session's target links and mirrors every client
//! payload to them, each through the hook chain.
use vstd::prelude::*;
use crate::endpoint::Endpoint;
use crate::error::{Error, ErrorModel, Result};
use crate::hooks::chain::{execute, outcome_of, ran, Outcome};
use crate::hooks::types::{Direction, HookRequest, HookResponse, RequestModel};
use crate::hooks::{Hook, TriggerOutput};
use crate::server::{Message, MessageModel};
use crate::target::{Target, TargetModel};

verus! {

/// A client payload to be mirrored to every target.
#[derive(Debug)]
pub struct BroadcastRequest {
    pub bytes: Vec<u8>,
    pub from_addr: Endpoint,
}

/// What a [`BroadcastRequest`] is in contracts.
pub struct BroadcastModel {
    pub bytes: Seq<u8>,
    pub from_addr: Endpoint,
}

impl View for BroadcastRequest {
    type V = BroadcastModel;

    open spec fn view(&self) -> BroadcastModel {
        BroadcastModel { bytes: self.bytes@, from_addr: self.from_addr }
    }
}

impl Clone for BroadcastRequest {
    fn clone(&self) -> (copy: BroadcastRequest)
        ensures
            copy@ == self@,
    {
        BroadcastRequest { bytes: self.bytes.clone(), from_addr: self.from_addr }
    }
}

/// What becomes of one payload at one target.
#[derive(Debug)]
pub enum Dispatch {
    /// These bytes are to be written to the target.
    Send { target: String, bytes: Vec<u8> },
    /// A hook rejected the payload: the target gets nothing of it.
    Skip { target: String, cause: Error },
    /// The link is disconnected: the payload is dropped for this target.
    Offline { target: String },
}

/// What a [`Dispatch`] is in contracts.
pub enum DispatchModel {
    Send { target: Seq<char>, bytes: Seq<u8> },
    Skip { target: Seq<char>, cause: ErrorModel },
    Offline { target: Seq<char> },
}

impl View for Dispatch {
    type V = DispatchModel;

    open spec fn view(&self) -> DispatchModel {
        match *self {
            Dispatch::Send { target, bytes } => DispatchModel::Send {
                target: target@,
                bytes: bytes@,
            },
            Dispatch::Skip { target, cause } => DispatchModel::Skip {
                target: target@,
                cause: cause@,
            },
            Dispatch::Offline { target } => DispatchModel::Offline { target: target@ },
        }
    }
}

/// The request that the hook chain gets for `bytes` on their way to the
/// target `name`.
pub open spec fn request_for(name: Seq<char>, bytes: Seq<u8>) -> RequestModel {
    RequestModel { direction: Direction::ClientToTarget, target_name: name, data: bytes }
}

/// What becomes of a payload at `target` once the hook chain has answered
/// with `outcome`.
pub open spec fn dispatch_for(target: TargetModel, outcome: Outcome) -> DispatchModel {
    match outcome {
        Err(cause) => DispatchModel::Skip { target: target.name, cause },
        Ok(bytes) => if target.connected {
            DispatchModel::Send { target: target.name, bytes }
        } else {
            DispatchModel::Offline { target: target.name }
        },
    }
}

/// True when `dispatch` is what becomes of the payload `bytes` at `target`
/// for some run of the hook chain: for outputs that the triggers that run can
/// hand back for the request.
pub open spec fn dispatched<F: Fn(HookRequest) -> TriggerOutput>(
    hooks: Seq<Hook<F>>,
    target: TargetModel,
    bytes: Seq<u8>,
    dispatch: DispatchModel,
) -> bool {
    exists|outcome: Outcome|
        ran(hooks, request_for(target.name, bytes), outcome) && dispatch == #[trigger] dispatch_for(
            target,
            outcome,
        )
}

/// What every link gets of one payload, where `outcomes[j]` is the hook
/// chain's answer for the link at position `j`.
pub open spec fn plan(targets: Seq<TargetModel>, outcomes: Seq<Outcome>) -> Seq<DispatchModel> {
    Seq::new(targets.len(), |j: int| dispatch_for(targets[j], outcomes[j]))
}

/// The bytes that `dispatch` has written to the target `name`.
pub open spec fn sent_to(dispatch: DispatchModel, name: Seq<char>) -> Seq<u8> {
    match dispatch {
        DispatchModel::Send { target, bytes } => if target == name {
            bytes
        } else {
            Seq::empty()
        },
        _ => Seq::empty(),
    }
}

/// The bytes that the target `name` receives when `dispatches` are carried
/// out in order.
pub open spec fn target_stream(dispatches: Seq<DispatchModel>, name: Seq<char>) -> Seq<u8>
    decreases dispatches.len(),
{
    if dispatches.len() == 0 {
        Seq::empty()
    } else {
        target_stream(dispatches.drop_last(), name) + sent_to(dispatches.last(), name)
    }
}

/// The links of a list of targets, as they are in contracts.
pub open spec fn links(targets: Seq<Target>) -> Seq<TargetModel> {
    Seq::new(targets.len(), |i: int| targets[i]@)
}

/// The target links of one session, in the order in which they were made.
#[derive(Debug)]
pub struct Broadcaster {
    pub targets: Vec<Target>,
}

impl View for Broadcaster {
    type V = Seq<TargetModel>;

    open spec fn view(&self) -> Seq<TargetModel> {
        links(self.targets@)
    }
}

impl Broadcaster {
    /// A broadcaster without targets.
    pub fn new() -> (broadcaster: Broadcaster)
        ensures
            broadcaster@ == Seq::<TargetModel>::empty(),
    {
        let broadcaster = Broadcaster { targets: Vec::new() };
        broadcaster
    }

    /// Takes in the outcome of the session's first connection to the target
    /// `name` at `target`.
    ///
    /// A connection, given by its peer's address, adds a connected link after
    /// the links that are there, and the message tells the server of it. A
    /// failure adds nothing and is the error that ends the session's start.
    pub fn connect(
        &mut self,
        name: String,
        target: Endpoint,
        attempt: std::result::Result<Endpoint, String>,
    ) -> (result: Result<Message>)
        ensures
            match attempt {
                Ok(peer) => {
                    &&& final(self)@ == old(self)@.push(
                        TargetModel { name: name@, addr: peer, connected: true },
                    )
                    &&& result matches Ok(message) && message@ == (MessageModel::TargetConnected {
                        name: name@,
                        addr: peer,
                    })
                },
                Err(cause) => {
                    &&& final(self)@ == old(self)@
                    &&& result matches Err(e) && e@ == (ErrorModel::ConnectionError {
                        target,
                        cause: cause@,
                    })
                },
            },
    {
        match attempt {
            Ok(peer) => {
                let message = Message::TargetConnected { name: name.clone(), addr: peer };
                self.targets.push(Target::new(name, peer));
                Ok(message)
            },
            Err(cause) => Err(Error::ConnectionError { target, cause }),
        }
    }

    /// Decides what becomes of a payload at `target` once the hook chain has
    /// answered: the bytes that left the chain are sent to a connected
    /// target and dropped for a disconnected one, and a payload that a hook
    /// rejected is skipped for this target.
    pub fn dispatch(target: &Target, response: Result<HookResponse>) -> (dispatch: Dispatch)
        ensures
            dispatch@ == dispatch_for(target@, outcome_of(response)),
    {
        match response {
            Err(cause) => Dispatch::Skip { target: target.name.clone(), cause },
            Ok(response) => {
                if target.connected {
                    Dispatch::Send { target: target.name.clone(), bytes: response.data }
                } else {
                    Dispatch::Offline { target: target.name.clone() }
                }
            },
        }
    }

    /// Mirrors one client payload to every target, in the order of the links.
    ///
    /// For each link the payload goes through the hook chain once, as a
    /// request in the direction client to target under the link's name, so
    /// that hooks can tell the targets apart. What leaves the chain is what
    /// the target gets; an error of a hook skips this target only. The list
    /// holds one entry for each link.
    pub fn new_broadcast<F: Fn(HookRequest) -> TriggerOutput>(
        &self,
        request: &BroadcastRequest,
        hooks: &Vec<Hook<F>>,
    ) -> (dispatches: Vec<Dispatch>)
        requires
            forall|i: int, r: HookRequest|
                0 <= i < hooks.len() ==> #[trigger] call_requires(hooks[i].trigger_fn, (r,)),
        ensures
            dispatches@.len() == self@.len(),
            forall|j: int|
                0 <= j < self@.len() ==> dispatched(
                    hooks@,
                    self@[j],
                    request.bytes@,
                    (#[trigger] dispatches@[j])@,
                ),
    {
        let mut dispatches: Vec<Dispatch> = Vec::new();
        let mut j: usize = 0;
        while j < self.targets.len()
            invariant
                j <= self.targets@.len(),
                dispatches@.len() == j,
                forall|i: int, r: HookRequest|
                    0 <= i < hooks.len() ==> #[trigger] call_requires(hooks[i].trigger_fn, (r,)),
                forall|k: int|
                    0 <= k < j ==> dispatched(
                        hooks@,
                        self@[k],
                        request.bytes@,
                        (#[trigger] dispatches@[k])@,
                    ),
            decreases self.targets.len() - j,
        {
            let target = &self.targets[j];
            let hook_request = HookRequest::new(
                Direction::ClientToTarget,
                target.name.clone(),
                request.bytes.clone(),
            );
            let response = execute(hooks, hook_request);
            let dispatch = Broadcaster::dispatch(target, response);
            dispatches.push(dispatch);
            j += 1;
        }
        dispatches
    }

    /// Takes note that the write to the link at position `index` failed. The
    /// link is disconnected from now on, and the message tells the server so
    /// unless it has been told already. Other links stay as they are, and a
    /// position without a link changes nothing.
    pub fn write_failed(&mut self, index: usize) -> (message: Option<Message>)
        ensures
            index < old(self)@.len() ==> {
                &&& final(self)@ == old(self)@.update(
                    index as int,
                    old(self)@[index as int].disconnected(),
                )
                &&& match message {
                    Some(m) => old(self)@[index as int].loss_message() == Some(m@),
                    None => old(self)@[index as int].loss_message() is None,
                }
            },
            index >= old(self)@.len() ==> final(self)@ == old(self)@ && message is None,
    {
        if index < self.targets.len() {
            let mut link = self.targets.remove(index);
            let message = link.on_write_error();
            self.targets.insert(index, link);
            message
        } else {
            None
        }
    }

    /// Takes in the outcome of an attempt to connect the link at position
    /// `index` again: see [`Target::on_connect`]. A position without a link
    /// changes nothing.
    pub fn reconnected(&mut self, index: usize, attempt: Option<Endpoint>) -> (message: Option<
        Message,
    >)
        ensures
            index < old(self)@.len() ==> {
                &&& final(self)@ == old(self)@.update(
                    index as int,
                    old(self)@[index as int].after_connect(attempt),
                )
                &&& match message {
                    Some(m) => old(self)@[index as int].connect_step(attempt).message == Some(m@),
                    None => old(self)@[index as int].connect_step(attempt).message is None,
                }
            },
            index >= old(self)@.len() ==> final(self)@ == old(self)@ && message is None,
    {
        if index < self.targets.len() {
            let mut link = self.targets.remove(index);
            let step = link.on_connect(attempt);
            self.targets.insert(index, link);
            step.message
        } else {
            None
        }
    }
}

} // verus!
