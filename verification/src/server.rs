//! The server actor: the one consumer of a session's message bus.
use vstd::prelude::*;
use crate::broadcaster::{BroadcastModel, BroadcastRequest};
use crate::client::Client;
use crate::endpoint::Endpoint;
use crate::error::Result;
use crate::hooks::chain::{outcome_of, Outcome};
use crate::hooks::types::{Direction, HookRequest, HookResponse, RequestModel};

verus! {

/// What the network tasks tell the server.
#[derive(Debug)]
pub enum Message {
    ClientConnected { addr: Endpoint },
    ClientDisconnected { addr: Endpoint },
    NewClientMessage { addr: Endpoint, bytes: Vec<u8> },
    TargetConnected { name: String, addr: Endpoint },
    TargetDisconnected { name: String, addr: Endpoint },
    NewTargetMessage { from_target: String, to_addr: Endpoint, bytes: Vec<u8> },
    TargetReconnected { name: String, addr: Endpoint },
}

/// What a [`Message`] is in contracts.
pub enum MessageModel {
    ClientConnected { addr: Endpoint },
    ClientDisconnected { addr: Endpoint },
    NewClientMessage { addr: Endpoint, bytes: Seq<u8> },
    TargetConnected { name: Seq<char>, addr: Endpoint },
    TargetDisconnected { name: Seq<char>, addr: Endpoint },
    NewTargetMessage { from_target: Seq<char>, to_addr: Endpoint, bytes: Seq<u8> },
    TargetReconnected { name: Seq<char>, addr: Endpoint },
}

impl View for Message {
    type V = MessageModel;

    open spec fn view(&self) -> MessageModel {
        match *self {
            Message::ClientConnected { addr } => MessageModel::ClientConnected { addr },
            Message::ClientDisconnected { addr } => MessageModel::ClientDisconnected { addr },
            Message::NewClientMessage { addr, bytes } => MessageModel::NewClientMessage {
                addr,
                bytes: bytes@,
            },
            Message::TargetConnected { name, addr } => MessageModel::TargetConnected {
                name: name@,
                addr,
            },
            Message::TargetDisconnected { name, addr } => MessageModel::TargetDisconnected {
                name: name@,
                addr,
            },
            Message::NewTargetMessage { from_target, to_addr, bytes } => {
                MessageModel::NewTargetMessage { from_target: from_target@, to_addr, bytes: bytes@ }
            },
            Message::TargetReconnected { name, addr } => MessageModel::TargetReconnected {
                name: name@,
                addr,
            },
        }
    }
}

/// What the server asks of whoever runs it.
#[derive(Debug)]
pub enum Action {
    /// Nothing: the message only changed what the server knows.
    Noted,
    /// Hand this payload to the broadcaster.
    Broadcast(BroadcastRequest),
    /// Write these bytes to the client at `to_addr`.
    Respond { to_addr: Endpoint, bytes: Vec<u8> },
    /// The target's response goes to nobody.
    Discard,
    /// Close the broadcast channel, which stops the target links. The
    /// server handles no further message.
    Stop,
}

/// What an [`Action`] is in contracts.
pub enum ActionModel {
    Noted,
    Broadcast(BroadcastModel),
    Respond { to_addr: Endpoint, bytes: Seq<u8> },
    Discard,
    Stop,
}

impl View for Action {
    type V = ActionModel;

    open spec fn view(&self) -> ActionModel {
        match *self {
            Action::Noted => ActionModel::Noted,
            Action::Broadcast(request) => ActionModel::Broadcast(request@),
            Action::Respond { to_addr, bytes } => ActionModel::Respond { to_addr, bytes: bytes@ },
            Action::Discard => ActionModel::Discard,
            Action::Stop => ActionModel::Stop,
        }
    }
}

/// What the server does next with a message.
#[derive(Debug)]
pub enum Step {
    /// The message is dealt with by this action.
    Done(Action),
    /// A target's response: it has to go through the hook chain first. The
    /// chain's answer goes to [`Server::new_response`] together with
    /// `from_target` and `to_addr`.
    Ask { request: HookRequest, to_addr: Endpoint },
}

/// What a [`Step`] is in contracts.
pub enum StepModel {
    Done(ActionModel),
    Ask { request: RequestModel, to_addr: Endpoint },
}

impl View for Step {
    type V = StepModel;

    open spec fn view(&self) -> StepModel {
        match *self {
            Step::Done(action) => StepModel::Done(action@),
            Step::Ask { request, to_addr } => StepModel::Ask { request: request@, to_addr },
        }
    }
}

/// The state of the server actor of one session.
#[derive(Debug)]
pub struct Server {
    /// The clients that have connected and not left.
    pub clients: Vec<Client>,
    /// The name of the target whose responses go back to the client.
    pub designated: String,
    /// The names of the targets that are known to be disconnected.
    pub offline: Vec<String>,
}

/// What a [`Server`] is in contracts: its clients and its disconnected
/// targets as sets, and the designated target's name.
pub struct ServerModel {
    pub clients: Set<Endpoint>,
    pub designated: Seq<char>,
    pub offline: Set<Seq<char>>,
}

impl View for Server {
    type V = ServerModel;

    open spec fn view(&self) -> ServerModel {
        ServerModel {
            clients: addresses_of(self.clients@),
            designated: self.designated@,
            offline: names_of(self.offline@),
        }
    }
}

/// The addresses of a list of clients.
pub open spec fn addresses_of(clients: Seq<Client>) -> Set<Endpoint> {
    Set::new(
        |addr: Endpoint| exists|i: int| 0 <= i < clients.len() && (#[trigger] clients[i]).addr == addr,
    )
}

/// The names in a list of names.
pub open spec fn names_of(names: Seq<String>) -> Set<Seq<char>> {
    Set::new(|name: Seq<char>| exists|i: int| 0 <= i < names.len() && (#[trigger] names[i])@ == name)
}

/// True when no address occurs twice in a list of clients.
pub open spec fn distinct_clients(clients: Seq<Client>) -> bool {
    forall|i: int, j: int|
        0 <= i < j < clients.len() ==> (#[trigger] clients[i]).addr != (#[trigger] clients[j]).addr
}

/// True when no name occurs twice in a list of names.
pub open spec fn distinct_names(names: Seq<String>) -> bool {
    forall|i: int, j: int|
        0 <= i < j < names.len() ==> (#[trigger] names[i])@ != (#[trigger] names[j])@
}

/// The state after `message`.
pub open spec fn next(state: ServerModel, message: MessageModel) -> ServerModel {
    match message {
        MessageModel::ClientConnected { addr } => ServerModel {
            clients: state.clients.insert(addr),
            ..state
        },
        MessageModel::ClientDisconnected { addr } => ServerModel {
            clients: state.clients.remove(addr),
            ..state
        },
        MessageModel::TargetConnected { name, addr } => ServerModel {
            offline: state.offline.remove(name),
            ..state
        },
        MessageModel::TargetReconnected { name, addr } => ServerModel {
            offline: state.offline.remove(name),
            ..state
        },
        MessageModel::TargetDisconnected { name, addr } => ServerModel {
            offline: state.offline.insert(name),
            ..state
        },
        MessageModel::NewClientMessage { addr, bytes } => state,
        MessageModel::NewTargetMessage { from_target, to_addr, bytes } => state,
    }
}

/// What the server does with `message`.
pub open spec fn step_for(message: MessageModel) -> StepModel {
    match message {
        MessageModel::ClientDisconnected { addr } => StepModel::Done(ActionModel::Stop),
        MessageModel::NewClientMessage { addr, bytes } => StepModel::Done(
            ActionModel::Broadcast(BroadcastModel { bytes, from_addr: addr }),
        ),
        MessageModel::NewTargetMessage { from_target, to_addr, bytes } => StepModel::Ask {
            request: RequestModel {
                direction: Direction::TargetToClient,
                target_name: from_target,
                data: bytes,
            },
            to_addr,
        },
        _ => StepModel::Done(ActionModel::Noted),
    }
}

/// What becomes of a response of the target `from_target` for the client at
/// `to_addr`, once the hook chain has answered with `outcome`.
///
/// The bytes that left the chain are written to the client only when the
/// target is the designated one and the client is known. A response of
/// another target, for a client that has left, or one that a hook rejected,
/// goes to nobody.
pub open spec fn response_action(
    state: ServerModel,
    from_target: Seq<char>,
    to_addr: Endpoint,
    outcome: Outcome,
) -> ActionModel {
    match outcome {
        Ok(bytes) => if from_target == state.designated && state.clients.contains(to_addr) {
            ActionModel::Respond { to_addr, bytes }
        } else {
            ActionModel::Discard
        },
        Err(_) => ActionModel::Discard,
    }
}

/// The bytes that `action` has written to the client at `addr`.
pub open spec fn written_to(action: ActionModel, addr: Endpoint) -> Seq<u8> {
    match action {
        ActionModel::Respond { to_addr, bytes } => if to_addr == addr {
            bytes
        } else {
            Seq::empty()
        },
        _ => Seq::empty(),
    }
}

/// The bytes that the client at `addr` receives when `actions` are carried
/// out in order.
pub open spec fn client_stream(actions: Seq<ActionModel>, addr: Endpoint) -> Seq<u8>
    decreases actions.len(),
{
    if actions.len() == 0 {
        Seq::empty()
    } else {
        client_stream(actions.drop_last(), addr) + written_to(actions.last(), addr)
    }
}

/// The bytes that the broadcaster is handed when the server handles
/// `messages` in order.
pub open spec fn broadcast_stream(messages: Seq<MessageModel>) -> Seq<u8>
    decreases messages.len(),
{
    if messages.len() == 0 {
        Seq::empty()
    } else {
        broadcast_stream(messages.drop_last()) + match step_for(messages.last()) {
            StepModel::Done(ActionModel::Broadcast(request)) => request.bytes,
            _ => Seq::empty(),
        }
    }
}

impl Server {
    /// True when the client at `addr` has connected and not left.
    pub open spec fn knows(&self, addr: Endpoint) -> bool {
        addresses_of(self.clients@).contains(addr)
    }

    /// True when the target `name` is known to be disconnected.
    pub open spec fn is_offline(&self, name: Seq<char>) -> bool {
        names_of(self.offline@).contains(name)
    }

    /// The server's lists are sets: no client and no disconnected target
    /// occurs twice. [`Server::new`] makes such a server, and every method
    /// keeps it so.
    pub open spec fn wf(&self) -> bool {
        &&& distinct_clients(self.clients@)
        &&& distinct_names(self.offline@)
    }

    /// A server without clients whose designated target is `designated`.
    pub fn new(designated: String) -> (server: Server)
        ensures
            server.wf(),
            server@ == (ServerModel {
                clients: Set::empty(),
                designated: designated@,
                offline: Set::empty(),
            }),
    {
        let server = Server { clients: Vec::new(), designated, offline: Vec::new() };
        assert(server@.clients =~= Set::empty());
        assert(server@.offline =~= Set::empty());
        server
    }

    /// Tells whether the client at `addr` has connected and not left.
    pub fn has_client(&self, addr: Endpoint) -> (known: bool)
        ensures
            known == self@.clients.contains(addr),
    {
        let mut i: usize = 0;
        while i < self.clients.len()
            invariant
                i <= self.clients@.len(),
                forall|k: int| 0 <= k < i ==> (#[trigger] self.clients@[k]).addr != addr,
            decreases self.clients.len() - i,
        {
            if self.clients[i].addr == addr {
                return true;
            }
            i += 1;
        }
        false
    }

    /// Takes note of the client at `addr`.
    pub fn client_connected(&mut self, addr: Endpoint)
        ensures
            final(self)@ == next(old(self)@, MessageModel::ClientConnected { addr }),
            old(self).wf() ==> final(self).wf(),
    {
        if !self.has_client(addr) {
            let ghost before = self.clients@;
            self.clients.push(Client { addr });
            assert(self.clients@[before.len() as int].addr == addr);
            assert forall|a: Endpoint|
                addresses_of(self.clients@).contains(a) == (addresses_of(before).contains(a) || a
                    == addr) by {
                if addresses_of(before).contains(a) {
                    let i = choose|i: int| 0 <= i < before.len() && (#[trigger] before[i]).addr == a;
                    assert(self.clients@[i].addr == a);
                }
                if addresses_of(self.clients@).contains(a) && a != addr {
                    let i = choose|i: int|
                        0 <= i < self.clients@.len() && (#[trigger] self.clients@[i]).addr == a;
                }
            }
            assert(addresses_of(self.clients@) =~= addresses_of(before).insert(addr));
        } else {
            assert(addresses_of(self.clients@) =~= addresses_of(self.clients@).insert(addr));
        }
    }

    /// Forgets the client at `addr`.
    pub fn client_disconnected(&mut self, addr: Endpoint)
        ensures
            final(self)@ == next(old(self)@, MessageModel::ClientDisconnected { addr }),
            old(self).wf() ==> final(self).wf(),
    {
        let mut kept: Vec<Client> = Vec::new();
        let mut i: usize = 0;
        while i < self.clients.len()
            invariant
                i <= self.clients@.len(),
                self.clients == old(self).clients,
                self.designated == old(self).designated,
                self.offline == old(self).offline,
                forall|k: int| 0 <= k < kept@.len() ==> (#[trigger] kept@[k]).addr != addr,
                forall|k: int|
                    0 <= k < kept@.len() ==> exists|j: int|
                        0 <= j < i && (#[trigger] self.clients@[j]).addr == (#[trigger] kept@[k]).addr,
                distinct_clients(self.clients@) ==> distinct_clients(kept@),
                forall|j: int|
                    0 <= j < i && (#[trigger] self.clients@[j]).addr != addr ==> exists|k: int|
                        0 <= k < kept@.len() && (#[trigger] kept@[k]).addr
                            == self.clients@[j].addr,
            decreases self.clients.len() - i,
        {
            let client = self.clients[i];
            if client.addr != addr {
                let ghost before = kept@;
                kept.push(client);
                assert(kept@[before.len() as int].addr == client.addr);
                assert forall|j: int|
                    0 <= j < i + 1 && (#[trigger] self.clients@[j]).addr != addr implies exists|
                    k: int,
                |
                    0 <= k < kept@.len() && (#[trigger] kept@[k]).addr
                        == self.clients@[j].addr by {
                    if j < i {
                        let k = choose|k: int|
                            0 <= k < before.len() && (#[trigger] before[k]).addr
                                == self.clients@[j].addr;
                        assert(kept@[k].addr == self.clients@[j].addr);
                    }
                }
            }
            i += 1;
        }
        self.clients = kept;
        assert(self@.clients =~= old(self)@.clients.remove(addr));
    }

    fn set_offline(&mut self, name: String, offline: bool)
        ensures
            old(self).wf() ==> final(self).wf(),
            final(self).clients == old(self).clients,
            final(self).designated == old(self).designated,
            final(self)@.offline == if offline {
                old(self)@.offline.insert(name@)
            } else {
                old(self)@.offline.remove(name@)
            },
    {
        let mut kept: Vec<String> = Vec::new();
        let mut i: usize = 0;
        while i < self.offline.len()
            invariant
                i <= self.offline@.len(),
                self.clients == old(self).clients,
                self.designated == old(self).designated,
                self.offline == old(self).offline,
                forall|k: int| 0 <= k < kept@.len() ==> (#[trigger] kept@[k])@ != name@,
                forall|k: int|
                    0 <= k < kept@.len() ==> old(self).is_offline((#[trigger] kept@[k])@),
                forall|k: int|
                    0 <= k < kept@.len() ==> exists|j: int|
                        0 <= j < i && (#[trigger] self.offline@[j])@ == (#[trigger] kept@[k])@,
                distinct_names(self.offline@) ==> distinct_names(kept@),
                forall|j: int|
                    0 <= j < i && (#[trigger] self.offline@[j])@ != name@ ==> exists|k: int|
                        0 <= k < kept@.len() && (#[trigger] kept@[k])@ == self.offline@[j]@,
            decreases self.offline.len() - i,
        {
            if !(self.offline[i] == name) {
                let ghost before = kept@;
                let copy = self.offline[i].clone();
                kept.push(copy);
                assert(kept@[before.len() as int]@ == self.offline@[i as int]@);
                assert forall|j: int|
                    0 <= j < i + 1 && (#[trigger] self.offline@[j])@ != name@ implies exists|
                    k: int,
                |
                    0 <= k < kept@.len() && (#[trigger] kept@[k])@ == self.offline@[j]@ by {
                    if j < i {
                        let k = choose|k: int|
                            0 <= k < before.len() && (#[trigger] before[k])@
                                == self.offline@[j]@;
                        assert(kept@[k]@ == self.offline@[j]@);
                    }
                }
            }
            i += 1;
        }
        if offline {
            let ghost before = kept@;
            let ghost name_view = name@;
            kept.push(name);
            assert(kept@[before.len() as int]@ == name_view);
            self.offline = kept;
            assert forall|n: Seq<char>|
                self.is_offline(n) == (old(self).is_offline(n) || n == name_view) by {
                if old(self).is_offline(n) && n != name_view {
                    let j = choose|j: int|
                        0 <= j < old(self).offline@.len() && (#[trigger] old(
                            self,
                        ).offline@[j])@ == n;
                    let k = choose|k: int|
                        0 <= k < before.len() && (#[trigger] before[k])@ == old(
                            self,
                        ).offline@[j]@;
                    assert(kept@[k]@ == n);
                }
                if self.is_offline(n) && n != name_view {
                    let k = choose|k: int|
                        0 <= k < kept@.len() && (#[trigger] kept@[k])@ == n;
                }
            }
        } else {
            self.offline = kept;
        }
    }

    /// Takes note that the target `name` is connected.
    pub fn target_connected(&mut self, name: String, addr: Endpoint)
        ensures
            old(self).wf() ==> final(self).wf(),
            final(self)@ == next(old(self)@, MessageModel::TargetConnected { name: name@, addr }),
    {
        self.set_offline(name, false);
    }

    /// Takes note that the target `name` is connected again.
    pub fn target_reconnected(&mut self, name: String, addr: Endpoint)
        ensures
            old(self).wf() ==> final(self).wf(),
            final(self)@ == next(
                old(self)@,
                MessageModel::TargetReconnected { name: name@, addr },
            ),
    {
        self.set_offline(name, false);
    }

    /// Takes note that the target `name` has lost its connection.
    pub fn target_disconnected(&mut self, name: String, addr: Endpoint)
        ensures
            old(self).wf() ==> final(self).wf(),
            final(self)@ == next(
                old(self)@,
                MessageModel::TargetDisconnected { name: name@, addr },
            ),
    {
        self.set_offline(name, true);
    }

    /// The broadcast that a client's payload asks for.
    pub fn new_message(&self, addr: Endpoint, bytes: Vec<u8>) -> (request: BroadcastRequest)
        ensures
            request@ == (BroadcastModel { bytes: bytes@, from_addr: addr }),
    {
        BroadcastRequest { bytes, from_addr: addr }
    }

    /// Decides what becomes of a target's response once the hook chain has
    /// answered: see [`response_action`].
    pub fn new_response(
        &self,
        from_target: &String,
        to_addr: Endpoint,
        response: Result<HookResponse>,
    ) -> (action: Action)
        ensures
            action@ == response_action(self@, from_target@, to_addr, outcome_of(response)),
    {
        match response {
            Ok(response) => {
                if *from_target == self.designated && self.has_client(to_addr) {
                    Action::Respond { to_addr, bytes: response.data }
                } else {
                    Action::Discard
                }
            },
            Err(_) => Action::Discard,
        }
    }

    /// Takes note that a write to the client at `addr` failed: the client is
    /// forgotten, and the session ends.
    pub fn write_failed(&mut self, addr: Endpoint) -> (action: Action)
        ensures
            old(self).wf() ==> final(self).wf(),
            final(self)@ == next(old(self)@, MessageModel::ClientDisconnected { addr }),
            action@ == ActionModel::Stop,
    {
        self.client_disconnected(addr);
        Action::Stop
    }

    /// Handles one message of the bus.
    ///
    /// Connections and disconnections change what the server knows. A
    /// client's payload is handed to the broadcaster as it is: the hooks of
    /// that direction run there, once for each target. A target's response is
    /// first put to the hook chain. A client that disconnects ends the
    /// session.
    pub fn handle(&mut self, message: Message) -> (step: Step)
        ensures
            old(self).wf() ==> final(self).wf(),
            final(self)@ == next(old(self)@, message@),
            step@ == step_for(message@),
    {
        match message {
            Message::ClientConnected { addr } => {
                self.client_connected(addr);
                Step::Done(Action::Noted)
            },
            Message::ClientDisconnected { addr } => {
                self.client_disconnected(addr);
                Step::Done(Action::Stop)
            },
            Message::TargetConnected { name, addr } => {
                self.target_connected(name, addr);
                Step::Done(Action::Noted)
            },
            Message::TargetDisconnected { name, addr } => {
                self.target_disconnected(name, addr);
                Step::Done(Action::Noted)
            },
            Message::TargetReconnected { name, addr } => {
                self.target_reconnected(name, addr);
                Step::Done(Action::Noted)
            },
            Message::NewClientMessage { addr, bytes } => {
                let request = self.new_message(addr, bytes);
                Step::Done(Action::Broadcast(request))
            },
            Message::NewTargetMessage { from_target, to_addr, bytes } => Step::Ask {
                request: HookRequest::new(Direction::TargetToClient, from_target, bytes),
                to_addr,
            },
        }
    }
}

} // verus!
