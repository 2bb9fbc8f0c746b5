//! The target link: the connection of one session to one target, with its
//! reader and its reconnection.
//!
//! A link is connected or disconnected. The end of the target's stream, or a
//! failed write, disconnects it. While it is disconnected, a new connection
//! is tried after every delay, for as long as the session lasts; the first
//! that succeeds connects the link again.
use vstd::prelude::*;
use vstd::slice::slice_to_vec;
use crate::endpoint::Endpoint;
use crate::server::{Message, MessageModel};

verus! {

/// The seconds between two attempts to connect to a target again.
pub const RETRY_DELAY_SECS: u64 = 1;

/// The largest number of bytes that one read hands over.
pub const BUFFER_SIZE: usize = 4096;

/// The link of a session to one target.
#[derive(Debug)]
pub struct Target {
    pub name: String,
    /// The address of the target's side of the connection.
    pub addr: Endpoint,
    pub connected: bool,
}

/// What a [`Target`] is in contracts.
pub struct TargetModel {
    pub name: Seq<char>,
    pub addr: Endpoint,
    pub connected: bool,
}

impl View for Target {
    type V = TargetModel;

    open spec fn view(&self) -> TargetModel {
        TargetModel { name: self.name@, addr: self.addr, connected: self.connected }
    }
}

/// What the link's task does next.
#[derive(Debug, Clone, Copy, PartialEq, Eq, Structural)]
pub enum LinkNext {
    /// Read from the target's socket.
    Read,
    /// Wait this many seconds, then try to connect to the target.
    Retry { after_secs: u64 },
}

/// One turn of a link's task: the message for the server, if any, and what
/// the task does next.
#[derive(Debug)]
pub struct LinkStep {
    pub message: Option<Message>,
    pub next: LinkNext,
}

/// What a [`LinkStep`] is in contracts.
pub struct LinkStepModel {
    pub message: Option<MessageModel>,
    pub next: LinkNext,
}

impl View for LinkStep {
    type V = LinkStepModel;

    open spec fn view(&self) -> LinkStepModel {
        LinkStepModel {
            message: match self.message {
                Some(m) => Some(m@),
                None => None,
            },
            next: self.next,
        }
    }
}

impl TargetModel {
    /// The link once its connection is lost.
    pub open spec fn disconnected(self) -> TargetModel {
        TargetModel { connected: false, ..self }
    }

    /// The message that tells of the loss of the connection: it is sent when
    /// the link was connected, and only then.
    pub open spec fn loss_message(self) -> Option<MessageModel> {
        if self.connected {
            Some(MessageModel::TargetDisconnected { name: self.name, addr: self.addr })
        } else {
            None
        }
    }

    /// The link after a read that handed over `chunk`.
    pub open spec fn after_read(self, chunk: Seq<u8>) -> TargetModel {
        if chunk.len() == 0 {
            self.disconnected()
        } else {
            self
        }
    }

    /// What the reader does after a read that handed over `chunk`, where
    /// `to_addr` is the session's client.
    pub open spec fn read_step(self, to_addr: Endpoint, chunk: Seq<u8>) -> LinkStepModel {
        if chunk.len() == 0 {
            LinkStepModel {
                message: self.loss_message(),
                next: LinkNext::Retry { after_secs: RETRY_DELAY_SECS },
            }
        } else {
            LinkStepModel {
                message: Some(
                    MessageModel::NewTargetMessage {
                        from_target: self.name,
                        to_addr,
                        bytes: chunk,
                    },
                ),
                next: LinkNext::Read,
            }
        }
    }

    /// The link after an attempt to connect: `Some` holds the address of the
    /// new connection's peer, `None` means that the attempt failed.
    pub open spec fn after_connect(self, attempt: Option<Endpoint>) -> TargetModel {
        match attempt {
            Some(peer) => TargetModel { addr: peer, connected: true, ..self },
            None => self.disconnected(),
        }
    }

    /// What the link's task does after an attempt to connect.
    pub open spec fn connect_step(self, attempt: Option<Endpoint>) -> LinkStepModel {
        match attempt {
            Some(peer) => LinkStepModel {
                message: Some(MessageModel::TargetReconnected { name: self.name, addr: peer }),
                next: LinkNext::Read,
            },
            None => LinkStepModel {
                message: None,
                next: LinkNext::Retry { after_secs: RETRY_DELAY_SECS },
            },
        }
    }
}

impl Target {
    /// The link to the target `name` whose connection has the peer `addr`.
    pub fn new(name: String, addr: Endpoint) -> (target: Target)
        ensures
            target@ == (TargetModel { name: name@, addr, connected: true }),
    {
        Target { name, addr, connected: true }
    }

    /// One turn of the link's reader, after a read that handed over `chunk`.
    ///
    /// A read with bytes gives exactly one `NewTargetMessage` for the client at
    /// `to_addr`, and the reader reads again. A read without bytes is the end
    /// of the target's stream: the link is disconnected, the server is told so
    /// unless it has been told already, and the task goes on to connect anew.
    pub fn on_read(&mut self, to_addr: Endpoint, chunk: &[u8]) -> (step: LinkStep)
        ensures
            final(self)@ == old(self)@.after_read(chunk@),
            step@ == old(self)@.read_step(to_addr, chunk@),
    {
        if chunk.len() > 0 {
            LinkStep {
                message: Some(
                    Message::NewTargetMessage {
                        from_target: self.name.clone(),
                        to_addr,
                        bytes: slice_to_vec(chunk),
                    },
                ),
                next: LinkNext::Read,
            }
        } else {
            let message = self.on_write_error();
            LinkStep { message, next: LinkNext::Retry { after_secs: RETRY_DELAY_SECS } }
        }
    }

    /// One turn of the link's reader after a read that failed: the link is
    /// disconnected as it is by the end of the stream, the server is told so
    /// unless it has been told already, and the task goes on to connect anew.
    pub fn on_read_error(&mut self) -> (step: LinkStep)
        ensures
            final(self)@ == old(self)@.disconnected(),
            step@ == (LinkStepModel {
                message: old(self)@.loss_message(),
                next: LinkNext::Retry { after_secs: RETRY_DELAY_SECS },
            }),
    {
        let message = self.on_write_error();
        LinkStep { message, next: LinkNext::Retry { after_secs: RETRY_DELAY_SECS } }
    }

    /// Takes note that a write to the target failed: the link is
    /// disconnected, and the message tells the server so unless it has been
    /// told already.
    pub fn on_write_error(&mut self) -> (message: Option<Message>)
        ensures
            final(self)@ == old(self)@.disconnected(),
            match message {
                Some(m) => old(self)@.loss_message() == Some(m@),
                None => old(self)@.loss_message() is None,
            },
    {
        if self.connected {
            self.connected = false;
            Some(Message::TargetDisconnected { name: self.name.clone(), addr: self.addr })
        } else {
            None
        }
    }

    /// One turn of the link's task after an attempt to connect to the target.
    ///
    /// A new connection replaces the old one: the link is connected, the
    /// server is told `TargetReconnected` with the new peer's address, and the
    /// reader reads again. After a failed attempt the link stays disconnected
    /// and the next attempt follows after the delay, without any limit on the
    /// number of attempts.
    pub fn on_connect(&mut self, attempt: Option<Endpoint>) -> (step: LinkStep)
        ensures
            final(self)@ == old(self)@.after_connect(attempt),
            step@ == old(self)@.connect_step(attempt),
    {
        match attempt {
            Some(peer) => {
                self.addr = peer;
                self.connected = true;
                LinkStep {
                    message: Some(
                        Message::TargetReconnected { name: self.name.clone(), addr: peer },
                    ),
                    next: LinkNext::Read,
                }
            },
            None => {
                self.connected = false;
                LinkStep { message: None, next: LinkNext::Retry { after_secs: RETRY_DELAY_SECS } }
            },
        }
    }
}

} // verus!
