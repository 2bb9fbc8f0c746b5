//! One client session without hooks: what each of its four loops does with
//! what it has just read or received.
//!
//! A session has a reader and a writer on the client's socket and, for every
//! backend, a sender and a receiver. The reader's messages go to every sender;
//! the receivers' messages go to the writer. A backend whose stream ends is
//! connected anew; only the client's leaving ends the session. Each function
//! here is one turn of one of these loops: it is given what the socket or the
//! channel handed over and says what is to be passed on, what is to be
//! written, and whether the loop goes on.
use vstd::prelude::*;
use crate::target::{LinkNext, RETRY_DELAY_SECS};
use crate::utils::{dump, hex_lines, lines_of};

verus! {

/// What travels between the loops of a session.
#[derive(Debug)]
pub enum Message {
    /// Bytes to be written by whoever receives the message.
    Data(Vec<u8>),
    /// The peer has closed its side.
    Disconnect,
}

/// What a [`Message`] is in contracts.
pub enum MessageModel {
    Data(Seq<u8>),
    Disconnect,
}

impl View for Message {
    type V = MessageModel;

    open spec fn view(&self) -> MessageModel {
        match *self {
            Message::Data(bytes) => MessageModel::Data(bytes@),
            Message::Disconnect => MessageModel::Disconnect,
        }
    }
}

impl Clone for Message {
    fn clone(&self) -> (copy: Message)
        ensures
            copy@ == self@,
    {
        match self {
            Message::Data(bytes) => Message::Data(bytes.clone()),
            Message::Disconnect => Message::Disconnect,
        }
    }
}

/// What a read on a socket came back with.
#[derive(Debug)]
pub enum Read {
    /// The bytes that were read. No bytes at all means that the peer has
    /// closed the connection.
    Bytes(Vec<u8>),
    /// The read failed.
    Failed,
}

/// Whether a loop takes another turn.
#[derive(Debug, Clone, Copy, PartialEq, Eq, Structural)]
pub enum Next {
    Continue,
    Stop,
}

/// A turn of a loop that reads: the message to pass on, if any.
#[derive(Debug)]
pub struct ReaderStep {
    pub send: Option<Message>,
    pub next: Next,
}

/// A turn of a loop that writes: the bytes to write, if any.
#[derive(Debug)]
pub struct WriterStep {
    pub write: Option<Vec<u8>>,
    pub next: Next,
}

/// A turn of a backend's sender. `client_gone` tells the session that the
/// client has left, which ends the receivers and the writer as well.
#[derive(Debug)]
pub struct SenderStep {
    pub write: Option<Vec<u8>>,
    pub client_gone: bool,
    pub next: Next,
}

/// The message of a reader's turn, in contracts.
pub open spec fn sent(step: ReaderStep) -> Option<MessageModel> {
    match step.send {
        Some(m) => Some(m@),
        None => None,
    }
}

/// The bytes of a writer's turn, in contracts.
pub open spec fn written(write: Option<Vec<u8>>) -> Option<Seq<u8>> {
    match write {
        Some(bytes) => Some(bytes@),
        None => None,
    }
}

/// What the client's reader passes on after a read, and whether it goes on.
pub open spec fn client_read_spec(read: Read) -> (Option<MessageModel>, Next) {
    match read {
        Read::Bytes(bytes) => if bytes@.len() == 0 {
            (Some(MessageModel::Disconnect), Next::Stop)
        } else {
            (Some(MessageModel::Data(bytes@)), Next::Continue)
        },
        Read::Failed => (None, Next::Stop),
    }
}

/// One turn of the client's reader.
///
/// Bytes from the client become one `Data` message for all backends. The end
/// of the client's stream becomes `Disconnect` and is the reader's last turn.
/// A failed read ends the reader with nothing passed on.
pub fn client_read(read: Read) -> (step: ReaderStep)
    ensures
        (sent(step), step.next) == client_read_spec(read),
{
    match read {
        Read::Bytes(bytes) => {
            if bytes.len() == 0 {
                ReaderStep { send: Some(Message::Disconnect), next: Next::Stop }
            } else {
                ReaderStep { send: Some(Message::Data(bytes)), next: Next::Continue }
            }
        },
        Read::Failed => ReaderStep { send: None, next: Next::Stop },
    }
}

/// A turn of a backend's receiver: the message to pass on to the client's
/// writer, if any, and what the receiver does next.
#[derive(Debug)]
pub struct ReceiverStep {
    pub send: Option<Message>,
    pub next: LinkNext,
}

/// What the receiver of the backend `name` passes on after a read, and what
/// it does next, where `selected` is the backend whose responses the client
/// gets.
pub open spec fn backend_read_spec(name: Seq<char>, selected: Seq<char>, read: Read) -> (
    Option<MessageModel>,
    LinkNext,
) {
    match read {
        Read::Bytes(bytes) => if bytes@.len() == 0 {
            (None, LinkNext::Retry { after_secs: RETRY_DELAY_SECS })
        } else if name == selected {
            (Some(MessageModel::Data(bytes@)), LinkNext::Read)
        } else {
            (None, LinkNext::Read)
        },
        Read::Failed => (None, LinkNext::Retry { after_secs: RETRY_DELAY_SECS }),
    }
}

/// One turn of a backend's receiver.
///
/// Bytes from the selected backend become one `Data` message for the client's
/// writer; bytes from any other backend are read and passed to nobody. The
/// end of a backend's stream, or a failed read, disconnects this backend's
/// link and nothing else: the client's writer is told nothing, and the
/// receiver goes on to connect to the backend anew after the delay, as a
/// target link does.
pub fn backend_read(name: &String, selected: &String, read: Read) -> (step: ReceiverStep)
    ensures
        (
            match step.send {
                Some(m) => Some(m@),
                None => None,
            },
            step.next,
        ) == backend_read_spec(name@, selected@, read),
{
    match read {
        Read::Bytes(bytes) => {
            if bytes.len() == 0 {
                ReceiverStep {
                    send: None,
                    next: LinkNext::Retry { after_secs: RETRY_DELAY_SECS },
                }
            } else if *name == *selected {
                ReceiverStep { send: Some(Message::Data(bytes)), next: LinkNext::Read }
            } else {
                ReceiverStep { send: None, next: LinkNext::Read }
            }
        },
        Read::Failed => ReceiverStep {
            send: None,
            next: LinkNext::Retry { after_secs: RETRY_DELAY_SECS },
        },
    }
}

/// One turn of a backend's sender, given what the reader's channel handed
/// over (`None` when the channel is closed).
///
/// `Data` is written to the backend as it is. `Disconnect` marks the client
/// as gone and ends the sender, and so does a closed channel, without the
/// mark.
pub fn backend_send(received: Option<Message>) -> (step: SenderStep)
    ensures
        match received {
            Some(Message::Data(bytes)) => written(step.write) == Some(bytes@) && !step.client_gone
                && step.next == Next::Continue,
            Some(Message::Disconnect) => step.write is None && step.client_gone && step.next
                == Next::Stop,
            None => step.write is None && !step.client_gone && step.next == Next::Stop,
        },
{
    match received {
        Some(Message::Data(bytes)) => SenderStep {
            write: Some(bytes),
            client_gone: false,
            next: Next::Continue,
        },
        Some(Message::Disconnect) => SenderStep { write: None, client_gone: true, next: Next::Stop },
        None => SenderStep { write: None, client_gone: false, next: Next::Stop },
    }
}

/// One turn of the client's writer, given what the receivers' channel handed
/// over (`None` when the channel is closed).
///
/// `Data` is written to the client as it is. The writer ends when the channel
/// is closed, and on `Disconnect`, which no receiver sends: a backend that
/// closes its stream does not end the writer.
pub fn client_write(received: Option<Message>) -> (step: WriterStep)
    ensures
        match received {
            Some(Message::Data(bytes)) => written(step.write) == Some(bytes@) && step.next
                == Next::Continue,
            _ => step.write is None && step.next == Next::Stop,
        },
{
    match received {
        Some(Message::Data(bytes)) => WriterStep { write: Some(bytes), next: Next::Continue },
        _ => WriterStep { write: None, next: Next::Stop },
    }
}

/// The number of messages that a channel between two loops of a session
/// holds before its sender has to wait.
pub const CHANNEL_CAPACITY: usize = 32;

/// The width to which the label of a line of a hex dump is padded.
pub const LABEL_WIDTH: usize = 35;

/// The hex dump of `data`, each line under the label `info`, which is padded
/// to 35 characters.
pub fn hex_dump(data: &[u8], info: &str) -> (lines: Vec<String>)
    ensures
        lines_of(lines@) == dump(data@, info@, LABEL_WIDTH as int),
{
    hex_lines(data, info, LABEL_WIDTH)
}

} // verus!
