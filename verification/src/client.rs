//! The client link: what the reader on a client's socket tells the server.
use vstd::prelude::*;
use vstd::slice::slice_to_vec;
use crate::endpoint::Endpoint;
use crate::server::{Message, MessageModel};

verus! {

/// A client that the server knows, by its address.
#[derive(Debug, Clone, Copy, PartialEq, Eq, Structural)]
pub struct Client {
    pub addr: Endpoint,
}

/// One turn of the client's reader: the message for the server, and whether
/// the reader reads again.
#[derive(Debug)]
pub struct ClientStep {
    pub message: Message,
    pub go_on: bool,
}

/// What the reader tells the server after a read that handed over `chunk`.
pub open spec fn read_message(addr: Endpoint, chunk: Seq<u8>) -> MessageModel {
    if chunk.len() == 0 {
        MessageModel::ClientDisconnected { addr }
    } else {
        MessageModel::NewClientMessage { addr, bytes: chunk }
    }
}

/// The chunks of `chunks`, one after the other.
pub open spec fn joined(chunks: Seq<Seq<u8>>) -> Seq<u8>
    decreases chunks.len(),
{
    if chunks.len() == 0 {
        Seq::empty()
    } else {
        joined(chunks.drop_last()) + chunks.last()
    }
}

/// The reads that hand over `data` when every read fills a buffer of `size`
/// bytes as far as there is data.
pub open spec fn full_reads(data: Seq<u8>, size: int) -> Seq<Seq<u8>>
    recommends
        size > 0,
    decreases data.len(),
{
    if data.len() == 0 || size <= 0 {
        Seq::empty()
    } else if data.len() <= size {
        seq![data]
    } else {
        seq![data.subrange(0, size)] + full_reads(data.subrange(size, data.len() as int), size)
    }
}

/// The messages of the reader for a sequence of reads.
pub open spec fn read_messages(addr: Endpoint, chunks: Seq<Seq<u8>>) -> Seq<MessageModel> {
    Seq::new(chunks.len(), |i: int| read_message(addr, chunks[i]))
}

/// The reader's first message: the client at `addr` has connected.
pub fn connected(addr: Endpoint) -> (message: Message)
    ensures
        message@ == (MessageModel::ClientConnected { addr }),
{
    Message::ClientConnected { addr }
}

/// One turn of the reader of the client at `addr`, after a read that handed
/// over `chunk`.
///
/// A read with bytes gives exactly one `NewClientMessage` with a copy of these
/// bytes, and the reader goes on. A read without bytes means that the client
/// has closed the connection: it gives `ClientDisconnected`, and the reader
/// ends.
pub fn on_read(addr: Endpoint, chunk: &[u8]) -> (step: ClientStep)
    ensures
        step.message@ == read_message(addr, chunk@),
        step.go_on == (chunk@.len() > 0),
{
    if chunk.len() > 0 {
        ClientStep {
            message: Message::NewClientMessage { addr, bytes: slice_to_vec(chunk) },
            go_on: true,
        }
    } else {
        ClientStep { message: Message::ClientDisconnected { addr }, go_on: false }
    }
}

} // verus!
