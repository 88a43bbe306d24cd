//! Packets between drivers and the task that owns a peripheral: what is
//! sent, what comes back, and what the serving task decides.

use vstd::prelude::*;

verus! {

/// Whether a transfer only writes or also reads a reply.
#[derive(Clone, Copy, Debug, PartialEq, Eq, Structural)]
pub enum RequestType {
    Write,
    Read,
}

/// What a peripheral transfer gave back.
#[derive(Clone, Copy)]
pub enum TransferResponse {
    Written,
    Received([u8; 8]),
}

#[derive(Clone, Copy, Debug, PartialEq, Eq, Structural)]
pub enum ServerError {
    PeripheralError,
    EmptyResponse,
    WriteReturn,
}

/// A reply travelling back to the requester.
#[derive(Clone, Copy)]
pub struct PacketResponse {
    pub payload: [u8; 8],
}

/// Whether the requester waits for a reply: only reads do.
pub fn expects_reply(mode: RequestType) -> (b: bool)
    ensures
        b == (mode == RequestType::Read),
{
    match mode {
        RequestType::Write => false,
        RequestType::Read => true,
    }
}

/// The eight-byte packet that carries a five-byte frame: the frame, then
/// zeros.
pub fn pack_frame(data: [u8; 5]) -> (p: [u8; 8])
    ensures
        p@ == data@ + seq![0u8, 0u8, 0u8],
{
    let p: [u8; 8] = [data[0], data[1], data[2], data[3], data[4], 0, 0, 0];
    assert(p@ =~= data@ + seq![0u8, 0u8, 0u8]);
    p
}

/// The five-byte frame in an eight-byte reply: its first five bytes.
pub fn unpack_frame(reply: [u8; 8]) -> (f: [u8; 5])
    ensures
        f@ == reply@.take(5),
{
    let f: [u8; 5] = [reply[0], reply[1], reply[2], reply[3], reply[4]];
    assert(f@ =~= reply@.take(5));
    f
}

/// How many bytes of a packet the single-wire UART sends: a write sends the
/// whole packet, a read request only its first four bytes.
pub fn uart_request_len(mode: RequestType) -> (n: usize)
    ensures
        n == (if mode == RequestType::Write { 8usize } else { 4usize }),
{
    match mode {
        RequestType::Write => 8,
        RequestType::Read => 4,
    }
}

/// What the serving task does once a transfer finished.
#[derive(Clone, Copy)]
pub enum ServerStep {
    /// Send the reply to the requester, then stop with success.
    Reply(PacketResponse),
    /// Stop with this outcome.
    Done(Result<(), ServerError>),
}

/// The decision of the serving task: a failed transfer is a peripheral
/// error; a received reply goes back to the requester, or is an error when
/// nobody waits for it; a write finishes the request.
pub fn server_step<E>(result: Result<TransferResponse, E>, has_requester: bool) -> (s: ServerStep)
    ensures
        match result {
            Err(_) => s == ServerStep::Done(Err(ServerError::PeripheralError)),
            Ok(TransferResponse::Received(resp)) => if has_requester {
                s == ServerStep::Reply(PacketResponse { payload: resp })
            } else {
                s == ServerStep::Done(Err(ServerError::EmptyResponse))
            },
            Ok(TransferResponse::Written) => s == ServerStep::Done(Ok(())),
        },
{
    match result {
        Err(_) => ServerStep::Done(Err(ServerError::PeripheralError)),
        Ok(TransferResponse::Received(resp)) => {
            if has_requester {
                ServerStep::Reply(PacketResponse { payload: resp })
            } else {
                ServerStep::Done(Err(ServerError::EmptyResponse))
            }
        },
        Ok(TransferResponse::Written) => ServerStep::Done(Ok(())),
    }
}

/// Carrying a frame out and back loses nothing.
pub proof fn lemma_frame_round_trip(data: Seq<u8>)
    requires
        data.len() == 5,
    ensures
        (data + seq![0u8, 0u8, 0u8]).take(5) == data,
{
    assert((data + seq![0u8, 0u8, 0u8]).take(5) =~= data);
}

} // verus!
