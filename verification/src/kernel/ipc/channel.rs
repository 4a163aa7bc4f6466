//! IPC channels whose every transfer is checked against a capability token.
use vstd::prelude::*;
use crate::kernel::capability::gate::CapGate;
use crate::security::capability::token::CapRights;
use crate::security::memory::stream::MatchChunkStream;

verus! {

/// Largest message payload.
pub const MAX_MSG_SIZE: usize = 1024;

pub const ERR_PAYLOAD_TOO_LARGE: &'static str = "IPC Error: Payload exceeds max message size";

/// A message in transit.
pub struct IpcMessage {
    pub sender_id: u64,
    pub payload_len: usize,
    pub buffer: [u8; MAX_MSG_SIZE],
}

/// A channel guarded by a capability token.
pub struct IpcChannel {
    pub channel_id: u64,
    pub token_id: u64,
}

/// The read-write rights that every transfer needs.
pub open spec fn transfer_rights() -> CapRights {
    CapRights { read: true, write: true, execute: false, grant: false }
}

impl IpcChannel {
    /// A channel guarded by token `token_id`.
    pub fn new(channel_id: u64, token_id: u64) -> (r: IpcChannel)
        ensures
            r.channel_id == channel_id,
            r.token_id == token_id,
    {
        IpcChannel { channel_id, token_id }
    }

    /// Sends a message: the channel's token must grant read-write access to
    /// `data.len()` bytes from address 0, and the payload must fit in a
    /// message.
    pub fn send(&self, gate: &CapGate, _sender_id: u64, data: &[u8]) -> (r: Result<(), &'static str>)
        requires
            gate.wf(),
            gate.access_in_range(self.token_id, 0, data@.len() as usize),
        ensures
            r == (match gate.access(self.token_id, 0, data@.len() as usize, transfer_rights()) {
                Err(e) => Err(e),
                Ok(_) => if data@.len() > MAX_MSG_SIZE {
                    Err(ERR_PAYLOAD_TOO_LARGE)
                } else {
                    Ok(())
                },
            }),
    {
        gate.verify_access(self.token_id, 0, data.len(), CapRights::read_write())?;
        if data.len() > MAX_MSG_SIZE {
            return Err(ERR_PAYLOAD_TOO_LARGE);
        }
        Ok(())
    }

    /// Streams a payload of `total_bytes` in capped chunks once the
    /// channel's token grants read-write access to that many bytes from
    /// address 0.
    pub fn stream_payload(&self, gate: &CapGate, total_bytes: usize) -> (r: Result<(), &'static str>)
        requires
            gate.wf(),
            gate.access_in_range(self.token_id, 0, total_bytes),
        ensures
            r == gate.access(self.token_id, 0, total_bytes, transfer_rights()),
    {
        gate.verify_access(self.token_id, 0, total_bytes, CapRights::read_write())?;
        let mut stream = MatchChunkStream::new(total_bytes);
        loop
            decreases stream.remaining_spec(),
        {
            match stream.next() {
                None => break,
                Some(_chunk) => {},
            }
        }
        Ok(())
    }
}

} // verus!
