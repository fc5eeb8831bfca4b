//! Per-request dispatch of the session loop.
//!
//! The session loop reads exactly 4 bytes per request from the one connected
//! client. The decision of what those bytes call for is made here; the loop
//! performs the socket work and comes back for the next request.

use crate::codec::{
    data_bytes, decode, decode_spec, encode_identify, encode_ready, identify_reply, ready_reply,
    Command, Quaternion,
};
use vstd::prelude::*;

verus! {

/// What the session loop must do with one 4-byte request.
pub enum SessionAction {
    /// Write these bytes to the client, then await the next request.
    Reply(Vec<u8>),
    /// Poll every channel, encode the readings, write the block.
    ReadSensors,
    /// Unrecognized tag: write nothing and await the next request.
    Ignore,
}

/// Decides one request. `ready` is whether bring-up has succeeded; the
/// server reports it unchanged to every ready check of the session.
pub fn on_request(tag: &[u8; 4], ready: bool) -> (action: SessionAction)
    ensures
        decode_spec(tag@) == Some(Command::Identify) ==> (action matches SessionAction::Reply(r)
            && r@ == identify_reply()),
        decode_spec(tag@) == Some(Command::ReadyCheck) ==> (action matches SessionAction::Reply(r)
            && r@ == ready_reply(ready)),
        decode_spec(tag@) == Some(Command::DataRequest) ==> (action
            matches SessionAction::ReadSensors),
        decode_spec(tag@) is None ==> (action matches SessionAction::Ignore),
{
    match decode(tag) {
        Some(Command::Identify) => SessionAction::Reply(encode_identify()),
        Some(Command::ReadyCheck) => SessionAction::Reply(encode_ready(ready)),
        Some(Command::DataRequest) => SessionAction::ReadSensors,
        None => SessionAction::Ignore,
    }
}

/// Law: the reply to a data request is a function of the recorded readings
/// alone, so repeated requests over unchanged sensor state return identical
/// byte output.
pub proof fn lemma_data_request_idempotent(
    first: Seq<Option<Quaternion>>,
    second: Seq<Option<Quaternion>>,
)
    requires
        first == second,
    ensures
        data_bytes(first) == data_bytes(second),
{
}

} // verus!
