use vstd::prelude::*;

use crate::channels::Channels;
use crate::error::Error;
use crate::inverter::{ChannelData, WaitForReply};
use crate::packet::{Packet, PacketModel};

pub mod parse_hold;
pub mod read_hold;
pub mod read_inputs;
pub mod read_param;
pub mod set_hold;
pub mod time_register_ops;
pub mod update_hold;
pub mod write_param;

verus! {

/// One request frame was appended to a channel log: everything before it is
/// unchanged and the new entry carries the frame.
pub open spec fn sent_one(
    before: Seq<ChannelData>,
    after: Seq<ChannelData>,
    m: PacketModel,
) -> bool {
    &&& after.len() == before.len() + 1
    &&& after.take(before.len() as int) == before
    &&& (after.last() matches ChannelData::Packet(q) && q@ == m)
}

/// What dispatching one request leaves untouched: every channel log but the
/// outbound queue, and every subscriber count except the reply subscription
/// it takes out.
pub open spec fn dispatch_frame(pre: Channels, post: Channels) -> bool {
    &&& post.from_inverter.log() == pre.from_inverter.log()
    &&& post.to_mqtt.log() == pre.to_mqtt.log()
    &&& post.from_mqtt.log() == pre.from_mqtt.log()
    &&& post.to_register_cache.log() == pre.to_register_cache.log()
    &&& post.to_influx.log() == pre.to_influx.log()
    &&& post.to_database.log() == pre.to_database.log()
    &&& post.to_inverter.spec_receivers() == pre.to_inverter.spec_receivers()
    &&& post.from_inverter.spec_receivers() >= pre.from_inverter.spec_receivers()
    &&& post.to_mqtt.spec_receivers() == pre.to_mqtt.spec_receivers()
    &&& post.from_mqtt.spec_receivers() == pre.from_mqtt.spec_receivers()
    &&& post.to_influx.spec_receivers() == pre.to_influx.spec_receivers()
    &&& post.to_database.spec_receivers() == pre.to_database.spec_receivers()
    &&& post.to_register_cache.spec_receivers() == pre.to_register_cache.spec_receivers()
}

/// Subscribe to the inbound broadcast, then queue the request frame to the
/// session writer. Subscribing first ensures the reply cannot be missed.
pub fn send_request(channels: &mut Channels, req: &Packet) -> (r: Result<WaitForReply, Error>)
    ensures
        dispatch_frame(*old(channels), *final(channels)),
        match r {
            Ok(w) => old(channels).to_inverter.spec_receivers() > 0 && w.spec_cursor() == old(
                channels).from_inverter.log().len() && sent_one(
                old(channels).to_inverter.log(),
                final(channels).to_inverter.log(),
                req@,
            ),
            Err(e) => e == Error::ChannelClosed && old(channels).to_inverter.spec_receivers() == 0
                && final(channels).to_inverter.log() == old(channels).to_inverter.log(),
        },
{
    let w = WaitForReply::subscribe(&mut channels.from_inverter);
    let frame = req.duplicate();
    match channels.to_inverter.send(ChannelData::Packet(frame)) {
        Ok(()) => {
            proof {
                let before = old(channels).to_inverter.log();
                let after = channels.to_inverter.log();
                assert(after.take(before.len() as int) =~= before);
            }
            Ok(w)
        },
        Err(e) => Err(e),
    }
}

} // verus!
