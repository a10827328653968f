use vstd::prelude::*;

use crate::channels::Channels;
use crate::config;
use crate::coordinator::commands::{send_request, sent_one};
use crate::error::Error;
use crate::inverter::WaitForReply;
use crate::packet::{Packet, PacketModel, ReadParam as ReadParamPacket};

verus! {

/// Read one datalog device parameter.
pub struct ReadParam {
    pub inverter: config::Inverter,
    pub register: u16,
}

impl ReadParam {
    pub fn new(inverter: config::Inverter, register: u16) -> (r: Self)
        ensures
            r.inverter == inverter,
            r.register == register,
    {
        ReadParam { inverter, register }
    }

    /// The request frame: a parameter read with an empty payload.
    pub open spec fn spec_packet(&self) -> PacketModel {
        PacketModel::ReadParam {
            datalog: self.inverter.datalog@,
            register: self.register,
            values: Seq::empty(),
        }
    }

    pub fn packet(&self) -> (r: Packet)
        ensures
            r@ == self.spec_packet(),
            r.wf(),
    {
        let r = Packet::ReadParam(
            ReadParamPacket {
                datalog: self.inverter.datalog,
                register: self.register,
                values: Vec::new(),
            },
        );
        proof {
            broadcast use crate::serial::lemma_serial_len;

            assert(r@ =~= self.spec_packet());
        }
        r
    }

    /// Subscribe for the reply, then queue the request to the session
    /// writer.
    pub fn request(&self, channels: &mut Channels) -> (r: Result<(Packet, WaitForReply), Error>)
        ensures
            crate::coordinator::commands::dispatch_frame(*old(channels), *final(channels)),
            match r {
                Ok((req, w)) => old(channels).to_inverter.spec_receivers() > 0 && req@
                    == self.spec_packet() && w.spec_cursor() == old(
                    channels).from_inverter.log().len() && sent_one(
                    old(channels).to_inverter.log(),
                    final(channels).to_inverter.log(),
                    self.spec_packet(),
                ),
                Err(e) => e == Error::ChannelClosed && old(
                    channels).to_inverter.spec_receivers() == 0 && final(
                    channels).to_inverter.log() == old(channels).to_inverter.log(),
            },
    {
        let req = self.packet();
        match send_request(channels, &req) {
            Ok(w) => Ok((req, w)),
            Err(e) => Err(e),
        }
    }
}

} // verus!
