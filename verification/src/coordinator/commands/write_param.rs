use vstd::prelude::*;

use crate::channels::Channels;
use crate::config;
use crate::coordinator::commands::{send_request, sent_one};
use crate::error::Error;
use crate::inverter::WaitForReply;
use crate::packet::{Packet, PacketModel, WriteParam as WriteParamPacket};

verus! {

/// Write one datalog device parameter.
pub struct WriteParam {
    pub inverter: config::Inverter,
    pub register: u16,
    pub value: u16,
}

impl WriteParam {
    pub fn new(inverter: config::Inverter, register: u16, value: u16) -> (r: Self)
        ensures
            r.inverter == inverter,
            r.register == register,
            r.value == value,
    {
        WriteParam { inverter, register, value }
    }

    /// The request frame: a parameter write whose payload carries the value,
    /// little endian.
    pub open spec fn spec_packet(&self) -> PacketModel {
        PacketModel::WriteParam {
            datalog: self.inverter.datalog@,
            register: self.register,
            values: seq![(self.value % 256) as u8, (self.value / 256) as u8],
        }
    }

    pub fn packet(&self) -> (r: Packet)
        ensures
            r@ == self.spec_packet(),
            r.wf(),
    {
        let r = Packet::WriteParam(
            WriteParamPacket {
                datalog: self.inverter.datalog,
                register: self.register,
                values: vec![(self.value % 256) as u8, (self.value / 256) as u8],
            },
        );
        proof {
            broadcast use crate::serial::lemma_serial_len;

        }
        r
    }

    /// Subscribe for the reply, then queue the write. On a read-only
    /// inverter the call fails outright and no frame is emitted.
    pub fn request(&self, channels: &mut Channels) -> (r: Result<(Packet, WaitForReply), Error>)
        ensures
            crate::coordinator::commands::dispatch_frame(*old(channels), *final(channels)),
            self.inverter.spec_read_only() ==> r == Err::<(Packet, WaitForReply), Error>(
                Error::ReadOnly,
            ) && final(channels).to_inverter.log() == old(channels).to_inverter.log(),
            match r {
                Ok((req, w)) => !self.inverter.spec_read_only() && old(
                    channels).to_inverter.spec_receivers() > 0 && req@ == self.spec_packet()
                    && w.spec_cursor() == old(channels).from_inverter.log().len() && sent_one(
                    old(channels).to_inverter.log(),
                    final(channels).to_inverter.log(),
                    self.spec_packet(),
                ),
                Err(e) => (e == Error::ChannelClosed || e == Error::ReadOnly) && (e
                    == Error::ReadOnly <==> self.inverter.spec_read_only()) && (e
                    == Error::ChannelClosed ==> old(channels).to_inverter.spec_receivers() == 0)
                    && final(channels).to_inverter.log() == old(channels).to_inverter.log(),
            },
    {
        if self.inverter.read_only() {
            return Err(Error::ReadOnly);
        }
        let req = self.packet();
        match send_request(channels, &req) {
            Ok(w) => Ok((req, w)),
            Err(e) => Err(e),
        }
    }
}

} // verus!
