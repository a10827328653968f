use vstd::prelude::*;

use crate::channels::Channels;
use crate::config;
use crate::coordinator::commands::{send_request, sent_one};
use crate::error::Error;
use crate::inverter::WaitForReply;
use crate::packet::{DeviceFunction, Packet, PacketModel, TranslatedData};

verus! {

/// Read a block of input (telemetry) registers from one inverter.
pub struct ReadInputs {
    pub inverter: config::Inverter,
    pub register: u16,
    pub count: u16,
}

impl ReadInputs {
    pub fn new(inverter: config::Inverter, register: u16, count: u16) -> (r: Self)
        ensures
            r.inverter == inverter,
            r.register == register,
            r.count == count,
    {
        ReadInputs { inverter, register, count }
    }

    /// The request frame: a ReadInput operation whose payload carries the
    /// register count.
    pub open spec fn spec_packet(&self) -> PacketModel {
        PacketModel::TranslatedData {
            datalog: self.inverter.datalog@,
            device_function: DeviceFunction::ReadInput,
            inverter: self.inverter.serial@,
            register: self.register,
            values: seq![(self.count % 256) as u8, 0u8],
        }
    }

    pub fn packet(&self) -> (r: Packet)
        ensures
            r@ == self.spec_packet(),
            r.wf(),
    {
        let r = Packet::TranslatedData(
            TranslatedData {
                datalog: self.inverter.datalog,
                device_function: DeviceFunction::ReadInput,
                inverter: self.inverter.serial,
                register: self.register,
                values: vec![(self.count % 256) as u8, 0u8],
            },
        );
        proof {
            broadcast use crate::serial::lemma_serial_len;

        }
        r
    }

    /// Subscribe for the reply, then queue the request to the session
    /// writer. The subscription resolves the reply by fingerprint.
    pub fn request(&self, channels: &mut Channels) -> (r: Result<(Packet, WaitForReply), Error>)
        ensures
            crate::coordinator::commands::dispatch_frame(*old(channels), *final(channels)),
            match r {
                Ok((req, w)) => old(channels).to_inverter.spec_receivers() > 0 && req@
                    == self.spec_packet() && w.spec_cursor() == old(
                    channels).from_inverter.log().len() && sent_one(
                    old(channels).to_inverter.log(),
                    final(channels).to_inverter.log(),
                    self.spec_packet(),
                ),
                Err(e) => e == Error::ChannelClosed && old(
                    channels).to_inverter.spec_receivers() == 0 && final(
                    channels).to_inverter.log() == old(channels).to_inverter.log(),
            },
    {
        let req = self.packet();
        match send_request(channels, &req) {
            Ok(w) => Ok((req, w)),
            Err(e) => Err(e),
        }
    }
}

} // verus!
