use vstd::prelude::*;

use crate::channels::Channels;
use crate::command::RegisterBit;
use crate::config;
use crate::coordinator::commands::read_hold::ReadHold;
use crate::coordinator::commands::set_hold::SetHold;
use crate::error::Error;
use crate::inverter::WaitForReply;
use crate::packet::Packet;

verus! {

/// The register value after setting or clearing the masked bits.
pub open spec fn spec_update_value(v: u16, mask: u16, enable: bool) -> u16 {
    if enable {
        v | mask
    } else {
        v & !mask
    }
}

pub fn updated_value(v: u16, mask: u16, enable: bool) -> (r: u16)
    ensures
        r == spec_update_value(v, mask, enable),
{
    if enable {
        v | mask
    } else {
        v & !mask
    }
}

/// Bit read-modify-write is idempotent: applying the same update twice
/// leaves the register exactly as one application does.
pub proof fn lemma_update_hold_idempotent(v: u16, mask: u16, enable: bool)
    ensures
        spec_update_value(spec_update_value(v, mask, enable), mask, enable) == spec_update_value(
            v,
            mask,
            enable,
        ),
{
    assert((v | mask) | mask == v | mask) by (bit_vector);
    assert((v & !mask) & !mask == v & !mask) by (bit_vector);
}

/// The update turns the masked bits on or off and leaves the rest alone.
pub proof fn lemma_update_hold_bits(v: u16, mask: u16, enable: bool)
    ensures
        enable ==> spec_update_value(v, mask, enable) & mask == mask,
        !enable ==> spec_update_value(v, mask, enable) & mask == 0,
        spec_update_value(v, mask, enable) & !mask == v & !mask,
{
    assert((v | mask) & mask == mask) by (bit_vector);
    assert((v & !mask) & mask == 0) by (bit_vector);
    assert((v | mask) & !mask == v & !mask) by (bit_vector);
    assert((v & !mask) & !mask == v & !mask) by (bit_vector);
}

/// Read-modify-write of a bit field in a holding register: read the current
/// value, apply the mask, write the result back.
pub struct UpdateHold {
    pub inverter: config::Inverter,
    pub register: u16,
    pub bit: RegisterBit,
    pub enable: bool,
}

impl UpdateHold {
    pub fn new(inverter: config::Inverter, register: u16, bit: RegisterBit, enable: bool) -> (r:
        Self)
        ensures
            r.inverter == inverter,
            r.register == register,
            r.bit == bit,
            r.enable == enable,
    {
        UpdateHold { inverter, register, bit, enable }
    }

    /// First step: request the current value of the register.
    pub fn read_request(&self, channels: &mut Channels) -> (r: Result<
        (Packet, WaitForReply),
        Error,
    >)
        ensures
            crate::coordinator::commands::dispatch_frame(*old(channels), *final(channels)),
            match r {
                Ok((req, w)) => old(channels).to_inverter.spec_receivers() > 0 && req@ == (ReadHold {
                    inverter: self.inverter,
                    register: self.register,
                    count: 1,
                }).spec_packet() && w.spec_cursor() == old(channels).from_inverter.log().len()
                    && crate::coordinator::commands::sent_one(
                    old(channels).to_inverter.log(),
                    final(channels).to_inverter.log(),
                    (ReadHold { inverter: self.inverter, register: self.register, count: 1 }).spec_packet(),
                ),
                Err(e) => e == Error::ChannelClosed && old(
                    channels).to_inverter.spec_receivers() == 0 && final(
                    channels).to_inverter.log() == old(channels).to_inverter.log(),
            },
    {
        let read = ReadHold::new(self.inverter.duplicate(), self.register, 1);
        read.request(channels)
    }

    /// Second step: write back the current value with the bit applied.
    pub fn write_request(&self, current: u16, channels: &mut Channels) -> (r: Result<
        (SetHold, Packet, WaitForReply),
        Error,
    >)
        ensures
            crate::coordinator::commands::dispatch_frame(*old(channels), *final(channels)),
            self.inverter.spec_read_only() ==> r is Err && final(channels).to_inverter.log()
                == old(channels).to_inverter.log(),
            match r {
                Ok((set, req, w)) => {
                    &&& !self.inverter.spec_read_only()
                    &&& old(channels).to_inverter.spec_receivers() > 0
                    &&& set.inverter == self.inverter
                    &&& set.register == self.register
                    &&& set.value == spec_update_value(
                        current,
                        spec_bit_mask_of(self.bit),
                        self.enable,
                    )
                    &&& req@ == set.spec_packet()
                    &&& w.spec_cursor() == old(channels).from_inverter.log().len()
                    &&& crate::coordinator::commands::sent_one(
                        old(channels).to_inverter.log(),
                        final(channels).to_inverter.log(),
                        set.spec_packet(),
                    )
                },
                Err(e) => (e == Error::ChannelClosed || e == Error::ReadOnly) && (e
                    == Error::ReadOnly <==> self.inverter.spec_read_only()) && (e
                    == Error::ChannelClosed ==> old(channels).to_inverter.spec_receivers() == 0)
                    && final(channels).to_inverter.log() == old(channels).to_inverter.log(),
            },
    {
        let value = updated_value(current, self.bit.mask(), self.enable);
        let set = SetHold::new(self.inverter.duplicate(), self.register, value);
        match set.request(channels) {
            Ok((req, w)) => Ok((set, req, w)),
            Err(e) => Err(e),
        }
    }
}

/// The mask of a register bit, as a spec value.
pub open spec fn spec_bit_mask_of(b: RegisterBit) -> u16 {
    crate::command::spec_bit_mask(b)
}

} // verus!
