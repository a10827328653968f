use vstd::prelude::*;

use crate::channels::Channels;
use crate::config;
use crate::coordinator::commands::read_hold::ReadHold;
use crate::coordinator::commands::{send_request, sent_one};
use crate::error::Error;
use crate::inverter::WaitForReply;
use crate::packet::{DeviceFunction, Packet, PacketModel, TranslatedData};

verus! {

/// Which time-register group a command addresses, and which of its three
/// slots.
#[derive(Clone, Copy, Debug, PartialEq, Eq, Structural)]
pub enum Action {
    AcCharge(u16),
    AcFirst(u16),
    ChargePriority(u16),
    ForcedDischarge(u16),
}

/// The first of the two consecutive registers a group's slot occupies, or
/// nothing when the slot number is out of range.
pub open spec fn spec_action_register(a: Action) -> Option<u16> {
    match a {
        Action::AcCharge(num) => if num == 1 {
            Some(68u16)
        } else if num == 2 {
            Some(70u16)
        } else if num == 3 {
            Some(72u16)
        } else {
            None
        },
        Action::ChargePriority(num) => if num == 1 {
            Some(76u16)
        } else if num == 2 {
            Some(78u16)
        } else if num == 3 {
            Some(80u16)
        } else {
            None
        },
        Action::ForcedDischarge(num) => if num == 1 {
            Some(84u16)
        } else if num == 2 {
            Some(86u16)
        } else if num == 3 {
            Some(88u16)
        } else {
            None
        },
        Action::AcFirst(num) => if num == 1 {
            Some(152u16)
        } else if num == 2 {
            Some(154u16)
        } else if num == 3 {
            Some(156u16)
        } else {
            None
        },
    }
}

impl Action {
    /// The base register of the slot; a slot number outside 1 to 3 is a
    /// malformed command.
    pub fn register(&self) -> (r: Result<u16, Error>)
        ensures
            match r {
                Ok(reg) => spec_action_register(*self) == Some(reg),
                Err(e) => e == Error::BadCommand && spec_action_register(*self) is None,
            },
    {
        let (num, base) = match self {
            Action::AcCharge(num) => (*num, 68u16),
            Action::ChargePriority(num) => (*num, 76u16),
            Action::ForcedDischarge(num) => (*num, 84u16),
            Action::AcFirst(num) => (*num, 152u16),
        };
        if num == 1 {
            Ok(base)
        } else if num == 2 {
            Ok(base + 2)
        } else if num == 3 {
            Ok(base + 4)
        } else {
            Err(Error::BadCommand)
        }
    }
}

/// Whether the quadruple names a clock range: hours below 24, minutes below
/// 60.
pub open spec fn spec_time_in_range(h1: u8, m1: u8, h2: u8, m2: u8) -> bool {
    h1 < 24 && m1 < 60 && h2 < 24 && m2 < 60
}

/// The two register words of a start/end pair: each word holds the minute in
/// its high byte and the hour in its low byte.
pub open spec fn spec_pack_time(h1: u8, m1: u8, h2: u8, m2: u8) -> (u16, u16) {
    (((m1 as u16) * 256 + (h1 as u16)) as u16, ((m2 as u16) * 256 + (h2 as u16)) as u16)
}

/// The quadruple a pair of register words spells.
pub open spec fn spec_unpack_time(w1: u16, w2: u16) -> (u8, u8, u8, u8) {
    ((w1 % 256) as u8, (w1 / 256) as u8, (w2 % 256) as u8, (w2 / 256) as u8)
}

/// Time-register round trip: packing an in-range quadruple into two words
/// and unpacking them returns the same quadruple.
pub proof fn lemma_time_round_trip(h1: u8, m1: u8, h2: u8, m2: u8)
    requires
        spec_time_in_range(h1, m1, h2, m2),
    ensures
        spec_unpack_time(spec_pack_time(h1, m1, h2, m2).0, spec_pack_time(h1, m1, h2, m2).1) == (
        h1,
        m1,
        h2,
        m2,
        ),
{
}

/// Pack `(start_hour, start_minute, end_hour, end_minute)` into the two
/// register words; out-of-range values are a `BadTime` error.
pub fn pack_time(values: (u8, u8, u8, u8)) -> (r: Result<(u16, u16), Error>)
    ensures
        match r {
            Ok(ws) => spec_time_in_range(values.0, values.1, values.2, values.3) && ws
                == spec_pack_time(values.0, values.1, values.2, values.3),
            Err(e) => e == Error::BadTime && !spec_time_in_range(
                values.0,
                values.1,
                values.2,
                values.3,
            ),
        },
{
    let h1 = values.0;
    let m1 = values.1;
    let h2 = values.2;
    let m2 = values.3;
    if !(h1 < 24 && m1 < 60 && h2 < 24 && m2 < 60) {
        return Err(Error::BadTime);
    }
    Ok(((m1 as u16) * 256 + (h1 as u16), (m2 as u16) * 256 + (h2 as u16)))
}

/// Unpack two register words into `(start_hour, start_minute, end_hour,
/// end_minute)`.
pub fn unpack_time(w1: u16, w2: u16) -> (r: (u8, u8, u8, u8))
    ensures
        r == spec_unpack_time(w1, w2),
{
    ((w1 % 256) as u8, (w1 / 256) as u8, (w2 % 256) as u8, (w2 / 256) as u8)
}

/// Read one time-register slot: two consecutive holding registers.
pub struct ReadTimeRegister {
    pub inverter: config::Inverter,
    pub action: Action,
}

impl ReadTimeRegister {
    pub fn new(inverter: config::Inverter, action: Action) -> (r: Self)
        ensures
            r.inverter == inverter,
            r.action == action,
    {
        ReadTimeRegister { inverter, action }
    }

    /// Subscribe for the reply, then queue a two-register read of the slot.
    pub fn request(&self, channels: &mut Channels) -> (r: Result<(Packet, WaitForReply), Error>)
        ensures
            crate::coordinator::commands::dispatch_frame(*old(channels), *final(channels)),
            match r {
                Ok((req, w)) => {
                    &&& old(channels).to_inverter.spec_receivers() > 0
                    &&& spec_action_register(self.action) is Some
                    &&& req@ == (ReadHold {
                        inverter: self.inverter,
                        register: spec_action_register(self.action).unwrap(),
                        count: 2,
                    }).spec_packet()
                    &&& w.spec_cursor() == old(channels).from_inverter.log().len()
                    &&& sent_one(
                        old(channels).to_inverter.log(),
                        final(channels).to_inverter.log(),
                        req@,
                    )
                },
                Err(e) => (e == Error::BadCommand || e == Error::ChannelClosed) && final(
                    channels).to_inverter.log() == old(channels).to_inverter.log() && (e
                    == Error::BadCommand <==> spec_action_register(self.action) is None) && (e
                    == Error::ChannelClosed ==> old(channels).to_inverter.spec_receivers() == 0),
            },
    {
        let register = match self.action.register() {
            Ok(reg) => reg,
            Err(e) => {
                return Err(e);
            },
        };
        let read = ReadHold::new(self.inverter.duplicate(), register, 2);
        read.request(channels)
    }
}

/// Write one time-register slot. The payload of the WriteMulti frame is the
/// quadruple itself: each word's low byte is the hour, its high byte the
/// minute.
pub struct SetTimeRegister {
    pub inverter: config::Inverter,
    pub action: Action,
    pub values: (u8, u8, u8, u8),
}

impl SetTimeRegister {
    pub fn new(inverter: config::Inverter, action: Action, values: (u8, u8, u8, u8)) -> (r: Self)
        ensures
            r.inverter == inverter,
            r.action == action,
            r.values == values,
    {
        SetTimeRegister { inverter, action, values }
    }

    /// The request frame, given the slot's base register.
    pub open spec fn spec_packet(&self, register: u16) -> PacketModel {
        PacketModel::TranslatedData {
            datalog: self.inverter.datalog@,
            device_function: DeviceFunction::WriteMulti,
            inverter: self.inverter.serial@,
            register,
            values: seq![self.values.0, self.values.1, self.values.2, self.values.3],
        }
    }

    /// Subscribe for the reply, then queue the write. A read-only inverter
    /// and an out-of-range time are refused outright; no frame is emitted.
    pub fn request(&self, channels: &mut Channels) -> (r: Result<(Packet, WaitForReply), Error>)
        ensures
            crate::coordinator::commands::dispatch_frame(*old(channels), *final(channels)),
            self.inverter.spec_read_only() ==> r == Err::<(Packet, WaitForReply), Error>(
                Error::ReadOnly,
            ) && final(channels).to_inverter.log() == old(channels).to_inverter.log(),
            match r {
                Ok((req, w)) => {
                    &&& !self.inverter.spec_read_only()
                    &&& old(channels).to_inverter.spec_receivers() > 0
                    &&& spec_time_in_range(self.values.0, self.values.1, self.values.2, self.values.3)
                    &&& spec_action_register(self.action) is Some
                    &&& req@ == self.spec_packet(spec_action_register(self.action).unwrap())
                    &&& w.spec_cursor() == old(channels).from_inverter.log().len()
                    &&& sent_one(
                        old(channels).to_inverter.log(),
                        final(channels).to_inverter.log(),
                        req@,
                    )
                },
                Err(e) => (e == Error::ReadOnly || e == Error::BadTime || e == Error::BadCommand
                    || e == Error::ChannelClosed) && final(channels).to_inverter.log() == old(
                    channels).to_inverter.log() && (e == Error::ReadOnly
                    <==> self.inverter.spec_read_only()) && (e == Error::BadCommand
                    <==> !self.inverter.spec_read_only() && spec_action_register(
                    self.action,
                ) is None) && (e == Error::BadTime <==> !self.inverter.spec_read_only()
                    && spec_action_register(self.action) is Some && !spec_time_in_range(
                    self.values.0,
                    self.values.1,
                    self.values.2,
                    self.values.3,
                )) && (e == Error::ChannelClosed ==> old(
                    channels).to_inverter.spec_receivers() == 0),
            },
    {
        if self.inverter.read_only() {
            return Err(Error::ReadOnly);
        }
        let register = match self.action.register() {
            Ok(reg) => reg,
            Err(e) => {
                return Err(e);
            },
        };
        // The payload is checked before anything is sent.
        match pack_time(self.values) {
            Ok(_) => {},
            Err(e) => {
                return Err(e);
            },
        }
        let req = Packet::TranslatedData(
            TranslatedData {
                datalog: self.inverter.datalog,
                device_function: DeviceFunction::WriteMulti,
                inverter: self.inverter.serial,
                register,
                values: vec![self.values.0, self.values.1, self.values.2, self.values.3],
            },
        );
        proof {
            broadcast use crate::serial::lemma_serial_len;

        }
        match send_request(channels, &req) {
            Ok(w) => Ok((req, w)),
            Err(e) => Err(e),
        }
    }
}

} // verus!
