use vstd::prelude::*;

use crate::error::Error;
use crate::inverter;
use crate::mqtt;
use crate::register_cache;

verus! {

/// A broadcast channel: every message sent is delivered, in order, to every
/// receiver that subscribed before the send. A receiver is a cursor into the
/// log of messages; subscribing before a request is sent guarantees that its
/// reply cannot be missed.
pub struct Channel<T> {
    log: Vec<T>,
    receivers: usize,
}

impl<T> Channel<T> {
    /// All messages ever sent on this channel, oldest first.
    pub closed spec fn log(&self) -> Seq<T> {
        self.log@
    }

    /// How many receivers are subscribed.
    pub closed spec fn spec_receivers(&self) -> nat {
        self.receivers as nat
    }

    pub fn new() -> (r: Channel<T>)
        ensures
            r.log() == Seq::<T>::empty(),
            r.spec_receivers() == 0,
    {
        Channel { log: Vec::new(), receivers: 0 }
    }

    /// Subscribe a new receiver. The cursor starts at the current end of the
    /// log: the receiver sees exactly the messages sent after this call.
    pub fn subscribe(&mut self) -> (cursor: usize)
        ensures
            final(self).log() == old(self).log(),
            final(self).spec_receivers() > 0,
            final(self).spec_receivers() >= old(self).spec_receivers(),
            cursor == old(self).log().len(),
    {
        if self.receivers < usize::MAX {
            self.receivers += 1;
        }
        self.log.len()
    }

    /// Send a message to every receiver. Fails, leaving the log unchanged,
    /// when nobody is subscribed.
    pub fn send(&mut self, v: T) -> (r: Result<(), Error>)
        ensures
            match r {
                Ok(()) => old(self).spec_receivers() > 0 && final(self).log() == old(self).log()
                    .push(v),
                Err(e) => e == Error::ChannelClosed && old(self).spec_receivers() == 0 && final(
                    self).log() == old(self).log(),
            },
            final(self).spec_receivers() == old(self).spec_receivers(),
    {
        if self.receivers == 0 {
            return Err(Error::ChannelClosed);
        }
        self.log.push(v);
        Ok(())
    }

    /// The number of messages sent so far.
    pub fn len(&self) -> (r: usize)
        ensures
            r == self.log().len(),
    {
        self.log.len()
    }

    /// Read the message at `i`, if one has been sent.
    pub fn get(&self, i: usize) -> (r: Option<&T>)
        ensures
            match r {
                Some(v) => i < self.log().len() && *v == self.log()[i as int],
                None => i >= self.log().len(),
            },
    {
        if i < self.log.len() {
            Some(&self.log[i])
        } else {
            None
        }
    }
}

/// The typed broadcast channels that glue the components together.
pub struct Channels {
    pub to_inverter: Channel<inverter::ChannelData>,
    pub from_inverter: Channel<inverter::ChannelData>,
    pub to_mqtt: Channel<mqtt::ChannelData>,
    pub from_mqtt: Channel<mqtt::ChannelData>,
    pub to_influx: Channel<SinkData>,
    pub to_database: Channel<SinkData>,
    pub to_register_cache: Channel<register_cache::ChannelData>,
}

/// What the coordinator forwards to the Influx and database sinks: the
/// decoded register pairs of one inbound telemetry frame.
#[derive(Clone, Debug)]
pub enum SinkData {
    Shutdown,
    Inputs(crate::serial::Serial, Vec<(u16, u16)>),
}

impl Channels {
    pub fn new() -> (r: Channels)
        ensures
            r.to_inverter.log() == Seq::<inverter::ChannelData>::empty(),
            r.from_inverter.log() == Seq::<inverter::ChannelData>::empty(),
            r.to_mqtt.log() == Seq::<mqtt::ChannelData>::empty(),
            r.from_mqtt.log() == Seq::<mqtt::ChannelData>::empty(),
            r.to_influx.log() == Seq::<SinkData>::empty(),
            r.to_database.log() == Seq::<SinkData>::empty(),
            r.to_register_cache.log() == Seq::<register_cache::ChannelData>::empty(),
    {
        Channels {
            to_inverter: Channel::new(),
            from_inverter: Channel::new(),
            to_mqtt: Channel::new(),
            from_mqtt: Channel::new(),
            to_influx: Channel::new(),
            to_database: Channel::new(),
            to_register_cache: Channel::new(),
        }
    }
}

} // verus!
