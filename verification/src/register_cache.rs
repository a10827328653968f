use vstd::prelude::*;

use crate::kvlist::{distinct_keys, lemma_map_of_at, lemma_map_of_key, lemma_map_of_update, map_of};

verus! {

/// What travels on the register-cache channel.
#[derive(Clone, Copy, Debug)]
pub enum ChannelData {
    Shutdown,
    RegisterData(u16, u16),
}

/// The cache map after a batch of messages, in order.
pub open spec fn spec_apply_all(m: Map<u16, u16>, msgs: Seq<ChannelData>) -> Map<u16, u16>
    decreases msgs.len(),
{
    if msgs.len() == 0 {
        m
    } else {
        match msgs.last() {
            ChannelData::RegisterData(r, v) => spec_apply_all(m, msgs.drop_last()).insert(r, v),
            ChannelData::Shutdown => spec_apply_all(m, msgs.drop_last()),
        }
    }
}

/// Cache consistency: after a batch of updates, the entry for a register
/// equals the value of the last update that wrote it.
pub proof fn lemma_cache_last_write_wins(
    m: Map<u16, u16>,
    msgs: Seq<ChannelData>,
    i: int,
    r: u16,
    v: u16,
)
    requires
        0 <= i < msgs.len(),
        msgs[i] == ChannelData::RegisterData(r, v),
        forall|j: int|
            i < j < msgs.len() ==> match #[trigger] msgs[j] {
                ChannelData::RegisterData(r2, _) => r2 != r,
                ChannelData::Shutdown => true,
            },
    ensures
        spec_apply_all(m, msgs).contains_key(r),
        spec_apply_all(m, msgs)[r] == v,
    decreases msgs.len(),
{
    if i == msgs.len() - 1 {
    } else {
        assert(msgs.drop_last()[i] == msgs[i]);
        lemma_cache_last_write_wins(m, msgs.drop_last(), i, r, v);
        match msgs.last() {
            ChannelData::RegisterData(r2, _) => {
                assert(msgs[msgs.len() - 1] == msgs.last());
                assert(r2 != r);
            },
            ChannelData::Shutdown => {},
        }
    }
}

/// Cache consistency for a decoded register payload: its pairs address
/// consecutive registers, so applying one update per pair leaves the cache
/// entry of each register at exactly the value the reply carried.
pub proof fn lemma_pairs_cache_consistency(m: Map<u16, u16>, register: u16, values: Seq<u8>, k: int)
    requires
        register + values.len() / 2 <= 0x10000,
        0 <= k < crate::packet::spec_pairs(register, values).len(),
    ensures
        ({
            let pairs = crate::packet::spec_pairs(register, values);
            let msgs = Seq::new(
                pairs.len(),
                |i: int| ChannelData::RegisterData(pairs[i].0, pairs[i].1),
            );
            spec_apply_all(m, msgs).contains_key(pairs[k].0) && spec_apply_all(m, msgs)[pairs[k].0]
                == pairs[k].1
        }),
{
    let pairs = crate::packet::spec_pairs(register, values);
    let msgs = Seq::new(pairs.len(), |i: int| ChannelData::RegisterData(pairs[i].0, pairs[i].1));
    assert(msgs[k] == ChannelData::RegisterData(pairs[k].0, pairs[k].1));
    assert forall|j: int|
        k < j < msgs.len() implies match #[trigger] msgs[j] {
        ChannelData::RegisterData(r2, _) => r2 != pairs[k].0,
        ChannelData::Shutdown => true,
    } by {
        assert(pairs[j].0 == (register + j) as u16);
        assert(pairs[k].0 == (register + k) as u16);
    }
    lemma_cache_last_write_wins(m, msgs, k, pairs[k].0, pairs[k].1);
}

/// The in-memory map of the last observed value of each holding register of
/// one inverter. Written on every successful hold read or write; read by the
/// bit read-modify-write command.
pub struct RegisterCache {
    entries: Vec<(u16, u16)>,
}

impl RegisterCache {
    /// The cache as a map from register to its last observed value.
    pub closed spec fn view(&self) -> Map<u16, u16> {
        map_of(self.entries@)
    }

    /// Each register occurs at most once in the backing store.
    pub closed spec fn wf(&self) -> bool {
        distinct_keys(self.entries@)
    }

    pub fn new() -> (r: RegisterCache)
        ensures
            r.wf(),
            r@ == Map::<u16, u16>::empty(),
    {
        RegisterCache { entries: Vec::new() }
    }

    /// Where `register` is stored, if anywhere.
    fn position(&self, register: u16) -> (r: Option<usize>)
        ensures
            match r {
                Some(i) => i < self.entries@.len() && self.entries@[i as int].0 == register,
                None => forall|i: int|
                    0 <= i < self.entries@.len() ==> self.entries@[i].0 != register,
            },
    {
        let mut i: usize = 0;
        while i < self.entries.len()
            invariant
                i <= self.entries@.len(),
                forall|j: int| 0 <= j < i ==> self.entries@[j].0 != register,
            decreases self.entries@.len() - i,
        {
            if self.entries[i].0 == register {
                return Some(i);
            }
            i += 1;
        }
        None
    }

    /// The last observed value of `register`, if any.
    pub fn get(&self, register: u16) -> (r: Option<u16>)
        requires
            self.wf(),
        ensures
            match r {
                Some(v) => self@.contains_key(register) && self@[register] == v,
                None => !self@.contains_key(register),
            },
    {
        match self.position(register) {
            Some(i) => {
                let v = self.entries[i].1;
                proof {
                    lemma_map_of_at(self.entries@, i as int);
                }
                Some(v)
            },
            None => {
                proof {
                    lemma_map_of_key(self.entries@, register);
                }
                None
            },
        }
    }

    /// Record `value` as the last observed value of `register`.
    pub fn set(&mut self, register: u16, value: u16)
        requires
            old(self).wf(),
        ensures
            final(self).wf(),
            final(self)@ == old(self)@.insert(register, value),
    {
        match self.position(register) {
            Some(i) => {
                proof {
                    lemma_map_of_update(self.entries@, i as int, value);
                }
                self.entries[i] = (register, value);
                proof {
                    assert(self.entries@ =~= old(self).entries@.update(
                        i as int,
                        (register, value),
                    ));
                }
            },
            None => {
                self.entries.push((register, value));
                proof {
                    assert(self.entries@.drop_last() =~= old(self).entries@);
                }
            },
        }
    }

    /// Apply a whole batch of channel messages to the cache, in arrival
    /// order.
    pub fn apply_all(&mut self, msgs: &Vec<ChannelData>)
        requires
            old(self).wf(),
        ensures
            final(self).wf(),
            final(self)@ == spec_apply_all(old(self)@, msgs@),
    {
        let mut i: usize = 0;
        while i < msgs.len()
            invariant
                i <= msgs@.len(),
                self.wf(),
                self@ == spec_apply_all(old(self)@, msgs@.take(i as int)),
            decreases msgs@.len() - i,
        {
            self.apply(msgs[i]);
            i += 1;
            proof {
                assert(msgs@.take(i as int).drop_last() =~= msgs@.take(i - 1));
            }
        }
        proof {
            assert(msgs@.take(msgs@.len() as int) =~= msgs@);
        }
    }

    /// Apply one channel message to the cache.
    pub fn apply(&mut self, data: ChannelData)
        requires
            old(self).wf(),
        ensures
            final(self).wf(),
            match data {
                ChannelData::RegisterData(r, v) => final(self)@ == old(self)@.insert(r, v),
                ChannelData::Shutdown => final(self)@ == old(self)@,
            },
    {
        match data {
            ChannelData::RegisterData(r, v) => self.set(r, v),
            ChannelData::Shutdown => {},
        }
    }
}

} // verus!
