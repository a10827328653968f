use vstd::prelude::*;

use crate::channels::{Channels, SinkData};
use crate::command::{Command, Register, RegisterBit};
use crate::config::{self, ConfigWrapper, spec_first_enabled_with_datalog};
use crate::coordinator::commands::read_hold::ReadHold;
use crate::coordinator::commands::sent_one;
use crate::coordinator::commands::read_inputs::ReadInputs;
use crate::coordinator::commands::read_param::ReadParam;
use crate::coordinator::commands::set_hold::SetHold;
use crate::coordinator::commands::time_register_ops::{
    Action, ReadTimeRegister, SetTimeRegister,
};
use crate::coordinator::commands::update_hold::UpdateHold;
use crate::coordinator::commands::write_param::WriteParam;
use crate::error::Error;
use crate::inverter;
use crate::kvlist::{distinct_keys, lemma_map_of_at, lemma_map_of_key, lemma_map_of_update, map_of};
use crate::mqtt::{self, Message};
use crate::packet::{DeviceFunction, Packet, PacketModel, model_datalog, model_value, spec_pairs};
use crate::register_cache;
use crate::serial::Serial;
use crate::text::{
    ascii_bytes_to_string, chars_of, lemma_spec_dec_ascii, push_dec_u16, push_dec_u64,
    push_str_bytes, spec_dec,
};

pub mod commands;

verus! {

/// What travels between the coordinator and its peers.
#[derive(Clone, Debug)]
pub enum ChannelData {
    Shutdown,
    Packet(Packet),
}

/// A counter one higher, stuck at the top of its range.
pub open spec fn spec_bump(x: u64) -> u64 {
    if x == u64::MAX {
        x
    } else {
        (x + 1) as u64
    }
}

fn bump(x: u64) -> (r: u64)
    ensures
        r == spec_bump(x),
{
    if x == u64::MAX {
        x
    } else {
        x + 1
    }
}

/// Monotonic counters for everything the bridge sends, receives, and drops.
/// Mutated only by its owner; printed once at shutdown.
pub struct PacketStats {
    pub packets_received: u64,
    pub packets_sent: u64,
    pub heartbeat_packets_received: u64,
    pub translated_data_packets_received: u64,
    pub read_param_packets_received: u64,
    pub write_param_packets_received: u64,
    pub heartbeat_packets_sent: u64,
    pub translated_data_packets_sent: u64,
    pub read_param_packets_sent: u64,
    pub write_param_packets_sent: u64,
    pub mqtt_messages_sent: u64,
    pub mqtt_errors: u64,
    pub influx_writes: u64,
    pub influx_errors: u64,
    pub database_writes: u64,
    pub database_errors: u64,
    pub register_cache_writes: u64,
    pub register_cache_errors: u64,
    pub serial_mismatches: u64,
    pub inverter_disconnections: Vec<(Serial, u64)>,
    pub last_messages: Vec<(Serial, String)>,
}

impl Default for PacketStats {
    /// Every counter at zero and both per-datalog stores empty.
    fn default() -> (r: Self)
        ensures
            r.wf(),
            r.packets_received == 0,
            r.packets_sent == 0,
            r.serial_mismatches == 0,
            r.mqtt_messages_sent == 0,
    {
        PacketStats::new()
    }
}

impl PacketStats {
    /// Disconnect counts per datalog serial.
    pub open spec fn spec_disconnections(&self) -> Map<Serial, u64> {
        map_of(self.inverter_disconnections@)
    }

    /// The last rendered message per datalog serial.
    pub open spec fn spec_last_messages(&self) -> Map<Serial, String> {
        map_of(self.last_messages@)
    }

    /// Each serial occurs at most once in the backing stores.
    pub open spec fn wf(&self) -> bool {
        distinct_keys(self.inverter_disconnections@) && distinct_keys(self.last_messages@)
    }

    pub fn new() -> (r: PacketStats)
        ensures
            r.wf(),
            r.packets_received == 0,
            r.packets_sent == 0,
            r.heartbeat_packets_received == 0,
            r.translated_data_packets_received == 0,
            r.read_param_packets_received == 0,
            r.write_param_packets_received == 0,
            r.heartbeat_packets_sent == 0,
            r.translated_data_packets_sent == 0,
            r.read_param_packets_sent == 0,
            r.write_param_packets_sent == 0,
            r.mqtt_messages_sent == 0,
            r.mqtt_errors == 0,
            r.influx_writes == 0,
            r.influx_errors == 0,
            r.database_writes == 0,
            r.database_errors == 0,
            r.register_cache_writes == 0,
            r.register_cache_errors == 0,
            r.serial_mismatches == 0,
            r.spec_disconnections() == Map::<Serial, u64>::empty(),
            r.spec_last_messages() == Map::<Serial, String>::empty(),
    {
        PacketStats {
            packets_received: 0,
            packets_sent: 0,
            heartbeat_packets_received: 0,
            translated_data_packets_received: 0,
            read_param_packets_received: 0,
            write_param_packets_received: 0,
            heartbeat_packets_sent: 0,
            translated_data_packets_sent: 0,
            read_param_packets_sent: 0,
            write_param_packets_sent: 0,
            mqtt_messages_sent: 0,
            mqtt_errors: 0,
            influx_writes: 0,
            influx_errors: 0,
            database_writes: 0,
            database_errors: 0,
            register_cache_writes: 0,
            register_cache_errors: 0,
            serial_mismatches: 0,
            inverter_disconnections: Vec::new(),
            last_messages: Vec::new(),
        }
    }

    pub fn increment_serial_mismatches(&mut self)
        requires
            old(self).wf(),
        ensures
            final(self).wf(),
            *final(self) == (PacketStats {
                serial_mismatches: spec_bump(old(self).serial_mismatches),
                ..*old(self)
            }),
    {
        self.serial_mismatches = bump(self.serial_mismatches);
    }

    pub fn increment_mqtt_errors(&mut self)
        requires
            old(self).wf(),
        ensures
            final(self).wf(),
            *final(self) == (PacketStats { mqtt_errors: spec_bump(old(self).mqtt_errors), ..*old(
                self,
            ) }),
    {
        self.mqtt_errors = bump(self.mqtt_errors);
    }

    pub fn increment_cache_errors(&mut self)
        requires
            old(self).wf(),
        ensures
            final(self).wf(),
            *final(self) == (PacketStats {
                register_cache_errors: spec_bump(old(self).register_cache_errors),
                ..*old(self)
            }),
    {
        self.register_cache_errors = bump(self.register_cache_errors);
    }

    /// Count one disconnect of the given datalog.
    pub fn record_disconnect(&mut self, datalog: Serial)
        requires
            old(self).wf(),
        ensures
            final(self).wf(),
            final(self).spec_disconnections() == old(self).spec_disconnections().insert(
                datalog,
                spec_bump(
                    if old(self).spec_disconnections().contains_key(datalog) {
                        old(self).spec_disconnections()[datalog]
                    } else {
                        0
                    },
                ),
            ),
            final(self).spec_last_messages() == old(self).spec_last_messages(),
            final(self).serial_mismatches == old(self).serial_mismatches,
    {
        let n = self.inverter_disconnections.len();
        let mut i: usize = 0;
        while i < n
            invariant
                i <= n,
                n == self.inverter_disconnections@.len(),
                *self == *old(self),
                old(self).wf(),
                forall|j: int|
                    0 <= j < i ==> (#[trigger] self.inverter_disconnections@[j]).0@ != datalog@,
            decreases n - i,
        {
            if self.inverter_disconnections[i].0.eq_serial(&datalog) {
                let c = self.inverter_disconnections[i].1;
                proof {
                    crate::serial::lemma_serial_view_injective(
                        self.inverter_disconnections@[i as int].0,
                        datalog,
                    );
                    lemma_map_of_at(self.inverter_disconnections@, i as int);
                    assert(self.inverter_disconnections@[i as int].0 == datalog);
                    lemma_map_of_update(self.inverter_disconnections@, i as int, spec_bump(c));
                }
                self.inverter_disconnections[i] = (datalog, bump(c));
                proof {
                    assert(self.inverter_disconnections@ =~= old(
                        self,
                    ).inverter_disconnections@.update(i as int, (datalog, spec_bump(c))));
                }
                return ;
            }
            i += 1;
        }
        proof {
            lemma_map_of_key(self.inverter_disconnections@, datalog);
        }
        self.inverter_disconnections.push((datalog, 1));
        proof {
            assert(self.inverter_disconnections@.drop_last() =~= old(
                self,
            ).inverter_disconnections@);
        }
    }

    /// Remember the last rendered message of the given datalog.
    pub fn record_last_message(&mut self, datalog: Serial, text: String)
        requires
            old(self).wf(),
        ensures
            final(self).wf(),
            final(self).spec_last_messages() == old(self).spec_last_messages().insert(
                datalog,
                text,
            ),
            final(self).spec_disconnections() == old(self).spec_disconnections(),
            final(self).serial_mismatches == old(self).serial_mismatches,
            final(self).mqtt_messages_sent == old(self).mqtt_messages_sent,
            final(self).packets_sent == old(self).packets_sent,
            final(self).packets_received == old(self).packets_received,
            final(self).heartbeat_packets_received == old(self).heartbeat_packets_received,
            final(self).translated_data_packets_received == old(
                self,
            ).translated_data_packets_received,
            final(self).read_param_packets_received == old(self).read_param_packets_received,
            final(self).write_param_packets_received == old(self).write_param_packets_received,
    {
        let n = self.last_messages.len();
        let mut i: usize = 0;
        while i < n
            invariant
                i <= n,
                n == self.last_messages@.len(),
                *self == *old(self),
                old(self).wf(),
                forall|j: int| 0 <= j < i ==> (#[trigger] self.last_messages@[j]).0@ != datalog@,
            decreases n - i,
        {
            if self.last_messages[i].0.eq_serial(&datalog) {
                proof {
                    crate::serial::lemma_serial_view_injective(
                        self.last_messages@[i as int].0,
                        datalog,
                    );
                    assert(self.last_messages@[i as int].0 == datalog);
                    lemma_map_of_update(self.last_messages@, i as int, text);
                }
                self.last_messages[i] = (datalog, text);
                proof {
                    assert(self.last_messages@ =~= old(self).last_messages@.update(
                        i as int,
                        (datalog, text),
                    ));
                }
                return ;
            }
            i += 1;
        }
        proof {
            lemma_map_of_key(self.last_messages@, datalog);
        }
        self.last_messages.push((datalog, text));
        proof {
            assert(self.last_messages@.drop_last() =~= old(self).last_messages@);
        }
    }

    /// Render the final statistics as text, one figure per line, then one
    /// line per datalog with its disconnect count.
    pub fn print_summary(&self) -> (r: String)
        ensures
            r@.len() > 0,
            r@ == chars_of(
                spec_counter_block(*self) + spec_disconnect_lines(self.inverter_disconnections@),
            ),
    {
        proof {
            reveal_strlit("packets received: ");
            reveal_strlit("packets sent: ");
            reveal_strlit("heartbeat packets received: ");
            reveal_strlit("translated data packets received: ");
            reveal_strlit("read param packets received: ");
            reveal_strlit("write param packets received: ");
            reveal_strlit("heartbeat packets sent: ");
            reveal_strlit("translated data packets sent: ");
            reveal_strlit("read param packets sent: ");
            reveal_strlit("write param packets sent: ");
            reveal_strlit("mqtt messages sent: ");
            reveal_strlit("mqtt errors: ");
            reveal_strlit("influx writes: ");
            reveal_strlit("influx errors: ");
            reveal_strlit("database writes: ");
            reveal_strlit("database errors: ");
            reveal_strlit("register cache writes: ");
            reveal_strlit("register cache errors: ");
            reveal_strlit("serial mismatches: ");
        }
        let mut buf: Vec<u8> = Vec::new();
        push_counter(&mut buf, "packets received: ", self.packets_received);
        push_counter(&mut buf, "packets sent: ", self.packets_sent);
        push_counter(&mut buf, "heartbeat packets received: ", self.heartbeat_packets_received);
        push_counter(
            &mut buf,
            "translated data packets received: ",
            self.translated_data_packets_received,
        );
        push_counter(&mut buf, "read param packets received: ", self.read_param_packets_received);
        push_counter(
            &mut buf,
            "write param packets received: ",
            self.write_param_packets_received,
        );
        push_counter(&mut buf, "heartbeat packets sent: ", self.heartbeat_packets_sent);
        push_counter(
            &mut buf,
            "translated data packets sent: ",
            self.translated_data_packets_sent,
        );
        push_counter(&mut buf, "read param packets sent: ", self.read_param_packets_sent);
        push_counter(&mut buf, "write param packets sent: ", self.write_param_packets_sent);
        push_counter(&mut buf, "mqtt messages sent: ", self.mqtt_messages_sent);
        push_counter(&mut buf, "mqtt errors: ", self.mqtt_errors);
        push_counter(&mut buf, "influx writes: ", self.influx_writes);
        push_counter(&mut buf, "influx errors: ", self.influx_errors);
        push_counter(&mut buf, "database writes: ", self.database_writes);
        push_counter(&mut buf, "database errors: ", self.database_errors);
        push_counter(&mut buf, "register cache writes: ", self.register_cache_writes);
        push_counter(&mut buf, "register cache errors: ", self.register_cache_errors);
        push_counter(&mut buf, "serial mismatches: ", self.serial_mismatches);
        proof {
            assert(buf@ =~= spec_counter_block(*self));
        }
        let mut i: usize = 0;
        while i < self.inverter_disconnections.len()
            invariant
                i <= self.inverter_disconnections@.len(),
                crate::text::ascii_seq(buf@),
                buf@.len() > 0,
                buf@ == spec_counter_block(*self) + spec_disconnect_lines(
                    self.inverter_disconnections@.take(i as int),
                ),
            decreases self.inverter_disconnections@.len() - i,
        {
            proof {
                reveal_strlit("disconnections of ");
                reveal_strlit(": ");
                assert(self.inverter_disconnections@.take(i + 1).drop_last()
                    =~= self.inverter_disconnections@.take(i as int));
            }
            crate::text::push_ascii_label(&mut buf, "disconnections of ");
            let entry_serial = self.inverter_disconnections[i].0;
            let entry_count = self.inverter_disconnections[i].1;
            push_serial_text(&mut buf, &entry_serial);
            crate::text::push_ascii_label(&mut buf, ": ");
            push_dec_u64(&mut buf, entry_count);
            buf.push(10);
            i += 1;
            proof {
                lemma_spec_dec_ascii(entry_count as nat);
                assert(crate::text::ascii_seq(buf@));
                assert(buf@ =~= spec_counter_block(*self) + spec_disconnect_lines(
                    self.inverter_disconnections@.take(i as int),
                ));
            }
        }
        proof {
            assert(self.inverter_disconnections@.take(self.inverter_disconnections@.len() as int)
                =~= self.inverter_disconnections@);
        }
        ascii_bytes_to_string(&buf)
    }
}

/// The nineteen counter lines of the statistics summary, in order.
pub open spec fn spec_counter_block(s: PacketStats) -> Seq<u8> {
    spec_counter_line("packets received: "@, s.packets_received) + spec_counter_line(
        "packets sent: "@,
        s.packets_sent,
    ) + spec_counter_line("heartbeat packets received: "@, s.heartbeat_packets_received)
        + spec_counter_line(
        "translated data packets received: "@,
        s.translated_data_packets_received,
    ) + spec_counter_line("read param packets received: "@, s.read_param_packets_received)
        + spec_counter_line("write param packets received: "@, s.write_param_packets_received)
        + spec_counter_line("heartbeat packets sent: "@, s.heartbeat_packets_sent)
        + spec_counter_line("translated data packets sent: "@, s.translated_data_packets_sent)
        + spec_counter_line("read param packets sent: "@, s.read_param_packets_sent)
        + spec_counter_line("write param packets sent: "@, s.write_param_packets_sent)
        + spec_counter_line("mqtt messages sent: "@, s.mqtt_messages_sent) + spec_counter_line(
        "mqtt errors: "@,
        s.mqtt_errors,
    ) + spec_counter_line("influx writes: "@, s.influx_writes) + spec_counter_line(
        "influx errors: "@,
        s.influx_errors,
    ) + spec_counter_line("database writes: "@, s.database_writes) + spec_counter_line(
        "database errors: "@,
        s.database_errors,
    ) + spec_counter_line("register cache writes: "@, s.register_cache_writes)
        + spec_counter_line("register cache errors: "@, s.register_cache_errors)
        + spec_counter_line("serial mismatches: "@, s.serial_mismatches)
}

/// One disconnect line per datalog, in store order.
pub open spec fn spec_disconnect_lines(entries: Seq<(Serial, u64)>) -> Seq<u8>
    decreases entries.len(),
{
    if entries.len() == 0 {
        Seq::empty()
    } else {
        spec_disconnect_lines(entries.drop_last()) + "disconnections of "@.map(
            |k: int, c: char| c as u8,
        ) + spec_serial_text(entries.last().0) + ": "@.map(|k: int, c: char| c as u8) + spec_dec(
            entries.last().1 as nat,
        ) + seq![10u8]
    }
}

// ---------------------------------------------------------------------------
// Topics and payloads
// ---------------------------------------------------------------------------
/// The retained per-register topic `{datalog}/hold/{reg}`.
pub open spec fn spec_hold_topic(datalog: Seq<u8>, reg: u16) -> Seq<char> {
    chars_of(datalog) + "/hold/"@ + chars_of(spec_dec(reg as nat))
}

/// Build `{datalog}/hold/{reg}`.
pub fn hold_topic(datalog: &Serial, reg: u16) -> (r: String)
    requires
        datalog.spec_is_ascii(),
    ensures
        r@ == spec_hold_topic(datalog@, reg),
{
    proof {
        reveal_strlit("/hold/");
        broadcast use crate::serial::lemma_serial_len;

    }
    let mut buf: Vec<u8> = Vec::new();
    let bytes = datalog.bytes();
    buf.extend_from_slice(bytes.as_slice());
    push_str_bytes(&mut buf, "/hold/");
    push_dec_u16(&mut buf, reg);
    proof {
        lemma_spec_dec_ascii(reg as nat);
        assert(crate::text::ascii_seq(buf@));
        crate::text::lemma_chars_of_map("/hold/"@);
        assert(chars_of(buf@) =~= chars_of(datalog@) + "/hold/"@ + chars_of(
            spec_dec(reg as nat),
        ));
    }
    ascii_bytes_to_string(&buf)
}

/// A fixed suffix appended to the datalog serial.
fn datalog_topic(datalog: &Serial, suffix: &str) -> (r: String)
    requires
        datalog.spec_is_ascii(),
        suffix.is_ascii(),
    ensures
        r@ == chars_of(datalog@) + suffix@,
{
    proof {
        broadcast use crate::serial::lemma_serial_len;

    }
    let mut buf: Vec<u8> = Vec::new();
    let bytes = datalog.bytes();
    buf.extend_from_slice(bytes.as_slice());
    push_str_bytes(&mut buf, suffix);
    proof {
        assert(crate::text::ascii_seq(buf@));
        crate::text::lemma_chars_of_map(suffix@);
        assert(chars_of(buf@) =~= chars_of(datalog@) + suffix@);
    }
    ascii_bytes_to_string(&buf)
}

/// The decimal rendering of a register value.
pub fn dec_string(v: u16) -> (r: String)
    ensures
        r@ == chars_of(spec_dec(v as nat)),
{
    let mut buf: Vec<u8> = Vec::new();
    push_dec_u16(&mut buf, v);
    proof {
        lemma_spec_dec_ascii(v as nat);
    }
    ascii_bytes_to_string(&buf)
}

/// The write confirmation text `OK: {reg} = {value}`.
pub open spec fn spec_write_ok_text(reg: u16, value: u16) -> Seq<char> {
    "OK: "@ + chars_of(spec_dec(reg as nat)) + " = "@ + chars_of(spec_dec(value as nat))
}

/// Build `OK: {reg} = {value}`.
pub fn write_ok_text(reg: u16, value: u16) -> (r: String)
    ensures
        r@ == spec_write_ok_text(reg, value),
{
    proof {
        reveal_strlit("OK: ");
        reveal_strlit(" = ");
    }
    let mut buf: Vec<u8> = Vec::new();
    push_str_bytes(&mut buf, "OK: ");
    push_dec_u16(&mut buf, reg);
    push_str_bytes(&mut buf, " = ");
    push_dec_u16(&mut buf, value);
    proof {
        lemma_spec_dec_ascii(reg as nat);
        lemma_spec_dec_ascii(value as nat);
        assert(crate::text::ascii_seq(buf@));
        crate::text::lemma_chars_of_map("OK: "@);
        crate::text::lemma_chars_of_map(" = "@);
        assert(chars_of(buf@) =~= spec_write_ok_text(reg, value));
    }
    ascii_bytes_to_string(&buf)
}

/// The pair list text `[(r1, v1), (r2, v2), ...]`.
pub open spec fn spec_pairs_text(pairs: Seq<(u16, u16)>) -> Seq<char>
    decreases pairs.len(),
{
    if pairs.len() == 0 {
        "[]"@
    } else if pairs.len() == 1 {
        "["@ + spec_pair_text(pairs[0]) + "]"@
    } else {
        spec_pairs_text(pairs.drop_last()).drop_last() + ", "@ + spec_pair_text(pairs.last())
            + "]"@
    }
}

/// One pair as `(reg, value)`.
pub open spec fn spec_pair_text(p: (u16, u16)) -> Seq<char> {
    "("@ + chars_of(spec_dec(p.0 as nat)) + ", "@ + chars_of(spec_dec(p.1 as nat)) + ")"@
}

/// The JSON object text `{"r1":v1,"r2":v2,...}` of decoded input pairs.
pub open spec fn spec_inputs_json(pairs: Seq<(u16, u16)>) -> Seq<char> {
    "{"@ + spec_json_body(pairs) + "}"@
}

/// The comma-separated members of the JSON object.
pub open spec fn spec_json_body(pairs: Seq<(u16, u16)>) -> Seq<char>
    decreases pairs.len(),
{
    if pairs.len() == 0 {
        Seq::empty()
    } else if pairs.len() == 1 {
        spec_json_member(pairs[0])
    } else {
        spec_json_body(pairs.drop_last()) + ","@ + spec_json_member(pairs.last())
    }
}

/// One JSON member `"reg":value`.
pub open spec fn spec_json_member(p: (u16, u16)) -> Seq<char> {
    "\""@ + chars_of(spec_dec(p.0 as nat)) + "\":"@ + chars_of(spec_dec(p.1 as nat))
}

/// Append one JSON member to the buffer.
fn push_json_member(buf: &mut Vec<u8>, p: (u16, u16))
    requires
        crate::text::ascii_seq(old(buf)@),
    ensures
        crate::text::ascii_seq(final(buf)@),
        chars_of(final(buf)@) == chars_of(old(buf)@) + spec_json_member(p),
{
    proof {
        reveal_strlit("\"");
        reveal_strlit("\":");
    }
    push_str_bytes(buf, "\"");
    push_dec_u16(buf, p.0);
    push_str_bytes(buf, "\":");
    push_dec_u16(buf, p.1);
    proof {
        lemma_spec_dec_ascii(p.0 as nat);
        lemma_spec_dec_ascii(p.1 as nat);
        assert(crate::text::ascii_seq(buf@));
        crate::text::lemma_chars_of_map("\""@);
        crate::text::lemma_chars_of_map("\":"@);
        assert(chars_of(buf@) =~= chars_of(old(buf)@) + spec_json_member(p));
    }
}

/// Build the JSON object of the decoded input pairs.
pub fn inputs_json(pairs: &Vec<(u16, u16)>) -> (r: String)
    ensures
        r@ == spec_inputs_json(pairs@),
{
    proof {
        reveal_strlit("{");
        reveal_strlit("}");
        reveal_strlit(",");
    }
    let mut buf: Vec<u8> = Vec::new();
    push_str_bytes(&mut buf, "{");
    let mut i: usize = 0;
    while i < pairs.len()
        invariant
            i <= pairs@.len(),
            crate::text::ascii_seq(buf@),
            chars_of(buf@) == "{"@ + spec_json_body(pairs@.take(i as int)),
        decreases pairs@.len() - i,
    {
        proof {
            reveal_strlit(",");
        }
        if i > 0 {
            push_str_bytes(&mut buf, ",");
            proof {
                crate::text::lemma_chars_of_map(","@);
                assert(chars_of(buf@) =~= "{"@ + spec_json_body(pairs@.take(i as int)) + ","@);
            }
        }
        push_json_member(&mut buf, pairs[i]);
        i += 1;
        proof {
            assert(pairs@.take(i as int).drop_last() =~= pairs@.take(i - 1));
            assert(pairs@.take(i as int).last() == pairs@[i - 1]);
            assert(chars_of(buf@) =~= "{"@ + spec_json_body(pairs@.take(i as int)));
        }
    }
    push_str_bytes(&mut buf, "}");
    proof {
        assert(pairs@.take(pairs@.len() as int) =~= pairs@);
        crate::text::lemma_chars_of_map("{"@);
        crate::text::lemma_chars_of_map("}"@);
        assert(chars_of(buf@) =~= spec_inputs_json(pairs@));
    }
    ascii_bytes_to_string(&buf)
}

/// Build the pair list text `[(r1, v1), ...]`.
pub fn pairs_text(pairs: &Vec<(u16, u16)>) -> (r: String)
    ensures
        r@ == spec_pairs_text(pairs@),
{
    proof {
        reveal_strlit("[");
        reveal_strlit("]");
        reveal_strlit("[]");
        reveal_strlit(", ");
        reveal_strlit("(");
        reveal_strlit(")");
    }
    if pairs.len() == 0 {
        let mut buf: Vec<u8> = Vec::new();
        push_str_bytes(&mut buf, "[]");
        proof {
            crate::text::lemma_chars_of_map("[]"@);
            assert(chars_of(buf@) =~= spec_pairs_text(pairs@));
        }
        return ascii_bytes_to_string(&buf);
    }
    let mut buf: Vec<u8> = Vec::new();
    push_str_bytes(&mut buf, "[");
    let mut i: usize = 0;
    while i < pairs.len()
        invariant
            i <= pairs@.len(),
            pairs@.len() > 0,
            crate::text::ascii_seq(buf@),
            chars_of(buf@) == (if i == 0 {
                "["@
            } else {
                spec_pairs_text(pairs@.take(i as int)).drop_last()
            }),
        decreases pairs@.len() - i,
    {
        proof {
            reveal_strlit(", ");
            reveal_strlit("]");
        }
        if i > 0 {
            push_str_bytes(&mut buf, ", ");
        }
        push_pair_text(&mut buf, pairs[i]);
        i += 1;
        proof {
            assert(pairs@.take(i as int).drop_last() =~= pairs@.take(i - 1));
            assert(pairs@.take(i as int).last() == pairs@[i - 1]);
            crate::text::lemma_chars_of_map(", "@);
            crate::text::lemma_chars_of_map("]"@);
            if i == 1 {
                assert(chars_of(buf@) =~= spec_pairs_text(pairs@.take(1)).drop_last());
            } else {
                assert(spec_pairs_text(pairs@.take(i as int)) =~= spec_pairs_text(
                    pairs@.take(i - 1),
                ).drop_last() + ", "@ + spec_pair_text(pairs@[i - 1]) + "]"@);
                assert(chars_of(buf@) =~= spec_pairs_text(pairs@.take(i as int)).drop_last());
            }
        }
    }
    push_str_bytes(&mut buf, "]");
    proof {
        assert(pairs@.take(pairs@.len() as int) =~= pairs@);
        crate::text::lemma_chars_of_map("]"@);
        if pairs@.len() == 1 {
            assert(spec_pairs_text(pairs@) =~= spec_pairs_text(pairs@).drop_last() + "]"@);
        } else {
            assert(spec_pairs_text(pairs@) == spec_pairs_text(pairs@.drop_last()).drop_last()
                + ", "@ + spec_pair_text(pairs@.last()) + "]"@);
            assert(spec_pairs_text(pairs@) =~= spec_pairs_text(pairs@).drop_last() + "]"@);
        }
        assert(chars_of(buf@) =~= spec_pairs_text(pairs@));
    }
    ascii_bytes_to_string(&buf)
}

/// Append one pair as `(reg, value)`.
fn push_pair_text(buf: &mut Vec<u8>, p: (u16, u16))
    requires
        crate::text::ascii_seq(old(buf)@),
    ensures
        crate::text::ascii_seq(final(buf)@),
        chars_of(final(buf)@) == chars_of(old(buf)@) + spec_pair_text(p),
{
    proof {
        reveal_strlit("(");
        reveal_strlit(", ");
        reveal_strlit(")");
    }
    push_str_bytes(buf, "(");
    push_dec_u16(buf, p.0);
    push_str_bytes(buf, ", ");
    push_dec_u16(buf, p.1);
    push_str_bytes(buf, ")");
    proof {
        lemma_spec_dec_ascii(p.0 as nat);
        lemma_spec_dec_ascii(p.1 as nat);
        assert(crate::text::ascii_seq(buf@));
        crate::text::lemma_chars_of_map("("@);
        crate::text::lemma_chars_of_map(", "@);
        crate::text::lemma_chars_of_map(")"@);
        assert(chars_of(buf@) =~= chars_of(old(buf)@) + spec_pair_text(p));
    }
}

// ---------------------------------------------------------------------------
// Effects on the channel fabric
// ---------------------------------------------------------------------------
/// One message was published: everything before it is unchanged.
pub open spec fn published_one(
    before: Seq<mqtt::ChannelData>,
    after: Seq<mqtt::ChannelData>,
    topic: Seq<char>,
    payload: Seq<char>,
    retain: bool,
) -> bool {
    &&& after.len() == before.len() + 1
    &&& after.take(before.len() as int) == before
    &&& (after.last() matches mqtt::ChannelData::Message(m) && m.topic@ == topic && m.payload@
        == payload && m.retain == retain)
}

/// The cache channel gained exactly one entry per register pair, in order.
pub open spec fn cache_extended_pairs(
    before: Seq<register_cache::ChannelData>,
    after: Seq<register_cache::ChannelData>,
    pairs: Seq<(u16, u16)>,
) -> bool {
    &&& after.len() == before.len() + pairs.len()
    &&& after.take(before.len() as int) == before
    &&& forall|k: int|
        0 <= k < pairs.len() ==> #[trigger] after[before.len() + k]
            == register_cache::ChannelData::RegisterData(pairs[k].0, pairs[k].1)
}

/// One retained publish per register pair, on `{datalog}/hold/{reg}`.
pub open spec fn hold_published_pairs(
    before: Seq<mqtt::ChannelData>,
    after: Seq<mqtt::ChannelData>,
    datalog: Seq<u8>,
    pairs: Seq<(u16, u16)>,
) -> bool {
    &&& after.len() == before.len() + pairs.len()
    &&& after.take(before.len() as int) == before
    &&& forall|k: int|
        0 <= k < pairs.len() ==> (#[trigger] after[before.len() + k] matches
        mqtt::ChannelData::Message(m) && m.topic@ == spec_hold_topic(datalog, pairs[k].0)
            && m.payload@ == chars_of(spec_dec(pairs[k].1 as nat)) && m.retain == true)
}

/// A write confirmation: the retained per-register publish of the written
/// value, then the `OK` status line.
pub open spec fn write_single_published(
    before: Seq<mqtt::ChannelData>,
    after: Seq<mqtt::ChannelData>,
    datalog: Seq<u8>,
    register: u16,
    value: u16,
) -> bool {
    &&& after.len() == before.len() + 2
    &&& after.take(before.len() as int) == before
    &&& (after[before.len() as int] matches mqtt::ChannelData::Message(m) && m.topic@
        == spec_hold_topic(datalog, register) && m.payload@ == chars_of(spec_dec(value as nat))
        && m.retain == true)
    &&& (after.last() matches mqtt::ChannelData::Message(m) && m.topic@ == chars_of(datalog)
        + "/write/status"@ && m.payload@ == spec_write_ok_text(register, value) && m.retain
        == false)
}

/// The sink channel gained one batch holding these pairs.
pub open spec fn sink_extended(
    before: Seq<SinkData>,
    after: Seq<SinkData>,
    datalog: Seq<u8>,
    pairs: Seq<(u16, u16)>,
) -> bool {
    &&& after.len() == before.len() + 1
    &&& after.take(before.len() as int) == before
    &&& (after.last() matches SinkData::Inputs(d, p) && d@ == datalog && p@ == pairs)
}

/// The counters that egress work never touches: everything counted at the
/// receive boundary, and the per-datalog stores.
pub open spec fn rx_stats_preserved(pre: PacketStats, post: PacketStats) -> bool {
    &&& post.packets_received == pre.packets_received
    &&& post.packets_sent == pre.packets_sent
    &&& post.heartbeat_packets_received == pre.heartbeat_packets_received
    &&& post.translated_data_packets_received == pre.translated_data_packets_received
    &&& post.read_param_packets_received == pre.read_param_packets_received
    &&& post.write_param_packets_received == pre.write_param_packets_received
    &&& post.spec_last_messages() == pre.spec_last_messages()
    &&& post.spec_disconnections() == pre.spec_disconnections()
}

/// What routing one inbound frame from a known inverter does to the channel
/// fabric and to the mismatch counter (see `process_inverter_packet`).
pub open spec fn spec_inbound_route_effects(
    pre_ch: Channels,
    post_ch: Channels,
    pre_mismatches: u64,
    post_mismatches: u64,
    mqtt_enabled: bool,
    packet: Packet,
    inverter: config::Inverter,
) -> bool {

                let mqtt_live = mqtt_enabled && pre_ch.to_mqtt.spec_receivers() > 0;
                let cache_ok = pre_ch.to_register_cache.spec_receivers() > 0;
                match packet@ {
                    PacketModel::TranslatedData {
                        datalog,
                        device_function,
                        inverter: embedded,
                        register,
                        values,
                    } => {
                        if embedded != inverter.serial@ {
                            // A frame from the wrong hardware: counted, dropped,
                            // nothing published, nothing cached.
                            &&& post_mismatches == spec_bump(pre_mismatches)
                            &&& post_ch.to_mqtt.log() == pre_ch.to_mqtt.log()
                            &&& post_ch.to_register_cache.log() == pre_ch.to_register_cache.log()
                            &&& post_ch.to_influx.log() == pre_ch.to_influx.log()
                            &&& post_ch.to_database.log() == pre_ch.to_database.log()
                        } else {
                            &&& post_mismatches == pre_mismatches
                            &&& match device_function {
                                DeviceFunction::ReadHold => {
                                    &&& (if cache_ok {
                                        cache_extended_pairs(
                                            pre_ch.to_register_cache.log(),
                                            post_ch.to_register_cache.log(),
                                            spec_pairs(register, values),
                                        )
                                    } else {
                                        post_ch.to_register_cache.log() == pre_ch.to_register_cache.log()
                                    })
                                    &&& (if mqtt_live {
                                        hold_published_pairs(
                                            pre_ch.to_mqtt.log(),
                                            post_ch.to_mqtt.log(),
                                            inverter.datalog@,
                                            spec_pairs(register, values),
                                        )
                                    } else {
                                        post_ch.to_mqtt.log() == pre_ch.to_mqtt.log()
                                    })
                                    &&& post_ch.to_influx.log() == pre_ch.to_influx.log()
                                    &&& post_ch.to_database.log() == pre_ch.to_database.log()
                                },
                                DeviceFunction::ReadInput => {
                                    &&& post_ch.to_register_cache.log() == pre_ch.to_register_cache.log()
                                    &&& (if pre_ch.to_influx.spec_receivers() > 0 {
                                        sink_extended(
                                            pre_ch.to_influx.log(),
                                            post_ch.to_influx.log(),
                                            inverter.datalog@,
                                            spec_pairs(register, values),
                                        )
                                    } else {
                                        post_ch.to_influx.log() == pre_ch.to_influx.log()
                                    })
                                    &&& (if pre_ch.to_database.spec_receivers() > 0 {
                                        sink_extended(
                                            pre_ch.to_database.log(),
                                            post_ch.to_database.log(),
                                            inverter.datalog@,
                                            spec_pairs(register, values),
                                        )
                                    } else {
                                        post_ch.to_database.log() == pre_ch.to_database.log()
                                    })
                                    &&& (if register == 0 && mqtt_live {
                                        published_one(
                                            pre_ch.to_mqtt.log(),
                                            post_ch.to_mqtt.log(),
                                            chars_of(inverter.datalog@) + (
                                            if spec_pairs(register, values).len() == 40 {
                                                "/inputs/all"@
                                            } else {
                                                "/inputs/1"@
                                            }),
                                            spec_inputs_json(spec_pairs(register, values)),
                                            false,
                                        )
                                    } else {
                                        post_ch.to_mqtt.log() == pre_ch.to_mqtt.log()
                                    })
                                },
                                DeviceFunction::WriteSingle => {
                                    &&& (if cache_ok {
                                        cache_extended_pairs(
                                            pre_ch.to_register_cache.log(),
                                            post_ch.to_register_cache.log(),
                                            seq![(register, model_value(packet@))],
                                        )
                                    } else {
                                        post_ch.to_register_cache.log() == pre_ch.to_register_cache.log()
                                    })
                                    &&& (if mqtt_live {
                                        write_single_published(
                                            pre_ch.to_mqtt.log(),
                                            post_ch.to_mqtt.log(),
                                            inverter.datalog@,
                                            register,
                                            model_value(packet@),
                                        )
                                    } else {
                                        post_ch.to_mqtt.log() == pre_ch.to_mqtt.log()
                                    })
                                    &&& post_ch.to_influx.log() == pre_ch.to_influx.log()
                                    &&& post_ch.to_database.log() == pre_ch.to_database.log()
                                },
                                DeviceFunction::WriteMulti => {
                                    &&& (if cache_ok {
                                        cache_extended_pairs(
                                            pre_ch.to_register_cache.log(),
                                            post_ch.to_register_cache.log(),
                                            spec_pairs(register, values),
                                        )
                                    } else {
                                        post_ch.to_register_cache.log() == pre_ch.to_register_cache.log()
                                    })
                                    &&& (if mqtt_live {
                                        published_one(
                                            pre_ch.to_mqtt.log(),
                                            post_ch.to_mqtt.log(),
                                            chars_of(inverter.datalog@) + "/write_multi/status"@,
                                            "OK: "@ + spec_pairs_text(spec_pairs(register, values)),
                                            false,
                                        )
                                    } else {
                                        post_ch.to_mqtt.log() == pre_ch.to_mqtt.log()
                                    })
                                    &&& post_ch.to_influx.log() == pre_ch.to_influx.log()
                                    &&& post_ch.to_database.log() == pre_ch.to_database.log()
                                },
                            }
                        }
                    },
                    _ => {
                        &&& post_mismatches == pre_mismatches
                        &&& post_ch.to_mqtt.log() == pre_ch.to_mqtt.log()
                        &&& post_ch.to_register_cache.log() == pre_ch.to_register_cache.log()
                        &&& post_ch.to_influx.log() == pre_ch.to_influx.log()
                        &&& post_ch.to_database.log() == pre_ch.to_database.log()
                    },
                }
}

/// No subscriber came or went on any channel.
pub open spec fn receivers_preserved(pre: Channels, post: Channels) -> bool {
    &&& post.to_inverter.spec_receivers() == pre.to_inverter.spec_receivers()
    &&& post.from_inverter.spec_receivers() == pre.from_inverter.spec_receivers()
    &&& post.to_mqtt.spec_receivers() == pre.to_mqtt.spec_receivers()
    &&& post.from_mqtt.spec_receivers() == pre.from_mqtt.spec_receivers()
    &&& post.to_influx.spec_receivers() == pre.to_influx.spec_receivers()
    &&& post.to_database.spec_receivers() == pre.to_database.spec_receivers()
    &&& post.to_register_cache.spec_receivers() == pre.to_register_cache.spec_receivers()
}

// ---------------------------------------------------------------------------
// The coordinator
// ---------------------------------------------------------------------------
/// Routes inbound inverter packets to the sinks and the cache, parses
/// operator commands, dispatches them to the primitives, and counts
/// everything.
pub struct Coordinator {
    pub config: ConfigWrapper,
    pub channels: Channels,
    pub stats: PacketStats,
}

impl Coordinator {
    pub open spec fn wf(&self) -> bool {
        self.stats.wf()
    }

    pub fn new(config: ConfigWrapper, channels: Channels) -> (r: Coordinator)
        ensures
            r.wf(),
            r.config == config,
            r.channels == channels,
            r.stats.packets_received == 0,
            r.stats.packets_sent == 0,
            r.stats.heartbeat_packets_received == 0,
            r.stats.translated_data_packets_received == 0,
            r.stats.read_param_packets_received == 0,
            r.stats.write_param_packets_received == 0,
            r.stats.heartbeat_packets_sent == 0,
            r.stats.translated_data_packets_sent == 0,
            r.stats.read_param_packets_sent == 0,
            r.stats.write_param_packets_sent == 0,
            r.stats.mqtt_messages_sent == 0,
            r.stats.mqtt_errors == 0,
            r.stats.influx_writes == 0,
            r.stats.influx_errors == 0,
            r.stats.database_writes == 0,
            r.stats.database_errors == 0,
            r.stats.register_cache_writes == 0,
            r.stats.register_cache_errors == 0,
            r.stats.serial_mismatches == 0,
            r.stats.spec_disconnections() == Map::<Serial, u64>::empty(),
            r.stats.spec_last_messages() == Map::<Serial, String>::empty(),
    {
        Coordinator { config, channels, stats: PacketStats::new() }
    }

    /// Ask every task to leave its loop: `Shutdown` on the inbound inverter
    /// broadcast, and on the inbound MQTT broadcast when MQTT is enabled.
    pub fn stop(&mut self)
        requires
            old(self).wf(),
        ensures
            final(self).wf(),
            final(self).config == old(self).config,
            final(self).stats == old(self).stats,
            (if old(self).channels.from_inverter.spec_receivers() > 0 {
                final(self).channels.from_inverter.log() == old(
                    self,
                ).channels.from_inverter.log().push(inverter::ChannelData::Shutdown)
            } else {
                final(self).channels.from_inverter.log() == old(self).channels.from_inverter.log()
            }),
            (if old(self).config.spec_config().mqtt.enabled && old(
                self,
            ).channels.from_mqtt.spec_receivers() > 0 {
                final(self).channels.from_mqtt.log() == old(self).channels.from_mqtt.log().push(
                    mqtt::ChannelData::Shutdown,
                )
            } else {
                final(self).channels.from_mqtt.log() == old(self).channels.from_mqtt.log()
            }),
    {
        let _ = self.channels.from_inverter.send(inverter::ChannelData::Shutdown);
        if self.config.mqtt().enabled() {
            let _ = self.channels.from_mqtt.send(mqtt::ChannelData::Shutdown);
        }
    }

    /// Publish one MQTT message, counting it; a send with nobody consuming
    /// is an MQTT error.
    pub fn publish_message(&mut self, topic: String, payload: String, retain: bool) -> (r: Result<
        (),
        Error,
    >)
        requires
            old(self).wf(),
        ensures
            final(self).wf(),
            final(self).config == old(self).config,
            final(self).channels.to_inverter.log() == old(self).channels.to_inverter.log(),
            final(self).channels.from_inverter.log() == old(self).channels.from_inverter.log(),
            final(self).channels.to_register_cache.log() == old(
                self,
            ).channels.to_register_cache.log(),
            final(self).channels.to_influx.log() == old(self).channels.to_influx.log(),
            final(self).channels.to_database.log() == old(self).channels.to_database.log(),
            final(self).channels.from_mqtt.log() == old(self).channels.from_mqtt.log(),
            receivers_preserved(old(self).channels, final(self).channels),
            match r {
                Ok(()) => old(self).channels.to_mqtt.spec_receivers() > 0 && published_one(
                    old(self).channels.to_mqtt.log(),
                    final(self).channels.to_mqtt.log(),
                    topic@,
                    payload@,
                    retain,
                ) && final(self).stats == (PacketStats {
                    mqtt_messages_sent: spec_bump(old(self).stats.mqtt_messages_sent),
                    ..old(self).stats
                }),
                Err(e) => e == Error::ChannelClosed && old(
                    self,
                ).channels.to_mqtt.spec_receivers() == 0 && final(self).channels.to_mqtt.log()
                    == old(self).channels.to_mqtt.log() && final(self).stats == (PacketStats {
                    mqtt_errors: spec_bump(old(self).stats.mqtt_errors),
                    ..old(self).stats
                }),
            },
    {
        let message = Message::new(topic, payload, retain);
        match self.channels.to_mqtt.send(mqtt::ChannelData::Message(message)) {
            Ok(()) => {
                self.stats.mqtt_messages_sent = bump(self.stats.mqtt_messages_sent);
                proof {
                    let before = old(self).channels.to_mqtt.log();
                    let after = self.channels.to_mqtt.log();
                    assert(after.take(before.len() as int) =~= before);
                }
                Ok(())
            },
            Err(e) => {
                self.stats.mqtt_errors = bump(self.stats.mqtt_errors);
                Err(e)
            },
        }
    }

    /// Count one outbound packet by kind.
    pub fn increment_packets_sent(&mut self, packet: &Packet)
        requires
            old(self).wf(),
        ensures
            final(self).wf(),
            final(self).config == old(self).config,
            final(self).channels == old(self).channels,
            final(self).stats == (match packet@ {
                PacketModel::Heartbeat { .. } => PacketStats {
                    packets_sent: spec_bump(old(self).stats.packets_sent),
                    heartbeat_packets_sent: spec_bump(old(self).stats.heartbeat_packets_sent),
                    ..old(self).stats
                },
                PacketModel::TranslatedData { .. } => PacketStats {
                    packets_sent: spec_bump(old(self).stats.packets_sent),
                    translated_data_packets_sent: spec_bump(
                        old(self).stats.translated_data_packets_sent,
                    ),
                    ..old(self).stats
                },
                PacketModel::ReadParam { .. } => PacketStats {
                    packets_sent: spec_bump(old(self).stats.packets_sent),
                    read_param_packets_sent: spec_bump(old(self).stats.read_param_packets_sent),
                    ..old(self).stats
                },
                PacketModel::WriteParam { .. } => PacketStats {
                    packets_sent: spec_bump(old(self).stats.packets_sent),
                    write_param_packets_sent: spec_bump(old(self).stats.write_param_packets_sent),
                    ..old(self).stats
                },
            }),
    {
        self.stats.packets_sent = bump(self.stats.packets_sent);
        match packet {
            Packet::Heartbeat(_) => {
                self.stats.heartbeat_packets_sent = bump(self.stats.heartbeat_packets_sent);
            },
            Packet::TranslatedData(_) => {
                self.stats.translated_data_packets_sent = bump(
                    self.stats.translated_data_packets_sent,
                );
            },
            Packet::ReadParam(_) => {
                self.stats.read_param_packets_sent = bump(self.stats.read_param_packets_sent);
            },
            Packet::WriteParam(_) => {
                self.stats.write_param_packets_sent = bump(self.stats.write_param_packets_sent);
            },
        }
    }

    /// Count one inbound packet by kind and remember it as the last message
    /// of its datalog.
    pub fn record_inbound(&mut self, packet: &Packet)
        requires
            old(self).wf(),
        ensures
            final(self).wf(),
            final(self).config == old(self).config,
            final(self).channels == old(self).channels,
            final(self).stats.packets_received == spec_bump(old(self).stats.packets_received),
            final(self).stats.serial_mismatches == old(self).stats.serial_mismatches,
            final(self).stats.mqtt_messages_sent == old(self).stats.mqtt_messages_sent,
            final(self).stats.packets_sent == old(self).stats.packets_sent,
            match packet@ {
                PacketModel::Heartbeat { .. } => final(self).stats.heartbeat_packets_received
                    == spec_bump(old(self).stats.heartbeat_packets_received),
                PacketModel::TranslatedData { .. } => final(self).stats.translated_data_packets_received == spec_bump(
                    old(self).stats.translated_data_packets_received,
                ),
                PacketModel::ReadParam { .. } => final(self).stats.read_param_packets_received
                    == spec_bump(old(self).stats.read_param_packets_received),
                PacketModel::WriteParam { .. } => final(self).stats.write_param_packets_received
                    == spec_bump(old(self).stats.write_param_packets_received),
            },
            (packet@ is TranslatedData ==> final(self).stats.spec_last_messages().dom() == old(self).stats.spec_last_messages().dom().insert(packet.spec_datalog_serial())),
            (!(packet@ is TranslatedData) ==> final(self).stats.spec_last_messages() == old(self).stats.spec_last_messages()),
    {
        self.stats.packets_received = bump(self.stats.packets_received);
        match packet {
            Packet::Heartbeat(_) => {
                self.stats.heartbeat_packets_received = bump(
                    self.stats.heartbeat_packets_received,
                );
            },
            Packet::TranslatedData(td) => {
                self.stats.translated_data_packets_received = bump(
                    self.stats.translated_data_packets_received,
                );
                let text = packet.describe();
                self.stats.record_last_message(td.datalog, text);
            },
            Packet::ReadParam(_) => {
                self.stats.read_param_packets_received = bump(
                    self.stats.read_param_packets_received,
                );
            },
            Packet::WriteParam(_) => {
                self.stats.write_param_packets_received = bump(
                    self.stats.write_param_packets_received,
                );
            },
        }
    }

    /// Send one cache update per register pair; failures are counted and
    /// absorbed.
    fn send_cache_pairs(&mut self, pairs: &Vec<(u16, u16)>)
        requires
            old(self).wf(),
        ensures
            final(self).wf(),
            final(self).config == old(self).config,
            final(self).channels.to_mqtt.log() == old(self).channels.to_mqtt.log(),
            final(self).channels.to_inverter.log() == old(self).channels.to_inverter.log(),
            final(self).channels.from_inverter.log() == old(self).channels.from_inverter.log(),
            final(self).channels.to_influx.log() == old(self).channels.to_influx.log(),
            final(self).channels.to_database.log() == old(self).channels.to_database.log(),
            final(self).stats.serial_mismatches == old(self).stats.serial_mismatches,
            final(self).stats.mqtt_messages_sent == old(self).stats.mqtt_messages_sent,
            rx_stats_preserved(old(self).stats, final(self).stats),
            receivers_preserved(old(self).channels, final(self).channels),
            if old(self).channels.to_register_cache.spec_receivers() > 0 {
                cache_extended_pairs(
                    old(self).channels.to_register_cache.log(),
                    final(self).channels.to_register_cache.log(),
                    pairs@,
                )
            } else {
                final(self).channels.to_register_cache.log() == old(
                    self,
                ).channels.to_register_cache.log()
            },
    {
        proof {
            let before = old(self).channels.to_register_cache.log();
            assert(before.take(before.len() as int) =~= before);
        }
        let mut i: usize = 0;
        while i < pairs.len()
            invariant
                i <= pairs@.len(),
                self.wf(),
                self.config == old(self).config,
                self.channels.to_mqtt.log() == old(self).channels.to_mqtt.log(),
                self.channels.to_inverter.log() == old(self).channels.to_inverter.log(),
                self.channels.from_inverter.log() == old(self).channels.from_inverter.log(),
                self.channels.to_influx.log() == old(self).channels.to_influx.log(),
                self.channels.to_database.log() == old(self).channels.to_database.log(),
                self.stats.serial_mismatches == old(self).stats.serial_mismatches,
                self.stats.mqtt_messages_sent == old(self).stats.mqtt_messages_sent,
                rx_stats_preserved(old(self).stats, self.stats),
                receivers_preserved(old(self).channels, self.channels),
                if old(self).channels.to_register_cache.spec_receivers() > 0 {
                    cache_extended_pairs(
                        old(self).channels.to_register_cache.log(),
                        self.channels.to_register_cache.log(),
                        pairs@.take(i as int),
                    )
                } else {
                    self.channels.to_register_cache.log() == old(
                        self,
                    ).channels.to_register_cache.log()
                },
            decreases pairs@.len() - i,
        {
            let (reg, value) = pairs[i];
            match self.channels.to_register_cache.send(
                register_cache::ChannelData::RegisterData(reg, value),
            ) {
                Ok(()) => {
                    self.stats.register_cache_writes = bump(self.stats.register_cache_writes);
                },
                Err(_) => {
                    self.stats.register_cache_errors = bump(self.stats.register_cache_errors);
                },
            }
            i += 1;
            proof {
                let before = old(self).channels.to_register_cache.log();
                let after = self.channels.to_register_cache.log();
                if old(self).channels.to_register_cache.spec_receivers() > 0 {
                    assert(after.take(before.len() as int) =~= before);
                }
            }
        }
        proof {
            assert(pairs@.take(pairs@.len() as int) =~= pairs@);
        }
    }

    /// Publish each pair retained on its own `{datalog}/hold/{reg}` topic;
    /// failures are counted and absorbed.
    fn publish_hold_pairs(&mut self, datalog: &Serial, pairs: &Vec<(u16, u16)>)
        requires
            old(self).wf(),
            datalog.spec_is_ascii(),
        ensures
            final(self).wf(),
            final(self).config == old(self).config,
            final(self).channels.to_register_cache.log() == old(
                self,
            ).channels.to_register_cache.log(),
            final(self).channels.to_inverter.log() == old(self).channels.to_inverter.log(),
            final(self).channels.from_inverter.log() == old(self).channels.from_inverter.log(),
            final(self).channels.to_influx.log() == old(self).channels.to_influx.log(),
            final(self).channels.to_database.log() == old(self).channels.to_database.log(),
            final(self).stats.serial_mismatches == old(self).stats.serial_mismatches,
            rx_stats_preserved(old(self).stats, final(self).stats),
            receivers_preserved(old(self).channels, final(self).channels),
            if old(self).channels.to_mqtt.spec_receivers() > 0 {
                hold_published_pairs(
                    old(self).channels.to_mqtt.log(),
                    final(self).channels.to_mqtt.log(),
                    datalog@,
                    pairs@,
                )
            } else {
                final(self).channels.to_mqtt.log() == old(self).channels.to_mqtt.log()
            },
    {
        proof {
            let before = old(self).channels.to_mqtt.log();
            assert(before.take(before.len() as int) =~= before);
        }
        let mut i: usize = 0;
        while i < pairs.len()
            invariant
                i <= pairs@.len(),
                self.wf(),
                datalog.spec_is_ascii(),
                self.config == old(self).config,
                self.channels.to_register_cache.log() == old(
                    self,
                ).channels.to_register_cache.log(),
                self.channels.to_inverter.log() == old(self).channels.to_inverter.log(),
                self.channels.from_inverter.log() == old(self).channels.from_inverter.log(),
                self.channels.to_influx.log() == old(self).channels.to_influx.log(),
                self.channels.to_database.log() == old(self).channels.to_database.log(),
                self.stats.serial_mismatches == old(self).stats.serial_mismatches,
                rx_stats_preserved(old(self).stats, self.stats),
                receivers_preserved(old(self).channels, self.channels),
                if old(self).channels.to_mqtt.spec_receivers() > 0 {
                    hold_published_pairs(
                        old(self).channels.to_mqtt.log(),
                        self.channels.to_mqtt.log(),
                        datalog@,
                        pairs@.take(i as int),
                    )
                } else {
                    self.channels.to_mqtt.log() == old(self).channels.to_mqtt.log()
                },
            decreases pairs@.len() - i,
        {
            let (reg, value) = pairs[i];
            let topic = hold_topic(datalog, reg);
            let payload = dec_string(value);
            let ghost prev = self.channels.to_mqtt.log();
            let _ = self.publish_message(topic, payload, true);
            i += 1;
            proof {
                let before = old(self).channels.to_mqtt.log();
                let after = self.channels.to_mqtt.log();
                let taken = pairs@.take(i as int);
                if old(self).channels.to_mqtt.spec_receivers() > 0 {
                    assert(after == prev.push(after.last()));
                    assert(after.take(before.len() as int) =~= before);
                    assert forall|k: int| 0 <= k < taken.len() implies (#[trigger] after[before.len()
                        + k] matches mqtt::ChannelData::Message(m) && m.topic@ == spec_hold_topic(
                        datalog@,
                        taken[k].0,
                    ) && m.payload@ == chars_of(spec_dec(taken[k].1 as nat)) && m.retain
                        == true) by {
                        if k < i - 1 {
                            assert(after[before.len() + k] == prev[before.len() + k]);
                        } else {
                            assert(after[before.len() + k] == after.last());
                            assert(taken[k] == pairs@[i - 1]);
                        }
                    }
                }
            }
        }
        proof {
            assert(pairs@.take(pairs@.len() as int) =~= pairs@);
        }
    }
    /// Forward one decoded input batch to a sink channel; a failure is
    /// absorbed.
    fn forward_inputs(&mut self, to_database: bool, datalog: Serial, pairs: Vec<(u16, u16)>)
        requires
            old(self).wf(),
        ensures
            final(self).wf(),
            final(self).config == old(self).config,
            final(self).channels.to_mqtt.log() == old(self).channels.to_mqtt.log(),
            final(self).channels.to_register_cache.log() == old(
                self,
            ).channels.to_register_cache.log(),
            final(self).channels.to_inverter.log() == old(self).channels.to_inverter.log(),
            final(self).channels.from_inverter.log() == old(self).channels.from_inverter.log(),
            final(self).stats.serial_mismatches == old(self).stats.serial_mismatches,
            rx_stats_preserved(old(self).stats, final(self).stats),
            receivers_preserved(old(self).channels, final(self).channels),
            (if to_database {
                final(self).channels.to_influx.log() == old(self).channels.to_influx.log() && (
                if old(self).channels.to_database.spec_receivers() > 0 {
                    sink_extended(
                        old(self).channels.to_database.log(),
                        final(self).channels.to_database.log(),
                        datalog@,
                        pairs@,
                    )
                } else {
                    final(self).channels.to_database.log() == old(
                        self,
                    ).channels.to_database.log()
                })
            } else {
                final(self).channels.to_database.log() == old(self).channels.to_database.log() && (
                if old(self).channels.to_influx.spec_receivers() > 0 {
                    sink_extended(
                        old(self).channels.to_influx.log(),
                        final(self).channels.to_influx.log(),
                        datalog@,
                        pairs@,
                    )
                } else {
                    final(self).channels.to_influx.log() == old(self).channels.to_influx.log()
                })
            }),
    {
        if to_database {
            match self.channels.to_database.send(SinkData::Inputs(datalog, pairs)) {
                Ok(()) => {
                    self.stats.database_writes = bump(self.stats.database_writes);
                    proof {
                        let before = old(self).channels.to_database.log();
                        let after = self.channels.to_database.log();
                        assert(after.take(before.len() as int) =~= before);
                    }
                },
                Err(_) => {
                    self.stats.database_errors = bump(self.stats.database_errors);
                },
            }
        } else {
            match self.channels.to_influx.send(SinkData::Inputs(datalog, pairs)) {
                Ok(()) => {
                    self.stats.influx_writes = bump(self.stats.influx_writes);
                    proof {
                        let before = old(self).channels.to_influx.log();
                        let after = self.channels.to_influx.log();
                        assert(after.take(before.len() as int) =~= before);
                    }
                },
                Err(_) => {
                    self.stats.influx_errors = bump(self.stats.influx_errors);
                },
            }
        }
    }

    /// Route one inbound frame from a known inverter: drop it when the
    /// embedded inverter serial is not the configured one, and otherwise
    /// dispatch on the device function. Telemetry goes to MQTT and the
    /// sinks; hold reads and write confirmations update the cache and are
    /// published.
    pub fn process_inverter_packet(&mut self, packet: &Packet, inverter: &config::Inverter)
        requires
            old(self).wf(),
            packet.wf(),
            inverter.datalog.spec_is_ascii(),
        ensures
            final(self).wf(),
            final(self).config == old(self).config,
            final(self).channels.to_inverter.log() == old(self).channels.to_inverter.log(),
            final(self).channels.from_inverter.log() == old(self).channels.from_inverter.log(),
            receivers_preserved(old(self).channels, final(self).channels),
            spec_inbound_route_effects(
                old(self).channels,
                final(self).channels,
                old(self).stats.serial_mismatches,
                final(self).stats.serial_mismatches,
                old(self).config.spec_config().mqtt.enabled,
                *packet,
                *inverter,
            ),
            (match packet@ {
                PacketModel::TranslatedData { inverter: embedded, .. } => embedded
                    != inverter.serial@ ==> final(self).stats == (PacketStats {
                    serial_mismatches: spec_bump(old(self).stats.serial_mismatches),
                    ..old(self).stats
                }),
                _ => final(self).stats == old(self).stats,
            }),
            final(self).stats.packets_received == old(self).stats.packets_received,
            final(self).stats.packets_sent == old(self).stats.packets_sent,
            final(self).stats.heartbeat_packets_received == old(
                self,
            ).stats.heartbeat_packets_received,
            final(self).stats.translated_data_packets_received == old(
                self,
            ).stats.translated_data_packets_received,
            final(self).stats.read_param_packets_received == old(
                self,
            ).stats.read_param_packets_received,
            final(self).stats.write_param_packets_received == old(
                self,
            ).stats.write_param_packets_received,
            final(self).stats.spec_last_messages() == old(self).stats.spec_last_messages(),
            final(self).stats.spec_disconnections() == old(self).stats.spec_disconnections(),
    {
        let td = match packet {
            Packet::TranslatedData(td) => td,
            _ => {
                return ;
            },
        };
        if !td.inverter().eq_serial(&inverter.serial) {
            self.stats.increment_serial_mismatches();
            return ;
        }
        let mqtt_enabled = self.config.mqtt().enabled();
        match td.device_function {
            DeviceFunction::ReadHold => {
                let pairs = td.pairs();
                self.send_cache_pairs(&pairs);
                if mqtt_enabled {
                    let datalog = inverter.datalog;
                    self.publish_hold_pairs(&datalog, &pairs);
                }
            },
            DeviceFunction::ReadInput => {
                let pairs = td.pairs();
                self.forward_inputs(false, inverter.datalog, crate::packet::copy_pairs(&pairs));
                self.forward_inputs(true, inverter.datalog, crate::packet::copy_pairs(&pairs));
                if td.register() == 0 && mqtt_enabled {
                    proof {
                        reveal_strlit("/inputs/all");
                        reveal_strlit("/inputs/1");
                    }
                    let topic = if pairs.len() == 40 {
                        datalog_topic(&inverter.datalog, "/inputs/all")
                    } else {
                        datalog_topic(&inverter.datalog, "/inputs/1")
                    };
                    let payload = inputs_json(&pairs);
                    let _ = self.publish_message(topic, payload, false);
                }
            },
            DeviceFunction::WriteSingle => {
                // The echoed value is cached as the register's last observed
                // value even when it differs from what a pending write asked
                // for: the echo is what the inverter reports it now holds.
                // The completion path itself caches nothing on a mismatch.
                let register = td.register();
                let value = td.value();
                let mut single: Vec<(u16, u16)> = Vec::new();
                single.push((register, value));
                proof {
                    assert(single@ =~= seq![(register, model_value(packet@))]);
                }
                self.send_cache_pairs(&single);
                if mqtt_enabled {
                    proof {
                        reveal_strlit("/write/status");
                    }
                    let datalog = inverter.datalog;
                    self.publish_hold_pairs(&datalog, &single);
                    let topic = datalog_topic(&inverter.datalog, "/write/status");
                    let payload = write_ok_text(register, value);
                    let ghost mid2 = self.channels.to_mqtt.log();
                    let _ = self.publish_message(topic, payload, false);
                    proof {
                        let before = old(self).channels.to_mqtt.log();
                        let after = self.channels.to_mqtt.log();
                        if old(self).config.spec_config().mqtt.enabled && old(
                            self,
                        ).channels.to_mqtt.spec_receivers() > 0 {
                            assert(after.take(before.len() as int) =~= before);
                            assert(after[before.len() as int] == mid2[before.len() as int]);
                        }
                    }
                }
            },
            DeviceFunction::WriteMulti => {
                let pairs = td.pairs();
                self.send_cache_pairs(&pairs);
                if mqtt_enabled {
                    proof {
                        reveal_strlit("/write_multi/status");
                        reveal_strlit("OK: ");
                    }
                    let topic = datalog_topic(&inverter.datalog, "/write_multi/status");
                    let text = pairs_text(&pairs);
                    let payload = String::from_str("OK: ").concat(text.as_str());
                    let _ = self.publish_message(topic, payload, false);
                }
            },
        }
    }
}

/// The ReadInput page a `read_inputs/{n}` command covers.
pub open spec fn spec_inputs_page(n: u16) -> Option<u16> {
    if n == 1 {
        Some(0u16)
    } else if n == 2 {
        Some(40u16)
    } else if n == 3 {
        Some(80u16)
    } else if n == 4 {
        Some(120u16)
    } else {
        None
    }
}

/// The request frame a command sends first, or nothing when the command is
/// refused outright: a write on a read-only inverter, a slot number out of
/// range, or an out-of-range time.
pub open spec fn spec_request_model(c: Command) -> Option<PacketModel> {
    match c {
        Command::ReadInputs(inv, n) => match spec_inputs_page(n) {
            Some(page) => Some(
                (ReadInputs { inverter: inv, register: page, count: 40 }).spec_packet(),
            ),
            None => None,
        },
        Command::ReadInput(inv, register, count) => Some(
            (ReadInputs { inverter: inv, register, count }).spec_packet(),
        ),
        Command::ReadHold(inv, register, count) => Some(
            (ReadHold { inverter: inv, register, count }).spec_packet(),
        ),
        Command::ReadParam(inv, register) => Some(
            (ReadParam { inverter: inv, register }).spec_packet(),
        ),
        Command::ReadAcChargeTime(inv, n) => spec_time_read_model(inv, Action::AcCharge(n)),
        Command::ReadAcFirstTime(inv, n) => spec_time_read_model(inv, Action::AcFirst(n)),
        Command::ReadChargePriorityTime(inv, n) => spec_time_read_model(
            inv,
            Action::ChargePriority(n),
        ),
        Command::ReadForcedDischargeTime(inv, n) => spec_time_read_model(
            inv,
            Action::ForcedDischarge(n),
        ),
        Command::SetHold(inv, register, value) => spec_set_hold_model(inv, register, value),
        Command::WriteParam(inv, register, value) => if inv.spec_read_only() {
            None
        } else {
            Some((WriteParam { inverter: inv, register, value }).spec_packet())
        },
        Command::SetAcChargeTime(inv, n, q) => spec_time_write_model(inv, Action::AcCharge(n), q),
        Command::SetAcFirstTime(inv, n, q) => spec_time_write_model(inv, Action::AcFirst(n), q),
        Command::SetChargePriorityTime(inv, n, q) => spec_time_write_model(
            inv,
            Action::ChargePriority(n),
            q,
        ),
        Command::SetForcedDischargeTime(inv, n, q) => spec_time_write_model(
            inv,
            Action::ForcedDischarge(n),
            q,
        ),
        Command::AcCharge(inv, _) => Some(
            (ReadHold { inverter: inv, register: 21, count: 1 }).spec_packet(),
        ),
        Command::ChargePriority(inv, _) => Some(
            (ReadHold { inverter: inv, register: 21, count: 1 }).spec_packet(),
        ),
        Command::ForcedDischarge(inv, _) => Some(
            (ReadHold { inverter: inv, register: 21, count: 1 }).spec_packet(),
        ),
        Command::ChargeRate(inv, pct) => spec_set_hold_model(inv, 64, pct),
        Command::DischargeRate(inv, pct) => spec_set_hold_model(inv, 65, pct),
        Command::AcChargeRate(inv, pct) => spec_set_hold_model(inv, 66, pct),
        Command::AcChargeSocLimit(inv, pct) => spec_set_hold_model(inv, 67, pct),
        Command::DischargeCutoffSocLimit(inv, pct) => spec_set_hold_model(inv, 105, pct),
    }
}

/// The WriteSingle frame of a holding-register write, unless refused.
pub open spec fn spec_set_hold_model(
    inv: config::Inverter,
    register: u16,
    value: u16,
) -> Option<PacketModel> {
    if inv.spec_read_only() {
        None
    } else {
        Some((SetHold { inverter: inv, register, value }).spec_packet())
    }
}

/// The two-register read of a time slot, unless the slot is out of range.
pub open spec fn spec_time_read_model(inv: config::Inverter, action: Action) -> Option<
    PacketModel,
> {
    match commands::time_register_ops::spec_action_register(action) {
        Some(register) => Some((ReadHold { inverter: inv, register, count: 2 }).spec_packet()),
        None => None,
    }
}

/// The WriteMulti frame of a time-slot write, unless refused.
pub open spec fn spec_time_write_model(
    inv: config::Inverter,
    action: Action,
    q: (u8, u8, u8, u8),
) -> Option<PacketModel> {
    if inv.spec_read_only() {
        None
    } else {
        match commands::time_register_ops::spec_action_register(action) {
            Some(register) => if commands::time_register_ops::spec_time_in_range(
                q.0,
                q.1,
                q.2,
                q.3,
            ) {
                Some(
                    (SetTimeRegister { inverter: inv, action, values: q }).spec_packet(register),
                )
            } else {
                None
            },
            None => None,
        }
    }
}

/// The inverters a routable command topic addresses: every enabled one for
/// the `all` target, else the enabled ones with the target datalog.
pub open spec fn spec_routed_inverters(c: config::Config, topic: Seq<char>) -> Seq<
    config::Inverter,
> {
    let enabled = c.inverters@.filter(|inv: config::Inverter| inv.enabled);
    let segs = mqtt::spec_segments(topic);
    if chars_of(segs[2]) == "all"@ {
        enabled
    } else {
        enabled.filter(|inv: config::Inverter| inv.datalog@ == segs[2])
    }
}

/// The frame one inverter's share of a message dispatches, or nothing when
/// the command is malformed or refused.
pub open spec fn spec_dispatch_model(
    inv: config::Inverter,
    topic: Seq<char>,
    payload: Seq<char>,
) -> Option<PacketModel> {
    match mqtt::spec_command_of(inv, mqtt::spec_rest_chars(topic), payload) {
        Ok(c) => spec_request_model(c),
        Err(_) => None,
    }
}

/// The request frames a message puts on the outbound queue, in inverter
/// order.
pub open spec fn spec_message_models(
    invs: Seq<config::Inverter>,
    topic: Seq<char>,
    payload: Seq<char>,
) -> Seq<PacketModel>
    decreases invs.len(),
{
    if invs.len() == 0 {
        Seq::empty()
    } else {
        let rest = spec_message_models(invs.drop_last(), topic, payload);
        match spec_dispatch_model(invs.last(), topic, payload) {
            Some(m) => rest.push(m),
            None => rest,
        }
    }
}

/// How many of a message's addressed inverters end in a `FAIL` publish.
pub open spec fn spec_message_fails(
    invs: Seq<config::Inverter>,
    topic: Seq<char>,
    payload: Seq<char>,
) -> nat
    decreases invs.len(),
{
    if invs.len() == 0 {
        0
    } else {
        spec_message_fails(invs.drop_last(), topic, payload) + (
        if spec_dispatch_model(invs.last(), topic, payload) is None {
            1nat
        } else {
            0nat
        })
    }
}

/// The time-register slot read at position `j` of the on-connect plan:
/// slots one to three, each in group order.
pub open spec fn spec_connect_action(j: int) -> Action {
    let num = (1 + j / 4) as u16;
    if j % 4 == 0 {
        Action::AcCharge(num)
    } else if j % 4 == 1 {
        Action::ChargePriority(num)
    } else if j % 4 == 2 {
        Action::ForcedDischarge(num)
    } else {
        Action::AcFirst(num)
    }
}

/// Frame `k` of the on-connect plan: six forty-register pages, then the
/// twelve two-register time-slot reads.
pub open spec fn spec_connect_frame(inv: config::Inverter, k: int) -> PacketModel {
    if 0 <= k < 6 {
        (ReadHold { inverter: inv, register: (40 * k) as u16, count: 40 }).spec_packet()
    } else {
        let action = spec_connect_action(k - 6);
        (ReadHold {
            inverter: inv,
            register: commands::time_register_ops::spec_action_register(action).unwrap(),
            count: 2,
        }).spec_packet()
    }
}

/// What one dispatched command still waits for.
pub enum Pending {
    /// A reply matched by fingerprint; nothing further to check.
    AwaitReply { request: Packet, waiter: inverter::WaitForReply, result_topic: String },
    /// A write reply whose echoed value must equal the written one.
    AwaitWriteEcho {
        set: SetHold,
        request: Packet,
        waiter: inverter::WaitForReply,
        result_topic: String,
    },
    /// The read half of a bit read-modify-write; the write follows.
    AwaitReadThenWrite {
        update: UpdateHold,
        request: Packet,
        waiter: inverter::WaitForReply,
        result_topic: String,
    },
}

impl Pending {
    /// The request frame whose reply is awaited.
    pub open spec fn spec_request(&self) -> &Packet {
        match self {
            Pending::AwaitReply { request, .. } => request,
            Pending::AwaitWriteEcho { request, .. } => request,
            Pending::AwaitReadThenWrite { request, .. } => request,
        }
    }

    /// The subscription that resolves the reply.
    pub open spec fn spec_waiter(&self) -> &inverter::WaitForReply {
        match self {
            Pending::AwaitReply { waiter, .. } => waiter,
            Pending::AwaitWriteEcho { waiter, .. } => waiter,
            Pending::AwaitReadThenWrite { waiter, .. } => waiter,
        }
    }

    /// The topic `FAIL` goes to when the command cannot complete.
    pub open spec fn spec_result_topic(&self) -> Seq<char> {
        match self {
            Pending::AwaitReply { result_topic, .. } => result_topic@,
            Pending::AwaitWriteEcho { result_topic, .. } => result_topic@,
            Pending::AwaitReadThenWrite { result_topic, .. } => result_topic@,
        }
    }

    /// How the pending state follows from the dispatched command.
    pub open spec fn matches_command(&self, c: Command) -> bool {
        match c {
            Command::SetHold(inv, register, value) => (self matches Pending::AwaitWriteEcho {
                set,
                ..
            } && set.register == register && set.value == value && set.inverter == inv),
            Command::ChargeRate(inv, pct) => (self matches Pending::AwaitWriteEcho { set, .. }
                && set.register == 64 && set.value == pct),
            Command::DischargeRate(inv, pct) => (self matches Pending::AwaitWriteEcho { set, .. }
                && set.register == 65 && set.value == pct),
            Command::AcChargeRate(inv, pct) => (self matches Pending::AwaitWriteEcho { set, .. }
                && set.register == 66 && set.value == pct),
            Command::AcChargeSocLimit(inv, pct) => (self matches Pending::AwaitWriteEcho {
                set,
                ..
            } && set.register == 67 && set.value == pct),
            Command::DischargeCutoffSocLimit(inv, pct) => (self matches Pending::AwaitWriteEcho {
                set,
                ..
            } && set.register == 105 && set.value == pct),
            Command::AcCharge(inv, enable) => (self matches Pending::AwaitReadThenWrite {
                update,
                ..
            } && update.register == 21 && update.bit == RegisterBit::AcChargeEnable
                && update.enable == enable && update.inverter == inv),
            Command::ChargePriority(inv, enable) => (self matches Pending::AwaitReadThenWrite {
                update,
                ..
            } && update.register == 21 && update.bit == RegisterBit::ChargePriorityEnable
                && update.enable == enable && update.inverter == inv),
            Command::ForcedDischarge(inv, enable) => (self matches Pending::AwaitReadThenWrite {
                update,
                ..
            } && update.register == 21 && update.bit == RegisterBit::ForcedDischargeEnable
                && update.enable == enable && update.inverter == inv),
            _ => self is AwaitReply,
        }
    }
}

impl Coordinator {
    /// Dispatch one parsed command: build its request frame, subscribe for
    /// the reply, and queue the frame to the session writer. A refused
    /// command emits no frame at all.
    pub fn process_command(&mut self, command: Command, result_topic: String) -> (r: Result<
        Pending,
        Error,
    >)
        requires
            old(self).wf(),
        ensures
            final(self).wf(),
            final(self).config == old(self).config,
            commands::dispatch_frame(old(self).channels, final(self).channels),
            match r {
                Ok(pending) => {
                    &&& old(self).channels.to_inverter.spec_receivers() > 0
                    &&& spec_request_model(command) matches Some(m) && pending.spec_request()@
                        == m && sent_one(
                        old(self).channels.to_inverter.log(),
                        final(self).channels.to_inverter.log(),
                        m,
                    )
                    &&& pending.spec_waiter().spec_cursor() == old(
                        self,
                    ).channels.from_inverter.log().len()
                    &&& pending.spec_result_topic() == result_topic@
                    &&& pending.matches_command(command)
                },
                Err(e) => {
                    &&& final(self).channels.to_inverter.log() == old(
                        self,
                    ).channels.to_inverter.log()
                    &&& (e == Error::ChannelClosed ==> spec_request_model(command) is Some && old(
                        self,
                    ).channels.to_inverter.spec_receivers() == 0)
                    &&& (e != Error::ChannelClosed ==> spec_request_model(command) is None && (e
                        == Error::ReadOnly || e == Error::BadCommand || e == Error::BadTime))
                },
            },
    {
        match command {
            Command::ReadInputs(inv, n) => {
                let page: u16 = if n == 1 {
                    0
                } else if n == 2 {
                    40
                } else if n == 3 {
                    80
                } else if n == 4 {
                    120
                } else {
                    return Err(Error::BadCommand);
                };
                let read = ReadInputs::new(inv, page, 40);
                match read.request(&mut self.channels) {
                    Ok((request, waiter)) => {
                        self.increment_packets_sent(&request);
                        Ok(Pending::AwaitReply { request, waiter, result_topic })
                    },
                    Err(e) => Err(e),
                }
            },
            Command::ReadInput(inv, register, count) => {
                let read = ReadInputs::new(inv, register, count);
                match read.request(&mut self.channels) {
                    Ok((request, waiter)) => {
                        self.increment_packets_sent(&request);
                        Ok(Pending::AwaitReply { request, waiter, result_topic })
                    },
                    Err(e) => Err(e),
                }
            },
            Command::ReadHold(inv, register, count) => {
                let read = ReadHold::new(inv, register, count);
                match read.request(&mut self.channels) {
                    Ok((request, waiter)) => {
                        self.increment_packets_sent(&request);
                        Ok(Pending::AwaitReply { request, waiter, result_topic })
                    },
                    Err(e) => Err(e),
                }
            },
            Command::ReadParam(inv, register) => {
                let read = ReadParam::new(inv, register);
                match read.request(&mut self.channels) {
                    Ok((request, waiter)) => {
                        self.increment_packets_sent(&request);
                        Ok(Pending::AwaitReply { request, waiter, result_topic })
                    },
                    Err(e) => Err(e),
                }
            },
            Command::ReadAcChargeTime(inv, n) => self.read_time_register(
                inv,
                Action::AcCharge(n),
                result_topic,
            ),
            Command::ReadAcFirstTime(inv, n) => self.read_time_register(
                inv,
                Action::AcFirst(n),
                result_topic,
            ),
            Command::ReadChargePriorityTime(inv, n) => self.read_time_register(
                inv,
                Action::ChargePriority(n),
                result_topic,
            ),
            Command::ReadForcedDischargeTime(inv, n) => self.read_time_register(
                inv,
                Action::ForcedDischarge(n),
                result_topic,
            ),
            Command::SetHold(inv, register, value) => self.set_hold(
                inv,
                register,
                value,
                result_topic,
            ),
            Command::WriteParam(inv, register, value) => {
                let write = WriteParam::new(inv, register, value);
                match write.request(&mut self.channels) {
                    Ok((request, waiter)) => {
                        self.increment_packets_sent(&request);
                        Ok(Pending::AwaitReply { request, waiter, result_topic })
                    },
                    Err(e) => Err(e),
                }
            },
            Command::SetAcChargeTime(inv, n, q) => self.set_time_register(
                inv,
                Action::AcCharge(n),
                q,
                result_topic,
            ),
            Command::SetAcFirstTime(inv, n, q) => self.set_time_register(
                inv,
                Action::AcFirst(n),
                q,
                result_topic,
            ),
            Command::SetChargePriorityTime(inv, n, q) => self.set_time_register(
                inv,
                Action::ChargePriority(n),
                q,
                result_topic,
            ),
            Command::SetForcedDischargeTime(inv, n, q) => self.set_time_register(
                inv,
                Action::ForcedDischarge(n),
                q,
                result_topic,
            ),
            Command::AcCharge(inv, enable) => self.update_hold(
                inv,
                RegisterBit::AcChargeEnable,
                enable,
                result_topic,
            ),
            Command::ChargePriority(inv, enable) => self.update_hold(
                inv,
                RegisterBit::ChargePriorityEnable,
                enable,
                result_topic,
            ),
            Command::ForcedDischarge(inv, enable) => self.update_hold(
                inv,
                RegisterBit::ForcedDischargeEnable,
                enable,
                result_topic,
            ),
            Command::ChargeRate(inv, pct) => self.set_hold(inv, 64, pct, result_topic),
            Command::DischargeRate(inv, pct) => self.set_hold(inv, 65, pct, result_topic),
            Command::AcChargeRate(inv, pct) => self.set_hold(inv, 66, pct, result_topic),
            Command::AcChargeSocLimit(inv, pct) => self.set_hold(inv, 67, pct, result_topic),
            Command::DischargeCutoffSocLimit(inv, pct) => self.set_hold(
                inv,
                105,
                pct,
                result_topic,
            ),
        }
    }

    /// Dispatch a holding-register write.
    fn set_hold(
        &mut self,
        inv: config::Inverter,
        register: u16,
        value: u16,
        result_topic: String,
    ) -> (r: Result<Pending, Error>)
        requires
            old(self).wf(),
        ensures
            final(self).wf(),
            final(self).config == old(self).config,
            commands::dispatch_frame(old(self).channels, final(self).channels),
            match r {
                Ok(pending) => {
                    &&& old(self).channels.to_inverter.spec_receivers() > 0
                    &&& spec_set_hold_model(inv, register, value) matches Some(m)
                        && pending.spec_request()@ == m && sent_one(
                        old(self).channels.to_inverter.log(),
                        final(self).channels.to_inverter.log(),
                        m,
                    )
                    &&& pending.spec_waiter().spec_cursor() == old(
                        self,
                    ).channels.from_inverter.log().len()
                    &&& pending.spec_result_topic() == result_topic@
                    &&& (pending matches Pending::AwaitWriteEcho { set, .. } && set.register
                        == register && set.value == value && set.inverter == inv)
                },
                Err(e) => {
                    &&& final(self).channels.to_inverter.log() == old(
                        self,
                    ).channels.to_inverter.log()
                    &&& (e == Error::ChannelClosed ==> spec_set_hold_model(
                        inv,
                        register,
                        value,
                    ) is Some && old(self).channels.to_inverter.spec_receivers() == 0)
                    &&& (e != Error::ChannelClosed ==> e == Error::ReadOnly && spec_set_hold_model(
                        inv,
                        register,
                        value,
                    ) is None)
                },
            },
    {
        let set = SetHold::new(inv, register, value);
        match set.request(&mut self.channels) {
            Ok((request, waiter)) => {
                proof {
                    assert(!inv.spec_read_only());
                    assert(spec_set_hold_model(inv, register, value) is Some);
                    assert(set == (SetHold { inverter: inv, register, value }));
                    assert(request@ == spec_set_hold_model(inv, register, value).unwrap());
                }
                self.increment_packets_sent(&request);
                Ok(Pending::AwaitWriteEcho { set, request, waiter, result_topic })
            },
            Err(e) => Err(e),
        }
    }

    /// Dispatch a time-slot read.
    fn read_time_register(
        &mut self,
        inv: config::Inverter,
        action: Action,
        result_topic: String,
    ) -> (r: Result<Pending, Error>)
        requires
            old(self).wf(),
        ensures
            final(self).wf(),
            final(self).config == old(self).config,
            commands::dispatch_frame(old(self).channels, final(self).channels),
            match r {
                Ok(pending) => {
                    &&& old(self).channels.to_inverter.spec_receivers() > 0
                    &&& spec_time_read_model(inv, action) matches Some(m)
                        && pending.spec_request()@ == m && sent_one(
                        old(self).channels.to_inverter.log(),
                        final(self).channels.to_inverter.log(),
                        m,
                    )
                    &&& pending.spec_waiter().spec_cursor() == old(
                        self,
                    ).channels.from_inverter.log().len()
                    &&& pending.spec_result_topic() == result_topic@
                    &&& pending is AwaitReply
                },
                Err(e) => {
                    &&& final(self).channels.to_inverter.log() == old(
                        self,
                    ).channels.to_inverter.log()
                    &&& (e == Error::ChannelClosed ==> spec_time_read_model(inv, action) is Some
                        && old(self).channels.to_inverter.spec_receivers() == 0)
                    &&& (e != Error::ChannelClosed ==> e == Error::BadCommand
                        && spec_time_read_model(inv, action) is None)
                },
            },
    {
        let read = ReadTimeRegister::new(inv, action);
        match read.request(&mut self.channels) {
            Ok((request, waiter)) => {
                self.increment_packets_sent(&request);
                Ok(Pending::AwaitReply { request, waiter, result_topic })
            },
            Err(e) => Err(e),
        }
    }

    /// Dispatch a time-slot write.
    #[verifier::rlimit(60)]
    fn set_time_register(
        &mut self,
        inv: config::Inverter,
        action: Action,
        q: (u8, u8, u8, u8),
        result_topic: String,
    ) -> (r: Result<Pending, Error>)
        requires
            old(self).wf(),
        ensures
            final(self).wf(),
            final(self).config == old(self).config,
            commands::dispatch_frame(old(self).channels, final(self).channels),
            match r {
                Ok(pending) => {
                    &&& old(self).channels.to_inverter.spec_receivers() > 0
                    &&& spec_time_write_model(inv, action, q) is Some
                    &&& pending.spec_request()@ == spec_time_write_model(inv, action, q).unwrap()
                    &&& sent_one(
                        old(self).channels.to_inverter.log(),
                        final(self).channels.to_inverter.log(),
                        spec_time_write_model(inv, action, q).unwrap(),
                    )
                    &&& pending.spec_waiter().spec_cursor() == old(
                        self,
                    ).channels.from_inverter.log().len()
                    &&& pending.spec_result_topic() == result_topic@
                    &&& pending is AwaitReply
                },
                Err(e) => {
                    &&& final(self).channels.to_inverter.log() == old(
                        self,
                    ).channels.to_inverter.log()
                    &&& (e == Error::ChannelClosed ==> spec_time_write_model(inv, action, q) is
                        Some && old(self).channels.to_inverter.spec_receivers() == 0)
                    &&& (e != Error::ChannelClosed ==> spec_time_write_model(inv, action, q) is None
                        && (e == Error::ReadOnly || e == Error::BadCommand || e == Error::BadTime))
                },
            },
    {
        let write = SetTimeRegister::new(inv, action, q);
        match write.request(&mut self.channels) {
            Ok((request, waiter)) => {
                self.increment_packets_sent(&request);
                Ok(Pending::AwaitReply { request, waiter, result_topic })
            },
            Err(e) => {
                proof {
                    if e == Error::ChannelClosed {
                        assert(!inv.spec_read_only());
                        assert(commands::time_register_ops::spec_action_register(action) is Some);
                        assert(commands::time_register_ops::spec_time_in_range(q.0, q.1, q.2, q.3));
                        assert(spec_time_write_model(inv, action, q) is Some);
                    }
                }
                Err(e)
            },
        }
    }

    /// Dispatch a bit read-modify-write: its first frame reads the current
    /// register value.
    fn update_hold(
        &mut self,
        inv: config::Inverter,
        bit: RegisterBit,
        enable: bool,
        result_topic: String,
    ) -> (r: Result<Pending, Error>)
        requires
            old(self).wf(),
        ensures
            final(self).wf(),
            final(self).config == old(self).config,
            commands::dispatch_frame(old(self).channels, final(self).channels),
            match r {
                Ok(pending) => {
                    &&& old(self).channels.to_inverter.spec_receivers() > 0
                    &&& pending.spec_request()@ == (ReadHold {
                        inverter: inv,
                        register: 21,
                        count: 1,
                    }).spec_packet() && sent_one(
                        old(self).channels.to_inverter.log(),
                        final(self).channels.to_inverter.log(),
                        pending.spec_request()@,
                    )
                    &&& pending.spec_waiter().spec_cursor() == old(
                        self,
                    ).channels.from_inverter.log().len()
                    &&& pending.spec_result_topic() == result_topic@
                    &&& (pending matches Pending::AwaitReadThenWrite { update, .. }
                        && update.register == 21 && update.bit == bit && update.enable == enable
                        && update.inverter == inv)
                },
                Err(e) => e == Error::ChannelClosed && old(
                    self,
                ).channels.to_inverter.spec_receivers() == 0 && final(
                    self).channels.to_inverter.log() == old(self).channels.to_inverter.log(),
            },
    {
        let register = Register::Register21.address();
        let update = UpdateHold::new(inv, register, bit, enable);
        match update.read_request(&mut self.channels) {
            Ok((request, waiter)) => {
                self.increment_packets_sent(&request);
                Ok(Pending::AwaitReadThenWrite { update, request, waiter, result_topic })
            },
            Err(e) => Err(e),
        }
    }
}

/// Some inbound entry at or after `from` answers the request.
pub open spec fn reply_found(log: Seq<inverter::ChannelData>, from: int, req: PacketModel) -> bool {
    exists|i: int| #![auto] from <= i < log.len() && inverter::matches_at(log, i, req)
}

/// The write half of a bit read-modify-write carries the first matching
/// read reply's value with the bit applied.
pub open spec fn rmw_write_value_ok(
    log: Seq<inverter::ChannelData>,
    from: int,
    req: PacketModel,
    set_value: u16,
    mask: u16,
    enable: bool,
) -> bool {
    exists|i: int|
        #![auto]
        from <= i < log.len() && inverter::matches_at(log, i, req) && set_value
            == commands::update_hold::spec_update_value(
            model_value(inverter::packet_model_at(log, i)),
            mask,
            enable,
        )
}

impl Coordinator {
    /// Publish `FAIL` on a command's result topic; absorbed when nobody
    /// consumes MQTT messages.
    fn publish_fail(&mut self, topic: String)
        requires
            old(self).wf(),
        ensures
            final(self).wf(),
            final(self).config == old(self).config,
            final(self).channels.to_inverter.log() == old(self).channels.to_inverter.log(),
            final(self).channels.from_inverter.log() == old(self).channels.from_inverter.log(),
            final(self).channels.to_register_cache.log() == old(
                self,
            ).channels.to_register_cache.log(),
            final(self).channels.to_influx.log() == old(self).channels.to_influx.log(),
            final(self).channels.to_database.log() == old(self).channels.to_database.log(),
            receivers_preserved(old(self).channels, final(self).channels),
            if old(self).channels.to_mqtt.spec_receivers() > 0 {
                published_one(
                    old(self).channels.to_mqtt.log(),
                    final(self).channels.to_mqtt.log(),
                    topic@,
                    "FAIL"@,
                    false,
                )
            } else {
                final(self).channels.to_mqtt.log() == old(self).channels.to_mqtt.log()
            },
    {
        let payload = String::from_str("FAIL");
        let _ = self.publish_message(topic, payload, false);
    }

    /// Resolve one outstanding command against the inbound log: deliver the
    /// first matching reply, check a write echo against the written value,
    /// or issue the write half of a bit read-modify-write. A command without
    /// a matching reply has timed out; the failure is published as `FAIL` on
    /// the command's result topic.
    pub fn complete_command(&mut self, pending: Pending) -> (r: Result<Option<Pending>, Error>)
        requires
            old(self).wf(),
        ensures
            final(self).wf(),
            final(self).config == old(self).config,
            final(self).channels.from_inverter.log() == old(self).channels.from_inverter.log(),
            final(self).channels.to_register_cache.log() == old(
                self,
            ).channels.to_register_cache.log(),
            final(self).channels.to_influx.log() == old(self).channels.to_influx.log(),
            final(self).channels.to_database.log() == old(self).channels.to_database.log(),
            match r {
                Err(e) => {
                    &&& (if old(self).channels.to_mqtt.spec_receivers() > 0 {
                        published_one(
                            old(self).channels.to_mqtt.log(),
                            final(self).channels.to_mqtt.log(),
                            pending.spec_result_topic(),
                            "FAIL"@,
                            false,
                        )
                    } else {
                        final(self).channels.to_mqtt.log() == old(self).channels.to_mqtt.log()
                    })
                    &&& (e == Error::Timeout <==> (forall|i: int|
                        pending.spec_waiter().spec_cursor() <= i ==> !inverter::matches_at(
                            old(self).channels.from_inverter.log(),
                            i,
                            pending.spec_request()@,
                        )))
                    &&& (e != Error::ChannelClosed ==> final(self).channels.to_inverter.log()
                        == old(self).channels.to_inverter.log())
                    &&& (e matches Error::WriteMismatch { register, got, wanted } ==> (pending
                        matches Pending::AwaitWriteEcho { set, .. } && set.register == register
                        && set.value == wanted && got != wanted))
                    &&& (e == Error::ReadOnly ==> (pending matches Pending::AwaitReadThenWrite {
                        update,
                        ..
                    } && update.inverter.spec_read_only()))
                },
                Ok(next) => {
                    &&& final(self).channels.to_mqtt.log() == old(self).channels.to_mqtt.log()
                    &&& reply_found(
                        old(self).channels.from_inverter.log(),
                        pending.spec_waiter().spec_cursor(),
                        pending.spec_request()@,
                    )
                    &&& match next {
                        None => (pending is AwaitReply || pending is AwaitWriteEcho) && final(self).channels.to_inverter.log() == old(self).channels.to_inverter.log(),
                        Some(p2) => {
                            &&& pending matches Pending::AwaitReadThenWrite { update, .. }
                                && (p2 matches Pending::AwaitWriteEcho { set, .. } && set.register
                                == update.register && set.inverter == update.inverter
                                && rmw_write_value_ok(
                                old(self).channels.from_inverter.log(),
                                pending.spec_waiter().spec_cursor(),
                                pending.spec_request()@,
                                set.value,
                                crate::command::spec_bit_mask(update.bit),
                                update.enable,
                            ) && sent_one(
                                old(self).channels.to_inverter.log(),
                                final(self).channels.to_inverter.log(),
                                set.spec_packet(),
                            ))
                            &&& p2.spec_result_topic() == pending.spec_result_topic()
                        },
                    }
                },
            },
    {
        match pending {
            Pending::AwaitReply { request, waiter, result_topic } => {
                match waiter.wait_for_reply(&self.channels.from_inverter, &request) {
                    Ok(_reply) => Ok(None),
                    Err(e) => {
                        self.publish_fail(result_topic);
                        Err(e)
                    },
                }
            },
            Pending::AwaitWriteEcho { set, request, waiter, result_topic } => {
                match waiter.wait_for_reply(&self.channels.from_inverter, &request) {
                    Ok(reply) => {
                        match set.check_reply(&reply) {
                            Ok(_) => Ok(None),
                            Err(e) => {
                                self.publish_fail(result_topic);
                                Err(e)
                            },
                        }
                    },
                    Err(e) => {
                        self.publish_fail(result_topic);
                        Err(e)
                    },
                }
            },
            Pending::AwaitReadThenWrite { update, request, waiter, result_topic } => {
                match waiter.wait_for_reply(&self.channels.from_inverter, &request) {
                    Ok(reply) => {
                        let current = reply.value();
                        match update.write_request(current, &mut self.channels) {
                            Ok((set, request2, waiter2)) => {
                                self.increment_packets_sent(&request2);
                                Ok(
                                    Some(
                                        Pending::AwaitWriteEcho {
                                            set,
                                            request: request2,
                                            waiter: waiter2,
                                            result_topic,
                                        },
                                    ),
                                )
                            },
                            Err(e) => {
                                self.publish_fail(result_topic);
                                Err(e)
                            },
                        }
                    },
                    Err(e) => {
                        self.publish_fail(result_topic);
                        Err(e)
                    },
                }
            },
        }
    }

    /// Whether a pending command's reply has arrived on the inbound
    /// broadcast.
    pub fn reply_ready(&self, pending: &Pending) -> (r: bool)
        ensures
            r == reply_found(
                self.channels.from_inverter.log(),
                pending.spec_waiter().spec_cursor(),
                pending.spec_request()@,
            ),
    {
        let (request, waiter) = match pending {
            Pending::AwaitReply { request, waiter, .. } => (request, waiter),
            Pending::AwaitWriteEcho { request, waiter, .. } => (request, waiter),
            Pending::AwaitReadThenWrite { request, waiter, .. } => (request, waiter),
        };
        match waiter.wait_for_reply(&self.channels.from_inverter, request) {
            Ok(_) => true,
            Err(_) => false,
        }
    }

    /// Take one frame off the inbound broadcast: count it, remember it as
    /// its datalog's last message, and when an enabled inverter is
    /// configured for that datalog, route it as `process_inverter_packet`
    /// does. A frame whose datalog no enabled inverter carries is dropped.
    pub fn handle_inbound(&mut self, packet: &Packet) -> (routed: bool)
        requires
            old(self).wf(),
            packet.wf(),
        ensures
            final(self).wf(),
            final(self).config == old(self).config,
            final(self).channels.to_inverter.log() == old(self).channels.to_inverter.log(),
            final(self).channels.from_inverter.log() == old(self).channels.from_inverter.log(),
            receivers_preserved(old(self).channels, final(self).channels),
            final(self).stats.packets_received == spec_bump(old(self).stats.packets_received),
            final(self).stats.packets_sent == old(self).stats.packets_sent,
            (match packet@ {
                PacketModel::Heartbeat { .. } => final(self).stats.heartbeat_packets_received
                    == spec_bump(old(self).stats.heartbeat_packets_received),
                PacketModel::TranslatedData { .. } => final(self).stats.translated_data_packets_received == spec_bump(
                    old(self).stats.translated_data_packets_received,
                ),
                PacketModel::ReadParam { .. } => final(self).stats.read_param_packets_received
                    == spec_bump(old(self).stats.read_param_packets_received),
                PacketModel::WriteParam { .. } => final(self).stats.write_param_packets_received
                    == spec_bump(old(self).stats.write_param_packets_received),
            }),
            (packet@ is TranslatedData ==> final(self).stats.spec_last_messages().dom() == old(self).stats.spec_last_messages().dom().insert(packet.spec_datalog_serial())),
            (!(packet@ is TranslatedData) ==> final(self).stats.spec_last_messages() == old(self).stats.spec_last_messages()),
            ({
                let found = spec_first_enabled_with_datalog(
                    old(self).config.spec_config().inverters@,
                    model_datalog(packet@),
                );
                &&& routed == (packet@ is TranslatedData && (found matches Some(inv)
                    && inv.datalog.spec_is_ascii()))
                &&& (routed ==> (found matches Some(inv) && spec_inbound_route_effects(
                    old(self).channels,
                    final(self).channels,
                    old(self).stats.serial_mismatches,
                    final(self).stats.serial_mismatches,
                    old(self).config.spec_config().mqtt.enabled,
                    *packet,
                    inv,
                )))
                &&& (!routed ==> final(self).channels == old(self).channels && final(self).stats.serial_mismatches == old(self).stats.serial_mismatches)
            }),
    {
        self.record_inbound(packet);
        let td = match packet {
            Packet::TranslatedData(td) => td,
            _ => {
                return false;
            },
        };
        let inverter = match self.config.enabled_inverter_with_datalog(td.datalog()) {
            Some(inv) => inv,
            None => {
                return false;
            },
        };
        if !inverter.datalog.is_ascii_serial() {
            return false;
        }
        proof {
            assert(spec_first_enabled_with_datalog(
                old(self).config.spec_config().inverters@,
                model_datalog(packet@),
            ) == Some(inverter));
        }
        self.process_inverter_packet(packet, &inverter);
        true
    }

    /// Handle one inbound operator message: parse the topic, resolve the
    /// addressed inverters, and dispatch one command per inverter. Every
    /// share that cannot be dispatched — a malformed command, a refused
    /// write, a closed queue — gets `FAIL` on the command's result topic;
    /// the dispatched shares are returned for completion.
    pub fn process_message(&mut self, message: &Message) -> (r: Vec<Pending>)
        requires
            old(self).wf(),
        ensures
            final(self).wf(),
            final(self).config == old(self).config,
            final(self).channels.from_inverter.log() == old(self).channels.from_inverter.log(),
            final(self).channels.to_register_cache.log() == old(
                self,
            ).channels.to_register_cache.log(),
            final(self).channels.to_influx.log() == old(self).channels.to_influx.log(),
            final(self).channels.to_database.log() == old(self).channels.to_database.log(),
            final(self).channels.to_inverter.log().len() >= old(
                self,
            ).channels.to_inverter.log().len(),
            final(self).channels.to_inverter.log().take(
                old(self).channels.to_inverter.log().len() as int,
            ) == old(self).channels.to_inverter.log(),
            final(self).channels.to_mqtt.log().len() >= old(self).channels.to_mqtt.log().len(),
            final(self).channels.to_mqtt.log().take(
                old(self).channels.to_mqtt.log().len() as int,
            ) == old(self).channels.to_mqtt.log(),
            !old(self).config.spec_config().mqtt.enabled ==> final(self).channels == old(
                self,
            ).channels && final(self).stats == old(self).stats && r@.len() == 0,
            ({
                // an unroutable topic is a malformed command: one FAIL
                let mqtt_on = old(self).config.spec_config().mqtt.enabled;
                let fail_ok = old(self).channels.to_mqtt.spec_receivers() > 0;
                let pre_q = old(self).channels.to_inverter.log();
                let post_q = final(self).channels.to_inverter.log();
                let pre_m = old(self).channels.to_mqtt.log();
                let post_m = final(self).channels.to_mqtt.log();
                (mqtt_on && !mqtt::spec_topic_routable(message.topic@)) ==> r@.len() == 0 && post_q
                    == pre_q && (if fail_ok {
                    published_one(pre_m, post_m, message.topic@ + "/result"@, "FAIL"@, false)
                } else {
                    post_m == pre_m
                })
            }),
            ({
                // each addressed inverter either dispatches its frame, in
                // order, or gets one FAIL on the result topic
                let mqtt_on = old(self).config.spec_config().mqtt.enabled;
                let routable = mqtt::spec_topic_routable(message.topic@);
                let can_send = old(self).channels.to_inverter.spec_receivers() > 0;
                let fail_ok = old(self).channels.to_mqtt.spec_receivers() > 0;
                let invs = spec_routed_inverters(
                    old(self).config.spec_config(),
                    message.topic@,
                );
                let models = spec_message_models(invs, message.topic@, message.payload@);
                let fails = spec_message_fails(invs, message.topic@, message.payload@);
                let pre_q = old(self).channels.to_inverter.log();
                let post_q = final(self).channels.to_inverter.log();
                let pre_m = old(self).channels.to_mqtt.log();
                let post_m = final(self).channels.to_mqtt.log();
                (mqtt_on && routable && can_send && fail_ok) ==> {
                    &&& post_q.len() == pre_q.len() + models.len()
                    &&& (forall|k: int|
                        0 <= k < models.len() ==> (#[trigger] post_q[pre_q.len() + k] matches
                        inverter::ChannelData::Packet(q) && q@ == models[k]))
                    &&& r@.len() == models.len()
                    &&& (forall|k: int|
                        0 <= k < models.len() ==> (#[trigger] r@[k]).spec_request()@ == models[k]
                            && r@[k].spec_result_topic() == message.topic@ + "/result"@)
                    &&& post_m.len() == pre_m.len() + fails
                    &&& (forall|k: int|
                        0 <= k < fails ==> (#[trigger] post_m[pre_m.len() + k] matches
                        mqtt::ChannelData::Message(m) && m.topic@ == message.topic@ + "/result"@
                            && m.payload@ == "FAIL"@ && m.retain == false))
                }
            }),
    {
        if !self.config.mqtt().enabled() {
            return Vec::new();
        }
        let inverters = match self.config.inverters_for_message(message) {
            Ok(list) => list,
            Err(_) => {
                // a topic that does not route is a malformed command
                let rt = mqtt::result_topic(message.topic.as_str());
                self.publish_fail(rt);
                proof {
                    let log = self.channels.to_inverter.log();
                    assert(log.take(log.len() as int) =~= log);
                }
                return Vec::new();
            },
        };
        proof {
            let log = self.channels.to_inverter.log();
            assert(log.take(log.len() as int) =~= log);
            let mlog = self.channels.to_mqtt.log();
            assert(mlog.take(mlog.len() as int) =~= mlog);
        }
        let ghost topic = message.topic@;
        let ghost payload = message.payload@;
        let mut pendings: Vec<Pending> = Vec::new();
        let mut i: usize = 0;
        while i < inverters.len()
            invariant
                i <= inverters@.len(),
                self.wf(),
                self.config == old(self).config,
                old(self).config.spec_config().mqtt.enabled,
                mqtt::spec_topic_routable(topic),
                topic == message.topic@,
                payload == message.payload@,
                inverters@ == spec_routed_inverters(old(self).config.spec_config(), topic),
                self.channels.from_inverter.log() == old(self).channels.from_inverter.log(),
                self.channels.to_register_cache.log() == old(
                    self,
                ).channels.to_register_cache.log(),
                self.channels.to_influx.log() == old(self).channels.to_influx.log(),
                self.channels.to_database.log() == old(self).channels.to_database.log(),
                self.channels.to_inverter.spec_receivers() == old(
                    self,
                ).channels.to_inverter.spec_receivers(),
                self.channels.to_mqtt.spec_receivers() == old(
                    self,
                ).channels.to_mqtt.spec_receivers(),
                self.channels.to_inverter.log().len() >= old(
                    self,
                ).channels.to_inverter.log().len(),
                self.channels.to_inverter.log().take(
                    old(self).channels.to_inverter.log().len() as int,
                ) == old(self).channels.to_inverter.log(),
                self.channels.to_mqtt.log().len() >= old(self).channels.to_mqtt.log().len(),
                self.channels.to_mqtt.log().take(old(self).channels.to_mqtt.log().len() as int)
                    == old(self).channels.to_mqtt.log(),
                (old(self).channels.to_inverter.spec_receivers() > 0 && old(
                    self,
                ).channels.to_mqtt.spec_receivers() > 0) ==> {
                    &&& self.channels.to_inverter.log().len() == old(
                        self,
                    ).channels.to_inverter.log().len() + spec_message_models(
                        inverters@.take(i as int),
                        topic,
                        payload,
                    ).len()
                    &&& (forall|k: int|
                        0 <= k < spec_message_models(inverters@.take(i as int), topic, payload).len()
                            ==> (#[trigger] self.channels.to_inverter.log()[old(
                            self,
                        ).channels.to_inverter.log().len() + k] matches
                        inverter::ChannelData::Packet(q) && q@ == spec_message_models(
                            inverters@.take(i as int),
                            topic,
                            payload,
                        )[k]))
                    &&& pendings@.len() == spec_message_models(
                        inverters@.take(i as int),
                        topic,
                        payload,
                    ).len()
                    &&& (forall|k: int|
                        0 <= k < pendings@.len() ==> (#[trigger] pendings@[k]).spec_request()@
                            == spec_message_models(inverters@.take(i as int), topic, payload)[k]
                            && pendings@[k].spec_result_topic() == topic + "/result"@)
                    &&& self.channels.to_mqtt.log().len() == old(
                        self,
                    ).channels.to_mqtt.log().len() + spec_message_fails(
                        inverters@.take(i as int),
                        topic,
                        payload,
                    )
                    &&& (forall|k: int|
                        0 <= k < spec_message_fails(inverters@.take(i as int), topic, payload) ==> (
                        #[trigger] self.channels.to_mqtt.log()[old(
                            self,
                        ).channels.to_mqtt.log().len() + k] matches mqtt::ChannelData::Message(m)
                            && m.topic@ == topic + "/result"@ && m.payload@ == "FAIL"@ && m.retain
                            == false))
                },
            decreases inverters@.len() - i,
        {
            proof {
                assert(inverters@.take(i + 1).drop_last() =~= inverters@.take(i as int));
                assert(inverters@.take(i + 1).last() == inverters@[i as int]);
            }
            let inv = inverters[i].duplicate();
            let ghost mid_q = self.channels.to_inverter.log();
            let ghost mid_m = self.channels.to_mqtt.log();
            let ghost mid_p = pendings@;
            match message.to_command(inv) {
                Ok(command) => {
                    let rt = mqtt::result_topic(message.topic.as_str());
                    match self.process_command(command, rt) {
                        Ok(p) => {
                            pendings.push(p);
                        },
                        Err(_) => {
                            let rt2 = mqtt::result_topic(message.topic.as_str());
                            self.publish_fail(rt2);
                        },
                    }
                },
                Err(_) => {
                    let rt = mqtt::result_topic(message.topic.as_str());
                    self.publish_fail(rt);
                },
            }
            i += 1;
            proof {
                let before_q = old(self).channels.to_inverter.log();
                let after_q = self.channels.to_inverter.log();
                let before_m = old(self).channels.to_mqtt.log();
                let after_m = self.channels.to_mqtt.log();
                assert(after_q.take(before_q.len() as int) =~= before_q);
                assert(after_m.take(before_m.len() as int) =~= before_m);
                if old(self).channels.to_inverter.spec_receivers() > 0 && old(
                    self,
                ).channels.to_mqtt.spec_receivers() > 0 {
                    let taken = inverters@.take(i as int);
                    let models = spec_message_models(taken, topic, payload);
                    let fails = spec_message_fails(taken, topic, payload);
                    assert forall|k: int| 0 <= k < models.len() implies (#[trigger] after_q[
                        before_q.len() + k] matches inverter::ChannelData::Packet(q) && q@
                        == models[k]) by {
                        if k < models.len() - 1 || after_q.len() == mid_q.len() {
                            assert(after_q[before_q.len() + k] == mid_q[before_q.len() + k]);
                        } else {
                            assert(after_q[before_q.len() + k] == after_q.last());
                        }
                    }
                    assert forall|k: int| 0 <= k < fails implies (#[trigger] after_m[before_m.len()
                        + k] matches mqtt::ChannelData::Message(m) && m.topic@ == topic
                        + "/result"@ && m.payload@ == "FAIL"@ && m.retain == false) by {
                        if k < fails - 1 || after_m.len() == mid_m.len() {
                            assert(after_m[before_m.len() + k] == mid_m[before_m.len() + k]);
                        } else {
                            assert(after_m[before_m.len() + k] == after_m.last());
                        }
                    }
                }
            }
        }
        proof {
            assert(inverters@.take(inverters@.len() as int) =~= inverters@);
        }
        pendings
    }

    /// When an inverter that asked for it connects, read its holdings in six
    /// pages of forty registers and then the four time-register groups for
    /// each of the three slots.
    pub fn inverter_connected(&mut self, datalog: Serial) -> (r: Result<Vec<Pending>, Error>)
        requires
            old(self).wf(),
        ensures
            final(self).wf(),
            final(self).config == old(self).config,
            final(self).channels.from_inverter.log() == old(self).channels.from_inverter.log(),
            final(self).channels.to_mqtt.log() == old(self).channels.to_mqtt.log(),
            final(self).channels.to_register_cache.log() == old(
                self,
            ).channels.to_register_cache.log(),
            final(self).channels.to_inverter.log().take(
                old(self).channels.to_inverter.log().len() as int,
            ) == old(self).channels.to_inverter.log(),
            ({
                let found = spec_first_enabled_with_datalog(
                    old(self).config.spec_config().inverters@,
                    datalog@,
                );
                let pre = old(self).channels.to_inverter.log();
                let post = final(self).channels.to_inverter.log();
                match r {
                    Ok(pendings) => {
                        &&& post.len() == pre.len() + pendings@.len()
                        &&& match found {
                            Some(inv) => if inv.spec_publish_holdings_on_connect() {
                                // all six pages and all twelve time slots were
                                // queued, in order
                                &&& old(self).channels.to_inverter.spec_receivers() > 0
                                &&& pendings@.len() == 18
                                &&& (forall|k: int|
                                    0 <= k < 18 ==> (#[trigger] post[pre.len() + k] matches
                                    inverter::ChannelData::Packet(q) && q@ == spec_connect_frame(
                                        inv,
                                        k,
                                    )))
                                &&& (forall|k: int|
                                    0 <= k < 18 ==> (#[trigger] pendings@[k]).spec_request()@
                                        == spec_connect_frame(inv, k))
                            } else {
                                pendings@.len() == 0 && final(self).channels == old(self).channels
                            },
                            None => pendings@.len() == 0 && final(self).channels == old(
                                self).channels,
                        }
                    },
                    Err(e) => {
                        &&& e == Error::ChannelClosed
                        &&& old(self).channels.to_inverter.spec_receivers() == 0
                        &&& (found matches Some(inv) && inv.spec_publish_holdings_on_connect())
                        &&& post == pre
                    },
                }
            }),
    {
        proof {
            let log = self.channels.to_inverter.log();
            assert(log.take(log.len() as int) =~= log);
        }
        let inverter = match self.config.enabled_inverter_with_datalog(datalog) {
            Some(inv) => inv,
            None => {
                return Ok(Vec::new());
            },
        };
        proof {
            assert(spec_first_enabled_with_datalog(
                old(self).config.spec_config().inverters@,
                datalog@,
            ) == Some(inverter));
        }
        if !inverter.publish_holdings_on_connect() {
            return Ok(Vec::new());
        }
        let mut pendings: Vec<Pending> = Vec::new();
        // Holding registers are read in pages of forty; six pages cover the
        // register space in use.
        let mut page: usize = 0;
        while page < 6
            invariant
                page <= 6,
                self.wf(),
                self.config == old(self).config,
                self.channels.from_inverter.log() == old(self).channels.from_inverter.log(),
                self.channels.to_mqtt.log() == old(self).channels.to_mqtt.log(),
                self.channels.to_register_cache.log() == old(
                    self,
                ).channels.to_register_cache.log(),
                spec_first_enabled_with_datalog(
                    old(self).config.spec_config().inverters@,
                    datalog@,
                ) == Some(inverter),
                inverter.spec_publish_holdings_on_connect(),
                self.channels.to_inverter.spec_receivers() == old(
                    self,
                ).channels.to_inverter.spec_receivers(),
                pendings@.len() == page,
                page > 0 ==> self.channels.to_inverter.spec_receivers() > 0,
                self.channels.to_inverter.log().len() == old(
                    self,
                ).channels.to_inverter.log().len() + page,
                self.channels.to_inverter.log().take(
                    old(self).channels.to_inverter.log().len() as int,
                ) == old(self).channels.to_inverter.log(),
                forall|k: int|
                    0 <= k < page ==> (#[trigger] self.channels.to_inverter.log()[old(
                        self,
                    ).channels.to_inverter.log().len() + k] matches inverter::ChannelData::Packet(
                        q,
                    ) && q@ == spec_connect_frame(inverter, k)),
                forall|k: int|
                    0 <= k < page ==> (#[trigger] pendings@[k]).spec_request()@
                        == spec_connect_frame(inverter, k),
            decreases 6 - page,
        {
            let register = 40 * (page as u16);
            let read = ReadHold::new(inverter.duplicate(), register, 40);
            let ghost mid = self.channels.to_inverter.log();
            match read.request(&mut self.channels) {
                Ok((request, waiter)) => {
                    self.increment_packets_sent(&request);
                    let rt = String::new();
                    pendings.push(Pending::AwaitReply { request, waiter, result_topic: rt });
                    proof {
                        let before = old(self).channels.to_inverter.log();
                        let after = self.channels.to_inverter.log();
                        assert(after.take(before.len() as int) =~= before);
                        assert(after.take(mid.len() as int) == mid);
                        assert(request@ == spec_connect_frame(inverter, page as int));
                        assert forall|k: int| 0 <= k < page + 1 implies (#[trigger] after[before.len()
                            + k] matches inverter::ChannelData::Packet(q) && q@
                            == spec_connect_frame(inverter, k)) by {
                            if k < page {
                                assert(after[before.len() + k] == mid[before.len() + k]);
                            } else {
                                assert(after[before.len() + k] == after.last());
                            }
                        }
                    }
                },
                Err(e) => {
                    proof {
                        if page > 0 {
                            assert(false);
                        }
                    }
                    return Err(e);
                },
            }
            page += 1;
        }
        // The interpretive time-register topics are derived from the same
        // holdings; each slot of each group is read in its own request.
        let mut num: u16 = 1;
        while num <= 3
            invariant
                1 <= num <= 4,
                self.wf(),
                self.config == old(self).config,
                self.channels.from_inverter.log() == old(self).channels.from_inverter.log(),
                self.channels.to_mqtt.log() == old(self).channels.to_mqtt.log(),
                self.channels.to_register_cache.log() == old(
                    self,
                ).channels.to_register_cache.log(),
                spec_first_enabled_with_datalog(
                    old(self).config.spec_config().inverters@,
                    datalog@,
                ) == Some(inverter),
                inverter.spec_publish_holdings_on_connect(),
                self.channels.to_inverter.spec_receivers() == old(
                    self,
                ).channels.to_inverter.spec_receivers(),
                pendings@.len() == 6 + 4 * (num - 1),
                self.channels.to_inverter.spec_receivers() > 0,
                self.channels.to_inverter.log().len() == old(
                    self,
                ).channels.to_inverter.log().len() + pendings@.len(),
                self.channels.to_inverter.log().take(
                    old(self).channels.to_inverter.log().len() as int,
                ) == old(self).channels.to_inverter.log(),
                forall|k: int|
                    0 <= k < pendings@.len() ==> (#[trigger] self.channels.to_inverter.log()[old(
                        self,
                    ).channels.to_inverter.log().len() + k] matches inverter::ChannelData::Packet(
                        q,
                    ) && q@ == spec_connect_frame(inverter, k)),
                forall|k: int|
                    0 <= k < pendings@.len() ==> (#[trigger] pendings@[k]).spec_request()@
                        == spec_connect_frame(inverter, k),
            decreases 4 - num,
        {
            let mut j: usize = 0;
            while j < 4
                invariant
                    j <= 4,
                    1 <= num <= 3,
                    self.wf(),
                    self.config == old(self).config,
                    self.channels.from_inverter.log() == old(self).channels.from_inverter.log(),
                    self.channels.to_mqtt.log() == old(self).channels.to_mqtt.log(),
                    self.channels.to_register_cache.log() == old(
                        self,
                    ).channels.to_register_cache.log(),
                    spec_first_enabled_with_datalog(
                        old(self).config.spec_config().inverters@,
                        datalog@,
                    ) == Some(inverter),
                    inverter.spec_publish_holdings_on_connect(),
                    self.channels.to_inverter.spec_receivers() == old(
                        self,
                    ).channels.to_inverter.spec_receivers(),
                    pendings@.len() == 6 + 4 * (num - 1) + j,
                    self.channels.to_inverter.spec_receivers() > 0,
                    self.channels.to_inverter.log().len() == old(
                        self,
                    ).channels.to_inverter.log().len() + pendings@.len(),
                    self.channels.to_inverter.log().take(
                        old(self).channels.to_inverter.log().len() as int,
                    ) == old(self).channels.to_inverter.log(),
                    forall|k: int|
                        0 <= k < pendings@.len() ==> (#[trigger] self.channels.to_inverter.log()[
                        old(self).channels.to_inverter.log().len() + k] matches
                        inverter::ChannelData::Packet(q) && q@ == spec_connect_frame(inverter, k)),
                    forall|k: int|
                        0 <= k < pendings@.len() ==> (#[trigger] pendings@[k]).spec_request()@
                            == spec_connect_frame(inverter, k),
                decreases 4 - j,
            {
                let action = if j == 0 {
                    Action::AcCharge(num)
                } else if j == 1 {
                    Action::ChargePriority(num)
                } else if j == 2 {
                    Action::ForcedDischarge(num)
                } else {
                    Action::AcFirst(num)
                };
                proof {
                    let c = 6 + 4 * (num - 1) + j;
                    assert((c - 6) / 4 == num - 1);
                    assert((c - 6) % 4 == j);
                    assert(spec_connect_action(c - 6) == action);
                }
                let read = ReadTimeRegister::new(inverter.duplicate(), action);
                let ghost mid = self.channels.to_inverter.log();
                let ghost count = pendings@.len();
                match read.request(&mut self.channels) {
                    Ok((request, waiter)) => {
                        self.increment_packets_sent(&request);
                        let rt = String::new();
                        pendings.push(Pending::AwaitReply { request, waiter, result_topic: rt });
                        proof {
                            let before = old(self).channels.to_inverter.log();
                            let after = self.channels.to_inverter.log();
                            assert(after.take(before.len() as int) =~= before);
                            assert(after.take(mid.len() as int) == mid);
                            assert(request@ == spec_connect_frame(inverter, count as int));
                            assert forall|k: int| 0 <= k < count + 1 implies (#[trigger] after[
                                before.len() + k] matches inverter::ChannelData::Packet(q) && q@
                                == spec_connect_frame(inverter, k)) by {
                                if k < count {
                                    assert(after[before.len() + k] == mid[before.len() + k]);
                                } else {
                                    assert(after[before.len() + k] == after.last());
                                }
                            }
                        }
                    },
                    Err(e) => {
                        // The slot is in range and the queue has a consumer,
                        // so a dispatch failure cannot happen here.
                        proof {
                            assert(false);
                        }
                        return Err(Error::ChannelClosed);
                    },
                }
                j += 1;
            }
            num += 1;
        }
        Ok(pendings)
    }
}

/// The bytes of one summary line: `{label}{value}` and a newline.
pub open spec fn spec_counter_line(label: Seq<char>, value: u64) -> Seq<u8> {
    label.map(|i: int, c: char| c as u8) + spec_dec(value as nat) + seq![10u8]
}

/// Append `label` and the counter's value, ending the line.
fn push_counter(buf: &mut Vec<u8>, label: &str, value: u64)
    requires
        vstd::string::is_ascii(label),
        crate::text::ascii_seq(old(buf)@),
    ensures
        crate::text::ascii_seq(final(buf)@),
        final(buf)@ == old(buf)@ + spec_counter_line(label@, value),
{
    crate::text::push_ascii_label(buf, label);
    push_dec_u64(buf, value);
    buf.push(10);
    proof {
        lemma_spec_dec_ascii(value as nat);
        assert(crate::text::ascii_seq(buf@));
        assert(buf@ =~= old(buf)@ + spec_counter_line(label@, value));
    }
}

/// The serial's own bytes when they are ASCII, and question marks where
/// they are not.
pub open spec fn spec_serial_text(s: Serial) -> Seq<u8> {
    if s.spec_is_ascii() {
        s@
    } else {
        Seq::new(10, |i: int| 63u8)
    }
}

/// Append the serial's characters; question marks where it is not ASCII.
fn push_serial_text(buf: &mut Vec<u8>, s: &Serial)
    requires
        crate::text::ascii_seq(old(buf)@),
    ensures
        crate::text::ascii_seq(final(buf)@),
        final(buf)@ == old(buf)@ + spec_serial_text(*s),
{
    if s.is_ascii_serial() {
        let bytes = s.bytes();
        buf.extend_from_slice(bytes.as_slice());
        proof {
            broadcast use crate::serial::lemma_serial_len;

            assert(buf@ =~= old(buf)@ + s@);
        }
    } else {
        let mut i: usize = 0;
        while i < 10
            invariant
                i <= 10,
                crate::text::ascii_seq(buf@),
                buf@ == old(buf)@ + Seq::new(i as nat, |k: int| 63u8),
            decreases 10 - i,
        {
            buf.push(63);
            i += 1;
            proof {
                assert(buf@ =~= old(buf)@ + Seq::new(i as nat, |k: int| 63u8));
            }
        }
        proof {
            assert(buf@ =~= old(buf)@ + spec_serial_text(*s));
        }
    }
}

} // verus!
