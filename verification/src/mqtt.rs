use vstd::prelude::*;

use crate::command::Command;
use crate::config;
use crate::error::Error;
use crate::serial::Serial;
use crate::text::{ascii_bytes_to_string, chars_of, spec_split, split_bytes, str_eq};

verus! {

/// The bytes the characters of an ASCII string stand for.
pub open spec fn chars_to_bytes(s: Seq<char>) -> Seq<u8> {
    s.map(|i: int, c: char| c as u8)
}

/// The slash-separated segments of a topic.
pub open spec fn spec_segments(topic: Seq<char>) -> Seq<Seq<u8>> {
    spec_split(chars_to_bytes(topic), 47)
}

/// The value of one decimal digit; ten marks anything else.
pub open spec fn spec_digit(c: char) -> int {
    if c == '0' {
        0
    } else if c == '1' {
        1
    } else if c == '2' {
        2
    } else if c == '3' {
        3
    } else if c == '4' {
        4
    } else if c == '5' {
        5
    } else if c == '6' {
        6
    } else if c == '7' {
        7
    } else if c == '8' {
        8
    } else if c == '9' {
        9
    } else {
        10
    }
}

fn digit(c: char) -> (r: u32)
    ensures
        r == spec_digit(c),
{
    match c {
        '0' => 0,
        '1' => 1,
        '2' => 2,
        '3' => 3,
        '4' => 4,
        '5' => 5,
        '6' => 6,
        '7' => 7,
        '8' => 8,
        '9' => 9,
        _ => 10,
    }
}

/// The number a digit string spells, most significant digit first.
pub open spec fn spec_num_val(s: Seq<char>) -> int
    decreases s.len(),
{
    if s.len() == 0 {
        0
    } else {
        10 * spec_num_val(s.drop_last()) + spec_digit(s.last())
    }
}

/// One or more decimal digits.
pub open spec fn spec_is_num(s: Seq<char>) -> bool {
    s.len() > 0 && forall|i: int| 0 <= i < s.len() ==> spec_digit(#[trigger] s[i]) < 10
}

/// What a topic segment or payload parses to as a sixteen-bit number.
pub open spec fn spec_parse_num(s: Seq<char>) -> Option<u16> {
    if spec_is_num(s) && spec_num_val(s) <= 65535 {
        Some(spec_num_val(s) as u16)
    } else {
        None
    }
}

/// A digit string's value only grows as digits are appended.
proof fn lemma_num_val_grows(s: Seq<char>, i: int)
    requires
        0 <= i <= s.len(),
        forall|j: int| 0 <= j < s.len() ==> spec_digit(#[trigger] s[j]) < 10,
    ensures
        spec_num_val(s.take(i)) <= spec_num_val(s),
        spec_num_val(s) >= 0,
    decreases s.len(),
{
    if s.len() > 0 {
        assert(forall|j: int|
            0 <= j < s.drop_last().len() ==> spec_digit(#[trigger] s.drop_last()[j]) < 10);
        if i < s.len() {
            assert(s.take(i) =~= s.drop_last().take(i));
            lemma_num_val_grows(s.drop_last(), i);
        } else {
            assert(s.take(i) =~= s);
            lemma_num_val_grows(s.drop_last(), s.len() - 1);
        }
    } else {
        assert(s.take(i) =~= s);
    }
}

/// Parse a decimal sixteen-bit number from a string.
pub fn parse_num(s: &str) -> (r: Option<u16>)
    ensures
        r == spec_parse_num(s@),
{
    let n = s.unicode_len();
    if n == 0 {
        return None;
    }
    let mut acc: u32 = 0;
    let mut i: usize = 0;
    while i < n
        invariant
            i <= n,
            n == s@.len(),
            forall|j: int| 0 <= j < i ==> spec_digit(#[trigger] s@[j]) < 10,
            acc == spec_num_val(s@.take(i as int)),
            acc <= 65535,
        decreases n - i,
    {
        let d = digit(s.get_char(i));
        if d >= 10 {
            return None;
        }
        acc = 10 * acc + d;
        i += 1;
        proof {
            assert(s@.take(i as int).drop_last() =~= s@.take(i - 1));
        }
        if acc > 65535 {
            proof {
                if spec_is_num(s@) {
                    lemma_num_val_grows(s@, i as int);
                }
            }
            return None;
        }
    }
    proof {
        assert(s@.take(s@.len() as int) =~= s@);
    }
    Some(acc as u16)
}

/// What an `HH:MM-HH:MM` payload parses to: start hour and minute, end hour
/// and minute. Shape only; the range check belongs to the command.
pub open spec fn spec_parse_time(s: Seq<char>) -> Option<(u8, u8, u8, u8)> {
    if s.len() == 11 && s[2] == ':' && s[5] == '-' && s[8] == ':' && spec_digit(s[0]) < 10
        && spec_digit(s[1]) < 10 && spec_digit(s[3]) < 10 && spec_digit(s[4]) < 10 && spec_digit(
        s[6],
    ) < 10 && spec_digit(s[7]) < 10 && spec_digit(s[9]) < 10 && spec_digit(s[10]) < 10 {
        Some(
            (
                (10 * spec_digit(s[0]) + spec_digit(s[1])) as u8,
                (10 * spec_digit(s[3]) + spec_digit(s[4])) as u8,
                (10 * spec_digit(s[6]) + spec_digit(s[7])) as u8,
                (10 * spec_digit(s[9]) + spec_digit(s[10])) as u8,
            ),
        )
    } else {
        None
    }
}

/// Parse an `HH:MM-HH:MM` payload into its four fields.
pub fn parse_time(s: &str) -> (r: Option<(u8, u8, u8, u8)>)
    ensures
        r == spec_parse_time(s@),
{
    if s.unicode_len() != 11 {
        return None;
    }
    if !(s.get_char(2) == ':' && s.get_char(5) == '-' && s.get_char(8) == ':') {
        return None;
    }
    let d0 = digit(s.get_char(0));
    let d1 = digit(s.get_char(1));
    let d3 = digit(s.get_char(3));
    let d4 = digit(s.get_char(4));
    let d6 = digit(s.get_char(6));
    let d7 = digit(s.get_char(7));
    let d9 = digit(s.get_char(9));
    let d10 = digit(s.get_char(10));
    if d0 >= 10 || d1 >= 10 || d3 >= 10 || d4 >= 10 || d6 >= 10 || d7 >= 10 || d9 >= 10 || d10
        >= 10 {
        return None;
    }
    Some(
        (
            (10 * d0 + d1) as u8,
            (10 * d3 + d4) as u8,
            (10 * d6 + d7) as u8,
            (10 * d9 + d10) as u8,
        ),
    )
}

/// One MQTT message: a topic, a payload, and the retain flag.
#[derive(Clone, Debug)]
pub struct Message {
    pub topic: String,
    pub payload: String,
    pub retain: bool,
}

impl Message {
    pub fn new(topic: String, payload: String, retain: bool) -> (r: Message)
        ensures
            r.topic@ == topic@,
            r.payload@ == payload@,
            r.retain == retain,
    {
        Message { topic, payload, retain }
    }

    /// Split the topic into the command's target and the segments after it.
    /// A topic that is not ASCII, has fewer than four segments, lacks `cmd`
    /// in second position, or names an ill-shaped target is a malformed
    /// command.
    pub fn split_cmd_topic(&self) -> (r: Result<(TargetInverter, Vec<String>), Error>)
        ensures
            ({
                let segs = spec_segments(self.topic@);
                match r {
                    Ok((t, rest)) => {
                        &&& spec_topic_routable(self.topic@)
                        &&& rest@.len() == segs.len() - 3
                        &&& (forall|k: int|
                            0 <= k < rest@.len() ==> rest@[k]@ == chars_of(#[trigger] segs[k + 3]))
                        &&& match t {
                            TargetInverter::All => chars_of(segs[2]) == "all"@,
                            TargetInverter::Serial(ser) => chars_of(segs[2]) != "all"@ && ser@
                                == segs[2],
                        }
                    },
                    Err(e) => e == Error::BadCommand && !spec_topic_routable(self.topic@),
                }
            }),
    {
        broadcast use vstd::string::is_ascii_spec_bytes;

        if !self.topic.is_ascii() {
            return Err(Error::BadCommand);
        }
        let st = self.topic.as_str();
        let bytes = st.as_bytes_vec();
        proof {
            assert(vstd::string::is_ascii(st));
            assert(bytes@ =~= chars_to_bytes(self.topic@));
            assert(crate::text::ascii_seq(bytes@));
            crate::text::lemma_split_ascii(bytes@, 47);
        }
        let segs = split_bytes(&bytes, 47);
        let ghost model = spec_segments(self.topic@);
        proof {
            assert(segs@.map(|i: int, seg: Vec<u8>| seg@) == model);
            assert(forall|k: int| 0 <= k < segs@.len() ==> #[trigger] segs@[k]@ == model[k]);
        }
        if segs.len() < 4 {
            return Err(Error::BadCommand);
        }
        let second = ascii_bytes_to_string(&segs[1]);
        if !str_eq(second.as_str(), "cmd") {
            return Err(Error::BadCommand);
        }
        let target_text = ascii_bytes_to_string(&segs[2]);
        let target = if str_eq(target_text.as_str(), "all") {
            TargetInverter::All
        } else if segs[2].len() == 10 {
            TargetInverter::Serial(Serial::from_slice(segs[2].as_slice()))
        } else {
            return Err(Error::BadCommand);
        };
        let mut rest: Vec<String> = Vec::new();
        let mut k: usize = 3;
        while k < segs.len()
            invariant
                3 <= k <= segs@.len(),
                segs@.map(|i: int, seg: Vec<u8>| seg@) == spec_segments(self.topic@),
                crate::text::ascii_seq(chars_to_bytes(self.topic@)),
                forall|j: int|
                    0 <= j < spec_segments(self.topic@).len() ==> crate::text::ascii_seq(
                        #[trigger] spec_segments(self.topic@)[j],
                    ),
                rest@.len() == k - 3,
                forall|j: int|
                    0 <= j < rest@.len() ==> rest@[j]@ == chars_of(
                        #[trigger] spec_segments(self.topic@)[j + 3],
                    ),
            decreases segs@.len() - k,
        {
            proof {
                assert(segs@[k as int]@ == spec_segments(self.topic@)[k as int]);
            }
            rest.push(ascii_bytes_to_string(&segs[k]));
            k += 1;
        }
        Ok((target, rest))
    }

    /// Parse the message into the command it asks of `inverter`.
    #[verifier::rlimit(100)]
    pub fn to_command(&self, inverter: config::Inverter) -> (r: Result<Command, Error>)
        ensures
            r == (if !spec_topic_routable(self.topic@) {
                Err::<Command, Error>(Error::BadCommand)
            } else {
                spec_command_of(inverter, spec_rest_chars(self.topic@), self.payload@)
            }),
    {
        let rest = match self.split_cmd_topic() {
            Ok((_target, rest)) => rest,
            Err(e) => {
                return Err(e);
            },
        };
        let ghost rspec = spec_rest_chars(self.topic@);
        proof {
            assert(rspec.len() == rest@.len());
            assert(forall|j: int| 0 <= j < rest@.len() ==> rest@[j]@ == #[trigger] rspec[j]);
        }
        if rest.len() == 0 {
            return Err(Error::BadCommand);
        }
        let verb = &rest[0];
        let payload = self.payload.as_str();
        if str_eq(verb.as_str(), "read_inputs") {
            if rest.len() == 2 {
                match parse_num(rest[1].as_str()) {
                    Some(n) => if 1 <= n && n <= 4 {
                        Ok(Command::ReadInputs(inverter, n))
                    } else {
                        Err(Error::BadCommand)
                    },
                    None => Err(Error::BadCommand),
                }
            } else {
                Err(Error::BadCommand)
            }
        } else if str_eq(verb.as_str(), "read_input") {
            if rest.len() == 3 {
                match (parse_num(rest[1].as_str()), parse_num(rest[2].as_str())) {
                    (Some(reg), Some(count)) => Ok(Command::ReadInput(inverter, reg, count)),
                    _ => Err(Error::BadCommand),
                }
            } else {
                Err(Error::BadCommand)
            }
        } else if str_eq(verb.as_str(), "read_hold") {
            if rest.len() == 3 {
                match (parse_num(rest[1].as_str()), parse_num(rest[2].as_str())) {
                    (Some(reg), Some(count)) => Ok(Command::ReadHold(inverter, reg, count)),
                    _ => Err(Error::BadCommand),
                }
            } else {
                Err(Error::BadCommand)
            }
        } else if str_eq(verb.as_str(), "read_param") {
            if rest.len() == 2 {
                match parse_num(rest[1].as_str()) {
                    Some(reg) => Ok(Command::ReadParam(inverter, reg)),
                    None => Err(Error::BadCommand),
                }
            } else {
                Err(Error::BadCommand)
            }
        } else if str_eq(verb.as_str(), "set_hold") {
            if rest.len() == 2 {
                match (parse_num(rest[1].as_str()), parse_num(payload)) {
                    (Some(reg), Some(value)) => Ok(Command::SetHold(inverter, reg, value)),
                    _ => Err(Error::BadCommand),
                }
            } else {
                Err(Error::BadCommand)
            }
        } else if str_eq(verb.as_str(), "write_param") {
            if rest.len() == 2 {
                match (parse_num(rest[1].as_str()), parse_num(payload)) {
                    (Some(reg), Some(value)) => Ok(Command::WriteParam(inverter, reg, value)),
                    _ => Err(Error::BadCommand),
                }
            } else {
                Err(Error::BadCommand)
            }
        } else if str_eq(verb.as_str(), "ac_charge") {
            match self.bool_payload(rest.len()) {
                Ok(on) => Ok(Command::AcCharge(inverter, on)),
                Err(e) => Err(e),
            }
        } else if str_eq(verb.as_str(), "charge_priority") {
            match self.bool_payload(rest.len()) {
                Ok(on) => Ok(Command::ChargePriority(inverter, on)),
                Err(e) => Err(e),
            }
        } else if str_eq(verb.as_str(), "forced_discharge") {
            match self.bool_payload(rest.len()) {
                Ok(on) => Ok(Command::ForcedDischarge(inverter, on)),
                Err(e) => Err(e),
            }
        } else if str_eq(verb.as_str(), "charge_rate") {
            match self.pct_payload(rest.len()) {
                Ok(pct) => Ok(Command::ChargeRate(inverter, pct)),
                Err(e) => Err(e),
            }
        } else if str_eq(verb.as_str(), "discharge_rate") {
            match self.pct_payload(rest.len()) {
                Ok(pct) => Ok(Command::DischargeRate(inverter, pct)),
                Err(e) => Err(e),
            }
        } else if str_eq(verb.as_str(), "ac_charge_rate") {
            match self.pct_payload(rest.len()) {
                Ok(pct) => Ok(Command::AcChargeRate(inverter, pct)),
                Err(e) => Err(e),
            }
        } else if str_eq(verb.as_str(), "ac_charge_soc_limit") {
            match self.pct_payload(rest.len()) {
                Ok(pct) => Ok(Command::AcChargeSocLimit(inverter, pct)),
                Err(e) => Err(e),
            }
        } else if str_eq(verb.as_str(), "discharge_cutoff_soc_limit") {
            match self.pct_payload(rest.len()) {
                Ok(pct) => Ok(Command::DischargeCutoffSocLimit(inverter, pct)),
                Err(e) => Err(e),
            }
        } else if str_eq(verb.as_str(), "read_ac_charge_time") {
            match Message::slot_arg(&rest) {
                Ok(n) => Ok(Command::ReadAcChargeTime(inverter, n)),
                Err(e) => Err(e),
            }
        } else if str_eq(verb.as_str(), "read_ac_first_time") {
            match Message::slot_arg(&rest) {
                Ok(n) => Ok(Command::ReadAcFirstTime(inverter, n)),
                Err(e) => Err(e),
            }
        } else if str_eq(verb.as_str(), "read_charge_priority_time") {
            match Message::slot_arg(&rest) {
                Ok(n) => Ok(Command::ReadChargePriorityTime(inverter, n)),
                Err(e) => Err(e),
            }
        } else if str_eq(verb.as_str(), "read_forced_discharge_time") {
            match Message::slot_arg(&rest) {
                Ok(n) => Ok(Command::ReadForcedDischargeTime(inverter, n)),
                Err(e) => Err(e),
            }
        } else if str_eq(verb.as_str(), "set_ac_charge_time") {
            match self.time_args(&rest) {
                Ok((n, q)) => Ok(Command::SetAcChargeTime(inverter, n, q)),
                Err(e) => Err(e),
            }
        } else if str_eq(verb.as_str(), "set_ac_first_time") {
            match self.time_args(&rest) {
                Ok((n, q)) => Ok(Command::SetAcFirstTime(inverter, n, q)),
                Err(e) => Err(e),
            }
        } else if str_eq(verb.as_str(), "set_charge_priority_time") {
            match self.time_args(&rest) {
                Ok((n, q)) => Ok(Command::SetChargePriorityTime(inverter, n, q)),
                Err(e) => Err(e),
            }
        } else if str_eq(verb.as_str(), "set_forced_discharge_time") {
            match self.time_args(&rest) {
                Ok((n, q)) => Ok(Command::SetForcedDischargeTime(inverter, n, q)),
                Err(e) => Err(e),
            }
        } else {
            Err(Error::BadCommand)
        }
    }

    /// The on/off payload of a verb that takes no argument.
    fn bool_payload(&self, rest_len: usize) -> (r: Result<bool, Error>)
        ensures
            match r {
                Ok(on) => rest_len == 1 && spec_payload_bool_ok(self.payload@) && on
                    == spec_payload_on(self.payload@),
                Err(e) => e == Error::BadCommand && !(rest_len == 1 && spec_payload_bool_ok(
                    self.payload@,
                )),
            },
    {
        if rest_len != 1 {
            return Err(Error::BadCommand);
        }
        if str_eq(self.payload.as_str(), "1") {
            Ok(true)
        } else if str_eq(self.payload.as_str(), "0") {
            proof {
                reveal_strlit("0");
                reveal_strlit("1");
            }
            Ok(false)
        } else {
            Err(Error::BadCommand)
        }
    }

    /// The percentage payload of a verb that takes no argument.
    fn pct_payload(&self, rest_len: usize) -> (r: Result<u16, Error>)
        ensures
            match r {
                Ok(pct) => rest_len == 1 && spec_parse_num(self.payload@) == Some(pct),
                Err(e) => e == Error::BadCommand && !(rest_len == 1 && spec_parse_num(
                    self.payload@,
                ) is Some),
            },
    {
        if rest_len != 1 {
            return Err(Error::BadCommand);
        }
        match parse_num(self.payload.as_str()) {
            Some(pct) => Ok(pct),
            None => Err(Error::BadCommand),
        }
    }

    /// The slot-number argument of a time-register verb.
    fn slot_arg(rest: &Vec<String>) -> (r: Result<u16, Error>)
        ensures
            match r {
                Ok(n) => rest@.len() == 2 && spec_parse_num(rest@[1]@) == Some(n) && 1 <= n <= 3,
                Err(e) => e == Error::BadCommand && !(rest@.len() == 2 && (match spec_parse_num(
                    rest@[1]@,
                ) {
                    Some(n) => 1 <= n <= 3,
                    None => false,
                })),
            },
    {
        if rest.len() != 2 {
            return Err(Error::BadCommand);
        }
        match parse_num(rest[1].as_str()) {
            Some(n) => if 1 <= n && n <= 3 {
                Ok(n)
            } else {
                Err(Error::BadCommand)
            },
            None => Err(Error::BadCommand),
        }
    }

    /// The slot number and quadruple of a time-register write.
    fn time_args(&self, rest: &Vec<String>) -> (r: Result<(u16, (u8, u8, u8, u8)), Error>)
        ensures
            match r {
                Ok((n, q)) => rest@.len() == 2 && spec_parse_num(rest@[1]@) == Some(n) && 1 <= n
                    <= 3 && spec_parse_time(self.payload@) == Some(q),
                Err(e) => {
                    ||| (e == Error::BadCommand && !(rest@.len() == 2 && (match spec_parse_num(
                        rest@[1]@,
                    ) {
                        Some(n) => 1 <= n <= 3,
                        None => false,
                    })))
                    ||| (e == Error::BadTime && rest@.len() == 2 && (match spec_parse_num(
                        rest@[1]@,
                    ) {
                        Some(n) => 1 <= n <= 3,
                        None => false,
                    }) && spec_parse_time(self.payload@) is None)
                },
            },
    {
        let n = match Message::slot_arg(rest) {
            Ok(n) => n,
            Err(e) => {
                return Err(e);
            },
        };
        match parse_time(self.payload.as_str()) {
            Some(q) => Ok((n, q)),
            None => Err(Error::BadTime),
        }
    }
}

/// The topic a command's outcome is published on: the command topic with
/// `/result` appended.
pub fn result_topic(topic: &str) -> (r: String)
    ensures
        r@ == topic@ + "/result"@,
{
    let s = String::from_str(topic);
    s.concat("/result")
}

/// Whether a topic has the command shape `{ns}/cmd/{target}/{verb}...`:
/// ASCII, at least four segments, `cmd` second, and a target that is either
/// `all` or ten characters long.
pub open spec fn spec_topic_routable(topic: Seq<char>) -> bool {
    let segs = spec_segments(topic);
    &&& vstd::utf8::is_ascii_chars(topic)
    &&& segs.len() >= 4
    &&& chars_of(segs[1]) == "cmd"@
    &&& (chars_of(segs[2]) == "all"@ || segs[2].len() == 10)
}

/// The topic segments after `{ns}/cmd/{target}`, as character strings.
pub open spec fn spec_rest_chars(topic: Seq<char>) -> Seq<Seq<char>> {
    spec_segments(topic).skip(3).map(|i: int, sg: Seq<u8>| chars_of(sg))
}

/// The command a routable topic and its payload name, handed to one
/// inverter; `BadCommand` for an unknown verb or malformed argument, and
/// `BadTime` for a time payload that is not `HH:MM-HH:MM`.
pub open spec fn spec_command_of(
    inv: config::Inverter,
    rest: Seq<Seq<char>>,
    payload: Seq<char>,
) -> Result<Command, Error> {
    if rest.len() == 0 {
        Err(Error::BadCommand)
    } else {
        let verb = rest[0];
        if verb == "read_inputs"@ {
            if rest.len() == 2 {
                match spec_parse_num(rest[1]) {
                    Some(n) => if 1 <= n <= 4 {
                        Ok(Command::ReadInputs(inv, n))
                    } else {
                        Err(Error::BadCommand)
                    },
                    None => Err(Error::BadCommand),
                }
            } else {
                Err(Error::BadCommand)
            }
        } else if verb == "read_input"@ {
            if rest.len() == 3 {
                match (spec_parse_num(rest[1]), spec_parse_num(rest[2])) {
                    (Some(reg), Some(count)) => Ok(Command::ReadInput(inv, reg, count)),
                    _ => Err(Error::BadCommand),
                }
            } else {
                Err(Error::BadCommand)
            }
        } else if verb == "read_hold"@ {
            if rest.len() == 3 {
                match (spec_parse_num(rest[1]), spec_parse_num(rest[2])) {
                    (Some(reg), Some(count)) => Ok(Command::ReadHold(inv, reg, count)),
                    _ => Err(Error::BadCommand),
                }
            } else {
                Err(Error::BadCommand)
            }
        } else if verb == "read_param"@ {
            if rest.len() == 2 {
                match spec_parse_num(rest[1]) {
                    Some(reg) => Ok(Command::ReadParam(inv, reg)),
                    None => Err(Error::BadCommand),
                }
            } else {
                Err(Error::BadCommand)
            }
        } else if verb == "set_hold"@ {
            if rest.len() == 2 {
                match (spec_parse_num(rest[1]), spec_parse_num(payload)) {
                    (Some(reg), Some(value)) => Ok(Command::SetHold(inv, reg, value)),
                    _ => Err(Error::BadCommand),
                }
            } else {
                Err(Error::BadCommand)
            }
        } else if verb == "write_param"@ {
            if rest.len() == 2 {
                match (spec_parse_num(rest[1]), spec_parse_num(payload)) {
                    (Some(reg), Some(value)) => Ok(Command::WriteParam(inv, reg, value)),
                    _ => Err(Error::BadCommand),
                }
            } else {
                Err(Error::BadCommand)
            }
        } else if verb == "ac_charge"@ {
            spec_bool_command(rest, payload, Command::AcCharge(inv, spec_payload_on(payload)))
        } else if verb == "charge_priority"@ {
            spec_bool_command(rest, payload, Command::ChargePriority(inv, spec_payload_on(payload)))
        } else if verb == "forced_discharge"@ {
            spec_bool_command(
                rest,
                payload,
                Command::ForcedDischarge(inv, spec_payload_on(payload)),
            )
        } else if verb == "charge_rate"@ {
            spec_pct_command(rest, payload, inv, 0)
        } else if verb == "discharge_rate"@ {
            spec_pct_command(rest, payload, inv, 1)
        } else if verb == "ac_charge_rate"@ {
            spec_pct_command(rest, payload, inv, 2)
        } else if verb == "ac_charge_soc_limit"@ {
            spec_pct_command(rest, payload, inv, 3)
        } else if verb == "discharge_cutoff_soc_limit"@ {
            spec_pct_command(rest, payload, inv, 4)
        } else if verb == "read_ac_charge_time"@ {
            spec_read_time_command(rest, inv, 0)
        } else if verb == "read_ac_first_time"@ {
            spec_read_time_command(rest, inv, 1)
        } else if verb == "read_charge_priority_time"@ {
            spec_read_time_command(rest, inv, 2)
        } else if verb == "read_forced_discharge_time"@ {
            spec_read_time_command(rest, inv, 3)
        } else if verb == "set_ac_charge_time"@ {
            spec_set_time_command(rest, payload, inv, 0)
        } else if verb == "set_ac_first_time"@ {
            spec_set_time_command(rest, payload, inv, 1)
        } else if verb == "set_charge_priority_time"@ {
            spec_set_time_command(rest, payload, inv, 2)
        } else if verb == "set_forced_discharge_time"@ {
            spec_set_time_command(rest, payload, inv, 3)
        } else {
            Err(Error::BadCommand)
        }
    }
}

/// An on/off payload: `1` switches on, `0` switches off.
pub open spec fn spec_payload_on(payload: Seq<char>) -> bool {
    payload == "1"@
}

/// Whether an on/off payload is well-formed.
pub open spec fn spec_payload_bool_ok(payload: Seq<char>) -> bool {
    payload == "0"@ || payload == "1"@
}

/// A verb with no argument and an on/off payload.
pub open spec fn spec_bool_command(
    rest: Seq<Seq<char>>,
    payload: Seq<char>,
    cmd: Command,
) -> Result<Command, Error> {
    if rest.len() == 1 && spec_payload_bool_ok(payload) {
        Ok(cmd)
    } else {
        Err(Error::BadCommand)
    }
}

/// A verb with no argument and a percentage payload. `which` selects the
/// register the command writes.
pub open spec fn spec_pct_command(
    rest: Seq<Seq<char>>,
    payload: Seq<char>,
    inv: config::Inverter,
    which: int,
) -> Result<Command, Error> {
    if rest.len() == 1 {
        match spec_parse_num(payload) {
            Some(pct) => Ok(
                if which == 0 {
                    Command::ChargeRate(inv, pct)
                } else if which == 1 {
                    Command::DischargeRate(inv, pct)
                } else if which == 2 {
                    Command::AcChargeRate(inv, pct)
                } else if which == 3 {
                    Command::AcChargeSocLimit(inv, pct)
                } else {
                    Command::DischargeCutoffSocLimit(inv, pct)
                },
            ),
            None => Err(Error::BadCommand),
        }
    } else {
        Err(Error::BadCommand)
    }
}

/// A time-register read: the argument is the slot number, one to three.
pub open spec fn spec_read_time_command(
    rest: Seq<Seq<char>>,
    inv: config::Inverter,
    which: int,
) -> Result<Command, Error> {
    if rest.len() == 2 {
        match spec_parse_num(rest[1]) {
            Some(n) => if 1 <= n <= 3 {
                Ok(
                    if which == 0 {
                        Command::ReadAcChargeTime(inv, n)
                    } else if which == 1 {
                        Command::ReadAcFirstTime(inv, n)
                    } else if which == 2 {
                        Command::ReadChargePriorityTime(inv, n)
                    } else {
                        Command::ReadForcedDischargeTime(inv, n)
                    },
                )
            } else {
                Err(Error::BadCommand)
            },
            None => Err(Error::BadCommand),
        }
    } else {
        Err(Error::BadCommand)
    }
}

/// A time-register write: the argument is the slot number, the payload the
/// `HH:MM-HH:MM` range.
pub open spec fn spec_set_time_command(
    rest: Seq<Seq<char>>,
    payload: Seq<char>,
    inv: config::Inverter,
    which: int,
) -> Result<Command, Error> {
    if rest.len() == 2 {
        match spec_parse_num(rest[1]) {
            Some(n) => if 1 <= n <= 3 {
                match spec_parse_time(payload) {
                    Some(q) => Ok(
                        if which == 0 {
                            Command::SetAcChargeTime(inv, n, q)
                        } else if which == 1 {
                            Command::SetAcFirstTime(inv, n, q)
                        } else if which == 2 {
                            Command::SetChargePriorityTime(inv, n, q)
                        } else {
                            Command::SetForcedDischargeTime(inv, n, q)
                        },
                    ),
                    None => Err(Error::BadTime),
                }
            } else {
                Err(Error::BadCommand)
            },
            None => Err(Error::BadCommand),
        }
    } else {
        Err(Error::BadCommand)
    }
}

impl PartialEq for Message {
    fn eq(&self, other: &Message) -> (r: bool) {
        self.topic == other.topic && self.payload == other.payload && self.retain == other.retain
    }
}

impl vstd::std_specs::cmp::PartialEqSpecImpl for Message {
    open spec fn obeys_eq_spec() -> bool {
        true
    }

    open spec fn eq_spec(&self, other: &Message) -> bool {
        self.topic@ == other.topic@ && self.payload@ == other.payload@ && self.retain
            == other.retain
    }
}

impl Eq for Message {

}

/// What travels on the MQTT channels.
#[derive(Clone, Debug)]
pub enum ChannelData {
    Shutdown,
    Message(Message),
}

/// The addressee of a command topic: every enabled inverter, or the one
/// with the given datalog serial.
#[derive(Clone, Debug)]
pub enum TargetInverter {
    All,
    Serial(crate::serial::Serial),
}

} // verus!
