use vstd::prelude::*;

use crate::serial::Serial;

verus! {

/// The Modbus-style operation carried inside a `TranslatedData` frame.
#[derive(Clone, Copy, Debug, PartialEq, Eq, Structural)]
pub enum DeviceFunction {
    ReadHold,
    ReadInput,
    WriteSingle,
    WriteMulti,
}

/// The on-wire code of a device function.
pub open spec fn spec_function_code(df: DeviceFunction) -> u8 {
    match df {
        DeviceFunction::ReadHold => 3,
        DeviceFunction::ReadInput => 4,
        DeviceFunction::WriteSingle => 6,
        DeviceFunction::WriteMulti => 16,
    }
}

/// The device function a code names, if any.
pub open spec fn spec_function_from_code(c: u8) -> Option<DeviceFunction> {
    if c == 3 {
        Some(DeviceFunction::ReadHold)
    } else if c == 4 {
        Some(DeviceFunction::ReadInput)
    } else if c == 6 {
        Some(DeviceFunction::WriteSingle)
    } else if c == 16 {
        Some(DeviceFunction::WriteMulti)
    } else {
        None
    }
}

impl DeviceFunction {
    pub fn code(&self) -> (r: u8)
        ensures
            r == spec_function_code(*self),
            spec_function_from_code(r) == Some(*self),
    {
        match self {
            DeviceFunction::ReadHold => 3,
            DeviceFunction::ReadInput => 4,
            DeviceFunction::WriteSingle => 6,
            DeviceFunction::WriteMulti => 16,
        }
    }

    pub fn from_code(c: u8) -> (r: Option<DeviceFunction>)
        ensures
            r == spec_function_from_code(c),
    {
        if c == 3 {
            Some(DeviceFunction::ReadHold)
        } else if c == 4 {
            Some(DeviceFunction::ReadInput)
        } else if c == 6 {
            Some(DeviceFunction::WriteSingle)
        } else if c == 16 {
            Some(DeviceFunction::WriteMulti)
        } else {
            None
        }
    }

    /// Whether a frame of this function writes inverter state.
    pub open spec fn spec_is_write(self) -> bool {
        self == DeviceFunction::WriteSingle || self == DeviceFunction::WriteMulti
    }

    pub fn is_write(&self) -> (r: bool)
        ensures
            r == self.spec_is_write(),
    {
        match self {
            DeviceFunction::WriteSingle => true,
            DeviceFunction::WriteMulti => true,
            _ => false,
        }
    }
}

/// A payload-less keepalive, answered with an echo when heartbeats are
/// enabled.
#[derive(Clone, Debug)]
pub struct Heartbeat {
    pub datalog: Serial,
}

/// The protocol's wrapper frame around register operations; carries both the
/// datalog and the inverter serial.
#[derive(Clone, Debug)]
pub struct TranslatedData {
    pub datalog: Serial,
    pub device_function: DeviceFunction,
    pub inverter: Serial,
    pub register: u16,
    pub values: Vec<u8>,
}

/// A read of a datalog device parameter.
#[derive(Clone, Debug)]
pub struct ReadParam {
    pub datalog: Serial,
    pub register: u16,
    pub values: Vec<u8>,
}

/// A write of a datalog device parameter.
#[derive(Clone, Debug)]
pub struct WriteParam {
    pub datalog: Serial,
    pub register: u16,
    pub values: Vec<u8>,
}

/// One on-wire packet.
#[derive(Clone, Debug)]
pub enum Packet {
    Heartbeat(Heartbeat),
    TranslatedData(TranslatedData),
    ReadParam(ReadParam),
    WriteParam(WriteParam),
}

/// The mathematical model of a packet: the same shape over sequences.
#[verifier::ext_equal]
pub enum PacketModel {
    Heartbeat { datalog: Seq<u8> },
    TranslatedData {
        datalog: Seq<u8>,
        device_function: DeviceFunction,
        inverter: Seq<u8>,
        register: u16,
        values: Seq<u8>,
    },
    ReadParam { datalog: Seq<u8>, register: u16, values: Seq<u8> },
    WriteParam { datalog: Seq<u8>, register: u16, values: Seq<u8> },
}

impl View for Packet {
    type V = PacketModel;

    open spec fn view(&self) -> PacketModel {
        match self {
            Packet::Heartbeat(p) => PacketModel::Heartbeat { datalog: p.datalog@ },
            Packet::TranslatedData(p) => PacketModel::TranslatedData {
                datalog: p.datalog@,
                device_function: p.device_function,
                inverter: p.inverter@,
                register: p.register,
                values: p.values@,
            },
            Packet::ReadParam(p) => PacketModel::ReadParam {
                datalog: p.datalog@,
                register: p.register,
                values: p.values@,
            },
            Packet::WriteParam(p) => PacketModel::WriteParam {
                datalog: p.datalog@,
                register: p.register,
                values: p.values@,
            },
        }
    }
}

/// The longest `values` a TranslatedData frame can carry without overflowing
/// the frame length field.
pub const MAX_TRANSLATED_VALUES: usize = 65504;

/// The longest `values` a parameter frame can carry.
pub const MAX_PARAM_VALUES: usize = 65519;

/// A well-formed packet: ten-byte serials, an even register payload, and a
/// register range that stays within the sixteen-bit register space.
pub open spec fn wf_model(p: PacketModel) -> bool {
    match p {
        PacketModel::Heartbeat { datalog } => datalog.len() == 10,
        PacketModel::TranslatedData { datalog, inverter, register, values, .. } => {
            &&& datalog.len() == 10
            &&& inverter.len() == 10
            &&& values.len() % 2 == 0
            &&& values.len() <= MAX_TRANSLATED_VALUES
            &&& register + values.len() / 2 <= 0x10000
        },
        PacketModel::ReadParam { datalog, values, .. } => {
            &&& datalog.len() == 10
            &&& values.len() <= MAX_PARAM_VALUES
        },
        PacketModel::WriteParam { datalog, values, .. } => {
            &&& datalog.len() == 10
            &&& values.len() <= MAX_PARAM_VALUES
        },
    }
}

/// The datalog serial of a packet model.
pub open spec fn model_datalog(p: PacketModel) -> Seq<u8> {
    match p {
        PacketModel::Heartbeat { datalog } => datalog,
        PacketModel::TranslatedData { datalog, .. } => datalog,
        PacketModel::ReadParam { datalog, .. } => datalog,
        PacketModel::WriteParam { datalog, .. } => datalog,
    }
}

/// Whether an inbound packet answers an outstanding request: the two carry
/// the same fingerprint (variant, datalog, device function where present,
/// register).
pub open spec fn spec_is_reply_to(reply: PacketModel, req: PacketModel) -> bool {
    match (reply, req) {
        (PacketModel::Heartbeat { datalog: d1 }, PacketModel::Heartbeat { datalog: d2 }) => d1
            == d2,
        (
            PacketModel::TranslatedData { datalog: d1, device_function: f1, register: r1, .. },
            PacketModel::TranslatedData { datalog: d2, device_function: f2, register: r2, .. },
        ) => d1 == d2 && f1 == f2 && r1 == r2,
        (
            PacketModel::ReadParam { datalog: d1, register: r1, .. },
            PacketModel::ReadParam { datalog: d2, register: r2, .. },
        ) => d1 == d2 && r1 == r2,
        (
            PacketModel::WriteParam { datalog: d1, register: r1, .. },
            PacketModel::WriteParam { datalog: d2, register: r2, .. },
        ) => d1 == d2 && r1 == r2,
        _ => false,
    }
}

/// The sixteen-bit word spelled by a little-endian byte pair.
pub open spec fn spec_word(lo: u8, hi: u8) -> u16 {
    (lo + 256 * hi) as u16
}

/// The register/value pairs of a register payload: pair `i` holds register
/// `register + i` and the word at bytes `2i`, `2i + 1`.
pub open spec fn spec_pairs(register: u16, values: Seq<u8>) -> Seq<(u16, u16)> {
    Seq::new(
        (values.len() / 2) as nat,
        |i: int| (((register + i) as u16), spec_word(values[2 * i], values[2 * i + 1])),
    )
}

impl Packet {
    /// Well-formedness of the packet's model.
    pub open spec fn wf(&self) -> bool {
        wf_model(self@)
    }

    /// The datalog serial carried in the frame.
    pub fn datalog(&self) -> (r: Serial)
        ensures
            r@ == model_datalog(self@),
    {
        match self {
            Packet::Heartbeat(p) => p.datalog,
            Packet::TranslatedData(p) => p.datalog,
            Packet::ReadParam(p) => p.datalog,
            Packet::WriteParam(p) => p.datalog,
        }
    }

    /// The register a frame addresses; a heartbeat has none and reports zero.
    pub fn register(&self) -> (r: u16)
        ensures
            r == match self@ {
                PacketModel::Heartbeat { .. } => 0u16,
                PacketModel::TranslatedData { register, .. } => register,
                PacketModel::ReadParam { register, .. } => register,
                PacketModel::WriteParam { register, .. } => register,
            },
    {
        match self {
            Packet::Heartbeat(_) => 0,
            Packet::TranslatedData(p) => p.register,
            Packet::ReadParam(p) => p.register,
            Packet::WriteParam(p) => p.register,
        }
    }

    /// The first payload word, little endian; zero where the payload is
    /// shorter than a word.
    pub fn value(&self) -> (r: u16)
        ensures
            r == model_value(self@),
    {
        let values = match self {
            Packet::Heartbeat(_) => return 0,
            Packet::TranslatedData(p) => &p.values,
            Packet::ReadParam(p) => &p.values,
            Packet::WriteParam(p) => &p.values,
        };
        if values.len() >= 2 {
            values[0] as u16 + 256 * (values[1] as u16)
        } else {
            0
        }
    }

    /// Check well-formedness at run time, for callers outside the proof.
    pub fn check_wf(&self) -> (r: bool)
        ensures
            r == self.wf(),
    {
        proof {
            broadcast use crate::serial::lemma_serial_len;

        }
        match self {
            Packet::Heartbeat(_) => true,
            Packet::TranslatedData(p) => p.values.len() % 2 == 0 && p.values.len()
                <= MAX_TRANSLATED_VALUES && (p.register as usize) + p.values.len() / 2 <= 0x10000,
            Packet::ReadParam(p) => p.values.len() <= MAX_PARAM_VALUES,
            Packet::WriteParam(p) => p.values.len() <= MAX_PARAM_VALUES,
        }
    }

    /// The datalog serial value of a TranslatedData frame, for keying the
    /// per-datalog statistics.
    pub open spec fn spec_datalog_serial(&self) -> Serial {
        match self {
            Packet::Heartbeat(p) => p.datalog,
            Packet::TranslatedData(p) => p.datalog,
            Packet::ReadParam(p) => p.datalog,
            Packet::WriteParam(p) => p.datalog,
        }
    }

    /// A short rendering of the packet for the last-message log: its kind,
    /// and the register it addresses where it has one.
    pub fn describe(&self) -> (r: String)
        ensures
            r@.len() > 0,
            r@ == match self@ {
                PacketModel::Heartbeat { .. } => "Heartbeat"@,
                PacketModel::TranslatedData { register, .. } => "TranslatedData register "@
                    + crate::text::chars_of(crate::text::spec_dec(register as nat)),
                PacketModel::ReadParam { register, .. } => "ReadParam register "@
                    + crate::text::chars_of(crate::text::spec_dec(register as nat)),
                PacketModel::WriteParam { register, .. } => "WriteParam register "@
                    + crate::text::chars_of(crate::text::spec_dec(register as nat)),
            },
    {
        proof {
            reveal_strlit("Heartbeat");
            reveal_strlit("TranslatedData register ");
            reveal_strlit("ReadParam register ");
            reveal_strlit("WriteParam register ");
        }
        let mut buf: Vec<u8> = Vec::new();
        let ghost kind: Seq<char> = match self@ {
            PacketModel::Heartbeat { .. } => "Heartbeat"@,
            PacketModel::TranslatedData { .. } => "TranslatedData register "@,
            PacketModel::ReadParam { .. } => "ReadParam register "@,
            PacketModel::WriteParam { .. } => "WriteParam register "@,
        };
        match self {
            Packet::Heartbeat(_) => {
                crate::text::push_ascii_label(&mut buf, "Heartbeat");
            },
            Packet::TranslatedData(p) => {
                crate::text::push_ascii_label(&mut buf, "TranslatedData register ");
                crate::text::push_dec_ascii(&mut buf, p.register);
            },
            Packet::ReadParam(p) => {
                crate::text::push_ascii_label(&mut buf, "ReadParam register ");
                crate::text::push_dec_ascii(&mut buf, p.register);
            },
            Packet::WriteParam(p) => {
                crate::text::push_ascii_label(&mut buf, "WriteParam register ");
                crate::text::push_dec_ascii(&mut buf, p.register);
            },
        }
        let r = crate::text::ascii_bytes_to_string(&buf);
        proof {
            crate::text::lemma_chars_of_map(kind);
            assert(r@ =~= match self@ {
                PacketModel::Heartbeat { .. } => "Heartbeat"@,
                PacketModel::TranslatedData { register, .. } => "TranslatedData register "@
                    + crate::text::chars_of(crate::text::spec_dec(register as nat)),
                PacketModel::ReadParam { register, .. } => "ReadParam register "@
                    + crate::text::chars_of(crate::text::spec_dec(register as nat)),
                PacketModel::WriteParam { register, .. } => "WriteParam register "@
                    + crate::text::chars_of(crate::text::spec_dec(register as nat)),
            });
        }
        r
    }

    /// Whether this packet answers `req` (see `spec_is_reply_to`).
    pub fn is_reply_to(&self, req: &Packet) -> (r: bool)
        ensures
            r == spec_is_reply_to(self@, req@),
    {
        match (self, req) {
            (Packet::Heartbeat(a), Packet::Heartbeat(b)) => a.datalog.eq_serial(&b.datalog),
            (Packet::TranslatedData(a), Packet::TranslatedData(b)) => a.datalog.eq_serial(
                &b.datalog,
            ) && a.device_function == b.device_function && a.register == b.register,
            (Packet::ReadParam(a), Packet::ReadParam(b)) => a.datalog.eq_serial(&b.datalog)
                && a.register == b.register,
            (Packet::WriteParam(a), Packet::WriteParam(b)) => a.datalog.eq_serial(&b.datalog)
                && a.register == b.register,
            _ => false,
        }
    }
}

/// The first payload word of a packet model.
pub open spec fn model_value(p: PacketModel) -> u16 {
    let values = match p {
        PacketModel::Heartbeat { .. } => Seq::<u8>::empty(),
        PacketModel::TranslatedData { values, .. } => values,
        PacketModel::ReadParam { values, .. } => values,
        PacketModel::WriteParam { values, .. } => values,
    };
    if values.len() >= 2 {
        spec_word(values[0], values[1])
    } else {
        0
    }
}

impl TranslatedData {
    /// Well-formedness of the frame's payload.
    pub open spec fn wf(&self) -> bool {
        wf_model(Packet::TranslatedData(*self)@)
    }

    /// The inverter serial embedded in the frame.
    pub fn inverter(&self) -> (r: Serial)
        ensures
            r == self.inverter,
    {
        self.inverter
    }

    pub fn datalog(&self) -> (r: Serial)
        ensures
            r == self.datalog,
    {
        self.datalog
    }

    pub fn register(&self) -> (r: u16)
        ensures
            r == self.register,
    {
        self.register
    }

    /// The first payload word, little endian.
    pub fn value(&self) -> (r: u16)
        ensures
            r == model_value(Packet::TranslatedData(*self)@),
    {
        if self.values.len() >= 2 {
            self.values[0] as u16 + 256 * (self.values[1] as u16)
        } else {
            0
        }
    }

    /// Split the payload into consecutive (register, value) pairs.
    pub fn pairs(&self) -> (r: Vec<(u16, u16)>)
        requires
            self.wf(),
        ensures
            r@ == spec_pairs(self.register, self.values@),
    {
        let mut r: Vec<(u16, u16)> = Vec::new();
        let n = self.values.len() / 2;
        let mut i: usize = 0;
        while i < n
            invariant
                i <= n,
                n == self.values@.len() / 2,
                self.wf(),
                r@.len() == i,
                forall|j: int| 0 <= j < i ==> r@[j] == spec_pairs(self.register, self.values@)[j],
            decreases n - i,
        {
            let reg = self.register + i as u16;
            let value = self.values[2 * i] as u16 + 256 * (self.values[2 * i + 1] as u16);
            r.push((reg, value));
            i += 1;
        }
        proof {
            assert(r@ =~= spec_pairs(self.register, self.values@));
        }
        r
    }
}

/// A fresh copy of a byte vector.
pub fn copy_bytes(v: &Vec<u8>) -> (r: Vec<u8>)
    ensures
        r@ == v@,
{
    let mut r: Vec<u8> = Vec::new();
    let mut i: usize = 0;
    while i < v.len()
        invariant
            i <= v@.len(),
            r@ == v@.subrange(0, i as int),
        decreases v@.len() - i,
    {
        r.push(v[i]);
        i += 1;
        proof {
            assert(r@ =~= v@.subrange(0, i as int));
        }
    }
    proof {
        assert(r@ =~= v@);
    }
    r
}

/// A fresh copy of a pair list.
pub fn copy_pairs(v: &Vec<(u16, u16)>) -> (r: Vec<(u16, u16)>)
    ensures
        r@ == v@,
{
    let mut r: Vec<(u16, u16)> = Vec::new();
    let mut i: usize = 0;
    while i < v.len()
        invariant
            i <= v@.len(),
            r@ == v@.subrange(0, i as int),
        decreases v@.len() - i,
    {
        r.push(v[i]);
        i += 1;
        proof {
            assert(r@ =~= v@.subrange(0, i as int));
        }
    }
    proof {
        assert(r@ =~= v@);
    }
    r
}

impl Packet {
    /// A copy of this packet with the same model.
    pub fn duplicate(&self) -> (r: Packet)
        ensures
            r@ == self@,
    {
        let r = match self {
            Packet::Heartbeat(p) => Packet::Heartbeat(Heartbeat { datalog: p.datalog }),
            Packet::TranslatedData(p) => Packet::TranslatedData(
                TranslatedData {
                    datalog: p.datalog,
                    device_function: p.device_function,
                    inverter: p.inverter,
                    register: p.register,
                    values: copy_bytes(&p.values),
                },
            ),
            Packet::ReadParam(p) => Packet::ReadParam(
                ReadParam { datalog: p.datalog, register: p.register, values: copy_bytes(&p.values) },
            ),
            Packet::WriteParam(p) => Packet::WriteParam(
                WriteParam {
                    datalog: p.datalog,
                    register: p.register,
                    values: copy_bytes(&p.values),
                },
            ),
        };
        proof {
            assert(r@ =~= self@);
        }
        r
    }
}

/// Element-wise equality of two byte vectors.
fn bytes_eq(a: &Vec<u8>, b: &Vec<u8>) -> (r: bool)
    ensures
        r == (a@ == b@),
{
    if a.len() != b.len() {
        return false;
    }
    let mut i: usize = 0;
    while i < a.len()
        invariant
            i <= a@.len(),
            a@.len() == b@.len(),
            forall|j: int| 0 <= j < i ==> a@[j] == b@[j],
        decreases a@.len() - i,
    {
        if a[i] != b[i] {
            return false;
        }
        i += 1;
    }
    proof {
        assert(a@ =~= b@);
    }
    true
}

impl PartialEq for Packet {
    fn eq(&self, other: &Packet) -> (r: bool) {
        let r = match (self, other) {
            (Packet::Heartbeat(a), Packet::Heartbeat(b)) => a.datalog.eq_serial(&b.datalog),
            (Packet::TranslatedData(a), Packet::TranslatedData(b)) => a.datalog.eq_serial(
                &b.datalog,
            ) && a.device_function == b.device_function && a.inverter.eq_serial(&b.inverter)
                && a.register == b.register && bytes_eq(&a.values, &b.values),
            (Packet::ReadParam(a), Packet::ReadParam(b)) => a.datalog.eq_serial(&b.datalog)
                && a.register == b.register && bytes_eq(&a.values, &b.values),
            (Packet::WriteParam(a), Packet::WriteParam(b)) => a.datalog.eq_serial(&b.datalog)
                && a.register == b.register && bytes_eq(&a.values, &b.values),
            _ => false,
        };
        proof {
            if r {
                assert(self@ =~= other@);
            }
        }
        r
    }
}

impl vstd::std_specs::cmp::PartialEqSpecImpl for Packet {
    open spec fn obeys_eq_spec() -> bool {
        true
    }

    open spec fn eq_spec(&self, other: &Packet) -> bool {
        self@ == other@
    }
}

impl Eq for Packet {

}

} // verus!
