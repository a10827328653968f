use vstd::prelude::*;

use crate::error::Error;
use crate::packet::{
    DeviceFunction, Heartbeat, MAX_PARAM_VALUES, MAX_TRANSLATED_VALUES, Packet, PacketModel,
    ReadParam, TranslatedData, WriteParam, model_datalog, spec_function_code,
    spec_function_from_code, spec_word, wf_model,
};
use crate::serial::Serial;

verus! {

// ---------------------------------------------------------------------------
// Wire constants
// ---------------------------------------------------------------------------
/// First preamble byte of every frame.
pub const PREFIX_0: u8 = 161;

/// Second preamble byte of every frame.
pub const PREFIX_1: u8 = 26;

/// The protocol revision this codec speaks.
pub const PROTOCOL: u16 = 1;

/// Frame type codes.
pub const TCP_HEARTBEAT: u8 = 193;

pub const TCP_TRANSLATED_DATA: u8 = 194;

pub const TCP_READ_PARAM: u8 = 195;

pub const TCP_WRITE_PARAM: u8 = 196;

// ---------------------------------------------------------------------------
// CRC-16 over the data frame
// ---------------------------------------------------------------------------
/// One shift step of the CRC-16 register.
pub open spec fn crc_shift(c: u16) -> u16 {
    if c % 2 == 1 {
        ((c / 2) ^ 0xA001) as u16
    } else {
        (c / 2) as u16
    }
}

/// `k` shift steps of the CRC-16 register.
pub open spec fn crc_shifts(c: u16, k: nat) -> u16
    decreases k,
{
    if k == 0 {
        c
    } else {
        crc_shift(crc_shifts(c, (k - 1) as nat))
    }
}

/// Folding one byte into the CRC-16 register.
pub open spec fn crc_byte(c: u16, b: u8) -> u16 {
    crc_shifts((c ^ b as u16) as u16, 8)
}

/// The CRC-16 register after the first `i` bytes of `s`, from the initial
/// value 0xFFFF.
pub open spec fn spec_crc_upto(s: Seq<u8>, i: int) -> u16
    decreases i,
{
    if i <= 0 {
        0xFFFF
    } else {
        crc_byte(spec_crc_upto(s, i - 1), s[i - 1])
    }
}

/// The CRC-16 checksum of `s`.
pub open spec fn spec_crc16(s: Seq<u8>) -> u16 {
    spec_crc_upto(s, s.len() as int)
}

/// Compute the CRC-16 checksum of `data`.
pub fn crc16(data: &[u8]) -> (r: u16)
    ensures
        r == spec_crc16(data@),
{
    let mut crc: u16 = 0xFFFF;
    let mut i: usize = 0;
    while i < data.len()
        invariant
            i <= data@.len(),
            crc == spec_crc_upto(data@, i as int),
        decreases data@.len() - i,
    {
        crc = crc ^ (data[i] as u16);
        let ghost c0 = crc;
        let mut k: usize = 0;
        while k < 8
            invariant
                k <= 8,
                crc == crc_shifts(c0, k as nat),
            decreases 8 - k,
        {
            if crc % 2 == 1 {
                crc = (crc / 2) ^ 0xA001;
            } else {
                crc = crc / 2;
            }
            k += 1;
        }
        i += 1;
        proof {
            assert(crc == spec_crc_upto(data@, i as int));
        }
    }
    crc
}

// ---------------------------------------------------------------------------
// The encoding as a sequence of bytes
// ---------------------------------------------------------------------------
/// A sixteen-bit word as a little-endian byte pair.
pub open spec fn spec_u16_le(x: u16) -> Seq<u8> {
    seq![(x % 256) as u8, (x / 256) as u8]
}

pub proof fn lemma_u16_le_word(x: u16)
    ensures
        spec_word(spec_u16_le(x)[0], spec_u16_le(x)[1]) == x,
{
}

/// The frame type code of a packet.
pub open spec fn spec_tcp_code(p: PacketModel) -> u8 {
    match p {
        PacketModel::Heartbeat { .. } => TCP_HEARTBEAT,
        PacketModel::TranslatedData { .. } => TCP_TRANSLATED_DATA,
        PacketModel::ReadParam { .. } => TCP_READ_PARAM,
        PacketModel::WriteParam { .. } => TCP_WRITE_PARAM,
    }
}

/// The data frame of a TranslatedData packet: device function, inverter
/// serial, register, payload length, payload. The trailing CRC protects
/// these bytes.
pub open spec fn spec_data_frame(
    device_function: DeviceFunction,
    inverter: Seq<u8>,
    register: u16,
    values: Seq<u8>,
) -> Seq<u8> {
    seq![spec_function_code(device_function)] + inverter + spec_u16_le(register) + spec_u16_le(
        values.len() as u16,
    ) + values
}

/// Everything that follows the datalog serial.
pub open spec fn spec_body(p: PacketModel) -> Seq<u8> {
    match p {
        PacketModel::Heartbeat { .. } => Seq::<u8>::empty(),
        PacketModel::TranslatedData { device_function, inverter, register, values, .. } => {
            let df = spec_data_frame(device_function, inverter, register, values);
            spec_u16_le(df.len() as u16) + df + spec_u16_le(spec_crc16(df))
        },
        PacketModel::ReadParam { register, values, .. } => spec_u16_le(register) + spec_u16_le(
            values.len() as u16,
        ) + values,
        PacketModel::WriteParam { register, values, .. } => spec_u16_le(register) + spec_u16_le(
            values.len() as u16,
        ) + values,
    }
}

/// Whether the payload fits the frame's length fields.
pub open spec fn model_len_ok(p: PacketModel) -> bool {
    match p {
        PacketModel::Heartbeat { .. } => true,
        PacketModel::TranslatedData { values, .. } => values.len() <= MAX_TRANSLATED_VALUES,
        PacketModel::ReadParam { values, .. } => values.len() <= MAX_PARAM_VALUES,
        PacketModel::WriteParam { values, .. } => values.len() <= MAX_PARAM_VALUES,
    }
}

/// The canonical on-wire bytes of a packet: preamble, protocol, frame
/// length, a fixed address byte, the frame type, the datalog serial, and
/// the variant's body.
pub open spec fn spec_encode(p: PacketModel) -> Seq<u8> {
    seq![PREFIX_0, PREFIX_1] + spec_u16_le(PROTOCOL) + spec_u16_le(
        (12 + spec_body(p).len()) as u16,
    ) + seq![1u8, spec_tcp_code(p)] + model_datalog(p) + spec_body(p)
}

/// The serial fields of the model are ten bytes long, as they are in every
/// packet built from `Serial` values.
pub open spec fn model_serials_ok(p: PacketModel) -> bool {
    match p {
        PacketModel::Heartbeat { datalog } => datalog.len() == 10,
        PacketModel::TranslatedData { datalog, inverter, .. } => datalog.len() == 10
            && inverter.len() == 10,
        PacketModel::ReadParam { datalog, .. } => datalog.len() == 10,
        PacketModel::WriteParam { datalog, .. } => datalog.len() == 10,
    }
}

/// The body of a packet whose payload fits is at most 65523 bytes, so the
/// frame length field fits sixteen bits.
pub proof fn lemma_body_len(p: PacketModel)
    requires
        model_len_ok(p),
        model_serials_ok(p),
    ensures
        spec_body(p).len() <= 65523,
        match p {
            PacketModel::Heartbeat { .. } => spec_body(p).len() == 0,
            PacketModel::TranslatedData { values, .. } => spec_body(p).len() == 19 + values.len(),
            PacketModel::ReadParam { values, .. } => spec_body(p).len() == 4 + values.len(),
            PacketModel::WriteParam { values, .. } => spec_body(p).len() == 4 + values.len(),
        },
{
    match p {
        PacketModel::Heartbeat { .. } => {
            assert(spec_body(p).len() == 0);
        },
        PacketModel::TranslatedData { device_function, inverter, register, values, .. } => {
            let df = spec_data_frame(device_function, inverter, register, values);
            assert(df.len() == 15 + values.len());
            assert(spec_body(p).len() == 19 + values.len());
        },
        PacketModel::ReadParam { values, .. } => {
            assert(spec_body(p).len() == 4 + values.len());
        },
        PacketModel::WriteParam { values, .. } => {
            assert(spec_body(p).len() == 4 + values.len());
        },
    }
}

// ---------------------------------------------------------------------------
// Encoding
// ---------------------------------------------------------------------------
/// Append the little-endian byte pair of `x`.
fn push_u16_le(buf: &mut Vec<u8>, x: u16)
    ensures
        final(buf)@ == old(buf)@ + spec_u16_le(x),
{
    buf.push((x % 256) as u8);
    buf.push((x / 256) as u8);
    proof {
        assert(buf@ =~= old(buf)@ + spec_u16_le(x));
    }
}

/// Append the ten bytes of a serial.
fn push_serial(buf: &mut Vec<u8>, s: &Serial)
    ensures
        final(buf)@ == old(buf)@ + s@,
{
    let bytes = s.bytes();
    buf.extend_from_slice(bytes.as_slice());
    proof {
        assert(buf@ =~= old(buf)@ + s@);
    }
}

/// Encode a packet onto the wire. Fails only when `values` is too long for
/// the frame's length fields.
pub fn encode(p: &Packet) -> (r: Result<Vec<u8>, Error>)
    ensures
        match r {
            Ok(v) => model_len_ok(p@) && v@ == spec_encode(p@),
            Err(e) => e == Error::PayloadTooLong && !model_len_ok(p@),
        },
{
    let body = match p {
        Packet::Heartbeat(_) => Vec::new(),
        Packet::TranslatedData(td) => {
            if td.values.len() > MAX_TRANSLATED_VALUES {
                return Err(Error::PayloadTooLong);
            }
            let mut df: Vec<u8> = Vec::new();
            df.push(td.device_function.code());
            push_serial(&mut df, &td.inverter);
            push_u16_le(&mut df, td.register);
            push_u16_le(&mut df, td.values.len() as u16);
            df.extend_from_slice(td.values.as_slice());
            proof {
                assert(df@ =~= spec_data_frame(
                    td.device_function,
                    td.inverter@,
                    td.register,
                    td.values@,
                ));
            }
            let crc = crc16(df.as_slice());
            let mut body: Vec<u8> = Vec::new();
            push_u16_le(&mut body, df.len() as u16);
            body.append(&mut df);
            push_u16_le(&mut body, crc);
            proof {
                assert(body@ =~= spec_body(p@));
            }
            body
        },
        Packet::ReadParam(rp) => {
            if rp.values.len() > MAX_PARAM_VALUES {
                return Err(Error::PayloadTooLong);
            }
            let mut body: Vec<u8> = Vec::new();
            push_u16_le(&mut body, rp.register);
            push_u16_le(&mut body, rp.values.len() as u16);
            body.extend_from_slice(rp.values.as_slice());
            proof {
                assert(body@ =~= spec_body(p@));
            }
            body
        },
        Packet::WriteParam(wp) => {
            if wp.values.len() > MAX_PARAM_VALUES {
                return Err(Error::PayloadTooLong);
            }
            let mut body: Vec<u8> = Vec::new();
            push_u16_le(&mut body, wp.register);
            push_u16_le(&mut body, wp.values.len() as u16);
            body.extend_from_slice(wp.values.as_slice());
            proof {
                assert(body@ =~= spec_body(p@));
            }
            body
        },
    };
    proof {
        assert(spec_body(p@) =~= body@);
        broadcast use crate::serial::lemma_serial_len;

        assert(model_len_ok(p@));
        assert(model_serials_ok(p@));
        lemma_body_len(p@);
    }
    let tcp_code = match p {
        Packet::Heartbeat(_) => TCP_HEARTBEAT,
        Packet::TranslatedData(_) => TCP_TRANSLATED_DATA,
        Packet::ReadParam(_) => TCP_READ_PARAM,
        Packet::WriteParam(_) => TCP_WRITE_PARAM,
    };
    let datalog = p.datalog();
    let mut out: Vec<u8> = Vec::new();
    out.push(PREFIX_0);
    out.push(PREFIX_1);
    push_u16_le(&mut out, PROTOCOL);
    push_u16_le(&mut out, 12 + body.len() as u16);
    out.push(1);
    out.push(tcp_code);
    push_serial(&mut out, &datalog);
    let mut body = body;
    out.append(&mut body);
    proof {
        assert(out@ =~= spec_encode(p@));
    }
    Ok(out)
}

// ---------------------------------------------------------------------------
// Decoding
// ---------------------------------------------------------------------------
/// The outcome of one decoding attempt on a byte buffer.
#[derive(Debug)]
pub enum DecodeResult {
    /// A whole frame stood at the front of the buffer: the packet and the
    /// number of bytes it occupied.
    Decoded(Packet, usize),
    /// The buffer holds a proper prefix of a frame; wait for more bytes.
    Incomplete,
    /// The buffer front is not a frame; the connection should be dropped.
    Invalid,
}

/// The model of a decoding outcome.
#[verifier::ext_equal]
pub enum DecodeModel {
    Decoded(PacketModel, int),
    Incomplete,
    Invalid,
}

/// Decoding a TranslatedData body: payload length, data frame, checksum.
pub open spec fn spec_decode_translated(datalog: Seq<u8>, body: Seq<u8>, n: int) -> DecodeModel {
    if body.len() < 4 {
        DecodeModel::Invalid
    } else {
        let dlen = spec_word(body[0], body[1]) as int;
        if body.len() != 4 + dlen || dlen < 15 {
            DecodeModel::Invalid
        } else {
            let df = body.subrange(2, 2 + dlen);
            let crc = spec_word(body[2 + dlen], body[3 + dlen]);
            if crc != spec_crc16(df) {
                DecodeModel::Invalid
            } else {
                match spec_function_from_code(df[0]) {
                    Option::None => DecodeModel::Invalid,
                    Option::Some(device_function) => {
                        let inverter = df.subrange(1, 11);
                        let register = spec_word(df[11], df[12]);
                        let vlen = spec_word(df[13], df[14]) as int;
                        if dlen != 15 + vlen {
                            DecodeModel::Invalid
                        } else {
                            let values = df.subrange(15, 15 + vlen);
                            if vlen % 2 == 0 && register + vlen / 2 <= 0x10000 {
                                DecodeModel::Decoded(
                                    PacketModel::TranslatedData {
                                        datalog,
                                        device_function,
                                        inverter,
                                        register,
                                        values,
                                    },
                                    n,
                                )
                            } else {
                                DecodeModel::Invalid
                            }
                        }
                    },
                }
            }
        }
    }
}

/// Decoding a parameter body: register, payload length, payload.
pub open spec fn spec_decode_param(
    write: bool,
    datalog: Seq<u8>,
    body: Seq<u8>,
    n: int,
) -> DecodeModel {
    if body.len() < 4 {
        DecodeModel::Invalid
    } else {
        let register = spec_word(body[0], body[1]);
        let vlen = spec_word(body[2], body[3]) as int;
        if body.len() != 4 + vlen {
            DecodeModel::Invalid
        } else {
            let values = body.subrange(4, 4 + vlen);
            if write {
                DecodeModel::Decoded(PacketModel::WriteParam { datalog, register, values }, n)
            } else {
                DecodeModel::Decoded(PacketModel::ReadParam { datalog, register, values }, n)
            }
        }
    }
}

/// What decoding finds at the front of a byte sequence. A decoded packet
/// always occupies exactly the canonical encoding of itself, so a valid
/// prefix followed by garbage yields the packet now and `Invalid` on the
/// next call.
pub open spec fn spec_decode(b: Seq<u8>) -> DecodeModel {
    if b.len() < 6 {
        DecodeModel::Incomplete
    } else if !(b[0] == PREFIX_0 && b[1] == PREFIX_1 && spec_word(b[2], b[3]) == PROTOCOL) {
        DecodeModel::Invalid
    } else {
        let flen = spec_word(b[4], b[5]) as int;
        if b.len() < 6 + flen {
            DecodeModel::Incomplete
        } else if flen < 12 || b[6] != 1 {
            DecodeModel::Invalid
        } else {
            let datalog = b.subrange(8, 18);
            let body = b.subrange(18, 6 + flen);
            let n = 6 + flen;
            if b[7] == TCP_HEARTBEAT {
                if flen == 12 {
                    DecodeModel::Decoded(PacketModel::Heartbeat { datalog }, n)
                } else {
                    DecodeModel::Invalid
                }
            } else if b[7] == TCP_TRANSLATED_DATA {
                spec_decode_translated(datalog, body, n)
            } else if b[7] == TCP_READ_PARAM {
                spec_decode_param(false, datalog, body, n)
            } else if b[7] == TCP_WRITE_PARAM {
                spec_decode_param(true, datalog, body, n)
            } else {
                DecodeModel::Invalid
            }
        }
    }
}

/// Read the little-endian word at `s[i]`, `s[i + 1]`.
fn word_at(s: &[u8], i: usize) -> (r: u16)
    requires
        i + 1 < s@.len(),
    ensures
        r == spec_word(s@[i as int], s@[i as int + 1]),
{
    s[i] as u16 + 256 * (s[i + 1] as u16)
}

/// Decode the frame at the front of `buf`, if one is complete.
pub fn decode(buf: &Vec<u8>) -> (r: DecodeResult)
    ensures
        match r {
            DecodeResult::Decoded(p, n) => spec_decode(buf@) == DecodeModel::Decoded(
                p@,
                n as int,
            ),
            DecodeResult::Incomplete => spec_decode(buf@) == DecodeModel::Incomplete,
            DecodeResult::Invalid => spec_decode(buf@) == DecodeModel::Invalid,
        },
{
    let b = buf.as_slice();
    if b.len() < 6 {
        return DecodeResult::Incomplete;
    }
    if !(b[0] == PREFIX_0 && b[1] == PREFIX_1 && word_at(b, 2) == PROTOCOL) {
        return DecodeResult::Invalid;
    }
    let flen = word_at(b, 4) as usize;
    if b.len() < 6 + flen {
        return DecodeResult::Incomplete;
    }
    if flen < 12 || b[6] != 1 {
        return DecodeResult::Invalid;
    }
    let datalog = Serial::from_slice(&b[8..18]);
    let body: &[u8] = &b[18..6 + flen];
    let n = 6 + flen;
    proof {
        assert(datalog@ =~= buf@.subrange(8, 18));
        assert(body@ =~= buf@.subrange(18, 6 + flen as int));
    }
    if b[7] == TCP_HEARTBEAT {
        if flen == 12 {
            DecodeResult::Decoded(Packet::Heartbeat(Heartbeat { datalog }), n)
        } else {
            DecodeResult::Invalid
        }
    } else if b[7] == TCP_TRANSLATED_DATA {
        decode_translated(datalog, body, n)
    } else if b[7] == TCP_READ_PARAM {
        decode_param(false, datalog, body, n)
    } else if b[7] == TCP_WRITE_PARAM {
        decode_param(true, datalog, body, n)
    } else {
        DecodeResult::Invalid
    }
}

/// Decode a TranslatedData body.
fn decode_translated(datalog: Serial, body: &[u8], n: usize) -> (r: DecodeResult)
    ensures
        match r {
            DecodeResult::Decoded(p, m) => spec_decode_translated(datalog@, body@, n as int)
                == DecodeModel::Decoded(p@, m as int) && m == n,
            DecodeResult::Incomplete => false,
            DecodeResult::Invalid => spec_decode_translated(datalog@, body@, n as int)
                == DecodeModel::Invalid,
        },
{
    if body.len() < 4 {
        return DecodeResult::Invalid;
    }
    let dlen = word_at(body, 0) as usize;
    if body.len() != 4 + dlen || dlen < 15 {
        return DecodeResult::Invalid;
    }
    let df: &[u8] = &body[2..2 + dlen];
    proof {
        assert(df@ =~= body@.subrange(2, 2 + dlen as int));
    }
    let crc = word_at(body, 2 + dlen);
    if crc != crc16(df) {
        return DecodeResult::Invalid;
    }
    let device_function = match DeviceFunction::from_code(df[0]) {
        Option::None => { return DecodeResult::Invalid },
        Option::Some(f) => f,
    };
    let inverter = Serial::from_slice(&df[1..11]);
    proof {
        assert(inverter@ =~= df@.subrange(1, 11));
    }
    let register = word_at(df, 11);
    let vlen = word_at(df, 13) as usize;
    if dlen != 15 + vlen {
        return DecodeResult::Invalid;
    }
    let values_slice: &[u8] = &df[15..15 + vlen];
    proof {
        assert(values_slice@ =~= df@.subrange(15, 15 + vlen as int));
    }
    if vlen % 2 == 0 && register as usize + vlen / 2 <= 0x10000 {
        let values = vstd::slice::slice_to_vec(values_slice);
        DecodeResult::Decoded(
            Packet::TranslatedData(
                TranslatedData { datalog, device_function, inverter, register, values },
            ),
            n,
        )
    } else {
        DecodeResult::Invalid
    }
}

/// Decode a parameter body.
fn decode_param(write: bool, datalog: Serial, body: &[u8], n: usize) -> (r: DecodeResult)
    ensures
        match r {
            DecodeResult::Decoded(p, m) => spec_decode_param(write, datalog@, body@, n as int)
                == DecodeModel::Decoded(p@, m as int) && m == n,
            DecodeResult::Incomplete => false,
            DecodeResult::Invalid => spec_decode_param(write, datalog@, body@, n as int)
                == DecodeModel::Invalid,
        },
{
    if body.len() < 4 {
        return DecodeResult::Invalid;
    }
    let register = word_at(body, 0);
    let vlen = word_at(body, 2) as usize;
    if body.len() != 4 + vlen {
        return DecodeResult::Invalid;
    }
    let values_slice: &[u8] = &body[4..4 + vlen];
    proof {
        assert(values_slice@ =~= body@.subrange(4, 4 + vlen as int));
    }
    let values = vstd::slice::slice_to_vec(values_slice);
    if write {
        DecodeResult::Decoded(Packet::WriteParam(WriteParam { datalog, register, values }), n)
    } else {
        DecodeResult::Decoded(Packet::ReadParam(ReadParam { datalog, register, values }), n)
    }
}

/// Every decoded packet is well-formed: the decoder checks the length,
/// parity and range conditions before accepting a frame.
pub proof fn lemma_decoded_wf(b: Seq<u8>, p: PacketModel, n: int)
    requires
        spec_decode(b) == DecodeModel::Decoded(p, n),
    ensures
        wf_model(p),
        model_serials_ok(p),
{
    let flen = spec_word(b[4], b[5]) as int;
    let datalog = b.subrange(8, 18);
    let body = b.subrange(18, 6 + flen);
    assert(datalog.len() == 10);
    if b[7] == TCP_TRANSLATED_DATA {
        let dlen = spec_word(body[0], body[1]) as int;
        let df = body.subrange(2, 2 + dlen);
        let vlen = spec_word(df[13], df[14]) as int;
        assert(body.len() == flen - 12);
        assert(flen <= 65535);
        assert(body.len() == 4 + dlen);
        assert(dlen == 15 + vlen);
        assert(vlen <= MAX_TRANSLATED_VALUES);
        assert(df.subrange(1, 11).len() == 10);
        assert(df.subrange(15, 15 + vlen).len() == vlen);
    } else if b[7] == TCP_READ_PARAM || b[7] == TCP_WRITE_PARAM {
        let vlen = spec_word(body[2], body[3]) as int;
        assert(body.len() == flen - 12);
        assert(body.len() == 4 + vlen);
        assert(vlen <= MAX_PARAM_VALUES);
    }
}

/// Looking up the code of a device function gives that function back.
pub proof fn lemma_function_code_round_trip(f: DeviceFunction)
    ensures
        spec_function_from_code(spec_function_code(f)) == Some(f),
{
    match f {
        DeviceFunction::ReadHold => {},
        DeviceFunction::ReadInput => {},
        DeviceFunction::WriteSingle => {},
        DeviceFunction::WriteMulti => {},
    }
}

/// Round-trip law of the frame codec: decoding the canonical encoding of any
/// well-formed packet yields that packet and consumes exactly its length.
pub proof fn lemma_codec_round_trip(p: PacketModel)
    requires
        wf_model(p),
        model_serials_ok(p),
    ensures
        spec_decode(spec_encode(p)) == DecodeModel::Decoded(p, spec_encode(p).len() as int),
{
    let b = spec_encode(p);
    let body = spec_body(p);
    lemma_body_len(p);
    assert(model_len_ok(p));
    let flen16 = (12 + body.len()) as u16;
    assert(flen16 == 12 + body.len());
    assert(b.len() == 18 + body.len());
    assert(b[0] == PREFIX_0);
    assert(b[1] == PREFIX_1);
    assert(b[2] == spec_u16_le(PROTOCOL)[0]);
    assert(b[3] == spec_u16_le(PROTOCOL)[1]);
    lemma_u16_le_word(PROTOCOL);
    assert(spec_word(b[2], b[3]) == PROTOCOL);
    assert(b[4] == spec_u16_le(flen16)[0]);
    assert(b[5] == spec_u16_le(flen16)[1]);
    lemma_u16_le_word(flen16);
    assert(spec_word(b[4], b[5]) == flen16);
    let flen = flen16 as int;
    assert(b.len() == 6 + flen);
    assert(b[6] == 1u8);
    assert(b[7] == spec_tcp_code(p));
    assert(b.subrange(8, 18) =~= model_datalog(p));
    assert(b.subrange(18, 6 + flen) =~= body);
    let n = 6 + flen;
    match p {
        PacketModel::Heartbeat { datalog } => {
            assert(flen == 12);
            assert(PacketModel::Heartbeat { datalog: b.subrange(8, 18) } =~= p);
        },
        PacketModel::TranslatedData { datalog, device_function, inverter, register, values } => {
            let df = spec_data_frame(device_function, inverter, register, values);
            assert(df.len() == 15 + values.len());
            assert(body =~= spec_u16_le(df.len() as u16) + df + spec_u16_le(spec_crc16(df)));
            let dlen16 = df.len() as u16;
            assert(dlen16 == df.len());
            assert(body[0] == spec_u16_le(dlen16)[0]);
            assert(body[1] == spec_u16_le(dlen16)[1]);
            lemma_u16_le_word(dlen16);
            assert(spec_word(body[0], body[1]) == df.len());
            let dlen = df.len() as int;
            assert(body.len() == 4 + dlen);
            assert(body.subrange(2, 2 + dlen) =~= df);
            assert(body[2 + dlen] == spec_u16_le(spec_crc16(df))[0]);
            assert(body[3 + dlen] == spec_u16_le(spec_crc16(df))[1]);
            lemma_u16_le_word(spec_crc16(df));
            assert(spec_word(body[2 + dlen], body[3 + dlen]) == spec_crc16(df));
            assert(df[0] == spec_function_code(device_function));
            lemma_function_code_round_trip(device_function);
            assert(df.subrange(1, 11) =~= inverter);
            assert(df[11] == spec_u16_le(register)[0]);
            assert(df[12] == spec_u16_le(register)[1]);
            lemma_u16_le_word(register);
            assert(spec_word(df[11], df[12]) == register);
            let vlen16 = values.len() as u16;
            assert(vlen16 == values.len());
            assert(df[13] == spec_u16_le(vlen16)[0]);
            assert(df[14] == spec_u16_le(vlen16)[1]);
            lemma_u16_le_word(vlen16);
            assert(spec_word(df[13], df[14]) == values.len());
            let vlen = values.len() as int;
            assert(dlen == 15 + vlen);
            assert(df.subrange(15, 15 + vlen) =~= values);
            assert(vlen % 2 == 0 && register + vlen / 2 <= 0x10000);
            assert(PacketModel::TranslatedData {
                datalog: b.subrange(8, 18),
                device_function,
                inverter: df.subrange(1, 11),
                register,
                values: df.subrange(15, 15 + vlen),
            } =~= p);
            assert(spec_decode_translated(b.subrange(8, 18), b.subrange(18, 6 + flen), n)
                == DecodeModel::Decoded(p, n));
        },
        PacketModel::ReadParam { datalog, register, values } => {
            lemma_param_body(false, p, register, values, n);
        },
        PacketModel::WriteParam { datalog, register, values } => {
            lemma_param_body(true, p, register, values, n);
        },
    }
}

/// The body of a parameter packet decodes back to its fields.
proof fn lemma_param_body(write: bool, p: PacketModel, register: u16, values: Seq<u8>, n: int)
    requires
        wf_model(p),
        model_serials_ok(p),
        if write {
            p == (PacketModel::WriteParam { datalog: model_datalog(p), register, values })
        } else {
            p == (PacketModel::ReadParam { datalog: model_datalog(p), register, values })
        },
    ensures
        spec_decode_param(write, model_datalog(p), spec_body(p), n) == DecodeModel::Decoded(p, n),
{
    let body = spec_body(p);
    assert(body =~= spec_u16_le(register) + spec_u16_le(values.len() as u16) + values);
    lemma_u16_le_word(register);
    assert(body[0] == spec_u16_le(register)[0]);
    assert(body[1] == spec_u16_le(register)[1]);
    assert(spec_word(body[0], body[1]) == register);
    let vlen16 = values.len() as u16;
    assert(vlen16 == values.len());
    assert(body[2] == spec_u16_le(vlen16)[0]);
    assert(body[3] == spec_u16_le(vlen16)[1]);
    lemma_u16_le_word(vlen16);
    assert(spec_word(body[2], body[3]) == values.len());
    assert(body.len() == 4 + values.len());
    assert(body.subrange(4, 4 + values.len() as int) =~= values);
    if write {
        assert(PacketModel::WriteParam {
            datalog: model_datalog(p),
            register,
            values: body.subrange(4, 4 + values.len() as int),
        } =~= p);
    } else {
        assert(PacketModel::ReadParam {
            datalog: model_datalog(p),
            register,
            values: body.subrange(4, 4 + values.len() as int),
        } =~= p);
    }
}

} // verus!

