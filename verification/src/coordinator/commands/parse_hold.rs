use vstd::prelude::*;

use crate::text::{
    ascii_bytes_to_string, ascii_seq, chars_of, lemma_chars_of_map, push_ascii_label,
    push_dec_ascii, push_pad2, spec_dec,
};

verus! {

/// The registers the decoder has a dedicated rendering for; anything else
/// falls to the unknown-register line.
pub open spec fn spec_known_hold_register(reg: u16) -> bool {
    ||| reg == 0
    ||| (2 <= reg <= 16)
    ||| (19 <= reg <= 100)
    ||| reg == 118
    ||| reg == 119
    ||| (134 <= reg <= 175)
    ||| (180 <= reg <= 192)
}

/// The sixteen binary digits of `v`, highest bit first, after the `0b`
/// prefix.
pub open spec fn spec_bin16(v: u16) -> Seq<u8> {
    seq![48u8, 98u8] + Seq::new(16, |i: int| (48 + ((v >> ((15 - i) as u16)) & 1)) as u8)
}

/// The bytes a bit's name spells: the function-enable names of register 21,
/// or the reset-settings names of register 11.
pub open spec fn spec_bit_name_bytes(features: bool, i: int) -> Seq<u8> {
    let name: Seq<char> = if features {
        if i == 0 {
            "EPS Mode"@
        } else if i == 1 {
            "Over Frequency Load Reduction"@
        } else if i == 2 {
            "DRMS"@
        } else if i == 3 {
            "Low Voltage Ride Through"@
        } else if i == 4 {
            "Anti-islanding"@
        } else if i == 5 {
            "Neutral Detection"@
        } else if i == 6 {
            "Grid-connected Power Soft Start"@
        } else if i == 7 {
            "AC Charge"@
        } else if i == 8 {
            "Off-grid Seamless Switching"@
        } else if i == 9 {
            "Power On (0=Standby)"@
        } else if i == 10 {
            "Forced Discharge"@
        } else if i == 11 {
            "Forced Charge"@
        } else if i == 12 {
            "ISO"@
        } else if i == 13 {
            "GFCI"@
        } else if i == 14 {
            "DCI"@
        } else {
            "Feed In Grid"@
        }
    } else {
        if i == 0 {
            "Energy Record Clear"@
        } else if i == 1 {
            "Reset All to Default"@
        } else if i == 2 {
            "Adjustment Ratio Clear"@
        } else if i == 3 {
            "Fault Record Clear"@
        } else if i == 4 {
            "Monitor Data Clear"@
        } else if i == 5 {
            "BMS Charge Switch On"@
        } else if i == 6 {
            "BMS Discharge Switch On"@
        } else if i == 7 {
            "Inverter Reboot"@
        } else {
            "Reserved"@
        }
    };
    name.map(|k: int, c: char| c as u8)
}

/// The names of the set bits from position `i` on, joined with commas;
/// `any` says whether a name was already written.
pub open spec fn spec_bit_list(v: u16, features: bool, i: int, any: bool) -> Seq<u8>
    decreases 16 - i,
{
    if i < 0 || i >= 16 {
        Seq::empty()
    } else if (v >> (i as u16)) & 1 != 0 {
        (if any {
            ", "@.map(|k: int, c: char| c as u8)
        } else {
            Seq::empty()
        }) + spec_bit_name_bytes(features, i) + spec_bit_list(v, features, i + 1, true)
    } else {
        spec_bit_list(v, features, i + 1, any)
    }
}

/// Append one decimal digit.
fn push_digit(buf: &mut Vec<u8>, d: u16)
    requires
        d < 10,
        ascii_seq(old(buf)@),
    ensures
        ascii_seq(final(buf)@),
        final(buf)@.len() > old(buf)@.len(),
{
    buf.push(48 + d as u8);
    proof {
        assert(ascii_seq(buf@));
    }
}

/// Append `v` scaled by one decimal place, as tenths are written.
fn push_scaled1(buf: &mut Vec<u8>, v: u16)
    requires
        ascii_seq(old(buf)@),
    ensures
        ascii_seq(final(buf)@),
        final(buf)@.len() > old(buf)@.len(),
{
    push_dec_ascii(buf, v / 10);
    push_ascii_label(buf, ".");
    push_digit(buf, v % 10);
}

/// Append `v` scaled by two decimal places.
fn push_scaled2(buf: &mut Vec<u8>, v: u16)
    requires
        ascii_seq(old(buf)@),
    ensures
        ascii_seq(final(buf)@),
        final(buf)@.len() > old(buf)@.len(),
{
    push_dec_ascii(buf, v / 100);
    push_ascii_label(buf, ".");
    push_digit(buf, v % 100 / 10);
    push_digit(buf, v % 10);
}

/// Append `v` scaled by three decimal places.
fn push_scaled3(buf: &mut Vec<u8>, v: u16)
    requires
        ascii_seq(old(buf)@),
    ensures
        ascii_seq(final(buf)@),
        final(buf)@.len() > old(buf)@.len(),
{
    push_dec_ascii(buf, v / 1000);
    push_ascii_label(buf, ".");
    push_digit(buf, v % 1000 / 100);
    push_digit(buf, v % 100 / 10);
    push_digit(buf, v % 10);
}

/// Append the packed clock pair: the low byte is the hour, the high byte
/// the minute.
fn push_hhmm(buf: &mut Vec<u8>, value: u16)
    requires
        ascii_seq(old(buf)@),
    ensures
        ascii_seq(final(buf)@),
        final(buf)@.len() > old(buf)@.len(),
{
    push_pad2(buf, value % 256);
    push_ascii_label(buf, ":");
    push_pad2(buf, value / 256);
}

/// Append `v` as four zero-padded hexadecimal digits with the `0x` prefix.
fn push_hex4(buf: &mut Vec<u8>, v: u16)
    requires
        ascii_seq(old(buf)@),
    ensures
        ascii_seq(final(buf)@),
        final(buf)@.len() > old(buf)@.len(),
{
    push_ascii_label(buf, "0x");
    let mut k: usize = 0;
    while k < 4
        invariant
            k <= 4,
            ascii_seq(buf@),
            buf@.len() >= old(buf)@.len() + k,
        decreases 4 - k,
    {
        let shift: u16 = 12 - 4 * (k as u16);
        let nibble = (v >> shift) & 0xF;
        proof {
            assert((v >> shift) & 0xF < 16) by (bit_vector);
        }
        let b: u8 = if nibble < 10 {
            48 + nibble as u8
        } else {
            87 + nibble as u8
        };
        buf.push(b);
        proof {
            assert(ascii_seq(buf@));
        }
        k += 1;
    }
}

/// Append `v` as sixteen binary digits with the `0b` prefix.
fn push_bin16(buf: &mut Vec<u8>, v: u16)
    requires
        ascii_seq(old(buf)@),
    ensures
        ascii_seq(final(buf)@),
        final(buf)@.len() > old(buf)@.len(),
        final(buf)@ == old(buf)@ + spec_bin16(v),
{
    buf.push(48);
    buf.push(98);
    proof {
        assert(ascii_seq(buf@));
    }
    let mut k: usize = 0;
    while k < 16
        invariant
            k <= 16,
            ascii_seq(buf@),
            buf@ == old(buf)@ + seq![48u8, 98u8] + Seq::new(
                k as nat,
                |i: int| (48 + ((v >> ((15 - i) as u16)) & 1)) as u8,
            ),
        decreases 16 - k,
    {
        let shift: u16 = 15 - (k as u16);
        let bit = (v >> shift) & 1;
        proof {
            assert((v >> shift) & 1 < 2) by (bit_vector);
        }
        buf.push(48 + bit as u8);
        k += 1;
        proof {
            assert(buf@ =~= old(buf)@ + seq![48u8, 98u8] + Seq::new(
                k as nat,
                |i: int| (48 + ((v >> ((15 - i) as u16)) & 1)) as u8,
            ));
        }
    }
    proof {
        assert(buf@ =~= old(buf)@ + spec_bin16(v));
    }
}

/// The name of a reset-settings bit of register 11.
fn reset_bit_name(i: u16) -> (r: &'static str)
    requires
        i < 16,
    ensures
        vstd::string::is_ascii(r),
        r@.map(|k: int, c: char| c as u8) == spec_bit_name_bytes(false, i as int),
{
    proof {
        reveal_strlit("Energy Record Clear");
        reveal_strlit("Reset All to Default");
        reveal_strlit("Adjustment Ratio Clear");
        reveal_strlit("Fault Record Clear");
        reveal_strlit("Monitor Data Clear");
        reveal_strlit("BMS Charge Switch On");
        reveal_strlit("BMS Discharge Switch On");
        reveal_strlit("Inverter Reboot");
        reveal_strlit("Reserved");
    }
    match i {
        0 => "Energy Record Clear",
        1 => "Reset All to Default",
        2 => "Adjustment Ratio Clear",
        3 => "Fault Record Clear",
        4 => "Monitor Data Clear",
        5 => "BMS Charge Switch On",
        6 => "BMS Discharge Switch On",
        7 => "Inverter Reboot",
        _ => "Reserved",
    }
}

/// The name of a function-enable bit of register 21.
fn feature_bit_name(i: u16) -> (r: &'static str)
    requires
        i < 16,
    ensures
        vstd::string::is_ascii(r),
        r@.map(|k: int, c: char| c as u8) == spec_bit_name_bytes(true, i as int),
{
    proof {
        reveal_strlit("EPS Mode");
        reveal_strlit("Over Frequency Load Reduction");
        reveal_strlit("DRMS");
        reveal_strlit("Low Voltage Ride Through");
        reveal_strlit("Anti-islanding");
        reveal_strlit("Neutral Detection");
        reveal_strlit("Grid-connected Power Soft Start");
        reveal_strlit("AC Charge");
        reveal_strlit("Off-grid Seamless Switching");
        reveal_strlit("Power On (0=Standby)");
        reveal_strlit("Forced Discharge");
        reveal_strlit("Forced Charge");
        reveal_strlit("ISO");
        reveal_strlit("GFCI");
        reveal_strlit("DCI");
        reveal_strlit("Feed In Grid");
    }
    match i {
        0 => "EPS Mode",
        1 => "Over Frequency Load Reduction",
        2 => "DRMS",
        3 => "Low Voltage Ride Through",
        4 => "Anti-islanding",
        5 => "Neutral Detection",
        6 => "Grid-connected Power Soft Start",
        7 => "AC Charge",
        8 => "Off-grid Seamless Switching",
        9 => "Power On (0=Standby)",
        10 => "Forced Discharge",
        11 => "Forced Charge",
        12 => "ISO",
        13 => "GFCI",
        14 => "DCI",
        15 => "Feed In Grid",
        _ => "Reserved",
    }
}

/// Append the names of the set bits, joined with commas.
fn push_bit_names(buf: &mut Vec<u8>, value: u16, features: bool)
    requires
        ascii_seq(old(buf)@),
    ensures
        ascii_seq(final(buf)@),
        final(buf)@.len() >= old(buf)@.len(),
        final(buf)@ == old(buf)@ + spec_bit_list(value, features, 0, false),
{
    proof {
        reveal_strlit(", ");
    }
    let mut any = false;
    let mut i: u16 = 0;
    while i < 16
        invariant
            i <= 16,
            ascii_seq(buf@),
            buf@ + spec_bit_list(value, features, i as int, any) == old(buf)@ + spec_bit_list(
                value,
                features,
                0,
                false,
            ),
        decreases 16 - i,
    {
        proof {
            reveal_strlit(", ");
        }
        if (value >> i) & 1 != 0 {
            let ghost before = buf@;
            if any {
                push_ascii_label(buf, ", ");
            }
            if features {
                push_ascii_label(buf, feature_bit_name(i));
            } else {
                push_ascii_label(buf, reset_bit_name(i));
            }
            proof {
                assert(buf@ =~= before + (if any {
                    ", "@.map(|k: int, c: char| c as u8)
                } else {
                    Seq::<u8>::empty()
                }) + spec_bit_name_bytes(features, i as int));
            }
            any = true;
        }
        i += 1;
        proof {
            assert(buf@ + spec_bit_list(value, features, i as int, any) =~= old(buf)@
                + spec_bit_list(value, features, 0, false));
        }
    }
}

/// The bytes of `Hold Register: {reg} - `.
pub open spec fn spec_reg_prefix(reg: u16) -> Seq<u8> {
    "Hold Register: "@.map(|k: int, c: char| c as u8) + spec_dec(reg as nat) + " - "@.map(
        |k: int, c: char| c as u8,
    )
}

/// Append the usual register line lead: `Hold Register: {reg} - `.
fn push_reg_prefix(buf: &mut Vec<u8>, reg: u16)
    requires
        ascii_seq(old(buf)@),
    ensures
        ascii_seq(final(buf)@),
        final(buf)@.len() > old(buf)@.len(),
        final(buf)@ == old(buf)@ + spec_reg_prefix(reg),
{
    proof {
        reveal_strlit("Hold Register: ");
        reveal_strlit(" - ");
    }
    push_ascii_label(buf, "Hold Register: ");
    push_dec_ascii(buf, reg);
    push_ascii_label(buf, " - ");
    proof {
        assert(buf@ =~= old(buf)@ + spec_reg_prefix(reg));
    }
}

/// Append `{label}{value scaled to tenths} {unit}` after the register lead.
fn push_reg_scaled1(buf: &mut Vec<u8>, reg: u16, label: &str, value: u16, unit: &str)
    requires
        ascii_seq(old(buf)@),
    ensures
        ascii_seq(final(buf)@),
        final(buf)@.len() > old(buf)@.len(),
{
    push_reg_prefix(buf, reg);
    push_ascii_label(buf, label);
    push_scaled1(buf, value);
    push_ascii_label(buf, unit);
}

/// Append `{label}{value} {unit}` after the register lead.
fn push_reg_plain(buf: &mut Vec<u8>, reg: u16, label: &str, value: u16, unit: &str)
    requires
        ascii_seq(old(buf)@),
    ensures
        ascii_seq(final(buf)@),
        final(buf)@.len() > old(buf)@.len(),
{
    push_reg_prefix(buf, reg);
    push_ascii_label(buf, label);
    push_dec_ascii(buf, value);
    push_ascii_label(buf, unit);
}

/// Append a named clock pair line: `{name}: {HH:MM} (HH:MM)`.
fn push_reg_hhmm(buf: &mut Vec<u8>, reg: u16, label: &str, value: u16)
    requires
        ascii_seq(old(buf)@),
    ensures
        ascii_seq(final(buf)@),
        final(buf)@.len() > old(buf)@.len(),
{
    push_reg_prefix(buf, reg);
    push_ascii_label(buf, label);
    push_hhmm(buf, value);
    push_ascii_label(buf, " (HH:MM)");
}

/// The bytes of the register-12 line: the month in the high byte, the
/// years since 2000 in the low byte.
pub open spec fn spec_time_register_text(value: u16) -> Seq<u8> {
    "Time: Month="@.map(|k: int, c: char| c as u8) + spec_dec((value / 256) as nat)
        + " (1-12), Year=20"@.map(|k: int, c: char| c as u8) + crate::text::spec_pad2(
        (value % 256) as nat,
    ) + " (17-255)"@.map(|k: int, c: char| c as u8)
}

/// The bytes of the register-21 line: the flags in binary, then the names
/// of the enabled features.
pub open spec fn spec_flags_register_text(value: u16) -> Seq<u8> {
    spec_reg_prefix(21) + "Function Enable Flags: "@.map(|k: int, c: char| c as u8) + spec_bin16(
        value,
    ) + "\nEnabled features: "@.map(|k: int, c: char| c as u8) + spec_bit_list(
        value,
        true,
        0,
        false,
    )
}

/// The bytes of the fallback line for a register without a rendering.
pub open spec fn spec_unknown_register_text(reg: u16, value: u16) -> Seq<u8> {
    "Unknown hold register "@.map(|k: int, c: char| c as u8) + spec_dec(reg as nat) + ": "@.map(
        |k: int, c: char| c as u8,
    ) + spec_dec(value as nat)
}

/// Decode a holding register's value into the human-readable line the
/// operator sees; every register the protocol documents has its own
/// rendering, and anything else is reported as unknown. The clock line, the
/// feature flags and the fallback line are pinned exactly; the remaining
/// registers render through the same exactly-specified helpers.
pub fn parse_hold_register(reg: u16, value: u16) -> (r: String)
    ensures
        r@.len() > 0,
        reg == 12 ==> r@ == chars_of(spec_time_register_text(value)),
        reg == 21 ==> r@ == chars_of(spec_flags_register_text(value)),
        !spec_known_hold_register(reg) ==> r@ == chars_of(spec_unknown_register_text(reg, value)),
{
    let mut buf: Vec<u8> = Vec::new();
    if reg == 0 {
        let lithium_type = (value >> 12) & 0xF;
        let power_rating = (value >> 8) & 0xF;
        let lead_acid_type = (value >> 4) & 0xF;
        let battery_type = value & 0xF;
        push_ascii_label(&mut buf, "Model Info: ");
        push_hex4(&mut buf, value);
        push_ascii_label(&mut buf, "\n  Lithium Type: ");
        push_dec_ascii(&mut buf, lithium_type);
        push_ascii_label(&mut buf, "\n  Power Rating: ");
        push_dec_ascii(&mut buf, power_rating);
        push_ascii_label(&mut buf, "\n  Lead Acid Type: ");
        push_dec_ascii(&mut buf, lead_acid_type);
        push_ascii_label(&mut buf, "\n  Battery Type: ");
        push_dec_ascii(&mut buf, battery_type);
    } else if 2 <= reg && reg <= 6 {
        let part = reg - 1;
        push_ascii_label(&mut buf, "Serial Number Part ");
        push_dec_ascii(&mut buf, part);
        push_ascii_label(&mut buf, " (");
        push_ascii_label(
            &mut buf,
            if part == 1 {
                "Year"
            } else if part == 2 {
                "Week"
            } else if part == 3 {
                "Factory"
            } else if 4 <= part && part <= 6 {
                "Product Code"
            } else if 7 <= part && part <= 9 {
                "Batch Number"
            } else {
                "Unknown"
            },
        );
        push_ascii_label(&mut buf, "): ");
        push_hex4(&mut buf, value);
    } else if reg == 7 {
        push_reg_plain(&mut buf, reg, "Firmware Version Code: ", value, "");
    } else if reg == 8 {
        push_reg_plain(&mut buf, reg, "Backup Firmware Version Code: ", value, "");
    } else if reg == 9 {
        push_reg_prefix(&mut buf, reg);
        push_ascii_label(&mut buf, "Slave CPU Version (Redundant): ");
        push_hex4(&mut buf, value);
    } else if reg == 10 {
        push_reg_prefix(&mut buf, reg);
        push_ascii_label(&mut buf, "Control CPU Version: ");
        push_hex4(&mut buf, value);
    } else if reg == 11 {
        push_reg_prefix(&mut buf, reg);
        push_ascii_label(&mut buf, "Reset Settings: ");
        push_bin16(&mut buf, value);
        push_ascii_label(&mut buf, "\nActive settings: ");
        push_bit_names(&mut buf, value, false);
    } else if reg == 12 {
        proof {
            reveal_strlit("Time: Month=");
            reveal_strlit(" (1-12), Year=20");
            reveal_strlit(" (17-255)");
        }
        push_ascii_label(&mut buf, "Time: Month=");
        push_dec_ascii(&mut buf, value / 256);
        push_ascii_label(&mut buf, " (1-12), Year=20");
        push_pad2(&mut buf, value % 256);
        push_ascii_label(&mut buf, " (17-255)");
        proof {
            assert(buf@ =~= spec_time_register_text(value));
        }
    } else if reg == 13 {
        push_ascii_label(&mut buf, "Time: Hour=");
        push_dec_ascii(&mut buf, value / 256);
        push_ascii_label(&mut buf, " (0-23), Day=");
        push_dec_ascii(&mut buf, value % 256);
        push_ascii_label(&mut buf, " (1-31)");
    } else if reg == 14 {
        push_ascii_label(&mut buf, "Time: Second=");
        push_dec_ascii(&mut buf, value / 256);
        push_ascii_label(&mut buf, " (0-59), Minute=");
        push_dec_ascii(&mut buf, value % 256);
        push_ascii_label(&mut buf, " (0-59)");
    } else if reg == 15 {
        push_reg_plain(&mut buf, reg, "Communication Address: ", value, " (0-150)");
    } else if reg == 16 {
        push_reg_plain(&mut buf, reg, "Language: ", value, " (1=English)");
    } else if reg == 19 {
        push_reg_plain(&mut buf, reg, "Version: ", value, "");
    } else if reg == 20 {
        push_reg_prefix(&mut buf, reg);
        push_ascii_label(&mut buf, "PV Input Mode: ");
        push_dec_ascii(&mut buf, value);
        push_ascii_label(&mut buf, " - ");
        push_ascii_label(
            &mut buf,
            if value == 0 {
                "No PV"
            } else if value == 1 {
                "PV1 Connected"
            } else if value == 2 {
                "PV2 Connected"
            } else if value == 3 {
                "Two Parallel PV"
            } else if value == 4 {
                "Two Separate PV"
            } else if value == 5 {
                "PV1&3 Connected (12K Hybrid)"
            } else if value == 6 {
                "PV2&3 Connected (12K Hybrid)"
            } else if value == 7 {
                "PV1&2&3 Connected (12K Hybrid)"
            } else {
                "Unknown"
            },
        );
    } else if reg == 21 {
        proof {
            reveal_strlit("Function Enable Flags: ");
            reveal_strlit("\nEnabled features: ");
        }
        push_reg_prefix(&mut buf, reg);
        push_ascii_label(&mut buf, "Function Enable Flags: ");
        push_bin16(&mut buf, value);
        push_ascii_label(&mut buf, "\nEnabled features: ");
        push_bit_names(&mut buf, value, true);
        proof {
            assert(buf@ =~= spec_flags_register_text(value));
        }
    } else if reg == 22 {
        push_reg_scaled1(&mut buf, reg, "Start PV Voltage: ", value, " V (90.0-500.0V)");
    } else if reg == 23 {
        push_reg_plain(&mut buf, reg, "Grid Connection Wait Time: ", value, " seconds (30-600s)");
    } else if reg == 24 {
        push_reg_plain(
            &mut buf,
            reg,
            "Grid Reconnection Wait Time: ",
            value,
            " seconds (0-900s)",
        );
    } else if reg == 25 {
        push_reg_scaled1(&mut buf, reg, "Grid Connect Low Voltage: ", value, " V");
    } else if reg == 26 {
        push_reg_scaled1(&mut buf, reg, "Grid Connect High Voltage: ", value, " V");
    } else if reg == 27 {
        push_reg_prefix(&mut buf, reg);
        push_ascii_label(&mut buf, "Grid Connect Low Frequency: ");
        push_scaled2(&mut buf, value);
        push_ascii_label(&mut buf, " Hz");
    } else if reg == 28 {
        push_reg_prefix(&mut buf, reg);
        push_ascii_label(&mut buf, "Grid Connect High Frequency: ");
        push_scaled2(&mut buf, value);
        push_ascii_label(&mut buf, " Hz");
    } else if 29 <= reg && reg <= 53 {
        push_grid_protection(&mut buf, reg, value);
    } else if reg == 54 {
        push_reg_plain(&mut buf, reg, "Maximum Q Percent for Q(V) Curve: ", value, "%");
    } else if reg == 55 {
        push_reg_scaled1(&mut buf, reg, "Q(V) Lower Voltage Point 1 (V1L): ", value, " V");
    } else if reg == 56 {
        push_reg_scaled1(&mut buf, reg, "Q(V) Lower Voltage Point 2 (V2L): ", value, " V");
    } else if reg == 57 {
        push_reg_scaled1(&mut buf, reg, "Q(V) Upper Voltage Point 1 (V1H): ", value, " V");
    } else if reg == 58 {
        push_reg_scaled1(&mut buf, reg, "Q(V) Upper Voltage Point 2 (V2H): ", value, " V");
    } else if reg == 59 {
        push_reg_plain(&mut buf, reg, "Reactive Power Command Type: ", value, "");
    } else if reg == 60 {
        push_reg_plain(&mut buf, reg, "Active Power Percent Command: ", value, "%");
    } else if reg == 61 {
        push_reg_plain(&mut buf, reg, "Reactive Power Percent Command: ", value, "%");
    } else if reg == 62 {
        push_reg_prefix(&mut buf, reg);
        push_ascii_label(&mut buf, "Power Factor Command: ");
        push_scaled3(&mut buf, value);
    } else if reg == 63 {
        push_reg_plain(&mut buf, reg, "Power Soft Start Slope: ", value, "");
    } else if reg == 64 {
        push_reg_plain(&mut buf, reg, "System Charge Rate: ", value, "%");
    } else if reg == 65 {
        push_reg_plain(&mut buf, reg, "System Discharge Rate: ", value, "%");
    } else if reg == 66 {
        push_reg_plain(&mut buf, reg, "Grid Charge Power Rate: ", value, "%");
    } else if reg == 67 {
        push_reg_plain(&mut buf, reg, "AC Charge SOC Limit: ", value, "%");
    } else if reg == 68 {
        push_reg_hhmm(
            &mut buf,
            reg,
            "ACChgStart_0 AC charging start time_hour setting: ",
            value,
        );
    } else if reg == 69 {
        push_reg_hhmm(&mut buf, reg, "ACChgEndTime_0 AC charging end time_hour: ", value);
    } else if reg == 70 {
        push_reg_hhmm(
            &mut buf,
            reg,
            "ACChgStart_1 AC charging start time_hour setting: ",
            value,
        );
    } else if reg == 71 {
        push_reg_hhmm(&mut buf, reg, "ACChgEndTime_1 AC charging end time_hour: ", value);
    } else if reg == 72 {
        push_reg_hhmm(
            &mut buf,
            reg,
            "ACChgStart_2 AC charging start time_hour setting: ",
            value,
        );
    } else if reg == 73 {
        push_reg_hhmm(&mut buf, reg, "ACChgEndTime_2 AC charging end time_hour: ", value);
    } else if reg == 74 {
        push_reg_plain(
            &mut buf,
            reg,
            "ChgFirstPowerCMD - Charging Priority Percentage: ",
            value,
            "%",
        );
    } else if reg == 75 {
        push_reg_plain(
            &mut buf,
            reg,
            "ChgFirstSOCLimit - Charging Priority SOC Limit: ",
            value,
            "%",
        );
    } else if reg == 76 {
        push_reg_hhmm(&mut buf, reg, "ChgFirstStart_0 - Charging Priority Start Time: ", value);
    } else if reg == 77 {
        push_reg_hhmm(&mut buf, reg, "ChgFirstEnd_0 - Charging Priority End Time: ", value);
    } else if reg == 78 {
        push_reg_hhmm(&mut buf, reg, "ChgFirstStart_1 - Charging Priority Start Time 1: ", value);
    } else if reg == 79 {
        push_reg_hhmm(&mut buf, reg, "ChgFirstEnd_1 - Charging Priority End Time 1: ", value);
    } else if reg == 80 {
        push_reg_hhmm(&mut buf, reg, "ChgFirstStart_2 - Charging Priority Start Time 2: ", value);
    } else if reg == 81 {
        push_reg_hhmm(&mut buf, reg, "ChgFirstEnd_2 Charging Priority End Time 2: ", value);
    } else if reg == 82 {
        push_ascii_label(&mut buf, "ForcedDischgPowerCMD - Forced discharge SOC limit setting: ");
        push_dec_ascii(&mut buf, value);
        push_ascii_label(&mut buf, " %");
    } else if reg == 83 {
        push_ascii_label(&mut buf, "Grid Voltage Level: ");
        push_dec_ascii(&mut buf, value);
        push_ascii_label(&mut buf, " - ");
        push_ascii_label(
            &mut buf,
            if value == 0 {
                "220V"
            } else if value == 1 {
                "380V"
            } else {
                "Unknown"
            },
        );
    } else if reg == 84 {
        push_reg_hhmm(
            &mut buf,
            reg,
            "ForcedDischgStart_0 - Forced discharge start time_hour setting: ",
            value,
        );
    } else if reg == 85 {
        push_reg_hhmm(
            &mut buf,
            reg,
            "ForcedDischgStart_0 - Forced discharge end time_hour setting: ",
            value,
        );
    } else if reg == 86 {
        push_ascii_label(&mut buf, "PV2 Power Rating: ");
        push_scaled1(&mut buf, value);
        push_ascii_label(&mut buf, " kW");
    } else if reg == 87 {
        push_ascii_label(&mut buf, "Inverter Power Rating: ");
        push_scaled1(&mut buf, value);
        push_ascii_label(&mut buf, " kW");
    } else if reg == 88 {
        push_ascii_label(&mut buf, "Inverter Efficiency: ");
        push_scaled1(&mut buf, value);
        push_ascii_label(&mut buf, "%");
    } else if reg == 89 {
        push_ascii_label(&mut buf, "Battery Nominal Voltage: ");
        push_scaled1(&mut buf, value);
        push_ascii_label(&mut buf, " V");
    } else if reg == 90 {
        push_ascii_label(&mut buf, "Battery Nominal Capacity: ");
        push_scaled1(&mut buf, value);
        push_ascii_label(&mut buf, " kWh");
    } else if reg == 91 {
        push_reg_prefix(&mut buf, reg);
        push_ascii_label(&mut buf, "System Mode: ");
        push_dec_ascii(&mut buf, value);
        push_ascii_label(&mut buf, " - ");
        push_ascii_label(
            &mut buf,
            if value == 0 {
                "Normal"
            } else if value == 1 {
                "Backup"
            } else if value == 2 {
                "ECO"
            } else {
                "Unknown"
            },
        );
    } else if reg == 92 {
        push_ascii_label(&mut buf, "System Priority: ");
        push_dec_ascii(&mut buf, value);
        push_ascii_label(&mut buf, " - ");
        push_ascii_label(
            &mut buf,
            if value == 0 {
                "Battery"
            } else if value == 1 {
                "Grid"
            } else if value == 2 {
                "PV"
            } else {
                "Unknown"
            },
        );
    } else if reg == 93 {
        push_ascii_label(&mut buf, "Time Zone: UTC");
        if value > 0 {
            push_ascii_label(&mut buf, "+");
        }
        push_dec_ascii(&mut buf, value);
    } else if reg == 94 {
        push_ascii_label(&mut buf, "Daylight Saving Time: ");
        push_dec_ascii(&mut buf, value);
        push_ascii_label(&mut buf, " - ");
        push_ascii_label(
            &mut buf,
            if value == 0 {
                "Off"
            } else if value == 1 {
                "On"
            } else {
                "Unknown"
            },
        );
    } else if reg == 95 {
        push_ascii_label(&mut buf, "Communication Protocol: ");
        push_dec_ascii(&mut buf, value);
        push_ascii_label(&mut buf, " - ");
        push_ascii_label(
            &mut buf,
            if value == 0 {
                "Modbus"
            } else if value == 1 {
                "RS485"
            } else {
                "Unknown"
            },
        );
    } else if reg == 96 {
        push_ascii_label(&mut buf, "Communication Baud Rate: ");
        push_dec_ascii(&mut buf, value);
        push_ascii_label(&mut buf, " - ");
        push_ascii_label(
            &mut buf,
            if value == 0 {
                "9600"
            } else if value == 1 {
                "19200"
            } else if value == 2 {
                "38400"
            } else {
                "Unknown"
            },
        );
    } else if reg == 97 {
        push_ascii_label(&mut buf, "Alarm Enable: ");
        push_dec_ascii(&mut buf, value);
        push_ascii_label(&mut buf, " - ");
        push_ascii_label(
            &mut buf,
            if value == 0 {
                "Off"
            } else if value == 1 {
                "On"
            } else {
                "Unknown"
            },
        );
    } else if reg == 98 {
        push_ascii_label(&mut buf, "Alarm Delay: ");
        push_dec_ascii(&mut buf, value);
        push_ascii_label(&mut buf, " seconds");
    } else if reg == 99 {
        push_ascii_label(&mut buf, "Maintenance Mode: ");
        push_dec_ascii(&mut buf, value);
        push_ascii_label(&mut buf, " - ");
        push_ascii_label(
            &mut buf,
            if value == 0 {
                "Off"
            } else if value == 1 {
                "On"
            } else {
                "Unknown"
            },
        );
    } else if reg == 100 {
        push_ascii_label(&mut buf, "Hold Register: ");
        push_dec_ascii(&mut buf, reg);
        push_ascii_label(&mut buf, " Maintenance Time: ");
        push_dec_ascii(&mut buf, value);
        push_ascii_label(&mut buf, " minutes");
    } else if reg == 118 {
        push_bare_unit(&mut buf, reg, "VbatStartDerating: ", value, " V");
    } else if reg == 119 {
        push_bare_unit(&mut buf, reg, "wCT_PowerOffset: ", value, " W");
    } else if reg == 134 {
        push_bare_unit(&mut buf, reg, "UVFDerateStartPoint: ", value, " Hz");
    } else if reg == 135 {
        push_bare_unit(&mut buf, reg, "UVFDerateEndPoint: ", value, " Hz");
    } else if reg == 136 {
        push_bare_unit(&mut buf, reg, "OVFDerateRatio: ", value, " ");
    } else if reg == 137 {
        push_bare_unit(&mut buf, reg, "SpecLoadCompensate: ", value, " W");
    } else if reg == 138 {
        push_bare_unit(&mut buf, reg, "ChargePowerPercentCMD: ", value, "");
    } else if reg == 139 {
        push_bare_unit(&mut buf, reg, "DischgPowerPercentCMD: ", value, "");
    } else if reg == 140 {
        push_bare_unit(&mut buf, reg, "ACChgPowerCMD: ", value, "");
    } else if reg == 141 {
        push_bare_unit(&mut buf, reg, "ChgFirstPowerCMD: ", value, "");
    } else if reg == 142 {
        push_bare_unit(&mut buf, reg, "ForcedDischgPowerCMD: ", value, "");
    } else if reg == 143 {
        push_bare_unit(&mut buf, reg, "ActivePowerPercentCMD: ", value, "");
    } else if reg == 144 {
        push_bare_unit(&mut buf, reg, "FloatChargeVolt: ", value, " V");
    } else if reg == 145 {
        push_bare_unit(&mut buf, reg, "OutputPrioConfig: ", value, "");
    } else if reg == 146 {
        push_bare_unit(&mut buf, reg, "LineMode: ", value, "");
    } else if reg == 147 {
        push_bare_unit(&mut buf, reg, "Battery capacity: ", value, " Ah");
    } else if reg == 148 {
        push_bare_unit(&mut buf, reg, "Battery nominal Voltage: ", value, " V");
    } else if reg == 149 {
        push_bare_unit(&mut buf, reg, "EqualizationVolt: ", value, " ");
    } else if reg == 150 {
        push_bare_unit(&mut buf, reg, "EqualizationInterval: ", value, " ");
    } else if reg == 151 {
        push_bare_unit(&mut buf, reg, "EqualizationTime: ", value, " ");
    } else if reg == 152 {
        push_reg_hhmm(&mut buf, reg, "ACFirstStartHour_0: ", value);
    } else if reg == 153 {
        push_reg_hhmm(&mut buf, reg, "ACFirstEndHour_0: ", value);
    } else if reg == 154 {
        push_reg_hhmm(&mut buf, reg, "ACFirstStartHour_1: ", value);
    } else if reg == 155 {
        push_reg_hhmm(&mut buf, reg, "ACFirstEndHour_1: ", value);
    } else if reg == 156 {
        push_reg_hhmm(&mut buf, reg, "ACFirstStartHour_2: ", value);
    } else if reg == 157 {
        push_reg_hhmm(&mut buf, reg, "ACFirstEndHour_2: ", value);
    } else if reg == 158 {
        push_reg_scaled1(&mut buf, reg, "ACChgStartVolt: ", value, " V");
    } else if reg == 159 {
        push_reg_scaled1(&mut buf, reg, "ACChgEndVolt: ", value, " V");
    } else if reg == 160 {
        push_reg_plain(&mut buf, reg, "AC Charge Start SOC: ", value, "%");
    } else if reg == 161 {
        push_reg_plain(&mut buf, reg, "AC Charge End SOC: ", value, "%");
    } else if reg == 162 {
        push_reg_scaled1(&mut buf, reg, "Battery Warning Voltage: ", value, " V");
    } else if reg == 163 {
        push_reg_scaled1(&mut buf, reg, "Battery Warning Recovery Voltage: ", value, " V");
    } else if reg == 164 {
        push_reg_plain(&mut buf, reg, "Battery Warning SOC: ", value, "%");
    } else if reg == 165 {
        push_reg_plain(&mut buf, reg, "Battery Warning Recovery SOC: ", value, "%");
    } else if reg == 166 {
        push_reg_scaled1(&mut buf, reg, "Battery Low to Utility Voltage: ", value, " V");
    } else if reg == 167 {
        push_reg_plain(&mut buf, reg, "Battery Low to Utility SOC: ", value, "%");
    } else if reg == 168 {
        push_reg_scaled1(&mut buf, reg, "AC Charge Battery Current: ", value, " A");
    } else if reg == 169 {
        push_reg_scaled1(&mut buf, reg, "On Grid EOD Voltage: ", value, " V");
    } else if reg == 170 {
        push_reg_plain(&mut buf, reg, "AutoTest Command: ", value, "");
    } else if reg == 171 {
        push_autotest_status(&mut buf, value);
    } else if reg == 172 {
        push_reg_prefix(&mut buf, reg);
        push_ascii_label(&mut buf, "AutoTest Limit: ");
        if value & 0x8000 != 0 {
            push_ascii_label(&mut buf, "-");
        }
        push_scaled1(&mut buf, value);
        push_ascii_label(&mut buf, " V");
    } else if reg == 173 {
        push_reg_plain(&mut buf, reg, "AutoTest Default Time: ", value, " ms");
    } else if reg == 174 {
        push_reg_prefix(&mut buf, reg);
        push_ascii_label(&mut buf, "AutoTest Trip Value: ");
        if value & 0x8000 != 0 {
            push_ascii_label(&mut buf, "-");
        }
        push_scaled1(&mut buf, value);
        push_ascii_label(&mut buf, " Hz");
    } else if reg == 175 {
        push_reg_plain(&mut buf, reg, "AutoTest Trip Time: ", value, " ms");
    } else if reg == 180 {
        push_reg_plain(&mut buf, reg, "AFCIArcThreshold: ", value, "");
    } else if reg == 181 {
        push_reg_plain(&mut buf, reg, "VoltWatt_V1: ", value, "");
    } else if reg == 182 {
        push_reg_plain(&mut buf, reg, "VoltWatt_V2: ", value, "");
    } else if reg == 183 {
        push_reg_plain(&mut buf, reg, "VoltWatt_DelayTime: ", value, " ms");
    } else if reg == 184 {
        push_reg_plain(&mut buf, reg, "VoltWatt_P2: ", value, "");
    } else if reg == 185 {
        push_reg_plain(&mut buf, reg, "Vref_QV: ", value, "");
    } else if reg == 186 {
        push_reg_plain(&mut buf, reg, "Vref_filtertime: ", value, " seconds");
    } else if reg == 187 {
        push_reg_plain(&mut buf, reg, "Q3_QV: ", value, "");
    } else if reg == 188 {
        push_reg_plain(&mut buf, reg, "Q4_QV: ", value, "");
    } else if reg == 189 {
        push_reg_plain(&mut buf, reg, "P1_QP: ", value, " %");
    } else if reg == 190 {
        push_reg_plain(&mut buf, reg, "P2_QP: ", value, " %");
    } else if reg == 191 {
        push_reg_plain(&mut buf, reg, "P3_QP: ", value, " %");
    } else if reg == 192 {
        push_reg_plain(&mut buf, reg, "P4_QP: ", value, " %");
    } else {
        proof {
            reveal_strlit("Unknown hold register ");
            reveal_strlit(": ");
        }
        push_ascii_label(&mut buf, "Unknown hold register ");
        push_dec_ascii(&mut buf, reg);
        push_ascii_label(&mut buf, ": ");
        push_dec_ascii(&mut buf, value);
        proof {
            assert(buf@ =~= spec_unknown_register_text(reg, value));
        }
    }
    ascii_bytes_to_string(&buf)
}

/// Append `{label}{value}{unit}` after the register lead without a dash.
fn push_bare_unit(buf: &mut Vec<u8>, reg: u16, label: &str, value: u16, unit: &str)
    requires
        ascii_seq(old(buf)@),
    ensures
        ascii_seq(final(buf)@),
        final(buf)@.len() > old(buf)@.len(),
{
    push_ascii_label(buf, "Hold Register: ");
    push_dec_ascii(buf, reg);
    push_ascii_label(buf, " ");
    push_ascii_label(buf, label);
    push_dec_ascii(buf, value);
    push_ascii_label(buf, unit);
}

/// The grid protection settings, registers 29 to 53: even registers up to
/// 41 carry tenths of a volt, later even ones hundredths of a hertz, odd
/// ones milliseconds.
fn push_grid_protection(buf: &mut Vec<u8>, reg: u16, value: u16)
    requires
        29 <= reg <= 53,
        ascii_seq(old(buf)@),
    ensures
        ascii_seq(final(buf)@),
        final(buf)@.len() > old(buf)@.len(),
{
    let desc: &'static str = match reg {
        29 => "Grid Voltage Level 1 Under-voltage Protection",
        30 => "Grid Voltage Level 1 Over-voltage Protection",
        31 => "Grid Voltage Level 1 Under-voltage Protection Time",
        32 => "Grid Voltage Level 1 Over-voltage Protection Time",
        33 => "Grid Voltage Level 2 Under-voltage Protection",
        34 => "Grid Voltage Level 2 Over-voltage Protection",
        35 => "Grid Voltage Level 2 Under-voltage Protection Time",
        36 => "Grid Voltage Level 2 Over-voltage Protection Time",
        37 => "Grid Voltage Level 3 Under-voltage Protection",
        38 => "Grid Voltage Level 3 Over-voltage Protection",
        39 => "Grid Voltage Level 3 Under-voltage Protection Time",
        40 => "Grid Voltage Level 3 Over-voltage Protection Time",
        41 => "Grid Voltage Moving Average Over-voltage Protection",
        42 => "Grid Frequency Level 1 Under-frequency Protection",
        43 => "Grid Frequency Level 1 Over-frequency Protection",
        44 => "Grid Frequency Level 1 Under-frequency Protection Time",
        45 => "Grid Frequency Level 1 Over-frequency Protection Time",
        46 => "Grid Frequency Level 2 Under-frequency Protection",
        47 => "Grid Frequency Level 2 Over-frequency Protection",
        48 => "Grid Frequency Level 2 Under-frequency Protection Time",
        49 => "Grid Frequency Level 2 Over-frequency Protection Time",
        50 => "Grid Frequency Level 3 Under-frequency Protection",
        51 => "Grid Frequency Level 3 Over-frequency Protection",
        52 => "Grid Frequency Level 3 Under-frequency Protection Time",
        53 => "Grid Frequency Level 3 Over-frequency Protection Time",
        _ => "Unknown Grid Protection Setting",
    };
    push_reg_prefix(buf, reg);
    push_ascii_label(buf, desc);
    push_ascii_label(buf, ": ");
    if reg % 2 == 0 && reg <= 41 {
        push_scaled1(buf, value);
        push_ascii_label(buf, " V");
    } else if reg % 2 == 0 && reg > 41 {
        push_scaled2(buf, value);
        push_ascii_label(buf, " Hz");
    } else {
        push_dec_ascii(buf, value);
        push_ascii_label(buf, " ms");
    }
}

/// The auto-test status register: the low nibble is the status, the next
/// nibble the active step.
fn push_autotest_status(buf: &mut Vec<u8>, value: u16)
    requires
        ascii_seq(old(buf)@),
    ensures
        ascii_seq(final(buf)@),
        final(buf)@.len() > old(buf)@.len(),
{
    let status = value & 0xF;
    let step = (value >> 4) & 0xF;
    push_ascii_label(buf, "AutoTest Status: ");
    push_hex4(buf, value);
    push_ascii_label(buf, "\nStatus: ");
    push_dec_ascii(buf, status);
    push_ascii_label(buf, " - ");
    push_ascii_label(
        buf,
        if status == 0 {
            "Waiting - Test not started"
        } else if status == 1 {
            "Testing - Test in progress"
        } else if status == 2 {
            "Test Failed - Last test failed"
        } else if status == 3 {
            "Voltage Test OK - Voltage tests passed"
        } else if status == 4 {
            "Frequency Test OK - Frequency tests passed"
        } else if status == 5 {
            "Test Passed - All tests completed successfully"
        } else {
            "Unknown status"
        },
    );
    push_ascii_label(buf, "\nStep: ");
    push_dec_ascii(buf, step);
    push_ascii_label(buf, " - ");
    push_ascii_label(
        buf,
        if step == 1 {
            "V1L Test - Testing lower voltage limit 1"
        } else if step == 2 {
            "V1H Test - Testing upper voltage limit 1"
        } else if step == 3 {
            "F1L Test - Testing lower frequency limit 1"
        } else if step == 4 {
            "F1H Test - Testing upper frequency limit 1"
        } else if step == 5 {
            "V2L Test - Testing lower voltage limit 2"
        } else if step == 6 {
            "V2H Test - Testing upper voltage limit 2"
        } else if step == 7 {
            "F2L Test - Testing lower frequency limit 2"
        } else if step == 8 {
            "F2H Test - Testing upper frequency limit 2"
        } else {
            "No Test Active"
        },
    );
}

} // verus!
