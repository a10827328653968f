use vstd::prelude::*;

use crate::config::Inverter;

verus! {

/// Holding registers with a fixed role in operator commands.
#[derive(Clone, Copy, Debug, PartialEq, Eq, Structural)]
pub enum Register {
    Register21,
    ChargePowerPercentCmd,
    DischgPowerPercentCmd,
    AcChargePowerCmd,
    AcChargeSocLimit,
    DischgCutOffSocEod,
}

/// The register's address on the inverter.
pub open spec fn spec_register_address(r: Register) -> u16 {
    match r {
        Register::Register21 => 21,
        Register::ChargePowerPercentCmd => 64,
        Register::DischgPowerPercentCmd => 65,
        Register::AcChargePowerCmd => 66,
        Register::AcChargeSocLimit => 67,
        Register::DischgCutOffSocEod => 105,
    }
}

impl Register {
    pub fn address(&self) -> (r: u16)
        ensures
            r == spec_register_address(*self),
    {
        match self {
            Register::Register21 => 21,
            Register::ChargePowerPercentCmd => 64,
            Register::DischgPowerPercentCmd => 65,
            Register::AcChargePowerCmd => 66,
            Register::AcChargeSocLimit => 67,
            Register::DischgCutOffSocEod => 105,
        }
    }
}

/// The switchable bits of holding register 21.
#[derive(Clone, Copy, Debug, PartialEq, Eq, Structural)]
pub enum RegisterBit {
    AcChargeEnable,
    ForcedDischargeEnable,
    ChargePriorityEnable,
}

/// The bit's mask within the register.
pub open spec fn spec_bit_mask(b: RegisterBit) -> u16 {
    match b {
        RegisterBit::AcChargeEnable => 128,
        RegisterBit::ForcedDischargeEnable => 1024,
        RegisterBit::ChargePriorityEnable => 2048,
    }
}

impl RegisterBit {
    pub fn mask(&self) -> (r: u16)
        ensures
            r == spec_bit_mask(*self),
    {
        match self {
            RegisterBit::AcChargeEnable => 128,
            RegisterBit::ForcedDischargeEnable => 1024,
            RegisterBit::ChargePriorityEnable => 2048,
        }
    }
}

/// One operator command, already routed to a single inverter.
pub enum Command {
    ReadInputs(Inverter, u16),
    ReadInput(Inverter, u16, u16),
    ReadHold(Inverter, u16, u16),
    ReadParam(Inverter, u16),
    ReadAcChargeTime(Inverter, u16),
    ReadAcFirstTime(Inverter, u16),
    ReadChargePriorityTime(Inverter, u16),
    ReadForcedDischargeTime(Inverter, u16),
    SetHold(Inverter, u16, u16),
    WriteParam(Inverter, u16, u16),
    SetAcChargeTime(Inverter, u16, (u8, u8, u8, u8)),
    SetAcFirstTime(Inverter, u16, (u8, u8, u8, u8)),
    SetChargePriorityTime(Inverter, u16, (u8, u8, u8, u8)),
    SetForcedDischargeTime(Inverter, u16, (u8, u8, u8, u8)),
    AcCharge(Inverter, bool),
    ChargePriority(Inverter, bool),
    ForcedDischarge(Inverter, bool),
    ChargeRate(Inverter, u16),
    DischargeRate(Inverter, u16),
    AcChargeRate(Inverter, u16),
    AcChargeSocLimit(Inverter, u16),
    DischargeCutoffSocLimit(Inverter, u16),
}

impl Command {
    /// The inverter the command addresses.
    pub fn inverter(&self) -> (r: &Inverter)
        ensures
            r == self.spec_inverter(),
    {
        match self {
            Command::ReadInputs(inv, _) => inv,
            Command::ReadInput(inv, _, _) => inv,
            Command::ReadHold(inv, _, _) => inv,
            Command::ReadParam(inv, _) => inv,
            Command::ReadAcChargeTime(inv, _) => inv,
            Command::ReadAcFirstTime(inv, _) => inv,
            Command::ReadChargePriorityTime(inv, _) => inv,
            Command::ReadForcedDischargeTime(inv, _) => inv,
            Command::SetHold(inv, _, _) => inv,
            Command::WriteParam(inv, _, _) => inv,
            Command::SetAcChargeTime(inv, _, _) => inv,
            Command::SetAcFirstTime(inv, _, _) => inv,
            Command::SetChargePriorityTime(inv, _, _) => inv,
            Command::SetForcedDischargeTime(inv, _, _) => inv,
            Command::AcCharge(inv, _) => inv,
            Command::ChargePriority(inv, _) => inv,
            Command::ForcedDischarge(inv, _) => inv,
            Command::ChargeRate(inv, _) => inv,
            Command::DischargeRate(inv, _) => inv,
            Command::AcChargeRate(inv, _) => inv,
            Command::AcChargeSocLimit(inv, _) => inv,
            Command::DischargeCutoffSocLimit(inv, _) => inv,
        }
    }

    /// The inverter the command addresses, as a spec value.
    pub open spec fn spec_inverter(&self) -> &Inverter {
        match self {
            Command::ReadInputs(inv, _) => inv,
            Command::ReadInput(inv, _, _) => inv,
            Command::ReadHold(inv, _, _) => inv,
            Command::ReadParam(inv, _) => inv,
            Command::ReadAcChargeTime(inv, _) => inv,
            Command::ReadAcFirstTime(inv, _) => inv,
            Command::ReadChargePriorityTime(inv, _) => inv,
            Command::ReadForcedDischargeTime(inv, _) => inv,
            Command::SetHold(inv, _, _) => inv,
            Command::WriteParam(inv, _, _) => inv,
            Command::SetAcChargeTime(inv, _, _) => inv,
            Command::SetAcFirstTime(inv, _, _) => inv,
            Command::SetChargePriorityTime(inv, _, _) => inv,
            Command::SetForcedDischargeTime(inv, _, _) => inv,
            Command::AcCharge(inv, _) => inv,
            Command::ChargePriority(inv, _) => inv,
            Command::ForcedDischarge(inv, _) => inv,
            Command::ChargeRate(inv, _) => inv,
            Command::DischargeRate(inv, _) => inv,
            Command::AcChargeRate(inv, _) => inv,
            Command::AcChargeSocLimit(inv, _) => inv,
            Command::DischargeCutoffSocLimit(inv, _) => inv,
        }
    }

    /// Whether the command writes inverter or datalog state. Such a command
    /// is refused outright on a read-only inverter.
    pub open spec fn spec_is_write(&self) -> bool {
        match self {
            Command::SetHold(..) | Command::WriteParam(..) | Command::SetAcChargeTime(..)
                | Command::SetAcFirstTime(..) | Command::SetChargePriorityTime(..)
                | Command::SetForcedDischargeTime(..) | Command::AcCharge(..)
                | Command::ChargePriority(..) | Command::ForcedDischarge(..)
                | Command::ChargeRate(..) | Command::DischargeRate(..)
                | Command::AcChargeRate(..) | Command::AcChargeSocLimit(..)
                | Command::DischargeCutoffSocLimit(..) => true,
            _ => false,
        }
    }

    pub fn is_write(&self) -> (r: bool)
        ensures
            r == self.spec_is_write(),
    {
        match self {
            Command::SetHold(..) | Command::WriteParam(..) | Command::SetAcChargeTime(..)
                | Command::SetAcFirstTime(..) | Command::SetChargePriorityTime(..)
                | Command::SetForcedDischargeTime(..) | Command::AcCharge(..)
                | Command::ChargePriority(..) | Command::ForcedDischarge(..)
                | Command::ChargeRate(..) | Command::DischargeRate(..)
                | Command::AcChargeRate(..) | Command::AcChargeSocLimit(..)
                | Command::DischargeCutoffSocLimit(..) => true,
            _ => false,
        }
    }
}

} // verus!
