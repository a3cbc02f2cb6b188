//! The four configuration registers, each a byte on the wire and a struct of
//! settings in memory, with the two directions between the forms.
//!
//! `encode` is exact and total. `decode` is total too: a field whose bits
//! name no setting reads as that field's first setting, because the device
//! may show such a pattern and the caller is still owed a value.

use vstd::prelude::*;
use crate::fields::{ConversionMode, CurrentDac, CurrentMux, DataIntegrityMode, DataRate, Gain, Mux, Vref};

verus! {

/// A flag as the one bit that stores it.
pub open spec fn spec_bit(flag: bool) -> u8 {
    if flag {
        1
    } else {
        0
    }
}

/// A flag as the one bit that stores it.
#[verifier::when_used_as_spec(spec_bit)]
pub fn bit(flag: bool) -> (bit: u8)
    ensures
        bit == spec_bit(flag),
{
    if flag {
        1
    } else {
        0
    }
}

/// Configuration register 0: input selection and amplifier.
///
/// Bits 7 to 4 hold `mux`, bits 3 to 1 `gain`, bit 0 `pga_bypass`.
#[derive(Copy, Clone, Debug, PartialEq, Eq, Structural)]
pub struct Register0 {
    pub mux: Mux,
    pub gain: Gain,
    pub pga_bypass: bool,
}

impl Register0 {
    /// The byte that stores this register: each field's code at its place.
    pub open spec fn spec_encode(self) -> u8 {
        (self.mux.spec_code() * 16 + self.gain.spec_code() * 2 + spec_bit(self.pga_bypass)) as u8
    }

    /// The register that a byte stores.
    pub open spec fn spec_decode(byte: u8) -> Register0 {
        Register0 {
            mux: Mux::spec_from_bits(byte / 16),
            gain: Gain::spec_from_bits((byte / 2) % 8),
            pga_bypass: byte % 2 == 1,
        }
    }

    /// Packs the register into its byte.
    #[verifier::when_used_as_spec(spec_encode)]
    pub fn encode(self) -> (byte: u8)
        ensures
            byte == self.spec_encode(),
            byte == self.mux.spec_code() * 16 + self.gain.spec_code() * 2 + spec_bit(self.pga_bypass),
    {
        let mux: u8 = self.mux.code();
        let gain: u8 = self.gain.code();
        let pga_bypass: u8 = bit(self.pga_bypass);
        assert(((mux << 4) | (gain << 1) | pga_bypass) == mux * 16 + gain * 2 + pga_bypass)
            by (bit_vector)
            requires
                mux <= 14,
                gain <= 7,
                pga_bypass <= 1,
        ;
        (mux << 4) | (gain << 1) | pga_bypass
    }

    /// Unpacks a byte. Mux pattern 15 reads as `A0A1`.
    #[verifier::when_used_as_spec(spec_decode)]
    pub fn decode(byte: u8) -> (register: Register0)
        ensures
            register == Register0::spec_decode(byte),
    {
        let mux: u8 = byte >> 4;
        let gain: u8 = (byte >> 1) & 0b111;
        let pga_bypass: u8 = byte & 0b1;
        assert(byte >> 4 == byte / 16 && (byte >> 1) & 0b111 == (byte / 2) % 8 && byte & 0b1 == byte
            % 2) by (bit_vector);
        Register0 {
            mux: Mux::from_bits(mux),
            gain: Gain::from_bits(gain),
            pga_bypass: pga_bypass != 0,
        }
    }

    /// What decoding gives, field by field. Fifteen of the sixteen mux
    /// patterns name a selection and read as it; pattern 15 reads as `A0A1`.
    /// Every gain pattern names a gain.
    pub proof fn decoded_fields(byte: u8)
        ensures
            byte / 16 <= 14 ==> Register0::spec_decode(byte).mux.spec_code() == byte / 16,
            byte / 16 == 15 ==> Register0::spec_decode(byte).mux == Mux::A0A1,
            Register0::spec_decode(byte).gain.spec_code() == (byte / 2) % 8,
            Register0::spec_decode(byte).pga_bypass == (byte % 2 == 1),
    {
    }

    /// Decoding what was encoded gives the register back.
    pub proof fn round_trip(self)
        ensures
            Register0::spec_decode(self.spec_encode()) == self,
    {
        self.mux.code_round_trip();
        self.gain.code_round_trip();
    }
}

/// Configuration register 1: conversion timing and reference.
///
/// Bits 7 to 5 hold the data rate's place within its family, bit 4 the
/// family (set for turbo), bit 3 `conversion_mode`, bits 2 to 1
/// `voltage_reference`, bit 0 `temperature_sensor_mode`.
#[derive(Copy, Clone, Debug, PartialEq, Eq, Structural)]
pub struct Register1 {
    pub data_rate: DataRate,
    pub conversion_mode: ConversionMode,
    pub voltage_reference: Vref,
    pub temperature_sensor_mode: bool,
}

impl Register1 {
    /// The byte that stores this register: each field's code at its place.
    pub open spec fn spec_encode(self) -> u8 {
        (self.data_rate.spec_rate_bits() * 32 + spec_bit(self.data_rate.spec_is_turbo()) * 16
            + self.conversion_mode.spec_code() * 8 + self.voltage_reference.spec_code() * 2
            + spec_bit(self.temperature_sensor_mode)) as u8
    }

    /// The register that a byte stores.
    pub open spec fn spec_decode(byte: u8) -> Register1 {
        Register1 {
            data_rate: DataRate::spec_from_dr_mode(byte / 32, (byte / 16) % 2 == 1),
            conversion_mode: ConversionMode::spec_from_bits((byte / 8) % 2),
            voltage_reference: Vref::spec_from_bits((byte / 2) % 4),
            temperature_sensor_mode: byte % 2 == 1,
        }
    }

    /// Packs the register into its byte.
    #[verifier::when_used_as_spec(spec_encode)]
    pub fn encode(self) -> (byte: u8)
        ensures
            byte == self.spec_encode(),
            byte == self.data_rate.spec_rate_bits() * 32 + spec_bit(self.data_rate.spec_is_turbo())
                * 16 + self.conversion_mode.spec_code() * 8 + self.voltage_reference.spec_code() * 2
                + spec_bit(self.temperature_sensor_mode),
    {
        let dr: u8 = self.data_rate.rate_bits();
        let mode: u8 = bit(self.data_rate.is_turbo());
        let cm: u8 = self.conversion_mode.code();
        let vref: u8 = self.voltage_reference.code();
        let ts: u8 = bit(self.temperature_sensor_mode);
        assert(((dr << 5) | (mode << 4) | (cm << 3) | (vref << 1) | ts) == dr * 32 + mode * 16 + cm
            * 8 + vref * 2 + ts) by (bit_vector)
            requires
                dr <= 6,
                mode <= 1,
                cm <= 1,
                vref <= 3,
                ts <= 1,
        ;
        (dr << 5) | (mode << 4) | (cm << 3) | (vref << 1) | ts
    }

    /// Unpacks a byte. The data rate is read from two fields together: rate
    /// pattern 7 reads as the slowest rate of the family that bit 4 names.
    #[verifier::when_used_as_spec(spec_decode)]
    pub fn decode(byte: u8) -> (register: Register1)
        ensures
            register == Register1::spec_decode(byte),
    {
        let dr: u8 = (byte >> 5) & 0b111;
        let mode: u8 = (byte >> 4) & 0b1;
        let cm: u8 = (byte >> 3) & 0b1;
        let vref: u8 = (byte >> 1) & 0b11;
        let ts: u8 = byte & 0b1;
        assert((byte >> 5) & 0b111 == byte / 32 && (byte >> 4) & 0b1 == (byte / 16) % 2 && (byte
            >> 3) & 0b1 == (byte / 8) % 2 && (byte >> 1) & 0b11 == (byte / 2) % 4 && byte & 0b1
            == byte % 2) by (bit_vector);
        Register1 {
            data_rate: DataRate::from_dr_mode(dr, mode != 0),
            conversion_mode: ConversionMode::from_bits(cm),
            voltage_reference: Vref::from_bits(vref),
            temperature_sensor_mode: ts != 0,
        }
    }

    /// What decoding gives, field by field. The family of the data rate is
    /// bit 4 whatever the rate bits say; the place within the family is the
    /// rate bits where they are 0 to 6, and pattern 7 reads as the slowest
    /// rate of the family. Every mode and reference pattern names a setting.
    pub proof fn decoded_fields(byte: u8)
        ensures
            Register1::spec_decode(byte).data_rate.spec_is_turbo() == ((byte / 16) % 2 == 1),
            byte / 32 <= 6 ==> Register1::spec_decode(byte).data_rate.spec_rate_bits() == byte / 32,
            byte / 32 == 7 && (byte / 16) % 2 == 0 ==> Register1::spec_decode(byte).data_rate
                == DataRate::N20,
            byte / 32 == 7 && (byte / 16) % 2 == 1 ==> Register1::spec_decode(byte).data_rate
                == DataRate::T40,
            Register1::spec_decode(byte).conversion_mode.spec_code() == (byte / 8) % 2,
            Register1::spec_decode(byte).voltage_reference.spec_code() == (byte / 2) % 4,
            Register1::spec_decode(byte).temperature_sensor_mode == (byte % 2 == 1),
    {
    }

    /// Decoding what was encoded gives the register back.
    pub proof fn round_trip(self)
        ensures
            Register1::spec_decode(self.spec_encode()) == self,
    {
        self.data_rate.fields_round_trip();
        self.conversion_mode.code_round_trip();
        self.voltage_reference.code_round_trip();
    }
}

/// Configuration register 2: status, data integrity and excitation current.
///
/// Bit 7 holds `data_ready`, bit 6 `data_count_enable`, bits 5 to 4
/// `data_integrity_mode`, bit 3 `burn_out_source_enable`. The code of
/// `current_dac` is written from bit 0 up and so reaches bit 2 for the four
/// highest levels; reading takes bits 1 to 0 only.
#[derive(Copy, Clone, Debug, PartialEq, Eq, Structural)]
pub struct Register2 {
    /// Set by the device when a new conversion result waits to be read.
    pub data_ready: bool,
    pub data_count_enable: bool,
    pub data_integrity_mode: DataIntegrityMode,
    pub burn_out_source_enable: bool,
    pub current_dac: CurrentDac,
}

impl Register2 {
    /// The byte that stores this register: each field's code at its place.
    pub open spec fn spec_encode(self) -> u8 {
        (spec_bit(self.data_ready) * 128 + spec_bit(self.data_count_enable) * 64
            + self.data_integrity_mode.spec_code() * 16 + spec_bit(self.burn_out_source_enable) * 8
            + self.current_dac.spec_code()) as u8
    }

    /// The register that a byte stores.
    pub open spec fn spec_decode(byte: u8) -> Register2 {
        Register2 {
            data_ready: byte / 128 == 1,
            data_count_enable: (byte / 64) % 2 == 1,
            data_integrity_mode: DataIntegrityMode::spec_from_bits((byte / 16) % 4),
            burn_out_source_enable: (byte / 8) % 2 == 1,
            current_dac: CurrentDac::spec_from_bits(byte % 4),
        }
    }

    /// Packs the register into its byte.
    #[verifier::when_used_as_spec(spec_encode)]
    pub fn encode(self) -> (byte: u8)
        ensures
            byte == self.spec_encode(),
            byte == spec_bit(self.data_ready) * 128 + spec_bit(self.data_count_enable) * 64
                + self.data_integrity_mode.spec_code() * 16 + spec_bit(self.burn_out_source_enable)
                * 8 + self.current_dac.spec_code(),
    {
        let drdy: u8 = bit(self.data_ready);
        let dcnt: u8 = bit(self.data_count_enable);
        let crc: u8 = self.data_integrity_mode.code();
        let bcs: u8 = bit(self.burn_out_source_enable);
        let idac: u8 = self.current_dac.code();
        assert(((drdy << 7) | (dcnt << 6) | (crc << 4) | (bcs << 3) | idac) == drdy * 128 + dcnt
            * 64 + crc * 16 + bcs * 8 + idac) by (bit_vector)
            requires
                drdy <= 1,
                dcnt <= 1,
                crc <= 2,
                bcs <= 1,
                idac <= 7,
        ;
        (drdy << 7) | (dcnt << 6) | (crc << 4) | (bcs << 3) | idac
    }

    /// Unpacks a byte. Integrity pattern 3 reads as `Disabled`. The current
    /// level is the one whose code is the byte's two lowest bits: each of
    /// the four patterns names a level, so nothing is substituted there.
    #[verifier::when_used_as_spec(spec_decode)]
    pub fn decode(byte: u8) -> (register: Register2)
        ensures
            register == Register2::spec_decode(byte),
            register.current_dac.spec_code() == byte % 4,
    {
        let drdy: u8 = byte >> 7;
        let dcnt: u8 = (byte >> 6) & 0b1;
        let crc: u8 = (byte >> 4) & 0b11;
        let bcs: u8 = (byte >> 3) & 0b1;
        let idac: u8 = byte & 0b11;
        assert(byte >> 7 == byte / 128 && (byte >> 6) & 0b1 == (byte / 64) % 2 && (byte >> 4)
            & 0b11 == (byte / 16) % 4 && (byte >> 3) & 0b1 == (byte / 8) % 2 && byte & 0b11 == byte
            % 4) by (bit_vector);
        Register2 {
            data_ready: drdy != 0,
            data_count_enable: dcnt != 0,
            data_integrity_mode: DataIntegrityMode::from_bits(crc),
            burn_out_source_enable: bcs != 0,
            current_dac: CurrentDac::from_bits(idac),
        }
    }

    /// What decoding gives, field by field. Three of the four integrity
    /// patterns name a mode and read as it; pattern 3 reads as `Disabled`.
    /// The current level always has the two lowest bits as its code.
    pub proof fn decoded_fields(byte: u8)
        ensures
            Register2::spec_decode(byte).data_ready == (byte >= 128),
            Register2::spec_decode(byte).data_count_enable == ((byte / 64) % 2 == 1),
            (byte / 16) % 4 <= 2 ==> Register2::spec_decode(byte).data_integrity_mode.spec_code()
                == (byte / 16) % 4,
            (byte / 16) % 4 == 3 ==> Register2::spec_decode(byte).data_integrity_mode
                == DataIntegrityMode::Disabled,
            Register2::spec_decode(byte).burn_out_source_enable == ((byte / 8) % 2 == 1),
            Register2::spec_decode(byte).current_dac.spec_code() == byte % 4,
    {
    }

    /// Decoding what was encoded gives the register back, as long as the
    /// current level is one of the four that two bits can hold (`Off` to
    /// `I100uA`).
    pub proof fn round_trip(self)
        requires
            self.current_dac.spec_code() <= 3,
        ensures
            Register2::spec_decode(self.spec_encode()) == self,
    {
        self.data_integrity_mode.code_round_trip();
        self.current_dac.code_round_trip();
    }

    /// For every level, decoding what was encoded gives back all fields but
    /// the current level, and of that the code's two lowest bits.
    pub proof fn round_trip_but_current(self)
        ensures
            Register2::spec_decode(self.spec_encode()) == (Register2 {
                current_dac: CurrentDac::spec_from_bits(self.current_dac.spec_code() % 4),
                ..self
            }),
    {
        self.data_integrity_mode.code_round_trip();
    }
}

/// Configuration register 3: routing of the two excitation-current sources.
///
/// Bits 7 to 5 hold `current_mux_1`, bits 4 to 2 `current_mux_2`; bits 1 and
/// 0 are written as zero and ignored when read.
#[derive(Copy, Clone, Debug, PartialEq, Eq, Structural)]
pub struct Register3 {
    pub current_mux_1: CurrentMux,
    pub current_mux_2: CurrentMux,
}

impl Register3 {
    /// The byte that stores this register: each field's code at its place.
    pub open spec fn spec_encode(self) -> u8 {
        (self.current_mux_1.spec_code() * 32 + self.current_mux_2.spec_code() * 4) as u8
    }

    /// The register that a byte stores.
    pub open spec fn spec_decode(byte: u8) -> Register3 {
        Register3 {
            current_mux_1: CurrentMux::spec_from_bits(byte / 32),
            current_mux_2: CurrentMux::spec_from_bits((byte / 4) % 8),
        }
    }

    /// Packs the register into its byte.
    #[verifier::when_used_as_spec(spec_encode)]
    pub fn encode(self) -> (byte: u8)
        ensures
            byte == self.spec_encode(),
            byte == self.current_mux_1.spec_code() * 32 + self.current_mux_2.spec_code() * 4,
    {
        let cm1: u8 = self.current_mux_1.code();
        let cm2: u8 = self.current_mux_2.code();
        assert(((cm1 << 5) | (cm2 << 2)) == cm1 * 32 + cm2 * 4) by (bit_vector)
            requires
                cm1 <= 6,
                cm2 <= 6,
        ;
        (cm1 << 5) | (cm2 << 2)
    }

    /// Unpacks a byte. Routing pattern 7 reads as `Disabled` in either field.
    #[verifier::when_used_as_spec(spec_decode)]
    pub fn decode(byte: u8) -> (register: Register3)
        ensures
            register == Register3::spec_decode(byte),
    {
        let i1mux: u8 = (byte >> 5) & 0b111;
        let i2mux: u8 = (byte >> 2) & 0b111;
        assert((byte >> 5) & 0b111 == byte / 32 && (byte >> 2) & 0b111 == (byte / 4) % 8)
            by (bit_vector);
        Register3 {
            current_mux_1: CurrentMux::from_bits(i1mux),
            current_mux_2: CurrentMux::from_bits(i2mux),
        }
    }

    /// What decoding gives, field by field. Seven of the eight routing
    /// patterns name a routing and read as it; pattern 7 reads as
    /// `Disabled`, in either field. The two lowest bits play no part.
    pub proof fn decoded_fields(byte: u8)
        ensures
            byte / 32 <= 6 ==> Register3::spec_decode(byte).current_mux_1.spec_code() == byte / 32,
            byte / 32 == 7 ==> Register3::spec_decode(byte).current_mux_1 == CurrentMux::Disabled,
            (byte / 4) % 8 <= 6 ==> Register3::spec_decode(byte).current_mux_2.spec_code() == (byte
                / 4) % 8,
            (byte / 4) % 8 == 7 ==> Register3::spec_decode(byte).current_mux_2
                == CurrentMux::Disabled,
            Register3::spec_decode(byte) == Register3::spec_decode((byte - byte % 4) as u8),
    {
    }

    /// Decoding what was encoded gives the register back.
    pub proof fn round_trip(self)
        ensures
            Register3::spec_decode(self.spec_encode()) == self,
    {
        self.current_mux_1.code_round_trip();
        self.current_mux_2.code_round_trip();
    }
}

/// One of the four registers together with its value: what a write to the
/// device carries.
#[derive(Copy, Clone, Debug, PartialEq, Eq, Structural)]
pub enum Register {
    Reg0(Register0),
    Reg1(Register1),
    Reg2(Register2),
    Reg3(Register3),
}

impl Register {
    /// The number of the register, 0 to 3.
    pub open spec fn spec_index(self) -> u8 {
        match self {
            Register::Reg0(_) => 0,
            Register::Reg1(_) => 1,
            Register::Reg2(_) => 2,
            Register::Reg3(_) => 3,
        }
    }

    /// The byte that stores the value.
    pub open spec fn spec_encode(self) -> u8 {
        match self {
            Register::Reg0(r) => r.spec_encode(),
            Register::Reg1(r) => r.spec_encode(),
            Register::Reg2(r) => r.spec_encode(),
            Register::Reg3(r) => r.spec_encode(),
        }
    }

    /// The number of the register, 0 to 3.
    #[verifier::when_used_as_spec(spec_index)]
    pub fn index(self) -> (index: u8)
        ensures
            index == self.spec_index(),
            index <= 3,
    {
        match self {
            Register::Reg0(_) => 0,
            Register::Reg1(_) => 1,
            Register::Reg2(_) => 2,
            Register::Reg3(_) => 3,
        }
    }

    /// Packs the value into its byte, by the layout of its register.
    #[verifier::when_used_as_spec(spec_encode)]
    pub fn encode(self) -> (byte: u8)
        ensures
            byte == self.spec_encode(),
    {
        match self {
            Register::Reg0(r) => r.encode(),
            Register::Reg1(r) => r.encode(),
            Register::Reg2(r) => r.encode(),
            Register::Reg3(r) => r.encode(),
        }
    }
}

impl From<Register0> for u8 {
    fn from(value: Register0) -> (byte: u8) {
        value.encode()
    }
}

impl vstd::std_specs::convert::FromSpecImpl<Register0> for u8 {
    open spec fn obeys_from_spec() -> bool {
        true
    }

    open spec fn from_spec(value: Register0) -> u8 {
        value.spec_encode()
    }
}

impl From<Register1> for u8 {
    fn from(value: Register1) -> (byte: u8) {
        value.encode()
    }
}

impl vstd::std_specs::convert::FromSpecImpl<Register1> for u8 {
    open spec fn obeys_from_spec() -> bool {
        true
    }

    open spec fn from_spec(value: Register1) -> u8 {
        value.spec_encode()
    }
}

impl From<Register2> for u8 {
    fn from(value: Register2) -> (byte: u8) {
        value.encode()
    }
}

impl vstd::std_specs::convert::FromSpecImpl<Register2> for u8 {
    open spec fn obeys_from_spec() -> bool {
        true
    }

    open spec fn from_spec(value: Register2) -> u8 {
        value.spec_encode()
    }
}

impl From<Register3> for u8 {
    fn from(value: Register3) -> (byte: u8) {
        value.encode()
    }
}

impl vstd::std_specs::convert::FromSpecImpl<Register3> for u8 {
    open spec fn obeys_from_spec() -> bool {
        true
    }

    open spec fn from_spec(value: Register3) -> u8 {
        value.spec_encode()
    }
}

} // verus!
