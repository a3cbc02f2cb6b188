//! The enumerated settings that the configuration registers are built from,
//! each with its numeric code on the wire.
//!
//! Every setting has exactly one code. A register field can be wider than the
//! set of defined codes, so each type offers two ways back from a number:
//! `from_code`, which answers `None` for a code that names no setting, and
//! `from_bits`, which is total and falls back to the type's first setting.

use vstd::prelude::*;

verus! {

/// Input multiplexer: which pair of signals the converter measures.
#[derive(Copy, Clone, Debug, PartialEq, Eq, Structural)]
pub enum Mux {
    /// AINp = A0, AINn = A1
    A0A1,
    /// AINp = A0, AINn = A2
    A0A2,
    /// AINp = A0, AINn = A3
    A0A3,
    /// AINp = A1, AINn = A0
    A1A0,
    /// AINp = A1, AINn = A2
    A1A2,
    /// AINp = A1, AINn = A3
    A1A3,
    /// AINp = A2, AINn = A3
    A2A3,
    /// AINp = A3, AINn = A2
    A3A2,
    /// AINp = A0, AINn = Vss
    A0Vss,
    /// AINp = A1, AINn = Vss
    A1Vss,
    /// AINp = A2, AINn = Vss
    A2Vss,
    /// AINp = A3, AINn = Vss
    A3Vss,
    /// `(Vrefp - Vrefn) / 4`
    Vref,
    /// `(Avdd - Avss) / 4`
    Supply,
    /// Both AINp and AINn shorted to `(AVDD + AVSS) / 2`
    Shorted,
}

impl Mux {
    /// The four-bit code of this selection.
    pub open spec fn spec_code(self) -> u8 {
        match self {
            Mux::A0A1 => 0,
            Mux::A0A2 => 1,
            Mux::A0A3 => 2,
            Mux::A1A0 => 3,
            Mux::A1A2 => 4,
            Mux::A1A3 => 5,
            Mux::A2A3 => 6,
            Mux::A3A2 => 7,
            Mux::A0Vss => 8,
            Mux::A1Vss => 9,
            Mux::A2Vss => 10,
            Mux::A3Vss => 11,
            Mux::Vref => 12,
            Mux::Supply => 13,
            Mux::Shorted => 14,
        }
    }

    /// The selection that `code` names, if it names one.
    pub open spec fn spec_from_code(code: u8) -> Option<Mux> {
        match code {
            0 => Some(Mux::A0A1),
            1 => Some(Mux::A0A2),
            2 => Some(Mux::A0A3),
            3 => Some(Mux::A1A0),
            4 => Some(Mux::A1A2),
            5 => Some(Mux::A1A3),
            6 => Some(Mux::A2A3),
            7 => Some(Mux::A3A2),
            8 => Some(Mux::A0Vss),
            9 => Some(Mux::A1Vss),
            10 => Some(Mux::A2Vss),
            11 => Some(Mux::A3Vss),
            12 => Some(Mux::Vref),
            13 => Some(Mux::Supply),
            14 => Some(Mux::Shorted),
            _ => None,
        }
    }

    /// The selection that `bits` names, or `A0A1` where it names none.
    pub open spec fn spec_from_bits(bits: u8) -> Mux {
        match Mux::spec_from_code(bits) {
            Some(mux) => mux,
            None => Mux::A0A1,
        }
    }

    /// The four-bit code of this selection.
    #[verifier::when_used_as_spec(spec_code)]
    pub fn code(self) -> (code: u8)
        ensures
            code == self.spec_code(),
            code <= 14,
    {
        match self {
            Mux::A0A1 => 0,
            Mux::A0A2 => 1,
            Mux::A0A3 => 2,
            Mux::A1A0 => 3,
            Mux::A1A2 => 4,
            Mux::A1A3 => 5,
            Mux::A2A3 => 6,
            Mux::A3A2 => 7,
            Mux::A0Vss => 8,
            Mux::A1Vss => 9,
            Mux::A2Vss => 10,
            Mux::A3Vss => 11,
            Mux::Vref => 12,
            Mux::Supply => 13,
            Mux::Shorted => 14,
        }
    }

    /// Looks a code up: `Some` exactly for the codes 0 to 14, and then the
    /// one selection that has this code.
    #[verifier::when_used_as_spec(spec_from_code)]
    pub fn from_code(code: u8) -> (found: Option<Mux>)
        ensures
            found == Mux::spec_from_code(code),
            found is Some <==> code <= 14,
            found matches Some(mux) ==> mux.spec_code() == code,
    {
        match code {
            0 => Some(Mux::A0A1),
            1 => Some(Mux::A0A2),
            2 => Some(Mux::A0A3),
            3 => Some(Mux::A1A0),
            4 => Some(Mux::A1A2),
            5 => Some(Mux::A1A3),
            6 => Some(Mux::A2A3),
            7 => Some(Mux::A3A2),
            8 => Some(Mux::A0Vss),
            9 => Some(Mux::A1Vss),
            10 => Some(Mux::A2Vss),
            11 => Some(Mux::A3Vss),
            12 => Some(Mux::Vref),
            13 => Some(Mux::Supply),
            14 => Some(Mux::Shorted),
            _ => None,
        }
    }

    /// Reads a register field: the selection with code `bits`, and `A0A1`
    /// for the one four-bit pattern, 15, that the device leaves undefined
    /// (and for anything wider than the field).
    #[verifier::when_used_as_spec(spec_from_bits)]
    pub fn from_bits(bits: u8) -> (mux: Mux)
        ensures
            mux == Mux::spec_from_bits(bits),
            bits <= 14 ==> mux.spec_code() == bits,
            bits > 14 ==> mux == Mux::A0A1,
    {
        match Mux::from_code(bits) {
            Some(mux) => mux,
            None => Mux::A0A1,
        }
    }

    /// A selection is found again from its code.
    pub proof fn code_round_trip(self)
        ensures
            Mux::spec_from_code(self.spec_code()) == Some(self),
            Mux::spec_from_bits(self.spec_code()) == self,
    {
    }
}

/// Gain of the programmable amplifier, a power of two from 1 to 128.
#[derive(Copy, Clone, Debug, PartialEq, Eq, Structural)]
pub enum Gain {
    X1,
    X2,
    X4,
    X8,
    X16,
    X32,
    X64,
    X128,
}

impl Gain {
    /// The three-bit code of this gain: the exponent of the power of two.
    pub open spec fn spec_code(self) -> u8 {
        match self {
            Gain::X1 => 0,
            Gain::X2 => 1,
            Gain::X4 => 2,
            Gain::X8 => 3,
            Gain::X16 => 4,
            Gain::X32 => 5,
            Gain::X64 => 6,
            Gain::X128 => 7,
        }
    }

    /// The setting that `code` names, if it names one.
    pub open spec fn spec_from_code(code: u8) -> Option<Gain> {
        match code {
            0 => Some(Gain::X1),
            1 => Some(Gain::X2),
            2 => Some(Gain::X4),
            3 => Some(Gain::X8),
            4 => Some(Gain::X16),
            5 => Some(Gain::X32),
            6 => Some(Gain::X64),
            7 => Some(Gain::X128),
            _ => None,
        }
    }

    /// The setting that `bits` names, or `X1` where it names none.
    pub open spec fn spec_from_bits(bits: u8) -> Gain {
        match Gain::spec_from_code(bits) {
            Some(setting) => setting,
            None => Gain::X1,
        }
    }

    /// The three-bit code of this gain: the exponent of the power of two.
    #[verifier::when_used_as_spec(spec_code)]
    pub fn code(self) -> (code: u8)
        ensures
            code == self.spec_code(),
            code <= 7,
    {
        match self {
            Gain::X1 => 0,
            Gain::X2 => 1,
            Gain::X4 => 2,
            Gain::X8 => 3,
            Gain::X16 => 4,
            Gain::X32 => 5,
            Gain::X64 => 6,
            Gain::X128 => 7,
        }
    }

    /// Looks a code up: `Some` exactly for the codes 0 to 7, and then the
    /// one setting that has this code.
    #[verifier::when_used_as_spec(spec_from_code)]
    pub fn from_code(code: u8) -> (found: Option<Gain>)
        ensures
            found == Gain::spec_from_code(code),
            found is Some <==> code <= 7,
            found matches Some(setting) ==> setting.spec_code() == code,
    {
        match code {
            0 => Some(Gain::X1),
            1 => Some(Gain::X2),
            2 => Some(Gain::X4),
            3 => Some(Gain::X8),
            4 => Some(Gain::X16),
            5 => Some(Gain::X32),
            6 => Some(Gain::X64),
            7 => Some(Gain::X128),
            _ => None,
        }
    }

    /// Reads a register field: the gain with code `bits`. Every three-bit
    /// pattern names a gain; anything wider than the field gives `X1`.
    #[verifier::when_used_as_spec(spec_from_bits)]
    pub fn from_bits(bits: u8) -> (setting: Gain)
        ensures
            setting == Gain::spec_from_bits(bits),
            bits <= 7 ==> setting.spec_code() == bits,
            bits > 7 ==> setting == Gain::X1,
    {
        match Gain::from_code(bits) {
            Some(setting) => setting,
            None => Gain::X1,
        }
    }

    /// A setting is found again from its code.
    pub proof fn code_round_trip(self)
        ensures
            Gain::spec_from_code(self.spec_code()) == Some(self),
            Gain::spec_from_bits(self.spec_code()) == self,
    {
    }
}

/// Whether the device converts once per start command or keeps converting.
#[derive(Copy, Clone, Debug, PartialEq, Eq, Structural)]
pub enum ConversionMode {
    /// One conversion per start command.
    Single,
    /// Conversions follow one another until power-down.
    Continuous,
}

impl ConversionMode {
    /// The one-bit code of this mode.
    pub open spec fn spec_code(self) -> u8 {
        match self {
            ConversionMode::Single => 0,
            ConversionMode::Continuous => 1,
        }
    }

    /// The setting that `code` names, if it names one.
    pub open spec fn spec_from_code(code: u8) -> Option<ConversionMode> {
        match code {
            0 => Some(ConversionMode::Single),
            1 => Some(ConversionMode::Continuous),
            _ => None,
        }
    }

    /// The setting that `bits` names, or `Single` where it names none.
    pub open spec fn spec_from_bits(bits: u8) -> ConversionMode {
        match ConversionMode::spec_from_code(bits) {
            Some(setting) => setting,
            None => ConversionMode::Single,
        }
    }

    /// The one-bit code of this mode.
    #[verifier::when_used_as_spec(spec_code)]
    pub fn code(self) -> (code: u8)
        ensures
            code == self.spec_code(),
            code <= 1,
    {
        match self {
            ConversionMode::Single => 0,
            ConversionMode::Continuous => 1,
        }
    }

    /// Looks a code up: `Some` exactly for the codes 0 to 1, and then the
    /// one setting that has this code.
    #[verifier::when_used_as_spec(spec_from_code)]
    pub fn from_code(code: u8) -> (found: Option<ConversionMode>)
        ensures
            found == ConversionMode::spec_from_code(code),
            found is Some <==> code <= 1,
            found matches Some(setting) ==> setting.spec_code() == code,
    {
        match code {
            0 => Some(ConversionMode::Single),
            1 => Some(ConversionMode::Continuous),
            _ => None,
        }
    }

    /// Reads a register field: the mode with code `bits`. Both one-bit
    /// patterns name a mode; anything wider than the field gives `Single`.
    #[verifier::when_used_as_spec(spec_from_bits)]
    pub fn from_bits(bits: u8) -> (setting: ConversionMode)
        ensures
            setting == ConversionMode::spec_from_bits(bits),
            bits <= 1 ==> setting.spec_code() == bits,
            bits > 1 ==> setting == ConversionMode::Single,
    {
        match ConversionMode::from_code(bits) {
            Some(setting) => setting,
            None => ConversionMode::Single,
        }
    }

    /// A setting is found again from its code.
    pub proof fn code_round_trip(self)
        ensures
            ConversionMode::spec_from_code(self.spec_code()) == Some(self),
            ConversionMode::spec_from_bits(self.spec_code()) == self,
    {
    }
}

/// The voltage reference that conversions are measured against.
#[derive(Copy, Clone, Debug, PartialEq, Eq, Structural)]
pub enum Vref {
    /// Internal 2.048 V reference.
    Internal,
    /// External reference on the REFP and REFN pins.
    External,
    /// Analog supply, `AVDD - AVSS`.
    Supply,
    /// Analog supply, the second code for it.
    Supply2,
}

impl Vref {
    /// The two-bit code of this reference.
    pub open spec fn spec_code(self) -> u8 {
        match self {
            Vref::Internal => 0,
            Vref::External => 1,
            Vref::Supply => 2,
            Vref::Supply2 => 3,
        }
    }

    /// The setting that `code` names, if it names one.
    pub open spec fn spec_from_code(code: u8) -> Option<Vref> {
        match code {
            0 => Some(Vref::Internal),
            1 => Some(Vref::External),
            2 => Some(Vref::Supply),
            3 => Some(Vref::Supply2),
            _ => None,
        }
    }

    /// The setting that `bits` names, or `Internal` where it names none.
    pub open spec fn spec_from_bits(bits: u8) -> Vref {
        match Vref::spec_from_code(bits) {
            Some(setting) => setting,
            None => Vref::Internal,
        }
    }

    /// The two-bit code of this reference.
    #[verifier::when_used_as_spec(spec_code)]
    pub fn code(self) -> (code: u8)
        ensures
            code == self.spec_code(),
            code <= 3,
    {
        match self {
            Vref::Internal => 0,
            Vref::External => 1,
            Vref::Supply => 2,
            Vref::Supply2 => 3,
        }
    }

    /// Looks a code up: `Some` exactly for the codes 0 to 3, and then the
    /// one setting that has this code.
    #[verifier::when_used_as_spec(spec_from_code)]
    pub fn from_code(code: u8) -> (found: Option<Vref>)
        ensures
            found == Vref::spec_from_code(code),
            found is Some <==> code <= 3,
            found matches Some(setting) ==> setting.spec_code() == code,
    {
        match code {
            0 => Some(Vref::Internal),
            1 => Some(Vref::External),
            2 => Some(Vref::Supply),
            3 => Some(Vref::Supply2),
            _ => None,
        }
    }

    /// Reads a register field: the reference with code `bits`. Every two-bit
    /// pattern names a reference; anything wider than the field gives
    /// `Internal`.
    #[verifier::when_used_as_spec(spec_from_bits)]
    pub fn from_bits(bits: u8) -> (setting: Vref)
        ensures
            setting == Vref::spec_from_bits(bits),
            bits <= 3 ==> setting.spec_code() == bits,
            bits > 3 ==> setting == Vref::Internal,
    {
        match Vref::from_code(bits) {
            Some(setting) => setting,
            None => Vref::Internal,
        }
    }

    /// A setting is found again from its code.
    pub proof fn code_round_trip(self)
        ensures
            Vref::spec_from_code(self.spec_code()) == Some(self),
            Vref::spec_from_bits(self.spec_code()) == self,
    {
    }
}

/// The check that the device appends to conversion data.
#[derive(Copy, Clone, Debug, PartialEq, Eq, Structural)]
pub enum DataIntegrityMode {
    /// No check.
    Disabled,
    /// The data is sent a second time, inverted.
    InvertedData,
    /// A 16-bit cyclic redundancy check follows the data.
    Crc16,
}

impl DataIntegrityMode {
    /// The two-bit code of this mode.
    pub open spec fn spec_code(self) -> u8 {
        match self {
            DataIntegrityMode::Disabled => 0,
            DataIntegrityMode::InvertedData => 1,
            DataIntegrityMode::Crc16 => 2,
        }
    }

    /// The setting that `code` names, if it names one.
    pub open spec fn spec_from_code(code: u8) -> Option<DataIntegrityMode> {
        match code {
            0 => Some(DataIntegrityMode::Disabled),
            1 => Some(DataIntegrityMode::InvertedData),
            2 => Some(DataIntegrityMode::Crc16),
            _ => None,
        }
    }

    /// The setting that `bits` names, or `Disabled` where it names none.
    pub open spec fn spec_from_bits(bits: u8) -> DataIntegrityMode {
        match DataIntegrityMode::spec_from_code(bits) {
            Some(setting) => setting,
            None => DataIntegrityMode::Disabled,
        }
    }

    /// The two-bit code of this mode.
    #[verifier::when_used_as_spec(spec_code)]
    pub fn code(self) -> (code: u8)
        ensures
            code == self.spec_code(),
            code <= 2,
    {
        match self {
            DataIntegrityMode::Disabled => 0,
            DataIntegrityMode::InvertedData => 1,
            DataIntegrityMode::Crc16 => 2,
        }
    }

    /// Looks a code up: `Some` exactly for the codes 0 to 2, and then the
    /// one setting that has this code.
    #[verifier::when_used_as_spec(spec_from_code)]
    pub fn from_code(code: u8) -> (found: Option<DataIntegrityMode>)
        ensures
            found == DataIntegrityMode::spec_from_code(code),
            found is Some <==> code <= 2,
            found matches Some(setting) ==> setting.spec_code() == code,
    {
        match code {
            0 => Some(DataIntegrityMode::Disabled),
            1 => Some(DataIntegrityMode::InvertedData),
            2 => Some(DataIntegrityMode::Crc16),
            _ => None,
        }
    }

    /// Reads a register field: the mode with code `bits`, and `Disabled` for
    /// the one two-bit pattern, 3, that the device leaves undefined (and for
    /// anything wider than the field).
    #[verifier::when_used_as_spec(spec_from_bits)]
    pub fn from_bits(bits: u8) -> (setting: DataIntegrityMode)
        ensures
            setting == DataIntegrityMode::spec_from_bits(bits),
            bits <= 2 ==> setting.spec_code() == bits,
            bits > 2 ==> setting == DataIntegrityMode::Disabled,
    {
        match DataIntegrityMode::from_code(bits) {
            Some(setting) => setting,
            None => DataIntegrityMode::Disabled,
        }
    }

    /// A setting is found again from its code.
    pub proof fn code_round_trip(self)
        ensures
            DataIntegrityMode::spec_from_code(self.spec_code()) == Some(self),
            DataIntegrityMode::spec_from_bits(self.spec_code()) == self,
    {
    }
}

/// Level of the two programmable excitation-current sources.
#[derive(Copy, Clone, Debug, PartialEq, Eq, Structural)]
pub enum CurrentDac {
    Off,
    I10uA,
    I50uA,
    I100uA,
    I250uA,
    I500uA,
    I1000uA,
    I1500uA,
}

impl CurrentDac {
    /// The three-bit code of this level.
    pub open spec fn spec_code(self) -> u8 {
        match self {
            CurrentDac::Off => 0,
            CurrentDac::I10uA => 1,
            CurrentDac::I50uA => 2,
            CurrentDac::I100uA => 3,
            CurrentDac::I250uA => 4,
            CurrentDac::I500uA => 5,
            CurrentDac::I1000uA => 6,
            CurrentDac::I1500uA => 7,
        }
    }

    /// The setting that `code` names, if it names one.
    pub open spec fn spec_from_code(code: u8) -> Option<CurrentDac> {
        match code {
            0 => Some(CurrentDac::Off),
            1 => Some(CurrentDac::I10uA),
            2 => Some(CurrentDac::I50uA),
            3 => Some(CurrentDac::I100uA),
            4 => Some(CurrentDac::I250uA),
            5 => Some(CurrentDac::I500uA),
            6 => Some(CurrentDac::I1000uA),
            7 => Some(CurrentDac::I1500uA),
            _ => None,
        }
    }

    /// The setting that `bits` names, or `Off` where it names none.
    pub open spec fn spec_from_bits(bits: u8) -> CurrentDac {
        match CurrentDac::spec_from_code(bits) {
            Some(setting) => setting,
            None => CurrentDac::Off,
        }
    }

    /// The three-bit code of this level.
    #[verifier::when_used_as_spec(spec_code)]
    pub fn code(self) -> (code: u8)
        ensures
            code == self.spec_code(),
            code <= 7,
    {
        match self {
            CurrentDac::Off => 0,
            CurrentDac::I10uA => 1,
            CurrentDac::I50uA => 2,
            CurrentDac::I100uA => 3,
            CurrentDac::I250uA => 4,
            CurrentDac::I500uA => 5,
            CurrentDac::I1000uA => 6,
            CurrentDac::I1500uA => 7,
        }
    }

    /// Looks a code up: `Some` exactly for the codes 0 to 7, and then the
    /// one setting that has this code.
    #[verifier::when_used_as_spec(spec_from_code)]
    pub fn from_code(code: u8) -> (found: Option<CurrentDac>)
        ensures
            found == CurrentDac::spec_from_code(code),
            found is Some <==> code <= 7,
            found matches Some(setting) ==> setting.spec_code() == code,
    {
        match code {
            0 => Some(CurrentDac::Off),
            1 => Some(CurrentDac::I10uA),
            2 => Some(CurrentDac::I50uA),
            3 => Some(CurrentDac::I100uA),
            4 => Some(CurrentDac::I250uA),
            5 => Some(CurrentDac::I500uA),
            6 => Some(CurrentDac::I1000uA),
            7 => Some(CurrentDac::I1500uA),
            _ => None,
        }
    }

    /// Reads a register field: the level with code `bits`. Every three-bit
    /// pattern names a level; anything wider than the field gives `Off`.
    #[verifier::when_used_as_spec(spec_from_bits)]
    pub fn from_bits(bits: u8) -> (setting: CurrentDac)
        ensures
            setting == CurrentDac::spec_from_bits(bits),
            bits <= 7 ==> setting.spec_code() == bits,
            bits > 7 ==> setting == CurrentDac::Off,
    {
        match CurrentDac::from_code(bits) {
            Some(setting) => setting,
            None => CurrentDac::Off,
        }
    }

    /// A setting is found again from its code.
    pub proof fn code_round_trip(self)
        ensures
            CurrentDac::spec_from_code(self.spec_code()) == Some(self),
            CurrentDac::spec_from_bits(self.spec_code()) == self,
    {
    }
}

/// The pin that an excitation-current source is routed to.
#[derive(Copy, Clone, Debug, PartialEq, Eq, Structural)]
pub enum CurrentMux {
    /// The source is not connected.
    Disabled,
    Ain0,
    Ain1,
    Ain2,
    Ain3,
    Refp,
    Refn,
}

impl CurrentMux {
    /// The three-bit code of this routing.
    pub open spec fn spec_code(self) -> u8 {
        match self {
            CurrentMux::Disabled => 0,
            CurrentMux::Ain0 => 1,
            CurrentMux::Ain1 => 2,
            CurrentMux::Ain2 => 3,
            CurrentMux::Ain3 => 4,
            CurrentMux::Refp => 5,
            CurrentMux::Refn => 6,
        }
    }

    /// The setting that `code` names, if it names one.
    pub open spec fn spec_from_code(code: u8) -> Option<CurrentMux> {
        match code {
            0 => Some(CurrentMux::Disabled),
            1 => Some(CurrentMux::Ain0),
            2 => Some(CurrentMux::Ain1),
            3 => Some(CurrentMux::Ain2),
            4 => Some(CurrentMux::Ain3),
            5 => Some(CurrentMux::Refp),
            6 => Some(CurrentMux::Refn),
            _ => None,
        }
    }

    /// The setting that `bits` names, or `Disabled` where it names none.
    pub open spec fn spec_from_bits(bits: u8) -> CurrentMux {
        match CurrentMux::spec_from_code(bits) {
            Some(setting) => setting,
            None => CurrentMux::Disabled,
        }
    }

    /// The three-bit code of this routing.
    #[verifier::when_used_as_spec(spec_code)]
    pub fn code(self) -> (code: u8)
        ensures
            code == self.spec_code(),
            code <= 6,
    {
        match self {
            CurrentMux::Disabled => 0,
            CurrentMux::Ain0 => 1,
            CurrentMux::Ain1 => 2,
            CurrentMux::Ain2 => 3,
            CurrentMux::Ain3 => 4,
            CurrentMux::Refp => 5,
            CurrentMux::Refn => 6,
        }
    }

    /// Looks a code up: `Some` exactly for the codes 0 to 6, and then the
    /// one setting that has this code.
    #[verifier::when_used_as_spec(spec_from_code)]
    pub fn from_code(code: u8) -> (found: Option<CurrentMux>)
        ensures
            found == CurrentMux::spec_from_code(code),
            found is Some <==> code <= 6,
            found matches Some(setting) ==> setting.spec_code() == code,
    {
        match code {
            0 => Some(CurrentMux::Disabled),
            1 => Some(CurrentMux::Ain0),
            2 => Some(CurrentMux::Ain1),
            3 => Some(CurrentMux::Ain2),
            4 => Some(CurrentMux::Ain3),
            5 => Some(CurrentMux::Refp),
            6 => Some(CurrentMux::Refn),
            _ => None,
        }
    }

    /// Reads a register field: the routing with code `bits`, and `Disabled`
    /// for the one three-bit pattern, 7, that the device leaves undefined
    /// (and for anything wider than the field).
    #[verifier::when_used_as_spec(spec_from_bits)]
    pub fn from_bits(bits: u8) -> (setting: CurrentMux)
        ensures
            setting == CurrentMux::spec_from_bits(bits),
            bits <= 6 ==> setting.spec_code() == bits,
            bits > 6 ==> setting == CurrentMux::Disabled,
    {
        match CurrentMux::from_code(bits) {
            Some(setting) => setting,
            None => CurrentMux::Disabled,
        }
    }

    /// A setting is found again from its code.
    pub proof fn code_round_trip(self)
        ensures
            CurrentMux::spec_from_code(self.spec_code()) == Some(self),
            CurrentMux::spec_from_bits(self.spec_code()) == self,
    {
    }
}

/// Output data rate in samples per second. The rates come in two families
/// of seven: normal mode (`N..`) and turbo mode (`T..`), which runs the
/// modulator at twice the clock. A register stores the place within the
/// family in three bits and the family in a fourth.
#[derive(Copy, Clone, Debug, PartialEq, Eq, Structural)]
pub enum DataRate {
    N20,
    N45,
    N90,
    N175,
    N330,
    N600,
    N1000,
    T40,
    T90,
    T180,
    T350,
    T660,
    T1200,
    T2000,
}

impl DataRate {
    /// Whether this rate belongs to the turbo family.
    pub open spec fn spec_is_turbo(self) -> bool {
        match self {
            DataRate::N20
            | DataRate::N45
            | DataRate::N90
            | DataRate::N175
            | DataRate::N330
            | DataRate::N600
            | DataRate::N1000 => false,
            DataRate::T40
            | DataRate::T90
            | DataRate::T180
            | DataRate::T350
            | DataRate::T660
            | DataRate::T1200
            | DataRate::T2000 => true,
        }
    }

    /// The place of this rate within its family, 0 for the slowest.
    pub open spec fn spec_rate_bits(self) -> u8 {
        match self {
            DataRate::N20 | DataRate::T40 => 0,
            DataRate::N45 | DataRate::T90 => 1,
            DataRate::N90 | DataRate::T180 => 2,
            DataRate::N175 | DataRate::T350 => 3,
            DataRate::N330 | DataRate::T660 => 4,
            DataRate::N600 | DataRate::T1200 => 5,
            DataRate::N1000 | DataRate::T2000 => 6,
        }
    }

    /// The code of this rate: its place within the family, plus 16 in the
    /// turbo family.
    pub open spec fn spec_code(self) -> u8 {
        if self.spec_is_turbo() {
            (self.spec_rate_bits() + 16) as u8
        } else {
            self.spec_rate_bits()
        }
    }

    /// The rate at place `data_rate` of the family that `turbo_mode` picks;
    /// a place past the family's end counts as place 0.
    pub open spec fn spec_from_dr_mode(data_rate: u8, turbo_mode: bool) -> DataRate {
        match (turbo_mode, data_rate) {
            (false, 1) => DataRate::N45,
            (false, 2) => DataRate::N90,
            (false, 3) => DataRate::N175,
            (false, 4) => DataRate::N330,
            (false, 5) => DataRate::N600,
            (false, 6) => DataRate::N1000,
            (false, _) => DataRate::N20,
            (true, 1) => DataRate::T90,
            (true, 2) => DataRate::T180,
            (true, 3) => DataRate::T350,
            (true, 4) => DataRate::T660,
            (true, 5) => DataRate::T1200,
            (true, 6) => DataRate::T2000,
            (true, _) => DataRate::T40,
        }
    }

    /// Whether this rate belongs to the turbo family.
    #[verifier::when_used_as_spec(spec_is_turbo)]
    pub fn is_turbo(self) -> (turbo: bool)
        ensures
            turbo == self.spec_is_turbo(),
    {
        match self {
            DataRate::N20
            | DataRate::N45
            | DataRate::N90
            | DataRate::N175
            | DataRate::N330
            | DataRate::N600
            | DataRate::N1000 => false,
            DataRate::T40
            | DataRate::T90
            | DataRate::T180
            | DataRate::T350
            | DataRate::T660
            | DataRate::T1200
            | DataRate::T2000 => true,
        }
    }

    /// The place of this rate within its family, 0 for the slowest.
    #[verifier::when_used_as_spec(spec_rate_bits)]
    pub fn rate_bits(self) -> (bits: u8)
        ensures
            bits == self.spec_rate_bits(),
            bits <= 6,
    {
        match self {
            DataRate::N20 | DataRate::T40 => 0,
            DataRate::N45 | DataRate::T90 => 1,
            DataRate::N90 | DataRate::T180 => 2,
            DataRate::N175 | DataRate::T350 => 3,
            DataRate::N330 | DataRate::T660 => 4,
            DataRate::N600 | DataRate::T1200 => 5,
            DataRate::N1000 | DataRate::T2000 => 6,
        }
    }

    /// The code of this rate: 0 to 6 in the normal family, 16 to 22 in the
    /// turbo family.
    #[verifier::when_used_as_spec(spec_code)]
    pub fn code(self) -> (code: u8)
        ensures
            code == self.spec_code(),
            code == self.spec_rate_bits() + (if self.spec_is_turbo() { 16int } else { 0int }),
    {
        if self.is_turbo() {
            self.rate_bits() + 16
        } else {
            self.rate_bits()
        }
    }

    /// Puts a rate together from the two register fields that hold it: the
    /// three-bit place and the family bit. The two are independent: the same
    /// place names a different rate in each family. Place 7, which neither
    /// family uses, gives the family's slowest rate, and so does anything
    /// wider than the field.
    #[verifier::when_used_as_spec(spec_from_dr_mode)]
    pub fn from_dr_mode(data_rate: u8, turbo_mode: bool) -> (rate: DataRate)
        ensures
            rate == DataRate::spec_from_dr_mode(data_rate, turbo_mode),
            rate.spec_is_turbo() == turbo_mode,
            data_rate <= 6 ==> rate.spec_rate_bits() == data_rate,
            data_rate > 6 ==> rate.spec_rate_bits() == 0,
    {
        match (turbo_mode, data_rate) {
            (false, 0x00) => DataRate::N20,
            (false, 0x01) => DataRate::N45,
            (false, 0x02) => DataRate::N90,
            (false, 0x03) => DataRate::N175,
            (false, 0x04) => DataRate::N330,
            (false, 0x05) => DataRate::N600,
            (false, 0x06) => DataRate::N1000,
            (false, _) => DataRate::N20,
            (true, 0x00) => DataRate::T40,
            (true, 0x01) => DataRate::T90,
            (true, 0x02) => DataRate::T180,
            (true, 0x03) => DataRate::T350,
            (true, 0x04) => DataRate::T660,
            (true, 0x05) => DataRate::T1200,
            (true, 0x06) => DataRate::T2000,
            (true, _) => DataRate::T40,
        }
    }

    /// A rate is found again from its place and its family.
    pub proof fn fields_round_trip(self)
        ensures
            DataRate::spec_from_dr_mode(self.spec_rate_bits(), self.spec_is_turbo()) == self,
    {
    }

    /// Place and family together tell the rates apart: two rates that agree
    /// in both are the same rate.
    pub proof fn fields_determine_rate(self, other: DataRate)
        requires
            self.spec_rate_bits() == other.spec_rate_bits(),
            self.spec_is_turbo() == other.spec_is_turbo(),
        ensures
            self == other,
    {
    }
}

} // verus!
