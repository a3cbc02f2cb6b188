use ads122c04::{
    ConversionMode, CurrentDac, CurrentMux, DataIntegrityMode, DataRate, Gain, Mux, Vref,
};

const ALL_MUX: [Mux; 15] = [
    Mux::A0A1,
    Mux::A0A2,
    Mux::A0A3,
    Mux::A1A0,
    Mux::A1A2,
    Mux::A1A3,
    Mux::A2A3,
    Mux::A3A2,
    Mux::A0Vss,
    Mux::A1Vss,
    Mux::A2Vss,
    Mux::A3Vss,
    Mux::Vref,
    Mux::Supply,
    Mux::Shorted,
];

const ALL_GAIN: [Gain; 8] =
    [Gain::X1, Gain::X2, Gain::X4, Gain::X8, Gain::X16, Gain::X32, Gain::X64, Gain::X128];

const ALL_VREF: [Vref; 4] = [Vref::Internal, Vref::External, Vref::Supply, Vref::Supply2];

const ALL_INTEGRITY: [DataIntegrityMode; 3] =
    [DataIntegrityMode::Disabled, DataIntegrityMode::InvertedData, DataIntegrityMode::Crc16];

const ALL_DAC: [CurrentDac; 8] = [
    CurrentDac::Off,
    CurrentDac::I10uA,
    CurrentDac::I50uA,
    CurrentDac::I100uA,
    CurrentDac::I250uA,
    CurrentDac::I500uA,
    CurrentDac::I1000uA,
    CurrentDac::I1500uA,
];

const ALL_CURRENT_MUX: [CurrentMux; 7] = [
    CurrentMux::Disabled,
    CurrentMux::Ain0,
    CurrentMux::Ain1,
    CurrentMux::Ain2,
    CurrentMux::Ain3,
    CurrentMux::Refp,
    CurrentMux::Refn,
];

const NORMAL_RATES: [DataRate; 7] = [
    DataRate::N20,
    DataRate::N45,
    DataRate::N90,
    DataRate::N175,
    DataRate::N330,
    DataRate::N600,
    DataRate::N1000,
];

const TURBO_RATES: [DataRate; 7] = [
    DataRate::T40,
    DataRate::T90,
    DataRate::T180,
    DataRate::T350,
    DataRate::T660,
    DataRate::T1200,
    DataRate::T2000,
];

#[test]
fn mux_codes_count_up_from_zero() {
    for (place, mux) in ALL_MUX.iter().enumerate() {
        assert_eq!(mux.code() as usize, place);
    }
    assert_eq!(Mux::A1A0.code(), 3);
    assert_eq!(Mux::A0Vss.code(), 8);
    assert_eq!(Mux::Shorted.code(), 14);
}

#[test]
fn mux_from_code_inverts_code() {
    for mux in ALL_MUX {
        assert_eq!(Mux::from_code(mux.code()), Some(mux));
        assert_eq!(Mux::from_bits(mux.code()), mux);
    }
}

#[test]
fn mux_from_code_rejects_what_is_undefined() {
    assert_eq!(Mux::from_code(14), Some(Mux::Shorted));
    for code in 15..=255u8 {
        assert_eq!(Mux::from_code(code), None);
    }
}

#[test]
fn mux_from_bits_falls_back_to_a0a1() {
    assert_eq!(Mux::from_bits(15), Mux::A0A1);
    assert_eq!(Mux::from_bits(200), Mux::A0A1);
    assert_eq!(Mux::from_bits(12), Mux::Vref);
}

#[test]
fn gain_codes_are_exponents() {
    for (place, gain) in ALL_GAIN.iter().enumerate() {
        assert_eq!(gain.code() as usize, place);
        assert_eq!(Gain::from_code(gain.code()), Some(*gain));
        assert_eq!(Gain::from_bits(gain.code()), *gain);
    }
    assert_eq!(Gain::X8.code(), 3);
    assert_eq!(Gain::X128.code(), 7);
}

#[test]
fn gain_past_the_field_is_x1() {
    assert_eq!(Gain::from_code(8), None);
    assert_eq!(Gain::from_code(255), None);
    assert_eq!(Gain::from_bits(8), Gain::X1);
    assert_eq!(Gain::from_bits(7), Gain::X128);
}

#[test]
fn conversion_mode_codes() {
    assert_eq!(ConversionMode::Single.code(), 0);
    assert_eq!(ConversionMode::Continuous.code(), 1);
    assert_eq!(ConversionMode::from_code(0), Some(ConversionMode::Single));
    assert_eq!(ConversionMode::from_code(1), Some(ConversionMode::Continuous));
    assert_eq!(ConversionMode::from_code(2), None);
    assert_eq!(ConversionMode::from_bits(1), ConversionMode::Continuous);
    assert_eq!(ConversionMode::from_bits(2), ConversionMode::Single);
}

#[test]
fn vref_codes() {
    for (place, vref) in ALL_VREF.iter().enumerate() {
        assert_eq!(vref.code() as usize, place);
        assert_eq!(Vref::from_code(vref.code()), Some(*vref));
        assert_eq!(Vref::from_bits(vref.code()), *vref);
    }
    assert_eq!(Vref::External.code(), 1);
    assert_eq!(Vref::from_code(4), None);
    assert_eq!(Vref::from_bits(4), Vref::Internal);
}

#[test]
fn data_integrity_mode_codes() {
    for (place, mode) in ALL_INTEGRITY.iter().enumerate() {
        assert_eq!(mode.code() as usize, place);
        assert_eq!(DataIntegrityMode::from_code(mode.code()), Some(*mode));
        assert_eq!(DataIntegrityMode::from_bits(mode.code()), *mode);
    }
    assert_eq!(DataIntegrityMode::Crc16.code(), 2);
}

#[test]
fn data_integrity_mode_three_is_disabled() {
    assert_eq!(DataIntegrityMode::from_code(3), None);
    assert_eq!(DataIntegrityMode::from_bits(3), DataIntegrityMode::Disabled);
    assert_eq!(DataIntegrityMode::from_bits(77), DataIntegrityMode::Disabled);
}

#[test]
fn current_dac_codes() {
    for (place, level) in ALL_DAC.iter().enumerate() {
        assert_eq!(level.code() as usize, place);
        assert_eq!(CurrentDac::from_code(level.code()), Some(*level));
        assert_eq!(CurrentDac::from_bits(level.code()), *level);
    }
    assert_eq!(CurrentDac::I250uA.code(), 4);
    assert_eq!(CurrentDac::from_code(8), None);
    assert_eq!(CurrentDac::from_bits(8), CurrentDac::Off);
}

#[test]
fn current_mux_codes() {
    for (place, routing) in ALL_CURRENT_MUX.iter().enumerate() {
        assert_eq!(routing.code() as usize, place);
        assert_eq!(CurrentMux::from_code(routing.code()), Some(*routing));
        assert_eq!(CurrentMux::from_bits(routing.code()), *routing);
    }
    assert_eq!(CurrentMux::Refn.code(), 6);
}

#[test]
fn current_mux_seven_is_disabled() {
    assert_eq!(CurrentMux::from_code(7), None);
    assert_eq!(CurrentMux::from_bits(7), CurrentMux::Disabled);
    assert_eq!(CurrentMux::from_bits(6), CurrentMux::Refn);
}

#[test]
fn data_rate_codes_by_family() {
    for (place, rate) in NORMAL_RATES.iter().enumerate() {
        assert!(!rate.is_turbo());
        assert_eq!(rate.rate_bits() as usize, place);
        assert_eq!(rate.code() as usize, place);
    }
    for (place, rate) in TURBO_RATES.iter().enumerate() {
        assert!(rate.is_turbo());
        assert_eq!(rate.rate_bits() as usize, place);
        assert_eq!(rate.code() as usize, 0x10 + place);
    }
    assert_eq!(DataRate::N1000.code(), 0x06);
    assert_eq!(DataRate::T40.code(), 0x10);
    assert_eq!(DataRate::T2000.code(), 0x16);
}

#[test]
fn data_rate_pairs_place_with_family() {
    assert_eq!(DataRate::from_dr_mode(4, false), DataRate::N330);
    assert_eq!(DataRate::from_dr_mode(4, true), DataRate::T660);
    assert_eq!(DataRate::from_dr_mode(0, false), DataRate::N20);
    assert_eq!(DataRate::from_dr_mode(0, true), DataRate::T40);
    assert_eq!(DataRate::from_dr_mode(6, false), DataRate::N1000);
    assert_eq!(DataRate::from_dr_mode(6, true), DataRate::T2000);
}

#[test]
fn data_rate_seven_is_the_slowest_of_its_family() {
    assert_eq!(DataRate::from_dr_mode(7, false), DataRate::N20);
    assert_eq!(DataRate::from_dr_mode(7, true), DataRate::T40);
    assert_eq!(DataRate::from_dr_mode(0x14, false), DataRate::N20);
    assert_eq!(DataRate::from_dr_mode(255, true), DataRate::T40);
}

#[test]
fn data_rate_is_found_again_from_its_fields() {
    for rate in NORMAL_RATES.iter().chain(TURBO_RATES.iter()) {
        assert_eq!(DataRate::from_dr_mode(rate.rate_bits(), rate.is_turbo()), *rate);
    }
}
