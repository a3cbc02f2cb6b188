use ads122c04::commands::{
    data_ready, read_register_command, write_reg_frame, write_register_command,
    write_regs_frame, POWER_DOWN, READ_DATA, READ_DATA_READY, READ_REGISTER, RESET, START_SYNC,
    WRITE_REGISTER,
};
use ads122c04::{
    ConversionMode, CurrentDac, CurrentMux, DataIntegrityMode, DataRate, Gain, Mux, Register,
    Register0, Register1, Register2, Register3, Vref,
};

fn register0() -> Register0 {
    Register0 { mux: Mux::A1A0, gain: Gain::X8, pga_bypass: true }
}

fn register1() -> Register1 {
    Register1 {
        data_rate: DataRate::T1200,
        conversion_mode: ConversionMode::Single,
        voltage_reference: Vref::External,
        temperature_sensor_mode: true,
    }
}

fn register2() -> Register2 {
    Register2 {
        data_ready: false,
        data_count_enable: true,
        data_integrity_mode: DataIntegrityMode::Crc16,
        burn_out_source_enable: false,
        current_dac: CurrentDac::I10uA,
    }
}

fn register3() -> Register3 {
    Register3 { current_mux_1: CurrentMux::Ain3, current_mux_2: CurrentMux::Ain2 }
}

#[test]
fn opcodes_are_those_of_the_device() {
    assert_eq!(RESET, 0x06);
    assert_eq!(START_SYNC, 0x08);
    assert_eq!(POWER_DOWN, 0x02);
    assert_eq!(READ_DATA, 0x10);
    assert_eq!(READ_DATA_READY, 0x28);
    assert_eq!(READ_REGISTER, 0x20);
    assert_eq!(WRITE_REGISTER, 0x40);
}

#[test]
fn read_commands_of_the_four_registers() {
    assert_eq!(read_register_command(0), 0x20);
    assert_eq!(read_register_command(1), 0x24);
    assert_eq!(read_register_command(2), 0x28);
    assert_eq!(read_register_command(3), 0x2C);
}

#[test]
fn write_commands_of_the_four_registers() {
    assert_eq!(write_register_command(0), 0x40);
    assert_eq!(write_register_command(1), 0x44);
    assert_eq!(write_register_command(2), 0x48);
    assert_eq!(write_register_command(3), 0x4C);
}

#[test]
fn data_ready_and_register2_share_an_opcode() {
    assert_eq!(read_register_command(2), READ_DATA_READY);
}

#[test]
fn data_ready_is_the_top_bit() {
    assert!(data_ready(0x80));
    assert!(data_ready(0xFF));
    assert!(!data_ready(0x7F));
    assert!(!data_ready(0x00));
}

#[test]
fn data_ready_agrees_with_register2_on_every_byte() {
    for byte in 0..=255u8 {
        assert_eq!(data_ready(byte), Register2::decode(byte).data_ready);
        assert_eq!(data_ready(byte), byte >= 128);
    }
}

#[test]
fn write_reg0_frame_is_opcode_then_value() {
    assert_eq!(write_reg_frame(Register::Reg0(register0())), [0x40, 0b0011_0111]);
}

#[test]
fn write_frames_of_the_other_registers() {
    assert_eq!(write_reg_frame(Register::Reg1(register1())), [0x44, 0xB3]);
    assert_eq!(write_reg_frame(Register::Reg2(register2())), [0x48, 0x61]);
    assert_eq!(write_reg_frame(Register::Reg3(register3())), [0x4C, 0x8C]);
}

#[test]
fn batch_of_none_is_empty() {
    assert_eq!(write_regs_frame(&[]), Vec::<u8>::new());
}

#[test]
fn batch_of_one_is_the_single_frame() {
    let register = Register::Reg1(register1());
    assert_eq!(write_regs_frame(&[register]), write_reg_frame(register).to_vec());
}

#[test]
fn batch_of_all_four_in_order() {
    let registers = [
        Register::Reg0(register0()),
        Register::Reg1(register1()),
        Register::Reg2(register2()),
        Register::Reg3(register3()),
    ];
    assert_eq!(
        write_regs_frame(&registers),
        vec![0x40, 0x37, 0x44, 0xB3, 0x48, 0x61, 0x4C, 0x8C]
    );
}

#[test]
fn batch_keeps_the_order_it_was_given() {
    let registers = [
        Register::Reg3(register3()),
        Register::Reg0(register0()),
        Register::Reg2(register2()),
    ];
    assert_eq!(write_regs_frame(&registers), vec![0x4C, 0x8C, 0x40, 0x37, 0x48, 0x61]);
}

#[test]
fn batch_keeps_both_writes_to_one_register() {
    let first = Register0 { mux: Mux::A0A1, gain: Gain::X1, pga_bypass: false };
    let second = Register0 { mux: Mux::Shorted, gain: Gain::X128, pga_bypass: true };
    let frame = write_regs_frame(&[Register::Reg0(first), Register::Reg0(second)]);
    assert_eq!(frame, vec![0x40, 0x00, 0x40, 0xEF]);
    let swapped = write_regs_frame(&[Register::Reg0(second), Register::Reg0(first)]);
    assert_eq!(swapped, vec![0x40, 0xEF, 0x40, 0x00]);
}

#[test]
fn batch_is_the_frames_one_after_another() {
    let head = [Register::Reg2(register2()), Register::Reg2(register2())];
    let tail = [Register::Reg1(register1())];
    let whole = [head[0], head[1], tail[0]];
    let mut joined = write_regs_frame(&head);
    joined.extend(write_regs_frame(&tail));
    assert_eq!(write_regs_frame(&whole), joined);
}

#[test]
fn batch_has_two_bytes_for_each_entry() {
    let registers = vec![Register::Reg3(register3()); 100];
    let frame = write_regs_frame(&registers);
    assert_eq!(frame.len(), 200);
    for pair in frame.chunks(2) {
        assert_eq!(pair, [0x4C, 0x8C]);
    }
}
