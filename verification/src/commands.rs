//! The command protocol: the opcode that starts each exchange with the
//! device, the frames that carry register values to it, and the reading of
//! its one-byte answers.
//!
//! Nothing here touches the bus. A caller sends the bytes built here in one
//! transfer and hands back what the device answered.

use vstd::prelude::*;
use crate::registers::{Register, Register2};

verus! {

/// Opcode that returns the device to its default configuration.
pub const RESET: u8 = 0b0000_0110;

/// Opcode that starts or restarts conversions.
pub const START_SYNC: u8 = 0b0000_1000;

/// Opcode that puts the device into power-down mode.
pub const POWER_DOWN: u8 = 0b0000_0010;

/// Opcode that asks for the latest conversion result.
pub const READ_DATA: u8 = 0b0001_0000;

/// Opcode that asks for the byte whose top bit says whether a new result
/// waits. It is the opcode that reads register 2.
pub const READ_DATA_READY: u8 = 0b0010_1000;

/// Opcode that reads register 0; the register's number is added at bit 2.
pub const READ_REGISTER: u8 = 0b0010_0000;

/// Opcode that writes register 0; the register's number is added at bit 2.
pub const WRITE_REGISTER: u8 = 0b0100_0000;

/// The opcode that reads the register with this number.
pub open spec fn spec_read_register_command(index: u8) -> u8
    recommends
        index <= 3,
{
    (READ_REGISTER + 4 * index) as u8
}

/// The opcode that writes the register with this number.
pub open spec fn spec_write_register_command(index: u8) -> u8
    recommends
        index <= 3,
{
    (WRITE_REGISTER + 4 * index) as u8
}

/// The two bytes that write one register: its write opcode, then its value.
pub open spec fn spec_write_reg_frame(register: Register) -> Seq<u8> {
    seq![spec_write_register_command(register.spec_index()), register.spec_encode()]
}

/// The bytes that write a list of registers in one transfer: the two bytes
/// of each entry, entry after entry in the order of the list.
pub open spec fn spec_write_regs_frame(registers: Seq<Register>) -> Seq<u8> {
    Seq::new(
        2 * registers.len(),
        |at: int|
            if at % 2 == 0 {
                spec_write_register_command(registers[at / 2].spec_index())
            } else {
                registers[at / 2].spec_encode()
            },
    )
}

/// Whether a word lies in memory as the bytes `first`, `second`, in one of
/// the two byte orders that a machine may have.
pub open spec fn word_is_stored_as(word: u16, first: u8, second: u8) -> bool {
    word == first + 256 * second || word == 256 * first + second
}

/// The opcode that reads the register with this number.
#[verifier::when_used_as_spec(spec_read_register_command)]
pub fn read_register_command(index: u8) -> (opcode: u8)
    requires
        index <= 3,
    ensures
        opcode == spec_read_register_command(index),
        opcode == 0x20 + 4 * index,
{
    assert((READ_REGISTER | (index << 2)) == 0x20 + 4 * index) by (bit_vector)
        requires
            index <= 3,
    ;
    READ_REGISTER | (index << 2)
}

/// The opcode that writes the register with this number.
#[verifier::when_used_as_spec(spec_write_register_command)]
pub fn write_register_command(index: u8) -> (opcode: u8)
    requires
        index <= 3,
    ensures
        opcode == spec_write_register_command(index),
        opcode == 0x40 + 4 * index,
{
    assert((WRITE_REGISTER | (index << 2)) == 0x40 + 4 * index) by (bit_vector)
        requires
            index <= 3,
    ;
    WRITE_REGISTER | (index << 2)
}

/// Reads the answer to `READ_DATA_READY`: whether its top bit is set.
pub fn data_ready(response: u8) -> (ready: bool)
    ensures
        ready == (response >= 128),
        ready == Register2::spec_decode(response).data_ready,
{
    assert((response >> 7) != 0 <==> response >= 128) by (bit_vector);
    (response >> 7) != 0
}

/// Builds the two bytes that write one register.
pub fn write_reg_frame(register: Register) -> (frame: [u8; 2])
    ensures
        frame@ == spec_write_reg_frame(register),
{
    let frame: [u8; 2] = [write_register_command(register.index()), register.encode()];
    assert(frame@ =~= spec_write_reg_frame(register));
    frame
}

/// `bytemuck::cast_slice` from `u16` to `u8`, copied into a vector: the
/// memory of the words, seen as bytes. Not proved here, but taken from that
/// function: the cast never fails in this direction, there are two bytes
/// for each word, and they are the word's two halves in the machine's byte
/// order, so that a zero word gives two zero bytes.
#[verifier::external_body]
fn bytes_of_words(words: &[u16]) -> (bytes: Vec<u8>)
    ensures
        bytes@.len() == 2 * words@.len(),
        forall|at: int|
            0 <= at < words@.len() ==> word_is_stored_as(
                #[trigger] words@[at],
                bytes@[2 * at],
                bytes@[2 * at + 1],
            ),
{
    bytemuck::cast_slice::<u16, u8>(words).to_vec()
}

/// Builds the bytes that write a list of registers in one transfer. Each
/// entry gives its write opcode and its value; the pairs stand in the order
/// of the list, and an entry for a register that an earlier entry also
/// names is kept like any other, so the device sees both writes in turn.
pub fn write_regs_frame(registers: &[Register]) -> (frame: Vec<u8>)
    ensures
        frame@ == spec_write_regs_frame(registers@),
        frame@.len() == 2 * registers@.len(),
        forall|at: int|
            0 <= at < registers@.len() ==> frame@[2 * at] == spec_write_register_command(
                (#[trigger] registers@[at]).spec_index(),
            ) && frame@[2 * at + 1] == registers@[at].spec_encode(),
{
    let count: usize = registers.len();
    let words: Vec<u16> = vec![0u16; count];
    let mut frame: Vec<u8> = bytes_of_words(words.as_slice());
    let mut done: usize = 0;
    while done < count
        invariant
            count == registers@.len(),
            frame.len() == 2 * count,
            done <= count,
            forall|at: int|
                0 <= at < 2 * done ==> frame@[at] == #[trigger] spec_write_regs_frame(
                    registers@,
                )[at],
        decreases count - done,
    {
        let register: Register = registers[done];
        frame.set(2 * done, write_register_command(register.index()));
        frame.set(2 * done + 1, register.encode());
        done += 1;
    }
    assert(frame@ =~= spec_write_regs_frame(registers@));
    frame
}

/// The frame for one register alone is that register's two bytes.
pub proof fn write_regs_frame_of_one(register: Register)
    ensures
        spec_write_regs_frame(seq![register]) == spec_write_reg_frame(register),
{
    assert(spec_write_regs_frame(seq![register]) =~= spec_write_reg_frame(register));
}

/// The frame for a list followed by another is the frame for the first
/// followed by the frame for the second: entries are neither reordered nor
/// merged, whatever registers they name.
pub proof fn write_regs_frame_keeps_order(first: Seq<Register>, second: Seq<Register>)
    ensures
        spec_write_regs_frame(first + second) == spec_write_regs_frame(first)
            + spec_write_regs_frame(second),
{
    let whole = spec_write_regs_frame(first + second);
    let parts = spec_write_regs_frame(first) + spec_write_regs_frame(second);
    assert(whole.len() == parts.len());
    assert forall|at: int| 0 <= at < whole.len() implies whole[at] == parts[at] by {
        if at < 2 * first.len() {
            assert((first + second)[at / 2] == first[at / 2]);
        } else {
            let rest = at - 2 * first.len();
            assert(rest / 2 == at / 2 - first.len());
            assert(rest % 2 == at % 2);
            assert((first + second)[at / 2] == second[rest / 2]);
        }
    }
    assert(whole =~= parts);
}

/// Asking whether data is ready and reading register 2 are the same
/// exchange: both send the same opcode, and both take the flag from the top
/// bit of the answer.
pub proof fn data_ready_is_register2(response: u8)
    ensures
        READ_DATA_READY == spec_read_register_command(2),
        Register2::spec_decode(response).data_ready == (response >= 128),
{
}

} // verus!
