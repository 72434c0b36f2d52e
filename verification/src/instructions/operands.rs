//! Immediate values, the arithmetic evaluator and the operand model.

use crate::error::EngineError;
use crate::helpers::{
    byte_to_signed, signed16, signed8, signed_to_byte, signed_to_word, unsigned16, unsigned8,
    word_to_signed,
};
use crate::memory::{effective_address_at, memory_after_write, memory_value, EffectiveAddress};
use crate::mode::InstructionMode;
use crate::register::{
    register_of_index, register_value, with_register_byte, with_register_word, Register,
};
use crate::segment_register::{segment_byte, segment_word, with_segment_word, SegmentRegister};
use crate::store::{MachineState, Store};
use crate::stream::{word_le, ByteStream};
use vstd::prelude::*;

verus! {

/// A signed constant of byte or word width.
#[derive(Clone, Copy, PartialEq, Eq, Structural, Debug)]
pub enum ImmediateValue {
    SignedByte(i8),
    SignedWord(i16),
}

/// The outcome of an addition or subtraction: the value and the status
/// bits that the evaluator derives from the operands.
#[derive(Clone, Copy, PartialEq, Eq, Structural, Debug)]
pub struct ArithmeticResult {
    pub value: ImmediateValue,
    pub carry: bool,
    pub auxiliary_carry: bool,
    pub overflow: bool,
    pub zero: bool,
    pub sign: bool,
}

/// Reduces an integer to the signed 16-bit value with the same low bits.
pub open spec fn wrap16(value: int) -> int {
    signed16(value % 65536)
}

/// Whether bit `index` of the 16-bit pattern of `value` is set.
pub open spec fn word_bit(value: i16, index: int) -> bool
    recommends
        0 <= index < 16,
{
    (unsigned16(value as int) / word_pow2(index)) % 2 == 1
}

/// Two to the power `index`, for the two positions the evaluator inspects.
pub open spec fn word_pow2(index: int) -> int {
    if index == 3 {
        8
    } else {
        32768
    }
}

/// Carry out of one bit position of a sum, from the two operand bits and
/// the result bit at that position.
pub open spec fn carry_out(lhs: bool, rhs: bool, result: bool) -> bool {
    (lhs && rhs) || ((lhs || rhs) && !result)
}

/// Borrow out of one bit position of a difference, from the two operand
/// bits and the result bit at that position.
pub open spec fn borrow_out(lhs: bool, rhs: bool, result: bool) -> bool {
    (!lhs && rhs) || ((!lhs || rhs) && result)
}

/// Carry out of bit 15 of the unsigned sum.
pub open spec fn add_carry(lhs: int, rhs: int) -> bool {
    unsigned16(lhs) + unsigned16(rhs) >= 65536
}

/// Carry out of bit 3 of the sum.
pub open spec fn add_auxiliary_carry(lhs: int, rhs: int) -> bool {
    unsigned16(lhs) % 16 + unsigned16(rhs) % 16 >= 16
}

/// Borrow into bit 15 of the unsigned difference.
pub open spec fn sub_borrow(lhs: int, rhs: int) -> bool {
    unsigned16(lhs) < unsigned16(rhs)
}

/// Borrow into bit 3 of the difference.
pub open spec fn sub_auxiliary_borrow(lhs: int, rhs: int) -> bool {
    unsigned16(lhs) % 16 < unsigned16(rhs) % 16
}

/// Whether a mathematical result lies outside the signed 16-bit range.
pub open spec fn signed_overflow(result: int) -> bool {
    result > 32767 || result < -32768
}

/// The result of adding two sign-extended operands.
pub open spec fn add_result(lhs: int, rhs: int) -> ArithmeticResult {
    ArithmeticResult {
        value: ImmediateValue::SignedWord(wrap16(lhs + rhs) as i16),
        carry: add_carry(lhs, rhs),
        auxiliary_carry: add_auxiliary_carry(lhs, rhs),
        overflow: signed_overflow(lhs + rhs),
        zero: wrap16(lhs + rhs) == 0,
        sign: wrap16(lhs + rhs) < 0,
    }
}

/// The result of subtracting two sign-extended operands.
pub open spec fn sub_result(lhs: int, rhs: int) -> ArithmeticResult {
    ArithmeticResult {
        value: ImmediateValue::SignedWord(wrap16(lhs - rhs) as i16),
        carry: sub_borrow(lhs, rhs),
        auxiliary_carry: sub_auxiliary_borrow(lhs, rhs),
        overflow: signed_overflow(lhs - rhs),
        zero: wrap16(lhs - rhs) == 0,
        sign: wrap16(lhs - rhs) < 0,
    }
}

impl ArithmeticResult {
    /// The computed value.
    pub fn value(self) -> (value: ImmediateValue)
        ensures
            value == self.value,
    {
        self.value
    }
}

fn bit_is_set(value: i16, shift: u16) -> (set: bool)
    requires
        shift == 3 || shift == 15,
    ensures
        set == word_bit(value, shift as int),
{
    let pattern: u16 = signed_to_word(value);
    if shift == 3 {
        (pattern / 8) % 2 == 1
    } else {
        (pattern / 32768) % 2 == 1
    }
}

/// Carry and auxiliary carry of `lhs + rhs`, read off bits 15 and 3 of the
/// operands and of the result `value`.
pub fn compute_carry_on_addition(lhs: i16, rhs: i16, value: i16) -> (flags: (bool, bool))
    ensures
        flags.0 == carry_out(word_bit(lhs, 15), word_bit(rhs, 15), word_bit(value, 15)),
        flags.1 == carry_out(word_bit(lhs, 3), word_bit(rhs, 3), word_bit(value, 3)),
        value as int == wrap16(lhs + rhs) ==> flags.0 == add_carry(lhs as int, rhs as int),
        value as int == wrap16(lhs + rhs) ==> flags.1 == add_auxiliary_carry(
            lhs as int,
            rhs as int,
        ),
{
    let msb_lhs: bool = bit_is_set(lhs, 15);
    let msb_rhs: bool = bit_is_set(rhs, 15);
    let msb_value: bool = bit_is_set(value, 15);
    let nibble_lhs: bool = bit_is_set(lhs, 3);
    let nibble_rhs: bool = bit_is_set(rhs, 3);
    let nibble_value: bool = bit_is_set(value, 3);
    let carry = (msb_lhs && msb_rhs) || ((msb_lhs || msb_rhs) && !msb_value);
    let auxiliary_carry = (nibble_lhs && nibble_rhs) || ((nibble_lhs || nibble_rhs)
        && !nibble_value);
    proof {
        if value as int == wrap16(lhs + rhs) {
            lemma_carry_bits(lhs, rhs, value);
        }
    }
    (carry, auxiliary_carry)
}

/// Borrow and auxiliary borrow of `lhs - rhs`, read off bits 15 and 3 of
/// the operands and of the result `value`.
pub fn compute_borrow_on_subtraction(lhs: i16, rhs: i16, value: i16) -> (flags: (bool, bool))
    ensures
        flags.0 == borrow_out(word_bit(lhs, 15), word_bit(rhs, 15), word_bit(value, 15)),
        flags.1 == borrow_out(word_bit(lhs, 3), word_bit(rhs, 3), word_bit(value, 3)),
        value as int == wrap16(lhs - rhs) ==> flags.0 == sub_borrow(lhs as int, rhs as int),
        value as int == wrap16(lhs - rhs) ==> flags.1 == sub_auxiliary_borrow(
            lhs as int,
            rhs as int,
        ),
{
    let msb_lhs: bool = bit_is_set(lhs, 15);
    let msb_rhs: bool = bit_is_set(rhs, 15);
    let msb_value: bool = bit_is_set(value, 15);
    let nibble_lhs: bool = bit_is_set(lhs, 3);
    let nibble_rhs: bool = bit_is_set(rhs, 3);
    let nibble_value: bool = bit_is_set(value, 3);
    let borrow = (!msb_lhs && msb_rhs) || ((!msb_lhs || msb_rhs) && msb_value);
    let auxiliary_borrow = (!nibble_lhs && nibble_rhs) || ((!nibble_lhs || nibble_rhs)
        && nibble_value);
    proof {
        if value as int == wrap16(lhs - rhs) {
            lemma_borrow_bits(lhs, rhs, value);
        }
    }
    (borrow, auxiliary_borrow)
}

proof fn lemma_sum_bits(a: u32, b: u32, v: u32)
    by (bit_vector)
    requires
        a < 65536,
        b < 65536,
        v == ((a + b) as u32) % 65536u32,
    ensures
        (((a / 32768) % 2 == 1 && (b / 32768) % 2 == 1) || (((a / 32768) % 2 == 1 || (b / 32768)
            % 2 == 1) && !((v / 32768) % 2 == 1))) == ((a + b) as u32 >= 65536u32),
        (((a / 8) % 2 == 1 && (b / 8) % 2 == 1) || (((a / 8) % 2 == 1 || (b / 8) % 2 == 1) && !((v
            / 8) % 2 == 1))) == ((a % 16 + b % 16) as u32 >= 16u32),
{
}

proof fn lemma_difference_bits(a: u32, b: u32, v: u32)
    by (bit_vector)
    requires
        a < 65536,
        b < 65536,
        v == ((a + 65536 - b) as u32) % 65536u32,
    ensures
        ((!((a / 32768) % 2 == 1) && (b / 32768) % 2 == 1) || ((!((a / 32768) % 2 == 1) || (b
            / 32768) % 2 == 1) && (v / 32768) % 2 == 1)) == (a < b),
        ((!((a / 8) % 2 == 1) && (b / 8) % 2 == 1) || ((!((a / 8) % 2 == 1) || (b / 8) % 2 == 1)
            && (v / 8) % 2 == 1)) == (a % 16 < b % 16),
{
}

/// Reading carries off the operand and result bits agrees with the
/// arithmetic definition when `value` is the wrapped sum.
pub proof fn lemma_carry_bits(lhs: i16, rhs: i16, value: i16)
    requires
        value as int == wrap16(lhs + rhs),
    ensures
        carry_out(word_bit(lhs, 15), word_bit(rhs, 15), word_bit(value, 15)) == add_carry(
            lhs as int,
            rhs as int,
        ),
        carry_out(word_bit(lhs, 3), word_bit(rhs, 3), word_bit(value, 3)) == add_auxiliary_carry(
            lhs as int,
            rhs as int,
        ),
{
    let a = unsigned16(lhs as int) as u32;
    let b = unsigned16(rhs as int) as u32;
    let v = unsigned16(value as int) as u32;
    assert(v == (a + b) % 65536) by {
        let s = lhs as int + rhs as int;
        let t = a as int + b as int;
        assert(t == s || t == s + 65536 || t == s + 131072);
        assert(s % 65536 == t % 65536);
    }
    lemma_sum_bits(a, b, v);
}

/// Reading borrows off the operand and result bits agrees with the
/// arithmetic definition when `value` is the wrapped difference.
pub proof fn lemma_borrow_bits(lhs: i16, rhs: i16, value: i16)
    requires
        value as int == wrap16(lhs - rhs),
    ensures
        borrow_out(word_bit(lhs, 15), word_bit(rhs, 15), word_bit(value, 15)) == sub_borrow(
            lhs as int,
            rhs as int,
        ),
        borrow_out(word_bit(lhs, 3), word_bit(rhs, 3), word_bit(value, 3))
            == sub_auxiliary_borrow(lhs as int, rhs as int),
{
    let a = unsigned16(lhs as int) as u32;
    let b = unsigned16(rhs as int) as u32;
    let v = unsigned16(value as int) as u32;
    assert(v == (a + 65536 - b) % 65536) by {
        let s = lhs as int - rhs as int;
        let t = a as int + 65536 - b as int;
        assert(t == s || t == s + 65536 || t == s + 131072);
        assert(s % 65536 == t % 65536);
    }
    lemma_difference_bits(a, b, v);
}

impl ImmediateValue {
    /// The value, sign-extended.
    pub open spec fn as_int(self) -> int {
        match self {
            ImmediateValue::SignedByte(value) => value as int,
            ImmediateValue::SignedWord(value) => value as int,
        }
    }

    /// Whether the value has word width.
    pub open spec fn is_word(self) -> bool {
        self is SignedWord
    }

    /// The value sign-extended to 16 bits.
    pub fn to_signed_word(self) -> (value: i16)
        ensures
            value as int == self.as_int(),
    {
        match self {
            ImmediateValue::SignedByte(value) => value as i16,
            ImmediateValue::SignedWord(value) => value,
        }
    }

    /// The 16-bit pattern of the sign-extended value.
    pub fn to_word(self) -> (word: u16)
        ensures
            word as int == unsigned16(self.as_int()),
    {
        signed_to_word(self.to_signed_word())
    }

    /// The value as a signed byte, if it has byte width.
    pub fn to_signed_byte(self) -> (value: Option<i8>)
        ensures
            value == match self {
                ImmediateValue::SignedByte(byte) => Some(byte),
                ImmediateValue::SignedWord(_) => None,
            },
    {
        match self {
            ImmediateValue::SignedByte(value) => Some(value),
            ImmediateValue::SignedWord(_) => None,
        }
    }

    /// The 8-bit pattern of the value, if it has byte width.
    pub fn to_byte(self) -> (byte: Option<u8>)
        ensures
            self is SignedWord ==> byte is None,
            self is SignedByte ==> byte is Some && byte.unwrap() as int == unsigned8(
                self.as_int(),
            ),
    {
        match self {
            ImmediateValue::SignedByte(value) => Some(signed_to_byte(value)),
            ImmediateValue::SignedWord(_) => None,
        }
    }

    /// Adds two immediates as sign-extended 16-bit values.
    pub fn add(self, rhs: ImmediateValue) -> (result: ArithmeticResult)
        ensures
            result == add_result(self.as_int(), rhs.as_int()),
    {
        let lhs: i16 = self.to_signed_word();
        let rhs: i16 = rhs.to_signed_word();
        let exact: i32 = lhs as i32 + rhs as i32;
        let overflow: bool = exact > 32767 || exact < -32768;
        let value: i16 = if exact > 32767 {
            (exact - 65536) as i16
        } else if exact < -32768 {
            (exact + 65536) as i16
        } else {
            exact as i16
        };
        let (carry, auxiliary_carry) = compute_carry_on_addition(lhs, rhs, value);
        ArithmeticResult {
            value: ImmediateValue::SignedWord(value),
            carry,
            auxiliary_carry,
            overflow,
            zero: value == 0,
            sign: value < 0,
        }
    }

    /// Subtracts two immediates as sign-extended 16-bit values.
    pub fn sub(self, rhs: ImmediateValue) -> (result: ArithmeticResult)
        ensures
            result == sub_result(self.as_int(), rhs.as_int()),
    {
        let lhs: i16 = self.to_signed_word();
        let rhs: i16 = rhs.to_signed_word();
        let exact: i32 = lhs as i32 - rhs as i32;
        let overflow: bool = exact > 32767 || exact < -32768;
        let value: i16 = if exact > 32767 {
            (exact - 65536) as i16
        } else if exact < -32768 {
            (exact + 65536) as i16
        } else {
            exact as i16
        };
        let (carry, auxiliary_carry) = compute_borrow_on_subtraction(lhs, rhs, value);
        ArithmeticResult {
            value: ImmediateValue::SignedWord(value),
            carry,
            auxiliary_carry,
            overflow,
            zero: value == 0,
            sign: value < 0,
        }
    }
}

impl From<i16> for ImmediateValue {
    /// A word immediate.
    fn from(value: i16) -> (immediate: ImmediateValue) {
        ImmediateValue::SignedWord(value)
    }
}

impl vstd::std_specs::convert::FromSpecImpl<i16> for ImmediateValue {
    open spec fn obeys_from_spec() -> bool {
        true
    }

    open spec fn from_spec(value: i16) -> ImmediateValue {
        ImmediateValue::SignedWord(value)
    }
}

impl From<i8> for ImmediateValue {
    /// A byte immediate.
    fn from(value: i8) -> (immediate: ImmediateValue) {
        ImmediateValue::SignedByte(value)
    }
}

impl vstd::std_specs::convert::FromSpecImpl<i8> for ImmediateValue {
    open spec fn obeys_from_spec() -> bool {
        true
    }

    open spec fn from_spec(value: i8) -> ImmediateValue {
        ImmediateValue::SignedByte(value)
    }
}

impl From<ImmediateValue> for i16 {
    /// The value sign-extended to 16 bits.
    fn from(value: ImmediateValue) -> (word: i16) {
        value.to_signed_word()
    }
}

impl vstd::std_specs::convert::FromSpecImpl<ImmediateValue> for i16 {
    open spec fn obeys_from_spec() -> bool {
        true
    }

    open spec fn from_spec(value: ImmediateValue) -> i16 {
        value.as_int() as i16
    }
}

impl From<ImmediateValue> for u16 {
    /// The 16-bit pattern of the sign-extended value.
    fn from(value: ImmediateValue) -> (word: u16) {
        value.to_word()
    }
}

impl vstd::std_specs::convert::FromSpecImpl<ImmediateValue> for u16 {
    open spec fn obeys_from_spec() -> bool {
        true
    }

    open spec fn from_spec(value: ImmediateValue) -> u16 {
        unsigned16(value.as_int()) as u16
    }
}

/// An operand of an instruction.
#[derive(Clone, Copy, PartialEq, Eq, Structural, Debug)]
pub enum Operand {
    /// The byte accumulator AL.
    Accumulator,
    /// The word accumulator AX.
    AccumulatorWide,
    Register(Register),
    SegmentRegister(SegmentRegister),
    Memory(EffectiveAddress),
    Immediate(ImmediateValue),
}

/// The 4-bit register selector made of a 3-bit field and the width.
pub open spec fn register_selector(field: int, is_wide: bool) -> int {
    field * 2 + if is_wide {
        1int
    } else {
        0int
    }
}

/// The register or memory operand encoded by a mode and the low three bits
/// of a MOD/REG/RM byte, with the displacement read at `position`, and the
/// position after it.
pub open spec fn operand_at(
    bytes: Seq<u8>,
    position: int,
    mode: InstructionMode,
    target: u8,
    is_wide: bool,
) -> Result<(Operand, int), EngineError> {
    if mode is Register {
        Ok(
            (
                Operand::Register(register_of_index(register_selector(target as int % 8, is_wide))),
                position,
            ),
        )
    } else {
        match effective_address_at(bytes, position, mode, target as int % 8) {
            Ok((address, after)) => Ok((Operand::Memory(address), after)),
            Err(error) => Err(error),
        }
    }
}

/// The immediate read at `position`, as a word or as a byte, and the
/// position after it.
pub open spec fn immediate_at(bytes: Seq<u8>, position: int, is_word: bool) -> Result<
    (ImmediateValue, int),
    EngineError,
> {
    if is_word {
        if position + 2 <= bytes.len() {
            Ok(
                (
                    ImmediateValue::SignedWord(signed16(word_le(bytes, position)) as i16),
                    position + 2,
                ),
            )
        } else {
            Err(EngineError::TruncatedStream)
        }
    } else {
        if position + 1 <= bytes.len() {
            Ok((ImmediateValue::SignedByte(signed8(bytes[position] as int) as i8), position + 1))
        } else {
            Err(EngineError::TruncatedStream)
        }
    }
}

impl ImmediateValue {
    /// Reads an immediate of the given width from the stream. On failure
    /// the stream keeps its position.
    pub fn read(stream: &mut ByteStream, is_word: bool) -> (outcome: Result<
        ImmediateValue,
        EngineError,
    >)
        ensures
            final(stream).bytes() == old(stream).bytes(),
            match immediate_at(old(stream).bytes(), old(stream).pos(), is_word) {
                Ok((value, position)) => outcome == Ok::<ImmediateValue, EngineError>(value)
                    && final(stream).pos() == position,
                Err(error) => outcome == Err::<ImmediateValue, EngineError>(error) && final(
                    stream
                ).pos() == old(stream).pos(),
            },
    {
        if is_word {
            Ok(ImmediateValue::SignedWord(stream.read_i16()?))
        } else {
            Ok(ImmediateValue::SignedByte(stream.read_i8()?))
        }
    }
}

impl Operand {
    /// Decodes the register or memory operand selected by `mode` and the
    /// low three bits of `target_specifier_byte`. On failure the stream
    /// keeps its position.
    pub fn read(
        stream: &mut ByteStream,
        mode: InstructionMode,
        target_specifier_byte: u8,
        is_wide: bool,
    ) -> (outcome: Result<Operand, EngineError>)
        ensures
            final(stream).bytes() == old(stream).bytes(),
            match operand_at(
                old(stream).bytes(),
                old(stream).pos(),
                mode,
                target_specifier_byte,
                is_wide,
            ) {
                Ok((operand, position)) => outcome == Ok::<Operand, EngineError>(operand) && final(
                    stream
                ).pos() == position,
                Err(error) => outcome == Err::<Operand, EngineError>(error) && final(stream).pos()
                    == old(stream).pos(),
            },
    {
        let field: u8 = target_specifier_byte % 8;
        match mode {
            InstructionMode::Register => {
                let selector: u8 = if is_wide {
                    field * 2 + 1
                } else {
                    field * 2
                };
                Ok(Operand::Register(Register::from_byte(selector)))
            },
            _ => {
                let address = EffectiveAddress::read(stream, mode, field)?;
                Ok(Operand::Memory(address))
            },
        }
    }

    /// The value read from the operand, or nothing where the operand
    /// cannot be read at the requested width: a general register whose own
    /// width differs from it, or a byte immediate read as a word.
    pub open spec fn value_in(self, is_wide: bool, state: MachineState) -> Option<ImmediateValue> {
        match self {
            Operand::Accumulator => Some(register_value(state.registers, Register::Al)),
            Operand::AccumulatorWide => Some(register_value(state.registers, Register::Ax)),
            Operand::Register(register) => if register.is_word() == is_wide {
                Some(register_value(state.registers, register))
            } else {
                None
            },
            Operand::SegmentRegister(register) => if is_wide {
                Some(
                    ImmediateValue::SignedWord(
                        signed16(segment_word(state.segments, register)) as i16,
                    ),
                )
            } else {
                Some(
                    ImmediateValue::SignedByte(
                        signed8(segment_byte(state.segments, register)) as i8,
                    ),
                )
            },
            Operand::Memory(address) => Some(
                memory_value(state.memory, address.resolve(state.registers), is_wide),
            ),
            Operand::Immediate(value) => if is_wide && value is SignedByte {
                None
            } else {
                Some(value)
            },
        }
    }

    /// Whether an access through the operand is charged the unaligned-word
    /// penalty: a word access to memory at an odd address.
    pub open spec fn unaligned_in(self, is_wide: bool, state: MachineState) -> bool {
        match self {
            Operand::Memory(address) => is_wide && address.resolve(state.registers) % 2 == 1,
            _ => false,
        }
    }

    /// The machine state after `value` is written to the operand, or
    /// nothing where the write is illegal: to an immediate, of a word to a
    /// byte target, or to a general register whose own width differs from
    /// the requested one.
    ///
    /// A byte written to AX goes to AL and leaves AH as it was. A byte
    /// written to another word register, or to a word of memory, fills the
    /// whole word: zero-extended in a register, sign-extended in memory. A
    /// segment register always receives the sign-extended word.
    pub open spec fn state_after_write(
        self,
        value: ImmediateValue,
        is_wide: bool,
        state: MachineState,
    ) -> Option<MachineState> {
        match self {
            Operand::Accumulator => match value {
                ImmediateValue::SignedByte(byte) => Some(
                    MachineState {
                        registers: with_register_byte(
                            state.registers,
                            Register::Al,
                            unsigned8(byte as int) as u8,
                        ),
                        ..state
                    },
                ),
                ImmediateValue::SignedWord(_) => None,
            },
            Operand::AccumulatorWide => match value {
                ImmediateValue::SignedByte(byte) => Some(
                    MachineState {
                        registers: with_register_byte(
                            state.registers,
                            Register::Al,
                            unsigned8(byte as int) as u8,
                        ),
                        ..state
                    },
                ),
                ImmediateValue::SignedWord(word) => Some(
                    MachineState {
                        registers: with_register_word(
                            state.registers,
                            Register::Ax,
                            unsigned16(word as int) as u16,
                        ),
                        ..state
                    },
                ),
            },
            Operand::Register(register) => if register.is_word() != is_wide {
                None
            } else {
                match value {
                    ImmediateValue::SignedByte(byte) => if is_wide {
                        Some(
                            MachineState {
                                registers: with_register_word(
                                    state.registers,
                                    register,
                                    unsigned8(byte as int) as u16,
                                ),
                                ..state
                            },
                        )
                    } else {
                        Some(
                            MachineState {
                                registers: with_register_byte(
                                    state.registers,
                                    register,
                                    unsigned8(byte as int) as u8,
                                ),
                                ..state
                            },
                        )
                    },
                    ImmediateValue::SignedWord(word) => if is_wide {
                        Some(
                            MachineState {
                                registers: with_register_word(
                                    state.registers,
                                    register,
                                    unsigned16(word as int) as u16,
                                ),
                                ..state
                            },
                        )
                    } else {
                        None
                    },
                }
            },
            Operand::SegmentRegister(register) => Some(
                MachineState {
                    segments: with_segment_word(
                        state.segments,
                        register,
                        unsigned16(value.as_int()) as u16,
                    ),
                    ..state
                },
            ),
            Operand::Memory(address) => match memory_after_write(
                state.memory,
                address.resolve(state.registers),
                is_wide,
                value,
            ) {
                Some(memory) => Some(MachineState { memory, ..state }),
                None => None,
            },
            Operand::Immediate(_) => None,
        }
    }

    /// Reads the operand at the requested width. The flag that comes with
    /// the value tells whether the access is charged the unaligned-word
    /// penalty.
    pub fn to_immediate_value(self, is_wide_op: bool, store: &Store) -> (outcome: Result<
        (ImmediateValue, bool),
        EngineError,
    >)
        ensures
            outcome == (match self.value_in(is_wide_op, store@) {
                Some(value) => Ok::<(ImmediateValue, bool), EngineError>(
                    (value, self.unaligned_in(is_wide_op, store@)),
                ),
                None => Err(EngineError::IllegalOperand),
            }),
    {
        match self {
            Operand::Accumulator => Ok((store.register_store().read_value(Register::Al), false)),
            Operand::AccumulatorWide => Ok(
                (store.register_store().read_value(Register::Ax), false),
            ),
            Operand::Register(register) => {
                if register.is_wide() == is_wide_op {
                    Ok((store.register_store().read_value(register), false))
                } else {
                    Err(EngineError::IllegalOperand)
                }
            },
            Operand::Memory(address) => {
                let linear: u16 = store.memory_store().effective_address_to_address(
                    address,
                    store.register_store(),
                );
                let value = store.memory_store().read_memory_from_effective_address(
                    address,
                    is_wide_op,
                    store.register_store(),
                );
                Ok((value, is_wide_op && linear % 2 == 1))
            },
            Operand::Immediate(value) => match value {
                ImmediateValue::SignedByte(_) => if is_wide_op {
                    Err(EngineError::IllegalOperand)
                } else {
                    Ok((value, false))
                },
                ImmediateValue::SignedWord(_) => Ok((value, false)),
            },
            Operand::SegmentRegister(register) => {
                if is_wide_op {
                    Ok(
                        (
                            ImmediateValue::SignedWord(
                                word_to_signed(
                                    store.segment_register_store().read_word_from_segment_register(
                                        register,
                                    ),
                                ),
                            ),
                            false,
                        ),
                    )
                } else {
                    Ok(
                        (
                            ImmediateValue::SignedByte(
                                byte_to_signed(
                                    store.segment_register_store().read_byte_from_segment_register(
                                        register,
                                    ),
                                ),
                            ),
                            false,
                        ),
                    )
                }
            },
        }
    }

    /// Whether an access through the operand is charged the unaligned-word
    /// penalty.
    pub fn is_unaligned(self, is_wide_op: bool, store: &Store) -> (unaligned: bool)
        ensures
            unaligned == self.unaligned_in(is_wide_op, store@),
    {
        match self {
            Operand::Memory(address) => {
                let linear: u16 = store.memory_store().effective_address_to_address(
                    address,
                    store.register_store(),
                );
                is_wide_op && linear % 2 == 1
            },
            _ => false,
        }
    }

    /// Writes `value` to the operand. An illegal write fails and leaves
    /// the machine as it was.
    pub fn write_value(
        self,
        value: ImmediateValue,
        is_wide_op: bool,
        store: &mut Store,
    ) -> (outcome: Result<(), EngineError>)
        ensures
            match self.state_after_write(value, is_wide_op, old(store)@) {
                Some(state) => outcome is Ok && final(store)@ == state,
                None => {
                    &&& outcome == Err::<(), EngineError>(EngineError::IllegalOperand)
                    &&& final(store)@ == old(store)@
                },
            },
    {
        match self {
            Operand::Accumulator => match value {
                ImmediateValue::SignedByte(byte) => {
                    store.register_store_mut().write_byte_to_register(
                        Register::Al,
                        signed_to_byte(byte),
                    );
                    Ok(())
                },
                ImmediateValue::SignedWord(_) => Err(EngineError::IllegalOperand),
            },
            Operand::AccumulatorWide => match value {
                ImmediateValue::SignedByte(byte) => {
                    store.register_store_mut().write_byte_to_register(
                        Register::Al,
                        signed_to_byte(byte),
                    );
                    Ok(())
                },
                ImmediateValue::SignedWord(word) => {
                    store.register_store_mut().write_word_to_register(
                        Register::Ax,
                        signed_to_word(word),
                    );
                    Ok(())
                },
            },
            Operand::Register(register) => {
                if register.is_wide() != is_wide_op {
                    return Err(EngineError::IllegalOperand);
                }
                match value {
                    ImmediateValue::SignedByte(byte) => {
                        if is_wide_op {
                            store.register_store_mut().write_word_to_register(
                                register,
                                signed_to_byte(byte) as u16,
                            );
                        } else {
                            store.register_store_mut().write_byte_to_register(
                                register,
                                signed_to_byte(byte),
                            );
                        }
                        Ok(())
                    },
                    ImmediateValue::SignedWord(word) => {
                        if is_wide_op {
                            store.register_store_mut().write_word_to_register(
                                register,
                                signed_to_word(word),
                            );
                            Ok(())
                        } else {
                            Err(EngineError::IllegalOperand)
                        }
                    },
                }
            },
            Operand::Memory(address) => store.write_to_effective_memory_address(
                address,
                is_wide_op,
                value,
            ),
            Operand::Immediate(_) => Err(EngineError::IllegalOperand),
            Operand::SegmentRegister(register) => {
                store.segment_register_store_mut().write_word_to_segment_register(
                    register,
                    value.to_word(),
                );
                Ok(())
            },
        }
    }
}

} // verus!
