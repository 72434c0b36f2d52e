//! The textual listing of decoded instructions.

use crate::instructions::add::AddInstruction;
use crate::instructions::compare::CompareInstruction;
use crate::instructions::decode::Instructions;
use crate::instructions::instruction::AnyInstruction;
use crate::instructions::jump::JumpInstructions;
use crate::instructions::mov::MovInstruction;
use crate::instructions::operands::{ImmediateValue, Operand};
use crate::instructions::subtract::SubtractInstruction;
use crate::memory::EffectiveAddress;
use vstd::prelude::*;
use vstd::string::StringExecFns;

verus! {

/// The character of a decimal or hexadecimal digit.
pub open spec fn digit_char(digit: int) -> char {
    if digit == 0 {
        '0'
    } else if digit == 1 {
        '1'
    } else if digit == 2 {
        '2'
    } else if digit == 3 {
        '3'
    } else if digit == 4 {
        '4'
    } else if digit == 5 {
        '5'
    } else if digit == 6 {
        '6'
    } else if digit == 7 {
        '7'
    } else if digit == 8 {
        '8'
    } else if digit == 9 {
        '9'
    } else if digit == 10 {
        'a'
    } else if digit == 11 {
        'b'
    } else if digit == 12 {
        'c'
    } else if digit == 13 {
        'd'
    } else if digit == 14 {
        'e'
    } else {
        'f'
    }
}

/// A number in decimal, most significant digit first, without leading
/// zeros.
pub open spec fn decimal(value: nat) -> Seq<char>
    decreases value,
{
    if value < 10 {
        seq![digit_char(value as int)]
    } else {
        decimal(value / 10).push(digit_char((value % 10) as int))
    }
}

/// The hexadecimal digits of a number, most significant first, without
/// leading zeros.
pub open spec fn hexadecimal_digits(value: nat) -> Seq<char>
    decreases value,
{
    if value < 16 {
        seq![digit_char(value as int)]
    } else {
        hexadecimal_digits(value / 16).push(digit_char((value % 16) as int))
    }
}

/// A signed number in decimal, with a minus sign where it is negative.
pub open spec fn signed_decimal(value: int) -> Seq<char> {
    if value < 0 {
        seq!['-'] + decimal((-value) as nat)
    } else {
        decimal(value as nat)
    }
}

/// A number in lowercase hexadecimal with the prefix `0x`.
pub open spec fn hexadecimal(value: nat) -> Seq<char> {
    seq!['0', 'x'] + hexadecimal_digits(value)
}

/// A displacement as it follows a base in an address: a sign between
/// spaces and the absolute value.
pub open spec fn displacement_text(value: int) -> Seq<char> {
    if value < 0 {
        seq![' ', '-', ' '] + decimal((-value) as nat)
    } else {
        seq![' ', '+', ' '] + decimal(value as nat)
    }
}

/// A jump target relative to the start of the jump: `$`, a sign and the
/// absolute value of the displacement plus the two bytes of the jump.
pub open spec fn jump_target_text(displacement: int) -> Seq<char> {
    let distance = displacement + 2;
    if distance < 0 {
        seq![' ', '$', '-'] + decimal((-distance) as nat)
    } else {
        seq![' ', '$', '+'] + decimal(distance as nat)
    }
}

fn digit_text(digit: u32) -> (text: &'static str)
    requires
        digit < 16,
    ensures
        text@ == seq![digit_char(digit as int)],
{
    proof {
        reveal_strlit("0");
        reveal_strlit("1");
        reveal_strlit("2");
        reveal_strlit("3");
        reveal_strlit("4");
        reveal_strlit("5");
        reveal_strlit("6");
        reveal_strlit("7");
        reveal_strlit("8");
        reveal_strlit("9");
        reveal_strlit("a");
        reveal_strlit("b");
        reveal_strlit("c");
        reveal_strlit("d");
        reveal_strlit("e");
        reveal_strlit("f");
    }
    let text = if digit == 0 {
        "0"
    } else if digit == 1 {
        "1"
    } else if digit == 2 {
        "2"
    } else if digit == 3 {
        "3"
    } else if digit == 4 {
        "4"
    } else if digit == 5 {
        "5"
    } else if digit == 6 {
        "6"
    } else if digit == 7 {
        "7"
    } else if digit == 8 {
        "8"
    } else if digit == 9 {
        "9"
    } else if digit == 10 {
        "a"
    } else if digit == 11 {
        "b"
    } else if digit == 12 {
        "c"
    } else if digit == 13 {
        "d"
    } else if digit == 14 {
        "e"
    } else {
        "f"
    };
    assert(text@ =~= seq![digit_char(digit as int)]);
    text
}

/// Appends a number in decimal.
fn append_decimal(out: &mut String, value: u32)
    ensures
        final(out)@ == old(out)@ + decimal(value as nat),
    decreases value,
{
    if value < 10 {
        out.append(digit_text(value));
    } else {
        append_decimal(out, value / 10);
        out.append(digit_text(value % 10));
        assert(out@ =~= old(out)@ + decimal(value as nat));
    }
}

/// Appends the hexadecimal digits of a number.
fn append_hexadecimal_digits(out: &mut String, value: u32)
    ensures
        final(out)@ == old(out)@ + hexadecimal_digits(value as nat),
    decreases value,
{
    if value < 16 {
        out.append(digit_text(value));
    } else {
        append_hexadecimal_digits(out, value / 16);
        out.append(digit_text(value % 16));
        assert(out@ =~= old(out)@ + hexadecimal_digits(value as nat));
    }
}

/// Appends a signed number in decimal.
fn append_signed(out: &mut String, value: i32)
    requires
        -65536 <= value <= 65536,
    ensures
        final(out)@ == old(out)@ + signed_decimal(value as int),
{
    proof {
        reveal_strlit("-");
    }
    if value < 0 {
        out.append("-");
        append_decimal(out, (-value) as u32);
        assert(out@ =~= old(out)@ + signed_decimal(value as int));
    } else {
        append_decimal(out, value as u32);
    }
}

/// Appends a displacement with its sign between spaces.
fn append_displacement(out: &mut String, value: i32)
    requires
        -65536 <= value <= 65536,
    ensures
        final(out)@ == old(out)@ + displacement_text(value as int),
{
    proof {
        reveal_strlit(" - ");
        reveal_strlit(" + ");
    }
    if value < 0 {
        out.append(" - ");
        append_decimal(out, (-value) as u32);
    } else {
        out.append(" + ");
        append_decimal(out, value as u32);
    }
    assert(out@ =~= old(out)@ + displacement_text(value as int));
}

impl EffectiveAddress {
    /// The address expression in brackets: registers joined by ` + `, a
    /// displacement by its sign and absolute value, a direct address in
    /// hexadecimal.
    pub open spec fn text(self) -> Seq<char> {
        match self {
            EffectiveAddress::Register(register) => "["@ + register.name() + "]"@,
            EffectiveAddress::RegisterSum(first, second) => "["@ + first.name() + " + "@
                + second.name() + "]"@,
            EffectiveAddress::RegisterPlusByte(register, displacement) => "["@ + register.name()
                + displacement_text(displacement as int) + "]"@,
            EffectiveAddress::RegisterPlusWord(register, displacement) => "["@ + register.name()
                + displacement_text(displacement as int) + "]"@,
            EffectiveAddress::RegisterSumPlusByte(first, second, displacement) => "["@
                + first.name() + " + "@ + second.name() + displacement_text(displacement as int)
                + "]"@,
            EffectiveAddress::RegisterSumPlusWord(first, second, displacement) => "["@
                + first.name() + " + "@ + second.name() + displacement_text(displacement as int)
                + "]"@,
            EffectiveAddress::DirectAddress(address) => "["@ + hexadecimal(address as nat) + "]"@,
        }
    }

    /// Appends the address expression to `out`.
    pub fn write_to(&self, out: &mut String)
        ensures
            final(out)@ == old(out)@ + self.text(),
    {
        out.append("[");
        match self {
            EffectiveAddress::Register(register) => {
                out.append(register.mnemonic());
            },
            EffectiveAddress::RegisterSum(first, second) => {
                out.append(first.mnemonic());
                out.append(" + ");
                out.append(second.mnemonic());
            },
            EffectiveAddress::RegisterPlusByte(register, displacement) => {
                out.append(register.mnemonic());
                append_displacement(out, *displacement as i32);
            },
            EffectiveAddress::RegisterPlusWord(register, displacement) => {
                out.append(register.mnemonic());
                append_displacement(out, *displacement as i32);
            },
            EffectiveAddress::RegisterSumPlusByte(first, second, displacement) => {
                out.append(first.mnemonic());
                out.append(" + ");
                out.append(second.mnemonic());
                append_displacement(out, *displacement as i32);
            },
            EffectiveAddress::RegisterSumPlusWord(first, second, displacement) => {
                out.append(first.mnemonic());
                out.append(" + ");
                out.append(second.mnemonic());
                append_displacement(out, *displacement as i32);
            },
            EffectiveAddress::DirectAddress(address) => {
                proof {
                    reveal_strlit("0x");
                }
                out.append("0x");
                append_hexadecimal_digits(out, *address as u32);
            },
        }
        out.append("]");
        assert(out@ =~= old(out)@ + self.text());
    }

    /// The address expression as text.
    pub fn to_text(&self) -> (text: String)
        ensures
            text@ == self.text(),
    {
        let mut text = String::new();
        self.write_to(&mut text);
        assert(text@ =~= self.text());
        text
    }
}

impl ImmediateValue {
    /// The value in signed decimal.
    pub open spec fn text(self) -> Seq<char> {
        signed_decimal(self.as_int())
    }

    /// Appends the value to `out`.
    pub fn write_to(&self, out: &mut String)
        ensures
            final(out)@ == old(out)@ + self.text(),
    {
        append_signed(out, self.to_signed_word() as i32);
    }

    /// The value as text.
    pub fn to_text(&self) -> (text: String)
        ensures
            text@ == self.text(),
    {
        let mut text = String::new();
        self.write_to(&mut text);
        assert(text@ =~= self.text());
        text
    }
}

impl Operand {
    /// The operand as it stands in a listing.
    pub open spec fn text(self) -> Seq<char> {
        match self {
            Operand::Accumulator => "al"@,
            Operand::AccumulatorWide => "ax"@,
            Operand::Register(register) => register.name(),
            Operand::SegmentRegister(register) => register.name(),
            Operand::Memory(address) => address.text(),
            Operand::Immediate(value) => value.text(),
        }
    }

    /// Appends the operand to `out`.
    pub fn write_to(&self, out: &mut String)
        ensures
            final(out)@ == old(out)@ + self.text(),
    {
        match self {
            Operand::Accumulator => out.append("al"),
            Operand::AccumulatorWide => out.append("ax"),
            Operand::Register(register) => out.append(register.mnemonic()),
            Operand::SegmentRegister(register) => out.append(register.mnemonic()),
            Operand::Memory(address) => address.write_to(out),
            Operand::Immediate(value) => value.write_to(out),
        }
    }

    /// The operand as text.
    pub fn to_text(&self) -> (text: String)
        ensures
            text@ == self.text(),
    {
        let mut text = String::new();
        self.write_to(&mut text);
        assert(text@ =~= self.text());
        text
    }
}

/// The size qualifier that precedes an immediate written to memory, where
/// the operands alone do not tell the width; empty otherwise.
pub open spec fn size_qualifier(destination: Operand, source: Operand) -> Seq<char> {
    match (destination, source) {
        (Operand::Memory(_), Operand::Immediate(ImmediateValue::SignedByte(_))) => "byte "@,
        (Operand::Memory(_), Operand::Immediate(ImmediateValue::SignedWord(_))) => "word "@,
        _ => Seq::<char>::empty(),
    }
}

/// A two-operand instruction in a listing: the mnemonic, the destination,
/// a comma, and the source with its size qualifier where it needs one.
pub open spec fn two_operand_text(mnemonic: Seq<char>, parts: AnyInstruction) -> Seq<char> {
    mnemonic + " "@ + parts.destination.text() + ", "@ + size_qualifier(
        parts.destination,
        parts.source,
    ) + parts.source.text()
}

fn write_two_operand(out: &mut String, mnemonic: &str, parts: &AnyInstruction)
    ensures
        final(out)@ == old(out)@ + two_operand_text(mnemonic@, *parts),
{
    out.append(mnemonic);
    out.append(" ");
    parts.destination.write_to(out);
    out.append(", ");
    match (parts.destination, parts.source) {
        (Operand::Memory(_), Operand::Immediate(ImmediateValue::SignedByte(_))) => {
            out.append("byte ");
        },
        (Operand::Memory(_), Operand::Immediate(ImmediateValue::SignedWord(_))) => {
            out.append("word ");
        },
        _ => {},
    }
    parts.source.write_to(out);
    assert(out@ =~= old(out)@ + two_operand_text(mnemonic@, *parts));
}

impl MovInstruction {
    /// The instruction as it stands in a listing.
    pub open spec fn text(self) -> Seq<char> {
        two_operand_text("mov"@, self.0)
    }

    /// Appends the instruction to `out`.
    pub fn write_to(&self, out: &mut String)
        ensures
            final(out)@ == old(out)@ + self.text(),
    {
        write_two_operand(out, "mov", &self.0);
    }
}

impl AddInstruction {
    /// The instruction as it stands in a listing.
    pub open spec fn text(self) -> Seq<char> {
        two_operand_text("add"@, self.0)
    }

    /// Appends the instruction to `out`.
    pub fn write_to(&self, out: &mut String)
        ensures
            final(out)@ == old(out)@ + self.text(),
    {
        write_two_operand(out, "add", &self.0);
    }
}

impl SubtractInstruction {
    /// The instruction as it stands in a listing.
    pub open spec fn text(self) -> Seq<char> {
        two_operand_text("sub"@, self.0)
    }

    /// Appends the instruction to `out`.
    pub fn write_to(&self, out: &mut String)
        ensures
            final(out)@ == old(out)@ + self.text(),
    {
        write_two_operand(out, "sub", &self.0);
    }
}

impl CompareInstruction {
    /// The instruction as it stands in a listing.
    pub open spec fn text(self) -> Seq<char> {
        two_operand_text("cmp"@, self.0)
    }

    /// Appends the instruction to `out`.
    pub fn write_to(&self, out: &mut String)
        ensures
            final(out)@ == old(out)@ + self.text(),
    {
        write_two_operand(out, "cmp", &self.0);
    }
}

impl JumpInstructions {
    /// The lowercase mnemonic of the jump.
    pub open spec fn name(self) -> Seq<char> {
        match self {
            JumpInstructions::JumpOnEqualOrZero(_) => "je"@,
            JumpInstructions::JumpOnLess(_) => "jl"@,
            JumpInstructions::JumpOnLessOrEqual(_) => "jle"@,
            JumpInstructions::JumpOnBelow(_) => "jb"@,
            JumpInstructions::JumpOnBelowOrEqual(_) => "jbe"@,
            JumpInstructions::JumpOnParityEven(_) => "jp"@,
            JumpInstructions::JumpOnOverflow(_) => "jo"@,
            JumpInstructions::JumpOnSign(_) => "js"@,
            JumpInstructions::JumpOnNotEqualAndNotZero(_) => "jne"@,
            JumpInstructions::JumpOnNotLess(_) => "jnl"@,
            JumpInstructions::JumpOnNotLessAndNotEqual(_) => "jnle"@,
            JumpInstructions::JumpOnNotBelow(_) => "jnb"@,
            JumpInstructions::JumpOnNotBelowAndNotEqual(_) => "jnbe"@,
            JumpInstructions::JumpOnParityOdd(_) => "jnp"@,
            JumpInstructions::JumpOnNotOverflow(_) => "jno"@,
            JumpInstructions::JumpOnNotSign(_) => "jns"@,
            JumpInstructions::Loop(_) => "loop"@,
            JumpInstructions::LoopWhileZeroOrEqual(_) => "loope"@,
            JumpInstructions::LoopWhileNotZeroAndNotEqual(_) => "loopne"@,
            JumpInstructions::JumpOnCxZero(_) => "jcxz"@,
        }
    }

    /// The instruction as it stands in a listing.
    pub open spec fn text(self) -> Seq<char> {
        self.name() + jump_target_text(self.offset() as int)
    }

    /// The lowercase mnemonic of the jump.
    pub fn mnemonic(&self) -> (text: &'static str)
        ensures
            text@ == self.name(),
    {
        match self {
            JumpInstructions::JumpOnEqualOrZero(_) => "je",
            JumpInstructions::JumpOnLess(_) => "jl",
            JumpInstructions::JumpOnLessOrEqual(_) => "jle",
            JumpInstructions::JumpOnBelow(_) => "jb",
            JumpInstructions::JumpOnBelowOrEqual(_) => "jbe",
            JumpInstructions::JumpOnParityEven(_) => "jp",
            JumpInstructions::JumpOnOverflow(_) => "jo",
            JumpInstructions::JumpOnSign(_) => "js",
            JumpInstructions::JumpOnNotEqualAndNotZero(_) => "jne",
            JumpInstructions::JumpOnNotLess(_) => "jnl",
            JumpInstructions::JumpOnNotLessAndNotEqual(_) => "jnle",
            JumpInstructions::JumpOnNotBelow(_) => "jnb",
            JumpInstructions::JumpOnNotBelowAndNotEqual(_) => "jnbe",
            JumpInstructions::JumpOnParityOdd(_) => "jnp",
            JumpInstructions::JumpOnNotOverflow(_) => "jno",
            JumpInstructions::JumpOnNotSign(_) => "jns",
            JumpInstructions::Loop(_) => "loop",
            JumpInstructions::LoopWhileZeroOrEqual(_) => "loope",
            JumpInstructions::LoopWhileNotZeroAndNotEqual(_) => "loopne",
            JumpInstructions::JumpOnCxZero(_) => "jcxz",
        }
    }

    /// Appends the instruction to `out`.
    pub fn write_to(&self, out: &mut String)
        ensures
            final(out)@ == old(out)@ + self.text(),
    {
        proof {
            reveal_strlit(" $-");
            reveal_strlit(" $+");
        }
        out.append(self.mnemonic());
        let distance: i32 = self.displacement() as i32 + 2;
        if distance < 0 {
            out.append(" $-");
            append_decimal(out, (-distance) as u32);
        } else {
            out.append(" $+");
            append_decimal(out, distance as u32);
        }
        assert(out@ =~= old(out)@ + self.text());
    }
}

impl Instructions {
    /// The instruction as it stands in a listing.
    pub open spec fn text(self) -> Seq<char> {
        match self {
            Instructions::Mov(instruction) => instruction.text(),
            Instructions::Add(instruction) => instruction.text(),
            Instructions::Sub(instruction) => instruction.text(),
            Instructions::Cmp(instruction) => instruction.text(),
            Instructions::Jump(instruction) => instruction.text(),
        }
    }

    /// Appends the instruction to `out`.
    pub fn write_to(&self, out: &mut String)
        ensures
            final(out)@ == old(out)@ + self.text(),
    {
        match self {
            Instructions::Mov(instruction) => instruction.write_to(out),
            Instructions::Add(instruction) => instruction.write_to(out),
            Instructions::Sub(instruction) => instruction.write_to(out),
            Instructions::Cmp(instruction) => instruction.write_to(out),
            Instructions::Jump(instruction) => instruction.write_to(out),
        }
    }

    /// The instruction as text.
    pub fn to_text(&self) -> (text: String)
        ensures
            text@ == self.text(),
    {
        let mut text = String::new();
        self.write_to(&mut text);
        assert(text@ =~= self.text());
        text
    }
}

} // verus!
