//! Instruction values: their operands, decoding, execution and listing.

pub mod add;
pub mod arithmetic;
pub mod compare;
pub mod decode;
pub mod instruction;
pub mod jump;
pub mod mov;
pub mod operands;
pub mod subtract;
