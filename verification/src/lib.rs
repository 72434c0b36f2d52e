//! Disassembler and functional simulator for a subset of the 16-bit 8086
//! instruction set, with machine-checked contracts.

pub mod cycle;
pub mod error;
pub mod flag_register;
pub mod helpers;
pub mod instructions;
pub mod laws;
pub mod listing;
pub mod memory;
pub mod mode;
pub mod register;
pub mod segment_register;
pub mod store;
pub mod stream;

pub use crate::error::EngineError;
pub use crate::flag_register::FlagRegisterManager;
pub use crate::instructions::decode::Instructions;
pub use crate::instructions::instruction::Instruction;
pub use crate::memory::MemoryManager;
pub use crate::register::RegisterManager;
pub use crate::segment_register::SegmentRegisterManager;
pub use crate::store::Store;
pub use crate::stream::ByteStream;

use crate::instructions::decode::{lemma_instruction_bounds, next_instruction};
use crate::instructions::instruction::Effect;
use crate::store::MachineState;
use vstd::prelude::*;
use vstd::string::StringExecFns;

verus! {

/// A walk over the instructions of a stream, as contracts see it.
pub struct Walk {
    /// The lines of the instructions that were decoded, each followed by
    /// a line feed.
    pub lines: Seq<char>,
    /// Where the walk ended: the end of the stream, or the start of the
    /// instruction that could not be decoded.
    pub position: int,
    /// Why the walk ended before the end of the stream, if it did.
    pub failure: Option<EngineError>,
}

/// The walk that decodes one instruction after the other from `position`
/// until the stream ends or an instruction cannot be decoded.
pub open spec fn walk(bytes: Seq<u8>, position: int) -> Walk
    decreases bytes.len() - position,
{
    if position < 0 || position >= bytes.len() {
        Walk { lines: Seq::<char>::empty(), position, failure: None }
    } else {
        proof {
            lemma_instruction_bounds(bytes, position + 1, bytes[position]);
        }
        match next_instruction(bytes, position) {
            Ok(Some((instruction, after))) => {
                let rest = walk(bytes, after);
                Walk { lines: instruction.text() + "\n"@ + rest.lines, ..rest }
            },
            Ok(None) => Walk { lines: Seq::<char>::empty(), position, failure: None },
            Err(error) => Walk { lines: Seq::<char>::empty(), position, failure: Some(error) },
        }
    }
}

/// The listing made of the given lines: the header `bits 16`, an empty
/// line, and the lines.
pub open spec fn listing(lines: Seq<char>) -> Seq<char> {
    "bits 16\n\n"@ + lines
}

/// Disassembles the stream from its read position to its end: the listing
/// holds one line for each instruction. On failure the stream stands at
/// the start of the instruction that could not be decoded.
pub fn decode(stream: &mut ByteStream) -> (outcome: Result<String, EngineError>)
    ensures
        final(stream).bytes() == old(stream).bytes(),
        final(stream).pos() == walk(old(stream).bytes(), old(stream).pos()).position,
        match walk(old(stream).bytes(), old(stream).pos()).failure {
            None => outcome matches Ok(text) && text@ == listing(
                walk(old(stream).bytes(), old(stream).pos()).lines,
            ) && final(stream).pos() == old(stream).bytes().len(),
            Some(error) => outcome matches Err(reason) && reason == error,
        },
{
    let mut output = String::from_str("bits 16\n\n");
    let ghost mut lines: Seq<char> = Seq::empty();
    let ghost bytes = stream.bytes();
    let start: usize = stream.stream_position();
    assert(output@ =~= listing(lines));
    loop
        invariant
            bytes == old(stream).bytes(),
            start == old(stream).pos(),
            stream.bytes() == bytes,
            0 <= stream.pos() <= bytes.len(),
            output@ == listing(lines),
            walk(bytes, start as int) == (Walk {
                lines: lines + walk(bytes, stream.pos()).lines,
                ..walk(bytes, stream.pos())
            }),
        decreases bytes.len() - stream.pos(),
    {
        let ghost before = stream.pos();
        proof {
            if before < bytes.len() {
                lemma_instruction_bounds(bytes, before + 1, bytes[before]);
            }
        }
        match Instructions::decode_one(stream) {
            Err(error) => {
                return Err(error);
            },
            Ok(None) => {
                assert(lines + Seq::<char>::empty() =~= lines);
                return Ok(output);
            },
            Ok(Some(instruction)) => {
                instruction.write_to(&mut output);
                output.append("\n");
                proof {
                    let line = instruction.text() + "\n"@;
                    let rest = walk(bytes, stream.pos()).lines;
                    assert(lines + (line + rest) =~= (lines + line) + rest);
                    assert(output@ =~= listing(lines + line));
                    lines = lines + line;
                }
            },
        }
    }
}

/// How a run of the simulator ended.
#[derive(Clone, Copy, PartialEq, Eq, Structural, Debug)]
pub enum Ending {
    /// The read position reached the end of the stream.
    Finished,
    /// The allowed number of instructions was executed before the end of
    /// the stream was reached.
    LimitReached,
    /// An instruction could not be decoded or executed.
    Failed(EngineError),
}

/// The outcome of a run of the simulator.
#[derive(Clone, Copy, PartialEq, Eq, Structural, Debug)]
pub struct Report {
    /// The sum of the cycle costs of the executed instructions.
    pub cycles: u64,
    /// How the run ended.
    pub ending: Ending,
}

/// A run of the simulator, as contracts see it.
pub struct Trace {
    /// The machine state at the end of the run.
    pub state: MachineState,
    /// The stream position at the end of the run.
    pub position: int,
    /// The sum of the cycle costs of the executed instructions.
    pub cycles: int,
    /// How the run ended.
    pub ending: Ending,
}

/// The effect of decoding and executing the instruction at `position`;
/// nothing at the end of the stream.
pub open spec fn step(bytes: Seq<u8>, state: MachineState, position: int) -> Result<
    Option<Effect>,
    EngineError,
> {
    match next_instruction(bytes, position) {
        Ok(Some((instruction, after))) => match instruction.effect(
            state,
            after,
            bytes.len() as int,
        ) {
            Ok(effect) => Ok(Some(effect)),
            Err(error) => Err(error),
        },
        Ok(None) => Ok(None),
        Err(error) => Err(error),
    }
}

/// The run that starts from `state` at `position` and executes at most
/// `limit` instructions. It ends at the end of the stream; at the first
/// instruction that fails, which leaves state and position as they were
/// before it; or before the next instruction when the limit is used up.
pub open spec fn run(bytes: Seq<u8>, state: MachineState, position: int, limit: nat) -> Trace
    decreases limit,
{
    if position >= bytes.len() {
        Trace { state, position, cycles: 0, ending: Ending::Finished }
    } else if limit == 0 {
        Trace { state, position, cycles: 0, ending: Ending::LimitReached }
    } else {
        match step(bytes, state, position) {
            Ok(None) => Trace { state, position, cycles: 0, ending: Ending::Finished },
            Err(error) => Trace { state, position, cycles: 0, ending: Ending::Failed(error) },
            Ok(Some(effect)) => {
                let rest = run(bytes, effect.state, effect.position, (limit - 1) as nat);
                Trace { cycles: effect.cycles + rest.cycles, ..rest }
            },
        }
    }
}

/// Decodes and executes the instruction at the read position and returns
/// its cycle cost; does nothing, and returns nothing, at the end of the
/// stream. An instruction that fails leaves the machine and the stream as
/// they were.
pub fn execute_one(stream: &mut ByteStream, store: &mut Store) -> (outcome: Result<
    Option<u32>,
    EngineError,
>)
    ensures
        final(stream).bytes() == old(stream).bytes(),
        match step(old(stream).bytes(), old(store)@, old(stream).pos()) {
            Ok(Some(effect)) => {
                &&& outcome matches Ok(Some(cycles))
                &&& cycles as int == effect.cycles
                &&& final(store)@ == effect.state
                &&& final(stream).pos() == effect.position
            },
            Ok(None) => {
                &&& outcome == Ok::<Option<u32>, EngineError>(None)
                &&& final(store)@ == old(store)@
                &&& final(stream).pos() == old(stream).pos()
            },
            Err(error) => {
                &&& outcome == Err::<Option<u32>, EngineError>(error)
                &&& final(store)@ == old(store)@
                &&& final(stream).pos() == old(stream).pos()
            },
        },
{
    let start: usize = stream.stream_position();
    let instruction = match Instructions::decode_one(stream)? {
        Some(instruction) => instruction,
        None => {
            return Ok(None);
        },
    };
    proof {
        lemma_instruction_bounds(old(stream).bytes(), start + 1, old(stream).bytes()[start as int]);
    }
    match instruction.execute(stream, store) {
        Ok(cycles) => Ok(Some(cycles)),
        Err(error) => {
            stream.rewind(start);
            Err(error)
        },
    }
}

/// Runs the program in the stream from its read position, executing at
/// most `limit` instructions, and reports the cycles spent and how the run
/// ended.
pub fn simulate(stream: &mut ByteStream, store: &mut Store, limit: u32) -> (report: Report)
    ensures
        final(stream).bytes() == old(stream).bytes(),
        ({
            let trace = run(old(stream).bytes(), old(store)@, old(stream).pos(), limit as nat);
            &&& final(store)@ == trace.state
            &&& final(stream).pos() == trace.position
            &&& report.cycles as int == trace.cycles
            &&& report.ending == trace.ending
        }),
{
    let mut num_cpu_cycles: u64 = 0;
    let mut executed: u32 = 0;
    let ghost bytes = stream.bytes();
    let ghost whole = run(bytes, store@, stream.pos(), limit as nat);
    loop
        invariant
            bytes == old(stream).bytes(),
            stream.bytes() == bytes,
            whole == run(bytes, old(store)@, old(stream).pos(), limit as nat),
            executed <= limit,
            num_cpu_cycles <= executed as int * 0xFFFF_FFFF,
            whole == (Trace {
                cycles: num_cpu_cycles as int + run(
                    bytes,
                    store@,
                    stream.pos(),
                    (limit - executed) as nat,
                ).cycles,
                ..run(bytes, store@, stream.pos(), (limit - executed) as nat)
            }),
        decreases limit - executed,
    {
        if stream.is_at_end() {
            return Report { cycles: num_cpu_cycles, ending: Ending::Finished };
        }
        if executed == limit {
            return Report { cycles: num_cpu_cycles, ending: Ending::LimitReached };
        }
        match execute_one(stream, store) {
            Err(error) => {
                return Report { cycles: num_cpu_cycles, ending: Ending::Failed(error) };
            },
            Ok(None) => {
                return Report { cycles: num_cpu_cycles, ending: Ending::Finished };
            },
            Ok(Some(cycles)) => {
                num_cpu_cycles = num_cpu_cycles + cycles as u64;
                executed = executed + 1;
            },
        }
    }
}

} // verus!
