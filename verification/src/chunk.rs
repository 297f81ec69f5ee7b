//! The instruction set and the bytecode container.

use vstd::prelude::*;

verus! {

/// A constant-pool value: the raw bit pattern of an IEEE-754 double.
///
/// The core stores, copies and pushes these patterns but never interprets
/// them numerically; conversion to and from a native double happens outside
/// the verified core, which keeps every value bit-exact while it is here.
#[derive(Clone, Copy, Debug, PartialEq, Eq, Structural)]
pub struct Value {
    pub bits: u64,
}

/// The closed instruction set. Tags are contiguous from 0 and stable:
/// `Constant` is tag 0, `Return` is tag 1.
#[derive(Clone, Copy, Debug, PartialEq, Eq, Structural)]
pub enum OpCode {
    /// Push one constant-pool value onto the stack. Operand: one byte, an
    /// index into the constant pool.
    Constant,
    /// Terminate execution of the current chunk successfully. No operand.
    Return,
}

impl OpCode {
    /// The stable numeric tag of this instruction.
    pub open spec fn spec_tag(self) -> u8 {
        match self {
            OpCode::Constant => 0,
            OpCode::Return => 1,
        }
    }

    /// The stable numeric tag of this instruction.
    pub fn tag(self) -> (t: u8)
        ensures
            t == self.spec_tag(),
    {
        match self {
            OpCode::Constant => 0,
            OpCode::Return => 1,
        }
    }

    /// Decode one byte against the instruction set: `Some` exactly on the
    /// defined tags.
    pub open spec fn spec_decode(byte: u8) -> Option<OpCode> {
        if byte == OpCode::Constant.spec_tag() {
            Some(OpCode::Constant)
        } else if byte == OpCode::Return.spec_tag() {
            Some(OpCode::Return)
        } else {
            None
        }
    }

    /// Decode one byte. Any byte that is not a defined tag is rejected with
    /// an unknown-opcode fault, never skipped.
    pub fn try_from(value: &u8) -> (r: Result<OpCode, &'static str>)
        ensures
            r is Ok <==> OpCode::spec_decode(*value) is Some,
            r matches Ok(op) ==> Some(op) == OpCode::spec_decode(*value),
            r matches Err(m) ==> m@ == "Unknown opcode"@,
    {
        if *value == OpCode::Constant.tag() {
            Ok(OpCode::Constant)
        } else if *value == OpCode::Return.tag() {
            Ok(OpCode::Return)
        } else {
            Err("Unknown opcode")
        }
    }
}

/// Decoding is total over the instruction set: every byte that equals a
/// defined tag decodes to exactly that instruction, and every byte that
/// equals no defined tag is rejected.
pub proof fn lemma_decode_total(byte: u8)
    ensures
        (exists|op: OpCode| op.spec_tag() == byte) <==> OpCode::spec_decode(byte) is Some,
        forall|op: OpCode| #[trigger] op.spec_tag() == byte ==> OpCode::spec_decode(byte) == Some(
            op,
        ),
{
    if OpCode::spec_decode(byte) is Some {
        let op = OpCode::spec_decode(byte)->Some_0;
        assert(op.spec_tag() == byte);
    }
    assert forall|op: OpCode| #[trigger] op.spec_tag() == byte implies OpCode::spec_decode(byte)
        == Some(op) by {
        match op {
            OpCode::Constant => {},
            OpCode::Return => {},
        }
    }
}

/// The mathematical model of a [`Chunk`]: its name, its code bytes, its
/// constant pool, and its per-byte line table.
#[verifier::ext_equal]
pub ghost struct ChunkView {
    pub name: Seq<char>,
    pub code: Seq<u8>,
    pub constants: Seq<Value>,
    pub lines: Seq<usize>,
}

impl ChunkView {
    /// Every code byte, opcode or operand, has a line-table entry.
    pub open spec fn wf(self) -> bool {
        self.lines.len() == self.code.len()
    }

    /// The model of [`Chunk::write`]: one byte appended to the code and its
    /// line number appended to the line table, in lockstep.
    pub open spec fn write(self, byte: u8, line: usize) -> ChunkView {
        ChunkView { code: self.code.push(byte), lines: self.lines.push(line), ..self }
    }

    /// The model of [`Chunk::add_constant`]: one value appended to the pool.
    pub open spec fn add_constant(self, value: Value) -> ChunkView {
        ChunkView { constants: self.constants.push(value), ..self }
    }

    /// The index that [`Chunk::add_constant`] hands back for `value`: the
    /// pool's length before the append.
    pub open spec fn add_constant_index(self, value: Value) -> int {
        self.constants.len() as int
    }

    /// The model of a whole run of `add_constant` calls, first value first.
    pub open spec fn add_constants(self, values: Seq<Value>) -> ChunkView
        decreases values.len(),
    {
        if values.len() == 0 {
            self
        } else {
            self.add_constant(values[0]).add_constants(values.drop_first())
        }
    }
}

/// An append-only container of raw instruction bytes, a constant pool, and a
/// source-line table with one entry per code byte. The name is for
/// diagnostics only.
pub struct Chunk {
    pub name: &'static str,
    pub code: Vec<u8>,
    pub constants: Vec<Value>,
    pub lines: Vec<usize>,
}

impl View for Chunk {
    type V = ChunkView;

    open spec fn view(&self) -> ChunkView {
        ChunkView {
            name: self.name@,
            code: self.code@,
            constants: self.constants@,
            lines: self.lines@,
        }
    }
}

impl Chunk {
    /// An empty chunk: no code, no constants, no line entries.
    pub fn new(name: &'static str) -> (c: Chunk)
        ensures
            c@.name == name@,
            c@.code == Seq::<u8>::empty(),
            c@.constants == Seq::<Value>::empty(),
            c@.lines == Seq::<usize>::empty(),
            c@.wf(),
    {
        Chunk { name, code: Vec::new(), constants: Vec::new(), lines: Vec::new() }
    }

    /// A chunk pre-populated with an externally produced byte sequence. Its
    /// constant pool and line table start empty, so diagnostics for such a
    /// chunk degrade accordingly.
    pub fn init(name: &'static str, code: Vec<u8>) -> (c: Chunk)
        ensures
            c@.name == name@,
            c@.code == code@,
            c@.constants == Seq::<Value>::empty(),
            c@.lines == Seq::<usize>::empty(),
    {
        Chunk { name, code, constants: Vec::new(), lines: Vec::new() }
    }

    /// Append one byte to the code and its source line to the line table.
    /// The byte is not validated here: operands are raw data, and opcode
    /// validation happens at decode time.
    pub fn write(&mut self, code: u8, line: usize)
        ensures
            final(self)@ == old(self)@.write(code, line),
    {
        self.code.push(code);
        self.lines.push(line);
        assert(final(self)@ =~= old(self)@.write(code, line));
    }

    /// Append one value to the constant pool and return its position. Indices
    /// are stable for the chunk's lifetime: nothing is removed or compacted.
    pub fn add_constant(&mut self, value: Value) -> (index: usize)
        ensures
            final(self)@ == old(self)@.add_constant(value),
            index as int == old(self)@.add_constant_index(value),
    {
        self.constants.push(value);
        assert(final(self)@ =~= old(self)@.add_constant(value));
        self.constants.len() - 1
    }

    /// Read one code byte. An out-of-range index is an internal-bounds fault,
    /// so callers must stay inside the code sequence.
    pub fn read_code(&self, index: usize) -> (byte: &u8)
        requires
            index < self@.code.len(),
        ensures
            *byte == self@.code[index as int],
    {
        &self.code[index]
    }

    /// Read one constant-pool value. An out-of-range index is an
    /// internal-bounds fault, so callers must stay inside the pool.
    pub fn read_constant(&self, index: usize) -> (value: &Value)
        requires
            index < self@.constants.len(),
        ensures
            *value == self@.constants[index as int],
    {
        &self.constants[index]
    }
}

/// Code and line table grow in lockstep: `write` extends both by exactly one
/// entry, so a chunk whose code and line table have equal lengths keeps that
/// equality across any sequence of `write` calls.
pub proof fn lemma_write_preserves_line_parity(c: ChunkView, byte: u8, line: usize)
    requires
        c.wf(),
    ensures
        c.write(byte, line).wf(),
        c.write(byte, line).code.len() == c.code.len() + 1,
{
}

/// `add_constant` touches neither the code nor the line table, so it too
/// preserves their equal lengths at every observation point.
pub proof fn lemma_add_constant_preserves_line_parity(c: ChunkView, value: Value)
    requires
        c.wf(),
    ensures
        c.add_constant(value).wf(),
        c.add_constant(value).code == c.code,
        c.add_constant(value).lines == c.lines,
{
}

/// A run of `add_constant` calls appends exactly the given values, in order,
/// after the pool's existing contents.
pub proof fn lemma_add_constants_pool(c: ChunkView, values: Seq<Value>)
    ensures
        c.add_constants(values).constants == c.constants + values,
    decreases values.len(),
{
    if values.len() == 0 {
        assert(c.constants + values =~= c.constants);
    } else {
        lemma_add_constants_pool(c.add_constant(values[0]), values.drop_first());
        assert(c.constants.push(values[0]) + values.drop_first() =~= c.constants + values);
    }
}

/// The indices handed back by a run of `add_constant` calls are consecutive
/// from the pool's starting length - on a fresh chunk they are exactly
/// 0, 1, 2, ... - and reading the k-th returned index back from the final
/// pool yields the k-th appended value, bit for bit.
pub proof fn lemma_constant_pool_round_trip(c: ChunkView, values: Seq<Value>, k: int)
    requires
        0 <= k < values.len(),
    ensures
        c.add_constants(values.take(k)).add_constant_index(values[k]) == c.constants.len() + k,
        c.add_constants(values).constants[c.constants.len() + k] == values[k],
{
    lemma_add_constants_pool(c, values.take(k));
    lemma_add_constants_pool(c, values);
}

} // verus!
