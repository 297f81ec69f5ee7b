//! The disassembler: a read-only rendering of a chunk's instructions.
//!
//! Rendering is pure: each function builds the exact ASCII bytes of the
//! diagnostic text and hands them back; writing them to an output channel is
//! the caller's business. Constant-pool values are doubles, which the
//! verified core does not render numerically, so every rendering function
//! takes the pool's values as pre-rendered texts, one per constant.

use vstd::prelude::*;

use crate::chunk::{Chunk, ChunkView, OpCode};
use crate::text::{decimal_bytes, lemma_pad4_shape, pad4_bytes, spec_decimal, spec_pad4};

verus! {

/// The line column that marks "same source line as the previous byte".
pub open spec fn same_line_marker() -> Seq<u8> {
    seq![32u8, 32u8, 32u8, 124u8, 32u8]
}

/// The mnemonic of the `Return` instruction.
pub open spec fn return_text() -> Seq<u8> {
    seq![79u8, 80u8, 95u8, 82u8, 69u8, 84u8, 85u8, 82u8, 78u8]
}

/// The mnemonic of the `Constant` instruction, left-justified in a
/// sixteen-byte column so its operand lines up across rows.
pub open spec fn constant_column() -> Seq<u8> {
    seq![
        79u8,
        80u8,
        95u8,
        67u8,
        79u8,
        78u8,
        83u8,
        84u8,
        65u8,
        78u8,
        84u8,
        32u8,
        32u8,
        32u8,
        32u8,
        32u8,
    ]
}

/// The diagnostic shown for a byte that decodes to no instruction.
pub open spec fn unknown_text() -> Seq<u8> {
    seq![85u8, 110u8, 107u8, 110u8, 111u8, 119u8, 110u8, 32u8, 111u8, 112u8, 99u8, 111u8, 100u8, 101u8]
}

/// The pool texts a caller supplies, as a sequence of byte sequences.
pub open spec fn texts_view(texts: &Vec<Vec<u8>>) -> Seq<Seq<u8>> {
    Seq::new(texts@.len(), |i: int| texts@[i]@)
}

/// The line column at `offset`: the same-line marker when this byte's source
/// line equals the previous byte's, the line number zero-padded otherwise.
/// At offset 0 there is no previous byte, so the number is always rendered.
pub open spec fn spec_line_column(lines: Seq<usize>, offset: int) -> Seq<u8> {
    if offset > 0 && lines[offset] == lines[offset - 1] {
        same_line_marker()
    } else {
        spec_pad4(lines[offset] as nat) + seq![32u8]
    }
}

/// The instruction-specific part of one rendered line: mnemonic and, for
/// `Constant`, the operand byte and the quoted pool text it refers to. A byte
/// that decodes to no instruction is rendered as an unknown-opcode
/// diagnostic with its raw value.
pub open spec fn spec_instr_body(c: ChunkView, offset: int, texts: Seq<Seq<u8>>) -> Seq<u8> {
    let byte = c.code[offset];
    if byte == OpCode::Constant.spec_tag() {
        constant_column() + seq![32u8] + spec_decimal(c.code[offset + 1] as nat) + seq![32u8, 39u8]
            + texts[c.code[offset + 1] as int] + seq![39u8, 10u8]
    } else if byte == OpCode::Return.spec_tag() {
        return_text() + seq![10u8]
    } else {
        unknown_text() + seq![32u8] + spec_decimal(byte as nat) + seq![10u8]
    }
}

/// One whole rendered line: the offset zero-padded to four digits, the line
/// column, then the instruction-specific part.
pub open spec fn spec_instr_text(c: ChunkView, offset: int, texts: Seq<Seq<u8>>) -> Seq<u8> {
    spec_pad4(offset as nat) + seq![32u8] + spec_line_column(c.lines, offset) + spec_instr_body(
        c,
        offset,
        texts,
    )
}

/// Where the walk continues after the instruction at `offset`: two bytes
/// ahead for `Constant` (opcode plus operand), one byte ahead otherwise -
/// an unrecognized byte is deliberately skipped one byte at a time so a
/// corrupt chunk can still be inspected.
pub open spec fn spec_next_offset(code: Seq<u8>, offset: int) -> int {
    if code[offset] == OpCode::Constant.spec_tag() {
        offset + 2
    } else {
        offset + 1
    }
}

/// Whether a whole-chunk walk from `offset` stays in bounds: every
/// `Constant` reached by the walk has its operand byte inside the code and
/// that operand indexes inside a pool of `n_constants` values. Reading
/// outside either is an internal-bounds fault.
pub open spec fn spec_walk_wf(code: Seq<u8>, n_constants: nat, offset: int) -> bool
    decreases code.len() - offset,
{
    if offset < 0 {
        false
    } else if offset >= code.len() {
        true
    } else if code[offset] == OpCode::Constant.spec_tag() {
        &&& offset + 1 < code.len()
        &&& (code[offset + 1] as nat) < n_constants
        &&& spec_walk_wf(code, n_constants, offset + 2)
    } else {
        spec_walk_wf(code, n_constants, offset + 1)
    }
}

/// The rendered text of every instruction from `offset` to the end of the
/// code, one line each, in walk order.
pub open spec fn spec_disasm_from(c: ChunkView, texts: Seq<Seq<u8>>, offset: int) -> Seq<u8>
    decreases c.code.len() - offset + 1,
{
    if offset < 0 || offset >= c.code.len() {
        Seq::empty()
    } else {
        spec_instr_text(c, offset, texts) + spec_disasm_from(
            c,
            texts,
            spec_next_offset(c.code, offset),
        )
    }
}

/// The header line above a whole-chunk disassembly: the chunk's name framed
/// by double equals signs.
pub open spec fn spec_header(name: Seq<char>) -> Seq<u8> {
    seq![61u8, 61u8, 32u8] + vstd::utf8::encode_utf8(name) + seq![32u8, 61u8, 61u8, 10u8]
}

/// The line column renders the same-line marker exactly when the offset is
/// positive and its source line equals the previous byte's; in every other
/// case it renders the line number zero-padded, and the two renderings are
/// never confused, since a marker starts with a space and a padded number
/// with an ASCII digit.
pub proof fn lemma_same_line_marker_iff(lines: Seq<usize>, offset: int)
    requires
        0 <= offset < lines.len(),
    ensures
        spec_line_column(lines, offset) == same_line_marker() <==> (offset > 0 && lines[offset]
            == lines[offset - 1]),
        !(offset > 0 && lines[offset] == lines[offset - 1]) ==> spec_line_column(lines, offset)
            == spec_pad4(lines[offset] as nat) + seq![32u8],
{
    if !(offset > 0 && lines[offset] == lines[offset - 1]) {
        lemma_pad4_shape(lines[offset] as nat);
        let padded = spec_pad4(lines[offset] as nat) + seq![32u8];
        assert(padded[0] == spec_pad4(lines[offset] as nat)[0]);
        assert(same_line_marker()[0] == 32);
        assert(spec_line_column(lines, offset) != same_line_marker());
    }
}

/// Append every byte of the slice `src` to `out`.
fn append_byte_slice(out: &mut Vec<u8>, src: &[u8])
    ensures
        final(out)@ == old(out)@ + src@,
{
    let mut j: usize = 0;
    while j < src.len()
        invariant
            j <= src@.len(),
            out@ == old(out)@ + src@.take(j as int),
        decreases src@.len() - j,
    {
        out.push(src[j]);
        assert(old(out)@ + src@.take(j as int) + seq![src@[j as int]] =~= old(out)@ + src@.take(
            j as int + 1,
        ));
        j = j + 1;
    }
    assert(old(out)@ + src@.take(src@.len() as int) =~= old(out)@ + src@);
}

/// Append the `Return` mnemonic.
fn push_return_text(out: &mut Vec<u8>)
    ensures
        final(out)@ == old(out)@ + return_text(),
{
    out.push(79u8);
    out.push(80u8);
    out.push(95u8);
    out.push(82u8);
    out.push(69u8);
    out.push(84u8);
    out.push(85u8);
    out.push(82u8);
    out.push(78u8);
    assert(final(out)@ =~= old(out)@ + return_text());
}

/// Append the `Constant` mnemonic in its sixteen-byte column.
fn push_constant_column(out: &mut Vec<u8>)
    ensures
        final(out)@ == old(out)@ + constant_column(),
{
    out.push(79u8);
    out.push(80u8);
    out.push(95u8);
    out.push(67u8);
    out.push(79u8);
    out.push(78u8);
    out.push(83u8);
    out.push(84u8);
    out.push(65u8);
    out.push(78u8);
    out.push(84u8);
    out.push(32u8);
    out.push(32u8);
    out.push(32u8);
    out.push(32u8);
    out.push(32u8);
    assert(final(out)@ =~= old(out)@ + constant_column());
}

/// Append the unknown-opcode diagnostic text.
fn push_unknown_text(out: &mut Vec<u8>)
    ensures
        final(out)@ == old(out)@ + unknown_text(),
{
    out.push(85u8);
    out.push(110u8);
    out.push(107u8);
    out.push(110u8);
    out.push(111u8);
    out.push(119u8);
    out.push(110u8);
    out.push(32u8);
    out.push(111u8);
    out.push(112u8);
    out.push(99u8);
    out.push(111u8);
    out.push(100u8);
    out.push(101u8);
    assert(final(out)@ =~= old(out)@ + unknown_text());
}

impl Chunk {
    /// Render the single instruction at `offset` and say where the next one
    /// starts. `constant_texts` holds one pre-rendered text per pool value;
    /// it is consulted only for a `Constant` instruction. Reading an operand
    /// past the end of the code, or a pool index past the end of the pool,
    /// is an internal-bounds fault, so callers must stay clear of both.
    #[verifier::rlimit(50)]
    pub fn disassemble_instruction(&self, offset: usize, constant_texts: &Vec<Vec<u8>>) -> (r: (
        usize,
        Vec<u8>,
    ))
        requires
            offset < self@.code.len(),
            offset < self@.lines.len(),
            self@.code[offset as int] == OpCode::Constant.spec_tag() ==> {
                &&& offset + 1 < self@.code.len()
                &&& (self@.code[offset as int + 1] as int) < self@.constants.len()
                &&& constant_texts@.len() == self@.constants.len()
            },
        ensures
            r.0 as int == spec_next_offset(self@.code, offset as int),
            r.1@ == spec_instr_text(self@, offset as int, texts_view(constant_texts)),
    {
        let code_len = self.code.len();
        let mut out: Vec<u8> = Vec::new();
        let mut offset_bytes = pad4_bytes(offset as u64);
        out.append(&mut offset_bytes);
        out.push(32u8);

        if offset > 0 && self.lines[offset] == self.lines[offset - 1] {
            out.push(32u8);
            out.push(32u8);
            out.push(32u8);
            out.push(124u8);
            out.push(32u8);
        } else {
            let mut line_bytes = pad4_bytes(self.lines[offset] as u64);
            out.append(&mut line_bytes);
            out.push(32u8);
        }
        assert(out@ =~= spec_pad4(offset as nat) + seq![32u8] + spec_line_column(
            self@.lines,
            offset as int,
        ));
        let ghost prefix = out@;

        let raw_code = *self.read_code(offset);
        match OpCode::try_from(&raw_code) {
            Ok(OpCode::Constant) => {
                push_constant_column(&mut out);
                out.push(32u8);
                let index = *self.read_code(offset + 1);
                let mut index_bytes = decimal_bytes(index as u64);
                out.append(&mut index_bytes);
                out.push(32u8);
                out.push(39u8);
                append_byte_slice(&mut out, constant_texts[index as usize].as_slice());
                out.push(39u8);
                out.push(10u8);
                assert(out@ =~= prefix + spec_instr_body(
                    self@,
                    offset as int,
                    texts_view(constant_texts),
                ));
                (offset + 2, out)
            },
            Ok(OpCode::Return) => {
                push_return_text(&mut out);
                out.push(10u8);
                assert(out@ =~= prefix + spec_instr_body(
                    self@,
                    offset as int,
                    texts_view(constant_texts),
                ));
                (offset + 1, out)
            },
            Err(_) => {
                push_unknown_text(&mut out);
                out.push(32u8);
                let mut raw_bytes = decimal_bytes(raw_code as u64);
                out.append(&mut raw_bytes);
                out.push(10u8);
                assert(out@ =~= prefix + spec_instr_body(
                    self@,
                    offset as int,
                    texts_view(constant_texts),
                ));
                (offset + 1, out)
            },
        }
    }

    /// Whether this chunk can be walked end to end without an
    /// internal-bounds fault: the line table covers every code byte, and
    /// every `Constant` the walk reaches has its operand in bounds.
    pub fn disassembly_in_bounds(&self) -> (b: bool)
        ensures
            b == (self@.wf() && spec_walk_wf(self@.code, self@.constants.len(), 0)),
    {
        if self.lines.len() != self.code.len() {
            return false;
        }
        let mut offset: usize = 0;
        while offset < self.code.len()
            invariant
                offset <= self@.code.len(),
                spec_walk_wf(self@.code, self@.constants.len(), 0) == spec_walk_wf(
                    self@.code,
                    self@.constants.len(),
                    offset as int,
                ),
            decreases self@.code.len() - offset,
        {
            let byte = *self.read_code(offset);
            if byte == OpCode::Constant.tag() {
                if offset + 1 >= self.code.len() {
                    return false;
                }
                let index = *self.read_code(offset + 1);
                if (index as usize) >= self.constants.len() {
                    return false;
                }
                offset = offset + 2;
            } else {
                offset = offset + 1;
            }
        }
        true
    }

    /// Render the whole chunk: a header with its name, then one line per
    /// instruction from offset 0 to the end of the code. The chunk itself is
    /// only read, so rendering it twice gives the same text twice.
    pub fn disassemble(&self, constant_texts: &Vec<Vec<u8>>) -> (out: Vec<u8>)
        requires
            self@.wf(),
            spec_walk_wf(self@.code, self@.constants.len(), 0),
            constant_texts@.len() == self@.constants.len(),
        ensures
            out@ == spec_header(self@.name) + spec_disasm_from(
                self@,
                texts_view(constant_texts),
                0,
            ),
    {
        let mut out: Vec<u8> = Vec::new();
        out.push(61u8);
        out.push(61u8);
        out.push(32u8);
        append_byte_slice(&mut out, self.name.as_bytes());
        out.push(32u8);
        out.push(61u8);
        out.push(61u8);
        out.push(10u8);
        assert(out@ =~= spec_header(self@.name));

        let ghost texts = texts_view(constant_texts);
        let ghost total = spec_header(self@.name) + spec_disasm_from(self@, texts, 0);
        let mut offset: usize = 0;
        while offset < self.code.len()
            invariant
                self@.wf(),
                constant_texts@.len() == self@.constants.len(),
                texts == texts_view(constant_texts),
                total == spec_header(self@.name) + spec_disasm_from(self@, texts, 0),
                offset <= self@.code.len(),
                spec_walk_wf(self@.code, self@.constants.len(), offset as int),
                out@ + spec_disasm_from(self@, texts, offset as int) == total,
            decreases self@.code.len() - offset,
        {
            let ghost rest = spec_disasm_from(self@, texts, offset as int);
            assert(rest == spec_instr_text(self@, offset as int, texts) + spec_disasm_from(
                self@,
                texts,
                spec_next_offset(self@.code, offset as int),
            ));
            let (next, mut line) = self.disassemble_instruction(offset, constant_texts);
            out.append(&mut line);
            assert(out@ + spec_disasm_from(self@, texts, next as int) =~= total);
            offset = next;
        }
        assert(out@ =~= out@ + spec_disasm_from(self@, texts, offset as int));
        out
    }
}

} // verus!
