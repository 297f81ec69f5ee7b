//! The virtual machine: a fetch-decode-execute loop over one chunk.

use vstd::prelude::*;

use crate::chunk::{Chunk, OpCode, Value};

verus! {

/// How an interpretation session concluded. `CompileError` is reserved for a
/// producer-side validation step and is never produced by this core.
#[derive(Clone, Copy, Debug, PartialEq, Eq, Structural)]
pub enum InterpretResult {
    Success,
    CompileError,
    RuntimeError,
}

/// What a session started at `ip` with a given stack comes to: its terminal
/// result, the stack it leaves behind, and the offsets of the instructions it
/// decoded, in execution order.
pub ghost struct RunOutcome {
    pub result: InterpretResult,
    pub stack: Seq<Value>,
    pub trace: Seq<usize>,
}

/// The meaning of a session over `code` and `constants`, from instruction
/// pointer `ip` with operand stack `stack`:
///
/// - fetching past the end of the code is an internal-bounds fault and ends
///   the session with `RuntimeError`;
/// - a byte that decodes to no instruction ends the session with
///   `RuntimeError`, with no stack change and no trace entry;
/// - `Return` ends the session with `Success`;
/// - `Constant` reads its operand byte (a missing operand or an out-of-range
///   pool index is a fault ending the session with `RuntimeError`), pushes
///   the indexed pool value, and the session continues at the next opcode.
///
/// A decoded instruction contributes its offset to the trace before it acts,
/// so the trace always reflects the instruction about to execute.
pub open spec fn spec_run(
    code: Seq<u8>,
    constants: Seq<Value>,
    ip: int,
    stack: Seq<Value>,
) -> RunOutcome
    decreases code.len() - ip,
{
    if ip < 0 || ip >= code.len() {
        RunOutcome { result: InterpretResult::RuntimeError, stack, trace: Seq::empty() }
    } else if code[ip] == OpCode::Return.spec_tag() {
        RunOutcome { result: InterpretResult::Success, stack, trace: seq![ip as usize] }
    } else if code[ip] == OpCode::Constant.spec_tag() {
        if ip + 1 >= code.len() {
            RunOutcome { result: InterpretResult::RuntimeError, stack, trace: seq![ip as usize] }
        } else if code[ip + 1] as int >= constants.len() {
            RunOutcome { result: InterpretResult::RuntimeError, stack, trace: seq![ip as usize] }
        } else {
            let rest = spec_run(code, constants, ip + 2, stack.push(constants[code[ip + 1] as int]));
            RunOutcome {
                result: rest.result,
                stack: rest.stack,
                trace: seq![ip as usize] + rest.trace,
            }
        }
    } else {
        RunOutcome { result: InterpretResult::RuntimeError, stack, trace: Seq::empty() }
    }
}

/// `CompileError` is reserved for a producer-side validation step: no
/// interpretation session, wherever it starts and whatever it runs over,
/// concludes with it.
pub proof fn lemma_no_compile_error(
    code: Seq<u8>,
    constants: Seq<Value>,
    ip: int,
    stack: Seq<Value>,
)
    ensures
        spec_run(code, constants, ip, stack).result != InterpretResult::CompileError,
    decreases code.len() - ip,
{
    if 0 <= ip < code.len() && code[ip] == OpCode::Constant.spec_tag() && ip + 1 < code.len() && (
    code[ip + 1] as int) < constants.len() {
        lemma_no_compile_error(code, constants, ip + 2, stack.push(constants[code[ip + 1] as int]));
    }
}

/// A virtual machine: one chunk, an instruction pointer into its code, an
/// operand stack, and a flag that records each decoded instruction's offset
/// for tracing. A session runs once; the machine is not re-entered after it
/// concludes.
pub struct Vm {
    pub chunk: Chunk,
    pub ip: usize,
    pub stack: Vec<Value>,
    pub debug: bool,
    pub trace: Vec<usize>,
}

impl Vm {
    /// A fresh machine over `chunk`: instruction pointer at 0, empty stack,
    /// empty trace. With `debug` set, a session records the offset of each
    /// instruction it decodes, for a caller to render via the disassembler.
    pub fn new(chunk: Chunk, debug: bool) -> (vm: Vm)
        ensures
            vm.chunk == chunk,
            vm.ip == 0,
            vm.stack@ == Seq::<Value>::empty(),
            vm.debug == debug,
            vm.trace@ == Seq::<usize>::empty(),
    {
        Vm { chunk, ip: 0, stack: Vec::new(), debug, trace: Vec::new() }
    }

    /// Run one interpretation session to its terminal outcome, exactly as
    /// [`spec_run`] states it: the returned result and the final stack are
    /// the ones `spec_run` gives for the starting pointer and stack, the
    /// chunk is only read, the instruction pointer never moves backwards,
    /// and with `debug` set the decoded offsets are appended to the trace.
    #[verifier::loop_isolation(false)]
    pub fn interpret(&mut self) -> (r: InterpretResult)
        ensures
            ({
                let o = spec_run(
                    old(self).chunk@.code,
                    old(self).chunk@.constants,
                    old(self).ip as int,
                    old(self).stack@,
                );
                &&& r == o.result
                &&& final(self).stack@ == o.stack
                &&& final(self).chunk == old(self).chunk
                &&& final(self).debug == old(self).debug
                &&& final(self).ip >= old(self).ip
                &&& final(self).trace@ == (if old(self).debug {
                    old(self).trace@ + o.trace
                } else {
                    old(self).trace@
                })
            }),
    {
        let ghost code = self.chunk@.code;
        let ghost constants = self.chunk@.constants;
        let ghost goal = spec_run(code, constants, self.ip as int, self.stack@);
        let ghost pre = *self;
        while self.ip < self.chunk.code.len()
            invariant
                self.chunk == pre.chunk,
                self.debug == pre.debug,
                self.ip >= pre.ip,
                code == self.chunk@.code,
                constants == self.chunk@.constants,
                goal == spec_run(code, constants, pre.ip as int, pre.stack@),
                spec_run(code, constants, self.ip as int, self.stack@).result == goal.result,
                spec_run(code, constants, self.ip as int, self.stack@).stack == goal.stack,
                pre.debug ==> self.trace@ + spec_run(
                    code,
                    constants,
                    self.ip as int,
                    self.stack@,
                ).trace == pre.trace@ + goal.trace,
                !pre.debug ==> self.trace@ == pre.trace@,
            decreases self.chunk@.code.len() - self.ip,
        {
            let ghost here = spec_run(code, constants, self.ip as int, self.stack@);
            let instr_offset = self.ip;
            let byte = self.read_byte();
            match OpCode::try_from(&byte) {
                Err(_) => {
                    proof {
                        assert(here.trace =~= Seq::<usize>::empty());
                        if pre.debug {
                            assert(self.trace@ =~= pre.trace@ + goal.trace);
                        }
                    }
                    return InterpretResult::RuntimeError;
                },
                Ok(op) => {
                    if self.debug {
                        self.trace.push(instr_offset);
                        assert(self.trace@ + here.trace.drop_first() =~= pre.trace@ + goal.trace);
                    }
                    match op {
                        OpCode::Return => {
                            proof {
                                assert(here.trace =~= seq![instr_offset]);
                                if pre.debug {
                                    assert(self.trace@ =~= pre.trace@ + goal.trace);
                                }
                            }
                            return InterpretResult::Success;
                        },
                        OpCode::Constant => {
                            if self.ip >= self.chunk.code.len() {
                                // the operand byte is missing: an
                                // internal-bounds fault
                                proof {
                                    assert(here.trace =~= seq![instr_offset]);
                                    if pre.debug {
                                        assert(self.trace@ =~= pre.trace@ + goal.trace);
                                    }
                                }
                                return InterpretResult::RuntimeError;
                            }
                            let index = *self.chunk.read_code(self.ip);
                            if (index as usize) >= self.chunk.constants.len() {
                                // the operand indexes outside the pool: a
                                // runtime fault, not undefined behavior
                                proof {
                                    assert(here.trace =~= seq![instr_offset]);
                                    if pre.debug {
                                        assert(self.trace@ =~= pre.trace@ + goal.trace);
                                    }
                                }
                                return InterpretResult::RuntimeError;
                            }
                            let value = self.read_constant();
                            self.push(value);
                            proof {
                                if pre.debug {
                                    assert(self.trace@ + spec_run(
                                        code,
                                        constants,
                                        self.ip as int,
                                        self.stack@,
                                    ).trace =~= pre.trace@ + goal.trace);
                                }
                            }
                        },
                    }
                },
            }
        }
        // fetching at or past the end of the code is an internal-bounds
        // fault: the session ends with a runtime error
        proof {
            let rest = spec_run(code, constants, self.ip as int, self.stack@);
            assert(rest.trace =~= Seq::<usize>::empty());
            if pre.debug {
                assert(self.trace@ =~= pre.trace@ + goal.trace);
            }
        }
        InterpretResult::RuntimeError
    }

    /// Fetch the byte at the instruction pointer and advance the pointer
    /// past it.
    fn read_byte(&mut self) -> (byte: u8)
        requires
            old(self).ip < old(self).chunk@.code.len(),
        ensures
            byte == old(self).chunk@.code[old(self).ip as int],
            final(self).ip == old(self).ip + 1,
            final(self).chunk == old(self).chunk,
            final(self).stack == old(self).stack,
            final(self).debug == old(self).debug,
            final(self).trace == old(self).trace,
    {
        let ip = self.advance_ip();
        let result = self.chunk.read_code(ip);
        *result
    }

    /// Fetch the operand byte at the instruction pointer, advance the
    /// pointer past it, and look the operand up in the constant pool.
    fn read_constant(&mut self) -> (value: Value)
        requires
            old(self).ip < old(self).chunk@.code.len(),
            (old(self).chunk@.code[old(self).ip as int] as int) < old(self).chunk@.constants.len(),
        ensures
            value == old(self).chunk@.constants[old(self).chunk@.code[old(self).ip as int] as int],
            final(self).ip == old(self).ip + 1,
            final(self).chunk == old(self).chunk,
            final(self).stack == old(self).stack,
            final(self).debug == old(self).debug,
            final(self).trace == old(self).trace,
    {
        let ip = self.advance_ip();
        let index = self.chunk.read_code(ip);
        let result = self.chunk.read_constant(*index as usize);
        *result
    }

    /// Hand out the current instruction pointer and move it one byte ahead.
    fn advance_ip(&mut self) -> (ip: usize)
        requires
            old(self).ip < old(self).chunk@.code.len(),
        ensures
            ip == old(self).ip,
            final(self).ip == old(self).ip + 1,
            final(self).chunk == old(self).chunk,
            final(self).stack == old(self).stack,
            final(self).debug == old(self).debug,
            final(self).trace == old(self).trace,
    {
        let result = self.ip;
        let code_len = self.chunk.code.len();
        self.ip = self.ip + 1;
        result
    }

    /// Push one value onto the operand stack.
    fn push(&mut self, value: Value)
        ensures
            final(self).stack@ == old(self).stack@.push(value),
            final(self).ip == old(self).ip,
            final(self).chunk == old(self).chunk,
            final(self).debug == old(self).debug,
            final(self).trace == old(self).trace,
    {
        self.stack.push(value);
    }
}

} // verus!

