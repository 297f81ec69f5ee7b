use vm::chunk::{Chunk, OpCode, Value};
use vm::vm::{InterpretResult, Vm};

fn val(x: f64) -> Value {
    Value { bits: x.to_bits() }
}

#[test]
fn vm() {
    let mut chunk = Chunk::new("test chunk");
    let constant = chunk.add_constant(val(1.2));
    chunk.write(OpCode::Constant.tag(), 1);
    chunk.write(constant as u8, 1);
    chunk.write(OpCode::Return.tag(), 1);

    let mut vm = Vm::new(chunk, true);
    let result = vm.interpret();
    assert_eq!(result, InterpretResult::Success);
    assert_eq!(vm.trace, vec![0, 2]);
}

#[test]
fn constant_pushes_value_and_session_succeeds() {
    let mut chunk = Chunk::new("push");
    chunk.add_constant(val(1.2));
    chunk.write(OpCode::Constant.tag(), 1);
    chunk.write(0, 1);
    chunk.write(OpCode::Return.tag(), 1);
    let mut vm = Vm::new(chunk, false);
    assert_eq!(vm.interpret(), InterpretResult::Success);
    assert_eq!(vm.stack, vec![val(1.2)]);
}

#[test]
fn bare_return_succeeds_with_empty_stack() {
    let mut chunk = Chunk::new("return");
    chunk.write(OpCode::Return.tag(), 1);
    let mut vm = Vm::new(chunk, false);
    assert_eq!(vm.interpret(), InterpretResult::Success);
    assert!(vm.stack.is_empty());
}

#[test]
fn unknown_opcode_fails_without_touching_the_stack() {
    let mut chunk = Chunk::new("bad tag");
    chunk.write(255, 1);
    let mut vm = Vm::new(chunk, false);
    assert_eq!(vm.interpret(), InterpretResult::RuntimeError);
    assert!(vm.stack.is_empty());
}

#[test]
fn execution_continues_past_constant_until_return() {
    let mut chunk = Chunk::new("two pushes");
    chunk.add_constant(val(3.0));
    chunk.add_constant(val(4.0));
    chunk.write(OpCode::Constant.tag(), 1);
    chunk.write(0, 1);
    chunk.write(OpCode::Constant.tag(), 2);
    chunk.write(1, 2);
    chunk.write(OpCode::Return.tag(), 3);
    let mut vm = Vm::new(chunk, true);
    assert_eq!(vm.interpret(), InterpretResult::Success);
    assert_eq!(vm.stack, vec![val(3.0), val(4.0)]);
    assert_eq!(vm.trace, vec![0, 2, 4]);
}

#[test]
fn missing_operand_is_a_runtime_error() {
    let mut chunk = Chunk::new("no operand");
    chunk.add_constant(val(1.0));
    chunk.write(OpCode::Constant.tag(), 1);
    let mut vm = Vm::new(chunk, false);
    assert_eq!(vm.interpret(), InterpretResult::RuntimeError);
    assert!(vm.stack.is_empty());
}

#[test]
fn out_of_range_constant_index_is_a_runtime_error() {
    let mut chunk = Chunk::new("dangling index");
    chunk.add_constant(val(1.0));
    chunk.write(OpCode::Constant.tag(), 1);
    chunk.write(9, 1);
    chunk.write(OpCode::Return.tag(), 1);
    let mut vm = Vm::new(chunk, false);
    assert_eq!(vm.interpret(), InterpretResult::RuntimeError);
    assert!(vm.stack.is_empty());
}

#[test]
fn running_off_the_end_is_a_runtime_error() {
    let chunk = Chunk::new("empty");
    let mut vm = Vm::new(chunk, false);
    assert_eq!(vm.interpret(), InterpretResult::RuntimeError);
}

#[test]
fn trace_stays_empty_without_debug() {
    let mut chunk = Chunk::new("quiet");
    chunk.write(OpCode::Return.tag(), 1);
    let mut vm = Vm::new(chunk, false);
    assert_eq!(vm.interpret(), InterpretResult::Success);
    assert!(vm.trace.is_empty());
}

#[test]
fn traced_offsets_render_through_the_disassembler() {
    let mut chunk = Chunk::new("traced");
    chunk.add_constant(val(1.2));
    chunk.write(OpCode::Constant.tag(), 1);
    chunk.write(0, 1);
    chunk.write(OpCode::Return.tag(), 1);
    let mut vm = Vm::new(chunk, true);
    assert_eq!(vm.interpret(), InterpretResult::Success);
    let texts = vec![format!("{}", 1.2f64).into_bytes()];
    let mut rendered = String::new();
    for offset in vm.trace.iter() {
        let (_, line) = vm.chunk.disassemble_instruction(*offset, &texts);
        rendered.push_str(&String::from_utf8(line).unwrap());
    }
    assert_eq!(
        rendered,
        "0000 0001 OP_CONSTANT      0 '1.2'\n0002    | OP_RETURN\n"
    );
}
