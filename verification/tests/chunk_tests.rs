use vm::chunk::{Chunk, OpCode, Value};

fn val(x: f64) -> Value {
    Value { bits: x.to_bits() }
}

#[test]
fn chunk() {
    let mut chunk = Chunk::new("test chunk");
    let constant = chunk.add_constant(val(1.2));
    chunk.write(OpCode::Constant.tag(), 123);
    chunk.write(constant as u8, 123);
    chunk.write(OpCode::Return.tag(), 123);
    let texts = vec![format!("{}", 1.2f64).into_bytes()];
    let out = chunk.disassemble(&texts);
    assert_eq!(
        String::from_utf8(out).unwrap(),
        "== test chunk ==\n0000 0123 OP_CONSTANT      0 '1.2'\n0002    | OP_RETURN\n"
    );
}

#[test]
fn decode_defined_tags() {
    assert_eq!(OpCode::try_from(&0), Ok(OpCode::Constant));
    assert_eq!(OpCode::try_from(&1), Ok(OpCode::Return));
    assert_eq!(OpCode::try_from(&2), Err("Unknown opcode"));
    assert_eq!(OpCode::try_from(&255), Err("Unknown opcode"));
}

#[test]
fn tags_are_contiguous_from_zero() {
    assert_eq!(OpCode::Constant.tag(), 0);
    assert_eq!(OpCode::Return.tag(), 1);
}

#[test]
fn write_keeps_code_and_lines_in_lockstep() {
    let mut chunk = Chunk::new("parity");
    assert_eq!(chunk.code.len(), chunk.lines.len());
    chunk.write(OpCode::Return.tag(), 7);
    assert_eq!(chunk.code.len(), chunk.lines.len());
    chunk.add_constant(val(3.5));
    assert_eq!(chunk.code.len(), chunk.lines.len());
    chunk.write(OpCode::Return.tag(), 8);
    assert_eq!(chunk.code.len(), 2);
    assert_eq!(chunk.lines.len(), 2);
}

#[test]
fn constant_pool_round_trip_is_bit_exact() {
    let mut chunk = Chunk::new("pool");
    let values = [1.2f64, 0.1 + 0.2, -0.0, f64::NAN, f64::INFINITY];
    for (i, x) in values.iter().enumerate() {
        let index = chunk.add_constant(val(*x));
        assert_eq!(index, i);
    }
    for (i, x) in values.iter().enumerate() {
        assert_eq!(chunk.read_constant(i).bits, x.to_bits());
    }
}

#[test]
fn read_code_returns_written_bytes() {
    let mut chunk = Chunk::new("bytes");
    chunk.write(5, 1);
    chunk.write(9, 1);
    assert_eq!(*chunk.read_code(0), 5);
    assert_eq!(*chunk.read_code(1), 9);
}

#[test]
fn init_takes_raw_code_with_empty_pool_and_lines() {
    let chunk = Chunk::init("raw", vec![1, 0, 1]);
    assert_eq!(chunk.code, vec![1, 0, 1]);
    assert!(chunk.constants.is_empty());
    assert!(chunk.lines.is_empty());
    // the line table does not cover the code, so a disassembly walk would
    // fault on the very first line lookup
    assert!(!chunk.disassembly_in_bounds());
}
