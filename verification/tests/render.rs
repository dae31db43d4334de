use spvdec::ctx::Ctx;
use spvdec::ir::Error;
use spvdec::ir::Instruction;
use spvdec::ir::Op;
use spvdec::ir::Operand;

fn inst(
    opcode: Op,
    result_id: Option<u32>,
    result_type: Option<u32>,
    operands: Vec<Operand>,
) -> Instruction {
    Instruction { opcode, result_id, result_type, operands }
}

fn id(x: u32) -> Operand {
    Operand::IdRef(x)
}

fn lit(x: u32) -> Operand {
    Operand::LiteralBit32(x)
}

fn s(x: &str) -> Operand {
    Operand::LiteralString(String::from(x))
}

fn sc(x: u32) -> Operand {
    Operand::StorageClass(x)
}

/// Builds the module of the counter-increment scenario: an unsigned
/// 32-bit integer type, a named local variable `counter`, a load, an add
/// with the constant 5, and a store back.
fn counter_module() -> Ctx {
    let mut ctx = Ctx::default();
    let stream = vec![
        inst(Op::Name, None, None, vec![id(3), s("counter")]),
        inst(Op::TypeInt, Some(1), None, vec![lit(32), lit(0)]),
        inst(Op::TypePointer, Some(2), None, vec![sc(7), id(1)]),
        inst(Op::Constant, Some(4), Some(1), vec![lit(5)]),
        inst(Op::Function, Some(5), None, vec![]),
        inst(Op::Label, Some(6), None, vec![]),
        inst(Op::Variable, Some(3), Some(2), vec![sc(7)]),
        inst(Op::Load, Some(7), Some(1), vec![id(3)]),
        inst(Op::IAdd, Some(8), Some(1), vec![id(7), id(4)]),
        inst(Op::Store, None, None, vec![id(3), id(8)]),
        inst(Op::FunctionEnd, None, None, vec![]),
    ];
    for i in stream {
        assert!(ctx.consume_instruction(i).unwrap().is_none());
    }
    ctx
}

#[test]
fn counter_scenario_renders_exactly() {
    let ctx = counter_module();
    assert_eq!(ctx.funcs.len(), 1);
    let out = ctx.function_rs(&ctx.funcs[0]).unwrap();
    assert_eq!(
        out,
        "function id_5:\n\
         // block 6\n\
         declare mutable counter: u32;\n\
         bind id_7 = counter;\n\
         bind id_8 = id_7 + 5u32;\n\
         counter = id_8;\n"
    );
}

#[test]
fn declare_store_load_round_trip_order() {
    let mut ctx = Ctx::default();
    let stream = vec![
        inst(Op::Name, None, None, vec![id(3), s("x")]),
        inst(Op::TypeInt, Some(1), None, vec![lit(32), lit(0)]),
        inst(Op::TypePointer, Some(2), None, vec![sc(7), id(1)]),
        inst(Op::Constant, Some(4), Some(1), vec![lit(9)]),
        inst(Op::Function, Some(5), None, vec![]),
        inst(Op::Label, Some(6), None, vec![]),
        inst(Op::Variable, Some(3), Some(2), vec![sc(7)]),
        inst(Op::Store, None, None, vec![id(3), id(4)]),
        inst(Op::Load, Some(7), Some(1), vec![id(3)]),
        inst(Op::FunctionEnd, None, None, vec![]),
    ];
    for i in stream {
        ctx.consume_instruction(i).unwrap();
    }
    let out = ctx.function_rs(&ctx.funcs[0]).unwrap();
    assert_eq!(
        out,
        "function id_5:\n\
         // block 6\n\
         declare mutable x: u32;\n\
         x = 9u32;\n\
         bind id_7 = x;\n"
    );
}

#[test]
fn rendering_twice_is_byte_identical() {
    let ctx = counter_module();
    let first = ctx.function_rs(&ctx.funcs[0]).unwrap();
    let second = ctx.function_rs(&ctx.funcs[0]).unwrap();
    assert_eq!(first.as_bytes(), second.as_bytes());
}

#[test]
fn unhandled_opcode_placeholder_quotes_name() {
    let mut ctx = Ctx::default();
    let stream = vec![
        inst(Op::Function, Some(1), None, vec![]),
        inst(Op::Label, Some(2), None, vec![]),
        inst(Op::Other(String::from("BitwiseXor")), Some(3), None, vec![]),
        inst(Op::FunctionEnd, None, None, vec![]),
    ];
    for i in stream {
        ctx.consume_instruction(i).unwrap();
    }
    let out = ctx.function_rs(&ctx.funcs[0]).unwrap();
    assert_eq!(out, "function id_1:\n// block 2\n// unhandled inst BitwiseXor\n");
}

#[test]
fn access_chain_emits_no_statement() {
    let mut ctx = Ctx::default();
    let stream = vec![
        inst(Op::Function, Some(1), None, vec![]),
        inst(Op::Label, Some(2), None, vec![]),
        inst(Op::AccessChain, Some(3), None, vec![id(9), lit(0)]),
        inst(Op::FunctionEnd, None, None, vec![]),
    ];
    for i in stream {
        ctx.consume_instruction(i).unwrap();
    }
    let out = ctx.function_rs(&ctx.funcs[0]).unwrap();
    assert_eq!(out, "function id_1:\n// block 2\n");
}

#[test]
fn blocks_render_in_label_order() {
    let mut ctx = Ctx::default();
    let stream = vec![
        inst(Op::Function, Some(1), None, vec![]),
        inst(Op::Label, Some(10), None, vec![]),
        inst(Op::Other(String::from("First")), None, None, vec![]),
        inst(Op::Label, Some(11), None, vec![]),
        inst(Op::Other(String::from("Second")), None, None, vec![]),
        inst(Op::FunctionEnd, None, None, vec![]),
    ];
    for i in stream {
        ctx.consume_instruction(i).unwrap();
    }
    let out = ctx.function_rs(&ctx.funcs[0]).unwrap();
    assert_eq!(
        out,
        "function id_1:\n\
         // block 10\n\
         // unhandled inst First\n\
         // block 11\n\
         // unhandled inst Second\n"
    );
}

#[test]
fn signed_and_unsigned_constants() {
    let mut ctx = Ctx::default();
    ctx.consume_instruction(inst(Op::TypeInt, Some(1), None, vec![lit(32), lit(0)])).unwrap();
    ctx.consume_instruction(inst(Op::TypeInt, Some(2), None, vec![lit(32), lit(1)])).unwrap();
    assert_eq!(ctx.constant(1, &lit(4294967295)).unwrap(), "4294967295u32");
    assert_eq!(ctx.constant(2, &lit(4294967295)).unwrap(), "-1i32");
    assert_eq!(ctx.constant(2, &lit(2147483648)).unwrap(), "-2147483648i32");
    assert_eq!(ctx.constant(2, &lit(7)).unwrap(), "7i32");
    assert_eq!(ctx.constant(1, &lit(0)).unwrap(), "0u32");
}

#[test]
fn constant_type_must_be_integer() {
    let mut ctx = Ctx::default();
    ctx.consume_instruction(inst(Op::TypeInt, Some(1), None, vec![lit(32), lit(0)])).unwrap();
    ctx.consume_instruction(inst(Op::TypePointer, Some(2), None, vec![sc(7), id(1)])).unwrap();
    assert_eq!(ctx.constant(2, &lit(5)), Err(Error::TypeMismatch));
    assert_eq!(ctx.constant(9, &lit(5)), Err(Error::MissingId(9)));
}

#[test]
fn type_rendering() {
    let mut ctx = Ctx::default();
    ctx.consume_instruction(inst(Op::TypeInt, Some(1), None, vec![lit(16), lit(0)])).unwrap();
    ctx.consume_instruction(inst(Op::TypeInt, Some(2), None, vec![lit(64), lit(1)])).unwrap();
    ctx.consume_instruction(inst(Op::TypeRuntimeArray, Some(3), None, vec![id(1)])).unwrap();
    ctx.consume_instruction(inst(Op::TypeRuntimeArray, Some(4), None, vec![id(3)])).unwrap();
    ctx.consume_instruction(inst(Op::TypePointer, Some(5), None, vec![sc(7), id(1)])).unwrap();
    assert_eq!(ctx.type_rs(1).unwrap(), "u16");
    assert_eq!(ctx.type_rs(2).unwrap(), "i64");
    assert_eq!(ctx.type_rs(3).unwrap(), "*mut u16");
    assert_eq!(ctx.type_rs(4).unwrap(), "*mut *mut u16");
    assert_eq!(ctx.type_rs(5).unwrap(), "[unhandled type TypePointer]");
    assert_eq!(ctx.type_rs(42), Err(Error::MissingId(42)));
}

#[test]
fn operand_placeholders() {
    let ctx = Ctx::default();
    assert_eq!(
        ctx.lvalue_rs(&s("hello")).unwrap(),
        "[unhandled LiteralString(hello)]"
    );
    assert_eq!(ctx.lvalue_rs(&lit(12)).unwrap(), "[unhandled LiteralBit32(12)]");
    assert_eq!(ctx.rvalue_rs(&sc(7)).unwrap(), "[unhandled StorageClass(7)]");
}

#[test]
fn lvalue_falls_back_to_bound_name() {
    let ctx = Ctx::default();
    assert_eq!(ctx.lvalue_rs(&id(99)).unwrap(), "id_99");
}

#[test]
fn rvalue_requires_indexed_target() {
    let ctx = Ctx::default();
    assert_eq!(ctx.rvalue_rs(&id(99)), Err(Error::MissingId(99)));
}

#[test]
fn name_lookup_last_write_wins() {
    let mut ctx = Ctx::default();
    ctx.consume_instruction(inst(Op::Name, None, None, vec![id(4), s("first")])).unwrap();
    ctx.consume_instruction(inst(Op::Name, None, None, vec![id(4), s("second")])).unwrap();
    assert_eq!(ctx.name(4), "second");
    assert_eq!(ctx.name(5), "id_5");
}
