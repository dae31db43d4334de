use spvdec::ctx::Ctx;
use spvdec::ir::Error;
use spvdec::ir::Instruction;
use spvdec::ir::Op;
use spvdec::ir::Operand;

fn inst(
    opcode: Op,
    result_id: Option<u32>,
    result_type: Option<u32>,
    operands: Vec<Operand>,
) -> Instruction {
    Instruction { opcode, result_id, result_type, operands }
}

fn id(x: u32) -> Operand {
    Operand::IdRef(x)
}

fn lit(x: u32) -> Operand {
    Operand::LiteralBit32(x)
}

fn s(x: &str) -> Operand {
    Operand::LiteralString(String::from(x))
}

fn sc(x: u32) -> Operand {
    Operand::StorageClass(x)
}

#[test]
fn function_end_without_open_function_is_fatal() {
    let mut ctx = Ctx::default();
    let r = ctx.consume_instruction(inst(Op::FunctionEnd, None, None, vec![]));
    assert_eq!(r, Err(Error::StructuralViolation));
    assert_eq!(ctx.funcs.len(), 0);
}

#[test]
fn one_function_per_start_end_pair() {
    let mut ctx = Ctx::default();
    let stream = vec![
        inst(Op::Function, Some(1), None, vec![]),
        inst(Op::Label, Some(2), None, vec![]),
        inst(Op::FunctionEnd, None, None, vec![]),
        inst(Op::Function, Some(3), None, vec![]),
        inst(Op::Label, Some(4), None, vec![]),
        inst(Op::FunctionEnd, None, None, vec![]),
    ];
    for i in stream {
        ctx.consume_instruction(i).unwrap();
    }
    assert_eq!(ctx.funcs.len(), 2);
    assert_eq!(ctx.funcs[0].result_id, 1);
    assert_eq!(ctx.funcs[1].result_id, 3);
}

#[test]
fn instruction_before_any_block_is_fatal() {
    let mut ctx = Ctx::default();
    ctx.consume_instruction(inst(Op::Function, Some(1), None, vec![])).unwrap();
    let r = ctx.consume_instruction(inst(Op::Store, None, None, vec![id(2), id(3)]));
    assert_eq!(r, Err(Error::StructuralViolation));
    // The failure leaves the context untouched: the function is still
    // open and a label can still arrive.
    ctx.consume_instruction(inst(Op::Label, Some(2), None, vec![])).unwrap();
    ctx.consume_instruction(inst(Op::FunctionEnd, None, None, vec![])).unwrap();
    assert_eq!(ctx.funcs.len(), 1);
}

#[test]
fn nested_function_start_is_fatal() {
    let mut ctx = Ctx::default();
    ctx.consume_instruction(inst(Op::Function, Some(1), None, vec![])).unwrap();
    let r = ctx.consume_instruction(inst(Op::Function, Some(2), None, vec![]));
    assert_eq!(r, Err(Error::StructuralViolation));
}

#[test]
fn function_parameter_is_dropped() {
    let mut ctx = Ctx::default();
    let stream = vec![
        inst(Op::Function, Some(1), None, vec![]),
        inst(Op::FunctionParameter, Some(9), None, vec![]),
        inst(Op::Label, Some(2), None, vec![]),
        inst(Op::FunctionEnd, None, None, vec![]),
    ];
    for i in stream {
        ctx.consume_instruction(i).unwrap();
    }
    let out = ctx.function_rs(&ctx.funcs[0]).unwrap();
    assert_eq!(out, "function id_1:\n// block 2\n");
}

#[test]
fn unexpected_storage_class_is_fatal() {
    let mut ctx = Ctx::default();
    let stream = vec![
        inst(Op::TypeInt, Some(1), None, vec![lit(32), lit(0)]),
        inst(Op::TypePointer, Some(2), None, vec![sc(0), id(1)]),
        inst(Op::Function, Some(5), None, vec![]),
        inst(Op::Label, Some(6), None, vec![]),
        inst(Op::Variable, Some(3), Some(2), vec![sc(0)]),
        inst(Op::FunctionEnd, None, None, vec![]),
    ];
    for i in stream {
        ctx.consume_instruction(i).unwrap();
    }
    assert_eq!(
        ctx.function_rs(&ctx.funcs[0]),
        Err(Error::UnexpectedStorageClass)
    );
}

#[test]
fn variable_type_must_be_pointer() {
    let mut ctx = Ctx::default();
    let stream = vec![
        inst(Op::TypeInt, Some(1), None, vec![lit(32), lit(0)]),
        inst(Op::Function, Some(5), None, vec![]),
        inst(Op::Label, Some(6), None, vec![]),
        // The variable's result type resolves to an integer type, not a
        // pointer type, so dereferencing it must fail.
        inst(Op::Variable, Some(3), Some(1), vec![sc(7)]),
        inst(Op::FunctionEnd, None, None, vec![]),
    ];
    for i in stream {
        ctx.consume_instruction(i).unwrap();
    }
    assert_eq!(ctx.function_rs(&ctx.funcs[0]), Err(Error::TypeMismatch));
}

#[test]
fn store_target_must_exist() {
    let mut ctx = Ctx::default();
    let stream = vec![
        inst(Op::Function, Some(5), None, vec![]),
        inst(Op::Label, Some(6), None, vec![]),
        inst(Op::Store, None, None, vec![id(99), id(98)]),
        inst(Op::FunctionEnd, None, None, vec![]),
    ];
    for i in stream {
        ctx.consume_instruction(i).unwrap();
    }
    assert_eq!(ctx.function_rs(&ctx.funcs[0]), Err(Error::MissingId(99)));
}

#[test]
fn struct_declaration_dumps_named_members() {
    let mut ctx = Ctx::default();
    ctx.consume_instruction(inst(Op::Name, None, None, vec![id(10), s("Pair")])).unwrap();
    ctx.consume_instruction(inst(Op::MemberName, None, None, vec![id(10), lit(0), s("a")]))
        .unwrap();
    ctx.consume_instruction(inst(Op::MemberName, None, None, vec![id(10), lit(1), s("b")]))
        .unwrap();
    ctx.consume_instruction(inst(Op::TypeInt, Some(1), None, vec![lit(32), lit(1)])).unwrap();
    ctx.consume_instruction(inst(Op::TypeInt, Some(2), None, vec![lit(8), lit(0)])).unwrap();
    let dump = ctx
        .consume_instruction(inst(Op::TypeStruct, Some(10), None, vec![id(1), id(2)]))
        .unwrap();
    assert_eq!(
        dump,
        Some(String::from("struct Pair {\n    a: i32,\n    b: u8,\n}\n"))
    );
}

#[test]
fn struct_dump_skips_unnamed_members() {
    let mut ctx = Ctx::default();
    ctx.consume_instruction(inst(Op::MemberName, None, None, vec![id(10), lit(1), s("second")]))
        .unwrap();
    ctx.consume_instruction(inst(Op::TypeInt, Some(1), None, vec![lit(32), lit(0)])).unwrap();
    let dump = ctx
        .consume_instruction(inst(Op::TypeStruct, Some(10), None, vec![id(1), id(1)]))
        .unwrap();
    assert_eq!(
        dump,
        Some(String::from("struct id_10 {\n    second: u32,\n}\n"))
    );
}

#[test]
fn struct_dump_with_unresolvable_member_type_is_fatal() {
    let mut ctx = Ctx::default();
    ctx.consume_instruction(inst(Op::MemberName, None, None, vec![id(10), lit(0), s("a")]))
        .unwrap();
    let r = ctx.consume_instruction(inst(Op::TypeStruct, Some(10), None, vec![id(77)]));
    assert_eq!(r, Err(Error::MissingId(77)));
}

#[test]
fn label_needs_result_id() {
    let mut ctx = Ctx::default();
    ctx.consume_instruction(inst(Op::Function, Some(1), None, vec![])).unwrap();
    let r = ctx.consume_instruction(inst(Op::Label, None, None, vec![]));
    assert_eq!(r, Err(Error::StructuralViolation));
}

#[test]
fn name_with_unexpected_operand_shapes_is_ignored() {
    let mut ctx = Ctx::default();
    ctx.consume_instruction(inst(Op::Name, None, None, vec![lit(4), s("nope")])).unwrap();
    assert_eq!(ctx.name(4), "id_4");
}

#[test]
fn name_with_too_few_operands_is_fatal() {
    let mut ctx = Ctx::default();
    let r = ctx.consume_instruction(inst(Op::Name, None, None, vec![id(4)]));
    assert_eq!(r, Err(Error::StructuralViolation));
}

#[test]
fn struct_declaration_inside_function_is_plain_statement() {
    let mut ctx = Ctx::default();
    let stream = vec![
        inst(Op::Function, Some(1), None, vec![]),
        inst(Op::Label, Some(2), None, vec![]),
        inst(Op::TypeStruct, Some(3), None, vec![]),
        inst(Op::FunctionEnd, None, None, vec![]),
    ];
    for i in stream {
        assert!(ctx.consume_instruction(i).unwrap().is_none());
    }
    let out = ctx.function_rs(&ctx.funcs[0]).unwrap();
    assert_eq!(out, "function id_1:\n// block 2\n// unhandled inst TypeStruct\n");
}

#[test]
fn module_scope_instructions_are_indexed_for_later_use() {
    let mut ctx = Ctx::default();
    // An instruction of an opcode the builder gives no structure to is
    // still indexed, so later renderings can dereference its id.
    ctx.consume_instruction(inst(
        Op::Other(String::from("ExtInstImport")),
        Some(40),
        None,
        vec![],
    ))
    .unwrap();
    assert_eq!(ctx.rvalue_rs(&id(40)).unwrap(), "[unhandled ExtInstImport]");
}
