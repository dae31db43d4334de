//! The instruction records the decompiler works on: an opcode, an optional
//! result id, an optional result-type id, and an ordered operand list. The
//! binary decoder that produces them is outside this crate; it hands the
//! opcodes the core dispatches on as named variants and every other opcode
//! as `Op::Other` carrying that opcode's name, so diagnostics can quote it.

use vstd::prelude::*;
use crate::text::append_dec;
use crate::text::spec_dec;

verus! {

/// The numeric value the source IR gives the function-local storage class,
/// the only storage class a local-variable declaration may carry.
pub const STORAGE_CLASS_FUNCTION: u32 = 7;

/// An opcode. The named variants are the ones the core gives structure or
/// rendering to; every other opcode arrives as `Other` with its name.
pub enum Op {
    Name,
    MemberName,
    TypeStruct,
    TypeInt,
    TypeRuntimeArray,
    TypePointer,
    Constant,
    Function,
    FunctionParameter,
    FunctionEnd,
    Label,
    Variable,
    Load,
    Store,
    AccessChain,
    IAdd,
    Other(String),
}

/// One operand of an instruction.
pub enum Operand {
    /// A reference to the id another instruction defines.
    IdRef(u32),
    /// A 32-bit literal word.
    LiteralBit32(u32),
    /// A literal string.
    LiteralString(String),
    /// A storage-class value.
    StorageClass(u32),
    /// Any other operand shape, carried as its textual form.
    Other(String),
}

/// One instruction record of the flat stream.
pub struct Instruction {
    pub opcode: Op,
    pub result_id: Option<u32>,
    pub result_type: Option<u32>,
    pub operands: Vec<Operand>,
}

/// The closed set of fatal-error kinds. Unrecognized opcodes are not here:
/// they degrade to visible placeholders instead.
#[derive(Clone, Copy, Debug, PartialEq, Eq, Structural)]
pub enum Error {
    /// An id had to be dereferenced through the instruction index but has
    /// no entry there.
    MissingId(u32),
    /// A type or constant had a shape no rendering is defined for.
    TypeMismatch,
    /// A local-variable declaration carried a storage class other than the
    /// function-local one.
    UnexpectedStorageClass,
    /// The stream broke a structural rule: a function ended with none open,
    /// a function opened inside another, an instruction arrived before any
    /// block, or a record lacked a required id or operand.
    StructuralViolation,
}

/// The name of an opcode, as diagnostics quote it.
pub open spec fn spec_op_name(op: Op) -> Seq<char> {
    match op {
        Op::Name => "Name"@,
        Op::MemberName => "MemberName"@,
        Op::TypeStruct => "TypeStruct"@,
        Op::TypeInt => "TypeInt"@,
        Op::TypeRuntimeArray => "TypeRuntimeArray"@,
        Op::TypePointer => "TypePointer"@,
        Op::Constant => "Constant"@,
        Op::Function => "Function"@,
        Op::FunctionParameter => "FunctionParameter"@,
        Op::FunctionEnd => "FunctionEnd"@,
        Op::Label => "Label"@,
        Op::Variable => "Variable"@,
        Op::Load => "Load"@,
        Op::Store => "Store"@,
        Op::AccessChain => "AccessChain"@,
        Op::IAdd => "IAdd"@,
        Op::Other(s) => s@,
    }
}

/// Renders an opcode's name.
pub fn op_name(op: &Op) -> (r: String)
    ensures
        r@ == spec_op_name(*op),
{
    match op {
        Op::Name => String::from_str("Name"),
        Op::MemberName => String::from_str("MemberName"),
        Op::TypeStruct => String::from_str("TypeStruct"),
        Op::TypeInt => String::from_str("TypeInt"),
        Op::TypeRuntimeArray => String::from_str("TypeRuntimeArray"),
        Op::TypePointer => String::from_str("TypePointer"),
        Op::Constant => String::from_str("Constant"),
        Op::Function => String::from_str("Function"),
        Op::FunctionParameter => String::from_str("FunctionParameter"),
        Op::FunctionEnd => String::from_str("FunctionEnd"),
        Op::Label => String::from_str("Label"),
        Op::Variable => String::from_str("Variable"),
        Op::Load => String::from_str("Load"),
        Op::Store => String::from_str("Store"),
        Op::AccessChain => String::from_str("AccessChain"),
        Op::IAdd => String::from_str("IAdd"),
        Op::Other(s) => s.clone(),
    }
}

/// The textual form of an operand, as operand placeholders quote it.
pub open spec fn spec_operand_text(op: Operand) -> Seq<char> {
    match op {
        Operand::IdRef(id) => "IdRef("@ + spec_dec(id as int) + ")"@,
        Operand::LiteralBit32(v) => "LiteralBit32("@ + spec_dec(v as int) + ")"@,
        Operand::LiteralString(s) => "LiteralString("@ + s@ + ")"@,
        Operand::StorageClass(c) => "StorageClass("@ + spec_dec(c as int) + ")"@,
        Operand::Other(t) => t@,
    }
}

/// Renders an operand's textual form.
pub fn operand_text(op: &Operand) -> (r: String)
    ensures
        r@ == spec_operand_text(*op),
{
    match op {
        Operand::IdRef(id) => {
            let mut s = String::from_str("IdRef(");
            append_dec(&mut s, *id);
            s.append(")");
            proof {
                assert(s@ =~= spec_operand_text(*op));
            }
            s
        },
        Operand::LiteralBit32(v) => {
            let mut s = String::from_str("LiteralBit32(");
            append_dec(&mut s, *v);
            s.append(")");
            proof {
                assert(s@ =~= spec_operand_text(*op));
            }
            s
        },
        Operand::LiteralString(t) => {
            let mut s = String::from_str("LiteralString(");
            s.append(t.as_str());
            s.append(")");
            proof {
                assert(s@ =~= spec_operand_text(*op));
            }
            s
        },
        Operand::StorageClass(c) => {
            let mut s = String::from_str("StorageClass(");
            append_dec(&mut s, *c);
            s.append(")");
            proof {
                assert(s@ =~= spec_operand_text(*op));
            }
            s
        },
        Operand::Other(t) => t.clone(),
    }
}

} // verus!
