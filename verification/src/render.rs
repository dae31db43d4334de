//! Rendering a completed context as pseudo-source: recursive type and
//! constant resolution, operand/place resolution, per-instruction statement
//! lowering, and per-block / per-function output. Every renderer is a pure
//! read of the context, and its result is pinned to a spec function over
//! the context's model.
//!
//! Two error regimes meet here. Structurally required lookups (a type, a
//! constant's type, a pointer dereference, a store target) fail with a
//! typed [`Error`]; merely unrecognized opcodes and operand shapes degrade
//! to visible placeholders that quote the offending name, so the rest of
//! the output still renders.

use vstd::prelude::*;
use crate::ctx::BasicBlock;
use crate::ctx::BlockM;
use crate::ctx::Ctx;
use crate::ctx::CtxM;
use crate::ctx::FuncM;
use crate::ctx::Function;
use crate::ctx::inst_of;
use crate::ctx::member_lookup;
use crate::ctx::name_lookup;
use crate::ir::Error;
use crate::ir::Instruction;
use crate::ir::Op;
use crate::ir::Operand;
use crate::ir::STORAGE_CLASS_FUNCTION;
use crate::ir::op_name;
use crate::ir::operand_text;
use crate::ir::spec_op_name;
use crate::ir::spec_operand_text;
use crate::text::append_dec;
use crate::text::append_signed32;
use crate::text::spec_dec;
use crate::text::spec_dec_int;
use crate::text::spec_signed32;

verus! {

/// The view of a rendering result.
pub open spec fn res_view(r: Result<String, Error>) -> Result<Seq<char>, Error> {
    match r {
        Ok(s) => Ok(s@),
        Err(e) => Err(e),
    }
}

/// The view of an optional rendering result.
pub open spec fn opt_res_view(r: Result<Option<String>, Error>) -> Result<
    Option<Seq<char>>,
    Error,
> {
    match r {
        Ok(Some(s)) => Ok(Some(s@)),
        Ok(None) => Ok(None),
        Err(e) => Err(e),
    }
}

/// The declared name of `id`, or the placeholder name synthesized from its
/// numeric value when none was declared.
pub open spec fn spec_name(m: CtxM, id: u32) -> Seq<char> {
    match name_lookup(m.names, id) {
        Some(s) => s@,
        None => "id_"@ + spec_dec(id as int),
    }
}

/// The rendering of `id` when it denotes a place (a local-variable
/// declaration); `None` when it does not.
pub open spec fn spec_opt_rvalue(m: CtxM, id: u32) -> Option<Seq<char>> {
    match inst_of(m, id) {
        Some(i) => match (i.opcode, i.result_id) {
            (Op::Variable, Some(rid)) => Some(spec_name(m, rid)),
            _ => None,
        },
        None => None,
    }
}

/// The rendering of the constant with literal `operand` and type `ty`: the
/// literal with a signedness/width suffix for an integer type, an error
/// for every other shape.
pub open spec fn spec_constant(m: CtxM, ty: u32, operand: Operand) -> Result<Seq<char>, Error> {
    match inst_of(m, ty) {
        None => Err(Error::MissingId(ty)),
        Some(ti) => match (ti.opcode, operand) {
            (Op::TypeInt, Operand::LiteralBit32(v)) => if ti.operands@.len() < 2 {
                Err(Error::TypeMismatch)
            } else {
                match (ti.operands@[0], ti.operands@[1]) {
                    (Operand::LiteralBit32(w), Operand::LiteralBit32(sg)) => Ok(
                        if sg == 0 {
                            spec_dec(v as int) + "u"@ + spec_dec(w as int)
                        } else {
                            spec_dec_int(spec_signed32(v)) + "i"@ + spec_dec(w as int)
                        },
                    ),
                    _ => Err(Error::TypeMismatch),
                }
            },
            _ => Err(Error::TypeMismatch),
        },
    }
}

/// The rendering of an operand read for its value: a place's name, an
/// inlined constant, or the bare name an earlier statement is hoped to
/// have bound; a non-id operand degrades to a placeholder.
pub open spec fn spec_lvalue(m: CtxM, operand: Operand) -> Result<Seq<char>, Error> {
    match operand {
        Operand::IdRef(id) => match spec_opt_rvalue(m, id) {
            Some(t) => Ok(t),
            None => match inst_of(m, id) {
                Some(i) => match i.opcode {
                    Op::Constant => match i.result_type {
                        Some(ty) => if i.operands@.len() < 1 {
                            Err(Error::StructuralViolation)
                        } else {
                            spec_constant(m, ty, i.operands@[0])
                        },
                        None => Err(Error::StructuralViolation),
                    },
                    _ => Ok(spec_name(m, id)),
                },
                None => Ok(spec_name(m, id)),
            },
        },
        _ => Ok("[unhandled "@ + spec_operand_text(operand) + "]"@),
    }
}

/// The rendering of an assignment target: the target must exist in the
/// index, and an opcode with no defined rendering degrades to a
/// placeholder quoting it.
pub open spec fn spec_rvalue(m: CtxM, operand: Operand) -> Result<Seq<char>, Error> {
    match operand {
        Operand::IdRef(id) => match spec_opt_rvalue(m, id) {
            Some(t) => Ok(t),
            None => match inst_of(m, id) {
                Some(i) => Ok("[unhandled "@ + spec_op_name(i.opcode) + "]"@),
                None => Err(Error::MissingId(id)),
            },
        },
        _ => Ok("[unhandled "@ + spec_operand_text(operand) + "]"@),
    }
}

/// The rendering of the type `id` denotes, with a recursion budget: an
/// integer type by width and signedness, a runtime-sized array as a
/// pointer-to-mutable around its element type, any other type opcode as a
/// placeholder quoting it. A missing index entry is fatal.
pub open spec fn spec_type_fuel(m: CtxM, id: u32, fuel: nat) -> Result<Seq<char>, Error>
    decreases fuel,
{
    match inst_of(m, id) {
        None => Err(Error::MissingId(id)),
        Some(i) => if fuel == 0 {
            Err(Error::StructuralViolation)
        } else {
            match i.opcode {
                Op::TypeInt => if i.operands@.len() < 2 {
                    Err(Error::TypeMismatch)
                } else {
                    match (i.operands@[0], i.operands@[1]) {
                        (Operand::LiteralBit32(w), Operand::LiteralBit32(sg)) => Ok(
                            (if sg == 0 {
                                "u"@
                            } else {
                                "i"@
                            }) + spec_dec(w as int),
                        ),
                        _ => Err(Error::TypeMismatch),
                    }
                },
                Op::TypeRuntimeArray => if i.operands@.len() < 1 {
                    Err(Error::TypeMismatch)
                } else {
                    match i.operands@[0] {
                        Operand::IdRef(inner) => match spec_type_fuel(
                            m,
                            inner,
                            (fuel - 1) as nat,
                        ) {
                            Ok(t) => Ok("*mut "@ + t),
                            Err(e) => Err(e),
                        },
                        _ => Err(Error::TypeMismatch),
                    }
                },
                _ => Ok("[unhandled type "@ + spec_op_name(i.opcode) + "]"@),
            }
        },
    }
}

/// [`spec_type_fuel`] with a budget that covers any acyclic reference
/// chain the index can hold, so only a cyclic type chain exhausts it.
pub open spec fn spec_type(m: CtxM, id: u32) -> Result<Seq<char>, Error> {
    spec_type_fuel(m, id, m.inst_map.len())
}

/// The pointee type id of the pointer type `id` denotes.
pub open spec fn spec_deref_ptr(m: CtxM, id: u32) -> Result<u32, Error> {
    match inst_of(m, id) {
        None => Err(Error::MissingId(id)),
        Some(i) => match i.opcode {
            Op::TypePointer => if i.operands@.len() < 2 {
                Err(Error::TypeMismatch)
            } else {
                match i.operands@[1] {
                    Operand::IdRef(p) => Ok(p),
                    _ => Err(Error::TypeMismatch),
                }
            },
            _ => Err(Error::TypeMismatch),
        },
    }
}

/// The lowering of a two-operand operator instruction into a binding
/// statement.
pub open spec fn spec_binop(m: CtxM, inst: Instruction, op: Seq<char>) -> Result<Seq<char>, Error> {
    if inst.operands@.len() < 2 {
        Err(Error::StructuralViolation)
    } else {
        match spec_lvalue(m, inst.operands@[0]) {
            Err(e) => Err(e),
            Ok(a) => match spec_lvalue(m, inst.operands@[1]) {
                Err(e) => Err(e),
                Ok(b) => match inst.result_id {
                    None => Err(Error::StructuralViolation),
                    Some(rid) => Ok(
                        "bind "@ + spec_name(m, rid) + " = "@ + a + " "@ + op + " "@ + b + ";"@,
                    ),
                },
            },
        }
    }
}

/// The lowering of one instruction into at most one statement line;
/// unrecognized opcodes degrade to a comment quoting the opcode's name.
pub open spec fn spec_stmt(m: CtxM, inst: Instruction) -> Result<Option<Seq<char>>, Error> {
    match inst.opcode {
        Op::Load => if inst.operands@.len() < 1 {
            Err(Error::StructuralViolation)
        } else {
            match spec_lvalue(m, inst.operands@[0]) {
                Err(e) => Err(e),
                Ok(src) => match inst.result_id {
                    None => Err(Error::StructuralViolation),
                    Some(rid) => Ok(Some("bind "@ + spec_name(m, rid) + " = "@ + src + ";"@)),
                },
            }
        },
        Op::Store => if inst.operands@.len() < 2 {
            Err(Error::StructuralViolation)
        } else {
            match spec_lvalue(m, inst.operands@[1]) {
                Err(e) => Err(e),
                Ok(src) => match spec_rvalue(m, inst.operands@[0]) {
                    Err(e) => Err(e),
                    Ok(dst) => Ok(Some(dst + " = "@ + src + ";"@)),
                },
            }
        },
        Op::AccessChain => Ok(None),
        Op::IAdd => match spec_binop(m, inst, "+"@) {
            Err(e) => Err(e),
            Ok(t) => Ok(Some(t)),
        },
        Op::Variable => if inst.operands@.len() < 1 {
            Err(Error::StructuralViolation)
        } else {
            match inst.operands@[0] {
                Operand::StorageClass(c) => if c != STORAGE_CLASS_FUNCTION {
                    Err(Error::UnexpectedStorageClass)
                } else {
                    match inst.result_id {
                        None => Err(Error::StructuralViolation),
                        Some(rid) => match inst.result_type {
                            None => Err(Error::StructuralViolation),
                            Some(rt) => match spec_deref_ptr(m, rt) {
                                Err(e) => Err(e),
                                Ok(et) => match spec_type(m, et) {
                                    Err(e) => Err(e),
                                    Ok(t) => Ok(
                                        Some(
                                            "declare mutable "@ + spec_name(m, rid) + ": "@ + t
                                                + ";"@,
                                        ),
                                    ),
                                },
                            },
                        },
                    }
                },
                _ => Err(Error::UnexpectedStorageClass),
            }
        },
        _ => Ok(Some("// unhandled inst "@ + spec_op_name(inst.opcode))),
    }
}

/// The member lines of an aggregate-type declaration dump, over the first
/// `k` members: one line per member with a recorded name and an id-shaped
/// type operand, in member-index order.
pub open spec fn spec_struct_members(m: CtxM, sid: u32, ops: Seq<Operand>, k: int) -> Result<
    Seq<char>,
    Error,
>
    decreases k,
{
    if k <= 0 {
        Ok(Seq::empty())
    } else {
        match spec_struct_members(m, sid, ops, k - 1) {
            Err(e) => Err(e),
            Ok(pre) => match member_lookup(m.member_names, sid, (k - 1) as usize) {
                None => Ok(pre),
                Some(nm) => match ops[k - 1] {
                    Operand::IdRef(tid) => match spec_type(m, tid) {
                        Err(e) => Err(e),
                        Ok(t) => Ok(pre + "    "@ + nm@ + ": "@ + t + ",\n"@),
                    },
                    _ => Ok(pre),
                },
            },
        }
    }
}

/// The declaration dump an aggregate-type declaration produces as a side
/// effect of the module-scope pass.
pub open spec fn spec_struct_dump(m: CtxM, sid: u32, ops: Seq<Operand>) -> Result<
    Seq<char>,
    Error,
> {
    match spec_struct_members(m, sid, ops, ops.len() as int) {
        Err(e) => Err(e),
        Ok(body) => Ok("struct "@ + spec_name(m, sid) + " {\n"@ + body + "}\n"@),
    }
}

/// The statement lines of a block over its first `k` instructions, in
/// stream order.
pub open spec fn spec_block_stmts(m: CtxM, ixs: Seq<usize>, k: int) -> Result<Seq<char>, Error>
    decreases k,
{
    if k <= 0 {
        Ok(Seq::empty())
    } else {
        match spec_block_stmts(m, ixs, k - 1) {
            Err(e) => Err(e),
            Ok(pre) => {
                let ix = ixs[k - 1];
                if ix >= m.insts.len() {
                    Err(Error::StructuralViolation)
                } else {
                    match spec_stmt(m, m.insts[ix as int]) {
                        Err(e) => Err(e),
                        Ok(None) => Ok(pre),
                        Ok(Some(t)) => Ok(pre + t + "\n"@),
                    }
                }
            },
        }
    }
}

/// The rendering of one basic block: a header line naming it, then its
/// statement lines in stream order.
pub open spec fn spec_block(m: CtxM, b: BlockM) -> Result<Seq<char>, Error> {
    match spec_block_stmts(m, b.insts, b.insts.len() as int) {
        Err(e) => Err(e),
        Ok(body) => Ok("// block "@ + spec_dec(b.result_id as int) + "\n"@ + body),
    }
}

/// The renderings of the first `k` blocks of a function, concatenated in
/// declared order.
pub open spec fn spec_func_blocks(m: CtxM, blocks: Seq<BlockM>, k: int) -> Result<Seq<char>, Error>
    decreases k,
{
    if k <= 0 {
        Ok(Seq::empty())
    } else {
        match spec_func_blocks(m, blocks, k - 1) {
            Err(e) => Err(e),
            Ok(pre) => match spec_block(m, blocks[k - 1]) {
                Err(e) => Err(e),
                Ok(t) => Ok(pre + t),
            },
        }
    }
}

/// The rendering of one function: a header line naming it, then every
/// block in declared order.
pub open spec fn spec_function(m: CtxM, f: FuncM) -> Result<Seq<char>, Error> {
    match spec_func_blocks(m, f.blocks, f.blocks.len() as int) {
        Err(e) => Err(e),
        Ok(body) => Ok("function "@ + spec_name(m, f.result_id) + ":\n"@ + body),
    }
}

proof fn lemma_struct_members_err(m: CtxM, sid: u32, ops: Seq<Operand>, k: int, j: int)
    requires
        0 <= k <= j,
        spec_struct_members(m, sid, ops, k) is Err,
    ensures
        spec_struct_members(m, sid, ops, j) == spec_struct_members(m, sid, ops, k),
    decreases j - k,
{
    if j > k {
        lemma_struct_members_err(m, sid, ops, k, j - 1);
    }
}

proof fn lemma_block_stmts_err(m: CtxM, ixs: Seq<usize>, k: int, j: int)
    requires
        0 <= k <= j,
        spec_block_stmts(m, ixs, k) is Err,
    ensures
        spec_block_stmts(m, ixs, j) == spec_block_stmts(m, ixs, k),
    decreases j - k,
{
    if j > k {
        lemma_block_stmts_err(m, ixs, k, j - 1);
    }
}

proof fn lemma_func_blocks_err(m: CtxM, blocks: Seq<BlockM>, k: int, j: int)
    requires
        0 <= k <= j,
        spec_func_blocks(m, blocks, k) is Err,
    ensures
        spec_func_blocks(m, blocks, j) == spec_func_blocks(m, blocks, k),
    decreases j - k,
{
    if j > k {
        lemma_func_blocks_err(m, blocks, k, j - 1);
    }
}

impl Ctx {
    /// The declared name of `id`, or a placeholder synthesized from its
    /// numeric value.
    pub fn name(&self, id: u32) -> (r: String)
        ensures
            r@ == spec_name(self@, id),
    {
        match self.lookup_name(id) {
            Some(s) => s.clone(),
            None => {
                let mut t = String::from_str("id_");
                append_dec(&mut t, id);
                proof {
                    assert(t@ =~= spec_name(self@, id));
                }
                t
            },
        }
    }

    /// Renders `id` when it denotes a place (a local variable).
    pub fn opt_rvalue_rs(&self, id: u32) -> (r: Option<String>)
        ensures
            match r {
                Some(s) => spec_opt_rvalue(self@, id) == Some(s@),
                None => spec_opt_rvalue(self@, id) is None,
            },
    {
        match self.lookup_inst(id) {
            Some(i) => match (&i.opcode, i.result_id) {
                (Op::Variable, Some(rid)) => Some(self.name(rid)),
                _ => None,
            },
            None => None,
        }
    }

    /// Renders a constant of type `ty` with literal `operand`.
    pub fn constant(&self, ty: u32, operand: &Operand) -> (r: Result<String, Error>)
        ensures
            res_view(r) == spec_constant(self@, ty, *operand),
    {
        let ti = match self.lookup_inst(ty) {
            Some(i) => i,
            None => {
                return Err(Error::MissingId(ty));
            },
        };
        let v = match (&ti.opcode, operand) {
            (Op::TypeInt, Operand::LiteralBit32(v)) => *v,
            _ => {
                return Err(Error::TypeMismatch);
            },
        };
        if ti.operands.len() < 2 {
            return Err(Error::TypeMismatch);
        }
        let (w, sg) = match (&ti.operands[0], &ti.operands[1]) {
            (Operand::LiteralBit32(w), Operand::LiteralBit32(sg)) => (*w, *sg),
            _ => {
                return Err(Error::TypeMismatch);
            },
        };
        let mut s = String::new();
        if sg == 0 {
            append_dec(&mut s, v);
            s.append("u");
        } else {
            append_signed32(&mut s, v);
            s.append("i");
        }
        append_dec(&mut s, w);
        proof {
            if sg == 0 {
                assert(s@ =~= spec_dec(v as int) + "u"@ + spec_dec(w as int));
            } else {
                assert(s@ =~= spec_dec_int(spec_signed32(v)) + "i"@ + spec_dec(w as int));
            }
        }
        Ok(s)
    }

    /// Renders an operand read for its value.
    pub fn lvalue_rs(&self, operand: &Operand) -> (r: Result<String, Error>)
        ensures
            res_view(r) == spec_lvalue(self@, *operand),
    {
        match operand {
            Operand::IdRef(id) => {
                if let Some(t) = self.opt_rvalue_rs(*id) {
                    return Ok(t);
                }
                match self.lookup_inst(*id) {
                    Some(i) => match &i.opcode {
                        Op::Constant => {
                            let ty = match i.result_type {
                                Some(t) => t,
                                None => {
                                    return Err(Error::StructuralViolation);
                                },
                            };
                            if i.operands.len() < 1 {
                                return Err(Error::StructuralViolation);
                            }
                            self.constant(ty, &i.operands[0])
                        },
                        _ => Ok(self.name(*id)),
                    },
                    None => Ok(self.name(*id)),
                }
            },
            _ => {
                let mut s = String::from_str("[unhandled ");
                let t = operand_text(operand);
                s.append(t.as_str());
                s.append("]");
                proof {
                    assert(s@ =~= "[unhandled "@ + spec_operand_text(*operand) + "]"@);
                }
                Ok(s)
            },
        }
    }

    /// Renders an assignment target.
    pub fn rvalue_rs(&self, operand: &Operand) -> (r: Result<String, Error>)
        ensures
            res_view(r) == spec_rvalue(self@, *operand),
    {
        match operand {
            Operand::IdRef(id) => {
                if let Some(t) = self.opt_rvalue_rs(*id) {
                    return Ok(t);
                }
                match self.lookup_inst(*id) {
                    Some(i) => {
                        let mut s = String::from_str("[unhandled ");
                        let nm = op_name(&i.opcode);
                        s.append(nm.as_str());
                        s.append("]");
                        proof {
                            assert(s@ =~= "[unhandled "@ + spec_op_name(i.opcode) + "]"@);
                        }
                        Ok(s)
                    },
                    None => Err(Error::MissingId(*id)),
                }
            },
            _ => {
                let mut s = String::from_str("[unhandled ");
                let t = operand_text(operand);
                s.append(t.as_str());
                s.append("]");
                proof {
                    assert(s@ =~= "[unhandled "@ + spec_operand_text(*operand) + "]"@);
                }
                Ok(s)
            },
        }
    }

    fn type_rs_fuel(&self, id: u32, fuel: usize) -> (r: Result<String, Error>)
        ensures
            res_view(r) == spec_type_fuel(self@, id, fuel as nat),
        decreases fuel,
    {
        let i = match self.lookup_inst(id) {
            Some(i) => i,
            None => {
                return Err(Error::MissingId(id));
            },
        };
        if fuel == 0 {
            return Err(Error::StructuralViolation);
        }
        match &i.opcode {
            Op::TypeInt => {
                if i.operands.len() < 2 {
                    return Err(Error::TypeMismatch);
                }
                match (&i.operands[0], &i.operands[1]) {
                    (Operand::LiteralBit32(w), Operand::LiteralBit32(sg)) => {
                        let mut s = if *sg == 0 {
                            String::from_str("u")
                        } else {
                            String::from_str("i")
                        };
                        append_dec(&mut s, *w);
                        Ok(s)
                    },
                    _ => Err(Error::TypeMismatch),
                }
            },
            Op::TypeRuntimeArray => {
                if i.operands.len() < 1 {
                    return Err(Error::TypeMismatch);
                }
                match &i.operands[0] {
                    Operand::IdRef(inner) => match self.type_rs_fuel(*inner, fuel - 1) {
                        Ok(t) => {
                            let mut s = String::from_str("*mut ");
                            s.append(t.as_str());
                            proof {
                                assert(s@ =~= "*mut "@ + t@);
                            }
                            Ok(s)
                        },
                        Err(e) => Err(e),
                    },
                    _ => Err(Error::TypeMismatch),
                }
            },
            _ => {
                let mut s = String::from_str("[unhandled type ");
                let nm = op_name(&i.opcode);
                s.append(nm.as_str());
                s.append("]");
                proof {
                    assert(s@ =~= "[unhandled type "@ + spec_op_name(i.opcode) + "]"@);
                }
                Ok(s)
            },
        }
    }

    /// Recursively renders the type `id` denotes.
    pub fn type_rs(&self, id: u32) -> (r: Result<String, Error>)
        ensures
            res_view(r) == spec_type(self@, id),
    {
        let fuel = self.inst_map.len();
        self.type_rs_fuel(id, fuel)
    }

    /// Returns the pointee type id of the pointer type `id` denotes.
    pub fn deref_ptr(&self, id: u32) -> (r: Result<u32, Error>)
        ensures
            r == spec_deref_ptr(self@, id),
    {
        let i = match self.lookup_inst(id) {
            Some(i) => i,
            None => {
                return Err(Error::MissingId(id));
            },
        };
        if !matches!(&i.opcode, Op::TypePointer) {
            return Err(Error::TypeMismatch);
        }
        if i.operands.len() < 2 {
            return Err(Error::TypeMismatch);
        }
        match &i.operands[1] {
            Operand::IdRef(p) => Ok(*p),
            _ => Err(Error::TypeMismatch),
        }
    }

    /// Lowers a two-operand operator instruction into a binding statement.
    pub fn binop(&self, inst: &Instruction, op: &str) -> (r: Result<String, Error>)
        ensures
            res_view(r) == spec_binop(self@, *inst, op@),
    {
        if inst.operands.len() < 2 {
            return Err(Error::StructuralViolation);
        }
        let a = match self.lvalue_rs(&inst.operands[0]) {
            Ok(a) => a,
            Err(e) => {
                return Err(e);
            },
        };
        let b = match self.lvalue_rs(&inst.operands[1]) {
            Ok(b) => b,
            Err(e) => {
                return Err(e);
            },
        };
        let rid = match inst.result_id {
            Some(rid) => rid,
            None => {
                return Err(Error::StructuralViolation);
            },
        };
        let mut s = String::from_str("bind ");
        let nm = self.name(rid);
        s.append(nm.as_str());
        s.append(" = ");
        s.append(a.as_str());
        s.append(" ");
        s.append(op);
        s.append(" ");
        s.append(b.as_str());
        s.append(";");
        proof {
            assert(s@ =~= "bind "@ + spec_name(self@, rid) + " = "@ + a@ + " "@ + op@ + " "@ + b@
                + ";"@);
        }
        Ok(s)
    }

    /// Lowers one instruction into at most one statement line.
    pub fn stmt_rs(&self, inst: &Instruction) -> (r: Result<Option<String>, Error>)
        ensures
            opt_res_view(r) == spec_stmt(self@, *inst),
    {
        match &inst.opcode {
            Op::Load => {
                if inst.operands.len() < 1 {
                    return Err(Error::StructuralViolation);
                }
                let src = match self.lvalue_rs(&inst.operands[0]) {
                    Ok(t) => t,
                    Err(e) => {
                        return Err(e);
                    },
                };
                let rid = match inst.result_id {
                    Some(rid) => rid,
                    None => {
                        return Err(Error::StructuralViolation);
                    },
                };
                let mut s = String::from_str("bind ");
                let nm = self.name(rid);
                s.append(nm.as_str());
                s.append(" = ");
                s.append(src.as_str());
                s.append(";");
                proof {
                    assert(s@ =~= "bind "@ + spec_name(self@, rid) + " = "@ + src@ + ";"@);
                }
                Ok(Some(s))
            },
            Op::Store => {
                if inst.operands.len() < 2 {
                    return Err(Error::StructuralViolation);
                }
                let src = match self.lvalue_rs(&inst.operands[1]) {
                    Ok(t) => t,
                    Err(e) => {
                        return Err(e);
                    },
                };
                let dst = match self.rvalue_rs(&inst.operands[0]) {
                    Ok(t) => t,
                    Err(e) => {
                        return Err(e);
                    },
                };
                let mut s = dst;
                s.append(" = ");
                s.append(src.as_str());
                s.append(";");
                proof {
                    assert(s@ =~= spec_rvalue(self@, inst.operands@[0])->Ok_0 + " = "@ + src@
                        + ";"@);
                }
                Ok(Some(s))
            },
            Op::AccessChain => Ok(None),
            Op::IAdd => match self.binop(inst, "+") {
                Ok(t) => Ok(Some(t)),
                Err(e) => Err(e),
            },
            Op::Variable => {
                if inst.operands.len() < 1 {
                    return Err(Error::StructuralViolation);
                }
                let c = match &inst.operands[0] {
                    Operand::StorageClass(c) => *c,
                    _ => {
                        return Err(Error::UnexpectedStorageClass);
                    },
                };
                if c != STORAGE_CLASS_FUNCTION {
                    return Err(Error::UnexpectedStorageClass);
                }
                let rid = match inst.result_id {
                    Some(rid) => rid,
                    None => {
                        return Err(Error::StructuralViolation);
                    },
                };
                let rt = match inst.result_type {
                    Some(rt) => rt,
                    None => {
                        return Err(Error::StructuralViolation);
                    },
                };
                let et = match self.deref_ptr(rt) {
                    Ok(et) => et,
                    Err(e) => {
                        return Err(e);
                    },
                };
                let t = match self.type_rs(et) {
                    Ok(t) => t,
                    Err(e) => {
                        return Err(e);
                    },
                };
                let mut s = String::from_str("declare mutable ");
                let nm = self.name(rid);
                s.append(nm.as_str());
                s.append(": ");
                s.append(t.as_str());
                s.append(";");
                proof {
                    assert(s@ =~= "declare mutable "@ + spec_name(self@, rid) + ": "@ + t@ + ";"@);
                }
                Ok(Some(s))
            },
            _ => {
                let mut s = String::from_str("// unhandled inst ");
                let nm = op_name(&inst.opcode);
                s.append(nm.as_str());
                proof {
                    assert(s@ =~= "// unhandled inst "@ + spec_op_name(inst.opcode));
                }
                Ok(Some(s))
            },
        }
    }

    /// Renders the declaration dump of an aggregate-type declaration with
    /// result id `sid` and type-id operands `ops`.
    pub fn struct_dump(&self, sid: u32, ops: &Vec<Operand>) -> (r: Result<String, Error>)
        ensures
            res_view(r) == spec_struct_dump(self@, sid, ops@),
    {
        let mut body = String::new();
        let mut i: usize = 0;
        while i < ops.len()
            invariant
                i <= ops@.len(),
                spec_struct_members(self@, sid, ops@, i as int) == Ok::<Seq<char>, Error>(body@),
            decreases ops@.len() - i,
        {
            let ghost pre = body@;
            match self.lookup_member(sid, i) {
                None => {},
                Some(nm) => {
                    match &ops[i] {
                        Operand::IdRef(tid) => {
                            match self.type_rs(*tid) {
                                Err(e) => {
                                    proof {
                                        lemma_struct_members_err(
                                            self@,
                                            sid,
                                            ops@,
                                            i + 1,
                                            ops@.len() as int,
                                        );
                                    }
                                    return Err(e);
                                },
                                Ok(t) => {
                                    body.append("    ");
                                    body.append(nm.as_str());
                                    body.append(": ");
                                    body.append(t.as_str());
                                    body.append(",\n");
                                    proof {
                                        assert(body@ =~= pre + "    "@ + nm@ + ": "@ + t@
                                            + ",\n"@);
                                    }
                                },
                            }
                        },
                        _ => {},
                    }
                },
            }
            i = i + 1;
        }
        let mut s = String::from_str("struct ");
        let nm = self.name(sid);
        s.append(nm.as_str());
        s.append(" {\n");
        s.append(body.as_str());
        s.append("}\n");
        proof {
            assert(s@ =~= "struct "@ + spec_name(self@, sid) + " {\n"@ + body@ + "}\n"@);
        }
        Ok(s)
    }

    /// Renders one basic block: its header line, then its statements in
    /// stream order.
    pub fn basic_block_rs(&self, block: &BasicBlock) -> (r: Result<String, Error>)
        ensures
            res_view(r) == spec_block(self@, block@),
    {
        let mut buf = String::from_str("// block ");
        append_dec(&mut buf, block.result_id);
        buf.append("\n");
        let ghost header = "// block "@ + spec_dec(block.result_id as int) + "\n"@;
        proof {
            assert(buf@ =~= header);
        }
        let mut i: usize = 0;
        while i < block.insts.len()
            invariant
                i <= block@.insts.len(),
                block@.insts =~= block.insts@,
                spec_block_stmts(self@, block@.insts, i as int) matches Ok(body) && buf@ == header
                    + body,
            decreases block.insts@.len() - i,
        {
            let ghost pre = buf@;
            let ix = block.insts[i];
            if ix >= self.insts.len() {
                proof {
                    lemma_block_stmts_err(self@, block@.insts, i + 1, block@.insts.len() as int);
                }
                return Err(Error::StructuralViolation);
            }
            match self.stmt_rs(&self.insts[ix]) {
                Err(e) => {
                    proof {
                        lemma_block_stmts_err(self@, block@.insts, i + 1, block@.insts.len() as int);
                    }
                    return Err(e);
                },
                Ok(None) => {},
                Ok(Some(t)) => {
                    buf.append(t.as_str());
                    buf.append("\n");
                    proof {
                        assert(buf@ =~= pre + t@ + "\n"@);
                    }
                },
            }
            i = i + 1;
        }
        Ok(buf)
    }

    /// Renders one completed function: its header line, then every block
    /// in declared order.
    pub fn function_rs(&self, function: &Function) -> (r: Result<String, Error>)
        ensures
            res_view(r) == spec_function(self@, function@),
    {
        let mut buf = String::from_str("function ");
        let nm = self.name(function.result_id);
        buf.append(nm.as_str());
        buf.append(":\n");
        let ghost header = "function "@ + spec_name(self@, function.result_id) + ":\n"@;
        proof {
            assert(buf@ =~= header);
        }
        let mut i: usize = 0;
        while i < function.blocks.len()
            invariant
                i <= function@.blocks.len(),
                function@.blocks.len() == function.blocks@.len(),
                forall|j: int|
                    0 <= j < function.blocks@.len() ==> function@.blocks[j]
                        == #[trigger] function.blocks@[j]@,
                spec_func_blocks(self@, function@.blocks, i as int) matches Ok(body) && buf@
                    == header + body,
            decreases function.blocks@.len() - i,
        {
            let ghost pre = buf@;
            match self.basic_block_rs(&function.blocks[i]) {
                Err(e) => {
                    proof {
                        lemma_func_blocks_err(
                            self@,
                            function@.blocks,
                            i + 1,
                            function@.blocks.len() as int,
                        );
                    }
                    return Err(e);
                },
                Ok(t) => {
                    buf.append(t.as_str());
                    proof {
                        assert(buf@ =~= pre + t@);
                    }
                },
            }
            i = i + 1;
        }
        Ok(buf)
    }
}

} // verus!
