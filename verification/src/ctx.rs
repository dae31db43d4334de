//! The decompilation context: the symbol tables, the arena of consumed
//! instructions with the id index over it, and the function/block structure
//! assembled from the stream. `consume_instruction` is the single-pass
//! module builder; the renderers in `render` read the completed context.

use vstd::prelude::*;
use crate::ir::Error;
use crate::ir::Instruction;
use crate::ir::Op;
use crate::ir::Operand;
use crate::render::spec_struct_dump;

verus! {

/// A basic block: its label id and, in stream order, the arena indices of
/// the instructions appended to it (the label instruction itself excluded).
pub struct BasicBlock {
    pub result_id: u32,
    pub insts: Vec<usize>,
}

/// A function under construction or completed: its result id and its basic
/// blocks in the order their labels appeared.
pub struct Function {
    pub result_id: u32,
    pub blocks: Vec<BasicBlock>,
}

/// The context. `insts` is an arena holding every consumed instruction in
/// stream order; `inst_map` maps each result id to the arena index of its
/// defining instruction; blocks refer to instructions by arena index.
pub struct Ctx {
    pub names: Vec<(u32, String)>,
    pub member_names: Vec<(u32, usize, String)>,
    pub insts: Vec<Instruction>,
    pub inst_map: Vec<(u32, usize)>,
    pub funcs: Vec<Function>,
    pub cur_func: Option<Function>,
}

/// The mathematical model of a basic block.
#[verifier::ext_equal]
pub struct BlockM {
    pub result_id: u32,
    pub insts: Seq<usize>,
}

/// The mathematical model of a function.
#[verifier::ext_equal]
pub struct FuncM {
    pub result_id: u32,
    pub blocks: Seq<BlockM>,
}

/// The mathematical model of the context.
#[verifier::ext_equal]
pub struct CtxM {
    pub names: Seq<(u32, String)>,
    pub member_names: Seq<(u32, usize, String)>,
    pub insts: Seq<Instruction>,
    pub inst_map: Seq<(u32, usize)>,
    pub funcs: Seq<FuncM>,
    pub cur: Option<FuncM>,
}

impl View for BasicBlock {
    type V = BlockM;

    open spec fn view(&self) -> BlockM {
        BlockM { result_id: self.result_id, insts: self.insts@ }
    }
}

impl View for Function {
    type V = FuncM;

    open spec fn view(&self) -> FuncM {
        FuncM {
            result_id: self.result_id,
            blocks: self.blocks@.map_values(|b: BasicBlock| b@),
        }
    }
}

impl View for Ctx {
    type V = CtxM;

    open spec fn view(&self) -> CtxM {
        CtxM {
            names: self.names@,
            member_names: self.member_names@,
            insts: self.insts@,
            inst_map: self.inst_map@,
            funcs: self.funcs@.map_values(|f: Function| f@),
            cur: match self.cur_func {
                Some(f) => Some(f@),
                None => None,
            },
        }
    }
}

/// The model of a freshly created context.
pub open spec fn empty_ctx() -> CtxM {
    CtxM {
        names: Seq::empty(),
        member_names: Seq::empty(),
        insts: Seq::empty(),
        inst_map: Seq::empty(),
        funcs: Seq::empty(),
        cur: None,
    }
}

impl Default for Ctx {
    /// A context with every table empty and no function open.
    fn default() -> (r: Ctx)
        ensures
            r@ == empty_ctx(),
    {
        let r = Ctx {
            names: Vec::new(),
            member_names: Vec::new(),
            insts: Vec::new(),
            inst_map: Vec::new(),
            funcs: Vec::new(),
            cur_func: None,
        };
        proof {
            assert(r@ =~= empty_ctx());
        }
        r
    }
}

/// The declared name recorded for `id`, the latest record winning.
pub open spec fn name_lookup(names: Seq<(u32, String)>, id: u32) -> Option<String>
    decreases names.len(),
{
    if names.len() == 0 {
        None
    } else if names.last().0 == id {
        Some(names.last().1)
    } else {
        name_lookup(names.drop_last(), id)
    }
}

/// The member name recorded for member `ix` of aggregate `id`, the latest
/// record winning.
pub open spec fn member_lookup(mns: Seq<(u32, usize, String)>, id: u32, ix: usize) -> Option<
    String,
>
    decreases mns.len(),
{
    if mns.len() == 0 {
        None
    } else if mns.last().0 == id && mns.last().1 == ix {
        Some(mns.last().2)
    } else {
        member_lookup(mns.drop_last(), id, ix)
    }
}

/// The arena index recorded for result id `id`, the latest record winning.
pub open spec fn map_lookup(im: Seq<(u32, usize)>, id: u32) -> Option<usize>
    decreases im.len(),
{
    if im.len() == 0 {
        None
    } else if im.last().0 == id {
        Some(im.last().1)
    } else {
        map_lookup(im.drop_last(), id)
    }
}

/// The instruction whose result id is `id`, if the index has one.
pub open spec fn inst_of(m: CtxM, id: u32) -> Option<Instruction> {
    match map_lookup(m.inst_map, id) {
        Some(ix) => if ix < m.insts.len() {
            Some(m.insts[ix as int])
        } else {
            None
        },
        None => None,
    }
}

/// The view of an optional output string.
pub open spec fn opt_view(o: Option<String>) -> Option<Seq<char>> {
    match o {
        Some(s) => Some(s@),
        None => None,
    }
}

/// One indexing step: the instruction enters the arena and, when it
/// carries a result id, the index maps that id to its arena slot. Every
/// consumed instruction passes through this exactly once.
pub open spec fn mindex(m: CtxM, inst: Instruction) -> CtxM {
    let m1 = CtxM { insts: m.insts.push(inst), ..m };
    match inst.result_id {
        Some(id) => CtxM { inst_map: m1.inst_map.push((id, m.insts.len() as usize)), ..m1 },
        None => m1,
    }
}

/// One step of the module builder: the full per-instruction dispatch.
/// Outside a function, name declarations fill the tables, an
/// aggregate-type declaration renders its dump, and a function-start
/// marker opens a function; inside one, labels open blocks and other
/// instructions append to the latest block. A function-end with no open
/// function, a function-start inside a function, an instruction before
/// any block, and a record missing a required id or operand are all
/// structural violations.
pub open spec fn mstep(m: CtxM, inst: Instruction) -> Result<(CtxM, Option<Seq<char>>), Error> {
    if inst.opcode is FunctionEnd {
        match m.cur {
            None => Err(Error::StructuralViolation),
            Some(f) => Ok((mindex(CtxM { funcs: m.funcs.push(f), cur: None, ..m }, inst), None)),
        }
    } else {
        match m.cur {
            Some(f) => match inst.opcode {
                Op::Label => match inst.result_id {
                    None => Err(Error::StructuralViolation),
                    Some(lid) => Ok(
                        (
                            mindex(
                                CtxM {
                                    cur: Some(
                                        FuncM {
                                            result_id: f.result_id,
                                            blocks: f.blocks.push(
                                                BlockM { result_id: lid, insts: Seq::empty() },
                                            ),
                                        },
                                    ),
                                    ..m
                                },
                                inst,
                            ),
                            None,
                        ),
                    ),
                },
                Op::FunctionParameter => Ok((mindex(m, inst), None)),
                Op::Function => Err(Error::StructuralViolation),
                _ => if f.blocks.len() == 0 {
                    Err(Error::StructuralViolation)
                } else {
                    let b = f.blocks.last();
                    Ok(
                        (
                            mindex(
                                CtxM {
                                    cur: Some(
                                        FuncM {
                                            result_id: f.result_id,
                                            blocks: f.blocks.drop_last().push(
                                                BlockM {
                                                    result_id: b.result_id,
                                                    insts: b.insts.push(m.insts.len() as usize),
                                                },
                                            ),
                                        },
                                    ),
                                    ..m
                                },
                                inst,
                            ),
                            None,
                        ),
                    )
                },
            },
            None => match inst.opcode {
                Op::Name => if inst.operands@.len() < 2 {
                    Err(Error::StructuralViolation)
                } else {
                    match (inst.operands@[0], inst.operands@[1]) {
                        (Operand::IdRef(id), Operand::LiteralString(s)) => Ok(
                            (mindex(CtxM { names: m.names.push((id, s)), ..m }, inst), None),
                        ),
                        _ => Ok((mindex(m, inst), None)),
                    }
                },
                Op::MemberName => if inst.operands@.len() < 3 {
                    Err(Error::StructuralViolation)
                } else {
                    match (inst.operands@[0], inst.operands@[1], inst.operands@[2]) {
                        (
                            Operand::IdRef(id),
                            Operand::LiteralBit32(mix),
                            Operand::LiteralString(s),
                        ) => Ok(
                            (
                                mindex(
                                    CtxM {
                                        member_names: m.member_names.push(
                                            (id, mix as usize, s),
                                        ),
                                        ..m
                                    },
                                    inst,
                                ),
                                None,
                            ),
                        ),
                        _ => Ok((mindex(m, inst), None)),
                    }
                },
                Op::TypeStruct => match inst.result_id {
                    None => Err(Error::StructuralViolation),
                    Some(sid) => match spec_struct_dump(m, sid, inst.operands@) {
                        Err(e) => Err(e),
                        Ok(t) => Ok((mindex(m, inst), Some(t))),
                    },
                },
                Op::Function => match inst.result_id {
                    None => Err(Error::StructuralViolation),
                    Some(fid) => Ok(
                        (
                            mindex(
                                CtxM {
                                    cur: Some(FuncM { result_id: fid, blocks: Seq::empty() }),
                                    ..m
                                },
                                inst,
                            ),
                            None,
                        ),
                    ),
                },
                _ => Ok((mindex(m, inst), None)),
            },
        }
    }
}

impl Ctx {
    /// Looks up the declared name of `id`.
    pub fn lookup_name(&self, id: u32) -> (r: Option<&String>)
        ensures
            match r {
                Some(s) => name_lookup(self@.names, id) == Some(*s),
                None => name_lookup(self@.names, id) is None,
            },
    {
        let n = self.names.len();
        let mut i: usize = n;
        proof {
            assert(self.names@.take(n as int) =~= self.names@);
        }
        while i > 0
            invariant
                i <= n,
                n == self.names@.len(),
                name_lookup(self.names@.take(i as int), id) == name_lookup(self.names@, id),
            decreases i,
        {
            if self.names[i - 1].0 == id {
                proof {
                    assert(self.names@.take(i as int).last() == self.names@[i - 1]);
                }
                return Some(&self.names[i - 1].1);
            }
            proof {
                assert(self.names@.take(i as int).drop_last() =~= self.names@.take(i - 1));
            }
            i = i - 1;
        }
        None
    }

    /// Looks up the declared name of member `ix` of aggregate `id`.
    pub fn lookup_member(&self, id: u32, ix: usize) -> (r: Option<&String>)
        ensures
            match r {
                Some(s) => member_lookup(self@.member_names, id, ix) == Some(*s),
                None => member_lookup(self@.member_names, id, ix) is None,
            },
    {
        let n = self.member_names.len();
        let mut i: usize = n;
        proof {
            assert(self.member_names@.take(n as int) =~= self.member_names@);
        }
        while i > 0
            invariant
                i <= n,
                n == self.member_names@.len(),
                member_lookup(self.member_names@.take(i as int), id, ix) == member_lookup(
                    self.member_names@,
                    id,
                    ix,
                ),
            decreases i,
        {
            if self.member_names[i - 1].0 == id && self.member_names[i - 1].1 == ix {
                proof {
                    assert(self.member_names@.take(i as int).last() == self.member_names@[i - 1]);
                }
                return Some(&self.member_names[i - 1].2);
            }
            proof {
                assert(self.member_names@.take(i as int).drop_last() =~= self.member_names@.take(
                    i - 1,
                ));
            }
            i = i - 1;
        }
        None
    }

    /// Looks up the arena index of the instruction defining `id`.
    fn lookup_ix(&self, id: u32) -> (r: Option<usize>)
        ensures
            r == map_lookup(self@.inst_map, id),
    {
        let n = self.inst_map.len();
        let mut i: usize = n;
        proof {
            assert(self.inst_map@.take(n as int) =~= self.inst_map@);
        }
        while i > 0
            invariant
                i <= n,
                n == self.inst_map@.len(),
                map_lookup(self.inst_map@.take(i as int), id) == map_lookup(self.inst_map@, id),
            decreases i,
        {
            if self.inst_map[i - 1].0 == id {
                proof {
                    assert(self.inst_map@.take(i as int).last() == self.inst_map@[i - 1]);
                }
                return Some(self.inst_map[i - 1].1);
            }
            proof {
                assert(self.inst_map@.take(i as int).drop_last() =~= self.inst_map@.take(i - 1));
            }
            i = i - 1;
        }
        None
    }

    /// Pushes an instruction into the arena and, when it carries a result
    /// id, records that id in the instruction index.
    fn index_inst(&mut self, inst: Instruction)
        ensures
            final(self)@ == mindex(old(self)@, inst),
    {
        let ix: usize = self.insts.len();
        let rid = inst.result_id;
        self.insts.push(inst);
        if let Some(id) = rid {
            self.inst_map.push((id, ix));
        }
        proof {
            assert(self@ =~= mindex(old(self)@, inst));
        }
    }

    /// Consumes one instruction of the stream, in stream order: the single
    /// left-to-right pass that separates module-scope declarations from
    /// function bodies. An aggregate-type declaration at module scope
    /// returns its rendered declaration dump. On an error the context is
    /// left exactly as it was: no partial update leaks out.
    pub fn consume_instruction(&mut self, inst: Instruction) -> (r: Result<Option<String>, Error>)
        ensures
            match r {
                Ok(out) => mstep(old(self)@, inst) == Ok::<(CtxM, Option<Seq<char>>), Error>(
                    (final(self)@, opt_view(out)),
                ),
                Err(e) => mstep(old(self)@, inst) == Err::<(CtxM, Option<Seq<char>>), Error>(e)
                    && final(self)@ == old(self)@,
            },
    {
        let ghost pre = self@;
        let ix: usize = self.insts.len();
        if matches!(&inst.opcode, Op::FunctionEnd) {
            match self.cur_func.take() {
                None => {
                    proof {
                        assert(self@ =~= pre);
                    }
                    return Err(Error::StructuralViolation);
                },
                Some(f) => {
                    let ghost fv = f@;
                    self.funcs.push(f);
                    proof {
                        assert(self@ =~= CtxM { funcs: pre.funcs.push(fv), cur: None, ..pre });
                    }
                    self.index_inst(inst);
                    return Ok(None);
                },
            }
        }
        if self.cur_func.is_some() {
            match &inst.opcode {
                Op::Label => {
                    let lid = match inst.result_id {
                        Some(id) => id,
                        None => {
                            return Err(Error::StructuralViolation);
                        },
                    };
                    let mut f = match self.cur_func.take() {
                        Some(f) => f,
                        None => {
                            proof {
                                assert(false);
                            }
                            return Err(Error::StructuralViolation);
                        },
                    };
                    let ghost fv = f@;
                    f.blocks.push(BasicBlock { result_id: lid, insts: Vec::new() });
                    self.cur_func = Some(f);
                    proof {
                        assert(self@ =~= CtxM {
                            cur: Some(
                                FuncM {
                                    result_id: fv.result_id,
                                    blocks: fv.blocks.push(
                                        BlockM { result_id: lid, insts: Seq::empty() },
                                    ),
                                },
                            ),
                            ..pre
                        });
                    }
                    self.index_inst(inst);
                    return Ok(None);
                },
                Op::FunctionParameter => {
                    self.index_inst(inst);
                    return Ok(None);
                },
                Op::Function => {
                    return Err(Error::StructuralViolation);
                },
                _ => {
                    let mut f = match self.cur_func.take() {
                        Some(f) => f,
                        None => {
                            proof {
                                assert(false);
                            }
                            return Err(Error::StructuralViolation);
                        },
                    };
                    let ghost fv = f@;
                    match f.blocks.pop() {
                        None => {
                            self.cur_func = Some(f);
                            proof {
                                assert(self@ =~= pre);
                            }
                            return Err(Error::StructuralViolation);
                        },
                        Some(mut b) => {
                            let ghost bv = b@;
                            b.insts.push(ix);
                            f.blocks.push(b);
                            self.cur_func = Some(f);
                            proof {
                                assert(fv.blocks.last() == bv);
                                assert(self@ =~= CtxM {
                                    cur: Some(
                                        FuncM {
                                            result_id: fv.result_id,
                                            blocks: fv.blocks.drop_last().push(
                                                BlockM {
                                                    result_id: bv.result_id,
                                                    insts: bv.insts.push(ix),
                                                },
                                            ),
                                        },
                                    ),
                                    ..pre
                                });
                            }
                            self.index_inst(inst);
                            return Ok(None);
                        },
                    }
                },
            }
        }
        match &inst.opcode {
            Op::Name => {
                if inst.operands.len() < 2 {
                    return Err(Error::StructuralViolation);
                }
                let entry = match (&inst.operands[0], &inst.operands[1]) {
                    (Operand::IdRef(id), Operand::LiteralString(s)) => Some((*id, s.clone())),
                    _ => None,
                };
                if let Some((id, s)) = entry {
                    self.names.push((id, s));
                }
                self.index_inst(inst);
                return Ok(None);
            },
            Op::MemberName => {
                if inst.operands.len() < 3 {
                    return Err(Error::StructuralViolation);
                }
                let entry = match (&inst.operands[0], &inst.operands[1], &inst.operands[2]) {
                    (Operand::IdRef(id), Operand::LiteralBit32(mix), Operand::LiteralString(s)) => {
                        Some((*id, *mix as usize, s.clone()))
                    },
                    _ => None,
                };
                if let Some((id, mix, s)) = entry {
                    self.member_names.push((id, mix, s));
                }
                self.index_inst(inst);
                return Ok(None);
            },
            Op::TypeStruct => {
                let sid = match inst.result_id {
                    Some(id) => id,
                    None => {
                        return Err(Error::StructuralViolation);
                    },
                };
                match self.struct_dump(sid, &inst.operands) {
                    Err(e) => {
                        return Err(e);
                    },
                    Ok(t) => {
                        self.index_inst(inst);
                        return Ok(Some(t));
                    },
                }
            },
            Op::Function => {
                let fid = match inst.result_id {
                    Some(id) => id,
                    None => {
                        return Err(Error::StructuralViolation);
                    },
                };
                self.cur_func = Some(Function { result_id: fid, blocks: Vec::new() });
                proof {
                    assert(self@ =~= CtxM {
                        cur: Some(FuncM { result_id: fid, blocks: Seq::empty() }),
                        ..pre
                    });
                }
                self.index_inst(inst);
                return Ok(None);
            },
            _ => {
                self.index_inst(inst);
                return Ok(None);
            },
        }
    }

    /// Dereferences `id` into its defining instruction, if it has one.
    pub fn lookup_inst(&self, id: u32) -> (r: Option<&Instruction>)
        ensures
            match r {
                Some(i) => inst_of(self@, id) == Some(*i),
                None => inst_of(self@, id) is None,
            },
    {
        match self.lookup_ix(id) {
            Some(ix) => if ix < self.insts.len() {
                Some(&self.insts[ix])
            } else {
                None
            },
            None => None,
        }
    }
}

} // verus!
