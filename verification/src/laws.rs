//! Laws of the decompiler, proved over the spec model: how the builder
//! assembles functions from a stream, how type and constant rendering
//! agree, how a declare/store/load triple renders, that rendering is a
//! pure function of the module, and how failures surface.

use vstd::prelude::*;
use crate::ctx::BlockM;
use crate::ctx::CtxM;
use crate::ctx::FuncM;
use crate::ctx::inst_of;
use crate::ctx::map_lookup;
use crate::ctx::mstep;
use crate::ir::Error;
use crate::ir::Instruction;
use crate::ir::Operand;
use crate::ir::STORAGE_CLASS_FUNCTION;
use crate::ir::spec_op_name;
use crate::render::spec_block;
use crate::render::spec_block_stmts;
use crate::render::spec_constant;
use crate::render::spec_deref_ptr;
use crate::render::spec_function;
use crate::render::spec_lvalue;
use crate::render::spec_name;
use crate::render::spec_stmt;
use crate::render::spec_type;
use crate::text::spec_dec;
use crate::text::spec_dec_int;
use crate::text::spec_signed32;

verus! {

/// Folds the module builder over a whole instruction stream, keeping the
/// final context and dropping the declaration dumps.
pub open spec fn run(m: CtxM, s: Seq<Instruction>) -> Result<CtxM, Error>
    decreases s.len(),
{
    if s.len() == 0 {
        Ok(m)
    } else {
        match mstep(m, s[0]) {
            Err(e) => Err(e),
            Ok(p) => run(p.0, s.drop_first()),
        }
    }
}

/// The number of function-end markers in a stream.
pub open spec fn count_ends(s: Seq<Instruction>) -> int
    decreases s.len(),
{
    if s.len() == 0 {
        0
    } else {
        (if s[0].opcode is FunctionEnd {
            1int
        } else {
            0int
        }) + count_ends(s.drop_first())
    }
}

/// A successful run completes exactly one function per function-end
/// marker it consumed: the finished-function list grows by the number of
/// function-end instructions in the stream.
pub proof fn lemma_one_function_per_end(m: CtxM, s: Seq<Instruction>, m2: CtxM)
    requires
        run(m, s) == Ok::<CtxM, Error>(m2),
    ensures
        m2.funcs.len() == m.funcs.len() + count_ends(s),
    decreases s.len(),
{
    if s.len() > 0 {
        let step = mstep(m, s[0]);
        assert(step is Ok);
        let m1 = step->Ok_0.0;
        assert(m1.funcs.len() == m.funcs.len() + (if s[0].opcode is FunctionEnd {
            1int
        } else {
            0int
        })) by {
            match m.cur {
                Some(f) => {},
                None => {},
            }
        };
        lemma_one_function_per_end(m1, s.drop_first(), m2);
    }
}

/// How a function body assembles into blocks, starting from blocks
/// already open: a label opens a new block, a function parameter is
/// dropped, and every other instruction joins the newest block, recorded
/// as the arena slot it will occupy — blocks appear in label order and
/// instructions in stream order. `None` marks the two structural
/// failures: a label without a result id, or an instruction before any
/// block.
pub open spec fn extend_blocks(blocks: Seq<BlockM>, s: Seq<Instruction>, base: int) -> Option<
    Seq<BlockM>,
>
    decreases s.len(),
{
    if s.len() == 0 {
        Some(blocks)
    } else {
        let i = s[0];
        if i.opcode is Label {
            match i.result_id {
                None => None,
                Some(lid) => extend_blocks(
                    blocks.push(BlockM { result_id: lid, insts: Seq::empty() }),
                    s.drop_first(),
                    base + 1,
                ),
            }
        } else if i.opcode is FunctionParameter {
            extend_blocks(blocks, s.drop_first(), base + 1)
        } else if blocks.len() == 0 {
            None
        } else {
            extend_blocks(
                blocks.drop_last().push(
                    BlockM {
                        result_id: blocks.last().result_id,
                        insts: blocks.last().insts.push(base as usize),
                    },
                ),
                s.drop_first(),
                base + 1,
            )
        }
    }
}

/// Running the builder over a function body (no function-start or
/// function-end markers) extends the open function exactly as
/// [`extend_blocks`] describes, touches no completed function and no name
/// table, and appends the body to the arena in stream order.
pub proof fn lemma_run_body(m: CtxM, s: Seq<Instruction>, f: FuncM, m2: CtxM)
    requires
        m.cur == Some(f),
        forall|j: int|
            0 <= j < s.len() ==> !((#[trigger] s[j]).opcode is Function) && !(s[j].opcode
                is FunctionEnd),
        run(m, s) == Ok::<CtxM, Error>(m2),
    ensures
        extend_blocks(f.blocks, s, m.insts.len() as int) matches Some(bs) && m2.cur == Some(
            FuncM { result_id: f.result_id, blocks: bs },
        ) && m2.funcs == m.funcs && m2.insts =~= m.insts + s && m2.names == m.names,
    decreases s.len(),
{
    if s.len() == 0 {
        assert(m.insts + s =~= m.insts);
        assert(m2.cur == Some(FuncM { result_id: f.result_id, blocks: f.blocks })) by {
            assert(FuncM { result_id: f.result_id, blocks: f.blocks } =~= f);
        };
    } else {
        let step = mstep(m, s[0]);
        assert(step is Ok);
        let m1 = step->Ok_0.0;
        assert(run(m1, s.drop_first()) == Ok::<CtxM, Error>(m2));
        assert(forall|j: int|
            0 <= j < s.drop_first().len() ==> !((#[trigger] s.drop_first()[j]).opcode is Function)
                && !(s.drop_first()[j].opcode is FunctionEnd)) by {
            assert(forall|j: int|
                0 <= j < s.drop_first().len() ==> #[trigger] s.drop_first()[j] == s[j + 1]);
        };
        assert(m1.insts =~= m.insts.push(s[0]));
        assert(m1.insts.len() as int == m.insts.len() + 1);
        if s[0].opcode is Label {
            match s[0].result_id {
                None => {
                    assert(false);
                },
                Some(lid) => {
                    let f1 = FuncM {
                        result_id: f.result_id,
                        blocks: f.blocks.push(BlockM { result_id: lid, insts: Seq::empty() }),
                    };
                    assert(m1.cur == Some(f1));
                    lemma_run_body(m1, s.drop_first(), f1, m2);
                    assert(m2.insts =~= m.insts + s) by {
                        assert(m.insts.push(s[0]) + s.drop_first() =~= m.insts + s);
                    };
                },
            }
        } else if s[0].opcode is FunctionParameter {
            assert(m1.cur == Some(f)) by {
                match s[0].result_id {
                    Some(id) => {},
                    None => {},
                }
            };
            lemma_run_body(m1, s.drop_first(), f, m2);
            assert(m2.insts =~= m.insts + s) by {
                assert(m.insts.push(s[0]) + s.drop_first() =~= m.insts + s);
            };
        } else {
            assert(f.blocks.len() > 0);
            let f1 = FuncM {
                result_id: f.result_id,
                blocks: f.blocks.drop_last().push(
                    BlockM {
                        result_id: f.blocks.last().result_id,
                        insts: f.blocks.last().insts.push(m.insts.len() as usize),
                    },
                ),
            };
            assert(m1.cur == Some(f1));
            lemma_run_body(m1, s.drop_first(), f1, m2);
            assert(m2.insts =~= m.insts + s) by {
                assert(m.insts.push(s[0]) + s.drop_first() =~= m.insts + s);
            };
        }
    }
}

/// Decomposes a run over a concatenated stream into two runs in order.
pub proof fn lemma_run_append(m: CtxM, a: Seq<Instruction>, b: Seq<Instruction>)
    ensures
        run(m, a + b) == (match run(m, a) {
            Ok(mm) => run(mm, b),
            Err(e) => Err::<CtxM, Error>(e),
        }),
    decreases a.len(),
{
    if a.len() == 0 {
        assert(a + b =~= b);
    } else {
        assert((a + b)[0] == a[0]);
        assert((a + b).len() > 0);
        match mstep(m, a[0]) {
            Err(e) => {},
            Ok(p) => {
                assert((a + b).drop_first() =~= a.drop_first() + b);
                lemma_run_append(p.0, a.drop_first(), b);
            },
        }
    }
}

/// One function-start/function-end pair, begun outside any function,
/// completes exactly one function: its id is the start marker's result
/// id, its blocks are the body's labels in order, and each block holds
/// the body's instructions in stream order.
/// A run over a single instruction is one builder step.
proof fn lemma_run_one(m: CtxM, i: Instruction)
    ensures
        run(m, seq![i]) == (match mstep(m, i) {
            Ok(p) => Ok::<CtxM, Error>(p.0),
            Err(e) => Err::<CtxM, Error>(e),
        }),
{
    reveal_with_fuel(run, 2);
    assert(seq![i][0] == i);
    assert(seq![i].drop_first() =~= Seq::<Instruction>::empty());
    match mstep(m, i) {
        Ok(p) => {
            assert(run(p.0, seq![i].drop_first()) == Ok::<CtxM, Error>(p.0));
        },
        Err(e) => {},
    }
}

pub proof fn lemma_builder_structure(
    m: CtxM,
    start: Instruction,
    body: Seq<Instruction>,
    end: Instruction,
    fid: u32,
    m2: CtxM,
)
    requires
        m.cur is None,
        start.opcode is Function,
        start.result_id == Some(fid),
        forall|j: int|
            0 <= j < body.len() ==> !((#[trigger] body[j]).opcode is Function) && !(body[j].opcode
                is FunctionEnd),
        end.opcode is FunctionEnd,
        run(m, seq![start] + body + seq![end]) == Ok::<CtxM, Error>(m2),
    ensures
        extend_blocks(Seq::empty(), body, m.insts.len() as int + 1) matches Some(bs) && m2.funcs
            == m.funcs.push(FuncM { result_id: fid, blocks: bs }) && m2.cur is None,
{
    let s = seq![start] + body + seq![end];
    lemma_run_append(m, seq![start], body + seq![end]);
    assert(seq![start] + (body + seq![end]) =~= s);
    lemma_run_one(m, start);
    assert(run(m, seq![start]) is Ok);
    let step0 = mstep(m, start);
    assert(step0 is Ok);
    let m1 = step0->Ok_0.0;
    assert(run(m, seq![start]) == Ok::<CtxM, Error>(m1));
    let f0 = FuncM { result_id: fid, blocks: Seq::empty() };
    assert(m1.cur == Some(f0));
    assert(m1.insts =~= m.insts.push(start));
    assert(run(m1, body + seq![end]) == Ok::<CtxM, Error>(m2));
    lemma_run_append(m1, body, seq![end]);
    assert(run(m1, body) is Ok);
    let mb = run(m1, body)->Ok_0;
    lemma_run_body(m1, body, f0, mb);
    let bs = extend_blocks(Seq::empty(), body, m.insts.len() as int + 1)->Some_0;
    assert(mb.cur == Some(FuncM { result_id: fid, blocks: bs }));
    assert(run(mb, seq![end]) == Ok::<CtxM, Error>(m2));
    lemma_run_one(mb, end);
    let stepe = mstep(mb, end);
    assert(stepe is Ok);
    assert(m2 == stepe->Ok_0.0);
    assert(m2.funcs =~= mb.funcs.push(FuncM { result_id: fid, blocks: bs }));
    assert(m2.funcs =~= m.funcs.push(FuncM { result_id: fid, blocks: bs }));
}

/// A function-end marker arriving with no function open fails fatally:
/// it is never a silent no-op.
pub proof fn lemma_function_end_without_open_fails(m: CtxM, inst: Instruction)
    requires
        inst.opcode is FunctionEnd,
        m.cur is None,
    ensures
        mstep(m, inst) == Err::<(CtxM, Option<Seq<char>>), Error>(Error::StructuralViolation),
{
}

/// An instruction no lowering rule recognizes renders as a placeholder
/// comment carrying the opcode's name verbatim as its suffix.
pub proof fn lemma_unhandled_placeholder_quotes_opcode(m: CtxM, inst: Instruction)
    requires
        !(inst.opcode is Load),
        !(inst.opcode is Store),
        !(inst.opcode is AccessChain),
        !(inst.opcode is IAdd),
        !(inst.opcode is Variable),
    ensures
        spec_stmt(m, inst) == Ok::<Option<Seq<char>>, Error>(
            Some("// unhandled inst "@ + spec_op_name(inst.opcode)),
        ),
{
}

/// Type and constant rendering are consistent: a constant rendered at an
/// integer type carries, verbatim as its suffix, the same
/// signedness/width text the type itself renders to, and the literal is
/// read as signed exactly when the type declares itself signed.
pub proof fn lemma_type_constant_consistent(m: CtxM, ty: u32, w: u32, sg: u32, v: u32)
    requires
        inst_of(m, ty) matches Some(ti) && ti.opcode is TypeInt && ti.operands@.len() >= 2
            && ti.operands@[0] == Operand::LiteralBit32(w) && ti.operands@[1]
            == Operand::LiteralBit32(sg),
    ensures
        spec_type(m, ty) == Ok::<Seq<char>, Error>(
            (if sg == 0 {
                "u"@
            } else {
                "i"@
            }) + spec_dec(w as int),
        ),
        spec_constant(m, ty, Operand::LiteralBit32(v)) == Ok::<Seq<char>, Error>(
            (if sg == 0 {
                spec_dec(v as int)
            } else {
                spec_dec_int(spec_signed32(v))
            }) + ((if sg == 0 {
                "u"@
            } else {
                "i"@
            }) + spec_dec(w as int)),
        ),
{
    assert(m.inst_map.len() > 0) by {
        if m.inst_map.len() == 0 {
            assert(map_lookup(m.inst_map, ty) is None);
        }
    };
    if sg == 0 {
        assert(spec_dec(v as int) + "u"@ + spec_dec(w as int) =~= spec_dec(v as int) + ("u"@
            + spec_dec(w as int)));
    } else {
        assert(spec_dec_int(spec_signed32(v)) + "i"@ + spec_dec(w as int) =~= spec_dec_int(
            spec_signed32(v),
        ) + ("i"@ + spec_dec(w as int)));
    }
}

/// Rendering is a pure function of the completed module: the same module
/// and the same function render to the same text, so rendering twice
/// with no intervening mutation is byte-identical.
pub proof fn lemma_render_deterministic(m1: CtxM, m2: CtxM, f1: FuncM, f2: FuncM)
    requires
        m1 == m2,
        f1 == f2,
    ensures
        spec_function(m1, f1) == spec_function(m2, f2),
{
}

/// A local-variable declaration followed immediately by a store to it
/// and a load from it lowers to exactly the declaration, the assignment
/// and the binding, in source order.
pub proof fn lemma_declare_store_load_round_trip(
    m: CtxM,
    b: BlockM,
    dv: usize,
    ds: usize,
    dl: usize,
    v: u32,
    pt: u32,
    et: u32,
    t: Seq<char>,
    src: Operand,
    srctext: Seq<char>,
    y: u32,
)
    requires
        b.insts == seq![dv, ds, dl],
        dv < m.insts.len(),
        ds < m.insts.len(),
        dl < m.insts.len(),
        ({
            let d = m.insts[dv as int];
            d.opcode is Variable && d.result_id == Some(v) && d.result_type == Some(pt)
                && d.operands@.len() >= 1 && d.operands@[0] == Operand::StorageClass(
                STORAGE_CLASS_FUNCTION,
            )
        }),
        inst_of(m, v) == Some(m.insts[dv as int]),
        spec_deref_ptr(m, pt) == Ok::<u32, Error>(et),
        spec_type(m, et) == Ok::<Seq<char>, Error>(t),
        ({
            let st = m.insts[ds as int];
            st.opcode is Store && st.operands@.len() >= 2 && st.operands@[0] == Operand::IdRef(v)
                && st.operands@[1] == src
        }),
        spec_lvalue(m, src) == Ok::<Seq<char>, Error>(srctext),
        ({
            let ld = m.insts[dl as int];
            ld.opcode is Load && ld.operands@.len() >= 1 && ld.operands@[0] == Operand::IdRef(v)
                && ld.result_id == Some(y)
        }),
    ensures
        spec_block(m, b) == Ok::<Seq<char>, Error>(
            "// block "@ + spec_dec(b.result_id as int) + "\n"@ + ("declare mutable "@ + spec_name(
                m,
                v,
            ) + ": "@ + t + ";"@) + "\n"@ + (spec_name(m, v) + " = "@ + srctext + ";"@) + "\n"@ + (
            "bind "@ + spec_name(m, y) + " = "@ + spec_name(m, v) + ";"@) + "\n"@,
        ),
{
    let x = spec_name(m, v);
    let s1 = "declare mutable "@ + x + ": "@ + t + ";"@;
    let s2 = x + " = "@ + srctext + ";"@;
    let s3 = "bind "@ + spec_name(m, y) + " = "@ + x + ";"@;
    assert(spec_stmt(m, m.insts[dv as int]) == Ok::<Option<Seq<char>>, Error>(Some(s1)));
    assert(spec_stmt(m, m.insts[ds as int]) == Ok::<Option<Seq<char>>, Error>(Some(s2)));
    assert(spec_stmt(m, m.insts[dl as int]) == Ok::<Option<Seq<char>>, Error>(Some(s3)));
    assert(b.insts[0] == dv && b.insts[1] == ds && b.insts[2] == dl);
    assert(spec_block_stmts(m, b.insts, 0) == Ok::<Seq<char>, Error>(Seq::empty()));
    assert(spec_block_stmts(m, b.insts, 1) == Ok::<Seq<char>, Error>(
        Seq::empty() + s1 + "\n"@,
    ));
    assert(spec_block_stmts(m, b.insts, 2) == Ok::<Seq<char>, Error>(
        (Seq::empty() + s1 + "\n"@) + s2 + "\n"@,
    ));
    assert(spec_block_stmts(m, b.insts, 3) == Ok::<Seq<char>, Error>(
        ((Seq::empty() + s1 + "\n"@) + s2 + "\n"@) + s3 + "\n"@,
    ));
    assert(b.insts.len() == 3);
    assert("// block "@ + spec_dec(b.result_id as int) + "\n"@ + (((Seq::empty() + s1 + "\n"@) + s2
        + "\n"@) + s3 + "\n"@) =~= "// block "@ + spec_dec(b.result_id as int) + "\n"@ + s1 + "\n"@
        + s2 + "\n"@ + s3 + "\n"@);
}

} // verus!
