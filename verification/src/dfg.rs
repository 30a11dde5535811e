//! The data flow graph: the instructions, the blocks with their parameters,
//! the values, and the signatures and functions that calls refer to.

use vstd::prelude::*;
use crate::decls::ExtFuncData;
use crate::entities::{Ebb, EntityRef, FuncRef, Inst, SigRef, Value};
use crate::entity::PrimaryMap;
use crate::signature::{Signature, SignatureView, Type};

verus! {

/// What an instruction does, by its number in the table of operations.
#[derive(Clone, Copy, Debug, PartialEq, Eq, Structural, Hash)]
pub struct Opcode(pub u16);

/// The contents of one instruction: its operation and its immediate
/// operand.
#[derive(Clone, Copy, Debug, PartialEq, Eq, Structural, Hash)]
pub struct InstructionData {
    pub opcode: Opcode,
    pub imm: i64,
}

/// One instruction as the graph stores it: its contents, and the type that
/// settles which member of a polymorphic operation it is.
#[derive(Clone, Copy, Debug, PartialEq, Eq, Structural, Hash)]
pub struct InstNode {
    pub data: InstructionData,
    pub ctrl_typevar: Type,
}

/// The parameters of one block.
pub struct EbbData {
    pub params: Vec<Value>,
}

impl Clone for EbbData {
    fn clone(&self) -> (r: Self)
        ensures
            r.params@ == self.params@,
    {
        let r = EbbData { params: self.params.clone() };
        assert(r.params@ =~= self.params@);
        r
    }
}

/// What a data flow graph holds, as plain values.
pub struct DataFlowGraphView {
    /// The imported signatures, by the position of their handles.
    pub signatures: Seq<SignatureView>,
    /// The imported functions, by the position of their handles.
    pub ext_funcs: Seq<ExtFuncData>,
    /// The instructions, by the position of their handles.
    pub insts: Seq<InstNode>,
    /// The parameters of each block, by the position of the block's handle.
    pub ebb_params: Seq<Seq<Value>>,
    /// The type of each value, by the position of its handle.
    pub value_types: Seq<Type>,
}

impl DataFlowGraphView {
    /// The graph that holds nothing.
    pub open spec fn empty() -> DataFlowGraphView {
        DataFlowGraphView {
            signatures: Seq::empty(),
            ext_funcs: Seq::empty(),
            insts: Seq::empty(),
            ebb_params: Seq::empty(),
            value_types: Seq::empty(),
        }
    }
}

/// The instructions, blocks and values of a function, and what its calls
/// refer to.
pub struct DataFlowGraph {
    signatures: PrimaryMap<SigRef, Signature>,
    ext_funcs: PrimaryMap<FuncRef, ExtFuncData>,
    insts: PrimaryMap<Inst, InstNode>,
    ebbs: PrimaryMap<Ebb, EbbData>,
    values: PrimaryMap<Value, Type>,
}

impl View for DataFlowGraph {
    type V = DataFlowGraphView;

    closed spec fn view(&self) -> DataFlowGraphView {
        DataFlowGraphView {
            signatures: self.signatures@.map_values(|s: Signature| s@),
            ext_funcs: self.ext_funcs@,
            insts: self.insts@,
            ebb_params: self.ebbs@.map_values(|e: EbbData| e.params@),
            value_types: self.values@,
        }
    }
}

impl DataFlowGraph {
    /// A graph that holds nothing.
    pub fn new() -> (r: Self)
        ensures
            r@ == DataFlowGraphView::empty(),
    {
        let r = DataFlowGraph {
            signatures: PrimaryMap::new(),
            ext_funcs: PrimaryMap::new(),
            insts: PrimaryMap::new(),
            ebbs: PrimaryMap::new(),
            values: PrimaryMap::new(),
        };
        assert(r@.signatures =~= Seq::empty());
        assert(r@.ebb_params =~= Seq::empty());
        r
    }

    /// Removes everything.
    pub fn clear(&mut self)
        ensures
            final(self)@ == DataFlowGraphView::empty(),
    {
        self.signatures.clear();
        self.ext_funcs.clear();
        self.insts.clear();
        self.ebbs.clear();
        self.values.clear();
        assert(self@.signatures =~= Seq::empty());
        assert(self@.ebb_params =~= Seq::empty());
    }

    /// The number of instructions made.
    pub fn num_insts(&self) -> (r: usize)
        ensures
            r == self@.insts.len(),
    {
        self.insts.len()
    }

    /// The number of blocks made.
    pub fn num_ebbs(&self) -> (r: usize)
        ensures
            r == self@.ebb_params.len(),
    {
        self.ebbs.len()
    }

    /// The number of values made.
    pub fn num_values(&self) -> (r: usize)
        ensures
            r == self@.value_types.len(),
    {
        self.values.len()
    }

    /// Whether `inst` names an instruction of this graph.
    pub fn inst_is_valid(&self, inst: Inst) -> (r: bool)
        ensures
            r == (inst.position() < self@.insts.len()),
    {
        self.insts.is_valid(inst)
    }

    /// Whether `ebb` names a block of this graph.
    pub fn ebb_is_valid(&self, ebb: Ebb) -> (r: bool)
        ensures
            r == (ebb.position() < self@.ebb_params.len()),
    {
        self.ebbs.is_valid(ebb)
    }

    /// Adds a signature and returns its handle.
    pub fn import_signature(&mut self, signature: Signature) -> (r: SigRef)
        requires
            old(self)@.signatures.len() < u32::MAX,
        ensures
            r.position() == old(self)@.signatures.len(),
            final(self)@ == (DataFlowGraphView {
                signatures: old(self)@.signatures.push(signature@),
                ..old(self)@
            }),
    {
        let r = self.signatures.push(signature);
        assert(self@.signatures =~= old(self)@.signatures.push(signature@));
        r
    }

    /// Adds an imported function and returns its handle.
    pub fn import_function(&mut self, data: ExtFuncData) -> (r: FuncRef)
        requires
            old(self)@.ext_funcs.len() < u32::MAX,
        ensures
            r.position() == old(self)@.ext_funcs.len(),
            final(self)@ == (DataFlowGraphView {
                ext_funcs: old(self)@.ext_funcs.push(data),
                ..old(self)@
            }),
    {
        self.ext_funcs.push(data)
    }

    /// The signature that `sig` names.
    pub fn signature(&self, sig: SigRef) -> (r: &Signature)
        requires
            sig.position() < self@.signatures.len(),
        ensures
            r@ == self@.signatures[sig.position() as int],
    {
        self.signatures.index(sig)
    }

    /// The imported function that `func` names.
    pub fn ext_func(&self, func: FuncRef) -> (r: &ExtFuncData)
        requires
            func.position() < self@.ext_funcs.len(),
        ensures
            *r == self@.ext_funcs[func.position() as int],
    {
        self.ext_funcs.index(func)
    }

    /// Makes a block without parameters and returns its handle.
    pub fn make_ebb(&mut self) -> (r: Ebb)
        requires
            old(self)@.ebb_params.len() < u32::MAX,
        ensures
            r.position() == old(self)@.ebb_params.len(),
            final(self)@ == (DataFlowGraphView {
                ebb_params: old(self)@.ebb_params.push(Seq::empty()),
                ..old(self)@
            }),
    {
        let r = self.ebbs.push(EbbData { params: Vec::new() });
        assert(self@.ebb_params =~= old(self)@.ebb_params.push(Seq::empty()));
        r
    }

    /// Gives `ebb` one more parameter, of type `ty`, and returns the value
    /// that stands for it.
    pub fn append_ebb_param(&mut self, ebb: Ebb, ty: Type) -> (r: Value)
        requires
            ebb.position() < old(self)@.ebb_params.len(),
            old(self)@.value_types.len() < u32::MAX,
        ensures
            r.position() == old(self)@.value_types.len(),
            final(self)@ == (DataFlowGraphView {
                ebb_params: old(self)@.ebb_params.update(
                    ebb.position() as int,
                    old(self)@.ebb_params[ebb.position() as int].push(r),
                ),
                value_types: old(self)@.value_types.push(ty),
                ..old(self)@
            }),
    {
        let r = self.values.push(ty);
        let data = self.ebbs.index_mut(ebb);
        data.params.push(r);
        assert(self@.ebb_params =~= old(self)@.ebb_params.update(
            ebb.position() as int,
            old(self)@.ebb_params[ebb.position() as int].push(r),
        ));
        r
    }

    /// The parameters of `ebb`, in order.
    pub fn ebb_params(&self, ebb: Ebb) -> (r: &[Value])
        requires
            ebb.position() < self@.ebb_params.len(),
        ensures
            r@ == self@.ebb_params[ebb.position() as int],
    {
        self.ebbs.index(ebb).params.as_slice()
    }

    /// Makes an instruction and returns its handle.
    pub fn make_inst(&mut self, data: InstructionData, ctrl_typevar: Type) -> (r: Inst)
        requires
            old(self)@.insts.len() < u32::MAX,
        ensures
            r.position() == old(self)@.insts.len(),
            final(self)@ == (DataFlowGraphView {
                insts: old(self)@.insts.push(InstNode { data, ctrl_typevar }),
                ..old(self)@
            }),
    {
        self.insts.push(InstNode { data, ctrl_typevar })
    }

    /// The contents of `inst`.
    pub fn inst_data(&self, inst: Inst) -> (r: &InstructionData)
        requires
            inst.position() < self@.insts.len(),
        ensures
            *r == self@.insts[inst.position() as int].data,
    {
        &self.insts.index(inst).data
    }

    /// The controlling type of `inst`.
    pub fn ctrl_typevar(&self, inst: Inst) -> (r: Type)
        requires
            inst.position() < self@.insts.len(),
        ensures
            r == self@.insts[inst.position() as int].ctrl_typevar,
    {
        self.insts.index(inst).ctrl_typevar
    }
}

impl Clone for DataFlowGraph {
    fn clone(&self) -> (r: Self)
        ensures
            r@ == self@,
    {
        let r = DataFlowGraph {
            signatures: self.signatures.clone(),
            ext_funcs: self.ext_funcs.clone(),
            insts: self.insts.clone(),
            ebbs: self.ebbs.clone(),
            values: self.values.clone(),
        };
        assert(r@.signatures =~= self@.signatures);
        assert(r@.ext_funcs =~= self@.ext_funcs);
        assert(r@.insts =~= self@.insts);
        assert(r@.ebb_params =~= self@.ebb_params);
        assert(r@.value_types =~= self@.value_types);
        r
    }
}

} // verus!
