//! A function in the intermediate representation.
//!
//! A `Function` owns everything that belongs to one function: what its
//! preamble declares, its instructions and blocks, their order, and what
//! later passes attach to them.

use vstd::prelude::*;
use crate::decls::{ExtFuncData, ExternalName, GlobalVarData, HeapData, SourceLoc, StackSlotData, ValueLoc};
use crate::dfg::{DataFlowGraph, DataFlowGraphView};
use crate::entities::{Ebb, EntityRef, FuncRef, GlobalVar, Heap, Inst, JumpTable, SigRef, StackSlot, Value};
use crate::entity::{padded, value_at, EntityMap, PrimaryMap};
use crate::isa::{CodeOffset, EncInfo, EncInfoView, Encoding, Legalize, TargetIsa};
use crate::jumptable::JumpTableData;
use crate::layout::{insts_of, EbbOrder, Layout};
use crate::signature::{ArgumentPurpose, CallConv, Signature, SignatureView};

verus! {

/// The stack slots of a function.
pub type StackSlots = PrimaryMap<StackSlot, StackSlotData>;

/// The jump tables of a function.
pub type JumpTables = PrimaryMap<JumpTable, JumpTableData>;

/// The encoding of each instruction.
pub type InstEncodings = EntityMap<Inst, Encoding>;

/// The location of each value.
pub type ValueLocations = EntityMap<Value, ValueLoc>;

/// The code offset of each block's first instruction.
pub type EbbOffsets = EntityMap<Ebb, CodeOffset>;

/// The source position of each instruction.
pub type SourceLocs = EntityMap<Inst, SourceLoc>;

/// One thing that a function's preamble can declare, as plain values.
pub enum Declaration {
    JumpTable(Seq<Option<Ebb>>),
    StackSlot(StackSlotData),
    GlobalVar(GlobalVarData),
    Heap(HeapData),
    Signature(SignatureView),
    Function(ExtFuncData),
}

/// What a function holds, as plain values. Each table is the sequence of
/// its values by the position of their handles.
pub struct FunctionView {
    pub name: ExternalName,
    pub signature: SignatureView,
    pub stack_slots: Seq<StackSlotData>,
    pub stack_limit: Option<GlobalVar>,
    pub global_vars: Seq<GlobalVarData>,
    pub heaps: Seq<HeapData>,
    pub jump_tables: Seq<Seq<Option<Ebb>>>,
    pub dfg: DataFlowGraphView,
    pub layout: Seq<EbbOrder>,
    pub encodings: Seq<Encoding>,
    pub locations: Seq<ValueLoc>,
    pub offsets: Seq<CodeOffset>,
    pub srclocs: Seq<SourceLoc>,
}

impl FunctionView {
    /// The function named `name` with the signature `signature` that
    /// declares nothing and has no code.
    pub open spec fn empty(name: ExternalName, signature: SignatureView) -> FunctionView {
        FunctionView {
            name,
            signature,
            stack_slots: Seq::empty(),
            stack_limit: None,
            global_vars: Seq::empty(),
            heaps: Seq::empty(),
            jump_tables: Seq::empty(),
            dfg: DataFlowGraphView::empty(),
            layout: Seq::empty(),
            encodings: Seq::empty(),
            locations: Seq::empty(),
            offsets: Seq::empty(),
            srclocs: Seq::empty(),
        }
    }

    /// The function that a newly made, unnamed function is.
    pub open spec fn fresh() -> FunctionView {
        FunctionView::empty(ExternalName::unnamed(), SignatureView::empty(CallConv::Fast))
    }

    /// This function after it is cleared: it keeps its name and nothing
    /// else.
    pub open spec fn cleared(self) -> FunctionView {
        FunctionView::empty(self.name, SignatureView::empty(CallConv::Fast))
    }

    /// This function after `d` is declared: `d` stands at the end of its
    /// table, and nothing else changes.
    pub open spec fn declare(self, d: Declaration) -> FunctionView {
        match d {
            Declaration::JumpTable(data) => FunctionView {
                jump_tables: self.jump_tables.push(data),
                ..self
            },
            Declaration::StackSlot(data) => FunctionView {
                stack_slots: self.stack_slots.push(data),
                ..self
            },
            Declaration::GlobalVar(data) => FunctionView {
                global_vars: self.global_vars.push(data),
                ..self
            },
            Declaration::Heap(data) => FunctionView { heaps: self.heaps.push(data), ..self },
            Declaration::Signature(data) => FunctionView {
                dfg: DataFlowGraphView { signatures: self.dfg.signatures.push(data), ..self.dfg },
                ..self
            },
            Declaration::Function(data) => FunctionView {
                dfg: DataFlowGraphView { ext_funcs: self.dfg.ext_funcs.push(data), ..self.dfg },
                ..self
            },
        }
    }

    /// This function after the first `k` of `ds` are declared, in order.
    pub open spec fn declare_all(self, ds: Seq<Declaration>, k: int) -> FunctionView
        decreases k,
    {
        if k <= 0 {
            self
        } else {
            self.declare_all(ds, k - 1).declare(ds[k - 1])
        }
    }

    /// The number of entities in the table that `d` goes to.
    pub open spec fn declared(self, d: Declaration) -> nat {
        match d {
            Declaration::JumpTable(_) => self.jump_tables.len(),
            Declaration::StackSlot(_) => self.stack_slots.len(),
            Declaration::GlobalVar(_) => self.global_vars.len(),
            Declaration::Heap(_) => self.heaps.len(),
            Declaration::Signature(_) => self.dfg.signatures.len(),
            Declaration::Function(_) => self.dfg.ext_funcs.len(),
        }
    }

    /// Whether every handle into a declaration table of this function
    /// names the same entity in `later`.
    pub open spec fn handles_kept_by(self, later: FunctionView) -> bool {
        &&& self.jump_tables.is_prefix_of(later.jump_tables)
        &&& self.stack_slots.is_prefix_of(later.stack_slots)
        &&& self.global_vars.is_prefix_of(later.global_vars)
        &&& self.heaps.is_prefix_of(later.heaps)
        &&& self.dfg.signatures.is_prefix_of(later.dfg.signatures)
        &&& self.dfg.ext_funcs.is_prefix_of(later.dfg.ext_funcs)
    }

    /// This function with the entry at `index` of the jump table `jt` set
    /// to `ebb`.
    pub open spec fn with_jump_table_entry(self, jt: JumpTable, index: int, ebb: Ebb) -> FunctionView
        recommends
            jt.position() < self.jump_tables.len(),
            0 <= index < self.jump_tables[jt.position() as int].len(),
    {
        FunctionView {
            jump_tables: self.jump_tables.update(
                jt.position() as int,
                self.jump_tables[jt.position() as int].update(index, Some(ebb)),
            ),
            ..self
        }
    }

    /// The entry at `index` of the jump table `jt`.
    pub open spec fn jump_table_entry(self, jt: JumpTable, index: int) -> Option<Ebb>
        recommends
            jt.position() < self.jump_tables.len(),
            0 <= index < self.jump_tables[jt.position() as int].len(),
    {
        self.jump_tables[jt.position() as int][index]
    }

    /// This function with the stack limit `limit`.
    pub open spec fn with_stack_limit(self, limit: Option<GlobalVar>) -> FunctionView {
        FunctionView { stack_limit: limit, ..self }
    }

    /// Whether the stack limit, if there is one, is one of this function's
    /// global variables.
    pub open spec fn stack_limit_is_declared(self) -> bool {
        match self.stack_limit {
            Some(gv) => gv.position() < self.global_vars.len(),
            None => true,
        }
    }

    /// The block at which the function is entered, if it has a block.
    pub open spec fn entry_block(self) -> Option<Ebb> {
        if self.layout.len() > 0 {
            Some(self.layout[0].ebb)
        } else {
            None
        }
    }

    /// The encoding of `inst`: the one assigned last, or the illegal one.
    pub open spec fn encoding_of(self, inst: Inst) -> Encoding {
        value_at(self.encodings, inst)
    }

    /// The value that stands for the last parameter that serves `purpose`.
    pub open spec fn special_param(self, purpose: ArgumentPurpose) -> Option<Value>
        recommends
            self.has_special_param(purpose),
    {
        match self.signature.special_param_index(purpose) {
            Some(i) => Some(self.dfg.ebb_params[self.layout[0].ebb.position() as int][i as int]),
            None => None,
        }
    }

    /// Whether `special_param` can look `purpose` up: the function has an
    /// entry block, the block is one of the graph's, and where a parameter
    /// of the signature serves `purpose`, the block has a parameter at its
    /// position.
    pub open spec fn has_special_param(self, purpose: ArgumentPurpose) -> bool {
        &&& self.layout.len() > 0
        &&& self.layout[0].ebb.position() < self.dfg.ebb_params.len()
        &&& match self.signature.special_param_index(purpose) {
            Some(i) => i < self.dfg.ebb_params[self.layout[0].ebb.position() as int].len(),
            None => true,
        }
    }
}

/// A function.
///
/// A clone of a function has every entity under the handle that it has in
/// the function cloned.
pub struct Function {
    /// The name of this function.
    pub name: ExternalName,
    /// The signature of this function.
    pub signature: Signature,
    /// The stack slots allocated in this function.
    pub stack_slots: StackSlots,
    /// The global variable that holds the address against which the stack
    /// pointer is checked, if it is checked.
    pub stack_limit: Option<GlobalVar>,
    /// The global variables that this function refers to.
    pub global_vars: PrimaryMap<GlobalVar, GlobalVarData>,
    /// The heaps that this function refers to.
    pub heaps: PrimaryMap<Heap, HeapData>,
    /// The jump tables of this function's multi-way branches.
    pub jump_tables: JumpTables,
    /// The instructions, blocks and values.
    pub dfg: DataFlowGraph,
    /// The order of the blocks and of the instructions in them.
    pub layout: Layout,
    /// The encoding of each instruction that has one. The others have the
    /// illegal encoding.
    pub encodings: InstEncodings,
    /// The location assigned to each value.
    pub locations: ValueLocations,
    /// The code offset of each block's first instruction. The table is empty
    /// until branch relaxation has laid the code out, and holds every block
    /// of the layout afterwards.
    pub offsets: EbbOffsets,
    /// The source position of each instruction. It is kept, never read.
    pub srclocs: SourceLocs,
}

impl View for Function {
    type V = FunctionView;

    open spec fn view(&self) -> FunctionView {
        FunctionView {
            name: self.name,
            signature: self.signature@,
            stack_slots: self.stack_slots@,
            stack_limit: self.stack_limit,
            global_vars: self.global_vars@,
            heaps: self.heaps@,
            jump_tables: self.jump_tables@.map_values(|t: JumpTableData| t@),
            dfg: self.dfg@,
            layout: self.layout@,
            encodings: self.encodings@,
            locations: self.locations@,
            offsets: self.offsets@,
            srclocs: self.srclocs@,
        }
    }
}

impl Function {
    /// The view gives each jump table of the function at the position of
    /// its handle.
    pub proof fn lemma_jump_tables_view(&self)
        ensures
            self@.jump_tables.len() == self.jump_tables@.len(),
            forall|i: int|
                #![trigger self@.jump_tables[i]]
                #![trigger self.jump_tables@[i]]
                0 <= i < self.jump_tables@.len() ==> self@.jump_tables[i] == self.jump_tables@[i]@,
    {
    }

    /// A function named `name` with the signature `sig` that declares
    /// nothing and has no code.
    pub fn with_name_signature(name: ExternalName, sig: Signature) -> (r: Self)
        ensures
            r@ == FunctionView::empty(name, sig@),
    {
        let r = Function {
            name,
            signature: sig,
            stack_slots: PrimaryMap::new(),
            stack_limit: None,
            global_vars: PrimaryMap::new(),
            heaps: PrimaryMap::new(),
            jump_tables: PrimaryMap::new(),
            dfg: DataFlowGraph::new(),
            layout: Layout::new(),
            encodings: EntityMap::new(),
            locations: EntityMap::new(),
            offsets: EntityMap::new(),
            srclocs: EntityMap::new(),
        };
        assert(r@.jump_tables =~= Seq::empty());
        r
    }

    /// Empties every table, takes the stack limit away and resets the
    /// signature to no parameters, no results and the fast calling
    /// convention. The name stays.
    pub fn clear(&mut self)
        ensures
            final(self)@ == old(self)@.cleared(),
    {
        self.signature.clear(CallConv::Fast);
        self.stack_slots.clear();
        self.stack_limit = None;
        self.global_vars.clear();
        self.heaps.clear();
        self.jump_tables.clear();
        self.dfg.clear();
        self.layout.clear();
        self.encodings.clear();
        self.locations.clear();
        self.offsets.clear();
        self.srclocs.clear();
        assert(self@.jump_tables =~= Seq::empty());
    }

    /// An unnamed function with the fast calling convention that declares
    /// nothing and has no code.
    pub fn new() -> (r: Self)
        ensures
            r@ == FunctionView::fresh(),
    {
        Self::with_name_signature(ExternalName::default(), Signature::new(CallConv::Fast))
    }

    /// Declares a jump table, for the multi-way branches of this function.
    pub fn create_jump_table(&mut self, data: JumpTableData) -> (r: JumpTable)
        requires
            old(self)@.jump_tables.len() < u32::MAX,
        ensures
            r.position() == old(self)@.jump_tables.len(),
            final(self)@ == old(self)@.declare(Declaration::JumpTable(data@)),
    {
        let r = self.jump_tables.push(data);
        assert(self@.jump_tables =~= old(self)@.jump_tables.push(data@));
        r
    }

    /// Makes the entry at `index` of the jump table `jt` branch to `ebb`.
    /// The table keeps its length; no other entry and no other table
    /// changes.
    pub fn insert_jump_table_entry(&mut self, jt: JumpTable, index: usize, ebb: Ebb)
        requires
            jt.position() < old(self)@.jump_tables.len(),
            index < old(self)@.jump_tables[jt.position() as int].len(),
        ensures
            final(self)@ == old(self)@.with_jump_table_entry(jt, index as int, ebb),
    {
        let table = self.jump_tables.index_mut(jt);
        table.set_entry(index, ebb);
        assert(self@.jump_tables =~= old(self)@.jump_tables.update(
            jt.position() as int,
            old(self)@.jump_tables[jt.position() as int].update(index as int, Some(ebb)),
        ));
    }

    /// Declares a stack slot, for the stack loads, stores and addresses of
    /// this function.
    pub fn create_stack_slot(&mut self, data: StackSlotData) -> (r: StackSlot)
        requires
            old(self)@.stack_slots.len() < u32::MAX,
        ensures
            r.position() == old(self)@.stack_slots.len(),
            final(self)@ == old(self)@.declare(Declaration::StackSlot(data)),
    {
        self.stack_slots.push(data)
    }

    /// Sets the stack limit and returns the one that was set before.
    /// Whether the handle is one of this function's global variables is not
    /// looked at.
    pub fn set_stack_limit(&mut self, stack_limit: Option<GlobalVar>) -> (r: Option<GlobalVar>)
        ensures
            r == old(self)@.stack_limit,
            final(self)@ == old(self)@.with_stack_limit(stack_limit),
    {
        let prev = self.stack_limit;
        self.stack_limit = stack_limit;
        prev
    }

    /// Adds a signature, to which an imported function or an indirect call
    /// can refer.
    pub fn import_signature(&mut self, signature: Signature) -> (r: SigRef)
        requires
            old(self)@.dfg.signatures.len() < u32::MAX,
        ensures
            r.position() == old(self)@.dfg.signatures.len(),
            final(self)@ == old(self)@.declare(Declaration::Signature(signature@)),
    {
        self.dfg.import_signature(signature)
    }

    /// Declares an imported function.
    pub fn import_function(&mut self, data: ExtFuncData) -> (r: FuncRef)
        requires
            old(self)@.dfg.ext_funcs.len() < u32::MAX,
        ensures
            r.position() == old(self)@.dfg.ext_funcs.len(),
            final(self)@ == old(self)@.declare(Declaration::Function(data)),
    {
        self.dfg.import_function(data)
    }

    /// Declares a global variable.
    pub fn create_global_var(&mut self, data: GlobalVarData) -> (r: GlobalVar)
        requires
            old(self)@.global_vars.len() < u32::MAX,
        ensures
            r.position() == old(self)@.global_vars.len(),
            final(self)@ == old(self)@.declare(Declaration::GlobalVar(data)),
    {
        self.global_vars.push(data)
    }

    /// Declares a heap.
    pub fn create_heap(&mut self, data: HeapData) -> (r: Heap)
        requires
            old(self)@.heaps.len() < u32::MAX,
        ensures
            r.position() == old(self)@.heaps.len(),
            final(self)@ == old(self)@.declare(Declaration::Heap(data)),
    {
        self.heaps.push(data)
    }

    /// The value of the parameter that serves `purpose`: of the last such
    /// parameter of the signature, if there are several; none if there is
    /// none.
    pub fn special_param(&self, purpose: ArgumentPurpose) -> (r: Option<Value>)
        requires
            self@.has_special_param(purpose),
        ensures
            r == self@.special_param(purpose),
    {
        match self.layout.entry_block() {
            Some(entry) => {
                match self.signature.special_param_index(purpose) {
                    Some(i) => Some(self.dfg.ebb_params(entry)[i]),
                    None => None,
                }
            },
            None => None,
        }
    }

    /// Asks `isa` for the encoding of `inst`, and assigns it to `inst` if
    /// there is one. If there is none, the function stays as it is, and the
    /// target's advice is handed on.
    pub fn update_encoding<I: TargetIsa>(&mut self, inst: Inst, isa: &I) -> (r: Result<(), Legalize>)
        requires
            inst.position() < old(self)@.dfg.insts.len(),
        ensures
            r == old(self)@.encoding_applied(inst, isa.encoding_for(
                old(self)@,
                old(self)@.dfg.insts[inst.position() as int].data,
                old(self)@.dfg.insts[inst.position() as int].ctrl_typevar,
            )).1,
            final(self)@ == old(self)@.encoding_applied(inst, isa.encoding_for(
                old(self)@,
                old(self)@.dfg.insts[inst.position() as int].data,
                old(self)@.dfg.insts[inst.position() as int].ctrl_typevar,
            )).0,
            r.is_err() ==> final(self)@ == old(self)@,
    {
        let outcome = self.encode(inst, isa);
        self.apply_encoding(inst, outcome)
    }

    /// Takes the target's answer for `inst`: an encoding is assigned to
    /// `inst`; with advice instead of an encoding the function stays as it
    /// is, and the advice is handed on.
    pub fn apply_encoding(&mut self, inst: Inst, outcome: Result<Encoding, Legalize>) -> (r: Result<
        (),
        Legalize,
    >)
        ensures
            r == old(self)@.encoding_applied(inst, outcome).1,
            final(self)@ == old(self)@.encoding_applied(inst, outcome).0,
            outcome.is_err() ==> final(self)@ == old(self)@,
    {
        match outcome {
            Ok(e) => {
                self.encodings.set(inst, e);
                Ok(())
            },
            Err(action) => Err(action),
        }
    }

    /// The encoding that `isa` has for `inst`, or its advice on how to
    /// change `inst` so that it has one. The function does not change.
    pub fn encode<I: TargetIsa>(&self, inst: Inst, isa: &I) -> (r: Result<Encoding, Legalize>)
        requires
            inst.position() < self@.dfg.insts.len(),
        ensures
            r == isa.encoding_for(
                self@,
                self@.dfg.insts[inst.position() as int].data,
                self@.dfg.insts[inst.position() as int].ctrl_typevar,
            ),
    {
        isa.encode(self, self.dfg.inst_data(inst), self.dfg.ctrl_typevar(inst))
    }
}

impl FunctionView {
    /// The function and the result after the target's answer `outcome` for
    /// `inst` is taken.
    pub open spec fn encoding_applied(self, inst: Inst, outcome: Result<Encoding, Legalize>) -> (
        FunctionView,
        Result<(), Legalize>,
    ) {
        match outcome {
            Ok(e) => (
                FunctionView {
                    encodings: padded(self.encodings, inst.position() + 1, Encoding::illegal()).update(
                        inst.position() as int,
                        e,
                    ),
                    ..self
                },
                Ok(()),
            ),
            Err(action) => (self, Err(action)),
        }
    }
}

/// A handle stays good through any sequence of declarations: whatever a
/// handle into a declaration table names before, it names after, and no
/// table gets shorter.
pub proof fn lemma_declarations_keep_handles(f: FunctionView, ds: Seq<Declaration>, k: int)
    requires
        0 <= k <= ds.len(),
    ensures
        f.handles_kept_by(f.declare_all(ds, k)),
    decreases k,
{
    if k > 0 {
        lemma_declarations_keep_handles(f, ds, k - 1);
        let mid = f.declare_all(ds, k - 1);
        assert(mid.handles_kept_by(mid.declare(ds[k - 1])));
    }
}

/// The handle that a declaration returns names what was declared: the new
/// entity stands at the position that was the length of its table, and the
/// table is one longer.
pub proof fn lemma_declaration_is_found(f: FunctionView, d: Declaration)
    ensures
        f.declare(d).declared(d) == f.declared(d) + 1,
        match d {
            Declaration::JumpTable(data) => f.declare(d).jump_tables[f.declared(d) as int] == data,
            Declaration::StackSlot(data) => f.declare(d).stack_slots[f.declared(d) as int] == data,
            Declaration::GlobalVar(data) => f.declare(d).global_vars[f.declared(d) as int] == data,
            Declaration::Heap(data) => f.declare(d).heaps[f.declared(d) as int] == data,
            Declaration::Signature(data) => f.declare(d).dfg.signatures[f.declared(d) as int]
                == data,
            Declaration::Function(data) => f.declare(d).dfg.ext_funcs[f.declared(d) as int] == data,
        },
{
}

/// The length of every declaration table is the same or greater after any
/// sequence of declarations, and is 0 after the function is cleared.
pub proof fn lemma_table_lengths(f: FunctionView, ds: Seq<Declaration>, d: Declaration)
    ensures
        f.declared(d) <= f.declare_all(ds, ds.len() as int).declared(d),
        f.cleared().declared(d) == 0,
{
    lemma_declarations_keep_handles(f, ds, ds.len() as int);
}

/// Setting an entry of a jump table is read back at that entry. The table
/// keeps its length, every other entry of it stays as it was, and so does
/// every other jump table.
pub proof fn lemma_jump_table_roundtrip(
    f: FunctionView,
    jt: JumpTable,
    index: int,
    ebb: Ebb,
    other_jt: JumpTable,
    other_index: int,
)
    requires
        jt.position() < f.jump_tables.len(),
        0 <= index < f.jump_tables[jt.position() as int].len(),
        other_jt.position() < f.jump_tables.len(),
        0 <= other_index < f.jump_tables[other_jt.position() as int].len(),
    ensures
        f.with_jump_table_entry(jt, index, ebb).jump_table_entry(jt, index) == Some(ebb),
        f.with_jump_table_entry(jt, index, ebb).jump_tables.len() == f.jump_tables.len(),
        f.with_jump_table_entry(jt, index, ebb).jump_tables[other_jt.position() as int].len()
            == f.jump_tables[other_jt.position() as int].len(),
        (other_jt != jt || other_index != index) ==> f.with_jump_table_entry(
            jt,
            index,
            ebb,
        ).jump_table_entry(other_jt, other_index) == f.jump_table_entry(other_jt, other_index),
{
    if other_jt != jt {
        if other_jt.position() == jt.position() {
            JumpTable::position_determines(other_jt, jt);
        }
    }
}

/// Setting the stack limit hands back the limit set before: after a first
/// limit is set, setting a second returns the first, and taking the limit
/// away after that returns the second.
pub proof fn lemma_stack_limit_swap(f: FunctionView, first: GlobalVar, second: GlobalVar)
    ensures
        f.with_stack_limit(Some(first)).stack_limit == Some(first),
        f.with_stack_limit(Some(first)).with_stack_limit(Some(second)).stack_limit == Some(second),
        f.with_stack_limit(Some(first)).with_stack_limit(Some(second)).with_stack_limit(None)
            == f.with_stack_limit(None),
{
}

/// A stack limit that is one of the function's global variables stays one:
/// a fresh and a cleared function have none, a declaration keeps the one
/// that is set, and a new one is as good as the handle that the caller
/// gives.
pub proof fn lemma_stack_limit_stays_declared(f: FunctionView, d: Declaration, limit: Option<GlobalVar>)
    ensures
        FunctionView::fresh().stack_limit_is_declared(),
        f.cleared().stack_limit_is_declared(),
        f.stack_limit_is_declared() ==> f.declare(d).stack_limit_is_declared(),
        f.with_stack_limit(limit).stack_limit_is_declared() <==> (match limit {
            Some(gv) => gv.position() < f.global_vars.len(),
            None => true,
        }),
{
}

/// An instruction that the target cannot encode keeps the encoding that it
/// has: with advice in place of an encoding the function stays as it is, so
/// an instruction without encoding is still without one.
pub proof fn lemma_failed_encoding_changes_nothing(f: FunctionView, inst: Inst, advice: Legalize)
    ensures
        f.encoding_applied(inst, Err(advice)) == (f, Err::<(), Legalize>(advice)),
        f.encoding_applied(inst, Err(advice)).0.encoding_of(inst) == f.encoding_of(inst),
        f.encoding_of(inst) == Encoding::illegal() ==> f.encoding_applied(
            inst,
            Err(advice),
        ).0.encoding_of(inst) == Encoding::illegal(),
{
}

/// An encoding that the target gives is the encoding that the instruction
/// has afterwards, and no other instruction changes its encoding.
pub proof fn lemma_encoding_is_assigned(f: FunctionView, inst: Inst, enc: Encoding, other: Inst)
    ensures
        f.encoding_applied(inst, Ok(enc)).0.encoding_of(inst) == enc,
        other != inst ==> f.encoding_applied(inst, Ok(enc)).0.encoding_of(other) == f.encoding_of(
            other,
        ),
{
    crate::entity::lemma_set_then_get::<Inst, Encoding>(f.encodings, inst, enc, other);
}

/// A cleared function is a fresh function under the old name: every table
/// is empty, there is no stack limit, and the signature has no parameters,
/// no results and the fast calling convention.
pub proof fn lemma_cleared_is_fresh(f: FunctionView)
    ensures
        f.cleared() == (FunctionView { name: f.name, ..FunctionView::fresh() }),
        f.cleared().stack_limit.is_none(),
        f.cleared().signature.call_conv == CallConv::Fast,
        f.cleared().name == f.name,
{
}

impl Clone for Function {
    /// A function with the same name and signature in which every handle
    /// names an entity equal to the one that it names in this function.
    fn clone(&self) -> (r: Self)
        ensures
            r@ == self@,
    {
        let r = Function {
            name: self.name,
            signature: self.signature.clone(),
            stack_slots: self.stack_slots.clone(),
            stack_limit: self.stack_limit,
            global_vars: self.global_vars.clone(),
            heaps: self.heaps.clone(),
            jump_tables: self.jump_tables.clone(),
            dfg: self.dfg.clone(),
            layout: self.layout.clone(),
            encodings: self.encodings.clone(),
            locations: self.locations.clone(),
            offsets: self.offsets.clone(),
            srclocs: self.srclocs.clone(),
        };
        assert(r@.stack_slots =~= self@.stack_slots);
        assert(r@.global_vars =~= self@.global_vars);
        assert(r@.heaps =~= self@.heaps);
        assert(r@.jump_tables =~= self@.jump_tables);
        r
    }
}

/// Where an iteration over a block's instructions stands, as plain values.
pub struct InstOffsetIterView {
    /// The sizes of the target's recipes.
    pub sizes: EncInfoView,
    /// The encodings of the function's instructions.
    pub encodings: Seq<Encoding>,
    /// The code offset of the next instruction.
    pub offset: CodeOffset,
    /// The instructions that are still to come, in program order.
    pub insts: Seq<Inst>,
}

impl InstOffsetIterView {
    /// The size in bytes of `inst`: nothing if it has no encoding.
    pub open spec fn size_of(self, inst: Inst) -> CodeOffset {
        self.sizes.bytes(value_at(self.encodings, inst))
    }

    /// The code offset of the instruction `k` places from here: the offset
    /// here and the sizes of the `k` instructions before it.
    pub open spec fn offset_at(self, k: int) -> int
        decreases k,
    {
        if k <= 0 {
            self.offset as int
        } else {
            self.offset_at(k - 1) + self.size_of(self.insts[k - 1])
        }
    }

    /// What the iteration gives for the instruction `k` places from here:
    /// its offset, the instruction, and its size.
    pub open spec fn item(self, k: int) -> (CodeOffset, Inst, CodeOffset) {
        (self.offset_at(k) as CodeOffset, self.insts[k], self.size_of(self.insts[k]))
    }

    /// Everything that the iteration still gives, in order.
    pub open spec fn items(self) -> Seq<(CodeOffset, Inst, CodeOffset)> {
        Seq::new(self.insts.len(), |k: int| self.item(k))
    }

    /// Whether the offset after the last instruction is a code offset.
    pub open spec fn fits(self) -> bool {
        self.offset_at(self.insts.len() as int) <= u32::MAX
    }

    /// The iteration after one step.
    pub open spec fn advanced(self) -> InstOffsetIterView
        recommends
            self.insts.len() > 0,
    {
        InstOffsetIterView {
            offset: (self.offset + self.size_of(self.insts[0])) as CodeOffset,
            insts: self.insts.subrange(1, self.insts.len() as int),
            ..self
        }
    }

    /// A step moves every later instruction one place nearer and leaves its
    /// offset where it was.
    pub proof fn lemma_advanced_offset_at(self, k: int)
        requires
            self.insts.len() > 0,
            0 <= k < self.insts.len(),
            self.offset + self.size_of(self.insts[0]) <= u32::MAX,
        ensures
            self.advanced().offset_at(k) == self.offset_at(k + 1),
        decreases k,
    {
        if k > 0 {
            self.lemma_advanced_offset_at(k - 1);
            assert(self.advanced().insts[k - 1] == self.insts[k]);
        } else {
            assert(self.offset_at(1) == self.offset_at(0) + self.size_of(self.insts[0]));
        }
    }

    /// What an iteration gives is its first item and then what the
    /// iteration after one step gives.
    pub proof fn lemma_items_after_step(self)
        requires
            self.insts.len() > 0,
            self.offset + self.size_of(self.insts[0]) <= u32::MAX,
        ensures
            self.items() == seq![self.item(0)] + self.advanced().items(),
    {
        let rest = self.advanced();
        assert forall|k: int| 0 <= k < rest.insts.len() implies rest.item(k) == self.item(k + 1) by {
            self.lemma_advanced_offset_at(k);
        }
        assert(self.items() =~= seq![self.item(0)] + rest.items());
    }

    /// Offsets never go down from one instruction to the next.
    pub proof fn lemma_offset_at_grows(self, j: int, k: int)
        requires
            0 <= j <= k,
        ensures
            self.offset_at(j) <= self.offset_at(k),
        decreases k - j,
    {
        if j < k {
            self.lemma_offset_at_grows(j, k - 1);
        }
    }
}

/// Goes through the instructions of one block and gives, for each, its code
/// offset, the instruction, and its size in bytes.
pub struct InstOffsetIter<'a> {
    encinfo: EncInfo,
    encodings: &'a InstEncodings,
    offset: CodeOffset,
    iter: &'a [Inst],
}

impl<'a> View for InstOffsetIter<'a> {
    type V = InstOffsetIterView;

    closed spec fn view(&self) -> InstOffsetIterView {
        InstOffsetIterView {
            sizes: self.encinfo@,
            encodings: self.encodings@,
            offset: self.offset,
            insts: self.iter@,
        }
    }
}

impl<'a> InstOffsetIter<'a> {
    /// The code offset of the next instruction.
    pub fn offset(&self) -> (r: CodeOffset)
        ensures
            r == self@.offset,
    {
        self.offset
    }

    /// The instructions that are still to come, in program order.
    pub fn remaining(&self) -> (r: &[Inst])
        ensures
            r@ == self@.insts,
    {
        self.iter
    }

    /// The size in bytes of `inst`: nothing if it has no encoding.
    pub fn size_of(&self, inst: Inst) -> (r: CodeOffset)
        ensures
            r == self@.size_of(inst),
    {
        self.encinfo.bytes(self.encodings.get(inst))
    }

    /// The next instruction with its offset and size, if one is left. The
    /// offset of the instruction after it is this one's offset and size.
    pub fn next(&mut self) -> (r: Option<(CodeOffset, Inst, CodeOffset)>)
        requires
            old(self)@.insts.len() > 0 ==> old(self)@.offset + old(self)@.size_of(old(self)@.insts[0])
                <= u32::MAX,
        ensures
            old(self)@.insts.len() == 0 ==> r.is_none() && final(self)@ == old(self)@,
            old(self)@.insts.len() > 0 ==> r == Some(old(self)@.item(0)) && final(self)@ == old(
                self,
            )@.advanced(),
    {
        if self.iter.len() == 0 {
            None
        } else {
            let inst = self.iter[0];
            let size = self.encinfo.bytes(self.encodings.get(inst));
            let offset = self.offset;
            self.offset = offset + size;
            self.iter = vstd::slice::slice_subrange(self.iter, 1, self.iter.len());
            Some((offset, inst, size))
        }
    }

    /// Everything that is left, in order. Nothing is left afterwards.
    pub fn collect(self) -> (r: Vec<(CodeOffset, Inst, CodeOffset)>)
        requires
            self@.fits(),
        ensures
            r@ == self@.items(),
    {
        let ghost start = self@;
        let mut it = self;
        let mut out: Vec<(CodeOffset, Inst, CodeOffset)> = Vec::new();
        let mut done = false;
        while !done
            invariant
                out@.len() + it@.insts.len() == start.insts.len(),
                it@.sizes == start.sizes,
                it@.encodings == start.encodings,
                it@.insts == start.insts.subrange(out@.len() as int, start.insts.len() as int),
                it@.offset == start.offset_at(out@.len() as int),
                forall|k: int| 0 <= k < out@.len() ==> out@[k] == start.item(k),
                start.fits(),
                done ==> it@.insts.len() == 0,
            decreases it@.insts.len() + (if done { 0int } else { 1int }),
        {
            let ghost before = it@;
            let ghost n = out@.len() as int;
            proof {
                if before.insts.len() > 0 {
                    assert(before.insts[0] == start.insts[n]);
                    assert(start.offset_at(n + 1) == start.offset_at(n) + start.size_of(
                        start.insts[n],
                    ));
                    start.lemma_offset_at_grows(n + 1, start.insts.len() as int);
                }
            }
            match it.next() {
                Some(item) => {
                    out.push(item);
                    proof {
                        assert(it@.insts =~= start.insts.subrange(n + 1, start.insts.len() as int));
                    }
                },
                None => {
                    done = true;
                },
            }
        }
        assert(out@ =~= start.items());
        out
    }
}

impl Function {
    /// Goes through the instructions of `ebb`, with the offset and the size
    /// of each: the first stands at the offset of the block, each later one
    /// where the one before it ends. An instruction without encoding has
    /// the size 0.
    ///
    /// The offsets of the blocks must have been computed.
    pub fn inst_offsets<'a>(&'a self, ebb: Ebb, encinfo: &EncInfo) -> (r: InstOffsetIter<'a>)
        requires
            self@.offsets.len() > 0,
        ensures
            r@ == (InstOffsetIterView {
                sizes: encinfo@,
                encodings: self@.encodings,
                offset: value_at(self@.offsets, ebb),
                insts: insts_of(self@.layout, ebb),
            }),
    {
        InstOffsetIter {
            encinfo: encinfo.clone(),
            encodings: &self.encodings,
            offset: self.offsets.get(ebb),
            iter: self.layout.ebb_insts(ebb),
        }
    }
}

} // verus!
