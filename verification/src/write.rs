//! The text of a function, for people to read.
//!
//! The text is made of a header line with the function's name and calling
//! convention, one line for each stack slot, global variable, heap and jump
//! table of the preamble, the blocks in program order with one line for each
//! instruction, and a closing brace. Once an instruction has been encoded,
//! each instruction line begins with the instruction's encoding in square
//! brackets. Given a target, a recipe is written by the name that the target
//! has for it, otherwise by its number.

use vstd::prelude::*;
use vstd::string::*;
use crate::decls::{ExternalName, GlobalVarData, HeapBase, HeapData, HeapStyle, StackSlotData, StackSlotKind};
use crate::dfg::DataFlowGraphView;
use crate::entities::{Ebb, EntityRef, Inst, Value};
use crate::function::{Function, FunctionView};
use crate::isa::{Encoding, TargetIsa};
use crate::layout::{EbbNode, EbbOrder};
use crate::signature::CallConv;

verus! {

/// The character for the digit `d`.
pub open spec fn digit(d: nat) -> char {
    if d == 0 {
        '0'
    } else if d == 1 {
        '1'
    } else if d == 2 {
        '2'
    } else if d == 3 {
        '3'
    } else if d == 4 {
        '4'
    } else if d == 5 {
        '5'
    } else if d == 6 {
        '6'
    } else if d == 7 {
        '7'
    } else if d == 8 {
        '8'
    } else {
        '9'
    }
}

/// `n` in decimal, without leading zeros.
pub open spec fn decimal(n: nat) -> Seq<char>
    decreases n,
{
    if n < 10 {
        seq![digit(n)]
    } else {
        decimal(n / 10) + seq![digit(n % 10)]
    }
}

/// `i` in decimal, with a minus sign if it is negative.
pub open spec fn signed_decimal(i: int) -> Seq<char> {
    if i < 0 {
        "-"@ + decimal((-i) as nat)
    } else {
        decimal(i as nat)
    }
}

/// The name of a function or symbol.
pub open spec fn name_text(name: ExternalName) -> Seq<char> {
    "u"@ + decimal(name.namespace as nat) + ":"@ + decimal(name.index as nat)
}

/// The name of a calling convention.
pub open spec fn call_conv_text(cc: CallConv) -> Seq<char> {
    match cc {
        CallConv::Fast => "fast"@,
        CallConv::SystemV => "system_v"@,
        CallConv::Fastcall => "fastcall"@,
        CallConv::Baldrdash => "baldrdash"@,
        CallConv::Probestack => "probestack"@,
    }
}

/// The name of a kind of stack slot.
pub open spec fn stack_slot_kind_text(kind: StackSlotKind) -> Seq<char> {
    match kind {
        StackSlotKind::SpillSlot => "spill_slot"@,
        StackSlotKind::ExplicitSlot => "explicit_slot"@,
        StackSlotKind::IncomingArg => "incoming_arg"@,
        StackSlotKind::OutgoingArg => "outgoing_arg"@,
        StackSlotKind::EmergencySlot => "emergency_slot"@,
    }
}

/// The line that declares the stack slot at position `i`.
pub open spec fn stack_slot_line(i: nat, data: StackSlotData) -> Seq<char> {
    "    ss"@ + decimal(i) + " = "@ + stack_slot_kind_text(data.kind) + " "@ + decimal(
        data.size as nat,
    ) + "\n"@
}

/// What a global variable is, after the equals sign of its line.
pub open spec fn global_var_text(data: GlobalVarData) -> Seq<char> {
    match data {
        GlobalVarData::VMContext { offset } => "vmctx "@ + signed_decimal(offset as int),
        GlobalVarData::Deref { base, offset } => "deref gv"@ + decimal(base.position()) + " "@
            + signed_decimal(offset as int),
        GlobalVarData::Sym { name, colocated } => (if colocated {
            "sym colocated "@
        } else {
            "sym "@
        }) + name_text(name),
    }
}

/// The line that declares the global variable at position `i`.
pub open spec fn global_var_line(i: nat, data: GlobalVarData) -> Seq<char> {
    "    gv"@ + decimal(i) + " = "@ + global_var_text(data) + "\n"@
}

/// Where a heap begins.
pub open spec fn heap_base_text(base: HeapBase) -> Seq<char> {
    match base {
        HeapBase::ReservedReg => "reserved_reg"@,
        HeapBase::GlobalVar(gv) => "gv"@ + decimal(gv.position()),
    }
}

/// How a heap is bounded.
pub open spec fn heap_style_text(style: HeapStyle) -> Seq<char> {
    match style {
        HeapStyle::Dynamic { bound_gv } => "dynamic gv"@ + decimal(bound_gv.position()),
        HeapStyle::Static { bound } => "static "@ + decimal(bound as nat),
    }
}

/// The line that declares the heap at position `i`.
pub open spec fn heap_line(i: nat, data: HeapData) -> Seq<char> {
    "    heap"@ + decimal(i) + " = "@ + heap_style_text(data.style) + " "@ + heap_base_text(
        data.base,
    ) + " min "@ + decimal(data.min_size as nat) + " guard "@ + decimal(data.guard_size as nat)
        + "\n"@
}

/// One entry of a jump table: the block, or `0` for a placeholder.
pub open spec fn jump_table_entry_text(entry: Option<Ebb>) -> Seq<char> {
    match entry {
        Some(ebb) => " ebb"@ + decimal(ebb.position()),
        None => " 0"@,
    }
}

/// The first `k` entries of a jump table, each after a space.
pub open spec fn jump_table_entries_text(entries: Seq<Option<Ebb>>, k: int) -> Seq<char>
    decreases k,
{
    if k <= 0 {
        Seq::empty()
    } else {
        jump_table_entries_text(entries, k - 1) + jump_table_entry_text(entries[k - 1])
    }
}

/// The line that declares the jump table at position `i`.
pub open spec fn jump_table_line(i: nat, entries: Seq<Option<Ebb>>) -> Seq<char> {
    "    jt"@ + decimal(i) + " = jump_table"@ + jump_table_entries_text(
        entries,
        entries.len() as int,
    ) + "\n"@
}

/// The lines of the first `k` stack slots.
pub open spec fn stack_slot_lines(slots: Seq<StackSlotData>, k: int) -> Seq<char>
    decreases k,
{
    if k <= 0 {
        Seq::empty()
    } else {
        stack_slot_lines(slots, k - 1) + stack_slot_line((k - 1) as nat, slots[k - 1])
    }
}

/// The lines of the first `k` global variables.
pub open spec fn global_var_lines(vars: Seq<GlobalVarData>, k: int) -> Seq<char>
    decreases k,
{
    if k <= 0 {
        Seq::empty()
    } else {
        global_var_lines(vars, k - 1) + global_var_line((k - 1) as nat, vars[k - 1])
    }
}

/// The lines of the first `k` heaps.
pub open spec fn heap_lines(heaps: Seq<HeapData>, k: int) -> Seq<char>
    decreases k,
{
    if k <= 0 {
        Seq::empty()
    } else {
        heap_lines(heaps, k - 1) + heap_line((k - 1) as nat, heaps[k - 1])
    }
}

/// The lines of the first `k` jump tables.
pub open spec fn jump_table_lines(tables: Seq<Seq<Option<Ebb>>>, k: int) -> Seq<char>
    decreases k,
{
    if k <= 0 {
        Seq::empty()
    } else {
        jump_table_lines(tables, k - 1) + jump_table_line((k - 1) as nat, tables[k - 1])
    }
}

/// A recipe: by the name that the target has for it, or by its number.
pub open spec fn recipe_text(names: Option<Seq<Seq<char>>>, recipe: u16) -> Seq<char> {
    match names {
        Some(names) => if recipe < names.len() {
            names[recipe as int]
        } else {
            decimal(recipe as nat)
        },
        None => decimal(recipe as nat),
    }
}

/// An encoding: a dash for none, else the recipe, a hash sign and the bits.
pub open spec fn encoding_text(names: Option<Seq<Seq<char>>>, enc: Encoding) -> Seq<char> {
    if enc.legal() {
        recipe_text(names, enc.recipe) + "#"@ + decimal(enc.bits as nat)
    } else {
        "-"@
    }
}

/// What stands before an instruction: nothing as long as no instruction of
/// the function is encoded, then the instruction's encoding in brackets.
pub open spec fn annotation_text(func: FunctionView, names: Option<Seq<Seq<char>>>, inst: Inst) -> Seq<
    char,
> {
    if func.encodings.len() == 0 {
        Seq::empty()
    } else {
        "["@ + encoding_text(names, func.encoding_of(inst)) + "] "@
    }
}

/// What an instruction does: its operation and its immediate operand. An
/// instruction that the graph does not know is written as `invalid`.
pub open spec fn operation_text(dfg: DataFlowGraphView, inst: Inst) -> Seq<char> {
    if inst.position() < dfg.insts.len() {
        "op"@ + decimal(dfg.insts[inst.position() as int].data.opcode.0 as nat) + " "@
            + signed_decimal(dfg.insts[inst.position() as int].data.imm as int)
    } else {
        "invalid"@
    }
}

/// One instruction: its encoding, if encodings are shown, and what it does.
pub open spec fn inst_text(func: FunctionView, names: Option<Seq<Seq<char>>>, inst: Inst) -> Seq<
    char,
> {
    annotation_text(func, names, inst) + operation_text(func.dfg, inst)
}

/// The line of one instruction in the body of a function.
pub open spec fn inst_line(func: FunctionView, names: Option<Seq<Seq<char>>>, inst: Inst) -> Seq<
    char,
> {
    "    inst"@ + decimal(inst.position()) + ": "@ + inst_text(func, names, inst) + "\n"@
}

/// The lines of the first `k` of `insts`.
pub open spec fn inst_lines(
    func: FunctionView,
    names: Option<Seq<Seq<char>>>,
    insts: Seq<Inst>,
    k: int,
) -> Seq<char>
    decreases k,
{
    if k <= 0 {
        Seq::empty()
    } else {
        inst_lines(func, names, insts, k - 1) + inst_line(func, names, insts[k - 1])
    }
}

/// The first `k` parameters of a block, each after a space.
pub open spec fn params_text(params: Seq<Value>, k: int) -> Seq<char>
    decreases k,
{
    if k <= 0 {
        Seq::empty()
    } else {
        params_text(params, k - 1) + " v"@ + decimal(params[k - 1].position())
    }
}

/// The parameters of `ebb`; none for a block that the graph does not know.
pub open spec fn ebb_params_of(dfg: DataFlowGraphView, ebb: Ebb) -> Seq<Value> {
    if ebb.position() < dfg.ebb_params.len() {
        dfg.ebb_params[ebb.position() as int]
    } else {
        Seq::empty()
    }
}

/// One block: a line with its name and parameters, then its instructions.
pub open spec fn block_text(func: FunctionView, names: Option<Seq<Seq<char>>>, block: EbbOrder) -> Seq<
    char,
> {
    "ebb"@ + decimal(block.ebb.position()) + params_text(
        ebb_params_of(func.dfg, block.ebb),
        ebb_params_of(func.dfg, block.ebb).len() as int,
    ) + ":\n"@ + inst_lines(func, names, block.insts, block.insts.len() as int)
}

/// The first `k` blocks of the layout.
pub open spec fn blocks_text(func: FunctionView, names: Option<Seq<Seq<char>>>, k: int) -> Seq<char>
    decreases k,
{
    if k <= 0 {
        Seq::empty()
    } else {
        blocks_text(func, names, k - 1) + block_text(func, names, func.layout[k - 1])
    }
}

/// The first line of a function's text.
pub open spec fn header_text(func: FunctionView) -> Seq<char> {
    "function "@ + name_text(func.name) + " "@ + call_conv_text(func.signature.call_conv) + " {\n"@
}

/// What the preamble declares, a line each.
pub open spec fn preamble_text(func: FunctionView) -> Seq<char> {
    stack_slot_lines(func.stack_slots, func.stack_slots.len() as int) + global_var_lines(
        func.global_vars,
        func.global_vars.len() as int,
    ) + heap_lines(func.heaps, func.heaps.len() as int) + jump_table_lines(
        func.jump_tables,
        func.jump_tables.len() as int,
    )
}

/// The text of a function. With `names`, recipes are written by name.
pub open spec fn function_text(func: FunctionView, names: Option<Seq<Seq<char>>>) -> Seq<char> {
    header_text(func) + preamble_text(func) + blocks_text(func, names, func.layout.len() as int)
        + "}\n"@
}

/// The names that a target has for its recipes; none without a target.
pub open spec fn recipe_names<I: TargetIsa>(isa: Option<&I>) -> Option<Seq<Seq<char>>> {
    match isa {
        Some(isa) => Some(isa.recipes().names),
        None => None,
    }
}

fn digit_str(d: u64) -> (r: &'static str)
    requires
        d < 10,
    ensures
        r@ == seq![digit(d as nat)],
{
    proof {
        reveal_strlit("0");
        reveal_strlit("1");
        reveal_strlit("2");
        reveal_strlit("3");
        reveal_strlit("4");
        reveal_strlit("5");
        reveal_strlit("6");
        reveal_strlit("7");
        reveal_strlit("8");
        reveal_strlit("9");
    }
    let r = if d == 0 {
        "0"
    } else if d == 1 {
        "1"
    } else if d == 2 {
        "2"
    } else if d == 3 {
        "3"
    } else if d == 4 {
        "4"
    } else if d == 5 {
        "5"
    } else if d == 6 {
        "6"
    } else if d == 7 {
        "7"
    } else if d == 8 {
        "8"
    } else {
        "9"
    };
    assert(r@ =~= seq![digit(d as nat)]);
    r
}

/// Appends `n` in decimal.
pub fn write_decimal(out: &mut String, n: u64)
    ensures
        final(out)@ == old(out)@ + decimal(n as nat),
    decreases n,
{
    if n >= 10 {
        write_decimal(out, n / 10);
    }
    out.append(digit_str(n % 10));
    assert(out@ =~= old(out)@ + decimal(n as nat));
}

/// Appends `n` in decimal, with a minus sign if it is negative.
pub fn write_signed(out: &mut String, n: i64)
    ensures
        final(out)@ == old(out)@ + signed_decimal(n as int),
{
    if n < 0 {
        out.append("-");
        let below: u64 = (-(n + 1)) as u64;
        write_decimal(out, below + 1);
    } else {
        write_decimal(out, n as u64);
    }
    assert(out@ =~= old(out)@ + signed_decimal(n as int));
}

/// Appends `prefix` and the number `n`: the name of an entity.
fn write_entity(out: &mut String, prefix: &str, n: usize)
    ensures
        final(out)@ == old(out)@ + prefix@ + decimal(n as nat),
{
    out.append(prefix);
    write_decimal(out, n as u64);
}

fn write_name(out: &mut String, name: ExternalName)
    ensures
        final(out)@ == old(out)@ + name_text(name),
{
    out.append("u");
    write_decimal(out, name.namespace as u64);
    out.append(":");
    write_decimal(out, name.index as u64);
    assert(out@ =~= old(out)@ + name_text(name));
}

fn call_conv_str(cc: CallConv) -> (r: &'static str)
    ensures
        r@ == call_conv_text(cc),
{
    match cc {
        CallConv::Fast => "fast",
        CallConv::SystemV => "system_v",
        CallConv::Fastcall => "fastcall",
        CallConv::Baldrdash => "baldrdash",
        CallConv::Probestack => "probestack",
    }
}

fn stack_slot_kind_str(kind: StackSlotKind) -> (r: &'static str)
    ensures
        r@ == stack_slot_kind_text(kind),
{
    match kind {
        StackSlotKind::SpillSlot => "spill_slot",
        StackSlotKind::ExplicitSlot => "explicit_slot",
        StackSlotKind::IncomingArg => "incoming_arg",
        StackSlotKind::OutgoingArg => "outgoing_arg",
        StackSlotKind::EmergencySlot => "emergency_slot",
    }
}

fn write_stack_slot_line(out: &mut String, i: usize, data: StackSlotData)
    ensures
        final(out)@ == old(out)@ + stack_slot_line(i as nat, data),
{
    write_entity(out, "    ss", i);
    out.append(" = ");
    out.append(stack_slot_kind_str(data.kind));
    out.append(" ");
    write_decimal(out, data.size as u64);
    out.append("\n");
    assert(out@ =~= old(out)@ + stack_slot_line(i as nat, data));
}

fn write_global_var_line(out: &mut String, i: usize, data: GlobalVarData)
    ensures
        final(out)@ == old(out)@ + global_var_line(i as nat, data),
{
    write_entity(out, "    gv", i);
    out.append(" = ");
    let ghost mid = out@;
    match data {
        GlobalVarData::VMContext { offset } => {
            out.append("vmctx ");
            write_signed(out, offset as i64);
        },
        GlobalVarData::Deref { base, offset } => {
            write_entity(out, "deref gv", base.index());
            out.append(" ");
            write_signed(out, offset as i64);
        },
        GlobalVarData::Sym { name, colocated } => {
            if colocated {
                out.append("sym colocated ");
            } else {
                out.append("sym ");
            }
            write_name(out, name);
        },
    }
    assert(out@ =~= mid + global_var_text(data));
    out.append("\n");
    assert(out@ =~= old(out)@ + global_var_line(i as nat, data));
}

fn write_heap_line(out: &mut String, i: usize, data: HeapData)
    ensures
        final(out)@ == old(out)@ + heap_line(i as nat, data),
{
    write_entity(out, "    heap", i);
    out.append(" = ");
    let ghost mid = out@;
    match data.style {
        HeapStyle::Dynamic { bound_gv } => {
            write_entity(out, "dynamic gv", bound_gv.index());
        },
        HeapStyle::Static { bound } => {
            out.append("static ");
            write_decimal(out, bound);
        },
    }
    assert(out@ =~= mid + heap_style_text(data.style));
    out.append(" ");
    let ghost mid2 = out@;
    match data.base {
        HeapBase::ReservedReg => {
            out.append("reserved_reg");
        },
        HeapBase::GlobalVar(gv) => {
            write_entity(out, "gv", gv.index());
        },
    }
    assert(out@ =~= mid2 + heap_base_text(data.base));
    out.append(" min ");
    write_decimal(out, data.min_size);
    out.append(" guard ");
    write_decimal(out, data.guard_size);
    out.append("\n");
    assert(out@ =~= old(out)@ + heap_line(i as nat, data));
}

fn write_jump_table_line(out: &mut String, i: usize, table: &crate::jumptable::JumpTableData)
    ensures
        final(out)@ == old(out)@ + jump_table_line(i as nat, table@),
{
    write_entity(out, "    jt", i);
    out.append(" = jump_table");
    let ghost mid = out@;
    let mut k: usize = 0;
    while k < table.len()
        invariant
            k <= table@.len(),
            out@ == mid + jump_table_entries_text(table@, k as int),
        decreases table@.len() - k,
    {
        let ghost before = out@;
        match table.get_entry(k) {
            Some(ebb) => {
                write_entity(out, " ebb", ebb.index());
            },
            None => {
                out.append(" 0");
            },
        }
        assert(out@ =~= before + jump_table_entry_text(table@[k as int]));
        k = k + 1;
        assert(out@ =~= mid + jump_table_entries_text(table@, k as int));
    }
    out.append("\n");
    assert(out@ =~= old(out)@ + jump_table_line(i as nat, table@));
}

fn write_preamble(out: &mut String, func: &Function)
    ensures
        final(out)@ == old(out)@ + preamble_text(func@),
{
    let slots = func.stack_slots.values();
    let mut i: usize = 0;
    while i < slots.len()
        invariant
            i <= slots@.len(),
            slots@ == func@.stack_slots,
            out@ == old(out)@ + stack_slot_lines(func@.stack_slots, i as int),
        decreases slots@.len() - i,
    {
        write_stack_slot_line(out, i, slots[i]);
        i = i + 1;
        assert(out@ =~= old(out)@ + stack_slot_lines(func@.stack_slots, i as int));
    }
    let ghost after_slots = out@;
    let vars = func.global_vars.values();
    let mut i: usize = 0;
    while i < vars.len()
        invariant
            i <= vars@.len(),
            vars@ == func@.global_vars,
            out@ == after_slots + global_var_lines(func@.global_vars, i as int),
        decreases vars@.len() - i,
    {
        write_global_var_line(out, i, vars[i]);
        i = i + 1;
        assert(out@ =~= after_slots + global_var_lines(func@.global_vars, i as int));
    }
    let ghost after_vars = out@;
    let heaps = func.heaps.values();
    let mut i: usize = 0;
    while i < heaps.len()
        invariant
            i <= heaps@.len(),
            heaps@ == func@.heaps,
            out@ == after_vars + heap_lines(func@.heaps, i as int),
        decreases heaps@.len() - i,
    {
        write_heap_line(out, i, heaps[i]);
        i = i + 1;
        assert(out@ =~= after_vars + heap_lines(func@.heaps, i as int));
    }
    let ghost after_heaps = out@;
    let tables = func.jump_tables.values();
    let mut i: usize = 0;
    while i < tables.len()
        invariant
            i <= tables@.len(),
            tables@ == func.jump_tables@,
            out@ == after_heaps + jump_table_lines(func@.jump_tables, i as int),
        decreases tables@.len() - i,
    {
        write_jump_table_line(out, i, &tables[i]);
        i = i + 1;
        assert(out@ =~= after_heaps + jump_table_lines(func@.jump_tables, i as int));
    }
    assert(out@ =~= old(out)@ + preamble_text(func@));
}

fn write_encoding(out: &mut String, names: &Option<Vec<String>>, enc: Encoding)
    ensures
        final(out)@ == old(out)@ + encoding_text(names_view(names), enc),
{
    if enc.is_legal() {
        let ghost before = out@;
        let recipe = enc.recipe as usize;
        match names {
            Some(names) => {
                if recipe < names.len() {
                    out.append(names[recipe].as_str());
                } else {
                    write_decimal(out, recipe as u64);
                }
            },
            None => {
                write_decimal(out, recipe as u64);
            },
        }
        assert(out@ =~= before + recipe_text(names_view(names), enc.recipe));
        out.append("#");
        write_decimal(out, enc.bits as u64);
        assert(out@ =~= old(out)@ + encoding_text(names_view(names), enc));
    } else {
        out.append("-");
    }
}

/// Appends the text of `inst`: its encoding, if encodings are shown, and
/// what it does.
pub fn write_inst(out: &mut String, func: &Function, names: &Option<Vec<String>>, inst: Inst)
    ensures
        final(out)@ == old(out)@ + inst_text(func@, names_view(names), inst),
{
    if !func.encodings.is_empty() {
        out.append("[");
        write_encoding(out, names, func.encodings.get(inst));
        out.append("] ");
    }
    assert(out@ =~= old(out)@ + annotation_text(func@, names_view(names), inst));
    if func.dfg.inst_is_valid(inst) {
        let data = func.dfg.inst_data(inst);
        out.append("op");
        write_decimal(out, data.opcode.0 as u64);
        out.append(" ");
        write_signed(out, data.imm);
    } else {
        out.append("invalid");
    }
    assert(out@ =~= old(out)@ + inst_text(func@, names_view(names), inst));
}

fn write_block(out: &mut String, func: &Function, names: &Option<Vec<String>>, block: &EbbNode)
    ensures
        final(out)@ == old(out)@ + block_text(func@, names_view(names), block@),
{
    write_entity(out, "ebb", block.ebb.index());
    let ghost params = ebb_params_of(func@.dfg, block.ebb);
    let ghost mid = out@;
    if func.dfg.ebb_is_valid(block.ebb) {
        let params_now = func.dfg.ebb_params(block.ebb);
        let mut k: usize = 0;
        while k < params_now.len()
            invariant
                k <= params_now@.len(),
                params_now@ == params,
                out@ == mid + params_text(params, k as int),
            decreases params_now@.len() - k,
        {
            let ghost before = out@;
            write_entity(out, " v", params_now[k].index());
            k = k + 1;
            assert(out@ =~= mid + params_text(params, k as int));
        }
    }
    assert(out@ == mid + params_text(params, params.len() as int));
    out.append(":\n");
    let ghost mid2 = out@;
    let mut k: usize = 0;
    while k < block.insts.len()
        invariant
            k <= block.insts@.len(),
            out@ == mid2 + inst_lines(func@, names_view(names), block.insts@, k as int),
        decreases block.insts@.len() - k,
    {
        let ghost before = out@;
        let inst = block.insts[k];
        write_entity(out, "    inst", inst.index());
        out.append(": ");
        write_inst(out, func, names, inst);
        out.append("\n");
        assert(out@ =~= before + inst_line(func@, names_view(names), inst));
        k = k + 1;
        assert(out@ =~= mid2 + inst_lines(func@, names_view(names), block.insts@, k as int));
    }
    assert(out@ =~= old(out)@ + block_text(func@, names_view(names), block@));
}

/// The names of a target's recipes, as plain values; none without a target.
pub open spec fn names_view(names: &Option<Vec<String>>) -> Option<Seq<Seq<char>>> {
    match names {
        Some(names) => Some(names@.map_values(|s: String| s@)),
        None => None,
    }
}

/// Appends the text of `func`. With `names`, recipes are written by name.
pub fn write_function(out: &mut String, func: &Function, names: &Option<Vec<String>>)
    ensures
        final(out)@ == old(out)@ + function_text(func@, names_view(names)),
{
    out.append("function ");
    write_name(out, func.name);
    out.append(" ");
    out.append(call_conv_str(func.signature.call_conv));
    out.append(" {\n");
    assert(out@ =~= old(out)@ + header_text(func@));
    write_preamble(out, func);
    let ghost mid = out@;
    let blocks = func.layout.blocks();
    let mut k: usize = 0;
    while k < blocks.len()
        invariant
            k <= blocks@.len(),
            blocks@.map_values(|n: EbbNode| n@) == func@.layout,
            out@ == mid + blocks_text(func@, names_view(names), k as int),
        decreases blocks@.len() - k,
    {
        assert(func@.layout[k as int] == blocks@[k as int]@);
        write_block(out, func, names, &blocks[k]);
        k = k + 1;
        assert(out@ =~= mid + blocks_text(func@, names_view(names), k as int));
    }
    assert(func@.layout.len() == blocks@.len());
    out.append("}\n");
    assert(out@ =~= old(out)@ + function_text(func@, names_view(names)));
}

/// A function together with the target whose names its text is to use, if
/// there is one.
pub struct DisplayFunction<'a, I: TargetIsa>(pub &'a Function, pub Option<&'a I>);

/// The names of the recipes of `isa`; none without a target.
pub fn names_of<I: TargetIsa>(isa: Option<&I>) -> (r: Option<Vec<String>>)
    ensures
        names_view(&r) == recipe_names(isa),
{
    match isa {
        Some(isa) => Some(isa.encoding_info().names),
        None => None,
    }
}

impl<'a, I: TargetIsa> DisplayFunction<'a, I> {
    /// The text of the function, in the target's terms if there is a
    /// target.
    pub fn to_string(&self) -> (r: String)
        ensures
            r@ == function_text(self.0@, recipe_names(self.1)),
    {
        let names = names_of(self.1);
        let mut out = String::new();
        write_function(&mut out, self.0, &names);
        assert(out@ =~= function_text(self.0@, recipe_names(self.1)));
        out
    }
}

impl Function {
    /// This function together with `isa`, for writing it as text: in the
    /// target's terms if `isa` is one, in neutral terms if it is none.
    pub fn display<'a, I: TargetIsa>(&'a self, isa: Option<&'a I>) -> (r: DisplayFunction<'a, I>)
        ensures
            r.0 == self,
            r.1 == isa,
    {
        DisplayFunction(self, isa)
    }

    /// The text of this function in neutral terms.
    pub fn to_string(&self) -> (r: String)
        ensures
            r@ == function_text(self@, None),
    {
        let mut out = String::new();
        write_function(&mut out, self, &None);
        assert(out@ =~= function_text(self@, None));
        out
    }

    /// The text of the instruction `inst` of this function, in the target's
    /// terms if `isa` is one.
    pub fn display_inst<I: TargetIsa>(&self, inst: Inst, isa: Option<&I>) -> (r: String)
        ensures
            r@ == inst_text(self@, recipe_names(isa), inst),
    {
        let names = names_of(isa);
        let mut out = String::new();
        write_inst(&mut out, self, &names, inst);
        assert(out@ =~= inst_text(self@, recipe_names(isa), inst));
        out
    }
}

} // verus!
