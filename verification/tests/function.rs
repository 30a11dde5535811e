use cretonne_codegen::decls::{
    ExtFuncData, ExternalName, GlobalVarData, HeapBase, HeapData, HeapStyle, StackSlotData, StackSlotKind,
};
use cretonne_codegen::dfg::{InstructionData, Opcode};
use cretonne_codegen::entities::{Ebb, EntityRef, GlobalVar, Inst};
use cretonne_codegen::function::{Function, FunctionView};
use cretonne_codegen::isa::{EncInfo, EncInfoView, Encoding, Legalize, TargetIsa};
use cretonne_codegen::jumptable::JumpTableData;
use cretonne_codegen::signature::{AbiParam, ArgumentPurpose, CallConv, Signature, Type};

/// Encodes the operation 5 with the recipe 1 and the operation 6 with the
/// recipe 0, and nothing else.
struct TwoRecipes;

impl TargetIsa for TwoRecipes {
    fn encoding_for(&self, _: FunctionView, _: InstructionData, _: Type) -> Result<Encoding, Legalize> {
        unreachable!()
    }

    fn recipes(&self) -> EncInfoView {
        unreachable!()
    }

    fn encode(&self, _: &Function, inst: &InstructionData, ty: Type) -> Result<Encoding, Legalize> {
        if inst.opcode == Opcode(5) {
            Ok(Encoding::new(1, ty.0 as u16))
        } else if inst.opcode == Opcode(6) {
            Ok(Encoding::new(0, 3))
        } else if inst.opcode == Opcode(7) {
            Err(Legalize::Narrow)
        } else {
            Err(Legalize::Expand)
        }
    }

    fn encoding_info(&self) -> EncInfo {
        EncInfo { sizes: vec![2, 4], names: vec!["Rr".to_string(), "Ri".to_string()] }
    }
}

fn slot(size: u32) -> StackSlotData {
    StackSlotData::new(StackSlotKind::ExplicitSlot, size)
}

fn heap(min_size: u64) -> HeapData {
    HeapData {
        base: HeapBase::ReservedReg,
        min_size,
        guard_size: 0,
        style: HeapStyle::Static { bound: 1 << 20 },
    }
}

fn op(code: u16) -> InstructionData {
    InstructionData { opcode: Opcode(code), imm: 0 }
}

#[test]
fn new_function_is_empty() {
    let f = Function::new();
    assert_eq!(f.name, ExternalName::user(0, 0));
    assert_eq!(f.signature.call_conv, CallConv::Fast);
    assert!(f.signature.params.is_empty());
    assert!(f.signature.returns.is_empty());
    assert!(f.stack_slots.is_empty());
    assert_eq!(f.stack_limit, None);
    assert!(f.global_vars.is_empty());
    assert!(f.heaps.is_empty());
    assert!(f.jump_tables.is_empty());
    assert_eq!(f.dfg.num_insts(), 0);
    assert_eq!(f.dfg.num_ebbs(), 0);
    assert_eq!(f.dfg.num_values(), 0);
    assert_eq!(f.layout.entry_block(), None);
    assert!(f.encodings.is_empty());
    assert!(f.locations.is_empty());
    assert!(f.offsets.is_empty());
    assert!(f.srclocs.is_empty());
}

#[test]
fn with_name_signature_keeps_both() {
    let mut sig = Signature::new(CallConv::SystemV);
    sig.params.push(AbiParam::new(Type(2)));
    let f = Function::with_name_signature(ExternalName::user(3, 4), sig);
    assert_eq!(f.name, ExternalName::user(3, 4));
    assert_eq!(f.signature.call_conv, CallConv::SystemV);
    assert_eq!(f.signature.params, vec![AbiParam::new(Type(2))]);
    assert!(f.stack_slots.is_empty());
    assert!(f.jump_tables.is_empty());
}

#[test]
fn handles_stay_good_through_declarations() {
    let mut f = Function::new();
    let ss0 = f.create_stack_slot(slot(8));
    let gv0 = f.create_global_var(GlobalVarData::VMContext { offset: 16 });
    let h0 = f.create_heap(heap(4096));
    let jt0 = f.create_jump_table(JumpTableData::with_len(2));
    let sig0 = f.import_signature(Signature::new(CallConv::SystemV));
    let fn0 =
        f.import_function(ExtFuncData { name: ExternalName::user(0, 9), signature: sig0, colocated: false });
    let ss1 = f.create_stack_slot(slot(16));
    let gv1 = f.create_global_var(GlobalVarData::Deref { base: gv0, offset: -8 });
    let h1 = f.create_heap(heap(1));
    let jt1 = f.create_jump_table(JumpTableData::with_len(5));
    let sig1 = f.import_signature(Signature::new(CallConv::Baldrdash));
    let fn1 =
        f.import_function(ExtFuncData { name: ExternalName::user(1, 1), signature: sig1, colocated: true });
    assert_eq!(ss0.index(), 0);
    assert_eq!(ss1.index(), 1);
    assert_eq!(*f.stack_slots.index(ss0), slot(8));
    assert_eq!(*f.stack_slots.index(ss1), slot(16));
    assert_eq!(*f.global_vars.index(gv0), GlobalVarData::VMContext { offset: 16 });
    assert_eq!(*f.global_vars.index(gv1), GlobalVarData::Deref { base: gv0, offset: -8 });
    assert_eq!(*f.heaps.index(h0), heap(4096));
    assert_eq!(*f.heaps.index(h1), heap(1));
    assert_eq!(f.jump_tables.index(jt0).len(), 2);
    assert_eq!(f.jump_tables.index(jt1).len(), 5);
    assert_eq!(f.dfg.signature(sig0).call_conv, CallConv::SystemV);
    assert_eq!(f.dfg.signature(sig1).call_conv, CallConv::Baldrdash);
    assert_eq!(f.dfg.ext_func(fn0).name, ExternalName::user(0, 9));
    assert_eq!(f.dfg.ext_func(fn1).signature, sig1);
    assert!(f.dfg.ext_func(fn1).colocated);
}

#[test]
fn table_lengths_only_grow_until_clear() {
    let mut f = Function::new();
    let mut last = 0;
    for size in 0..5u32 {
        f.create_stack_slot(slot(size));
        assert!(f.stack_slots.len() > last);
        last = f.stack_slots.len();
        f.create_heap(heap(1));
        assert_eq!(f.stack_slots.len(), last);
    }
    assert_eq!(f.stack_slots.len(), 5);
    assert_eq!(f.heaps.len(), 5);
    f.set_stack_limit(None);
    assert_eq!(f.stack_slots.len(), 5);
    f.clear();
    assert_eq!(f.stack_slots.len(), 0);
    assert_eq!(f.heaps.len(), 0);
}

#[test]
fn jump_table_entries_read_back() {
    let mut f = Function::new();
    let other = f.create_jump_table(JumpTableData::with_len(2));
    let jt = f.create_jump_table(JumpTableData::with_len(4));
    for i in 0..4usize {
        let target = Ebb::new(10 + i);
        f.insert_jump_table_entry(jt, i, target);
        assert_eq!(f.jump_tables.index(jt).get_entry(i), Some(target));
        for j in 0..4usize {
            if j < i {
                assert_eq!(f.jump_tables.index(jt).get_entry(j), Some(Ebb::new(10 + j)));
            } else if j > i {
                assert_eq!(f.jump_tables.index(jt).get_entry(j), None);
            }
        }
        assert_eq!(f.jump_tables.index(jt).len(), 4);
        assert_eq!(f.jump_tables.index(other).get_entry(0), None);
        assert_eq!(f.jump_tables.index(other).get_entry(1), None);
    }
    f.insert_jump_table_entry(jt, 2, Ebb::new(0));
    assert_eq!(f.jump_tables.index(jt).get_entry(2), Some(Ebb::new(0)));
    assert_eq!(f.jump_tables.index(jt).get_entry(1), Some(Ebb::new(11)));
    assert_eq!(f.jump_tables.index(jt).get_entry(3), Some(Ebb::new(13)));
}

#[test]
fn stack_limit_swaps() {
    let mut f = Function::new();
    let g1 = f.create_global_var(GlobalVarData::VMContext { offset: 0 });
    let g2 = f.create_global_var(GlobalVarData::VMContext { offset: 8 });
    assert_eq!(f.set_stack_limit(Some(g1)), None);
    assert_eq!(f.set_stack_limit(Some(g2)), Some(g1));
    assert_eq!(f.set_stack_limit(None), Some(g2));
    assert_eq!(f.stack_limit, None);
}

#[test]
fn stack_limit_is_not_validated() {
    let mut f = Function::new();
    let stranger = GlobalVar::new(77);
    assert_eq!(f.set_stack_limit(Some(stranger)), None);
    assert_eq!(f.stack_limit, Some(stranger));
    assert!(f.global_vars.is_empty());
}

#[test]
fn special_param_takes_the_last() {
    let mut sig = Signature::new(CallConv::SystemV);
    sig.params.push(AbiParam::special(Type(3), ArgumentPurpose::VMContext));
    sig.params.push(AbiParam::new(Type(1)));
    sig.params.push(AbiParam::special(Type(3), ArgumentPurpose::VMContext));
    let mut f = Function::with_name_signature(ExternalName::user(0, 0), sig);
    let entry = f.dfg.make_ebb();
    let v0 = f.dfg.append_ebb_param(entry, Type(3));
    let v1 = f.dfg.append_ebb_param(entry, Type(1));
    let v2 = f.dfg.append_ebb_param(entry, Type(3));
    f.layout.append_ebb(entry);
    assert_eq!(f.dfg.ebb_params(entry), &[v0, v1, v2]);
    assert_eq!(f.special_param(ArgumentPurpose::VMContext), Some(v2));
    assert_eq!(f.special_param(ArgumentPurpose::Normal), Some(v1));
    assert_eq!(f.special_param(ArgumentPurpose::Link), None);
}

#[test]
fn special_param_reads_the_entry_block() {
    let mut sig = Signature::new(CallConv::Fast);
    sig.params.push(AbiParam::special(Type(3), ArgumentPurpose::StructReturn));
    let mut f = Function::with_name_signature(ExternalName::user(0, 0), sig);
    let later = f.dfg.make_ebb();
    let entry = f.dfg.make_ebb();
    let _ = f.dfg.append_ebb_param(later, Type(3));
    let v1 = f.dfg.append_ebb_param(entry, Type(3));
    f.layout.append_ebb(entry);
    f.layout.append_ebb(later);
    assert_eq!(f.special_param(ArgumentPurpose::StructReturn), Some(v1));
}

fn three_insts(f: &mut Function) -> (Ebb, Inst, Inst, Inst) {
    let ebb = f.dfg.make_ebb();
    f.layout.append_ebb(ebb);
    let i1 = f.dfg.make_inst(op(6), Type(0));
    let i2 = f.dfg.make_inst(op(5), Type(0));
    let i3 = f.dfg.make_inst(op(6), Type(0));
    f.layout.append_inst(i1, ebb);
    f.layout.append_inst(i2, ebb);
    f.layout.append_inst(i3, ebb);
    (ebb, i1, i2, i3)
}

#[test]
fn inst_offsets_follow_sizes() {
    let mut f = Function::new();
    let (ebb, i1, i2, i3) = three_insts(&mut f);
    let isa = TwoRecipes;
    assert_eq!(f.update_encoding(i1, &isa), Ok(()));
    assert_eq!(f.update_encoding(i2, &isa), Ok(()));
    assert_eq!(f.update_encoding(i3, &isa), Ok(()));
    f.offsets.set(ebb, 0);
    let info = isa.encoding_info();
    let mut it = f.inst_offsets(ebb, &info);
    assert_eq!(it.next(), Some((0, i1, 2)));
    assert_eq!(it.next(), Some((2, i2, 4)));
    assert_eq!(it.next(), Some((6, i3, 2)));
    assert_eq!(it.next(), None);
    assert_eq!(it.next(), None);
    assert_eq!(f.inst_offsets(ebb, &info).collect(), vec![(0, i1, 2), (2, i2, 4), (6, i3, 2)]);
}

#[test]
fn inst_offsets_start_at_the_block_and_skip_unencoded() {
    let mut f = Function::new();
    let first = f.dfg.make_ebb();
    f.layout.append_ebb(first);
    let (ebb, i1, i2, i3) = three_insts(&mut f);
    let isa = TwoRecipes;
    assert_eq!(f.update_encoding(i1, &isa), Ok(()));
    assert_eq!(f.update_encoding(i3, &isa), Ok(()));
    f.offsets.set(first, 0);
    f.offsets.set(ebb, 100);
    let info = isa.encoding_info();
    assert_eq!(f.inst_offsets(ebb, &info).collect(), vec![(100, i1, 2), (102, i2, 0), (102, i3, 2)]);
    assert_eq!(f.inst_offsets(first, &info).collect(), vec![]);
    assert_eq!(f.inst_offsets(Ebb::new(9), &info).collect(), vec![]);
}

#[test]
fn encode_asks_the_target() {
    let mut f = Function::new();
    let a = f.dfg.make_inst(op(5), Type(9));
    let b = f.dfg.make_inst(op(7), Type(0));
    let c = f.dfg.make_inst(op(1), Type(0));
    let isa = TwoRecipes;
    assert_eq!(f.encode(a, &isa), Ok(Encoding::new(1, 9)));
    assert_eq!(f.encode(b, &isa), Err(Legalize::Narrow));
    assert_eq!(f.encode(c, &isa), Err(Legalize::Expand));
    assert!(f.encodings.is_empty());
}

#[test]
fn update_encoding_assigns_on_success() {
    let mut f = Function::new();
    let a = f.dfg.make_inst(op(1), Type(0));
    let b = f.dfg.make_inst(op(5), Type(4));
    let isa = TwoRecipes;
    assert_eq!(f.update_encoding(b, &isa), Ok(()));
    assert_eq!(f.encodings.get(b), Encoding::new(1, 4));
    assert!(!f.encodings.get(a).is_legal());
}

#[test]
fn failed_encoding_leaves_entry_at_default() {
    let mut f = Function::new();
    let a = f.dfg.make_inst(op(1), Type(0));
    let isa = TwoRecipes;
    assert_eq!(f.encodings.get(a), Encoding::new(0xffff, 0xffff));
    assert_eq!(f.encode(a, &isa), Err(Legalize::Expand));
    assert_eq!(f.update_encoding(a, &isa), Err(Legalize::Expand));
    assert_eq!(f.encodings.get(a), Encoding::new(0xffff, 0xffff));
    assert!(f.encodings.is_empty());
}

#[test]
fn failed_encoding_keeps_earlier_encoding() {
    let mut f = Function::new();
    let a = f.dfg.make_inst(op(7), Type(0));
    assert_eq!(f.apply_encoding(a, Ok(Encoding::new(0, 1))), Ok(()));
    assert_eq!(f.update_encoding(a, &TwoRecipes), Err(Legalize::Narrow));
    assert_eq!(f.encodings.get(a), Encoding::new(0, 1));
    assert_eq!(f.apply_encoding(a, Err(Legalize::Widen)), Err(Legalize::Widen));
    assert_eq!(f.encodings.get(a), Encoding::new(0, 1));
}

fn busy_function() -> Function {
    let mut sig = Signature::new(CallConv::SystemV);
    sig.params.push(AbiParam::new(Type(1)));
    sig.returns.push(AbiParam::new(Type(1)));
    let mut f = Function::with_name_signature(ExternalName::user(5, 6), sig);
    f.create_stack_slot(slot(8));
    let gv = f.create_global_var(GlobalVarData::VMContext { offset: 0 });
    f.set_stack_limit(Some(gv));
    f.create_heap(heap(64));
    let jt = f.create_jump_table(JumpTableData::with_len(1));
    let s = f.import_signature(Signature::new(CallConv::Fast));
    f.import_function(ExtFuncData { name: ExternalName::user(0, 1), signature: s, colocated: false });
    let (ebb, i1, _, _) = three_insts(&mut f);
    f.insert_jump_table_entry(jt, 0, ebb);
    let _ = f.update_encoding(i1, &TwoRecipes);
    f.offsets.set(ebb, 4);
    f
}

#[test]
fn clear_gives_a_fresh_function_under_the_old_name() {
    let mut f = busy_function();
    f.clear();
    assert_eq!(f.name, ExternalName::user(5, 6));
    assert_eq!(f.signature.call_conv, CallConv::Fast);
    assert!(f.signature.params.is_empty());
    assert!(f.signature.returns.is_empty());
    assert!(f.stack_slots.is_empty());
    assert_eq!(f.stack_limit, None);
    assert!(f.global_vars.is_empty());
    assert!(f.heaps.is_empty());
    assert!(f.jump_tables.is_empty());
    assert_eq!(f.dfg.num_insts(), 0);
    assert_eq!(f.dfg.num_ebbs(), 0);
    assert_eq!(f.dfg.num_values(), 0);
    assert_eq!(f.layout.entry_block(), None);
    assert!(f.encodings.is_empty());
    assert!(f.locations.is_empty());
    assert!(f.offsets.is_empty());
    assert!(f.srclocs.is_empty());
    let fresh = Function::new();
    assert_eq!(ExternalName::user(0, 0), fresh.name);
    let renamed = Function::with_name_signature(ExternalName::user(5, 6), Signature::new(CallConv::Fast));
    assert_eq!(f.to_string(), renamed.to_string());
}

#[test]
fn cleared_function_hands_out_handles_from_zero() {
    let mut f = busy_function();
    f.clear();
    assert_eq!(f.create_stack_slot(slot(1)).index(), 0);
    assert_eq!(f.create_jump_table(JumpTableData::new()).index(), 0);
    assert_eq!(f.dfg.make_ebb().index(), 0);
}

#[test]
fn clone_has_the_same_entities_under_the_same_handles() {
    let f = busy_function();
    let mut c = f.clone();
    assert_eq!(c.name, f.name);
    assert_eq!(c.signature.params, f.signature.params);
    assert_eq!(c.signature.returns, f.signature.returns);
    assert_eq!(c.signature.call_conv, f.signature.call_conv);
    assert_eq!(c.stack_limit, f.stack_limit);
    assert_eq!(c.stack_slots.values(), f.stack_slots.values());
    assert_eq!(c.global_vars.values(), f.global_vars.values());
    assert_eq!(c.heaps.values(), f.heaps.values());
    assert_eq!(c.jump_tables.len(), 1);
    assert_eq!(c.jump_tables.values()[0].get_entry(0), f.jump_tables.values()[0].get_entry(0));
    assert_eq!(c.dfg.num_insts(), f.dfg.num_insts());
    assert_eq!(c.dfg.inst_data(Inst::new(1)), f.dfg.inst_data(Inst::new(1)));
    assert_eq!(c.layout.ebb_insts(Ebb::new(0)), f.layout.ebb_insts(Ebb::new(0)));
    assert_eq!(c.encodings.get(Inst::new(0)), f.encodings.get(Inst::new(0)));
    assert_eq!(c.offsets.get(Ebb::new(0)), 4);
    assert_eq!(c.to_string(), f.to_string());
    c.create_stack_slot(slot(99));
    assert_eq!(c.stack_slots.len(), 2);
    assert_eq!(f.stack_slots.len(), 1);
}
