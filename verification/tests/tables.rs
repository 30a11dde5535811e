use cretonne_codegen::decls::{SourceLoc, ValueLoc};
use cretonne_codegen::entities::{Ebb, EntityRef, Inst, StackSlot, Value};
use cretonne_codegen::entity::{EntityMap, PrimaryMap};
use cretonne_codegen::isa::{EncInfo, Encoding};
use cretonne_codegen::jumptable::JumpTableData;
use cretonne_codegen::layout::Layout;
use cretonne_codegen::signature::{AbiParam, ArgumentPurpose, CallConv, Signature, Type};

#[test]
fn handles_count_from_zero() {
    let mut m: PrimaryMap<Ebb, u8> = PrimaryMap::new();
    assert!(m.is_empty());
    let a = m.push(10);
    let b = m.push(20);
    assert_eq!(a.index(), 0);
    assert_eq!(b.index(), 1);
    assert_eq!(a, Ebb::new(0));
    assert_ne!(a, b);
    assert_eq!(m.len(), 2);
    assert_eq!(m.next_key(), Ebb::new(2));
}

#[test]
fn primary_map_reads_what_was_pushed() {
    let mut m: PrimaryMap<Inst, u32> = PrimaryMap::new();
    let a = m.push(7);
    let b = m.push(9);
    assert_eq!(*m.index(a), 7);
    assert_eq!(*m.index(b), 9);
    assert_eq!(m.get(a), Some(&7));
    assert_eq!(m.get(Inst::new(2)), None);
    assert!(m.is_valid(b));
    assert!(!m.is_valid(Inst::new(2)));
    assert_eq!(m.values(), &[7, 9]);
}

#[test]
fn primary_map_changes_in_place() {
    let mut m: PrimaryMap<Inst, u32> = PrimaryMap::new();
    let a = m.push(7);
    let b = m.push(9);
    *m.index_mut(a) = 8;
    assert_eq!(*m.index(a), 8);
    assert_eq!(*m.index(b), 9);
    assert_eq!(m.len(), 2);
}

#[test]
fn primary_map_clear_empties() {
    let mut m: PrimaryMap<Inst, u32> = PrimaryMap::new();
    let a = m.push(7);
    m.clear();
    assert_eq!(m.len(), 0);
    assert!(m.is_empty());
    assert!(!m.is_valid(a));
    let again = m.push(1);
    assert_eq!(again, a);
}

#[test]
fn primary_map_clone_keeps_positions() {
    let mut m: PrimaryMap<Inst, u32> = PrimaryMap::new();
    let a = m.push(7);
    let b = m.push(9);
    let c = m.clone();
    assert_eq!(*c.index(a), 7);
    assert_eq!(*c.index(b), 9);
    assert_eq!(c.len(), 2);
}

#[test]
fn entity_map_answers_with_default() {
    let m: EntityMap<Inst, Encoding> = EntityMap::new();
    assert!(m.is_empty());
    assert_eq!(m.get(Inst::new(5)), Encoding::new(0xffff, 0xffff));
    assert!(!m.get(Inst::new(5)).is_legal());
    let l: EntityMap<Value, ValueLoc> = EntityMap::new();
    assert_eq!(l.get(Value::new(0)), ValueLoc::Unassigned);
    let s: EntityMap<Inst, SourceLoc> = EntityMap::new();
    assert_eq!(s.get(Inst::new(0)), SourceLoc(0xffff_ffff));
    let o: EntityMap<Ebb, u32> = EntityMap::new();
    assert_eq!(o.get(Ebb::new(3)), 0);
}

#[test]
fn entity_map_set_grows_and_keeps_others() {
    let mut m: EntityMap<Inst, Encoding> = EntityMap::new();
    m.set(Inst::new(2), Encoding::new(1, 3));
    assert_eq!(m.len(), 3);
    assert!(!m.is_empty());
    assert_eq!(m.get(Inst::new(2)), Encoding::new(1, 3));
    assert!(!m.get(Inst::new(0)).is_legal());
    assert!(!m.get(Inst::new(1)).is_legal());
    assert!(!m.get(Inst::new(3)).is_legal());
    m.set(Inst::new(0), Encoding::new(4, 5));
    assert_eq!(m.len(), 3);
    assert_eq!(m.get(Inst::new(0)), Encoding::new(4, 5));
    assert_eq!(m.get(Inst::new(2)), Encoding::new(1, 3));
}

#[test]
fn entity_map_resize_and_clear() {
    let mut m: EntityMap<Ebb, u32> = EntityMap::new();
    m.set(Ebb::new(0), 12);
    m.resize(4);
    assert_eq!(m.len(), 4);
    assert_eq!(m.get(Ebb::new(0)), 12);
    assert_eq!(m.get(Ebb::new(3)), 0);
    m.resize(2);
    assert_eq!(m.len(), 4);
    let c = m.clone();
    assert_eq!(c.len(), 4);
    assert_eq!(c.get(Ebb::new(0)), 12);
    m.clear();
    assert!(m.is_empty());
    assert_eq!(m.get(Ebb::new(0)), 0);
}

#[test]
fn jump_table_placeholders_and_entries() {
    let mut jt = JumpTableData::with_len(3);
    assert_eq!(jt.len(), 3);
    assert_eq!(jt.get_entry(0), None);
    assert_eq!(jt.get_entry(2), None);
    jt.set_entry(1, Ebb::new(4));
    assert_eq!(jt.len(), 3);
    assert_eq!(jt.get_entry(0), None);
    assert_eq!(jt.get_entry(1), Some(Ebb::new(4)));
    assert_eq!(jt.get_entry(2), None);
    assert_eq!(jt.get_entry(3), None);
    assert!(jt.branches_to(Ebb::new(4)));
    assert!(!jt.branches_to(Ebb::new(1)));
    jt.clear_entry(1);
    assert_eq!(jt.get_entry(1), None);
    assert!(!jt.branches_to(Ebb::new(4)));
}

#[test]
fn jump_table_push_and_clone() {
    let mut jt = JumpTableData::new();
    assert_eq!(jt.len(), 0);
    jt.push_entry(Ebb::new(2));
    jt.push_entry(Ebb::new(0));
    assert_eq!(jt.len(), 2);
    let c = jt.clone();
    jt.set_entry(0, Ebb::new(9));
    assert_eq!(c.get_entry(0), Some(Ebb::new(2)));
    assert_eq!(c.get_entry(1), Some(Ebb::new(0)));
    assert_eq!(jt.get_entry(0), Some(Ebb::new(9)));
}

#[test]
fn layout_keeps_program_order() {
    let mut l = Layout::new();
    assert_eq!(l.entry_block(), None);
    let e0 = Ebb::new(3);
    let e1 = Ebb::new(1);
    l.append_ebb(e0);
    l.append_ebb(e1);
    assert_eq!(l.entry_block(), Some(e0));
    assert!(l.is_ebb_inserted(e1));
    assert!(!l.is_ebb_inserted(Ebb::new(0)));
    l.append_inst(Inst::new(5), e1);
    l.append_inst(Inst::new(2), e0);
    l.append_inst(Inst::new(0), e1);
    assert_eq!(l.ebb_insts(e0), &[Inst::new(2)]);
    assert_eq!(l.ebb_insts(e1), &[Inst::new(5), Inst::new(0)]);
    assert!(l.ebb_insts(Ebb::new(0)).is_empty());
    assert_eq!(l.blocks().len(), 2);
    assert_eq!(l.blocks()[1].ebb, e1);
    let c = l.clone();
    l.clear();
    assert_eq!(l.entry_block(), None);
    assert!(l.ebb_insts(e1).is_empty());
    assert_eq!(c.ebb_insts(e1), &[Inst::new(5), Inst::new(0)]);
}

#[test]
fn signature_finds_last_special_param() {
    let mut sig = Signature::new(CallConv::SystemV);
    assert_eq!(sig.special_param_index(ArgumentPurpose::VMContext), None);
    sig.params.push(AbiParam::special(Type(3), ArgumentPurpose::VMContext));
    sig.params.push(AbiParam::new(Type(1)));
    sig.params.push(AbiParam::special(Type(3), ArgumentPurpose::VMContext));
    sig.params.push(AbiParam::special(Type(2), ArgumentPurpose::Link));
    assert_eq!(sig.special_param_index(ArgumentPurpose::VMContext), Some(2));
    assert_eq!(sig.special_param_index(ArgumentPurpose::Link), Some(3));
    assert_eq!(sig.special_param_index(ArgumentPurpose::Normal), Some(1));
    assert_eq!(sig.special_param_index(ArgumentPurpose::StructReturn), None);
    let c = sig.clone();
    sig.clear(CallConv::Fast);
    assert!(sig.params.is_empty());
    assert!(sig.returns.is_empty());
    assert_eq!(sig.call_conv, CallConv::Fast);
    assert_eq!(c.params.len(), 4);
    assert_eq!(c.call_conv, CallConv::SystemV);
}

#[test]
fn enc_info_sizes() {
    let info = EncInfo { sizes: vec![2, 4], names: vec!["Rr".to_string(), "Ri".to_string()] };
    assert_eq!(info.bytes(Encoding::new(0, 0)), 2);
    assert_eq!(info.bytes(Encoding::new(1, 9)), 4);
    assert_eq!(info.bytes(Encoding::new(2, 0)), 0);
    assert_eq!(info.bytes(Encoding::new(0xffff, 0xffff)), 0);
    assert_eq!(info.bytes(Encoding::new(0xffff, 0)), 0);
    let c = info.clone();
    assert_eq!(c.sizes, vec![2, 4]);
    assert_eq!(c.names, vec!["Rr".to_string(), "Ri".to_string()]);
}

#[test]
fn stack_slot_handles_are_their_own_kind() {
    let a = StackSlot::new(0);
    let b = StackSlot::new(0);
    assert_eq!(a, b);
    assert_eq!(a.index(), 0);
    assert_eq!(StackSlot::new(41).index(), 41);
}
