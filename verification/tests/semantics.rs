use nasop::decoder::{DisasmSettings, X86Disassembler, X86Mode};
use nasop::data_representation::x86_ins::X86Instruction;
use nasop::data_representation::x86_reg::X86Register;
use nasop::data_representation::x86_ins_semantics::{
    decode_and_populate_semantics, populate_semantics, semantics_from_operands, AccessType,
    InsSmntcs, MemoryAccess, OperandAccess, OperandInfo, OperandKind, OperandRole, RegAccess,
};

fn capstone() -> X86Disassembler {
    X86Disassembler::new(DisasmSettings { mode: X86Mode::Mode64, detail: true }).expect("capstone")
}

fn acc(role: OperandRole, a: Option<AccessType>) -> OperandAccess {
    OperandAccess { role, access_type: a }
}

#[test]
fn static_semantics_of_add() {
    let s = populate_semantics(X86Instruction::ADD);
    assert_eq!(s.operand_reads, vec![acc(OperandRole::DEST, None), acc(OperandRole::SRC1, None)]);
    assert_eq!(s.operand_writes, vec![acc(OperandRole::DEST, None)]);
    assert!(s.operand_writes_conditional.is_empty());
    assert!(s.implicit_reads.is_empty());
    assert_eq!(
        s.implicit_writes,
        vec![X86Register::OF, X86Register::SF, X86Register::ZF, X86Register::AF, X86Register::PF, X86Register::CF]
    );
}

#[test]
fn static_semantics_of_mov_lea_and_others() {
    for ins in [X86Instruction::MOV, X86Instruction::LEA] {
        let s = populate_semantics(ins);
        assert_eq!(s.operand_reads, vec![acc(OperandRole::SRC1, None)]);
        assert_eq!(s.operand_writes, vec![acc(OperandRole::DEST, None)]);
        assert!(s.implicit_writes.is_empty());
    }
    let s = populate_semantics(X86Instruction::JMP);
    assert!(s.operand_reads.is_empty() && s.operand_writes.is_empty() && s.implicit_writes.is_empty());
}

#[test]
fn set_role_touches_only_that_role() {
    let mut s = populate_semantics(X86Instruction::ADD);
    s.set_operand_access_for_role(OperandRole::DEST, Some(AccessType::IMM(3)));
    assert_eq!(
        s.operand_reads,
        vec![acc(OperandRole::DEST, Some(AccessType::IMM(3))), acc(OperandRole::SRC1, None)]
    );
    assert_eq!(s.operand_writes, vec![acc(OperandRole::DEST, Some(AccessType::IMM(3)))]);
    s.set_operand_access_for_role(OperandRole::SRC2, Some(AccessType::IMM(9)));
    assert_eq!(s.operand_reads[1], acc(OperandRole::SRC1, None));
}

#[test]
fn operands_recorded_by_kind() {
    let mut s = populate_semantics(X86Instruction::ADD);
    let reg = OperandInfo { kind: OperandKind::Reg(35), access: Some(RegAccess::ReadWrite), size: 8 };
    s.pop_smnt_for_role_named(OperandRole::DEST, reg, &Some("rax".to_string()));
    assert_eq!(s.operand_writes, vec![acc(OperandRole::DEST, Some(AccessType::REG(X86Register::RAX)))]);
    let mem = OperandInfo { kind: OperandKind::Mem, access: Some(RegAccess::ReadOnly), size: 4 };
    s.pop_smnt_for_role_named(OperandRole::SRC1, mem, &None);
    assert_eq!(
        s.operand_reads[1],
        acc(OperandRole::SRC1, Some(AccessType::MEM(MemoryAccess { read: true, write: false, size_bytes: 4 })))
    );
    let before = s.clone();
    let unknown = OperandInfo { kind: OperandKind::Reg(200), access: None, size: 16 };
    s.pop_smnt_for_role_named(OperandRole::SRC1, unknown, &Some("xmm0".to_string()));
    assert_eq!(s.operand_reads, before.operand_reads);
    let invalid = OperandInfo { kind: OperandKind::Invalid, access: None, size: 0 };
    s.pop_smnt_for_role_named(OperandRole::DEST, invalid, &None);
    assert_eq!(s.operand_writes, before.operand_writes);
}

#[test]
fn semantics_from_three_operands() {
    let ops = vec![
        OperandInfo { kind: OperandKind::Mem, access: Some(RegAccess::WriteOnly), size: 8 },
        OperandInfo { kind: OperandKind::Imm(-5), access: None, size: 8 },
    ];
    let s = semantics_from_operands(X86Instruction::MOV, &ops, &vec![None, None]);
    assert_eq!(
        s.operand_writes,
        vec![acc(OperandRole::DEST, Some(AccessType::MEM(MemoryAccess { read: false, write: true, size_bytes: 8 })))]
    );
    assert_eq!(s.operand_reads, vec![acc(OperandRole::SRC1, Some(AccessType::IMM(-5)))]);
}

#[test]
fn text_of_semantics() {
    let ops = vec![
        OperandInfo { kind: OperandKind::Reg(35), access: Some(RegAccess::ReadWrite), size: 8 },
        OperandInfo { kind: OperandKind::Imm(-2), access: None, size: 8 },
    ];
    let s: InsSmntcs =
        semantics_from_operands(X86Instruction::ADD, &ops, &vec![Some("rax".to_string()), None]);
    assert_eq!(
        s.to_text(),
        "Operand Reads:\n\
         role: DEST, access type: Some(REG(RAX))\n\
         role: SRC1, access type: Some(IMM(-2))\n\
         Operand Writes:\n\
         role: DEST, access type: Some(REG(RAX))\n\
         Conditional Operand Writes:\n\
         implicit reads: []\n\
         implicit writes: [OF, SF, ZF, AF, PF, CF]\n"
    );
    let m = semantics_from_operands(
        X86Instruction::LEA,
        &vec![OperandInfo { kind: OperandKind::Mem, access: Some(RegAccess::ReadWrite), size: 2 }],
        &vec![None],
    );
    assert!(m.to_text().contains("role: DEST, access type: Some(MEM(MemoryAccess { read: true, write: true, size_bytes: 2 }))\n"));
}

#[test]
fn decode_mov_immediate() {
    let cs = capstone();
    // mov rax, 42
    let s = decode_and_populate_semantics(&cs, &[0x48, 0xc7, 0xc0, 0x2a, 0x00, 0x00, 0x00]).unwrap();
    assert_eq!(s.operand_writes, vec![acc(OperandRole::DEST, Some(AccessType::REG(X86Register::RAX)))]);
    assert_eq!(s.operand_reads, vec![acc(OperandRole::SRC1, Some(AccessType::IMM(42)))]);
}

#[test]
fn decode_add_registers() {
    let cs = capstone();
    // add rax, rbx
    let s = decode_and_populate_semantics(&cs, &[0x48, 0x01, 0xd8]).unwrap();
    assert_eq!(
        s.operand_reads,
        vec![
            acc(OperandRole::DEST, Some(AccessType::REG(X86Register::RAX))),
            acc(OperandRole::SRC1, Some(AccessType::REG(X86Register::RBX))),
        ]
    );
    assert_eq!(s.implicit_writes.len(), 6);
}

#[test]
fn decode_memory_store() {
    let cs = capstone();
    // mov qword ptr [rbx], rax
    let s = decode_and_populate_semantics(&cs, &[0x48, 0x89, 0x03]).unwrap();
    assert_eq!(
        s.operand_writes,
        vec![acc(OperandRole::DEST, Some(AccessType::MEM(MemoryAccess { read: false, write: true, size_bytes: 8 })))]
    );
    assert_eq!(s.operand_reads, vec![acc(OperandRole::SRC1, Some(AccessType::REG(X86Register::RAX)))]);
}

#[test]
fn decode_nothing() {
    let cs = capstone();
    assert!(decode_and_populate_semantics(&cs, &[]).is_none());
    // vpxor xmm0, xmm0, xmm0: an instruction the library does not know
    assert!(decode_and_populate_semantics(&cs, &[0xc5, 0xf9, 0xef, 0xc0]).is_none());
}

#[test]
fn pop_operand_with_capstone_register_name() {
    let cs = capstone();
    let mut s = populate_semantics(X86Instruction::MOV);
    // capstone's id 35 is rax in x86 mode
    let reg = OperandInfo { kind: OperandKind::Reg(35), access: Some(RegAccess::WriteOnly), size: 8 };
    s.pop_smnt_for_role(&cs, OperandRole::DEST, reg);
    assert_eq!(s.operand_writes, vec![acc(OperandRole::DEST, Some(AccessType::REG(X86Register::RAX)))]);
    let imm = OperandInfo { kind: OperandKind::Imm(7), access: None, size: 8 };
    s.pop_smnt_for_role(&cs, OperandRole::SRC1, imm);
    assert_eq!(s.operand_reads, vec![acc(OperandRole::SRC1, Some(AccessType::IMM(7)))]);
}

#[test]
fn decode_ignores_bytes_after_first_instruction() {
    let cs = capstone();
    // add rax, rbx; then nop, ret
    let a = decode_and_populate_semantics(&cs, &[0x48, 0x01, 0xd8]).unwrap();
    let b = decode_and_populate_semantics(&cs, &[0x48, 0x01, 0xd8, 0x90, 0xc3]).unwrap();
    assert_eq!(a.to_text(), b.to_text());
}

#[test]
fn decode_without_details_gives_nothing() {
    let cs = X86Disassembler::new(DisasmSettings { mode: X86Mode::Mode64, detail: false }).expect("capstone");
    assert!(decode_and_populate_semantics(&cs, &[0x48, 0x01, 0xd8]).is_none());
}
