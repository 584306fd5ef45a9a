use nasop::decoder::{DisasmSettings, X86Disassembler, X86Mode};
use nasop::instruction_db::{
    analyze_bin, group_names, try_reg_names, join_group_names, join_register_names,
    operand_register_accesses, reg_names, registers_of_names, InsDB,
};
use nasop::data_representation::x86_reg::X86Register;
use nasop::data_representation::x86_ins_semantics::{OperandInfo, OperandKind, RegAccess};

fn capstone() -> X86Disassembler {
    X86Disassembler::new(DisasmSettings { mode: X86Mode::Mode64, detail: true }).expect("capstone")
}

#[test]
fn empty_database() {
    assert!(InsDB::default().instructions.is_empty());
}

#[test]
fn joined_register_names() {
    assert_eq!(join_register_names(&vec![]), "");
    assert_eq!(join_register_names(&vec![X86Register::RAX]), "RAX");
    assert_eq!(join_register_names(&vec![X86Register::RAX, X86Register::CF, X86Register::R8D]), "RAX, CF, R8D");
}

#[test]
fn registers_from_names() {
    assert_eq!(
        registers_of_names(&vec![Some("rax".to_string()), Some("rflags".to_string())]),
        Some(vec![X86Register::RAX, X86Register::RFLAGS])
    );
    assert_eq!(registers_of_names(&vec![Some("rax".to_string()), None]), None);
    assert_eq!(registers_of_names(&vec![Some("xmm1".to_string())]), None);
}

#[test]
fn joined_group_names() {
    assert_eq!(join_group_names(&vec![Some("mode64".to_string()), None]), "mode64, <unknown>");
    assert_eq!(join_group_names(&vec![]), "");
}

#[test]
fn operand_accesses_add_to_lists() {
    let ops = vec![
        OperandInfo { kind: OperandKind::Reg(35), access: Some(RegAccess::ReadWrite), size: 8 },
        OperandInfo { kind: OperandKind::Reg(37), access: None, size: 8 },
        OperandInfo { kind: OperandKind::Reg(40), access: Some(RegAccess::WriteOnly), size: 8 },
        OperandInfo { kind: OperandKind::Imm(1), access: Some(RegAccess::ReadOnly), size: 8 },
        OperandInfo { kind: OperandKind::Mem, access: Some(RegAccess::ReadWrite), size: 8 },
    ];
    let (r, w) = operand_register_accesses(&vec![1], &vec![2], &ops);
    assert_eq!(r, vec![1, 35, 37]);
    assert_eq!(w, vec![2, 35, 40]);
}

#[test]
fn register_accesses_of_add() {
    let cs = capstone();
    // add rax, rbx
    let reports = analyze_bin(&cs, &[0x48, 0x01, 0xd8], 0x1000).unwrap();
    let add = &reports[0];
    assert_eq!(try_reg_names(&cs, &add.reads), Some("RAX, RBX".to_string()));
    assert_eq!(try_reg_names(&cs, &add.writes), Some("RFLAGS, RAX".to_string()));
    assert!(!add.groups.contains("<unknown>"));
}

#[test]
fn analyze_in_32_bit_mode() {
    let cs32 = X86Disassembler::new(DisasmSettings { mode: X86Mode::Mode32, detail: true }).expect("capstone");
    let cs64 = capstone();
    // push eax in 32-bit mode, push rax in 64-bit mode
    let r32 = analyze_bin(&cs32, &[0x50], 0x1000).unwrap();
    let r64 = analyze_bin(&cs64, &[0x50], 0x1000).unwrap();
    assert_eq!(r32[0].text, "0x1000: push eax");
    assert_eq!(r64[0].text, "0x1000: push rax");
}

#[test]
fn analyze_two_instructions() {
    let cs = capstone();
    // add rax, rbx; ret
    let reports = analyze_bin(&cs, &[0x48, 0x01, 0xd8, 0xc3], 0x2000).unwrap();
    assert_eq!(reports.len(), 2);
    let add = &reports[0];
    assert_eq!(add.address, 0x2000);
    assert_eq!(add.bytes, vec![0x48, 0x01, 0xd8]);
    assert_eq!(add.mnemonic, Some("add".to_string()));
    assert_eq!(add.text, "0x2000: add rax, rbx");
    assert_eq!(add.n_operands, 2);
    assert_eq!(add.read_regs, Some("".to_string()));
    assert_eq!(add.write_regs, Some("RFLAGS".to_string()));
    assert_eq!(try_reg_names(&cs, &add.reads), Some("RAX, RBX".to_string()));
    assert_eq!(try_reg_names(&cs, &add.writes), Some("RFLAGS, RAX".to_string()));
    let ret = &reports[1];
    assert_eq!(ret.address, 0x2003);
    assert_eq!(ret.bytes, vec![0xc3]);
    assert_eq!(ret.mnemonic, Some("ret".to_string()));
    assert_eq!(ret.n_operands, 0);
}

#[test]
fn analyze_empty_binary() {
    let cs = capstone();
    assert_eq!(analyze_bin(&cs, &[], 0x1000).map(|r| r.len()), Some(0));
}

#[test]
fn analyze_without_details_gives_nothing() {
    let cs = X86Disassembler::new(DisasmSettings { mode: X86Mode::Mode64, detail: false }).expect("capstone");
    assert!(analyze_bin(&cs, &[0x48, 0x01, 0xd8], 0x1000).is_none());
}

#[test]
fn register_names_from_capstone_ids() {
    let cs = capstone();
    // capstone's ids 35 and 37 are rax and rbx in x86 mode
    assert_eq!(try_reg_names(&cs, &vec![35, 37]), Some("RAX, RBX".to_string()));
    assert_eq!(try_reg_names(&cs, &vec![37, 35]), Some("RBX, RAX".to_string()));
    assert_eq!(try_reg_names(&cs, &vec![]), Some("".to_string()));
    // 0 is capstone's invalid register, which has no name
    assert_eq!(try_reg_names(&cs, &vec![0]), None);
}

#[test]
fn group_names_from_capstone_ids() {
    let cs = capstone();
    let a = group_names(&cs, &vec![1, 2]);
    let b = group_names(&cs, &vec![2, 1]);
    assert_ne!(a, b);
    assert_eq!(a.split(", ").count(), 2);
    assert_eq!(group_names(&cs, &vec![]), "");
}

#[test]
fn register_names_when_all_known() {
    let cs = capstone();
    assert_eq!(reg_names(&cs, &vec![35, 37]), "RAX, RBX");
    assert_eq!(reg_names(&cs, &vec![]), "");
}

#[test]
fn analysis_leaves_database_unchanged() {
    let cs = capstone();
    let mut db = InsDB::default();
    let reports = db.analyze_bin_at_addr(&cs, &[0x48, 0x01, 0xd8, 0xc3], 0x1000).unwrap();
    assert_eq!(reports.len(), 2);
    assert!(db.instructions.is_empty());
    let empty = db.analyze_bin_at_addr(&cs, &[], 0x1000).unwrap();
    assert!(empty.is_empty());
    assert!(db.instructions.is_empty());
}

#[test]
fn report_keeps_implicit_registers() {
    let cs = capstone();
    // add rax, rbx: capstone lists no implicit reads and writes the flags
    let reports = analyze_bin(&cs, &[0x48, 0x01, 0xd8], 0x1000).unwrap();
    assert!(reports[0].implicit_reads.is_empty());
    assert_eq!(try_reg_names(&cs, &reports[0].implicit_writes), Some("RFLAGS".to_string()));
}
