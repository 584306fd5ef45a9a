use nasop::data_representation::x86_ins::{parse_instruction, X86Instruction};
use nasop::data_representation::x86_reg::{all_registers, parse_register, X86Register};

#[test]
fn register_names_parse_back() {
    for r in all_registers() {
        assert_eq!(parse_register(r.name()), Some(r));
        assert_eq!(parse_register(&r.name().to_lowercase()), Some(r));
        assert_eq!(r.name(), format!("{:?}", r));
    }
}

#[test]
fn register_names_are_distinct() {
    let all = all_registers();
    assert_eq!(all.len(), 64);
    for (i, a) in all.iter().enumerate() {
        for b in all.iter().skip(i + 1) {
            assert_ne!(a.name(), b.name());
        }
    }
}

#[test]
fn register_parsing_ignores_ascii_case() {
    assert_eq!(parse_register("rax"), Some(X86Register::RAX));
    assert_eq!(parse_register("RaX"), Some(X86Register::RAX));
    assert_eq!(parse_register("r8d"), Some(X86Register::R8D));
    assert_eq!(parse_register("rflags"), Some(X86Register::RFLAGS));
    assert_eq!(parse_register("sil"), Some(X86Register::SIL));
}

#[test]
fn register_parsing_rejects_unknown_names() {
    assert_eq!(parse_register(""), None);
    assert_eq!(parse_register("xmm0"), None);
    assert_eq!(parse_register("rax "), None);
    assert_eq!(parse_register("raxx"), None);
}

#[test]
fn approximate_registers() {
    let approx: Vec<X86Register> = all_registers().into_iter().filter(|r| r.is_approximate()).collect();
    assert_eq!(
        approx,
        vec![X86Register::EAX, X86Register::EBX, X86Register::ECX, X86Register::EDX, X86Register::ESI]
    );
}

#[test]
fn instruction_mnemonics_parse() {
    assert_eq!(parse_instruction("mov"), Some(X86Instruction::MOV));
    assert_eq!(parse_instruction("ADD"), Some(X86Instruction::ADD));
    assert_eq!(parse_instruction("lea"), Some(X86Instruction::LEA));
    assert_eq!(parse_instruction("int3"), Some(X86Instruction::INT3));
    assert_eq!(parse_instruction("vpxor"), None);
    assert_eq!(X86Instruction::JMP.name(), "JMP");
    assert_eq!(parse_instruction(X86Instruction::JRCXZ.name()), Some(X86Instruction::JRCXZ));
}
