//! The x86 instructions whose semantics the library knows by name, and a
//! case-insensitive parser of mnemonics that is the exact inverse of the naming.

use vstd::prelude::*;
use crate::text::{ascii_lower, ascii_upper, lower_seq, upper_seq, upper_chars};

verus! {

/// An x86 instruction, identified by its mnemonic.
#[derive(Debug, Clone, Copy, PartialEq, Eq, Structural, Hash, PartialOrd, Ord)]
pub enum X86Instruction {
    ADD,
    SUB,
    ADC,
    SBB,
    MOV,
    MOVZX,
    MOVSX,
    LEA,
    INC,
    DEC,
    NEG,
    NOT,
    AND,
    OR,
    XOR,
    CMP,
    TEST,
    IMUL,
    MUL,
    IDIV,
    DIV,
    SHL,
    SHR,
    SAR,
    ROL,
    ROR,
    XCHG,
    PUSH,
    POP,
    CALL,
    RET,
    JMP,
    JA,
    JAE,
    JB,
    JBE,
    JCXZ,
    JECXZ,
    JRCXZ,
    JE,
    JNE,
    JG,
    JGE,
    JL,
    JLE,
    JO,
    JNO,
    JS,
    JNS,
    JP,
    JNP,
    NOP,
    INT3,
    HLT,
    LEAVE,
    SYSCALL,
}

impl X86Instruction {
    /// The instruction's mnemonic in upper case, as `{:?}` prints it.
    pub open spec fn spec_name(self) -> Seq<char> {
        match self {
            X86Instruction::ADD => seq!['A', 'D', 'D'],
            X86Instruction::SUB => seq!['S', 'U', 'B'],
            X86Instruction::ADC => seq!['A', 'D', 'C'],
            X86Instruction::SBB => seq!['S', 'B', 'B'],
            X86Instruction::MOV => seq!['M', 'O', 'V'],
            X86Instruction::MOVZX => seq!['M', 'O', 'V', 'Z', 'X'],
            X86Instruction::MOVSX => seq!['M', 'O', 'V', 'S', 'X'],
            X86Instruction::LEA => seq!['L', 'E', 'A'],
            X86Instruction::INC => seq!['I', 'N', 'C'],
            X86Instruction::DEC => seq!['D', 'E', 'C'],
            X86Instruction::NEG => seq!['N', 'E', 'G'],
            X86Instruction::NOT => seq!['N', 'O', 'T'],
            X86Instruction::AND => seq!['A', 'N', 'D'],
            X86Instruction::OR => seq!['O', 'R'],
            X86Instruction::XOR => seq!['X', 'O', 'R'],
            X86Instruction::CMP => seq!['C', 'M', 'P'],
            X86Instruction::TEST => seq!['T', 'E', 'S', 'T'],
            X86Instruction::IMUL => seq!['I', 'M', 'U', 'L'],
            X86Instruction::MUL => seq!['M', 'U', 'L'],
            X86Instruction::IDIV => seq!['I', 'D', 'I', 'V'],
            X86Instruction::DIV => seq!['D', 'I', 'V'],
            X86Instruction::SHL => seq!['S', 'H', 'L'],
            X86Instruction::SHR => seq!['S', 'H', 'R'],
            X86Instruction::SAR => seq!['S', 'A', 'R'],
            X86Instruction::ROL => seq!['R', 'O', 'L'],
            X86Instruction::ROR => seq!['R', 'O', 'R'],
            X86Instruction::XCHG => seq!['X', 'C', 'H', 'G'],
            X86Instruction::PUSH => seq!['P', 'U', 'S', 'H'],
            X86Instruction::POP => seq!['P', 'O', 'P'],
            X86Instruction::CALL => seq!['C', 'A', 'L', 'L'],
            X86Instruction::RET => seq!['R', 'E', 'T'],
            X86Instruction::JMP => seq!['J', 'M', 'P'],
            X86Instruction::JA => seq!['J', 'A'],
            X86Instruction::JAE => seq!['J', 'A', 'E'],
            X86Instruction::JB => seq!['J', 'B'],
            X86Instruction::JBE => seq!['J', 'B', 'E'],
            X86Instruction::JCXZ => seq!['J', 'C', 'X', 'Z'],
            X86Instruction::JECXZ => seq!['J', 'E', 'C', 'X', 'Z'],
            X86Instruction::JRCXZ => seq!['J', 'R', 'C', 'X', 'Z'],
            X86Instruction::JE => seq!['J', 'E'],
            X86Instruction::JNE => seq!['J', 'N', 'E'],
            X86Instruction::JG => seq!['J', 'G'],
            X86Instruction::JGE => seq!['J', 'G', 'E'],
            X86Instruction::JL => seq!['J', 'L'],
            X86Instruction::JLE => seq!['J', 'L', 'E'],
            X86Instruction::JO => seq!['J', 'O'],
            X86Instruction::JNO => seq!['J', 'N', 'O'],
            X86Instruction::JS => seq!['J', 'S'],
            X86Instruction::JNS => seq!['J', 'N', 'S'],
            X86Instruction::JP => seq!['J', 'P'],
            X86Instruction::JNP => seq!['J', 'N', 'P'],
            X86Instruction::NOP => seq!['N', 'O', 'P'],
            X86Instruction::INT3 => seq!['I', 'N', 'T', '3'],
            X86Instruction::HLT => seq!['H', 'L', 'T'],
            X86Instruction::LEAVE => seq!['L', 'E', 'A', 'V', 'E'],
            X86Instruction::SYSCALL => seq!['S', 'Y', 'S', 'C', 'A', 'L', 'L'],
        }
    }

    /// The instruction's mnemonic (see `spec_name`).
    pub fn name(&self) -> (s: &'static str)
        ensures
            s@ == self.spec_name(),
    {
        match self {
            X86Instruction::ADD => {
                proof {
                    reveal_strlit("ADD");
                }
                "ADD"
            },
            X86Instruction::SUB => {
                proof {
                    reveal_strlit("SUB");
                }
                "SUB"
            },
            X86Instruction::ADC => {
                proof {
                    reveal_strlit("ADC");
                }
                "ADC"
            },
            X86Instruction::SBB => {
                proof {
                    reveal_strlit("SBB");
                }
                "SBB"
            },
            X86Instruction::MOV => {
                proof {
                    reveal_strlit("MOV");
                }
                "MOV"
            },
            X86Instruction::MOVZX => {
                proof {
                    reveal_strlit("MOVZX");
                }
                "MOVZX"
            },
            X86Instruction::MOVSX => {
                proof {
                    reveal_strlit("MOVSX");
                }
                "MOVSX"
            },
            X86Instruction::LEA => {
                proof {
                    reveal_strlit("LEA");
                }
                "LEA"
            },
            X86Instruction::INC => {
                proof {
                    reveal_strlit("INC");
                }
                "INC"
            },
            X86Instruction::DEC => {
                proof {
                    reveal_strlit("DEC");
                }
                "DEC"
            },
            X86Instruction::NEG => {
                proof {
                    reveal_strlit("NEG");
                }
                "NEG"
            },
            X86Instruction::NOT => {
                proof {
                    reveal_strlit("NOT");
                }
                "NOT"
            },
            X86Instruction::AND => {
                proof {
                    reveal_strlit("AND");
                }
                "AND"
            },
            X86Instruction::OR => {
                proof {
                    reveal_strlit("OR");
                }
                "OR"
            },
            X86Instruction::XOR => {
                proof {
                    reveal_strlit("XOR");
                }
                "XOR"
            },
            X86Instruction::CMP => {
                proof {
                    reveal_strlit("CMP");
                }
                "CMP"
            },
            X86Instruction::TEST => {
                proof {
                    reveal_strlit("TEST");
                }
                "TEST"
            },
            X86Instruction::IMUL => {
                proof {
                    reveal_strlit("IMUL");
                }
                "IMUL"
            },
            X86Instruction::MUL => {
                proof {
                    reveal_strlit("MUL");
                }
                "MUL"
            },
            X86Instruction::IDIV => {
                proof {
                    reveal_strlit("IDIV");
                }
                "IDIV"
            },
            X86Instruction::DIV => {
                proof {
                    reveal_strlit("DIV");
                }
                "DIV"
            },
            X86Instruction::SHL => {
                proof {
                    reveal_strlit("SHL");
                }
                "SHL"
            },
            X86Instruction::SHR => {
                proof {
                    reveal_strlit("SHR");
                }
                "SHR"
            },
            X86Instruction::SAR => {
                proof {
                    reveal_strlit("SAR");
                }
                "SAR"
            },
            X86Instruction::ROL => {
                proof {
                    reveal_strlit("ROL");
                }
                "ROL"
            },
            X86Instruction::ROR => {
                proof {
                    reveal_strlit("ROR");
                }
                "ROR"
            },
            X86Instruction::XCHG => {
                proof {
                    reveal_strlit("XCHG");
                }
                "XCHG"
            },
            X86Instruction::PUSH => {
                proof {
                    reveal_strlit("PUSH");
                }
                "PUSH"
            },
            X86Instruction::POP => {
                proof {
                    reveal_strlit("POP");
                }
                "POP"
            },
            X86Instruction::CALL => {
                proof {
                    reveal_strlit("CALL");
                }
                "CALL"
            },
            X86Instruction::RET => {
                proof {
                    reveal_strlit("RET");
                }
                "RET"
            },
            X86Instruction::JMP => {
                proof {
                    reveal_strlit("JMP");
                }
                "JMP"
            },
            X86Instruction::JA => {
                proof {
                    reveal_strlit("JA");
                }
                "JA"
            },
            X86Instruction::JAE => {
                proof {
                    reveal_strlit("JAE");
                }
                "JAE"
            },
            X86Instruction::JB => {
                proof {
                    reveal_strlit("JB");
                }
                "JB"
            },
            X86Instruction::JBE => {
                proof {
                    reveal_strlit("JBE");
                }
                "JBE"
            },
            X86Instruction::JCXZ => {
                proof {
                    reveal_strlit("JCXZ");
                }
                "JCXZ"
            },
            X86Instruction::JECXZ => {
                proof {
                    reveal_strlit("JECXZ");
                }
                "JECXZ"
            },
            X86Instruction::JRCXZ => {
                proof {
                    reveal_strlit("JRCXZ");
                }
                "JRCXZ"
            },
            X86Instruction::JE => {
                proof {
                    reveal_strlit("JE");
                }
                "JE"
            },
            X86Instruction::JNE => {
                proof {
                    reveal_strlit("JNE");
                }
                "JNE"
            },
            X86Instruction::JG => {
                proof {
                    reveal_strlit("JG");
                }
                "JG"
            },
            X86Instruction::JGE => {
                proof {
                    reveal_strlit("JGE");
                }
                "JGE"
            },
            X86Instruction::JL => {
                proof {
                    reveal_strlit("JL");
                }
                "JL"
            },
            X86Instruction::JLE => {
                proof {
                    reveal_strlit("JLE");
                }
                "JLE"
            },
            X86Instruction::JO => {
                proof {
                    reveal_strlit("JO");
                }
                "JO"
            },
            X86Instruction::JNO => {
                proof {
                    reveal_strlit("JNO");
                }
                "JNO"
            },
            X86Instruction::JS => {
                proof {
                    reveal_strlit("JS");
                }
                "JS"
            },
            X86Instruction::JNS => {
                proof {
                    reveal_strlit("JNS");
                }
                "JNS"
            },
            X86Instruction::JP => {
                proof {
                    reveal_strlit("JP");
                }
                "JP"
            },
            X86Instruction::JNP => {
                proof {
                    reveal_strlit("JNP");
                }
                "JNP"
            },
            X86Instruction::NOP => {
                proof {
                    reveal_strlit("NOP");
                }
                "NOP"
            },
            X86Instruction::INT3 => {
                proof {
                    reveal_strlit("INT3");
                }
                "INT3"
            },
            X86Instruction::HLT => {
                proof {
                    reveal_strlit("HLT");
                }
                "HLT"
            },
            X86Instruction::LEAVE => {
                proof {
                    reveal_strlit("LEAVE");
                }
                "LEAVE"
            },
            X86Instruction::SYSCALL => {
                proof {
                    reveal_strlit("SYSCALL");
                }
                "SYSCALL"
            },
        }
    }
}

/// The instruction whose mnemonic has the 2 characters given, if any.
pub open spec fn mnemonic_table_2(c0: char, c1: char) -> Option<X86Instruction> {
    match (c0, c1) {
        ('O', 'R') => Some(X86Instruction::OR),
        ('J', 'A') => Some(X86Instruction::JA),
        ('J', 'B') => Some(X86Instruction::JB),
        ('J', 'E') => Some(X86Instruction::JE),
        ('J', 'G') => Some(X86Instruction::JG),
        ('J', 'L') => Some(X86Instruction::JL),
        ('J', 'O') => Some(X86Instruction::JO),
        ('J', 'S') => Some(X86Instruction::JS),
        ('J', 'P') => Some(X86Instruction::JP),
        _ => None,
    }
}

/// The instruction whose mnemonic has the 3 characters given, if any.
pub open spec fn mnemonic_table_3(c0: char, c1: char, c2: char) -> Option<X86Instruction> {
    match (c0, c1, c2) {
        ('A', 'D', 'D') => Some(X86Instruction::ADD),
        ('S', 'U', 'B') => Some(X86Instruction::SUB),
        ('A', 'D', 'C') => Some(X86Instruction::ADC),
        ('S', 'B', 'B') => Some(X86Instruction::SBB),
        ('M', 'O', 'V') => Some(X86Instruction::MOV),
        ('L', 'E', 'A') => Some(X86Instruction::LEA),
        ('I', 'N', 'C') => Some(X86Instruction::INC),
        ('D', 'E', 'C') => Some(X86Instruction::DEC),
        ('N', 'E', 'G') => Some(X86Instruction::NEG),
        ('N', 'O', 'T') => Some(X86Instruction::NOT),
        ('A', 'N', 'D') => Some(X86Instruction::AND),
        ('X', 'O', 'R') => Some(X86Instruction::XOR),
        ('C', 'M', 'P') => Some(X86Instruction::CMP),
        ('M', 'U', 'L') => Some(X86Instruction::MUL),
        ('D', 'I', 'V') => Some(X86Instruction::DIV),
        ('S', 'H', 'L') => Some(X86Instruction::SHL),
        ('S', 'H', 'R') => Some(X86Instruction::SHR),
        ('S', 'A', 'R') => Some(X86Instruction::SAR),
        ('R', 'O', 'L') => Some(X86Instruction::ROL),
        ('R', 'O', 'R') => Some(X86Instruction::ROR),
        ('P', 'O', 'P') => Some(X86Instruction::POP),
        ('R', 'E', 'T') => Some(X86Instruction::RET),
        ('J', 'M', 'P') => Some(X86Instruction::JMP),
        ('J', 'A', 'E') => Some(X86Instruction::JAE),
        ('J', 'B', 'E') => Some(X86Instruction::JBE),
        ('J', 'N', 'E') => Some(X86Instruction::JNE),
        ('J', 'G', 'E') => Some(X86Instruction::JGE),
        ('J', 'L', 'E') => Some(X86Instruction::JLE),
        ('J', 'N', 'O') => Some(X86Instruction::JNO),
        ('J', 'N', 'S') => Some(X86Instruction::JNS),
        ('J', 'N', 'P') => Some(X86Instruction::JNP),
        ('N', 'O', 'P') => Some(X86Instruction::NOP),
        ('H', 'L', 'T') => Some(X86Instruction::HLT),
        _ => None,
    }
}

/// The instruction whose mnemonic has the 4 characters given, if any.
pub open spec fn mnemonic_table_4(c0: char, c1: char, c2: char, c3: char) -> Option<X86Instruction> {
    match (c0, c1, c2, c3) {
        ('T', 'E', 'S', 'T') => Some(X86Instruction::TEST),
        ('I', 'M', 'U', 'L') => Some(X86Instruction::IMUL),
        ('I', 'D', 'I', 'V') => Some(X86Instruction::IDIV),
        ('X', 'C', 'H', 'G') => Some(X86Instruction::XCHG),
        ('P', 'U', 'S', 'H') => Some(X86Instruction::PUSH),
        ('C', 'A', 'L', 'L') => Some(X86Instruction::CALL),
        ('J', 'C', 'X', 'Z') => Some(X86Instruction::JCXZ),
        ('I', 'N', 'T', '3') => Some(X86Instruction::INT3),
        _ => None,
    }
}

/// The instruction whose mnemonic has the 5 characters given, if any.
pub open spec fn mnemonic_table_5(c0: char, c1: char, c2: char, c3: char, c4: char) -> Option<X86Instruction> {
    match (c0, c1, c2, c3, c4) {
        ('M', 'O', 'V', 'Z', 'X') => Some(X86Instruction::MOVZX),
        ('M', 'O', 'V', 'S', 'X') => Some(X86Instruction::MOVSX),
        ('J', 'E', 'C', 'X', 'Z') => Some(X86Instruction::JECXZ),
        ('J', 'R', 'C', 'X', 'Z') => Some(X86Instruction::JRCXZ),
        ('L', 'E', 'A', 'V', 'E') => Some(X86Instruction::LEAVE),
        _ => None,
    }
}

/// The instruction whose mnemonic has the 7 characters given, if any.
pub open spec fn mnemonic_table_7(c0: char, c1: char, c2: char, c3: char, c4: char, c5: char, c6: char) -> Option<X86Instruction> {
    match (c0, c1, c2, c3, c4, c5, c6) {
        ('S', 'Y', 'S', 'C', 'A', 'L', 'L') => Some(X86Instruction::SYSCALL),
        _ => None,
    }
}

/// The instruction that the mnemonic tables give for the upper-case form of `s`.
spec fn mnemonic_lookup(s: Seq<char>) -> Option<X86Instruction> {
    let u = upper_seq(s);
    if u.len() == 2 {
        mnemonic_table_2(u[0], u[1])
    }
    else if u.len() == 3 {
        mnemonic_table_3(u[0], u[1], u[2])
    }
    else if u.len() == 4 {
        mnemonic_table_4(u[0], u[1], u[2], u[3])
    }
    else if u.len() == 5 {
        mnemonic_table_5(u[0], u[1], u[2], u[3], u[4])
    }
    else if u.len() == 7 {
        mnemonic_table_7(u[0], u[1], u[2], u[3], u[4], u[5], u[6])
    }
 else {
        None
    }
}

/// The instruction named by `s`, read without regard to the case of ASCII
/// letters: the one whose name is the upper-case form of `s`; `None` where
/// the library knows no such instruction.
pub open spec fn spec_parse_instruction(s: Seq<char>) -> Option<X86Instruction> {
    if exists|i: X86Instruction| i.spec_name() == upper_seq(s) {
        Some(choose|i: X86Instruction| i.spec_name() == upper_seq(s))
    } else {
        None
    }
}

/// The tables give each instruction for its own mnemonic.
proof fn lemma_lookup_name(i: X86Instruction)
    ensures
        mnemonic_lookup(i.spec_name()) == Some(i),
{
    let n = i.spec_name();
    assert(upper_seq(n) =~= n);
}

/// The tables give a instruction only for its name, up to case.
proof fn lemma_lookup_sound(s: Seq<char>, i: X86Instruction)
    requires
        mnemonic_lookup(s) == Some(i),
    ensures
        upper_seq(s) == i.spec_name(),
{
    let u = upper_seq(s);
    assert(u =~= i.spec_name());
}

/// Upper-casing twice is upper-casing once.
proof fn lemma_upper_idempotent(s: Seq<char>)
    ensures
        upper_seq(upper_seq(s)) == upper_seq(s),
{
    assert(upper_seq(upper_seq(s)) =~= upper_seq(s));
}

/// The tables give exactly the instruction whose name the text is, up to case.
proof fn lemma_lookup_is_parse(s: Seq<char>)
    ensures
        mnemonic_lookup(s) == spec_parse_instruction(s),
{
    let u = upper_seq(s);
    match mnemonic_lookup(s) {
        Some(i) => {
            lemma_lookup_sound(s, i);
            assert(i.spec_name() == u);
            let q = choose|q: X86Instruction| q.spec_name() == u;
            if q != i {
                lemma_lookup_name(q);
                lemma_lookup_name(i);
            }
        },
        None => {
            if exists|q: X86Instruction| q.spec_name() == u {
                let q = choose|q: X86Instruction| q.spec_name() == u;
                lemma_lookup_name(q);
                lemma_upper_idempotent(s);
            }
        },
    }
}

fn parse_mnemonic_2(c0: char, c1: char) -> (r: Option<X86Instruction>)
    ensures
        r == mnemonic_table_2(c0, c1),
{
    match (c0, c1) {
        ('O', 'R') => Some(X86Instruction::OR),
        ('J', 'A') => Some(X86Instruction::JA),
        ('J', 'B') => Some(X86Instruction::JB),
        ('J', 'E') => Some(X86Instruction::JE),
        ('J', 'G') => Some(X86Instruction::JG),
        ('J', 'L') => Some(X86Instruction::JL),
        ('J', 'O') => Some(X86Instruction::JO),
        ('J', 'S') => Some(X86Instruction::JS),
        ('J', 'P') => Some(X86Instruction::JP),
        _ => None,
    }
}

fn parse_mnemonic_3(c0: char, c1: char, c2: char) -> (r: Option<X86Instruction>)
    ensures
        r == mnemonic_table_3(c0, c1, c2),
{
    match (c0, c1, c2) {
        ('A', 'D', 'D') => Some(X86Instruction::ADD),
        ('S', 'U', 'B') => Some(X86Instruction::SUB),
        ('A', 'D', 'C') => Some(X86Instruction::ADC),
        ('S', 'B', 'B') => Some(X86Instruction::SBB),
        ('M', 'O', 'V') => Some(X86Instruction::MOV),
        ('L', 'E', 'A') => Some(X86Instruction::LEA),
        ('I', 'N', 'C') => Some(X86Instruction::INC),
        ('D', 'E', 'C') => Some(X86Instruction::DEC),
        ('N', 'E', 'G') => Some(X86Instruction::NEG),
        ('N', 'O', 'T') => Some(X86Instruction::NOT),
        ('A', 'N', 'D') => Some(X86Instruction::AND),
        ('X', 'O', 'R') => Some(X86Instruction::XOR),
        ('C', 'M', 'P') => Some(X86Instruction::CMP),
        ('M', 'U', 'L') => Some(X86Instruction::MUL),
        ('D', 'I', 'V') => Some(X86Instruction::DIV),
        ('S', 'H', 'L') => Some(X86Instruction::SHL),
        ('S', 'H', 'R') => Some(X86Instruction::SHR),
        ('S', 'A', 'R') => Some(X86Instruction::SAR),
        ('R', 'O', 'L') => Some(X86Instruction::ROL),
        ('R', 'O', 'R') => Some(X86Instruction::ROR),
        ('P', 'O', 'P') => Some(X86Instruction::POP),
        ('R', 'E', 'T') => Some(X86Instruction::RET),
        ('J', 'M', 'P') => Some(X86Instruction::JMP),
        ('J', 'A', 'E') => Some(X86Instruction::JAE),
        ('J', 'B', 'E') => Some(X86Instruction::JBE),
        ('J', 'N', 'E') => Some(X86Instruction::JNE),
        ('J', 'G', 'E') => Some(X86Instruction::JGE),
        ('J', 'L', 'E') => Some(X86Instruction::JLE),
        ('J', 'N', 'O') => Some(X86Instruction::JNO),
        ('J', 'N', 'S') => Some(X86Instruction::JNS),
        ('J', 'N', 'P') => Some(X86Instruction::JNP),
        ('N', 'O', 'P') => Some(X86Instruction::NOP),
        ('H', 'L', 'T') => Some(X86Instruction::HLT),
        _ => None,
    }
}

fn parse_mnemonic_4(c0: char, c1: char, c2: char, c3: char) -> (r: Option<X86Instruction>)
    ensures
        r == mnemonic_table_4(c0, c1, c2, c3),
{
    match (c0, c1, c2, c3) {
        ('T', 'E', 'S', 'T') => Some(X86Instruction::TEST),
        ('I', 'M', 'U', 'L') => Some(X86Instruction::IMUL),
        ('I', 'D', 'I', 'V') => Some(X86Instruction::IDIV),
        ('X', 'C', 'H', 'G') => Some(X86Instruction::XCHG),
        ('P', 'U', 'S', 'H') => Some(X86Instruction::PUSH),
        ('C', 'A', 'L', 'L') => Some(X86Instruction::CALL),
        ('J', 'C', 'X', 'Z') => Some(X86Instruction::JCXZ),
        ('I', 'N', 'T', '3') => Some(X86Instruction::INT3),
        _ => None,
    }
}

fn parse_mnemonic_5(c0: char, c1: char, c2: char, c3: char, c4: char) -> (r: Option<X86Instruction>)
    ensures
        r == mnemonic_table_5(c0, c1, c2, c3, c4),
{
    match (c0, c1, c2, c3, c4) {
        ('M', 'O', 'V', 'Z', 'X') => Some(X86Instruction::MOVZX),
        ('M', 'O', 'V', 'S', 'X') => Some(X86Instruction::MOVSX),
        ('J', 'E', 'C', 'X', 'Z') => Some(X86Instruction::JECXZ),
        ('J', 'R', 'C', 'X', 'Z') => Some(X86Instruction::JRCXZ),
        ('L', 'E', 'A', 'V', 'E') => Some(X86Instruction::LEAVE),
        _ => None,
    }
}

fn parse_mnemonic_7(c0: char, c1: char, c2: char, c3: char, c4: char, c5: char, c6: char) -> (r: Option<X86Instruction>)
    ensures
        r == mnemonic_table_7(c0, c1, c2, c3, c4, c5, c6),
{
    match (c0, c1, c2, c3, c4, c5, c6) {
        ('S', 'Y', 'S', 'C', 'A', 'L', 'L') => Some(X86Instruction::SYSCALL),
        _ => None,
    }
}

/// Parses an instruction mnemonic, ignoring the case of ASCII letters.
pub fn parse_instruction(s: &str) -> (r: Option<X86Instruction>)
    ensures
        r == spec_parse_instruction(s@),
{
    let u = upper_chars(s);
    let r = if u.len() == 2 {
        parse_mnemonic_2(u[0], u[1])
    }
    else if u.len() == 3 {
        parse_mnemonic_3(u[0], u[1], u[2])
    }
    else if u.len() == 4 {
        parse_mnemonic_4(u[0], u[1], u[2], u[3])
    }
    else if u.len() == 5 {
        parse_mnemonic_5(u[0], u[1], u[2], u[3], u[4])
    }
    else if u.len() == 7 {
        parse_mnemonic_7(u[0], u[1], u[2], u[3], u[4], u[5], u[6])
    }
 else {
        None
    };
    proof {
        lemma_lookup_is_parse(s@);
    }
    r
}

/// Parsing an instruction's mnemonic gives back that instruction.
pub proof fn law_parse_mnemonic(i: X86Instruction)
    ensures
        spec_parse_instruction(i.spec_name()) == Some(i),
{
    lemma_lookup_name(i);
    lemma_lookup_is_parse(i.spec_name());
}

/// A mnemonic parses to an instruction only if it is that instruction's
/// mnemonic, up to the case of ASCII letters.
pub proof fn law_parse_mnemonic_sound(s: Seq<char>, i: X86Instruction)
    requires
        spec_parse_instruction(s) == Some(i),
    ensures
        upper_seq(s) == i.spec_name(),
{
}

/// Parsing ignores the case of ASCII letters: a text, its upper-case form and
/// its lower-case form all parse alike.
pub proof fn law_parse_instruction_ignores_case(s: Seq<char>)
    ensures
        spec_parse_instruction(upper_seq(s)) == spec_parse_instruction(s),
        spec_parse_instruction(lower_seq(s)) == spec_parse_instruction(s),
{
    lemma_upper_idempotent(s);
    assert forall|i: int| 0 <= i < s.len() implies ascii_upper(ascii_lower(#[trigger] s[i])) == ascii_upper(s[i]) by {
        let c = s[i];
        if 'A' <= c && c <= 'Z' {
            assert(ascii_lower(c) == ((c as u32) + 32) as char);
        }
    }
    assert(upper_seq(lower_seq(s)) =~= upper_seq(s));
}

} // verus!
