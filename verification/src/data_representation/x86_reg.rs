//! The x86 registers that the analyses speak of, with their names and a
//! case-insensitive parser that is the exact inverse of the naming.

use vstd::prelude::*;
use crate::text::{ascii_lower, ascii_upper, lower_seq, upper_seq, upper_chars};

verus! {

/// An x86 register, or a single status flag.
#[derive(Debug, Clone, Copy, PartialEq, Eq, Structural, Hash, PartialOrd, Ord)]
pub enum X86Register {
    RAX,
    RBX,
    RCX,
    RDX,
    RSI,
    RDI,
    RBP,
    RSP,
    R8,
    R9,
    R10,
    R11,
    R12,
    R13,
    R14,
    R15,
    EAX,
    EBX,
    ECX,
    EDX,
    ESI,
    EDI,
    EBP,
    ESP,
    R8D,
    R9D,
    R10D,
    R11D,
    R12D,
    R13D,
    R14D,
    R15D,
    AX,
    BX,
    CX,
    DX,
    SI,
    DI,
    BP,
    SP,
    AL,
    BL,
    CL,
    DL,
    SIL,
    DIL,
    BPL,
    SPL,
    AH,
    BH,
    CH,
    DH,
    RIP,
    EIP,
    IP,
    RFLAGS,
    EFLAGS,
    CF,
    PF,
    AF,
    ZF,
    SF,
    DF,
    OF,
}

impl X86Register {
    /// The register's name: its upper-case mnemonic, as `{:?}` prints it.
    pub open spec fn spec_name(self) -> Seq<char> {
        match self {
            X86Register::RAX => seq!['R', 'A', 'X'],
            X86Register::RBX => seq!['R', 'B', 'X'],
            X86Register::RCX => seq!['R', 'C', 'X'],
            X86Register::RDX => seq!['R', 'D', 'X'],
            X86Register::RSI => seq!['R', 'S', 'I'],
            X86Register::RDI => seq!['R', 'D', 'I'],
            X86Register::RBP => seq!['R', 'B', 'P'],
            X86Register::RSP => seq!['R', 'S', 'P'],
            X86Register::R8 => seq!['R', '8'],
            X86Register::R9 => seq!['R', '9'],
            X86Register::R10 => seq!['R', '1', '0'],
            X86Register::R11 => seq!['R', '1', '1'],
            X86Register::R12 => seq!['R', '1', '2'],
            X86Register::R13 => seq!['R', '1', '3'],
            X86Register::R14 => seq!['R', '1', '4'],
            X86Register::R15 => seq!['R', '1', '5'],
            X86Register::EAX => seq!['E', 'A', 'X'],
            X86Register::EBX => seq!['E', 'B', 'X'],
            X86Register::ECX => seq!['E', 'C', 'X'],
            X86Register::EDX => seq!['E', 'D', 'X'],
            X86Register::ESI => seq!['E', 'S', 'I'],
            X86Register::EDI => seq!['E', 'D', 'I'],
            X86Register::EBP => seq!['E', 'B', 'P'],
            X86Register::ESP => seq!['E', 'S', 'P'],
            X86Register::R8D => seq!['R', '8', 'D'],
            X86Register::R9D => seq!['R', '9', 'D'],
            X86Register::R10D => seq!['R', '1', '0', 'D'],
            X86Register::R11D => seq!['R', '1', '1', 'D'],
            X86Register::R12D => seq!['R', '1', '2', 'D'],
            X86Register::R13D => seq!['R', '1', '3', 'D'],
            X86Register::R14D => seq!['R', '1', '4', 'D'],
            X86Register::R15D => seq!['R', '1', '5', 'D'],
            X86Register::AX => seq!['A', 'X'],
            X86Register::BX => seq!['B', 'X'],
            X86Register::CX => seq!['C', 'X'],
            X86Register::DX => seq!['D', 'X'],
            X86Register::SI => seq!['S', 'I'],
            X86Register::DI => seq!['D', 'I'],
            X86Register::BP => seq!['B', 'P'],
            X86Register::SP => seq!['S', 'P'],
            X86Register::AL => seq!['A', 'L'],
            X86Register::BL => seq!['B', 'L'],
            X86Register::CL => seq!['C', 'L'],
            X86Register::DL => seq!['D', 'L'],
            X86Register::SIL => seq!['S', 'I', 'L'],
            X86Register::DIL => seq!['D', 'I', 'L'],
            X86Register::BPL => seq!['B', 'P', 'L'],
            X86Register::SPL => seq!['S', 'P', 'L'],
            X86Register::AH => seq!['A', 'H'],
            X86Register::BH => seq!['B', 'H'],
            X86Register::CH => seq!['C', 'H'],
            X86Register::DH => seq!['D', 'H'],
            X86Register::RIP => seq!['R', 'I', 'P'],
            X86Register::EIP => seq!['E', 'I', 'P'],
            X86Register::IP => seq!['I', 'P'],
            X86Register::RFLAGS => seq!['R', 'F', 'L', 'A', 'G', 'S'],
            X86Register::EFLAGS => seq!['E', 'F', 'L', 'A', 'G', 'S'],
            X86Register::CF => seq!['C', 'F'],
            X86Register::PF => seq!['P', 'F'],
            X86Register::AF => seq!['A', 'F'],
            X86Register::ZF => seq!['Z', 'F'],
            X86Register::SF => seq!['S', 'F'],
            X86Register::DF => seq!['D', 'F'],
            X86Register::OF => seq!['O', 'F'],
        }
    }

    /// The register's name (see `spec_name`).
    pub fn name(&self) -> (s: &'static str)
        ensures
            s@ == self.spec_name(),
    {
        match self {
            X86Register::RAX => {
                proof {
                    reveal_strlit("RAX");
                }
                "RAX"
            },
            X86Register::RBX => {
                proof {
                    reveal_strlit("RBX");
                }
                "RBX"
            },
            X86Register::RCX => {
                proof {
                    reveal_strlit("RCX");
                }
                "RCX"
            },
            X86Register::RDX => {
                proof {
                    reveal_strlit("RDX");
                }
                "RDX"
            },
            X86Register::RSI => {
                proof {
                    reveal_strlit("RSI");
                }
                "RSI"
            },
            X86Register::RDI => {
                proof {
                    reveal_strlit("RDI");
                }
                "RDI"
            },
            X86Register::RBP => {
                proof {
                    reveal_strlit("RBP");
                }
                "RBP"
            },
            X86Register::RSP => {
                proof {
                    reveal_strlit("RSP");
                }
                "RSP"
            },
            X86Register::R8 => {
                proof {
                    reveal_strlit("R8");
                }
                "R8"
            },
            X86Register::R9 => {
                proof {
                    reveal_strlit("R9");
                }
                "R9"
            },
            X86Register::R10 => {
                proof {
                    reveal_strlit("R10");
                }
                "R10"
            },
            X86Register::R11 => {
                proof {
                    reveal_strlit("R11");
                }
                "R11"
            },
            X86Register::R12 => {
                proof {
                    reveal_strlit("R12");
                }
                "R12"
            },
            X86Register::R13 => {
                proof {
                    reveal_strlit("R13");
                }
                "R13"
            },
            X86Register::R14 => {
                proof {
                    reveal_strlit("R14");
                }
                "R14"
            },
            X86Register::R15 => {
                proof {
                    reveal_strlit("R15");
                }
                "R15"
            },
            X86Register::EAX => {
                proof {
                    reveal_strlit("EAX");
                }
                "EAX"
            },
            X86Register::EBX => {
                proof {
                    reveal_strlit("EBX");
                }
                "EBX"
            },
            X86Register::ECX => {
                proof {
                    reveal_strlit("ECX");
                }
                "ECX"
            },
            X86Register::EDX => {
                proof {
                    reveal_strlit("EDX");
                }
                "EDX"
            },
            X86Register::ESI => {
                proof {
                    reveal_strlit("ESI");
                }
                "ESI"
            },
            X86Register::EDI => {
                proof {
                    reveal_strlit("EDI");
                }
                "EDI"
            },
            X86Register::EBP => {
                proof {
                    reveal_strlit("EBP");
                }
                "EBP"
            },
            X86Register::ESP => {
                proof {
                    reveal_strlit("ESP");
                }
                "ESP"
            },
            X86Register::R8D => {
                proof {
                    reveal_strlit("R8D");
                }
                "R8D"
            },
            X86Register::R9D => {
                proof {
                    reveal_strlit("R9D");
                }
                "R9D"
            },
            X86Register::R10D => {
                proof {
                    reveal_strlit("R10D");
                }
                "R10D"
            },
            X86Register::R11D => {
                proof {
                    reveal_strlit("R11D");
                }
                "R11D"
            },
            X86Register::R12D => {
                proof {
                    reveal_strlit("R12D");
                }
                "R12D"
            },
            X86Register::R13D => {
                proof {
                    reveal_strlit("R13D");
                }
                "R13D"
            },
            X86Register::R14D => {
                proof {
                    reveal_strlit("R14D");
                }
                "R14D"
            },
            X86Register::R15D => {
                proof {
                    reveal_strlit("R15D");
                }
                "R15D"
            },
            X86Register::AX => {
                proof {
                    reveal_strlit("AX");
                }
                "AX"
            },
            X86Register::BX => {
                proof {
                    reveal_strlit("BX");
                }
                "BX"
            },
            X86Register::CX => {
                proof {
                    reveal_strlit("CX");
                }
                "CX"
            },
            X86Register::DX => {
                proof {
                    reveal_strlit("DX");
                }
                "DX"
            },
            X86Register::SI => {
                proof {
                    reveal_strlit("SI");
                }
                "SI"
            },
            X86Register::DI => {
                proof {
                    reveal_strlit("DI");
                }
                "DI"
            },
            X86Register::BP => {
                proof {
                    reveal_strlit("BP");
                }
                "BP"
            },
            X86Register::SP => {
                proof {
                    reveal_strlit("SP");
                }
                "SP"
            },
            X86Register::AL => {
                proof {
                    reveal_strlit("AL");
                }
                "AL"
            },
            X86Register::BL => {
                proof {
                    reveal_strlit("BL");
                }
                "BL"
            },
            X86Register::CL => {
                proof {
                    reveal_strlit("CL");
                }
                "CL"
            },
            X86Register::DL => {
                proof {
                    reveal_strlit("DL");
                }
                "DL"
            },
            X86Register::SIL => {
                proof {
                    reveal_strlit("SIL");
                }
                "SIL"
            },
            X86Register::DIL => {
                proof {
                    reveal_strlit("DIL");
                }
                "DIL"
            },
            X86Register::BPL => {
                proof {
                    reveal_strlit("BPL");
                }
                "BPL"
            },
            X86Register::SPL => {
                proof {
                    reveal_strlit("SPL");
                }
                "SPL"
            },
            X86Register::AH => {
                proof {
                    reveal_strlit("AH");
                }
                "AH"
            },
            X86Register::BH => {
                proof {
                    reveal_strlit("BH");
                }
                "BH"
            },
            X86Register::CH => {
                proof {
                    reveal_strlit("CH");
                }
                "CH"
            },
            X86Register::DH => {
                proof {
                    reveal_strlit("DH");
                }
                "DH"
            },
            X86Register::RIP => {
                proof {
                    reveal_strlit("RIP");
                }
                "RIP"
            },
            X86Register::EIP => {
                proof {
                    reveal_strlit("EIP");
                }
                "EIP"
            },
            X86Register::IP => {
                proof {
                    reveal_strlit("IP");
                }
                "IP"
            },
            X86Register::RFLAGS => {
                proof {
                    reveal_strlit("RFLAGS");
                }
                "RFLAGS"
            },
            X86Register::EFLAGS => {
                proof {
                    reveal_strlit("EFLAGS");
                }
                "EFLAGS"
            },
            X86Register::CF => {
                proof {
                    reveal_strlit("CF");
                }
                "CF"
            },
            X86Register::PF => {
                proof {
                    reveal_strlit("PF");
                }
                "PF"
            },
            X86Register::AF => {
                proof {
                    reveal_strlit("AF");
                }
                "AF"
            },
            X86Register::ZF => {
                proof {
                    reveal_strlit("ZF");
                }
                "ZF"
            },
            X86Register::SF => {
                proof {
                    reveal_strlit("SF");
                }
                "SF"
            },
            X86Register::DF => {
                proof {
                    reveal_strlit("DF");
                }
                "DF"
            },
            X86Register::OF => {
                proof {
                    reveal_strlit("OF");
                }
                "OF"
            },
        }
    }

    /// The five general-purpose registers shown in an approximate display.
    pub open spec fn spec_is_approximate(self) -> bool {
        self == X86Register::EAX || self == X86Register::EBX || self == X86Register::ECX
            || self == X86Register::EDX || self == X86Register::ESI
    }

    /// Whether the register is one of those shown in an approximate display.
    pub fn is_approximate(&self) -> (b: bool)
        ensures
            b == self.spec_is_approximate(),
    {
        match self {
            X86Register::EAX | X86Register::EBX | X86Register::ECX | X86Register::EDX
            | X86Register::ESI => true,
            _ => false,
        }
    }
}

/// The register whose name has the 2 characters given, if any.
pub open spec fn name_table_2(c0: char, c1: char) -> Option<X86Register> {
    match (c0, c1) {
        ('R', '8') => Some(X86Register::R8),
        ('R', '9') => Some(X86Register::R9),
        ('A', 'X') => Some(X86Register::AX),
        ('B', 'X') => Some(X86Register::BX),
        ('C', 'X') => Some(X86Register::CX),
        ('D', 'X') => Some(X86Register::DX),
        ('S', 'I') => Some(X86Register::SI),
        ('D', 'I') => Some(X86Register::DI),
        ('B', 'P') => Some(X86Register::BP),
        ('S', 'P') => Some(X86Register::SP),
        ('A', 'L') => Some(X86Register::AL),
        ('B', 'L') => Some(X86Register::BL),
        ('C', 'L') => Some(X86Register::CL),
        ('D', 'L') => Some(X86Register::DL),
        ('A', 'H') => Some(X86Register::AH),
        ('B', 'H') => Some(X86Register::BH),
        ('C', 'H') => Some(X86Register::CH),
        ('D', 'H') => Some(X86Register::DH),
        ('I', 'P') => Some(X86Register::IP),
        ('C', 'F') => Some(X86Register::CF),
        ('P', 'F') => Some(X86Register::PF),
        ('A', 'F') => Some(X86Register::AF),
        ('Z', 'F') => Some(X86Register::ZF),
        ('S', 'F') => Some(X86Register::SF),
        ('D', 'F') => Some(X86Register::DF),
        ('O', 'F') => Some(X86Register::OF),
        _ => None,
    }
}

/// The register whose name has the 3 characters given, if any.
pub open spec fn name_table_3(c0: char, c1: char, c2: char) -> Option<X86Register> {
    match (c0, c1, c2) {
        ('R', 'A', 'X') => Some(X86Register::RAX),
        ('R', 'B', 'X') => Some(X86Register::RBX),
        ('R', 'C', 'X') => Some(X86Register::RCX),
        ('R', 'D', 'X') => Some(X86Register::RDX),
        ('R', 'S', 'I') => Some(X86Register::RSI),
        ('R', 'D', 'I') => Some(X86Register::RDI),
        ('R', 'B', 'P') => Some(X86Register::RBP),
        ('R', 'S', 'P') => Some(X86Register::RSP),
        ('R', '1', '0') => Some(X86Register::R10),
        ('R', '1', '1') => Some(X86Register::R11),
        ('R', '1', '2') => Some(X86Register::R12),
        ('R', '1', '3') => Some(X86Register::R13),
        ('R', '1', '4') => Some(X86Register::R14),
        ('R', '1', '5') => Some(X86Register::R15),
        ('E', 'A', 'X') => Some(X86Register::EAX),
        ('E', 'B', 'X') => Some(X86Register::EBX),
        ('E', 'C', 'X') => Some(X86Register::ECX),
        ('E', 'D', 'X') => Some(X86Register::EDX),
        ('E', 'S', 'I') => Some(X86Register::ESI),
        ('E', 'D', 'I') => Some(X86Register::EDI),
        ('E', 'B', 'P') => Some(X86Register::EBP),
        ('E', 'S', 'P') => Some(X86Register::ESP),
        ('R', '8', 'D') => Some(X86Register::R8D),
        ('R', '9', 'D') => Some(X86Register::R9D),
        ('S', 'I', 'L') => Some(X86Register::SIL),
        ('D', 'I', 'L') => Some(X86Register::DIL),
        ('B', 'P', 'L') => Some(X86Register::BPL),
        ('S', 'P', 'L') => Some(X86Register::SPL),
        ('R', 'I', 'P') => Some(X86Register::RIP),
        ('E', 'I', 'P') => Some(X86Register::EIP),
        _ => None,
    }
}

/// The register whose name has the 4 characters given, if any.
pub open spec fn name_table_4(c0: char, c1: char, c2: char, c3: char) -> Option<X86Register> {
    match (c0, c1, c2, c3) {
        ('R', '1', '0', 'D') => Some(X86Register::R10D),
        ('R', '1', '1', 'D') => Some(X86Register::R11D),
        ('R', '1', '2', 'D') => Some(X86Register::R12D),
        ('R', '1', '3', 'D') => Some(X86Register::R13D),
        ('R', '1', '4', 'D') => Some(X86Register::R14D),
        ('R', '1', '5', 'D') => Some(X86Register::R15D),
        _ => None,
    }
}

/// The register whose name has the 6 characters given, if any.
pub open spec fn name_table_6(c0: char, c1: char, c2: char, c3: char, c4: char, c5: char) -> Option<X86Register> {
    match (c0, c1, c2, c3, c4, c5) {
        ('R', 'F', 'L', 'A', 'G', 'S') => Some(X86Register::RFLAGS),
        ('E', 'F', 'L', 'A', 'G', 'S') => Some(X86Register::EFLAGS),
        _ => None,
    }
}

/// The register that the name tables give for the upper-case form of `s`.
spec fn name_lookup(s: Seq<char>) -> Option<X86Register> {
    let u = upper_seq(s);
    if u.len() == 2 {
        name_table_2(u[0], u[1])
    }
    else if u.len() == 3 {
        name_table_3(u[0], u[1], u[2])
    }
    else if u.len() == 4 {
        name_table_4(u[0], u[1], u[2], u[3])
    }
    else if u.len() == 6 {
        name_table_6(u[0], u[1], u[2], u[3], u[4], u[5])
    }
 else {
        None
    }
}

/// The register named by `s`, read without regard to the case of ASCII
/// letters: the one whose name is the upper-case form of `s`; `None` where
/// no register has that name.
pub open spec fn spec_parse_register(s: Seq<char>) -> Option<X86Register> {
    if exists|r: X86Register| r.spec_name() == upper_seq(s) {
        Some(choose|r: X86Register| r.spec_name() == upper_seq(s))
    } else {
        None
    }
}

/// The tables give each register for its own name.
proof fn lemma_lookup_name(r: X86Register)
    ensures
        name_lookup(r.spec_name()) == Some(r),
{
    let n = r.spec_name();
    assert(upper_seq(n) =~= n);
}

/// The tables give a register only for its name, up to case.
proof fn lemma_lookup_sound(s: Seq<char>, r: X86Register)
    requires
        name_lookup(s) == Some(r),
    ensures
        upper_seq(s) == r.spec_name(),
{
    let u = upper_seq(s);
    assert(u =~= r.spec_name());
}

/// Upper-casing twice is upper-casing once.
proof fn lemma_upper_idempotent(s: Seq<char>)
    ensures
        upper_seq(upper_seq(s)) == upper_seq(s),
{
    assert(upper_seq(upper_seq(s)) =~= upper_seq(s));
}

/// The tables give exactly the register whose name the text is, up to case.
proof fn lemma_lookup_is_parse(s: Seq<char>)
    ensures
        name_lookup(s) == spec_parse_register(s),
{
    let u = upper_seq(s);
    match name_lookup(s) {
        Some(r) => {
            lemma_lookup_sound(s, r);
            assert(r.spec_name() == u);
            let q = choose|q: X86Register| q.spec_name() == u;
            if q != r {
                lemma_lookup_name(q);
                lemma_lookup_name(r);
            }
        },
        None => {
            if exists|q: X86Register| q.spec_name() == u {
                let q = choose|q: X86Register| q.spec_name() == u;
                lemma_lookup_name(q);
                lemma_upper_idempotent(s);
            }
        },
    }
}

fn parse_name_2(c0: char, c1: char) -> (r: Option<X86Register>)
    ensures
        r == name_table_2(c0, c1),
{
    match (c0, c1) {
        ('R', '8') => Some(X86Register::R8),
        ('R', '9') => Some(X86Register::R9),
        ('A', 'X') => Some(X86Register::AX),
        ('B', 'X') => Some(X86Register::BX),
        ('C', 'X') => Some(X86Register::CX),
        ('D', 'X') => Some(X86Register::DX),
        ('S', 'I') => Some(X86Register::SI),
        ('D', 'I') => Some(X86Register::DI),
        ('B', 'P') => Some(X86Register::BP),
        ('S', 'P') => Some(X86Register::SP),
        ('A', 'L') => Some(X86Register::AL),
        ('B', 'L') => Some(X86Register::BL),
        ('C', 'L') => Some(X86Register::CL),
        ('D', 'L') => Some(X86Register::DL),
        ('A', 'H') => Some(X86Register::AH),
        ('B', 'H') => Some(X86Register::BH),
        ('C', 'H') => Some(X86Register::CH),
        ('D', 'H') => Some(X86Register::DH),
        ('I', 'P') => Some(X86Register::IP),
        ('C', 'F') => Some(X86Register::CF),
        ('P', 'F') => Some(X86Register::PF),
        ('A', 'F') => Some(X86Register::AF),
        ('Z', 'F') => Some(X86Register::ZF),
        ('S', 'F') => Some(X86Register::SF),
        ('D', 'F') => Some(X86Register::DF),
        ('O', 'F') => Some(X86Register::OF),
        _ => None,
    }
}

fn parse_name_3(c0: char, c1: char, c2: char) -> (r: Option<X86Register>)
    ensures
        r == name_table_3(c0, c1, c2),
{
    match (c0, c1, c2) {
        ('R', 'A', 'X') => Some(X86Register::RAX),
        ('R', 'B', 'X') => Some(X86Register::RBX),
        ('R', 'C', 'X') => Some(X86Register::RCX),
        ('R', 'D', 'X') => Some(X86Register::RDX),
        ('R', 'S', 'I') => Some(X86Register::RSI),
        ('R', 'D', 'I') => Some(X86Register::RDI),
        ('R', 'B', 'P') => Some(X86Register::RBP),
        ('R', 'S', 'P') => Some(X86Register::RSP),
        ('R', '1', '0') => Some(X86Register::R10),
        ('R', '1', '1') => Some(X86Register::R11),
        ('R', '1', '2') => Some(X86Register::R12),
        ('R', '1', '3') => Some(X86Register::R13),
        ('R', '1', '4') => Some(X86Register::R14),
        ('R', '1', '5') => Some(X86Register::R15),
        ('E', 'A', 'X') => Some(X86Register::EAX),
        ('E', 'B', 'X') => Some(X86Register::EBX),
        ('E', 'C', 'X') => Some(X86Register::ECX),
        ('E', 'D', 'X') => Some(X86Register::EDX),
        ('E', 'S', 'I') => Some(X86Register::ESI),
        ('E', 'D', 'I') => Some(X86Register::EDI),
        ('E', 'B', 'P') => Some(X86Register::EBP),
        ('E', 'S', 'P') => Some(X86Register::ESP),
        ('R', '8', 'D') => Some(X86Register::R8D),
        ('R', '9', 'D') => Some(X86Register::R9D),
        ('S', 'I', 'L') => Some(X86Register::SIL),
        ('D', 'I', 'L') => Some(X86Register::DIL),
        ('B', 'P', 'L') => Some(X86Register::BPL),
        ('S', 'P', 'L') => Some(X86Register::SPL),
        ('R', 'I', 'P') => Some(X86Register::RIP),
        ('E', 'I', 'P') => Some(X86Register::EIP),
        _ => None,
    }
}

fn parse_name_4(c0: char, c1: char, c2: char, c3: char) -> (r: Option<X86Register>)
    ensures
        r == name_table_4(c0, c1, c2, c3),
{
    match (c0, c1, c2, c3) {
        ('R', '1', '0', 'D') => Some(X86Register::R10D),
        ('R', '1', '1', 'D') => Some(X86Register::R11D),
        ('R', '1', '2', 'D') => Some(X86Register::R12D),
        ('R', '1', '3', 'D') => Some(X86Register::R13D),
        ('R', '1', '4', 'D') => Some(X86Register::R14D),
        ('R', '1', '5', 'D') => Some(X86Register::R15D),
        _ => None,
    }
}

fn parse_name_6(c0: char, c1: char, c2: char, c3: char, c4: char, c5: char) -> (r: Option<X86Register>)
    ensures
        r == name_table_6(c0, c1, c2, c3, c4, c5),
{
    match (c0, c1, c2, c3, c4, c5) {
        ('R', 'F', 'L', 'A', 'G', 'S') => Some(X86Register::RFLAGS),
        ('E', 'F', 'L', 'A', 'G', 'S') => Some(X86Register::EFLAGS),
        _ => None,
    }
}

/// Parses a register name, ignoring the case of ASCII letters.
pub fn parse_register(s: &str) -> (r: Option<X86Register>)
    ensures
        r == spec_parse_register(s@),
{
    let u = upper_chars(s);
    let r = if u.len() == 2 {
        parse_name_2(u[0], u[1])
    }
    else if u.len() == 3 {
        parse_name_3(u[0], u[1], u[2])
    }
    else if u.len() == 4 {
        parse_name_4(u[0], u[1], u[2], u[3])
    }
    else if u.len() == 6 {
        parse_name_6(u[0], u[1], u[2], u[3], u[4], u[5])
    }
 else {
        None
    };
    proof {
        lemma_lookup_is_parse(s@);
    }
    r
}

/// Every register, in declaration order.
pub open spec fn spec_all_registers() -> Seq<X86Register> {
    seq![
        X86Register::RAX,
        X86Register::RBX,
        X86Register::RCX,
        X86Register::RDX,
        X86Register::RSI,
        X86Register::RDI,
        X86Register::RBP,
        X86Register::RSP,
        X86Register::R8,
        X86Register::R9,
        X86Register::R10,
        X86Register::R11,
        X86Register::R12,
        X86Register::R13,
        X86Register::R14,
        X86Register::R15,
        X86Register::EAX,
        X86Register::EBX,
        X86Register::ECX,
        X86Register::EDX,
        X86Register::ESI,
        X86Register::EDI,
        X86Register::EBP,
        X86Register::ESP,
        X86Register::R8D,
        X86Register::R9D,
        X86Register::R10D,
        X86Register::R11D,
        X86Register::R12D,
        X86Register::R13D,
        X86Register::R14D,
        X86Register::R15D,
        X86Register::AX,
        X86Register::BX,
        X86Register::CX,
        X86Register::DX,
        X86Register::SI,
        X86Register::DI,
        X86Register::BP,
        X86Register::SP,
        X86Register::AL,
        X86Register::BL,
        X86Register::CL,
        X86Register::DL,
        X86Register::SIL,
        X86Register::DIL,
        X86Register::BPL,
        X86Register::SPL,
        X86Register::AH,
        X86Register::BH,
        X86Register::CH,
        X86Register::DH,
        X86Register::RIP,
        X86Register::EIP,
        X86Register::IP,
        X86Register::RFLAGS,
        X86Register::EFLAGS,
        X86Register::CF,
        X86Register::PF,
        X86Register::AF,
        X86Register::ZF,
        X86Register::SF,
        X86Register::DF,
        X86Register::OF,
    ]
}

/// Every register, in declaration order (see `spec_all_registers`).
pub fn all_registers() -> (v: Vec<X86Register>)
    ensures
        v@ == spec_all_registers(),
{
    let v: Vec<X86Register> = vec![
        X86Register::RAX,
        X86Register::RBX,
        X86Register::RCX,
        X86Register::RDX,
        X86Register::RSI,
        X86Register::RDI,
        X86Register::RBP,
        X86Register::RSP,
        X86Register::R8,
        X86Register::R9,
        X86Register::R10,
        X86Register::R11,
        X86Register::R12,
        X86Register::R13,
        X86Register::R14,
        X86Register::R15,
        X86Register::EAX,
        X86Register::EBX,
        X86Register::ECX,
        X86Register::EDX,
        X86Register::ESI,
        X86Register::EDI,
        X86Register::EBP,
        X86Register::ESP,
        X86Register::R8D,
        X86Register::R9D,
        X86Register::R10D,
        X86Register::R11D,
        X86Register::R12D,
        X86Register::R13D,
        X86Register::R14D,
        X86Register::R15D,
        X86Register::AX,
        X86Register::BX,
        X86Register::CX,
        X86Register::DX,
        X86Register::SI,
        X86Register::DI,
        X86Register::BP,
        X86Register::SP,
        X86Register::AL,
        X86Register::BL,
        X86Register::CL,
        X86Register::DL,
        X86Register::SIL,
        X86Register::DIL,
        X86Register::BPL,
        X86Register::SPL,
        X86Register::AH,
        X86Register::BH,
        X86Register::CH,
        X86Register::DH,
        X86Register::RIP,
        X86Register::EIP,
        X86Register::IP,
        X86Register::RFLAGS,
        X86Register::EFLAGS,
        X86Register::CF,
        X86Register::PF,
        X86Register::AF,
        X86Register::ZF,
        X86Register::SF,
        X86Register::DF,
        X86Register::OF,
    ];
    proof {
        assert(v@ =~= spec_all_registers());
    }
    v
}

/// The list of all registers holds every register, once each.
#[verifier::rlimit(50)]
pub proof fn law_all_registers_complete()
    ensures
        spec_all_registers().len() == 64,
        forall|r: X86Register| spec_all_registers().contains(r),
        spec_all_registers().no_duplicates(),
{
    let v = spec_all_registers();
    assert forall|r: X86Register| v.contains(r) by {
        match r {
            X86Register::RAX => assert(v[0] == r),
            X86Register::RBX => assert(v[1] == r),
            X86Register::RCX => assert(v[2] == r),
            X86Register::RDX => assert(v[3] == r),
            X86Register::RSI => assert(v[4] == r),
            X86Register::RDI => assert(v[5] == r),
            X86Register::RBP => assert(v[6] == r),
            X86Register::RSP => assert(v[7] == r),
            X86Register::R8 => assert(v[8] == r),
            X86Register::R9 => assert(v[9] == r),
            X86Register::R10 => assert(v[10] == r),
            X86Register::R11 => assert(v[11] == r),
            X86Register::R12 => assert(v[12] == r),
            X86Register::R13 => assert(v[13] == r),
            X86Register::R14 => assert(v[14] == r),
            X86Register::R15 => assert(v[15] == r),
            X86Register::EAX => assert(v[16] == r),
            X86Register::EBX => assert(v[17] == r),
            X86Register::ECX => assert(v[18] == r),
            X86Register::EDX => assert(v[19] == r),
            X86Register::ESI => assert(v[20] == r),
            X86Register::EDI => assert(v[21] == r),
            X86Register::EBP => assert(v[22] == r),
            X86Register::ESP => assert(v[23] == r),
            X86Register::R8D => assert(v[24] == r),
            X86Register::R9D => assert(v[25] == r),
            X86Register::R10D => assert(v[26] == r),
            X86Register::R11D => assert(v[27] == r),
            X86Register::R12D => assert(v[28] == r),
            X86Register::R13D => assert(v[29] == r),
            X86Register::R14D => assert(v[30] == r),
            X86Register::R15D => assert(v[31] == r),
            X86Register::AX => assert(v[32] == r),
            X86Register::BX => assert(v[33] == r),
            X86Register::CX => assert(v[34] == r),
            X86Register::DX => assert(v[35] == r),
            X86Register::SI => assert(v[36] == r),
            X86Register::DI => assert(v[37] == r),
            X86Register::BP => assert(v[38] == r),
            X86Register::SP => assert(v[39] == r),
            X86Register::AL => assert(v[40] == r),
            X86Register::BL => assert(v[41] == r),
            X86Register::CL => assert(v[42] == r),
            X86Register::DL => assert(v[43] == r),
            X86Register::SIL => assert(v[44] == r),
            X86Register::DIL => assert(v[45] == r),
            X86Register::BPL => assert(v[46] == r),
            X86Register::SPL => assert(v[47] == r),
            X86Register::AH => assert(v[48] == r),
            X86Register::BH => assert(v[49] == r),
            X86Register::CH => assert(v[50] == r),
            X86Register::DH => assert(v[51] == r),
            X86Register::RIP => assert(v[52] == r),
            X86Register::EIP => assert(v[53] == r),
            X86Register::IP => assert(v[54] == r),
            X86Register::RFLAGS => assert(v[55] == r),
            X86Register::EFLAGS => assert(v[56] == r),
            X86Register::CF => assert(v[57] == r),
            X86Register::PF => assert(v[58] == r),
            X86Register::AF => assert(v[59] == r),
            X86Register::ZF => assert(v[60] == r),
            X86Register::SF => assert(v[61] == r),
            X86Register::DF => assert(v[62] == r),
            X86Register::OF => assert(v[63] == r),
        }
    }
    assert forall|i: int, j: int| 0 <= i < v.len() && 0 <= j < v.len() && i != j implies v[i] != v[j] by {
        law_parse_register_name(v[i]);
        law_parse_register_name(v[j]);
    }
}

/// Parsing a register's name gives back that register.
pub proof fn law_parse_register_name(r: X86Register)
    ensures
        spec_parse_register(r.spec_name()) == Some(r),
{
    lemma_lookup_name(r);
    lemma_lookup_is_parse(r.spec_name());
}

/// A name parses to a register only if it is that register's name, up to the
/// case of ASCII letters.
pub proof fn law_parse_register_sound(s: Seq<char>, r: X86Register)
    requires
        spec_parse_register(s) == Some(r),
    ensures
        upper_seq(s) == r.spec_name(),
{
}

/// Distinct registers have distinct names.
pub proof fn law_register_names_distinct(r1: X86Register, r2: X86Register)
    requires
        r1 != r2,
    ensures
        r1.spec_name() != r2.spec_name(),
{
    lemma_lookup_name(r1);
    lemma_lookup_name(r2);
}

/// Parsing ignores the case of ASCII letters: a text, its upper-case form and
/// its lower-case form all parse alike.
pub proof fn law_parse_register_ignores_case(s: Seq<char>)
    ensures
        spec_parse_register(upper_seq(s)) == spec_parse_register(s),
        spec_parse_register(lower_seq(s)) == spec_parse_register(s),
{
    lemma_upper_idempotent(s);
    assert forall|i: int| 0 <= i < s.len() implies ascii_upper(ascii_lower(#[trigger] s[i])) == ascii_upper(s[i]) by {
        let c = s[i];
        if 'A' <= c && c <= 'Z' {
            assert(ascii_lower(c) == ((c as u32) + 32) as char);
        }
    }
    assert(upper_seq(lower_seq(s)) =~= upper_seq(s));
}

} // verus!
