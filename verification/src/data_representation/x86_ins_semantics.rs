//! The semantics of an x86 instruction that can be known statically: which
//! operand roles it reads and writes, which registers it reads and writes
//! implicitly, and, once decoded, what each operand role stands for.

use vstd::prelude::*;
use crate::decoder::{
    self, capstone_disasm_all, capstone_insn_name, capstone_operand_access, capstone_operand_kind,
    capstone_operand_size, capstone_reg_name, capstone_x86_operands, has_details, DisasmSettings,
    X86Disassembler,
};
use capstone::arch::x86::X86Operand;
use crate::data_representation::x86_ins::{X86Instruction, parse_instruction, spec_parse_instruction};
use crate::data_representation::x86_reg::{X86Register, parse_register, spec_parse_register};
use crate::text::{contains_seq, dec, join, occurs_at, push_i64, push_u64};

verus! {

/// The role an operand plays in an instruction, by its position.
#[derive(Debug, Clone, Copy, PartialEq, Eq, Structural, PartialOrd, Ord)]
pub enum OperandRole {
    DEST,
    SRC1,
    SRC2,
}

/// An access to memory through an operand.
#[derive(Debug, Clone, Copy, PartialEq, Eq, Structural, PartialOrd, Ord)]
pub struct MemoryAccess {
    pub read: bool,
    pub write: bool,
    pub size_bytes: u8,
}

/// What an operand stands for.
#[derive(Debug, Clone, Copy, PartialEq, Eq, Structural, PartialOrd, Ord)]
pub enum AccessType {
    MEM(MemoryAccess),
    REG(X86Register),
    IMM(i64),
}

/// An operand role, and what stands in it once known.
#[derive(Debug, Clone, Copy, PartialEq, Eq, Structural, PartialOrd, Ord)]
pub struct OperandAccess {
    pub role: OperandRole,
    pub access_type: Option<AccessType>,
}

impl OperandAccess {
    /// The access for `role` whose operand is not known yet.
    pub open spec fn spec_unset(role: OperandRole) -> OperandAccess {
        OperandAccess { role, access_type: None }
    }

    /// The access for `role` whose operand is not known yet.
    pub fn unset(role: OperandRole) -> (a: OperandAccess)
        ensures
            a == Self::spec_unset(role),
    {
        OperandAccess { role, access_type: None }
    }
}

/// How capstone reports that an operand is accessed.
#[derive(Debug, Clone, Copy, PartialEq, Eq, Structural)]
pub enum RegAccess {
    ReadOnly,
    WriteOnly,
    ReadWrite,
}

/// The kind of a decoded operand: a register (by capstone's id), an immediate,
/// a memory reference, or nothing valid.
#[derive(Debug, Clone, Copy, PartialEq, Eq, Structural)]
pub enum OperandKind {
    Reg(u16),
    Imm(i64),
    Mem,
    Invalid,
}

/// A decoded x86 operand as the semantics read it.
#[derive(Debug, Clone, Copy, PartialEq, Eq, Structural)]
pub struct OperandInfo {
    pub kind: OperandKind,
    pub access: Option<RegAccess>,
    pub size: u8,
}

/// The abstract content of the semantics of one instruction.
#[verifier::ext_equal]
pub ghost struct SemanticsView {
    pub operand_reads: Seq<OperandAccess>,
    pub operand_writes: Seq<OperandAccess>,
    pub operand_writes_conditional: Seq<OperandAccess>,
    pub implicit_reads: Seq<X86Register>,
    pub implicit_writes: Seq<X86Register>,
}

/// `s` with every access for `role` set to `acc`; the others unchanged.
pub open spec fn set_role(s: Seq<OperandAccess>, role: OperandRole, acc: Option<AccessType>) -> Seq<
    OperandAccess,
> {
    Seq::new(
        s.len(),
        |i: int|
            if s[i].role == role {
                OperandAccess { role: s[i].role, access_type: acc }
            } else {
                s[i]
            },
    )
}

/// The memory access that a memory operand makes.
pub open spec fn spec_memory_access(op: OperandInfo) -> MemoryAccess {
    MemoryAccess {
        read: op.access == Some(RegAccess::ReadOnly) || op.access == Some(RegAccess::ReadWrite),
        write: op.access == Some(RegAccess::WriteOnly) || op.access == Some(RegAccess::ReadWrite),
        size_bytes: op.size,
    }
}

/// What an operand stands for, given the name that the disassembler gives its
/// register, if it is one; `None` where nothing is to be recorded (an invalid
/// operand, or a register without a name that the library knows).
pub open spec fn spec_operand_access(op: OperandInfo, reg_name: Option<Seq<char>>) -> Option<
    AccessType,
> {
    match op.kind {
        OperandKind::Reg(_) => match reg_name {
            Some(n) => match spec_parse_register(n) {
                Some(r) => Some(AccessType::REG(r)),
                None => None,
            },
            None => None,
        },
        OperandKind::Imm(v) => Some(AccessType::IMM(v)),
        OperandKind::Mem => Some(AccessType::MEM(spec_memory_access(op))),
        OperandKind::Invalid => None,
    }
}

/// The view of an optional string.
pub open spec fn opt_view(o: Option<String>) -> Option<Seq<char>> {
    match o {
        Some(s) => Some(s@),
        None => None,
    }
}

impl SemanticsView {
    /// Every operand access for `role`, read, written or conditionally written,
    /// set to `acc`.
    pub open spec fn with_role(self, role: OperandRole, acc: Option<AccessType>) -> SemanticsView {
        SemanticsView {
            operand_reads: set_role(self.operand_reads, role, acc),
            operand_writes: set_role(self.operand_writes, role, acc),
            operand_writes_conditional: set_role(self.operand_writes_conditional, role, acc),
            implicit_reads: self.implicit_reads,
            implicit_writes: self.implicit_writes,
        }
    }

    /// The semantics once `op` is known to stand in `role`.
    pub open spec fn with_operand(
        self,
        role: OperandRole,
        op: OperandInfo,
        reg_name: Option<Seq<char>>,
    ) -> SemanticsView {
        match spec_operand_access(op, reg_name) {
            Some(a) => self.with_role(role, Some(a)),
            None => self,
        }
    }

    /// The semantics once the first three decoded operands are known to stand
    /// in the roles `DEST`, `SRC1` and `SRC2`, in that order.
    pub open spec fn with_operands(
        self,
        ops: Seq<OperandInfo>,
        names: Seq<Option<Seq<char>>>,
    ) -> SemanticsView {
        let s0 = if ops.len() > 0 {
            self.with_operand(OperandRole::DEST, ops[0], names[0])
        } else {
            self
        };
        let s1 = if ops.len() > 1 {
            s0.with_operand(OperandRole::SRC1, ops[1], names[1])
        } else {
            s0
        };
        if ops.len() > 2 {
            s1.with_operand(OperandRole::SRC2, ops[2], names[2])
        } else {
            s1
        }
    }
}

/// The roles of a sequence of operand accesses.
pub open spec fn roles_of(s: Seq<OperandAccess>) -> Seq<OperandRole> {
    s.map_values(|a: OperandAccess| a.role)
}

/// Setting what stands in a role changes nothing else: the accesses keep their
/// number and roles, those of other roles are unchanged, and those of the role
/// now hold `acc`.
pub proof fn law_set_role_effect(s: Seq<OperandAccess>, role: OperandRole, acc: Option<AccessType>)
    ensures
        set_role(s, role, acc).len() == s.len(),
        roles_of(set_role(s, role, acc)) == roles_of(s),
        forall|i: int|
            0 <= i < s.len() && s[i].role != role ==> #[trigger] set_role(s, role, acc)[i] == s[i],
        forall|i: int|
            0 <= i < s.len() && s[i].role == role ==> #[trigger] set_role(s, role, acc)[i].access_type
                == acc,
{
    assert(roles_of(set_role(s, role, acc)) =~= roles_of(s));
}

/// Setting a role twice is setting it once, to the later value.
pub proof fn law_set_role_last_wins(
    s: Seq<OperandAccess>,
    role: OperandRole,
    a1: Option<AccessType>,
    a2: Option<AccessType>,
)
    ensures
        set_role(set_role(s, role, a1), role, a2) == set_role(s, role, a2),
{
    assert(set_role(set_role(s, role, a1), role, a2) =~= set_role(s, role, a2));
}

/// Setting different roles in either order gives the same accesses.
pub proof fn law_set_roles_commute(
    s: Seq<OperandAccess>,
    r1: OperandRole,
    a1: Option<AccessType>,
    r2: OperandRole,
    a2: Option<AccessType>,
)
    requires
        r1 != r2,
    ensures
        set_role(set_role(s, r1, a1), r2, a2) == set_role(set_role(s, r2, a2), r1, a1),
{
    assert(set_role(set_role(s, r1, a1), r2, a2) =~= set_role(set_role(s, r2, a2), r1, a1));
}

/// The accesses for each role in `roles`, none of them known yet.
pub open spec fn unset_all(roles: Seq<OperandRole>) -> Seq<OperandAccess> {
    roles.map_values(|r: OperandRole| OperandAccess::spec_unset(r))
}

/// What is known of an instruction before its operands are decoded:
/// `ADD` reads `DEST` and `SRC1`, writes `DEST`, and writes the six status
/// flags; `LEA` and `MOV` read `SRC1` and write `DEST`; of every other
/// instruction nothing is known.
pub open spec fn static_semantics(ins: X86Instruction) -> SemanticsView {
    match ins {
        X86Instruction::ADD => SemanticsView {
            operand_reads: unset_all(seq![OperandRole::DEST, OperandRole::SRC1]),
            operand_writes: unset_all(seq![OperandRole::DEST]),
            operand_writes_conditional: Seq::empty(),
            implicit_reads: Seq::empty(),
            implicit_writes: seq![
                X86Register::OF,
                X86Register::SF,
                X86Register::ZF,
                X86Register::AF,
                X86Register::PF,
                X86Register::CF,
            ],
        },
        X86Instruction::LEA | X86Instruction::MOV => SemanticsView {
            operand_reads: unset_all(seq![OperandRole::SRC1]),
            operand_writes: unset_all(seq![OperandRole::DEST]),
            operand_writes_conditional: Seq::empty(),
            implicit_reads: Seq::empty(),
            implicit_writes: Seq::empty(),
        },
        _ => SemanticsView {
            operand_reads: Seq::empty(),
            operand_writes: Seq::empty(),
            operand_writes_conditional: Seq::empty(),
            implicit_reads: Seq::empty(),
            implicit_writes: Seq::empty(),
        },
    }
}

/// The semantics of `ins` with its first three operands decoded.
pub open spec fn decoded_semantics(
    ins: X86Instruction,
    ops: Seq<OperandInfo>,
    names: Seq<Option<Seq<char>>>,
) -> SemanticsView {
    static_semantics(ins).with_operands(ops, names)
}

/// Recording an operand keeps the shape of the semantics: the roles read,
/// written and conditionally written, and the implicit registers.
pub proof fn lemma_with_operand_shape(
    s: SemanticsView,
    role: OperandRole,
    op: OperandInfo,
    name: Option<Seq<char>>,
)
    ensures
        roles_of(s.with_operand(role, op, name).operand_reads) == roles_of(s.operand_reads),
        roles_of(s.with_operand(role, op, name).operand_writes) == roles_of(s.operand_writes),
        roles_of(s.with_operand(role, op, name).operand_writes_conditional) == roles_of(
            s.operand_writes_conditional,
        ),
        s.with_operand(role, op, name).implicit_reads == s.implicit_reads,
        s.with_operand(role, op, name).implicit_writes == s.implicit_writes,
{
    if let Some(a) = spec_operand_access(op, name) {
        law_set_role_effect(s.operand_reads, role, Some(a));
        law_set_role_effect(s.operand_writes, role, Some(a));
        law_set_role_effect(s.operand_writes_conditional, role, Some(a));
    }
}

/// Decoding the operands of an instruction never changes which roles it reads
/// and writes, nor the registers it reads and writes implicitly: those stay as
/// the instruction's static semantics give them.
pub proof fn law_decoding_keeps_shape(
    ins: X86Instruction,
    ops: Seq<OperandInfo>,
    names: Seq<Option<Seq<char>>>,
)
    ensures
        roles_of(decoded_semantics(ins, ops, names).operand_reads) == roles_of(
            static_semantics(ins).operand_reads,
        ),
        roles_of(decoded_semantics(ins, ops, names).operand_writes) == roles_of(
            static_semantics(ins).operand_writes,
        ),
        roles_of(decoded_semantics(ins, ops, names).operand_writes_conditional) == roles_of(
            static_semantics(ins).operand_writes_conditional,
        ),
        decoded_semantics(ins, ops, names).implicit_reads == static_semantics(ins).implicit_reads,
        decoded_semantics(ins, ops, names).implicit_writes == static_semantics(ins).implicit_writes,
{
    let s = static_semantics(ins);
    if ops.len() > 0 {
        lemma_with_operand_shape(s, OperandRole::DEST, ops[0], names[0]);
        let s0 = s.with_operand(OperandRole::DEST, ops[0], names[0]);
        if ops.len() > 1 {
            lemma_with_operand_shape(s0, OperandRole::SRC1, ops[1], names[1]);
            let s1 = s0.with_operand(OperandRole::SRC1, ops[1], names[1]);
            if ops.len() > 2 {
                lemma_with_operand_shape(s1, OperandRole::SRC2, ops[2], names[2]);
            }
        }
    }
}

/// What the static table says, instruction by instruction: no instruction
/// reads a register implicitly or writes an operand only conditionally, and
/// every operand access starts with nothing recorded; `MOV` and `LEA` read
/// their source, write their destination and touch no register implicitly;
/// `ADD` reads its destination and source, writes its destination and writes
/// the six status flags `OF`, `SF`, `ZF`, `AF`, `PF`, `CF`; every other
/// instruction has no known accesses at all.
pub proof fn law_static_table(ins: X86Instruction)
    ensures
        static_semantics(ins).implicit_reads.len() == 0,
        static_semantics(ins).operand_writes_conditional.len() == 0,
        forall|i: int| 0 <= i < static_semantics(ins).operand_reads.len()
            ==> (#[trigger] static_semantics(ins).operand_reads[i]).access_type is None,
        forall|i: int| 0 <= i < static_semantics(ins).operand_writes.len()
            ==> (#[trigger] static_semantics(ins).operand_writes[i]).access_type is None,
        (ins == X86Instruction::MOV || ins == X86Instruction::LEA) ==> {
            &&& roles_of(static_semantics(ins).operand_reads) == seq![OperandRole::SRC1]
            &&& roles_of(static_semantics(ins).operand_writes) == seq![OperandRole::DEST]
            &&& static_semantics(ins).implicit_writes.len() == 0
        },
        ins == X86Instruction::ADD ==> {
            &&& roles_of(static_semantics(ins).operand_reads) == seq![OperandRole::DEST, OperandRole::SRC1]
            &&& roles_of(static_semantics(ins).operand_writes) == seq![OperandRole::DEST]
            &&& static_semantics(ins).implicit_writes == seq![
                X86Register::OF,
                X86Register::SF,
                X86Register::ZF,
                X86Register::AF,
                X86Register::PF,
                X86Register::CF,
            ]
        },
        !(ins == X86Instruction::MOV || ins == X86Instruction::LEA || ins == X86Instruction::ADD) ==> {
            &&& static_semantics(ins).operand_reads.len() == 0
            &&& static_semantics(ins).operand_writes.len() == 0
            &&& static_semantics(ins).implicit_writes.len() == 0
        },
{
    let s = static_semantics(ins);
    assert(roles_of(s.operand_reads) =~= s.operand_reads.map_values(|a: OperandAccess| a.role));
    if ins == X86Instruction::ADD {
        assert(roles_of(s.operand_reads) =~= seq![OperandRole::DEST, OperandRole::SRC1]);
        assert(roles_of(s.operand_writes) =~= seq![OperandRole::DEST]);
    } else if ins == X86Instruction::MOV || ins == X86Instruction::LEA {
        assert(roles_of(s.operand_reads) =~= seq![OperandRole::SRC1]);
        assert(roles_of(s.operand_writes) =~= seq![OperandRole::DEST]);
    }
}

/// Decoding keeps the table's implicit registers: whatever the decoded
/// operands, no instruction reads a register implicitly or writes an operand
/// only conditionally, and a decoded `MOV` or `LEA` touches no register
/// implicitly.
pub proof fn law_decoded_implicit_registers(
    ins: X86Instruction,
    ops: Seq<OperandInfo>,
    names: Seq<Option<Seq<char>>>,
)
    ensures
        decoded_semantics(ins, ops, names).implicit_reads.len() == 0,
        decoded_semantics(ins, ops, names).operand_writes_conditional.len() == 0,
        (ins == X86Instruction::MOV || ins == X86Instruction::LEA) ==> decoded_semantics(
            ins,
            ops,
            names,
        ).implicit_writes.len() == 0,
{
    law_decoding_keeps_shape(ins, ops, names);
    law_static_table(ins);
    let d = decoded_semantics(ins, ops, names);
    assert(roles_of(d.operand_writes_conditional).len() == d.operand_writes_conditional.len());
    assert(roles_of(static_semantics(ins).operand_writes_conditional).len()
        == static_semantics(ins).operand_writes_conditional.len());
}

/// A memory operand is read when capstone says it is read (read-only or
/// read-write) and written when it says it is written (write-only or
/// read-write), and has the operand's size: a store is no load.
pub proof fn law_memory_access_flags(op: OperandInfo)
    ensures
        op.access == Some(RegAccess::ReadOnly) ==> spec_memory_access(op).read && !spec_memory_access(op).write,
        op.access == Some(RegAccess::WriteOnly) ==> !spec_memory_access(op).read && spec_memory_access(op).write,
        op.access == Some(RegAccess::ReadWrite) ==> spec_memory_access(op).read && spec_memory_access(op).write,
        op.access is None ==> !spec_memory_access(op).read && !spec_memory_access(op).write,
        spec_memory_access(op).size_bytes == op.size,
{
}

/// Semantics of an instruction while its operands are being filled in.
#[derive(Debug, Clone)]
pub struct UninInsSmntcs {
    pub operand_reads: Vec<OperandAccess>,
    pub operand_writes: Vec<OperandAccess>,
    pub operand_writes_conditional: Vec<OperandAccess>,
    pub implicit_reads: Vec<X86Register>,
    pub implicit_writes: Vec<X86Register>,
}

/// The semantics of an instruction.
#[derive(Debug, Clone)]
pub struct InsSmntcs {
    pub operand_reads: Vec<OperandAccess>,
    pub operand_writes: Vec<OperandAccess>,
    pub operand_writes_conditional: Vec<OperandAccess>,
    pub implicit_reads: Vec<X86Register>,
    pub implicit_writes: Vec<X86Register>,
}

impl View for UninInsSmntcs {
    type V = SemanticsView;

    open spec fn view(&self) -> SemanticsView {
        SemanticsView {
            operand_reads: self.operand_reads@,
            operand_writes: self.operand_writes@,
            operand_writes_conditional: self.operand_writes_conditional@,
            implicit_reads: self.implicit_reads@,
            implicit_writes: self.implicit_writes@,
        }
    }
}

impl View for InsSmntcs {
    type V = SemanticsView;

    open spec fn view(&self) -> SemanticsView {
        SemanticsView {
            operand_reads: self.operand_reads@,
            operand_writes: self.operand_writes@,
            operand_writes_conditional: self.operand_writes_conditional@,
            implicit_reads: self.implicit_reads@,
            implicit_writes: self.implicit_writes@,
        }
    }
}

impl InsSmntcs {
    /// The finished semantics, moved out of the ones being filled in.
    pub fn from_unin(us: UninInsSmntcs) -> (s: InsSmntcs)
        ensures
            s@ == us@,
    {
        InsSmntcs::from(us)
    }
}

impl From<UninInsSmntcs> for InsSmntcs {
    fn from(us: UninInsSmntcs) -> (s: InsSmntcs) {
        InsSmntcs {
            operand_reads: us.operand_reads,
            operand_writes: us.operand_writes,
            operand_writes_conditional: us.operand_writes_conditional,
            implicit_reads: us.implicit_reads,
            implicit_writes: us.implicit_writes,
        }
    }
}

impl vstd::std_specs::convert::FromSpecImpl<UninInsSmntcs> for InsSmntcs {
    open spec fn obeys_from_spec() -> bool {
        true
    }

    open spec fn from_spec(us: UninInsSmntcs) -> InsSmntcs {
        InsSmntcs {
            operand_reads: us.operand_reads,
            operand_writes: us.operand_writes,
            operand_writes_conditional: us.operand_writes_conditional,
            implicit_reads: us.implicit_reads,
            implicit_writes: us.implicit_writes,
        }
    }
}

/// Sets every access for `role` in `v` to `acc`.
fn set_role_in(v: &mut Vec<OperandAccess>, role: OperandRole, acc: Option<AccessType>)
    ensures
        final(v)@ == set_role(old(v)@, role, acc),
{
    let ghost start = v@;
    let mut i: usize = 0;
    while i < v.len()
        invariant
            v@.len() == start.len(),
            i <= v@.len(),
            forall|j: int| 0 <= j < i ==> v@[j] == set_role(start, role, acc)[j],
            forall|j: int| i <= j < v@.len() ==> v@[j] == start[j],
        decreases v@.len() - i,
    {
        if v[i].role == role {
            let r = v[i].role;
            v.set(i, OperandAccess { role: r, access_type: acc });
        }
        i = i + 1;
    }
    proof {
        assert(v@ =~= set_role(start, role, acc));
    }
}

impl UninInsSmntcs {
    /// Sets what stands in `role` in every operand access for that role.
    pub fn set_operand_access_for_role(&mut self, role: OperandRole, acc_type: Option<AccessType>)
        ensures
            final(self)@ == old(self)@.with_role(role, acc_type),
    {
        set_role_in(&mut self.operand_reads, role, acc_type);
        set_role_in(&mut self.operand_writes, role, acc_type);
        set_role_in(&mut self.operand_writes_conditional, role, acc_type);
    }

    /// Records that `operand` stands in `role`, given the name that the
    /// disassembler gives its register where it is one.
    pub fn pop_smnt_for_role_named(
        &mut self,
        role: OperandRole,
        operand: OperandInfo,
        reg_name: &Option<String>,
    )
        ensures
            final(self)@ == old(self)@.with_operand(role, operand, opt_view(*reg_name)),
    {
        match operand.kind {
            OperandKind::Reg(_) => {
                if let Some(name) = reg_name {
                    if let Some(reg) = parse_register(name.as_str()) {
                        self.set_operand_access_for_role(role, Some(AccessType::REG(reg)));
                    }
                }
            },
            OperandKind::Imm(imm) => {
                self.set_operand_access_for_role(role, Some(AccessType::IMM(imm)));
            },
            OperandKind::Mem => {
                let read = match operand.access {
                    Some(RegAccess::ReadOnly) | Some(RegAccess::ReadWrite) => true,
                    _ => false,
                };
                let write = match operand.access {
                    Some(RegAccess::WriteOnly) | Some(RegAccess::ReadWrite) => true,
                    _ => false,
                };
                let mem_access = MemoryAccess { read, write, size_bytes: operand.size };
                self.set_operand_access_for_role(role, Some(AccessType::MEM(mem_access)));
            },
            OperandKind::Invalid => {},
        }
    }

    /// Records that `operand` stands in `role`, asking `cs` for the name of its
    /// register where it is one (see `reg_name_for`).
    pub fn pop_smnt_for_role(&mut self, cs: &X86Disassembler, role: OperandRole, operand: OperandInfo)
        ensures
            final(self)@ == old(self)@.with_operand(role, operand, reg_name_for(cs.spec_settings(), operand)),
    {
        let name = match operand.kind {
            OperandKind::Reg(id) => decoder::reg_name(cs, id),
            _ => None,
        };
        self.pop_smnt_for_role_named(role, operand, &name);
    }
}

/// Everything about `ins` that is known before its operands are decoded (see
/// `static_semantics`).
pub fn populate_semantics(ins: X86Instruction) -> (s: UninInsSmntcs)
    ensures
        s@ == static_semantics(ins),
        s.implicit_reads@.len() == 0,
        s.operand_writes_conditional@.len() == 0,
        (ins == X86Instruction::MOV || ins == X86Instruction::LEA) ==> s.implicit_writes@.len() == 0,
{
    match ins {
        X86Instruction::ADD => {
            let s = UninInsSmntcs {
                operand_reads: vec![
                    OperandAccess::unset(OperandRole::DEST),
                    OperandAccess::unset(OperandRole::SRC1),
                ],
                operand_writes: vec![OperandAccess::unset(OperandRole::DEST)],
                operand_writes_conditional: Vec::new(),
                implicit_reads: Vec::new(),
                implicit_writes: vec![
                    X86Register::OF,
                    X86Register::SF,
                    X86Register::ZF,
                    X86Register::AF,
                    X86Register::PF,
                    X86Register::CF,
                ],
            };
            proof {
                assert(s@ =~= static_semantics(ins));
            }
            s
        },
        X86Instruction::LEA | X86Instruction::MOV => {
            let s = UninInsSmntcs {
                operand_reads: vec![OperandAccess::unset(OperandRole::SRC1)],
                operand_writes: vec![OperandAccess::unset(OperandRole::DEST)],
                operand_writes_conditional: Vec::new(),
                implicit_reads: Vec::new(),
                implicit_writes: Vec::new(),
            };
            proof {
                assert(s@ =~= static_semantics(ins));
            }
            s
        },
        _ => {
            let s = UninInsSmntcs {
                operand_reads: Vec::new(),
                operand_writes: Vec::new(),
                operand_writes_conditional: Vec::new(),
                implicit_reads: Vec::new(),
                implicit_writes: Vec::new(),
            };
            proof {
                assert(s@ =~= static_semantics(ins));
            }
            s
        },
    }
}

/// The view of a vector of optional register names.
pub open spec fn names_view(names: Seq<Option<String>>) -> Seq<Option<Seq<char>>> {
    names.map_values(|o: Option<String>| opt_view(o))
}

/// The semantics of `ins` once its decoded operands are known, with the names
/// that the disassembler gives to their registers (see `decoded_semantics`).
pub fn semantics_from_operands(
    ins: X86Instruction,
    ops: &Vec<OperandInfo>,
    names: &Vec<Option<String>>,
) -> (s: InsSmntcs)
    requires
        names.len() == ops.len(),
    ensures
        s@ == decoded_semantics(ins, ops@, names_view(names@)),
{
    let mut us = populate_semantics(ins);
    if ops.len() > 0 {
        us.pop_smnt_for_role_named(OperandRole::DEST, ops[0], &names[0]);
    }
    if ops.len() > 1 {
        us.pop_smnt_for_role_named(OperandRole::SRC1, ops[1], &names[1]);
    }
    if ops.len() > 2 {
        us.pop_smnt_for_role_named(OperandRole::SRC2, ops[2], &names[2]);
    }
    InsSmntcs::from_unin(us)
}

/// What the library reads of a decoded x86 operand.
pub open spec fn operand_info_of(op: X86Operand) -> OperandInfo {
    OperandInfo {
        kind: capstone_operand_kind(op),
        access: capstone_operand_access(op),
        size: capstone_operand_size(op),
    }
}

/// The name that capstone gives an operand's register; `None` for an operand
/// that is not a register.
pub open spec fn reg_name_for(settings: DisasmSettings, op: OperandInfo) -> Option<Seq<char>> {
    match op.kind {
        OperandKind::Reg(id) => capstone_reg_name(settings, id),
        _ => None,
    }
}

/// The first three (or fewer) of decoded operands, as the library reads them.
pub open spec fn first_operands(xops: Seq<X86Operand>) -> Seq<OperandInfo> {
    let n = if xops.len() < 3 {
        xops.len() as int
    } else {
        3
    };
    xops.take(n).map_values(|op: X86Operand| operand_info_of(op))
}

/// The semantics of the first instruction that a handle with `settings`
/// decodes from `bytes` at `0x1000`: its mnemonic read as an instruction of
/// the library, with its first three operands, and their registers' names,
/// filled in. `None` where capstone decodes no instruction, has no mnemonic
/// for it, gives no details (details off), or where the library does not know
/// the mnemonic.
pub open spec fn spec_decode_first(settings: DisasmSettings, bytes: Seq<u8>) -> Option<SemanticsView> {
    let keys = capstone_disasm_all(settings, bytes, 0x1000);
    if keys.len() == 0 {
        None
    } else {
        match capstone_insn_name(settings, keys[0].1) {
            None => None,
            Some(m) => match spec_parse_instruction(m) {
                None => None,
                Some(ins) => if has_details(keys[0]) {
                    let ops = first_operands(capstone_x86_operands(keys[0]));
                    Some(
                        decoded_semantics(
                            ins,
                            ops,
                            ops.map_values(|o: OperandInfo| reg_name_for(settings, o)),
                        ),
                    )
                } else {
                    None
                },
            },
        }
    }
}

/// Disassembles the first instruction of `bytes` (as if loaded at `0x1000`)
/// and returns its semantics, with its first three operands filled in (see
/// `spec_decode_first`).
pub fn decode_and_populate_semantics(cs: &X86Disassembler, bytes: &[u8]) -> (res: Option<InsSmntcs>)
    ensures
        match spec_decode_first(cs.spec_settings(), bytes@) {
            None => res is None,
            Some(v) => res matches Some(s) && s@ == v,
        },
        bytes@.len() == 0 ==> res is None,
        !cs.spec_settings().detail ==> res is None,
        res matches Some(s) ==> s.implicit_reads@.len() == 0 && s.operand_writes_conditional@.len() == 0,
{
    let insns = match decoder::disasm_all(cs, bytes, 0x1000) {
        Some(i) => i,
        None => return None,
    };
    if decoder::insns_len(&insns) == 0 {
        return None;
    }
    let insn = decoder::insn_at(&insns, 0);
    let mnemonic = match decoder::insn_name(cs, decoder::insn_id(insn)) {
        Some(m) => m,
        None => return None,
    };
    let ins = match parse_instruction(mnemonic.as_str()) {
        Some(i) => i,
        None => return None,
    };
    let operands = match decoder::x86_operands(cs, insn) {
        Some(o) => o,
        None => return None,
    };
    let ghost want = first_operands(operands@);
    let mut ops: Vec<OperandInfo> = Vec::new();
    let mut names: Vec<Option<String>> = Vec::new();
    let mut i: usize = 0;
    while i < operands.len() && i < 3
        invariant
            i <= 3,
            i <= operands@.len(),
            ops@ == operands@.take(i as int).map_values(|op: X86Operand| operand_info_of(op)),
            names_view(names@) == ops@.map_values(|o: OperandInfo| reg_name_for(cs.spec_settings(), o)),
        decreases operands.len() - i,
    {
        let op = &operands[i];
        let info = OperandInfo {
            kind: decoder::operand_kind(op),
            access: decoder::operand_access(op),
            size: decoder::operand_size(op),
        };
        let name = match info.kind {
            OperandKind::Reg(id) => decoder::reg_name(cs, id),
            _ => None,
        };
        assert(opt_view(name) == reg_name_for(cs.spec_settings(), info));
        let ghost prev_ops = ops@;
        let ghost prev_names = names@;
        assert(names_view(prev_names).len() == prev_names.len());
        ops.push(info);
        names.push(name);
        proof {
            assert(names@ == prev_names.push(name));
            assert(ops@ =~= operands@.take(i + 1).map_values(|op: X86Operand| operand_info_of(op)));
            assert forall|k: int| 0 <= k < ops@.len() implies names_view(names@)[k] == reg_name_for(
                cs.spec_settings(),
                #[trigger] ops@[k],
            ) by {
                if k < prev_ops.len() {
                    assert(ops@[k] == prev_ops[k]);
                    assert(names@[k] == prev_names[k]);
                    assert(names_view(prev_names)[k] == reg_name_for(cs.spec_settings(), prev_ops[k]));
                }
            }
            assert(names_view(names@) =~= ops@.map_values(|o: OperandInfo| reg_name_for(cs.spec_settings(), o)));
        }
        i = i + 1;
    }
    proof {
        assert(ops@ =~= want);
    }
    let s = semantics_from_operands(ins, &ops, &names);
    proof {
        law_decoded_implicit_registers(ins, ops@, names_view(names@));
    }
    Some(s)
}

/// The instruction of the library that the first mnemonic capstone decodes
/// from `bytes` at `0x1000` reads as, if any.
pub open spec fn first_decoded_instruction(settings: DisasmSettings, bytes: Seq<u8>) -> Option<X86Instruction> {
    let keys = capstone_disasm_all(settings, bytes, 0x1000);
    if keys.len() == 0 {
        None
    } else {
        match capstone_insn_name(settings, keys[0].1) {
            None => None,
            Some(m) => spec_parse_instruction(m),
        }
    }
}

/// What decoding gives has the shape of the static semantics of the
/// instruction that capstone decoded: the same roles read, written and
/// conditionally written, and the same implicit registers.
pub proof fn law_decode_keeps_shape(settings: DisasmSettings, bytes: Seq<u8>)
    requires
        spec_decode_first(settings, bytes) is Some,
    ensures
        first_decoded_instruction(settings, bytes) matches Some(ins) && {
            let v = spec_decode_first(settings, bytes).unwrap();
            let s = static_semantics(ins);
            &&& roles_of(v.operand_reads) == roles_of(s.operand_reads)
            &&& roles_of(v.operand_writes) == roles_of(s.operand_writes)
            &&& roles_of(v.operand_writes_conditional) == roles_of(s.operand_writes_conditional)
            &&& v.implicit_reads == s.implicit_reads
            &&& v.implicit_writes == s.implicit_writes
        },
{
    let keys = capstone_disasm_all(settings, bytes, 0x1000);
    let m = capstone_insn_name(settings, keys[0].1).unwrap();
    let ins = spec_parse_instruction(m).unwrap();
    let xops = capstone_x86_operands(keys[0]);
    let ops = first_operands(xops);
    law_decoding_keeps_shape(
        ins,
        ops,
        ops.map_values(|o: OperandInfo| reg_name_for(settings, o)),
    );
}

/// The text of a role, as `{:?}` prints it.
pub open spec fn role_text(r: OperandRole) -> Seq<char> {
    match r {
        OperandRole::DEST => "DEST"@,
        OperandRole::SRC1 => "SRC1"@,
        OperandRole::SRC2 => "SRC2"@,
    }
}

/// The text of a boolean, as `{:?}` prints it.
pub open spec fn bool_text(b: bool) -> Seq<char> {
    if b {
        "true"@
    } else {
        "false"@
    }
}

/// The text of what stands in a role, as `{:?}` prints it.
pub open spec fn access_text(a: Option<AccessType>) -> Seq<char> {
    match a {
        None => "None"@,
        Some(AccessType::REG(r)) => "Some(REG("@ + r.spec_name() + "))"@,
        Some(AccessType::IMM(v)) => "Some(IMM("@ + dec(v as int) + "))"@,
        Some(AccessType::MEM(m)) => "Some(MEM(MemoryAccess { read: "@ + bool_text(m.read)
            + ", write: "@ + bool_text(m.write) + ", size_bytes: "@ + dec(m.size_bytes as int)
            + " }))"@,
    }
}

/// The text of a memory access shows its read flag after `read: ` and its
/// write flag after `write: `: a store reads `read: false, write: true`, a
/// load `read: true, write: false`.
pub proof fn law_memory_access_text(m: MemoryAccess)
    ensures
        contains_seq(
            access_text(Some(AccessType::MEM(m))),
            if m.read {
                "read: true"@
            } else {
                "read: false"@
            },
        ),
        contains_seq(
            access_text(Some(AccessType::MEM(m))),
            if m.write {
                "write: true"@
            } else {
                "write: false"@
            },
        ),
{
    reveal_strlit("Some(MEM(MemoryAccess { read: ");
    reveal_strlit(", write: ");
    reveal_strlit(", size_bytes: ");
    reveal_strlit(" }))");
    reveal_strlit("true");
    reveal_strlit("false");
    reveal_strlit("read: true");
    reveal_strlit("read: false");
    reveal_strlit("write: true");
    reveal_strlit("write: false");
    let t = access_text(Some(AccessType::MEM(m)));
    let rb = bool_text(m.read);
    let wb = bool_text(m.write);
    let rest = ", size_bytes: "@ + dec(m.size_bytes as int) + " }))"@;
    assert(t =~= "Some(MEM(MemoryAccess { read: "@ + rb + ", write: "@ + wb + rest);
    let nr: Seq<char> = if m.read {
        "read: true"@
    } else {
        "read: false"@
    };
    let nw: Seq<char> = if m.write {
        "write: true"@
    } else {
        "write: false"@
    };
    assert(nr =~= "read: "@ + rb) by {
        reveal_strlit("read: ");
    }
    assert(nw =~= "write: "@ + wb) by {
        reveal_strlit("write: ");
    }
    assert(t.subrange(24, 24 + nr.len() as int) =~= nr);
    assert(occurs_at(t, nr, 24));
    let j: int = 32 + rb.len() as int;
    assert(t.subrange(j, j + nw.len() as int) =~= nw);
    assert(occurs_at(t, nw, j));
}

/// The text of a register access holds the register's name, and that of an
/// immediate holds its value in decimal.
pub proof fn law_register_and_immediate_text(r: X86Register, v: i64)
    ensures
        contains_seq(access_text(Some(AccessType::REG(r))), r.spec_name()),
        contains_seq(access_text(Some(AccessType::IMM(v))), dec(v as int)),
{
    reveal_strlit("Some(REG(");
    reveal_strlit("Some(IMM(");
    reveal_strlit("))");
    let t = access_text(Some(AccessType::REG(r)));
    assert(t.subrange(9, 9 + r.spec_name().len() as int) =~= r.spec_name());
    assert(occurs_at(t, r.spec_name(), 9));
    let u = access_text(Some(AccessType::IMM(v)));
    assert(u.subrange(9, 9 + dec(v as int).len() as int) =~= dec(v as int));
    assert(occurs_at(u, dec(v as int), 9));
}

/// One line per operand access: `role: R, access type: A`.
pub open spec fn access_lines(ops: Seq<OperandAccess>) -> Seq<char>
    decreases ops.len(),
{
    if ops.len() == 0 {
        Seq::empty()
    } else {
        access_lines(ops.drop_last()) + "role: "@ + role_text(ops.last().role) + ", access type: "@
            + access_text(ops.last().access_type) + "\n"@
    }
}

/// A list of registers as `{:?}` prints it: `[A, B]`.
pub open spec fn register_list_text(rs: Seq<X86Register>) -> Seq<char> {
    "["@ + join(rs.map_values(|r: X86Register| r.spec_name()), ", "@) + "]"@
}

/// The display of the semantics of an instruction.
pub open spec fn semantics_text(s: SemanticsView) -> Seq<char> {
    "Operand Reads:\n"@ + access_lines(s.operand_reads) + "Operand Writes:\n"@ + access_lines(
        s.operand_writes,
    ) + "Conditional Operand Writes:\n"@ + access_lines(s.operand_writes_conditional)
        + "implicit reads: "@ + register_list_text(s.implicit_reads) + "\n"@
        + "implicit writes: "@ + register_list_text(s.implicit_writes) + "\n"@
}

fn append_role(out: &mut String, r: OperandRole)
    ensures
        final(out)@ == old(out)@ + role_text(r),
{
    match r {
        OperandRole::DEST => out.append("DEST"),
        OperandRole::SRC1 => out.append("SRC1"),
        OperandRole::SRC2 => out.append("SRC2"),
    }
}

fn append_bool(out: &mut String, b: bool)
    ensures
        final(out)@ == old(out)@ + bool_text(b),
{
    if b {
        out.append("true");
    } else {
        out.append("false");
    }
}

fn append_access(out: &mut String, a: Option<AccessType>)
    ensures
        final(out)@ == old(out)@ + access_text(a),
{
    let ghost start = out@;
    match a {
        None => out.append("None"),
        Some(AccessType::REG(r)) => {
            out.append("Some(REG(");
            out.append(r.name());
            out.append("))");
        },
        Some(AccessType::IMM(v)) => {
            out.append("Some(IMM(");
            push_i64(out, v);
            out.append("))");
        },
        Some(AccessType::MEM(m)) => {
            out.append("Some(MEM(MemoryAccess { read: ");
            append_bool(out, m.read);
            out.append(", write: ");
            append_bool(out, m.write);
            out.append(", size_bytes: ");
            push_u64(out, m.size_bytes as u64);
            out.append(" }))");
        },
    }
    proof {
        assert(out@ =~= start + access_text(a));
    }
}

fn append_access_lines(out: &mut String, ops: &Vec<OperandAccess>)
    ensures
        final(out)@ == old(out)@ + access_lines(ops@),
{
    let ghost start = out@;
    let mut i: usize = 0;
    while i < ops.len()
        invariant
            i <= ops@.len(),
            out@ == start + access_lines(ops@.take(i as int)),
        decreases ops@.len() - i,
    {
        proof {
            assert(ops@.take(i + 1).drop_last() =~= ops@.take(i as int));
        }
        out.append("role: ");
        append_role(out, ops[i].role);
        out.append(", access type: ");
        append_access(out, ops[i].access_type);
        out.append("\n");
        proof {
            assert(out@ =~= start + access_lines(ops@.take(i + 1)));
        }
        i = i + 1;
    }
    proof {
        assert(ops@.take(i as int) =~= ops@);
    }
}

fn append_register_list(out: &mut String, rs: &Vec<X86Register>)
    ensures
        final(out)@ == old(out)@ + register_list_text(rs@),
{
    let ghost start = out@;
    let ghost names = rs@.map_values(|r: X86Register| r.spec_name());
    out.append("[");
    let mut i: usize = 0;
    while i < rs.len()
        invariant
            i <= rs@.len(),
            names == rs@.map_values(|r: X86Register| r.spec_name()),
            out@ == start + "["@ + join(names.take(i as int), ", "@),
        decreases rs@.len() - i,
    {
        proof {
            assert(names.take(i + 1).drop_last() =~= names.take(i as int));
        }
        if i > 0 {
            out.append(", ");
        }
        out.append(rs[i].name());
        proof {
            if i == 0 {
                assert(names.take(1) =~= seq![names[0]]);
            }
            assert(out@ =~= start + "["@ + join(names.take(i + 1), ", "@));
        }
        i = i + 1;
    }
    out.append("]");
    proof {
        assert(names.take(i as int) =~= names);
        assert(out@ =~= start + register_list_text(rs@));
    }
}

impl InsSmntcs {
    /// The display of the semantics (see `semantics_text`).
    pub fn to_text(&self) -> (s: String)
        ensures
            s@ == semantics_text(self@),
    {
        let mut out = String::new();
        out.append("Operand Reads:\n");
        append_access_lines(&mut out, &self.operand_reads);
        out.append("Operand Writes:\n");
        append_access_lines(&mut out, &self.operand_writes);
        out.append("Conditional Operand Writes:\n");
        append_access_lines(&mut out, &self.operand_writes_conditional);
        out.append("implicit reads: ");
        append_register_list(&mut out, &self.implicit_reads);
        out.append("\n");
        out.append("implicit writes: ");
        append_register_list(&mut out, &self.implicit_writes);
        out.append("\n");
        proof {
            assert(out@ =~= semantics_text(self@));
        }
        out
    }
}

} // verus!
