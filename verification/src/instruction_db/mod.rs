//! A database of instruction information, and what the analysis of a binary
//! computes per instruction: register names, group names, and the registers an
//! instruction reads and writes through its operands.

use vstd::prelude::*;
use std::collections::HashMap;
use capstone::Insn;
use crate::decoder::{
    self, capstone_disasm_all, capstone_group_name, capstone_groups, capstone_insn_name,
    capstone_insn_text, capstone_reg_name, capstone_regs_read, capstone_regs_write,
    capstone_x86_operands, has_details, insn_view, DisasmSettings, InsnKey, X86Disassembler,
};
use capstone::arch::x86::X86Operand;
use crate::data_representation::x86_reg::{X86Register, parse_register, spec_parse_register};
use crate::data_representation::x86_ins_semantics::{
    OperandInfo, OperandKind, RegAccess, names_view, operand_info_of, opt_view,
};
use crate::text::join;

verus! {

pub type InstructionId = i32;

pub type RegisterIdX86 = i32;

/// What is recorded of one instruction.
#[derive(Debug, Clone)]
pub struct InstructionInfo {
    pub mnemonic: String,
    pub registers_read: Vec<RegisterIdX86>,
    pub registers_written: Vec<RegisterIdX86>,
    pub flags_read: Vec<u16>,
    pub flags_written: Vec<u16>,
}

/// Instruction information by instruction id.
#[derive(Debug)]
pub struct InsDB {
    pub instructions: HashMap<InstructionId, InstructionInfo>,
}

impl InsDB {
    /// The database without instructions.
    pub fn new() -> (db: InsDB)
        ensures
            db.instructions@ == Map::<InstructionId, InstructionInfo>::empty(),
    {
        InsDB { instructions: HashMap::new() }
    }
}

impl Default for InsDB {
    fn default() -> (db: InsDB)
        ensures
            db.instructions@ == Map::<InstructionId, InstructionInfo>::empty(),
    {
        InsDB::new()
    }
}

/// The names of registers, each as `{:?}` prints it, separated by `, `.
pub open spec fn register_names_text(regs: Seq<X86Register>) -> Seq<char> {
    join(regs.map_values(|r: X86Register| r.spec_name()), ", "@)
}

/// Appends `items` joined by `sep` (of which `join` is the text) to `out`.
fn append_joined_names(out: &mut String, regs: &Vec<X86Register>)
    ensures
        final(out)@ == old(out)@ + register_names_text(regs@),
{
    let ghost start = out@;
    let ghost names = regs@.map_values(|r: X86Register| r.spec_name());
    let mut i: usize = 0;
    while i < regs.len()
        invariant
            i <= regs@.len(),
            names == regs@.map_values(|r: X86Register| r.spec_name()),
            out@ == start + join(names.take(i as int), ", "@),
        decreases regs@.len() - i,
    {
        proof {
            assert(names.take(i + 1).drop_last() =~= names.take(i as int));
        }
        if i > 0 {
            out.append(", ");
        }
        out.append(regs[i].name());
        proof {
            if i == 0 {
                assert(names.take(1) =~= seq![names[0]]);
            }
            assert(out@ =~= start + join(names.take(i + 1), ", "@));
        }
        i = i + 1;
    }
    proof {
        assert(names.take(i as int) =~= names);
    }
}

/// The names of `regs`, separated by `, `.
pub fn join_register_names(regs: &Vec<X86Register>) -> (s: String)
    ensures
        s@ == register_names_text(regs@),
{
    let mut s = String::new();
    append_joined_names(&mut s, regs);
    s
}

/// Every name is present and names a register.
pub open spec fn all_registers_named(names: Seq<Option<Seq<char>>>) -> bool {
    forall|i: int|
        0 <= i < names.len() ==> (#[trigger] names[i] matches Some(n) && spec_parse_register(
            n,
        ) is Some)
}

/// The registers that the names give (meaningful where `all_registers_named`).
pub open spec fn registers_named(names: Seq<Option<Seq<char>>>) -> Seq<X86Register> {
    names.map_values(|o: Option<Seq<char>>| spec_parse_register(o.unwrap()).unwrap())
}

/// The registers that the names give, or `None` where a name is absent or
/// names no register.
pub fn registers_of_names(names: &Vec<Option<String>>) -> (r: Option<Vec<X86Register>>)
    ensures
        match r {
            Some(v) => all_registers_named(names_view(names@)) && v@ == registers_named(
                names_view(names@),
            ),
            None => !all_registers_named(names_view(names@)),
        },
{
    let ghost nv = names_view(names@);
    let mut v: Vec<X86Register> = Vec::new();
    let mut i: usize = 0;
    while i < names.len()
        invariant
            i <= names@.len(),
            nv == names_view(names@),
            v@ == registers_named(nv.take(i as int)),
            forall|j: int| 0 <= j < i ==> (#[trigger] nv[j] matches Some(n) && spec_parse_register(
                n,
            ) is Some),
        decreases names@.len() - i,
    {
        match &names[i] {
            Some(n) => match parse_register(n.as_str()) {
                Some(r) => {
                    v.push(r);
                },
                None => {
                    proof {
                        assert(nv[i as int] == Some(n@));
                        assert(!(#[trigger] nv[i as int] matches Some(m) && spec_parse_register(m) is Some));
                    }
                    return None;
                },
            },
            None => {
                proof {
                    assert(nv[i as int] is None);
                    assert(!(#[trigger] nv[i as int] matches Some(m) && spec_parse_register(m) is Some));
                }
                return None;
            },
        }
        proof {
            assert(v@ =~= registers_named(nv.take(i + 1)));
        }
        i = i + 1;
    }
    proof {
        assert(nv.take(i as int) =~= nv);
    }
    Some(v)
}

/// The names that capstone gives to register ids, in order.
pub open spec fn capstone_reg_names(settings: DisasmSettings, regs: Seq<u16>) -> Seq<Option<Seq<char>>> {
    regs.map_values(|id: u16| capstone_reg_name(settings, id))
}

/// The text for register ids: the names capstone gives them, each read as a
/// register of the library and separated by `, `; `None` where capstone gives
/// no name or one that names no register the library knows.
pub open spec fn spec_reg_names(settings: DisasmSettings, regs: Seq<u16>) -> Option<Seq<char>> {
    let names = capstone_reg_names(settings, regs);
    if all_registers_named(names) {
        Some(register_names_text(registers_named(names)))
    } else {
        None
    }
}

/// The names that capstone gives to register ids, in order.
fn reg_name_list(cs: &X86Disassembler, regs: &Vec<u16>) -> (names: Vec<Option<String>>)
    ensures
        names_view(names@) == capstone_reg_names(cs.spec_settings(), regs@),
{
    let mut names: Vec<Option<String>> = Vec::new();
    let mut i: usize = 0;
    while i < regs.len()
        invariant
            i <= regs@.len(),
            names_view(names@) == capstone_reg_names(cs.spec_settings(), regs@.take(i as int)),
        decreases regs@.len() - i,
    {
        let name = decoder::reg_name(cs, regs[i]);
        let ghost prev = names@;
        assert(names_view(prev).len() == prev.len());
        names.push(name);
        proof {
            assert(names@ == prev.push(name));
            assert forall|k: int| 0 <= k < i + 1 implies #[trigger] names_view(names@)[k]
                == capstone_reg_names(cs.spec_settings(), regs@.take(i + 1))[k] by {
                if k < i {
                    assert(names@[k] == prev[k]);
                    assert(regs@.take(i + 1)[k] == regs@.take(i as int)[k]);
                    assert(names_view(prev)[k] == capstone_reg_names(cs.spec_settings(), regs@.take(i as int))[k]);
                }
            }
            assert(names_view(names@) =~= capstone_reg_names(cs.spec_settings(), regs@.take(i + 1)));
        }
        i = i + 1;
    }
    proof {
        assert(regs@.take(i as int) =~= regs@);
    }
    names
}

/// The text for register ids that all name registers of the library: their
/// names separated by `, ` (see `spec_reg_names`).
pub fn reg_names(cs: &X86Disassembler, regs: &Vec<u16>) -> (s: String)
    requires
        spec_reg_names(cs.spec_settings(), regs@) is Some,
    ensures
        Some(s@) == spec_reg_names(cs.spec_settings(), regs@),
{
    let names = reg_name_list(cs, regs);
    match registers_of_names(&names) {
        Some(v) => join_register_names(&v),
        None => String::new(),
    }
}

/// The text for register ids where they all name registers of the library,
/// and `None` where one does not (see `spec_reg_names`).
pub fn try_reg_names(cs: &X86Disassembler, regs: &Vec<u16>) -> (r: Option<String>)
    ensures
        opt_view(r) == spec_reg_names(cs.spec_settings(), regs@),
{
    let names = reg_name_list(cs, regs);
    if registers_of_names(&names).is_some() {
        Some(reg_names(cs, regs))
    } else {
        None
    }
}

/// The name shown for a group: its name, or `<unknown>` where it has none.
pub open spec fn group_label(name: Option<Seq<char>>) -> Seq<char> {
    match name {
        Some(n) => n,
        None => "<unknown>"@,
    }
}

/// The labels of the groups, separated by `, `.
pub open spec fn group_names_text(names: Seq<Option<Seq<char>>>) -> Seq<char> {
    join(names.map_values(|n: Option<Seq<char>>| group_label(n)), ", "@)
}

/// The labels of groups with the given names, separated by `, `.
pub fn join_group_names(names: &Vec<Option<String>>) -> (s: String)
    ensures
        s@ == group_names_text(names_view(names@)),
{
    let ghost labels = names_view(names@).map_values(|n: Option<Seq<char>>| group_label(n));
    let mut out = String::new();
    let mut i: usize = 0;
    while i < names.len()
        invariant
            i <= names@.len(),
            labels == names_view(names@).map_values(|n: Option<Seq<char>>| group_label(n)),
            out@ == join(labels.take(i as int), ", "@),
        decreases names@.len() - i,
    {
        proof {
            assert(labels.take(i + 1).drop_last() =~= labels.take(i as int));
        }
        if i > 0 {
            out.append(", ");
        }
        match &names[i] {
            Some(n) => out.append(n.as_str()),
            None => out.append("<unknown>"),
        }
        proof {
            if i == 0 {
                assert(labels.take(1) =~= seq![labels[0]]);
            }
            assert(out@ =~= join(labels.take(i + 1), ", "@));
        }
        i = i + 1;
    }
    proof {
        assert(labels.take(i as int) =~= labels);
    }
    out
}

/// The names that capstone gives to group ids, in order.
pub open spec fn capstone_group_names(settings: DisasmSettings, groups: Seq<u8>) -> Seq<Option<Seq<char>>> {
    groups.map_values(|id: u8| capstone_group_name(settings, id))
}

/// The labels of the names that capstone gives to group ids (`<unknown>` where
/// none), separated by `, `.
pub fn group_names(cs: &X86Disassembler, groups: &Vec<u8>) -> (s: String)
    ensures
        s@ == group_names_text(capstone_group_names(cs.spec_settings(), groups@)),
{
    let mut names: Vec<Option<String>> = Vec::new();
    let mut i: usize = 0;
    while i < groups.len()
        invariant
            i <= groups@.len(),
            names_view(names@) == capstone_group_names(cs.spec_settings(), groups@.take(i as int)),
        decreases groups@.len() - i,
    {
        let name = decoder::group_name(cs, groups[i]);
        let ghost prev = names@;
        assert(names_view(prev).len() == prev.len());
        names.push(name);
        proof {
            assert(names@ == prev.push(name));
            assert forall|k: int| 0 <= k < i + 1 implies #[trigger] names_view(names@)[k]
                == capstone_group_names(cs.spec_settings(), groups@.take(i + 1))[k] by {
                if k < i {
                    assert(names@[k] == prev[k]);
                    assert(groups@.take(i + 1)[k] == groups@.take(i as int)[k]);
                    assert(names_view(prev)[k] == capstone_group_names(cs.spec_settings(), groups@.take(i as int))[k]);
                }
            }
            assert(names_view(names@) =~= capstone_group_names(cs.spec_settings(), groups@.take(i + 1)));
        }
        i = i + 1;
    }
    proof {
        assert(groups@.take(i as int) =~= groups@);
    }
    join_group_names(&names)
}

/// The access of an operand, read-only where capstone does not say.
pub open spec fn effective_access(op: OperandInfo) -> RegAccess {
    match op.access {
        Some(a) => a,
        None => RegAccess::ReadOnly,
    }
}

/// The registers that register operands read, in operand order.
pub open spec fn operand_reads(ops: Seq<OperandInfo>) -> Seq<u16>
    decreases ops.len(),
{
    if ops.len() == 0 {
        Seq::empty()
    } else {
        let prev = operand_reads(ops.drop_last());
        match ops.last().kind {
            OperandKind::Reg(r) => if effective_access(ops.last()) != RegAccess::WriteOnly {
                prev.push(r)
            } else {
                prev
            },
            _ => prev,
        }
    }
}

/// The registers that register operands write, in operand order.
pub open spec fn operand_writes(ops: Seq<OperandInfo>) -> Seq<u16>
    decreases ops.len(),
{
    if ops.len() == 0 {
        Seq::empty()
    } else {
        let prev = operand_writes(ops.drop_last());
        match ops.last().kind {
            OperandKind::Reg(r) => if effective_access(ops.last()) != RegAccess::ReadOnly {
                prev.push(r)
            } else {
                prev
            },
            _ => prev,
        }
    }
}

/// The registers read and written: those given, then those of the register
/// operands (a read-write operand in both lists, one of unknown access read).
pub fn operand_register_accesses(
    regs_read: &Vec<u16>,
    regs_write: &Vec<u16>,
    ops: &Vec<OperandInfo>,
) -> (r: (Vec<u16>, Vec<u16>))
    ensures
        r.0@ == regs_read@ + operand_reads(ops@),
        r.1@ == regs_write@ + operand_writes(ops@),
{
    let mut read_regs = regs_read.clone();
    let mut write_regs = regs_write.clone();
    let mut i: usize = 0;
    while i < ops.len()
        invariant
            i <= ops@.len(),
            read_regs@ == regs_read@ + operand_reads(ops@.take(i as int)),
            write_regs@ == regs_write@ + operand_writes(ops@.take(i as int)),
        decreases ops@.len() - i,
    {
        proof {
            assert(ops@.take(i + 1).drop_last() =~= ops@.take(i as int));
        }
        if let OperandKind::Reg(r) = ops[i].kind {
            let access = match ops[i].access {
                Some(a) => a,
                None => RegAccess::ReadOnly,
            };
            match access {
                RegAccess::ReadOnly => read_regs.push(r),
                RegAccess::WriteOnly => write_regs.push(r),
                RegAccess::ReadWrite => {
                    read_regs.push(r);
                    write_regs.push(r);
                },
            }
        }
        proof {
            assert(read_regs@ =~= regs_read@ + operand_reads(ops@.take(i + 1)));
            assert(write_regs@ =~= regs_write@ + operand_writes(ops@.take(i + 1)));
        }
        i = i + 1;
    }
    proof {
        assert(ops@.take(i as int) =~= ops@);
    }
    (read_regs, write_regs)
}

/// The operands of an instruction as the library reads them.
pub open spec fn operand_infos(xops: Seq<X86Operand>) -> Seq<OperandInfo> {
    xops.map_values(|op: X86Operand| operand_info_of(op))
}

/// The operands as the library reads them.
fn read_operands(operands: &Vec<X86Operand>) -> (ops: Vec<OperandInfo>)
    ensures
        ops@ == operand_infos(operands@),
{
    let mut ops: Vec<OperandInfo> = Vec::new();
    let mut i: usize = 0;
    while i < operands.len()
        invariant
            i <= operands@.len(),
            ops@ == operand_infos(operands@.take(i as int)),
        decreases operands@.len() - i,
    {
        let op = &operands[i];
        ops.push(
            OperandInfo {
                kind: decoder::operand_kind(op),
                access: decoder::operand_access(op),
                size: decoder::operand_size(op),
            },
        );
        proof {
            assert(ops@ =~= operand_infos(operands@.take(i + 1)));
        }
        i = i + 1;
    }
    proof {
        assert(operands@.take(i as int) =~= operands@);
    }
    ops
}

/// What the analysis of a binary reports of one instruction.
#[derive(Debug, Clone)]
pub struct InsnReport {
    pub id: u32,
    pub address: u64,
    pub bytes: Vec<u8>,
    pub mnemonic: Option<String>,
    pub text: String,
    pub read_regs: Option<String>,
    pub write_regs: Option<String>,
    pub groups: String,
    pub n_operands: usize,
    pub implicit_reads: Vec<u16>,
    pub implicit_writes: Vec<u16>,
    pub reads: Vec<u16>,
    pub writes: Vec<u16>,
}

/// The abstract content of an instruction report.
pub ghost struct InsnReportView {
    pub id: u32,
    pub address: u64,
    pub bytes: Seq<u8>,
    pub mnemonic: Option<Seq<char>>,
    pub text: Seq<char>,
    pub read_regs: Option<Seq<char>>,
    pub write_regs: Option<Seq<char>>,
    pub groups: Seq<char>,
    pub n_operands: nat,
    pub implicit_reads: Seq<u16>,
    pub implicit_writes: Seq<u16>,
    pub reads: Seq<u16>,
    pub writes: Seq<u16>,
}

impl View for InsnReport {
    type V = InsnReportView;

    open spec fn view(&self) -> InsnReportView {
        InsnReportView {
            id: self.id,
            address: self.address,
            bytes: self.bytes@,
            mnemonic: opt_view(self.mnemonic),
            text: self.text@,
            read_regs: opt_view(self.read_regs),
            write_regs: opt_view(self.write_regs),
            groups: self.groups@,
            n_operands: self.n_operands as nat,
            implicit_reads: self.implicit_reads@,
            implicit_writes: self.implicit_writes@,
            reads: self.reads@,
            writes: self.writes@,
        }
    }
}

/// The report on one decoded instruction: its id, address and bytes, its
/// mnemonic, the line capstone prints for it, the texts of its implicitly read
/// and written registers (see `spec_reg_names`) and of its groups, its number
/// of x86 operands, the ids of its implicitly read and written registers, and
/// the registers it reads and writes: the implicit ones,
/// then those of its register operands (see `operand_reads`,
/// `operand_writes`). `None` where capstone gives no details of it.
pub open spec fn spec_insn_report(insn: InsnKey) -> Option<InsnReportView> {
    if has_details(insn) {
        let settings = insn.0;
        let rr = capstone_regs_read(insn);
        let rw = capstone_regs_write(insn);
        let xops = capstone_x86_operands(insn);
        Some(
            InsnReportView {
                id: insn.1,
                address: insn.2,
                bytes: insn.3,
                mnemonic: capstone_insn_name(settings, insn.1),
                text: capstone_insn_text(insn),
                read_regs: spec_reg_names(settings, rr),
                write_regs: spec_reg_names(settings, rw),
                groups: group_names_text(capstone_group_names(settings, capstone_groups(insn))),
                n_operands: xops.len(),
                implicit_reads: rr,
                implicit_writes: rw,
                reads: rr + operand_reads(operand_infos(xops)),
                writes: rw + operand_writes(operand_infos(xops)),
            },
        )
    } else {
        None
    }
}

/// The report on one instruction decoded by a handle with the settings of
/// `cs` (see `spec_insn_report`).
fn insn_report(cs: &X86Disassembler, insn: &Insn) -> (r: Option<InsnReport>)
    requires
        insn_view(*insn).0 == cs.spec_settings(),
    ensures
        match spec_insn_report(insn_view(*insn)) {
            None => r is None,
            Some(v) => r matches Some(rep) && rep@ == v,
        },
{
    let rr = match decoder::regs_read(cs, insn) {
        Some(v) => v,
        None => return None,
    };
    let rw = match decoder::regs_write(cs, insn) {
        Some(v) => v,
        None => return None,
    };
    let g = match decoder::groups(cs, insn) {
        Some(v) => v,
        None => return None,
    };
    let operands = match decoder::x86_operands(cs, insn) {
        Some(v) => v,
        None => return None,
    };
    let ops = read_operands(&operands);
    let (reads, writes) = operand_register_accesses(&rr, &rw, &ops);
    let id = decoder::insn_id(insn);
    let rep = InsnReport {
        id,
        address: decoder::insn_address(insn),
        bytes: decoder::insn_bytes(insn),
        mnemonic: decoder::insn_name(cs, id),
        text: decoder::insn_text(insn),
        read_regs: try_reg_names(cs, &rr),
        write_regs: try_reg_names(cs, &rw),
        groups: group_names(cs, &g),
        n_operands: operands.len(),
        reads,
        writes,
        implicit_reads: rr,
        implicit_writes: rw,
    };
    Some(rep)
}

/// A report speaks of the instruction it reports on: its id is capstone's id
/// of that instruction (the one that names its mnemonic), its address and
/// bytes are the instruction's, and its read and written registers begin
/// with the implicit ones.
pub proof fn law_report_of_instruction(insn: InsnKey)
    requires
        has_details(insn),
    ensures
        spec_insn_report(insn) matches Some(rep) && {
            &&& rep.id == insn.1
            &&& rep.address == insn.2
            &&& rep.bytes == insn.3
            &&& rep.mnemonic == capstone_insn_name(insn.0, rep.id)
            &&& rep.text == capstone_insn_text(insn)
            &&& rep.implicit_reads == capstone_regs_read(insn)
            &&& rep.implicit_writes == capstone_regs_write(insn)
            &&& rep.n_operands == capstone_x86_operands(insn).len()
            &&& rep.reads.take(rep.implicit_reads.len() as int) == rep.implicit_reads
            &&& rep.writes.take(rep.implicit_writes.len() as int) == rep.implicit_writes
        },
{
    let rep = spec_insn_report(insn).unwrap();
    assert(rep.reads.take(rep.implicit_reads.len() as int) =~= rep.implicit_reads);
    assert(rep.writes.take(rep.implicit_writes.len() as int) =~= rep.implicit_writes);
}

/// The reports on all instructions that capstone decodes from `bin` at
/// `addr`, in order; `None` where capstone gives no details of one of them.
pub open spec fn spec_analyze_bin(settings: DisasmSettings, bin: Seq<u8>, addr: u64) -> Option<Seq<InsnReportView>> {
    let keys = capstone_disasm_all(settings, bin, addr);
    if forall|i: int| 0 <= i < keys.len() ==> #[trigger] spec_insn_report(keys[i]) is Some {
        Some(keys.map_values(|k: InsnKey| spec_insn_report(k).unwrap()))
    } else {
        None
    }
}

/// The views of a sequence of reports.
pub open spec fn reports_view(reports: Seq<InsnReport>) -> Seq<InsnReportView> {
    reports.map_values(|r: InsnReport| r@)
}

/// Disassembles `bin` at `addr` and reports on each instruction (see
/// `spec_analyze_bin`).
pub fn analyze_bin(cs: &X86Disassembler, bin: &[u8], addr: u64) -> (r: Option<Vec<InsnReport>>)
    ensures
        match spec_analyze_bin(cs.spec_settings(), bin@, addr) {
            None => r is None,
            Some(v) => r matches Some(reports) && reports_view(reports@) == v,
        },
        bin@.len() == 0 ==> (r matches Some(reports) && reports.len() == 0),
        r matches Some(reports) ==> reports.len() == capstone_disasm_all(cs.spec_settings(), bin@, addr).len(),
        r matches Some(reports) ==> forall|j: int| 0 <= j < reports.len() ==> {
            let key = capstone_disasm_all(cs.spec_settings(), bin@, addr)[j];
            &&& (#[trigger] reports@[j]).id == key.1
            &&& reports@[j].address == key.2
            &&& reports@[j].bytes@ == key.3
            &&& opt_view(reports@[j].mnemonic) == capstone_insn_name(cs.spec_settings(), reports@[j].id)
        },
        !cs.spec_settings().detail ==> (r matches Some(reports) ==> reports.len() == 0),
{
    let insns = match decoder::disasm_all(cs, bin, addr) {
        Some(i) => i,
        None => return None,
    };
    let ghost keys = crate::decoder::insns_view(insns);
    let n = decoder::insns_len(&insns);
    let mut reports: Vec<InsnReport> = Vec::new();
    let mut i: usize = 0;
    while i < n
        invariant
            n == keys.len(),
            keys == crate::decoder::insns_view(insns),
            capstone_disasm_all(cs.spec_settings(), bin@, addr) == keys,
            forall|j: int| 0 <= j < keys.len() ==> (#[trigger] keys[j]).0 == cs.spec_settings(),
            bin@.len() == 0 ==> keys.len() == 0,
            i <= n,
            forall|j: int| 0 <= j < i ==> #[trigger] spec_insn_report(keys[j]) is Some,
            reports_view(reports@) == keys.take(i as int).map_values(
                |k: InsnKey| spec_insn_report(k).unwrap(),
            ),
        decreases n - i,
    {
        let insn = decoder::insn_at(&insns, i);
        let ghost prev = reports@;
        match insn_report(cs, insn) {
            Some(rep) => {
                assert(rep@ == spec_insn_report(keys[i as int]).unwrap());
                assert(reports_view(prev).len() == prev.len());
                let ghost r0 = rep;
                reports.push(rep);
                assert(reports@ == prev.push(r0));
                assert(reports@[i as int]@ == spec_insn_report(keys[i as int]).unwrap());
            },
            None => {
                proof {
                    assert(spec_insn_report(keys[i as int]) is None);
                    assert(!(forall|j: int|
                        0 <= j < keys.len() ==> #[trigger] spec_insn_report(keys[j]) is Some));
                }
                return None;
            },
        }
        proof {
            assert forall|j: int| 0 <= j < i + 1 implies #[trigger] reports_view(reports@)[j]
                == keys.take(i + 1).map_values(|k: InsnKey| spec_insn_report(k).unwrap())[j] by {
                assert(reports_view(reports@)[j] == reports@[j]@);
                assert(keys.take(i + 1).map_values(|k: InsnKey| spec_insn_report(k).unwrap())[j]
                    == spec_insn_report(keys.take(i + 1)[j]).unwrap());
                if j < i {
                    assert(reports@[j] == prev[j]);
                    assert(keys.take(i + 1)[j] == keys.take(i as int)[j]);
                    assert(reports_view(prev)[j] == prev[j]@);
                    assert(keys.take(i as int).map_values(|k: InsnKey| spec_insn_report(k).unwrap())[j]
                        == spec_insn_report(keys.take(i as int)[j]).unwrap());
                } else {
                    assert(keys.take(i + 1)[j] == keys[i as int]);
                }
            }
            assert(reports_view(reports@) =~= keys.take(i + 1).map_values(
                |k: InsnKey| spec_insn_report(k).unwrap(),
            ));
        }
        i = i + 1;
    }
    proof {
        assert(keys.take(i as int) =~= keys);
        if keys.len() > 0 {
            assert(spec_insn_report(keys[0]) is Some);
            assert(keys[0].0 == cs.spec_settings());
        }
        assert(reports_view(reports@).len() == reports@.len());
        assert forall|j: int| 0 <= j < reports.len() implies {
            let key = keys[j];
            &&& (#[trigger] reports@[j]).id == key.1
            &&& reports@[j].address == key.2
            &&& reports@[j].bytes@ == key.3
            &&& opt_view(reports@[j].mnemonic) == capstone_insn_name(cs.spec_settings(), reports@[j].id)
        } by {
            assert(reports_view(reports@)[j] == reports@[j]@);
            assert(spec_insn_report(keys[j]) is Some);
            assert(reports@[j]@ == spec_insn_report(keys[j]).unwrap());
        }
    }
    Some(reports)
}

impl InsDB {
    /// Disassembles `bin` at `addr` and reports on each instruction (see
    /// `spec_analyze_bin`). The analysis records nothing in the database: it
    /// is left as it was.
    pub fn analyze_bin_at_addr(&mut self, cs: &X86Disassembler, bin: &[u8], addr: u64) -> (r: Option<Vec<InsnReport>>)
        ensures
            final(self).instructions@ == old(self).instructions@,
            match spec_analyze_bin(cs.spec_settings(), bin@, addr) {
                None => r is None,
                Some(v) => r matches Some(reports) && reports_view(reports@) == v,
            },
            r matches Some(reports) ==> forall|j: int| 0 <= j < reports.len() ==> {
                let key = capstone_disasm_all(cs.spec_settings(), bin@, addr)[j];
                &&& (#[trigger] reports@[j]).id == key.1
                &&& reports@[j].address == key.2
                &&& reports@[j].bytes@ == key.3
                &&& opt_view(reports@[j].mnemonic) == capstone_insn_name(cs.spec_settings(), reports@[j].id)
            },
    {
        analyze_bin(cs, bin, addr)
    }
}

} // verus!
