//! The boundary with the capstone disassembler: an x86 disassembler of the
//! library that keeps the settings its capstone handle was built with, capstone's
//! types as Verus sees them, a name for what each capstone function that the
//! library calls returns, and one small trusted wrapper per such function.
//! Nothing here is proved but the building of a disassembler; each wrapper's doc
//! comment says what it claims.
//!
//! A decoded instruction is identified, in the names below, by its key: the
//! settings of the handle that decoded it, capstone's instruction id, its
//! address and its bytes. Capstone's decoding is a fixed function of the
//! decoding handle's settings and the bytes at an address, so what capstone
//! stores in a decoded instruction (its text, its details) is a function of
//! the key. Details are read through a handle; the wrappers that do so require
//! the handle to have the settings of the one that decoded the instruction.

use vstd::prelude::*;
use capstone::arch::x86::{ArchMode, X86Operand, X86OperandType};
use capstone::arch::{BuildsCapstone, DetailsArchInsn};
use capstone::{Capstone, Insn, InsnGroupId, InsnId, Instructions, RegAccessType, RegId};
use crate::data_representation::x86_ins_semantics::{OperandKind, RegAccess, opt_view};

verus! {

#[verifier::external_type_specification]
#[verifier::external_body]
pub struct ExCapstone(Capstone);

#[verifier::external_type_specification]
#[verifier::external_body]
pub struct ExInstructions<'a>(Instructions<'a>);

#[verifier::external_type_specification]
#[verifier::external_body]
pub struct ExInsn<'a>(Insn<'a>);

#[verifier::external_type_specification]
#[verifier::external_body]
pub struct ExX86Operand(X86Operand);

/// The x86 modes a disassembler decodes in.
#[derive(Debug, Clone, Copy, PartialEq, Eq, Structural)]
pub enum X86Mode {
    Mode16,
    Mode32,
    Mode64,
}

/// What an x86 disassembler is built with: its mode, and whether it gives
/// instruction details. (Capstone's other settings keep their defaults: Intel
/// syntax, little endian, no extra modes, no skipping of data.)
#[derive(Debug, Clone, Copy, PartialEq, Eq, Structural)]
pub struct DisasmSettings {
    pub mode: X86Mode,
    pub detail: bool,
}

/// An x86 capstone handle together with the settings it was built with. Its
/// fields are private and only `build_x86` pairs them, so the settings are
/// always those of the handle.
pub struct X86Disassembler {
    cs: Capstone,
    settings: DisasmSettings,
}

impl X86Disassembler {
    /// The settings the handle was built with.
    pub closed spec fn spec_settings(self) -> DisasmSettings {
        self.settings
    }

    /// The settings the handle was built with.
    pub fn settings(&self) -> (s: DisasmSettings)
        ensures
            s == self.spec_settings(),
    {
        self.settings
    }

    /// Builds an x86 capstone handle with `settings`.
    pub fn new(settings: DisasmSettings) -> (r: Option<X86Disassembler>)
        ensures
            r is Some,
            r matches Some(d) ==> d.spec_settings() == settings,
    {
        build_x86(settings)
    }
}

/// `Capstone::new().x86()` with the mode and detail of `settings` set, and
/// `build`, paired with `settings`. The builder fails only for an
/// architecture that is not compiled in (x86 always is), a mode the
/// architecture does not have (the three x86 modes are its own), or when
/// memory runs out; like the allocations of std in Verus, memory is taken to
/// suffice, so the handle is always built.
#[verifier::external_body]
fn build_x86(settings: DisasmSettings) -> (r: Option<X86Disassembler>)
    ensures
        r is Some,
        r matches Some(d) ==> d.spec_settings() == settings,
{
    let m = match settings.mode {
        X86Mode::Mode16 => ArchMode::Mode16,
        X86Mode::Mode32 => ArchMode::Mode32,
        X86Mode::Mode64 => ArchMode::Mode64,
    };
    let cs = Capstone::new().x86().mode(m).detail(settings.detail).build().ok()?;
    Some(X86Disassembler { cs, settings })
}

/// The key of a decoded instruction: the settings of the handle that decoded
/// it, capstone's id, its address and its bytes.
pub type InsnKey = (DisasmSettings, u32, u64, Seq<u8>);

/// Whether capstone gives details of a decoded instruction: the decoding
/// handle had details on, and the id is not capstone's id of skipped data (0).
pub open spec fn has_details(insn: InsnKey) -> bool {
    insn.0.detail && insn.1 != 0
}

/// The keys of the instructions that a handle with `settings` decodes from
/// `code` at `addr`, in order.
pub uninterp spec fn capstone_disasm_all(settings: DisasmSettings, code: Seq<u8>, addr: u64) -> Seq<InsnKey>;

/// The keys of the instructions that a disassembly holds, in order.
pub uninterp spec fn insns_view(insns: Instructions) -> Seq<InsnKey>;

/// The key of one disassembled instruction.
pub uninterp spec fn insn_view(insn: Insn) -> InsnKey;

/// Capstone's mnemonic for an instruction id, under `settings`.
pub uninterp spec fn capstone_insn_name(settings: DisasmSettings, id: u32) -> Option<Seq<char>>;

/// The line that capstone prints for a decoded instruction (its `Display`):
/// the address, the mnemonic and the operand text.
pub uninterp spec fn capstone_insn_text(insn: InsnKey) -> Seq<char>;

/// Capstone's name for a register id, under `settings`.
pub uninterp spec fn capstone_reg_name(settings: DisasmSettings, id: u16) -> Option<Seq<char>>;

/// Capstone's name for an instruction group id, under `settings`.
pub uninterp spec fn capstone_group_name(settings: DisasmSettings, id: u8) -> Option<Seq<char>>;

/// The registers a decoded instruction reads implicitly, from its details.
pub uninterp spec fn capstone_regs_read(insn: InsnKey) -> Seq<u16>;

/// The registers a decoded instruction writes implicitly, from its details.
pub uninterp spec fn capstone_regs_write(insn: InsnKey) -> Seq<u16>;

/// The groups of a decoded instruction, from its details.
pub uninterp spec fn capstone_groups(insn: InsnKey) -> Seq<u8>;

/// The explicit x86 operands of a decoded instruction, in capstone's order,
/// from its details.
pub uninterp spec fn capstone_x86_operands(insn: InsnKey) -> Seq<X86Operand>;

/// The kind of an x86 operand.
pub uninterp spec fn capstone_operand_kind(op: X86Operand) -> OperandKind;

/// How an x86 operand is accessed.
pub uninterp spec fn capstone_operand_access(op: X86Operand) -> Option<RegAccess>;

/// The size of an x86 operand in bytes.
pub uninterp spec fn capstone_operand_size(op: X86Operand) -> u8;

/// `Capstone::disasm_all`: disassembles all of `code` as if loaded at `addr`.
/// The keys of what it holds are `capstone_disasm_all` of the handle's
/// settings and the arguments, and each carries those settings; from empty
/// `code` it decodes no instruction (the C decoding loop runs while bytes
/// remain). `cs_disasm` reports an error only when memory runs out; as for
/// `build_x86`, memory is taken to suffice, so it always succeeds.
#[verifier::external_body]
pub(crate) fn disasm_all<'a>(d: &'a X86Disassembler, code: &[u8], addr: u64) -> (r: Option<Instructions<'a>>)
    ensures
        r is Some,
        r matches Some(i) ==> capstone_disasm_all(d.spec_settings(), code@, addr) == insns_view(i),
        r matches Some(i) ==> forall|j: int|
            0 <= j < insns_view(i).len() ==> (#[trigger] insns_view(i)[j]).0 == d.spec_settings(),
        code@.len() == 0 ==> (r matches Some(i) ==> insns_view(i).len() == 0),
{
    d.cs.disasm_all(code, addr).ok()
}

/// The number of instructions in a disassembly (through `Instructions`'
/// `Deref` to a slice).
#[verifier::external_body]
pub(crate) fn insns_len(insns: &Instructions) -> (r: usize)
    ensures
        r == insns_view(*insns).len(),
{
    insns.len()
}

/// The `i`-th instruction of a disassembly (through `Instructions`' `Deref` to
/// a slice); its key is the `i`-th key.
#[verifier::external_body]
pub(crate) fn insn_at<'b, 'a>(insns: &'b Instructions<'a>, i: usize) -> (r: &'b Insn<'a>)
    requires
        i < insns_view(*insns).len(),
    ensures
        insn_view(*r) == insns_view(*insns)[i as int],
{
    &insns[i]
}

/// `Insn::id`: capstone's numeric id of the instruction, the second part of its key.
#[verifier::external_body]
pub(crate) fn insn_id(insn: &Insn) -> (r: u32)
    ensures
        r == insn_view(*insn).1,
{
    insn.id().0
}

/// `Insn::address`: the instruction's address, the third part of its key.
#[verifier::external_body]
pub(crate) fn insn_address(insn: &Insn) -> (r: u64)
    ensures
        r == insn_view(*insn).2,
{
    insn.address()
}

/// `Insn::bytes`: the instruction's bytes, the fourth part of its key.
#[verifier::external_body]
pub(crate) fn insn_bytes(insn: &Insn) -> (r: Vec<u8>)
    ensures
        r@ == insn_view(*insn).3,
{
    insn.bytes().to_vec()
}

/// `Capstone::insn_name`: capstone's mnemonic for an instruction id.
#[verifier::external_body]
pub(crate) fn insn_name(d: &X86Disassembler, id: u32) -> (r: Option<String>)
    ensures
        opt_view(r) == capstone_insn_name(d.spec_settings(), id),
{
    d.cs.insn_name(InsnId(id))
}

/// `Insn`'s `Display`: the line capstone prints for the instruction, from the
/// mnemonic and operand text stored in it when it was decoded.
#[verifier::external_body]
pub(crate) fn insn_text(insn: &Insn) -> (r: String)
    ensures
        r@ == capstone_insn_text(insn_view(*insn)),
{
    format!("{}", insn)
}

/// `Capstone::reg_name`: capstone's name for a register id.
#[verifier::external_body]
pub(crate) fn reg_name(d: &X86Disassembler, id: u16) -> (r: Option<String>)
    ensures
        opt_view(r) == capstone_reg_name(d.spec_settings(), id),
{
    d.cs.reg_name(RegId(id))
}

/// `Capstone::group_name`: capstone's name for an instruction group id.
#[verifier::external_body]
pub(crate) fn group_name(d: &X86Disassembler, id: u8) -> (r: Option<String>)
    ensures
        opt_view(r) == capstone_group_name(d.spec_settings(), id),
{
    d.cs.group_name(InsnGroupId(id))
}

/// `InsnDetail::regs_read` of `Capstone::insn_detail`: the ids of the registers
/// the instruction reads implicitly. `insn_detail` fails exactly where the
/// querying handle has details off or the id is 0; the handle must have the
/// settings of the decoding one, whose details the instruction holds.
#[verifier::external_body]
pub(crate) fn regs_read(d: &X86Disassembler, insn: &Insn) -> (r: Option<Vec<u16>>)
    requires
        insn_view(*insn).0 == d.spec_settings(),
    ensures
        match r {
            Some(v) => has_details(insn_view(*insn)) && v@ == capstone_regs_read(insn_view(*insn)),
            None => !has_details(insn_view(*insn)),
        },
{
    d.cs.insn_detail(insn).ok().map(|det| det.regs_read().iter().map(|reg| reg.0).collect())
}

/// `InsnDetail::regs_write` of `Capstone::insn_detail`: the ids of the
/// registers the instruction writes implicitly (see `regs_read` for when
/// there are details).
#[verifier::external_body]
pub(crate) fn regs_write(d: &X86Disassembler, insn: &Insn) -> (r: Option<Vec<u16>>)
    requires
        insn_view(*insn).0 == d.spec_settings(),
    ensures
        match r {
            Some(v) => has_details(insn_view(*insn)) && v@ == capstone_regs_write(insn_view(*insn)),
            None => !has_details(insn_view(*insn)),
        },
{
    d.cs.insn_detail(insn).ok().map(|det| det.regs_write().iter().map(|reg| reg.0).collect())
}

/// `InsnDetail::groups` of `Capstone::insn_detail`: the instruction's group
/// ids (see `regs_read` for when there are details).
#[verifier::external_body]
pub(crate) fn groups(d: &X86Disassembler, insn: &Insn) -> (r: Option<Vec<u8>>)
    requires
        insn_view(*insn).0 == d.spec_settings(),
    ensures
        match r {
            Some(v) => has_details(insn_view(*insn)) && v@ == capstone_groups(insn_view(*insn)),
            None => !has_details(insn_view(*insn)),
        },
{
    d.cs.insn_detail(insn).ok().map(|det| det.groups().iter().map(|g| g.0).collect())
}

/// `X86InsnDetail::operands` of `ArchDetail::x86` of `Capstone::insn_detail`:
/// the instruction's explicit x86 operands, in capstone's order (see
/// `regs_read` for when there are details; the handle is an x86 one, so its
/// details are x86 details).
#[verifier::external_body]
pub(crate) fn x86_operands(d: &X86Disassembler, insn: &Insn) -> (r: Option<Vec<X86Operand>>)
    requires
        insn_view(*insn).0 == d.spec_settings(),
    ensures
        match r {
            Some(v) => has_details(insn_view(*insn)) && v@ == capstone_x86_operands(insn_view(*insn)),
            None => !has_details(insn_view(*insn)),
        },
{
    let det = d.cs.insn_detail(insn).ok()?;
    let arch = det.arch_detail();
    arch.x86().map(|x| x.operands().collect())
}

/// The kind of an x86 operand (`X86Operand::op_type`), one variant for each of
/// capstone's: a register keeps its id, an immediate its value; the memory
/// operand's address parts are dropped.
#[verifier::external_body]
pub(crate) fn operand_kind(op: &X86Operand) -> (r: OperandKind)
    ensures
        r == capstone_operand_kind(*op),
{
    match op.op_type {
        X86OperandType::Reg(r) => OperandKind::Reg(r.0),
        X86OperandType::Imm(v) => OperandKind::Imm(v),
        X86OperandType::Mem(_) => OperandKind::Mem,
        X86OperandType::Invalid => OperandKind::Invalid,
    }
}

/// How an x86 operand is accessed (`X86Operand::access`), one variant for each
/// of capstone's.
#[verifier::external_body]
pub(crate) fn operand_access(op: &X86Operand) -> (r: Option<RegAccess>)
    ensures
        r == capstone_operand_access(*op),
{
    match op.access {
        Some(RegAccessType::ReadOnly) => Some(RegAccess::ReadOnly),
        Some(RegAccessType::WriteOnly) => Some(RegAccess::WriteOnly),
        Some(RegAccessType::ReadWrite) => Some(RegAccess::ReadWrite),
        None => None,
    }
}

/// The size in bytes of an x86 operand (`X86Operand::size`).
#[verifier::external_body]
pub(crate) fn operand_size(op: &X86Operand) -> (r: u8)
    ensures
        r == capstone_operand_size(*op),
{
    op.size
}

} // verus!
