//! Register states of example programs, their textual display, test metadata
//! that says which registers to set before a run and which values to expect
//! after it, and the database of analysed examples.

use vstd::prelude::*;
use crate::assoc::{assoc_insert, as_map, distinct_keys, first_index, has_key, is_first, lookup};
use crate::data_representation::x86_reg::{X86Register, parse_register, spec_parse_register};
use crate::text::{occurs_at, upper_seq, contains_chars, chars_of, contains_seq, dec, digit_char, digits, join,
    push_char, to_lowercase, unicode_lowercase, push_digits, push_u64};

verus! {

/// How a register value is written out.
#[derive(Debug, Clone, Copy, PartialEq, Eq, Structural)]
pub enum DisplayFormat {
    SignedInt,
    UnsignedInt,
    Hex,
    Binary,
}

/// Which registers a display shows: all, or only the approximate set.
#[derive(Debug, Clone, Copy, PartialEq, Eq, Structural)]
pub enum DisplayAccuracy {
    Exact,
    Approximate,
}

/// The registers that an approximate display shows, in order.
pub open spec fn spec_approximate_registers() -> Seq<X86Register> {
    seq![X86Register::EAX, X86Register::EBX, X86Register::ECX, X86Register::EDX, X86Register::ESI]
}

/// The registers that an approximate display shows: exactly those for which
/// `is_approximate` holds.
pub fn approximate_registers() -> (v: Vec<X86Register>)
    ensures
        v@ == spec_approximate_registers(),
        forall|r: X86Register| v@.contains(r) <==> r.spec_is_approximate(),
{
    let v = vec![X86Register::EAX, X86Register::EBX, X86Register::ECX, X86Register::EDX, X86Register::ESI];
    proof {
        assert(v@ =~= spec_approximate_registers());
        assert forall|r: X86Register| v@.contains(r) <==> r.spec_is_approximate() by {
            if r.spec_is_approximate() {
                if r == X86Register::EAX {
                    assert(v@[0] == r);
                } else if r == X86Register::EBX {
                    assert(v@[1] == r);
                } else if r == X86Register::ECX {
                    assert(v@[2] == r);
                } else if r == X86Register::EDX {
                    assert(v@[3] == r);
                } else {
                    assert(v@[4] == r);
                }
            }
        }
    }
    v
}

/// A 64-bit value read as a two's-complement signed integer.
pub open spec fn twos_complement(v: u64) -> int {
    if v < 0x8000_0000_0000_0000 {
        v as int
    } else {
        v - 0x1_0000_0000_0000_0000int
    }
}

/// The text of a register value: signed or unsigned decimal, `0x` and lower-case
/// hexadecimal digits, or `0b` and binary digits (as `{}`, `{:#x}`, `{:#b}` print).
pub open spec fn spec_format_value(value: u64, format: DisplayFormat) -> Seq<char> {
    match format {
        DisplayFormat::SignedInt => dec(twos_complement(value)),
        DisplayFormat::UnsignedInt => dec(value as int),
        DisplayFormat::Hex => seq!['0', 'x'] + digits(value as nat, 16),
        DisplayFormat::Binary => seq!['0', 'b'] + digits(value as nat, 2),
    }
}

/// Whether a display of the given accuracy shows register `r`.
pub open spec fn is_shown(r: X86Register, accuracy: DisplayAccuracy) -> bool {
    r.spec_is_approximate() || accuracy == DisplayAccuracy::Exact
}

/// An exact display shows every register; an approximate display shows a
/// register exactly when it is one of the five of `approximate_registers`
/// (`EAX`, `EBX`, `ECX`, `EDX`, `ESI`), so `EDI`, `EBP`, `ESP`, `EIP`,
/// `EFLAGS` and the 64-bit registers are left out of it.
pub proof fn law_shown_registers(r: X86Register)
    ensures
        is_shown(r, DisplayAccuracy::Exact),
        is_shown(r, DisplayAccuracy::Approximate) <==> (r == X86Register::EAX || r == X86Register::EBX
            || r == X86Register::ECX || r == X86Register::EDX || r == X86Register::ESI),
        is_shown(r, DisplayAccuracy::Approximate) <==> spec_approximate_registers().contains(r),
{
    let v = spec_approximate_registers();
    if r == X86Register::EAX {
        assert(v[0] == r);
    } else if r == X86Register::EBX {
        assert(v[1] == r);
    } else if r == X86Register::ECX {
        assert(v[2] == r);
    } else if r == X86Register::EDX {
        assert(v[3] == r);
    } else if r == X86Register::ESI {
        assert(v[4] == r);
    }
}

/// The entries an approximate display shows are the state's entries for the
/// five approximate registers, in the state's order; an exact display shows
/// all entries.
pub proof fn law_shown_entries(entries: Seq<(X86Register, u64)>)
    ensures
        shown_entries(entries, DisplayAccuracy::Exact) == entries,
        forall|i: int| 0 <= i < shown_entries(entries, DisplayAccuracy::Approximate).len()
            ==> spec_approximate_registers().contains(
            (#[trigger] shown_entries(entries, DisplayAccuracy::Approximate)[i]).0,
        ),
    decreases entries.len(),
{
    if entries.len() > 0 {
        law_shown_entries(entries.drop_last());
        law_shown_registers(entries.last().0);
        assert(entries.drop_last().push(entries.last()) =~= entries);
        let prev = shown_entries(entries.drop_last(), DisplayAccuracy::Approximate);
        let cur = shown_entries(entries, DisplayAccuracy::Approximate);
        assert forall|i: int| 0 <= i < cur.len() implies spec_approximate_registers().contains(
            (#[trigger] cur[i]).0,
        ) by {
            if i < prev.len() {
                assert(cur[i] == prev[i]);
            } else {
                assert(cur[i] == entries.last());
            }
        }
    }
}

/// One-line display of the shown entries, in order: `NAME=value` items
/// separated by `, `.
pub open spec fn simple_text(
    entries: Seq<(X86Register, u64)>,
    accuracy: DisplayAccuracy,
    format: DisplayFormat,
) -> Seq<char>
    decreases entries.len(),
{
    if entries.len() == 0 {
        Seq::empty()
    } else {
        let prev = simple_text(entries.drop_last(), accuracy, format);
        let e = entries.last();
        if is_shown(e.0, accuracy) {
            let item = e.0.spec_name() + seq!['='] + spec_format_value(e.1, format);
            if prev.len() == 0 {
                item
            } else {
                prev + seq![',', ' '] + item
            }
        } else {
            prev
        }
    }
}

/// Column display of the shown entries, in order: one `NAME: value` line each.
pub open spec fn column_text(
    entries: Seq<(X86Register, u64)>,
    accuracy: DisplayAccuracy,
    format: DisplayFormat,
) -> Seq<char>
    decreases entries.len(),
{
    if entries.len() == 0 {
        Seq::empty()
    } else {
        let prev = column_text(entries.drop_last(), accuracy, format);
        let e = entries.last();
        if is_shown(e.0, accuracy) {
            prev + e.0.spec_name() + seq![':', ' '] + spec_format_value(e.1, format) + seq!['\n']
        } else {
            prev
        }
    }
}

/// The display of one register: `NAME: value`, or `NAME: <unavailable>` where
/// the state holds no value for it.
pub open spec fn register_text(reg: X86Register, value: Option<u64>, format: DisplayFormat) -> Seq<
    char,
> {
    match value {
        Some(v) => reg.spec_name() + seq![':', ' '] + spec_format_value(v, format),
        None => reg.spec_name() + ": <unavailable>"@,
    }
}

/// The entries that a display of the given accuracy shows, in order.
pub open spec fn shown_entries(entries: Seq<(X86Register, u64)>, accuracy: DisplayAccuracy) -> Seq<
    (X86Register, u64),
>
    decreases entries.len(),
{
    if entries.len() == 0 {
        Seq::empty()
    } else {
        let prev = shown_entries(entries.drop_last(), accuracy);
        if is_shown(entries.last().0, accuracy) {
            prev.push(entries.last())
        } else {
            prev
        }
    }
}

/// The item of the one-line display for one entry: `NAME=value`.
pub open spec fn simple_item(e: (X86Register, u64), format: DisplayFormat) -> Seq<char> {
    e.0.spec_name() + seq!['='] + spec_format_value(e.1, format)
}

/// The line of the column display for one entry: `NAME: value` and a newline.
pub open spec fn column_line(e: (X86Register, u64), format: DisplayFormat) -> Seq<char> {
    e.0.spec_name() + seq![':', ' '] + spec_format_value(e.1, format) + seq!['\n']
}

/// The lines written one after another.
pub open spec fn concat_lines(lines: Seq<Seq<char>>) -> Seq<char>
    decreases lines.len(),
{
    if lines.len() == 0 {
        Seq::empty()
    } else {
        concat_lines(lines.drop_last()) + lines.last()
    }
}

/// A join of items that are not empty is empty only when there are no items.
proof fn lemma_join_empty(items: Seq<Seq<char>>, sep: Seq<char>)
    requires
        forall|i: int| 0 <= i < items.len() ==> #[trigger] items[i].len() > 0,
    ensures
        (join(items, sep).len() == 0) == (items.len() == 0),
{
    if items.len() > 0 {
        assert(items[items.len() - 1].len() > 0);
    }
}

/// Both displays show the same registers in the same order: the one-line
/// display joins a `NAME=value` item for each shown entry with `, `, and the
/// column display writes a `NAME: value` line for each of the same entries.
pub proof fn law_displays_show_same_entries(
    entries: Seq<(X86Register, u64)>,
    accuracy: DisplayAccuracy,
    format: DisplayFormat,
)
    ensures
        simple_text(entries, accuracy, format) == join(
            shown_entries(entries, accuracy).map_values(|e: (X86Register, u64)| simple_item(e, format)),
            seq![',', ' '],
        ),
        column_text(entries, accuracy, format) == concat_lines(
            shown_entries(entries, accuracy).map_values(|e: (X86Register, u64)| column_line(e, format)),
        ),
    decreases entries.len(),
{
    if entries.len() > 0 {
        let rest = entries.drop_last();
        let e = entries.last();
        law_displays_show_same_entries(rest, accuracy, format);
        let prev = shown_entries(rest, accuracy);
        let items = prev.map_values(|e: (X86Register, u64)| simple_item(e, format));
        let lines = prev.map_values(|e: (X86Register, u64)| column_line(e, format));
        if is_shown(e.0, accuracy) {
            let all = prev.push(e);
            let items2 = all.map_values(|e: (X86Register, u64)| simple_item(e, format));
            let lines2 = all.map_values(|e: (X86Register, u64)| column_line(e, format));
            assert(items2.drop_last() =~= items);
            assert(lines2.drop_last() =~= lines);
            assert(items2.last() == simple_item(e, format));
            assert(lines2.last() == column_line(e, format));
            assert forall|i: int| 0 <= i < items.len() implies #[trigger] items[i].len() > 0 by {
                assert(items[i] == simple_item(prev[i], format));
            }
            lemma_join_empty(items, seq![',', ' ']);
            if items.len() == 0 {
                assert(items2.len() == 1);
            }
            assert(simple_text(entries, accuracy, format) =~= join(items2, seq![',', ' ']));
            assert(column_text(entries, accuracy, format) =~= concat_lines(lines2));
        }
    }
}

/// The number of times `c` occurs in `s`.
pub open spec fn count_char(s: Seq<char>, c: char) -> nat
    decreases s.len(),
{
    if s.len() == 0 {
        0
    } else {
        count_char(s.drop_last(), c) + if s.last() == c {
            1nat
        } else {
            0nat
        }
    }
}

/// Occurrences in a concatenation add up.
proof fn lemma_count_concat(a: Seq<char>, b: Seq<char>, c: char)
    ensures
        count_char(a + b, c) == count_char(a, c) + count_char(b, c),
    decreases b.len(),
{
    if b.len() == 0 {
        assert(a + b =~= a);
    } else {
        assert((a + b).drop_last() =~= a + b.drop_last());
        lemma_count_concat(a, b.drop_last(), c);
    }
}

/// A text without `c` has no occurrence of it.
proof fn lemma_count_absent(s: Seq<char>, c: char)
    requires
        forall|i: int| 0 <= i < s.len() ==> s[i] != c,
    ensures
        count_char(s, c) == 0,
    decreases s.len(),
{
    if s.len() > 0 {
        lemma_count_absent(s.drop_last(), c);
    }
}

/// No digit character is a newline.
proof fn lemma_digit_char_not_newline(d: nat)
    requires
        d < 16,
    ensures
        digit_char(d) != '\n',
{
    if d < 10 {
        assert((48 + d) as char as int == 48 + d);
    } else {
        assert((87 + d) as char as int == 87 + d);
    }
}

/// The digits of a number hold no newline.
proof fn lemma_digits_no_newline(v: nat, base: nat)
    requires
        2 <= base <= 16,
    ensures
        forall|i: int| 0 <= i < digits(v, base).len() ==> digits(v, base)[i] != '\n',
    decreases v,
{
    if base < 2 || v < base {
        lemma_digit_char_not_newline(v % 16);
        assert(digits(v, base) =~= seq![digit_char(v % 16)]);
    } else {
        assert(v / base < v) by (nonlinear_arith)
            requires
                base >= 2,
                v >= base,
        ;
        lemma_digits_no_newline(v / base, base);
        assert(v % base < base);
        lemma_digit_char_not_newline(v % base);
        assert(digits(v, base) == digits(v / base, base).push(digit_char(v % base)));
    }
}

/// The text of a register value holds no newline.
proof fn lemma_value_no_newline(value: u64, format: DisplayFormat)
    ensures
        forall|i: int| 0 <= i < spec_format_value(value, format).len() ==> spec_format_value(value, format)[i] != '\n',
{
    lemma_digits_no_newline(value as nat, 10);
    lemma_digits_no_newline(value as nat, 16);
    lemma_digits_no_newline(value as nat, 2);
    lemma_digits_no_newline((-twos_complement(value)) as nat, 10);
}

/// A register's name holds no newline.
proof fn lemma_name_no_newline(r: X86Register)
    ensures
        forall|i: int| 0 <= i < r.spec_name().len() ==> r.spec_name()[i] != '\n',
{
    let n = r.spec_name();
    assert(upper_seq(n) =~= n);
}

/// The column display has one line for each shown entry: it holds exactly as
/// many newlines as there are shown entries, and it is empty or ends with a
/// newline.
pub proof fn law_column_display_lines(
    entries: Seq<(X86Register, u64)>,
    accuracy: DisplayAccuracy,
    format: DisplayFormat,
)
    ensures
        count_char(column_text(entries, accuracy, format), '\n') == shown_entries(entries, accuracy).len(),
        column_text(entries, accuracy, format).len() == 0 || column_text(entries, accuracy, format).last() == '\n',
    decreases entries.len(),
{
    if entries.len() > 0 {
        let rest = entries.drop_last();
        let e = entries.last();
        law_column_display_lines(rest, accuracy, format);
        if is_shown(e.0, accuracy) {
            let prev = column_text(rest, accuracy, format);
            let body = e.0.spec_name() + seq![':', ' '] + spec_format_value(e.1, format);
            lemma_name_no_newline(e.0);
            lemma_value_no_newline(e.1, format);
            assert forall|i: int| 0 <= i < body.len() implies body[i] != '\n' by {
                if i < e.0.spec_name().len() {
                    assert(body[i] == e.0.spec_name()[i]);
                } else if i >= e.0.spec_name().len() + 2 {
                    assert(body[i] == spec_format_value(e.1, format)[i - e.0.spec_name().len() - 2]);
                }
            }
            lemma_count_absent(body, '\n');
            lemma_count_concat(prev, body + seq!['\n'], '\n');
            lemma_count_concat(body, seq!['\n'], '\n');
            assert(seq!['\n'].drop_last() =~= Seq::<char>::empty());
            assert(count_char(Seq::<char>::empty(), '\n') == 0);
            assert(count_char(seq!['\n'], '\n') == 1);
            assert(count_char(body, '\n') == 0);
            assert(count_char(body + seq!['\n'], '\n') == 1);
            assert(count_char(prev, '\n') == shown_entries(rest, accuracy).len());
            assert(column_text(entries, accuracy, format) =~= prev + (body + seq!['\n']));
            assert(shown_entries(entries, accuracy) == shown_entries(rest, accuracy).push(e));
        } else {
            assert(shown_entries(entries, accuracy) == shown_entries(rest, accuracy));
            assert(column_text(entries, accuracy, format) == column_text(rest, accuracy, format));
        }
    }
}

/// The values of a set of registers, kept in the order in which the registers
/// were first given a value.
#[derive(Debug)]
pub struct RegisterState {
    registers: Vec<(X86Register, u64)>,
}

impl View for RegisterState {
    type V = Map<X86Register, u64>;

    open spec fn view(&self) -> Map<X86Register, u64> {
        as_map(self.entries())
    }
}

impl RegisterState {
    /// The state's entries in order; the first entry of a register gives its value.
    pub closed spec fn entries(self) -> Seq<(X86Register, u64)> {
        self.registers@
    }

    /// A state holds each register at most once.
    #[verifier::type_invariant]
    spec fn registers_distinct(self) -> bool {
        distinct_keys(self.registers@)
    }

    /// The state that holds no register.
    pub fn new() -> (s: RegisterState)
        ensures
            s.entries() == Seq::<(X86Register, u64)>::empty(),
    {
        RegisterState { registers: Vec::new() }
    }

    /// The entries of the state, in order; no register has two of them.
    pub fn registers(&self) -> (r: &Vec<(X86Register, u64)>)
        ensures
            r@ == self.entries(),
            distinct_keys(r@),
    {
        proof {
            use_type_invariant(self);
        }
        &self.registers
    }

    /// The position of the first entry of `reg`, if there is one.
    fn position(&self, reg: X86Register) -> (r: Option<usize>)
        ensures
            match r {
                Some(i) => is_first(self.entries(), reg, i as int) && i as int == first_index(
                    self.entries(),
                    reg,
                ) && has_key(self.entries(), reg),
                None => !has_key(self.entries(), reg),
            },
    {
        let mut i: usize = 0;
        while i < self.registers.len()
            invariant
                i <= self.registers@.len(),
                forall|j: int| 0 <= j < i ==> self.registers@[j].0 != reg,
            decreases self.registers@.len() - i,
        {
            if self.registers[i].0 == reg {
                proof {
                    assert(is_first(self.entries(), reg, i as int));
                    assert(has_key(self.entries(), reg));
                    crate::assoc::lemma_first_unique(
                        self.entries(),
                        reg,
                        i as int,
                        first_index(self.entries(), reg),
                    );
                }
                return Some(i);
            }
            i = i + 1;
        }
        proof {
            if has_key(self.entries(), reg) {
                assert(is_first(self.entries(), reg, first_index(self.entries(), reg)));
            }
        }
        None
    }

    /// The value of `reg`, if the state holds one.
    pub fn get(&self, reg: X86Register) -> (r: Option<u64>)
        ensures
            r == lookup(self.entries(), reg),
    {
        match self.position(reg) {
            Some(i) => Some(self.registers[i].1),
            None => None,
        }
    }

    /// Gives `reg` the value `value`: its entry is updated in place, or a new
    /// entry is appended.
    pub fn insert(&mut self, reg: X86Register, value: u64)
        ensures
            final(self).entries() == assoc_insert(old(self).entries(), reg, value),
            distinct_keys(final(self).entries()),
    {
        proof {
            use_type_invariant(&*self);
            crate::assoc::lemma_insert_distinct(self.entries(), reg, value);
        }
        let pos = self.position(reg);
        let mut regs: Vec<(X86Register, u64)> = Vec::new();
        std::mem::swap(&mut regs, &mut self.registers);
        match pos {
            Some(i) => {
                regs.set(i, (reg, value));
            },
            None => {
                regs.push((reg, value));
            },
        }
        self.registers = regs;
    }

    /// The text of `value` in `format` (see `spec_format_value`).
    pub fn format_value(value: u64, format: DisplayFormat) -> (s: String)
        ensures
            s@ == spec_format_value(value, format),
    {
        let mut s = String::new();
        match format {
            DisplayFormat::SignedInt => {
                if value < 0x8000_0000_0000_0000u64 {
                    push_u64(&mut s, value);
                } else {
                    push_char(&mut s, '-');
                    push_digits(&mut s, (u64::MAX - value) + 1, 10);
                }
            },
            DisplayFormat::UnsignedInt => {
                push_u64(&mut s, value);
            },
            DisplayFormat::Hex => {
                push_char(&mut s, '0');
                push_char(&mut s, 'x');
                push_digits(&mut s, value, 16);
            },
            DisplayFormat::Binary => {
                push_char(&mut s, '0');
                push_char(&mut s, 'b');
                push_digits(&mut s, value, 2);
            },
        }
        proof {
            assert(s@ =~= spec_format_value(value, format));
        }
        s
    }

    /// One-line display of the registers that `accuracy` shows (see `simple_text`).
    pub fn simple_display(&self, accuracy: DisplayAccuracy, format: DisplayFormat) -> (s: String)
        ensures
            s@ == simple_text(self.entries(), accuracy, format),
    {
        let mut result = String::new();
        let mut i: usize = 0;
        while i < self.registers.len()
            invariant
                i <= self.registers@.len(),
                result@ == simple_text(self.entries().take(i as int), accuracy, format),
            decreases self.registers@.len() - i,
        {
            let (key, value) = self.registers[i];
            proof {
                assert(self.entries().take(i + 1).drop_last() =~= self.entries().take(i as int));
            }
            let approximate = key.is_approximate();
            let exact = match accuracy {
                DisplayAccuracy::Exact => true,
                DisplayAccuracy::Approximate => false,
            };
            if approximate || exact {
                if !result.as_str().is_empty() {
                    push_char(&mut result, ',');
                    push_char(&mut result, ' ');
                }
                result.append(key.name());
                push_char(&mut result, '=');
                let text = Self::format_value(value, format);
                result.append(text.as_str());
            }
            proof {
                assert(result@ =~= simple_text(self.entries().take(i + 1), accuracy, format));
            }
            i = i + 1;
        }
        proof {
            assert(self.entries().take(i as int) =~= self.entries());
        }
        result
    }

    /// Column display of the registers that `accuracy` shows (see `column_text`).
    pub fn column_display(&self, accuracy: DisplayAccuracy, format: DisplayFormat) -> (s: String)
        ensures
            s@ == column_text(self.entries(), accuracy, format),
    {
        let mut result = String::new();
        let mut i: usize = 0;
        while i < self.registers.len()
            invariant
                i <= self.registers@.len(),
                result@ == column_text(self.entries().take(i as int), accuracy, format),
            decreases self.registers@.len() - i,
        {
            let (key, value) = self.registers[i];
            proof {
                assert(self.entries().take(i + 1).drop_last() =~= self.entries().take(i as int));
            }
            let approximate = key.is_approximate();
            let exact = match accuracy {
                DisplayAccuracy::Exact => true,
                DisplayAccuracy::Approximate => false,
            };
            if approximate || exact {
                result.append(key.name());
                push_char(&mut result, ':');
                push_char(&mut result, ' ');
                let text = Self::format_value(value, format);
                result.append(text.as_str());
                push_char(&mut result, '\n');
            }
            proof {
                assert(result@ =~= column_text(self.entries().take(i + 1), accuracy, format));
            }
            i = i + 1;
        }
        proof {
            assert(self.entries().take(i as int) =~= self.entries());
        }
        result
    }

    /// The display of one register (see `register_text`).
    pub fn display_register(&self, reg: X86Register, format: DisplayFormat) -> (s: String)
        ensures
            s@ == register_text(reg, lookup(self.entries(), reg), format),
    {
        let mut result = String::new();
        result.append(reg.name());
        match self.get(reg) {
            Some(value) => {
                push_char(&mut result, ':');
                push_char(&mut result, ' ');
                let text = Self::format_value(value, format);
                result.append(text.as_str());
            },
            None => {
                result.append(": <unavailable>");
            },
        }
        proof {
            assert(result@ =~= register_text(reg, lookup(self.entries(), reg), format));
        }
        result
    }
}

impl Clone for RegisterState {
    /// A state with the same entries.
    fn clone(&self) -> (s: RegisterState)
        ensures
            s.entries() == self.entries(),
    {
        proof {
            use_type_invariant(self);
        }
        let mut regs: Vec<(X86Register, u64)> = Vec::new();
        let mut i: usize = 0;
        while i < self.registers.len()
            invariant
                i <= self.registers@.len(),
                regs@ == self.registers@.take(i as int),
            decreases self.registers@.len() - i,
        {
            regs.push(self.registers[i]);
            proof {
                assert(regs@ =~= self.registers@.take(i + 1));
            }
            i = i + 1;
        }
        proof {
            assert(regs@ =~= self.registers@);
        }
        RegisterState { registers: regs }
    }
}

impl Default for RegisterState {
    fn default() -> (s: RegisterState)
        ensures
            s.entries() == Seq::<(X86Register, u64)>::empty(),
    {
        RegisterState::new()
    }
}

/// The registers before and after a run of an example.
#[derive(Debug, Clone)]
pub struct AnalysisResult {
    pub initial_registers: RegisterState,
    pub final_registers: RegisterState,
}

/// Test metadata as written in an example's metadata file: register names
/// and values to set before the run, and to expect after it.
#[derive(Debug, Clone)]
pub struct IncomingTestMetadata {
    pub input: Option<Vec<(String, u64)>>,
    pub expect: Option<Vec<(String, u64)>>,
}

/// The test metadata of an example, if it has any.
#[derive(Debug, Clone)]
pub enum TestMetadata {
    Empty,
    Full { input: RegisterState, expect: RegisterState },
}

/// The register state that named values give, in order: each name that parses
/// as a register binds it (a later one rebinding an earlier); other names are
/// ignored.
pub open spec fn parsed_entries(named: Seq<(String, u64)>) -> Seq<(X86Register, u64)>
    decreases named.len(),
{
    if named.len() == 0 {
        Seq::empty()
    } else {
        let prev = parsed_entries(named.drop_last());
        let e = named.last();
        match spec_parse_register(e.0@) {
            Some(r) => assoc_insert(prev, r, e.1),
            None => prev,
        }
    }
}

/// The value of the last entry whose name reads as `reg`, if any.
pub open spec fn last_value_named(named: Seq<(String, u64)>, reg: X86Register) -> Option<u64>
    decreases named.len(),
{
    if named.len() == 0 {
        None
    } else if spec_parse_register(named.last().0@) == Some(reg) {
        Some(named.last().1)
    } else {
        last_value_named(named.drop_last(), reg)
    }
}

/// The state that named values give holds a register exactly when some name
/// reads as it, and then the value of the last such entry; names that read as
/// no register are ignored.
pub proof fn law_named_last_wins(named: Seq<(String, u64)>, reg: X86Register)
    ensures
        lookup(parsed_entries(named), reg) == last_value_named(named, reg),
    decreases named.len(),
{
    if named.len() > 0 {
        law_named_last_wins(named.drop_last(), reg);
        if let Some(r) = spec_parse_register(named.last().0@) {
            crate::assoc::law_lookup_after_insert(
                parsed_entries(named.drop_last()),
                r,
                named.last().1,
                reg,
            );
        }
    }
}

/// The register state that an optional list of named values gives.
pub open spec fn state_entries(named: Option<Vec<(String, u64)>>) -> Seq<(X86Register, u64)> {
    match named {
        Some(v) => parsed_entries(v@),
        None => Seq::empty(),
    }
}

/// The register state for a list of named values (see `parsed_entries`).
fn state_from_named(named: &Option<Vec<(String, u64)>>) -> (s: RegisterState)
    ensures
        s.entries() == state_entries(*named),
{
    let mut state = RegisterState::new();
    match named {
        Some(v) => {
            let mut i: usize = 0;
            while i < v.len()
                invariant
                    i <= v@.len(),
                    state.entries() == parsed_entries(v@.take(i as int)),
                decreases v@.len() - i,
            {
                proof {
                    assert(v@.take(i + 1).drop_last() =~= v@.take(i as int));
                }
                if let Some(reg) = parse_register(v[i].0.as_str()) {
                    state.insert(reg, v[i].1);
                }
                i = i + 1;
            }
            proof {
                assert(v@.take(i as int) =~= v@);
            }
        },
        None => {},
    }
    state
}

impl TestMetadata {
    /// The metadata that an example's metadata file gives: always `Full`, each
    /// state built by `parsed_entries` (absent lists give empty states).
    pub fn from_incoming(value: IncomingTestMetadata) -> (m: TestMetadata)
        ensures
            m matches TestMetadata::Full { input, expect } && input.entries() == state_entries(
                value.input,
            ) && expect.entries() == state_entries(value.expect),
    {
        let input = state_from_named(&value.input);
        let expect = state_from_named(&value.expect);
        TestMetadata::Full { input, expect }
    }
}

impl TestMetadata {
    /// The registers, with their values, to set before a run: the input
    /// entries of full metadata, in order; none without metadata.
    pub fn registers_to_set(&self) -> (r: Vec<(X86Register, u64)>)
        ensures
            r@ == match *self {
                TestMetadata::Full { input, expect: _ } => input.entries(),
                TestMetadata::Empty => Seq::empty(),
            },
    {
        let mut out: Vec<(X86Register, u64)> = Vec::new();
        match self {
            TestMetadata::Full { input, expect: _ } => {
                let entries = input.registers();
                let mut i: usize = 0;
                while i < entries.len()
                    invariant
                        i <= entries@.len(),
                        out@ == entries@.take(i as int),
                    decreases entries@.len() - i,
                {
                    out.push(entries[i]);
                    proof {
                        assert(entries@.take(i + 1) =~= out@);
                    }
                    i = i + 1;
                }
                proof {
                    assert(entries@.take(i as int) =~= entries@);
                }
            },
            TestMetadata::Empty => {},
        }
        out
    }
}

/// The message for an expected register that the final state lacks.
pub open spec fn unavailable_message(reg: X86Register, want: u64) -> Seq<char> {
    "Expected register "@ + reg.spec_name() + " to be "@ + dec(want as int)
        + ", but it is unavailable"@
}

/// The message for an expected register that holds another value.
pub open spec fn mismatch_message(reg: X86Register, want: u64, got: u64) -> Seq<char> {
    "Expected register "@ + reg.spec_name() + " to be "@ + dec(want as int) + ", but got "@ + dec(
        got as int,
    )
}

/// The message for the first expected entry, in order, that the final state
/// does not meet; `None` where it meets them all.
pub open spec fn first_unmet(fin: Seq<(X86Register, u64)>, expect: Seq<(X86Register, u64)>) -> Option<
    Seq<char>,
>
    decreases expect.len(),
{
    if expect.len() == 0 {
        None
    } else {
        let (reg, want) = expect[0];
        match lookup(fin, reg) {
            None => Some(unavailable_message(reg, want)),
            Some(got) => if got != want {
                Some(mismatch_message(reg, want, got))
            } else {
                first_unmet(fin, expect.drop_first())
            },
        }
    }
}

/// A final state meets its expectations exactly when it holds every expected
/// register with the expected value.
pub proof fn law_expectations_met(fin: Seq<(X86Register, u64)>, expect: Seq<(X86Register, u64)>)
    ensures
        first_unmet(fin, expect) is None <==> forall|i: int|
            0 <= i < expect.len() ==> lookup(fin, #[trigger] expect[i].0) == Some(expect[i].1),
    decreases expect.len(),
{
    if expect.len() > 0 {
        law_expectations_met(fin, expect.drop_first());
        if first_unmet(fin, expect) is None {
            assert forall|i: int| 0 <= i < expect.len() implies lookup(fin, #[trigger] expect[i].0)
                == Some(expect[i].1) by {
                if i > 0 {
                    assert(expect[i] == expect.drop_first()[i - 1]);
                }
            }
        } else {
            if lookup(fin, expect[0].0) == Some(expect[0].1) {
                let d = expect.drop_first();
                let j = choose|j: int| 0 <= j < d.len() && lookup(fin, #[trigger] d[j].0) != Some(d[j].1);
                assert(expect[j + 1] == d[j]);
            }
        }
    }
}

/// The outcome of comparing a final state with the metadata's expectations.
pub open spec fn expectation_check(fin: Seq<(X86Register, u64)>, metadata: TestMetadata) -> Option<
    Seq<char>,
> {
    match metadata {
        TestMetadata::Empty => None,
        TestMetadata::Full { input: _, expect } => first_unmet(fin, expect.entries()),
    }
}

/// Checks that the final registers hold every value that the metadata
/// expects; the error names the first expected entry, in order, that is not
/// met (see `first_unmet`).
pub fn check_for_expected_registers(final_regs: &RegisterState, metadata: &TestMetadata) -> (r: Result<
    (),
    String,
>)
    ensures
        match expectation_check(final_regs.entries(), *metadata) {
            None => r is Ok,
            Some(m) => r matches Err(e) && e@ == m,
        },
{
    match metadata {
        TestMetadata::Full { input: _, expect } => {
            let exp = expect.registers();
            let ghost fin = final_regs.entries();
            let mut i: usize = 0;
            proof {
                assert(exp@.skip(0) =~= exp@);
            }
            while i < exp.len()
                invariant
                    exp@ == expect.entries(),
                    fin == final_regs.entries(),
                    i <= exp@.len(),
                    first_unmet(fin, exp@) == first_unmet(fin, exp@.skip(i as int)),
                    expectation_check(final_regs.entries(), *metadata) == first_unmet(fin, exp@),
                decreases exp@.len() - i,
            {
                let (reg, want) = exp[i];
                proof {
                    assert(exp@.skip(i as int)[0] == exp@[i as int]);
                    assert(exp@.skip(i as int).drop_first() =~= exp@.skip(i + 1));
                }
                match final_regs.get(reg) {
                    None => {
                        let mut m = String::new();
                        m.append("Expected register ");
                        m.append(reg.name());
                        m.append(" to be ");
                        push_u64(&mut m, want);
                        m.append(", but it is unavailable");
                        proof {
                            assert(m@ =~= unavailable_message(reg, want));
                            assert(first_unmet(fin, exp@.skip(i as int)) == Some(unavailable_message(reg, want)));
                        }
                        return Err(m);
                    },
                    Some(got) => {
                        if got != want {
                            let mut m = String::new();
                            m.append("Expected register ");
                            m.append(reg.name());
                            m.append(" to be ");
                            push_u64(&mut m, want);
                            m.append(", but got ");
                            push_u64(&mut m, got);
                            proof {
                                assert(m@ =~= mismatch_message(reg, want, got));
                                assert(first_unmet(fin, exp@.skip(i as int)) == Some(mismatch_message(reg, want, got)));
                            }
                            return Err(m);
                        }
                    },
                }
                i = i + 1;
            }
            proof {
                assert(exp@.skip(i as int).len() == 0);
            }
            Ok(())
        },
        TestMetadata::Empty => Ok(()),
    }
}

/// Whether the text of an emulator error says that the run stopped as
/// expected: lower-cased, it mentions `int3`, `breakpoint`, `interrupt` or
/// `exception`.
pub open spec fn spec_is_expected_stop(error_text: Seq<char>) -> bool {
    let l = unicode_lowercase(error_text);
    contains_seq(l, "int3"@) || contains_seq(l, "breakpoint"@) || contains_seq(l, "interrupt"@)
        || contains_seq(l, "exception"@)
}

/// An emulator error is an expected end of the run exactly when one of the
/// four words `int3`, `breakpoint`, `interrupt`, `exception` occurs in its
/// lower-cased text: any text whose lower-cased form has one of them inside is
/// one, and any error whose lower-cased text holds none of them (an unmapped
/// fetch, read or write, an invalid instruction) is not. So it depends on the
/// lower-cased text alone.
pub proof fn law_expected_stop_words(error_text: Seq<char>, a: Seq<char>, b: Seq<char>, other: Seq<char>)
    ensures
        unicode_lowercase(error_text) == a + "int3"@ + b ==> spec_is_expected_stop(error_text),
        unicode_lowercase(error_text) == a + "breakpoint"@ + b ==> spec_is_expected_stop(error_text),
        unicode_lowercase(error_text) == a + "interrupt"@ + b ==> spec_is_expected_stop(error_text),
        unicode_lowercase(error_text) == a + "exception"@ + b ==> spec_is_expected_stop(error_text),
        !contains_seq(unicode_lowercase(error_text), "int3"@) && !contains_seq(
            unicode_lowercase(error_text),
            "breakpoint"@,
        ) && !contains_seq(unicode_lowercase(error_text), "interrupt"@) && !contains_seq(
            unicode_lowercase(error_text),
            "exception"@,
        ) ==> !spec_is_expected_stop(error_text),
        unicode_lowercase(error_text) == unicode_lowercase(other) ==> spec_is_expected_stop(error_text)
            == spec_is_expected_stop(other),
{
    let l = unicode_lowercase(error_text);
    let i = a.len() as int;
    if l == a + "int3"@ + b {
        assert(l.subrange(i, i + "int3"@.len()) =~= "int3"@);
        assert(occurs_at(l, "int3"@, i));
    }
    if l == a + "breakpoint"@ + b {
        assert(l.subrange(i, i + "breakpoint"@.len()) =~= "breakpoint"@);
        assert(occurs_at(l, "breakpoint"@, i));
    }
    if l == a + "interrupt"@ + b {
        assert(l.subrange(i, i + "interrupt"@.len()) =~= "interrupt"@);
        assert(occurs_at(l, "interrupt"@, i));
    }
    if l == a + "exception"@ + b {
        assert(l.subrange(i, i + "exception"@.len()) =~= "exception"@);
        assert(occurs_at(l, "exception"@, i));
    }
}

/// Whether an emulator error is an expected end of the run (see
/// `spec_is_expected_stop`).
pub fn is_expected_stop(error_text: &str) -> (b: bool)
    ensures
        b == spec_is_expected_stop(error_text@),
{
    let lower = to_lowercase(error_text);
    let l = chars_of(lower.as_str());
    contains_chars(&l, &chars_of("int3")) || contains_chars(&l, &chars_of("breakpoint"))
        || contains_chars(&l, &chars_of("interrupt")) || contains_chars(&l, &chars_of("exception"))
}

/// Why the run of an example does not give an analysis.
#[derive(Debug, Clone, PartialEq, Eq)]
pub enum RunFailure {
    /// The emulator stopped with an error that is not an expected end; its text.
    UnexpectedStop(String),
    /// The final registers do not meet the metadata; the message.
    UnmetExpectation(String),
}

/// Concludes the run of an example from what the emulator reported: an error
/// that is not an expected end (see `spec_is_expected_stop`) fails the run;
/// otherwise the final registers must meet the metadata's expectations (see
/// `expectation_check`), and then the run gives the registers before and after.
pub fn conclude_run(
    run_error: Option<String>,
    initial_registers: RegisterState,
    final_registers: RegisterState,
    metadata: &TestMetadata,
) -> (r: Result<AnalysisResult, RunFailure>)
    ensures
        match run_error {
            Some(t) if !spec_is_expected_stop(t@) => r == Err::<AnalysisResult, RunFailure>(
                RunFailure::UnexpectedStop(t),
            ),
            _ => match expectation_check(final_registers.entries(), *metadata) {
                Some(m) => r matches Err(RunFailure::UnmetExpectation(e)) && e@ == m,
                None => r == Ok::<AnalysisResult, RunFailure>(
                    AnalysisResult { initial_registers, final_registers },
                ),
            },
        },
        r matches Err(RunFailure::UnexpectedStop(t)) ==> run_error == Some(t) && !spec_is_expected_stop(t@),
{
    if let Some(t) = run_error {
        if !is_expected_stop(t.as_str()) {
            return Err(RunFailure::UnexpectedStop(t));
        }
    }
    match check_for_expected_registers(&final_registers, metadata) {
        Ok(()) => Ok(AnalysisResult { initial_registers, final_registers }),
        Err(m) => Err(RunFailure::UnmetExpectation(m)),
    }
}

/// An example program: its path, its test metadata and its assembly text.
#[derive(Debug, Clone)]
pub struct ExaFData {
    pub path: String,
    pub metadata: TestMetadata,
    pub content: String,
}

/// The analysed examples, and the analysis of each by path.
#[derive(Debug)]
pub struct ExaDB {
    pub analysis_results: Vec<(String, AnalysisResult)>,
    pub examples: Vec<ExaFData>,
}

/// The analyses of a database, keyed by the text of their paths.
pub open spec fn results_of(v: Seq<(String, AnalysisResult)>) -> Seq<(Seq<char>, AnalysisResult)> {
    v.map_values(|e: (String, AnalysisResult)| (e.0@, e.1))
}

impl ExaDB {
    /// The analyses, keyed by path; the first entry of a path gives its analysis.
    pub open spec fn results(self) -> Seq<(Seq<char>, AnalysisResult)> {
        results_of(self.analysis_results@)
    }

    /// The database without examples.
    pub fn new() -> (db: ExaDB)
        ensures
            db.results() == Seq::<(Seq<char>, AnalysisResult)>::empty(),
            db.examples@ == Seq::<ExaFData>::empty(),
    {
        let db = ExaDB { analysis_results: Vec::new(), examples: Vec::new() };
        proof {
            assert(db.results() =~= Seq::<(Seq<char>, AnalysisResult)>::empty());
        }
        db
    }

    /// The position of the first analysis for `path`, if there is one.
    fn position(&self, path: &String) -> (r: Option<usize>)
        ensures
            match r {
                Some(i) => is_first(self.results(), path@, i as int) && i as int == first_index(
                    self.results(),
                    path@,
                ) && has_key(self.results(), path@) && i < self.analysis_results@.len(),
                None => !has_key(self.results(), path@),
            },
    {
        let mut i: usize = 0;
        while i < self.analysis_results.len()
            invariant
                i <= self.analysis_results@.len(),
                forall|j: int| 0 <= j < i ==> self.results()[j].0 != path@,
            decreases self.analysis_results@.len() - i,
        {
            if self.analysis_results[i].0 == *path {
                proof {
                    assert(is_first(self.results(), path@, i as int));
                    assert(has_key(self.results(), path@));
                    crate::assoc::lemma_first_unique(
                        self.results(),
                        path@,
                        i as int,
                        first_index(self.results(), path@),
                    );
                }
                return Some(i);
            }
            i = i + 1;
        }
        proof {
            if has_key(self.results(), path@) {
                assert(is_first(self.results(), path@, first_index(self.results(), path@)));
            }
        }
        None
    }

    /// Records an example and its analysis: the analysis becomes the one for
    /// the example's path, and the example is appended to the examples.
    pub fn add_example(&mut self, data: ExaFData, analysis: AnalysisResult)
        ensures
            final(self).results() == assoc_insert(old(self).results(), data.path@, analysis),
            final(self).examples@ == old(self).examples@.push(data),
    {
        let key = data.path.clone();
        let ghost start = self.results();
        match self.position(&key) {
            Some(i) => {
                self.analysis_results.set(i, (key, analysis));
                proof {
                    assert(self.results() =~= start.update(i as int, (data.path@, analysis)));
                }
            },
            None => {
                self.analysis_results.push((key, analysis));
                proof {
                    assert(self.results() =~= start.push((data.path@, analysis)));
                }
            },
        }
        self.examples.push(data);
    }

    /// The analysis recorded for `path`, if any.
    pub fn get_analysis(&self, path: &String) -> (r: Option<&AnalysisResult>)
        ensures
            match r {
                Some(a) => lookup(self.results(), path@) == Some(*a),
                None => lookup(self.results(), path@) is None,
            },
    {
        match self.position(path) {
            Some(i) => Some(&self.analysis_results[i].1),
            None => None,
        }
    }
}

impl Default for ExaDB {
    fn default() -> (db: ExaDB)
        ensures
            db.results() == Seq::<(Seq<char>, AnalysisResult)>::empty(),
            db.examples@ == Seq::<ExaFData>::empty(),
    {
        ExaDB::new()
    }
}

} // verus!
