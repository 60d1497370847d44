//! The sixteen general-purpose registers, their widths, and their AT&T names.
use vstd::prelude::*;

use crate::args::{Memory, SibMemory};

verus! {

/// A register used at a specific width.
#[derive(Copy, Clone, Debug, PartialEq, Eq, Hash, Structural)]
pub struct Register(pub RegisterName, pub RegisterSize);

#[derive(Copy, Clone, Debug, PartialEq, Eq, Hash, Structural)]
pub enum RegisterName {
    A,
    B,
    C,
    D,
    SI,
    DI,
    SP,
    BP,
    R8,
    R9,
    R10,
    R11,
    R12,
    R13,
    R14,
    R15,
}

#[derive(Copy, Clone, Debug, PartialEq, Eq, Hash, Structural)]
pub enum RegisterSize {
    Byte,
    Word,
    Double,
    Quad,
}

impl RegisterName {
    /// The letters shared by every width of the register.
    pub open spec fn name_text(self) -> Seq<char> {
        match self {
            RegisterName::A => "a"@,
            RegisterName::B => "b"@,
            RegisterName::C => "c"@,
            RegisterName::D => "d"@,
            RegisterName::SI => "si"@,
            RegisterName::DI => "di"@,
            RegisterName::SP => "sp"@,
            RegisterName::BP => "bp"@,
            RegisterName::R8 => "r8"@,
            RegisterName::R9 => "r9"@,
            RegisterName::R10 => "r10"@,
            RegisterName::R11 => "r11"@,
            RegisterName::R12 => "r12"@,
            RegisterName::R13 => "r13"@,
            RegisterName::R14 => "r14"@,
            RegisterName::R15 => "r15"@,
        }
    }

    /// The accumulator-style family: `al`, `ax`, `eax`, `rax`.
    pub open spec fn spec_is_sandwich(self) -> bool {
        self is A || self is B || self is C || self is D
    }

    /// The pointer-style family: `sil`, `si`, `esi`, `rsi`.
    pub open spec fn spec_is_pointer(self) -> bool {
        self is SI || self is DI || self is SP || self is BP
    }

    /// The numbered family: `r8b`, `r8w`, `r8d`, `r8`.
    pub open spec fn spec_is_numbered(self) -> bool {
        self is R8 || self is R9 || self is R10 || self is R11 || self is R12 || self is R13
            || self is R14 || self is R15
    }

    /// The number of a register of the numbered family.
    pub open spec fn number(self) -> int {
        match self {
            RegisterName::R8 => 8,
            RegisterName::R9 => 9,
            RegisterName::R10 => 10,
            RegisterName::R11 => 11,
            RegisterName::R12 => 12,
            RegisterName::R13 => 13,
            RegisterName::R14 => 14,
            RegisterName::R15 => 15,
            _ => 0,
        }
    }

    fn name(&self) -> (r: &'static str)
        ensures
            r@ == self.name_text(),
    {
        match self {
            RegisterName::A => "a",
            RegisterName::B => "b",
            RegisterName::C => "c",
            RegisterName::D => "d",
            RegisterName::SI => "si",
            RegisterName::DI => "di",
            RegisterName::SP => "sp",
            RegisterName::BP => "bp",
            RegisterName::R8 => "r8",
            RegisterName::R9 => "r9",
            RegisterName::R10 => "r10",
            RegisterName::R11 => "r11",
            RegisterName::R12 => "r12",
            RegisterName::R13 => "r13",
            RegisterName::R14 => "r14",
            RegisterName::R15 => "r15",
        }
    }

    fn is_sandwich(self) -> (r: bool)
        ensures
            r == self.spec_is_sandwich(),
    {
        match self {
            RegisterName::A | RegisterName::B | RegisterName::C | RegisterName::D => true,
            _ => false,
        }
    }

    fn is_pointer(self) -> (r: bool)
        ensures
            r == self.spec_is_pointer(),
    {
        match self {
            RegisterName::SI | RegisterName::DI | RegisterName::SP | RegisterName::BP => true,
            _ => false,
        }
    }

    fn is_numbered(self) -> (r: bool)
        ensures
            r == self.spec_is_numbered(),
    {
        match self {
            RegisterName::R8
            | RegisterName::R9
            | RegisterName::R10
            | RegisterName::R11
            | RegisterName::R12
            | RegisterName::R13
            | RegisterName::R14
            | RegisterName::R15 => true,
            _ => false,
        }
    }

    pub fn with_size(self, size: RegisterSize) -> (r: Register)
        ensures
            r == Register(self, size),
    {
        Register(self, size)
    }

    pub fn byte(self) -> (r: Register)
        ensures
            r == Register(self, RegisterSize::Byte),
    {
        Register(self, RegisterSize::Byte)
    }

    pub fn word(self) -> (r: Register)
        ensures
            r == Register(self, RegisterSize::Word),
    {
        Register(self, RegisterSize::Word)
    }

    pub fn double(self) -> (r: Register)
        ensures
            r == Register(self, RegisterSize::Double),
    {
        Register(self, RegisterSize::Double)
    }

    pub fn quad(self) -> (r: Register)
        ensures
            r == Register(self, RegisterSize::Quad),
    {
        Register(self, RegisterSize::Quad)
    }
}

/// Every register belongs to exactly one naming family.
pub proof fn lemma_family_exactly_one(n: RegisterName)
    ensures
        n.spec_is_sandwich() || n.spec_is_pointer() || n.spec_is_numbered(),
        !(n.spec_is_sandwich() && n.spec_is_pointer()),
        !(n.spec_is_sandwich() && n.spec_is_numbered()),
        !(n.spec_is_pointer() && n.spec_is_numbered()),
{
}

impl RegisterSize {
    /// Prefix and suffix around the name for the accumulator-style family.
    pub open spec fn sandwich_affix_text(self) -> (Seq<char>, Seq<char>) {
        match self {
            RegisterSize::Byte => (""@, "l"@),
            RegisterSize::Word => (""@, "x"@),
            RegisterSize::Double => ("e"@, "x"@),
            RegisterSize::Quad => ("r"@, "x"@),
        }
    }

    /// Prefix and suffix around the name for the pointer-style family.
    pub open spec fn pointer_affix_text(self) -> (Seq<char>, Seq<char>) {
        match self {
            RegisterSize::Byte => (""@, "l"@),
            RegisterSize::Word => (""@, ""@),
            RegisterSize::Double => ("e"@, ""@),
            RegisterSize::Quad => ("r"@, ""@),
        }
    }

    /// Prefix and suffix around the name for the numbered family.
    pub open spec fn numbered_affix_text(self) -> (Seq<char>, Seq<char>) {
        match self {
            RegisterSize::Byte => (""@, "b"@),
            RegisterSize::Word => (""@, "w"@),
            RegisterSize::Double => (""@, "d"@),
            RegisterSize::Quad => (""@, ""@),
        }
    }

    pub open spec fn bytes(self) -> int {
        match self {
            RegisterSize::Byte => 1,
            RegisterSize::Word => 2,
            RegisterSize::Double => 4,
            RegisterSize::Quad => 8,
        }
    }

    fn sandwich_affixes(self) -> (r: (&'static str, &'static str))
        ensures
            (r.0@, r.1@) == self.sandwich_affix_text(),
    {
        match self {
            RegisterSize::Byte => ("", "l"),
            RegisterSize::Word => ("", "x"),
            RegisterSize::Double => ("e", "x"),
            RegisterSize::Quad => ("r", "x"),
        }
    }

    fn pointer_affixes(self) -> (r: (&'static str, &'static str))
        ensures
            (r.0@, r.1@) == self.pointer_affix_text(),
    {
        match self {
            RegisterSize::Byte => ("", "l"),
            RegisterSize::Word => ("", ""),
            RegisterSize::Double => ("e", ""),
            RegisterSize::Quad => ("r", ""),
        }
    }

    fn numbered_affixes(self) -> (r: (&'static str, &'static str))
        ensures
            (r.0@, r.1@) == self.numbered_affix_text(),
    {
        match self {
            RegisterSize::Byte => ("", "b"),
            RegisterSize::Word => ("", "w"),
            RegisterSize::Double => ("", "d"),
            RegisterSize::Quad => ("", ""),
        }
    }

    /// The width in bytes: 1, 2, 4 or 8.
    pub fn in_bytes(self) -> (r: i64)
        ensures
            r == self.bytes(),
    {
        match self {
            RegisterSize::Byte => 1,
            RegisterSize::Word => 2,
            RegisterSize::Double => 4,
            RegisterSize::Quad => 8,
        }
    }
}

impl Register {
    /// The prefix and suffix that the register's family puts around its name.
    pub open spec fn affix_text(self) -> (Seq<char>, Seq<char>) {
        if self.0.spec_is_sandwich() {
            self.1.sandwich_affix_text()
        } else if self.0.spec_is_pointer() {
            self.1.pointer_affix_text()
        } else {
            self.1.numbered_affix_text()
        }
    }

    /// `%` + prefix + name + suffix, e.g. `%eax`, `%sp`, `%r12b`.
    pub open spec fn text(self) -> Seq<char> {
        "%"@ + self.affix_text().0 + self.0.name_text() + self.affix_text().1
    }

    /// Appends the register's AT&T name to `out`.
    pub fn write_to(&self, out: &mut String)
        ensures
            final(out)@ == old(out)@ + self.text(),
    {
        let ghost start = out@;
        let affixes = if self.0.is_sandwich() {
            self.1.sandwich_affixes()
        } else if self.0.is_pointer() {
            self.1.pointer_affixes()
        } else if self.0.is_numbered() {
            self.1.numbered_affixes()
        } else {
            proof {
                lemma_family_exactly_one(self.0);
            }
            unreached()
        };
        out.append("%");
        out.append(affixes.0);
        out.append(self.0.name());
        out.append(affixes.1);
        assert(out@ =~= start + self.text());
    }

    /// A memory operand that addresses through this register alone.
    pub fn memory(self) -> (r: Memory<'static>)
        ensures
            r == Memory::spec_sib().with_sib(SibMemory { base: Some(self), index: None }),
    {
        Memory::sib().base(self).unwrap()
    }

    /// The register's AT&T name.
    pub fn to_string(&self) -> (r: String)
        ensures
            r@ == self.text(),
    {
        let mut out = String::new();
        self.write_to(&mut out);
        assert(out@ =~= self.text());
        out
    }
}

pub fn a_name() -> (r: RegisterName)
    ensures
        r == RegisterName::A,
{
    RegisterName::A
}

pub fn b_name() -> (r: RegisterName)
    ensures
        r == RegisterName::B,
{
    RegisterName::B
}

pub fn c_name() -> (r: RegisterName)
    ensures
        r == RegisterName::C,
{
    RegisterName::C
}

pub fn d_name() -> (r: RegisterName)
    ensures
        r == RegisterName::D,
{
    RegisterName::D
}

pub fn si_name() -> (r: RegisterName)
    ensures
        r == RegisterName::SI,
{
    RegisterName::SI
}

pub fn di_name() -> (r: RegisterName)
    ensures
        r == RegisterName::DI,
{
    RegisterName::DI
}

pub fn sp_name() -> (r: RegisterName)
    ensures
        r == RegisterName::SP,
{
    RegisterName::SP
}

pub fn bp_name() -> (r: RegisterName)
    ensures
        r == RegisterName::BP,
{
    RegisterName::BP
}

/// The numbered register `r<x>`; only 8 to 15 name a register.
pub fn rx_name(x: u8) -> (r: RegisterName)
    requires
        8 <= x <= 15,
    ensures
        r.spec_is_numbered(),
        r.number() == x,
{
    match x {
        8 => RegisterName::R8,
        9 => RegisterName::R9,
        10 => RegisterName::R10,
        11 => RegisterName::R11,
        12 => RegisterName::R12,
        13 => RegisterName::R13,
        14 => RegisterName::R14,
        _ => RegisterName::R15,
    }
}

pub fn rax() -> (r: Register)
    ensures
        r == Register(RegisterName::A, RegisterSize::Quad),
{
    a_name().quad()
}

pub fn eax() -> (r: Register)
    ensures
        r == Register(RegisterName::A, RegisterSize::Double),
{
    a_name().double()
}

pub fn ax() -> (r: Register)
    ensures
        r == Register(RegisterName::A, RegisterSize::Word),
{
    a_name().word()
}

pub fn al() -> (r: Register)
    ensures
        r == Register(RegisterName::A, RegisterSize::Byte),
{
    a_name().byte()
}

pub fn rbx() -> (r: Register)
    ensures
        r == Register(RegisterName::B, RegisterSize::Quad),
{
    b_name().quad()
}

pub fn ebx() -> (r: Register)
    ensures
        r == Register(RegisterName::B, RegisterSize::Double),
{
    b_name().double()
}

pub fn bx() -> (r: Register)
    ensures
        r == Register(RegisterName::B, RegisterSize::Word),
{
    b_name().word()
}

pub fn bl() -> (r: Register)
    ensures
        r == Register(RegisterName::B, RegisterSize::Byte),
{
    b_name().byte()
}

pub fn rcx() -> (r: Register)
    ensures
        r == Register(RegisterName::C, RegisterSize::Quad),
{
    c_name().quad()
}

pub fn ecx() -> (r: Register)
    ensures
        r == Register(RegisterName::C, RegisterSize::Double),
{
    c_name().double()
}

pub fn cx() -> (r: Register)
    ensures
        r == Register(RegisterName::C, RegisterSize::Word),
{
    c_name().word()
}

pub fn cl() -> (r: Register)
    ensures
        r == Register(RegisterName::C, RegisterSize::Byte),
{
    c_name().byte()
}

pub fn rdx() -> (r: Register)
    ensures
        r == Register(RegisterName::D, RegisterSize::Quad),
{
    d_name().quad()
}

pub fn edx() -> (r: Register)
    ensures
        r == Register(RegisterName::D, RegisterSize::Double),
{
    d_name().double()
}

pub fn dx() -> (r: Register)
    ensures
        r == Register(RegisterName::D, RegisterSize::Word),
{
    d_name().word()
}

pub fn dl() -> (r: Register)
    ensures
        r == Register(RegisterName::D, RegisterSize::Byte),
{
    d_name().byte()
}

pub fn rdi() -> (r: Register)
    ensures
        r == Register(RegisterName::DI, RegisterSize::Quad),
{
    di_name().quad()
}

pub fn edi() -> (r: Register)
    ensures
        r == Register(RegisterName::DI, RegisterSize::Double),
{
    di_name().double()
}

pub fn di() -> (r: Register)
    ensures
        r == Register(RegisterName::DI, RegisterSize::Word),
{
    di_name().word()
}

pub fn dil() -> (r: Register)
    ensures
        r == Register(RegisterName::DI, RegisterSize::Byte),
{
    di_name().byte()
}

pub fn rsi() -> (r: Register)
    ensures
        r == Register(RegisterName::SI, RegisterSize::Quad),
{
    si_name().quad()
}

pub fn esi() -> (r: Register)
    ensures
        r == Register(RegisterName::SI, RegisterSize::Double),
{
    si_name().double()
}

pub fn si() -> (r: Register)
    ensures
        r == Register(RegisterName::SI, RegisterSize::Word),
{
    si_name().word()
}

pub fn sil() -> (r: Register)
    ensures
        r == Register(RegisterName::SI, RegisterSize::Byte),
{
    si_name().byte()
}

pub fn rsp() -> (r: Register)
    ensures
        r == Register(RegisterName::SP, RegisterSize::Quad),
{
    sp_name().quad()
}

pub fn esp() -> (r: Register)
    ensures
        r == Register(RegisterName::SP, RegisterSize::Double),
{
    sp_name().double()
}

pub fn sp() -> (r: Register)
    ensures
        r == Register(RegisterName::SP, RegisterSize::Word),
{
    sp_name().word()
}

pub fn spl() -> (r: Register)
    ensures
        r == Register(RegisterName::SP, RegisterSize::Byte),
{
    sp_name().byte()
}

pub fn rbp() -> (r: Register)
    ensures
        r == Register(RegisterName::BP, RegisterSize::Quad),
{
    bp_name().quad()
}

pub fn ebp() -> (r: Register)
    ensures
        r == Register(RegisterName::BP, RegisterSize::Double),
{
    bp_name().double()
}

pub fn bp() -> (r: Register)
    ensures
        r == Register(RegisterName::BP, RegisterSize::Word),
{
    bp_name().word()
}

pub fn bpl() -> (r: Register)
    ensures
        r == Register(RegisterName::BP, RegisterSize::Byte),
{
    bp_name().byte()
}

/// `r<x>` at quad width; only 8 to 15 name a register.
pub fn rx(x: u8) -> (r: Register)
    requires
        8 <= x <= 15,
    ensures
        r.0.spec_is_numbered(),
        r.0.number() == x,
        r.1 == RegisterSize::Quad,
{
    rx_name(x).quad()
}

/// `r<x>` at double width; only 8 to 15 name a register.
pub fn rxd(x: u8) -> (r: Register)
    requires
        8 <= x <= 15,
    ensures
        r.0.spec_is_numbered(),
        r.0.number() == x,
        r.1 == RegisterSize::Double,
{
    rx_name(x).double()
}

/// `r<x>` at word width; only 8 to 15 name a register.
pub fn rxw(x: u8) -> (r: Register)
    requires
        8 <= x <= 15,
    ensures
        r.0.spec_is_numbered(),
        r.0.number() == x,
        r.1 == RegisterSize::Word,
{
    rx_name(x).word()
}

/// `r<x>` at byte width; only 8 to 15 name a register.
pub fn rxb(x: u8) -> (r: Register)
    requires
        8 <= x <= 15,
    ensures
        r.0.spec_is_numbered(),
        r.0.number() == x,
        r.1 == RegisterSize::Byte,
{
    rx_name(x).byte()
}

} // verus!
