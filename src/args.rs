//! Operands: registers, labels, immediates and memory addressing forms.
use vstd::prelude::*;

use crate::decimal::{decimal, signed_decimal, write_signed, write_unsigned};
use crate::error::AsmError;
use crate::label::Label;
use crate::register::{Register, RegisterSize};

verus! {

/// An operand of an instruction.
#[derive(Copy, Clone, Debug, PartialEq, Eq, Hash)]
pub enum Arg<'a> {
    Register(Register),
    Label(Label<'a>),
    Int(ConstInt),
    Memory(Memory<'a>),
}

/// The size class that an instruction's suffix names.
#[derive(Copy, Clone, Debug, PartialEq, Eq, Hash, Structural)]
pub enum ArgSize {
    Byte,
    Word,
    Double,
    Quad,
}

/// An immediate or a displacement, with its width and signedness.
#[derive(Copy, Clone, Debug, PartialEq, Eq, Hash, Structural)]
pub enum ConstInt {
    I8(i8),
    U8(u8),
    I32(i32),
    U32(u32),
    I64(i64),
    U64(u64),
}

/// A memory operand: an optional label and constant as displacement, and an
/// addressing form.
#[derive(Copy, Clone, Debug, PartialEq, Eq, Hash)]
pub struct Memory<'a> {
    pub size: Option<ArgSize>,
    pub displacement_label: Option<Label<'a>>,
    pub displacement_constant: Option<ConstInt>,
    pub kind: MemoryKind,
}

#[derive(Copy, Clone, Debug, PartialEq, Eq, Hash)]
pub enum MemoryKind {
    /// Relative to the instruction pointer.
    Rip,
    /// Base + index * scale.
    Sib(SibMemory),
}

#[derive(Copy, Clone, Debug, PartialEq, Eq, Hash)]
pub struct SibMemory {
    pub base: Option<Register>,
    pub index: Option<(Register, Scale)>,
}

/// The multiplier of an index register.
#[derive(Copy, Clone, Debug, PartialEq, Eq, Hash, Structural)]
pub enum Scale {
    One,
    Two,
    Four,
    Eight,
}

impl ArgSize {
    pub open spec fn of_register_size(s: RegisterSize) -> ArgSize {
        match s {
            RegisterSize::Byte => ArgSize::Byte,
            RegisterSize::Word => ArgSize::Word,
            RegisterSize::Double => ArgSize::Double,
            RegisterSize::Quad => ArgSize::Quad,
        }
    }

    pub open spec fn suffix_text(self) -> Seq<char> {
        match self {
            ArgSize::Byte => "b"@,
            ArgSize::Word => "w"@,
            ArgSize::Double => "l"@,
            ArgSize::Quad => "q"@,
        }
    }

    /// The mnemonic suffix: `b`, `w`, `l` or `q`.
    pub fn suffix(self) -> (r: &'static str)
        ensures
            r@ == self.suffix_text(),
    {
        match self {
            ArgSize::Byte => "b",
            ArgSize::Word => "w",
            ArgSize::Double => "l",
            ArgSize::Quad => "q",
        }
    }
}

impl ConstInt {
    /// The number held, whatever its width.
    pub open spec fn value(self) -> int {
        match self {
            ConstInt::I8(v) => v as int,
            ConstInt::U8(v) => v as int,
            ConstInt::I32(v) => v as int,
            ConstInt::U32(v) => v as int,
            ConstInt::I64(v) => v as int,
            ConstInt::U64(v) => v as int,
        }
    }

    pub open spec fn same_variant(self, other: ConstInt) -> bool {
        ||| self is I8 && other is I8
        ||| self is U8 && other is U8
        ||| self is I32 && other is I32
        ||| self is U32 && other is U32
        ||| self is I64 && other is I64
        ||| self is U64 && other is U64
    }

    /// Whether `v` can be held by a constant of this one's variant.
    pub open spec fn holds(self, v: int) -> bool {
        match self {
            ConstInt::I8(_) => i8::MIN <= v <= i8::MAX,
            ConstInt::U8(_) => 0 <= v <= u8::MAX,
            ConstInt::I32(_) => i32::MIN <= v <= i32::MAX,
            ConstInt::U32(_) => 0 <= v <= u32::MAX,
            ConstInt::I64(_) => i64::MIN <= v <= i64::MAX,
            ConstInt::U64(_) => 0 <= v <= u64::MAX,
        }
    }

    /// A constant of this one's variant holding `v`.
    pub open spec fn with_value(self, v: int) -> ConstInt {
        match self {
            ConstInt::I8(_) => ConstInt::I8(v as i8),
            ConstInt::U8(_) => ConstInt::U8(v as u8),
            ConstInt::I32(_) => ConstInt::I32(v as i32),
            ConstInt::U32(_) => ConstInt::U32(v as u32),
            ConstInt::I64(_) => ConstInt::I64(v as i64),
            ConstInt::U64(_) => ConstInt::U64(v as u64),
        }
    }

    /// Whether `other` may be added to this constant: same variant, and the sum
    /// fits in it.
    pub open spec fn can_accumulate(self, other: ConstInt) -> bool {
        self.same_variant(other) ==> self.holds(self.value() + other.value())
    }

    /// What adding `other` to this constant gives.
    pub open spec fn accumulated(self, other: ConstInt) -> Result<ConstInt, AsmError> {
        if self.same_variant(other) {
            Ok(self.with_value(self.value() + other.value()))
        } else {
            Err(AsmError::IncompatibleAccumulation)
        }
    }

    pub open spec fn text(self) -> Seq<char> {
        signed_decimal(self.value())
    }

    pub fn is_zero(self) -> (r: bool)
        ensures
            r == (self.value() == 0),
    {
        match self {
            ConstInt::I8(v) => v == 0,
            ConstInt::U8(v) => v == 0,
            ConstInt::I32(v) => v == 0,
            ConstInt::U32(v) => v == 0,
            ConstInt::I64(v) => v == 0,
            ConstInt::U64(v) => v == 0,
        }
    }

    pub fn is_negative(self) -> (r: bool)
        ensures
            r == (self.value() < 0),
    {
        match self {
            ConstInt::I8(v) => v < 0,
            ConstInt::U8(_) => false,
            ConstInt::I32(v) => v < 0,
            ConstInt::U32(_) => false,
            ConstInt::I64(v) => v < 0,
            ConstInt::U64(_) => false,
        }
    }

    /// Adds `rhs` into this constant. Both must be of the same variant;
    /// otherwise nothing changes and the mix is reported.
    pub fn add_assign(&mut self, rhs: ConstInt) -> (r: Result<(), AsmError>)
        requires
            old(self).can_accumulate(rhs),
        ensures
            match old(self).accumulated(rhs) {
                Ok(c) => r is Ok && *final(self) == c,
                Err(e) => r == Err::<(), AsmError>(e) && *final(self) == *old(self),
            },
            r is Ok ==> final(self).same_variant(*old(self)) && final(self).value()
                == old(self).value() + rhs.value(),
    {
        match (*self, rhs) {
            (ConstInt::I8(a), ConstInt::I8(b)) => {
                *self = ConstInt::I8(a + b);
            },
            (ConstInt::U8(a), ConstInt::U8(b)) => {
                *self = ConstInt::U8(a + b);
            },
            (ConstInt::I32(a), ConstInt::I32(b)) => {
                *self = ConstInt::I32(a + b);
            },
            (ConstInt::U32(a), ConstInt::U32(b)) => {
                *self = ConstInt::U32(a + b);
            },
            (ConstInt::I64(a), ConstInt::I64(b)) => {
                *self = ConstInt::I64(a + b);
            },
            (ConstInt::U64(a), ConstInt::U64(b)) => {
                *self = ConstInt::U64(a + b);
            },
            _ => {
                return Err(AsmError::IncompatibleAccumulation);
            },
        }
        Ok(())
    }

    /// Appends the decimal value, with `-` when negative.
    pub fn write_to(&self, out: &mut String)
        ensures
            final(out)@ == old(out)@ + self.text(),
    {
        match *self {
            ConstInt::I8(v) => write_signed(out, v as i64),
            ConstInt::U8(v) => write_unsigned(out, v as u64),
            ConstInt::I32(v) => write_signed(out, v as i64),
            ConstInt::U32(v) => write_unsigned(out, v as u64),
            ConstInt::I64(v) => write_signed(out, v),
            ConstInt::U64(v) => write_unsigned(out, v),
        }
    }

    /// The decimal value, with `-` when negative.
    pub fn to_string(&self) -> (r: String)
        ensures
            r@ == self.text(),
    {
        let mut out = String::new();
        self.write_to(&mut out);
        assert(out@ =~= self.text());
        out
    }
}

impl Scale {
    pub open spec fn text(self) -> Seq<char> {
        match self {
            Scale::One => "1"@,
            Scale::Two => "2"@,
            Scale::Four => "4"@,
            Scale::Eight => "8"@,
        }
    }

    pub fn write_to(&self, out: &mut String)
        ensures
            final(out)@ == old(out)@ + self.text(),
    {
        match self {
            Scale::One => out.append("1"),
            Scale::Two => out.append("2"),
            Scale::Four => out.append("4"),
            Scale::Eight => out.append("8"),
        }
    }
}

impl SibMemory {
    pub open spec fn index_text(self) -> Seq<char> {
        match self.index {
            Some((index, scale)) => ", "@ + index.text() + if scale == Scale::One {
                Seq::empty()
            } else {
                ", "@ + scale.text()
            },
            None => Seq::empty(),
        }
    }

    /// `(base, index, scale)`, with the scale left out when it is 1, the base
    /// slot empty when there is no base, and nothing at all when there is
    /// neither base nor index.
    pub open spec fn text(self) -> Seq<char> {
        let any = self.base is Some || self.index is Some;
        let base = match self.base {
            Some(b) => b.text(),
            None => Seq::empty(),
        };
        if any {
            "("@ + base + self.index_text() + ")"@
        } else {
            Seq::empty()
        }
    }

    pub fn write_to(&self, out: &mut String)
        ensures
            final(out)@ == old(out)@ + self.text(),
    {
        let ghost start = out@;
        let any = self.base.is_some() || self.index.is_some();
        if any {
            out.append("(");
        }
        let ghost open = out@;
        if let Some(base) = self.base {
            base.write_to(out);
        }
        let ghost based = out@;
        if let Some((index, scale)) = self.index {
            out.append(", ");
            index.write_to(out);
            if scale != Scale::One {
                out.append(", ");
                scale.write_to(out);
            }
        }
        assert(out@ =~= based + self.index_text());
        if any {
            out.append(")");
        }
        assert(out@ =~= start + self.text());
    }
}

impl MemoryKind {
    pub open spec fn text(self) -> Seq<char> {
        match self {
            MemoryKind::Rip => "(%rip)"@,
            MemoryKind::Sib(m) => m.text(),
        }
    }

    pub fn write_to(&self, out: &mut String)
        ensures
            final(out)@ == old(out)@ + self.text(),
    {
        match self {
            MemoryKind::Rip => out.append("(%rip)"),
            MemoryKind::Sib(m) => m.write_to(out),
        }
    }
}

impl<'a> Memory<'a> {
    pub open spec fn spec_sib() -> Memory<'a> {
        Memory {
            size: None,
            displacement_label: None,
            displacement_constant: None,
            kind: MemoryKind::Sib(SibMemory { base: None, index: None }),
        }
    }

    pub open spec fn spec_rip() -> Memory<'a> {
        Memory {
            size: None,
            displacement_label: None,
            displacement_constant: None,
            kind: MemoryKind::Rip,
        }
    }

    pub open spec fn with_label(self, label: Label<'a>) -> Memory<'a> {
        Memory { displacement_label: Some(label), ..self }
    }

    pub open spec fn with_constant(self, c: ConstInt) -> Memory<'a> {
        Memory { displacement_constant: Some(c), ..self }
    }

    pub open spec fn with_size(self, size: ArgSize) -> Memory<'a> {
        Memory { size: Some(size), ..self }
    }

    pub open spec fn with_sib(self, sib: SibMemory) -> Memory<'a> {
        Memory { kind: MemoryKind::Sib(sib), ..self }
    }

    /// Whether `disp` may be passed to `offset`: a constant already attached
    /// of the same variant must have room for the sum.
    pub open spec fn can_offset(self, disp: ConstInt) -> bool {
        match self.displacement_constant {
            Some(c) => c.can_accumulate(disp),
            None => true,
        }
    }

    /// The label, if any; then the constant if it is not zero, after a `+`
    /// when a label precedes it and it is not negative; then the addressing
    /// form.
    pub open spec fn text(self) -> Seq<char> {
        let label = match self.displacement_label {
            Some(l) => l.text(),
            None => Seq::empty(),
        };
        let constant = match self.displacement_constant {
            Some(c) => if c.value() == 0 {
                Seq::empty()
            } else if self.displacement_label is Some && c.value() >= 0 {
                "+"@ + c.text()
            } else {
                c.text()
            },
            None => Seq::empty(),
        };
        label + constant + self.kind.text()
    }

    /// A base + index * scale operand with nothing set yet.
    pub fn sib() -> (r: Self)
        ensures
            r == Self::spec_sib(),
    {
        Memory {
            size: None,
            displacement_label: None,
            displacement_constant: None,
            kind: MemoryKind::Sib(SibMemory { base: None, index: None }),
        }
    }

    /// An instruction-pointer-relative operand with nothing set yet.
    pub fn rip() -> (r: Self)
        ensures
            r == Self::spec_rip(),
    {
        Memory {
            size: None,
            displacement_label: None,
            displacement_constant: None,
            kind: MemoryKind::Rip,
        }
    }

    /// Sets the base register; only a base + index operand has one.
    pub fn base(self, base: Register) -> (r: Result<Self, AsmError>)
        ensures
            match self.kind {
                MemoryKind::Sib(m) => r == Ok::<Self, AsmError>(
                    self.with_sib(SibMemory { base: Some(base), index: m.index }),
                ),
                MemoryKind::Rip => r == Err::<Self, AsmError>(AsmError::InvalidAddressingOperation),
            },
    {
        match self.kind {
            MemoryKind::Sib(m) => Ok(
                Memory { kind: MemoryKind::Sib(SibMemory { base: Some(base), index: m.index }), ..self },
            ),
            MemoryKind::Rip => Err(AsmError::InvalidAddressingOperation),
        }
    }

    /// Sets the index register and its scale; only a base + index operand has
    /// one.
    pub fn index(self, index: Register, scale: Scale) -> (r: Result<Self, AsmError>)
        ensures
            match self.kind {
                MemoryKind::Sib(m) => r == Ok::<Self, AsmError>(
                    self.with_sib(SibMemory { base: m.base, index: Some((index, scale)) }),
                ),
                MemoryKind::Rip => r == Err::<Self, AsmError>(AsmError::InvalidAddressingOperation),
            },
    {
        match self.kind {
            MemoryKind::Sib(m) => Ok(
                Memory {
                    kind: MemoryKind::Sib(SibMemory { base: m.base, index: Some((index, scale)) }),
                    ..self
                },
            ),
            MemoryKind::Rip => Err(AsmError::InvalidAddressingOperation),
        }
    }

    /// Adds `disp` to the constant displacement, or sets it when there is none.
    pub fn offset(self, disp: ConstInt) -> (r: Result<Self, AsmError>)
        requires
            self.can_offset(disp),
        ensures
            match self.displacement_constant {
                None => r == Ok::<Self, AsmError>(self.with_constant(disp)),
                Some(c) => match c.accumulated(disp) {
                    Ok(sum) => r == Ok::<Self, AsmError>(self.with_constant(sum)),
                    Err(e) => r == Err::<Self, AsmError>(e),
                },
            },
    {
        match self.displacement_constant {
            Some(c) => {
                let mut sum = c;
                match sum.add_assign(disp) {
                    Ok(()) => Ok(Memory { displacement_constant: Some(sum), ..self }),
                    Err(e) => Err(e),
                }
            },
            None => Ok(Memory { displacement_constant: Some(disp), ..self }),
        }
    }

    /// Attaches a label as displacement; an operand holds at most one.
    pub fn label(self, label: Label<'a>) -> (r: Result<Self, AsmError>)
        ensures
            self.displacement_label is None ==> r == Ok::<Self, AsmError>(self.with_label(label)),
            self.displacement_label is Some ==> r == Err::<Self, AsmError>(
                AsmError::DuplicateDisplacement,
            ),
    {
        if self.displacement_label.is_some() {
            return Err(AsmError::DuplicateDisplacement);
        }
        Ok(Memory { displacement_label: Some(label), ..self })
    }

    /// Declares the operand's size.
    pub fn size(self, size: ArgSize) -> (r: Self)
        ensures
            r == self.with_size(size),
    {
        Memory { size: Some(size), ..self }
    }

    pub fn write_to(&self, out: &mut String)
        ensures
            final(out)@ == old(out)@ + self.text(),
    {
        let ghost start = out@;
        if let Some(label) = self.displacement_label {
            label.write_to(out);
        }
        let ghost labelled = out@;
        if let Some(constant) = self.displacement_constant {
            if !constant.is_zero() {
                if self.displacement_label.is_some() && !constant.is_negative() {
                    out.append("+");
                }
                constant.write_to(out);
            }
        }
        let ghost displaced = out@;
        self.kind.write_to(out);
        assert(out@ =~= start + self.text()) by {
            assert(out@ =~= displaced + self.kind.text());
        }
    }

    /// The operand as AT&T text, e.g. `8(%rax, %rbx, 4)` or `name+8(%rip)`.
    pub fn to_string(&self) -> (r: String)
        ensures
            r@ == self.text(),
    {
        let mut out = String::new();
        self.write_to(&mut out);
        assert(out@ =~= self.text());
        out
    }
}

/// After a label, a non-zero constant is separated by its sign alone: `+`
/// before a positive one, the `-` of a negative one's own text.
pub proof fn lemma_label_constant_separator(m: Memory, l: Label, c: ConstInt)
    requires
        m.displacement_label == Some(l),
        m.displacement_constant == Some(c),
        c.value() != 0,
    ensures
        c.value() > 0 ==> m.text() == l.text() + "+"@ + decimal(c.value() as nat) + m.kind.text(),
        c.value() < 0 ==> m.text() == l.text() + "-"@ + decimal((-c.value()) as nat)
            + m.kind.text(),
{
    if c.value() > 0 {
        assert(m.text() =~= l.text() + "+"@ + decimal(c.value() as nat) + m.kind.text());
    } else {
        assert(m.text() =~= l.text() + "-"@ + decimal((-c.value()) as nat) + m.kind.text());
    }
}

impl<'a> Arg<'a> {
    /// Register: its width; immediate: by its width alone; memory: what was
    /// declared; label: none.
    pub open spec fn spec_size(self) -> Option<ArgSize> {
        match self {
            Arg::Register(r) => Some(ArgSize::of_register_size(r.1)),
            Arg::Int(c) => match c {
                ConstInt::I8(_) | ConstInt::U8(_) => Some(ArgSize::Byte),
                ConstInt::I32(_) | ConstInt::U32(_) => Some(ArgSize::Double),
                ConstInt::I64(_) | ConstInt::U64(_) => Some(ArgSize::Quad),
            },
            Arg::Label(_) => None,
            Arg::Memory(m) => m.size,
        }
    }

    /// `%reg`, `$value`, `name`, or the memory form.
    pub open spec fn text(self) -> Seq<char> {
        match self {
            Arg::Register(r) => r.text(),
            Arg::Label(l) => l.text(),
            Arg::Int(c) => "$"@ + c.text(),
            Arg::Memory(m) => m.text(),
        }
    }

    pub fn size(&self) -> (r: Option<ArgSize>)
        ensures
            r == self.spec_size(),
    {
        match self {
            Arg::Register(r) => Some(
                match r.1 {
                    RegisterSize::Byte => ArgSize::Byte,
                    RegisterSize::Word => ArgSize::Word,
                    RegisterSize::Double => ArgSize::Double,
                    RegisterSize::Quad => ArgSize::Quad,
                },
            ),
            Arg::Int(c) => Some(
                match c {
                    ConstInt::I8(_) | ConstInt::U8(_) => ArgSize::Byte,
                    ConstInt::I32(_) => ArgSize::Double,
                    ConstInt::U32(_) => ArgSize::Double,
                    ConstInt::I64(_) | ConstInt::U64(_) => ArgSize::Quad,
                },
            ),
            Arg::Label(_) => None,
            Arg::Memory(m) => m.size,
        }
    }

    pub fn is_register(&self) -> (r: bool)
        ensures
            r == (*self is Register),
    {
        match self {
            Arg::Register(_) => true,
            _ => false,
        }
    }

    pub fn is_memory(&self) -> (r: bool)
        ensures
            r == (*self is Memory),
    {
        match self {
            Arg::Memory(_) => true,
            _ => false,
        }
    }

    pub fn write_to(&self, out: &mut String)
        ensures
            final(out)@ == old(out)@ + self.text(),
    {
        match self {
            Arg::Register(r) => r.write_to(out),
            Arg::Label(l) => l.write_to(out),
            Arg::Int(c) => {
                let ghost start = out@;
                out.append("$");
                c.write_to(out);
                assert(out@ =~= start + self.text());
            },
            Arg::Memory(m) => m.write_to(out),
        }
    }

    /// The operand as AT&T text.
    pub fn to_string(&self) -> (r: String)
        ensures
            r@ == self.text(),
    {
        let mut out = String::new();
        self.write_to(&mut out);
        assert(out@ =~= self.text());
        out
    }
}

impl From<i8> for ConstInt {
    fn from(value: i8) -> Self {
        ConstInt::I8(value)
    }
}

impl vstd::std_specs::convert::FromSpecImpl<i8> for ConstInt {
    open spec fn obeys_from_spec() -> bool {
        true
    }

    open spec fn from_spec(v: i8) -> Self {
        ConstInt::I8(v)
    }
}

impl From<u8> for ConstInt {
    fn from(value: u8) -> Self {
        ConstInt::U8(value)
    }
}

impl vstd::std_specs::convert::FromSpecImpl<u8> for ConstInt {
    open spec fn obeys_from_spec() -> bool {
        true
    }

    open spec fn from_spec(v: u8) -> Self {
        ConstInt::U8(v)
    }
}

impl From<i32> for ConstInt {
    fn from(value: i32) -> Self {
        ConstInt::I32(value)
    }
}

impl vstd::std_specs::convert::FromSpecImpl<i32> for ConstInt {
    open spec fn obeys_from_spec() -> bool {
        true
    }

    open spec fn from_spec(v: i32) -> Self {
        ConstInt::I32(v)
    }
}

impl From<u32> for ConstInt {
    fn from(value: u32) -> Self {
        ConstInt::U32(value)
    }
}

impl vstd::std_specs::convert::FromSpecImpl<u32> for ConstInt {
    open spec fn obeys_from_spec() -> bool {
        true
    }

    open spec fn from_spec(v: u32) -> Self {
        ConstInt::U32(v)
    }
}

impl From<i64> for ConstInt {
    fn from(value: i64) -> Self {
        ConstInt::I64(value)
    }
}

impl vstd::std_specs::convert::FromSpecImpl<i64> for ConstInt {
    open spec fn obeys_from_spec() -> bool {
        true
    }

    open spec fn from_spec(v: i64) -> Self {
        ConstInt::I64(v)
    }
}

impl From<u64> for ConstInt {
    fn from(value: u64) -> Self {
        ConstInt::U64(value)
    }
}

impl vstd::std_specs::convert::FromSpecImpl<u64> for ConstInt {
    open spec fn obeys_from_spec() -> bool {
        true
    }

    open spec fn from_spec(v: u64) -> Self {
        ConstInt::U64(v)
    }
}

impl<'a> From<i8> for Arg<'a> {
    fn from(value: i8) -> Self {
        Arg::Int(ConstInt::I8(value))
    }
}

impl<'a> vstd::std_specs::convert::FromSpecImpl<i8> for Arg<'a> {
    open spec fn obeys_from_spec() -> bool {
        true
    }

    open spec fn from_spec(v: i8) -> Self {
        Arg::Int(ConstInt::I8(v))
    }
}

impl<'a> From<u8> for Arg<'a> {
    fn from(value: u8) -> Self {
        Arg::Int(ConstInt::U8(value))
    }
}

impl<'a> vstd::std_specs::convert::FromSpecImpl<u8> for Arg<'a> {
    open spec fn obeys_from_spec() -> bool {
        true
    }

    open spec fn from_spec(v: u8) -> Self {
        Arg::Int(ConstInt::U8(v))
    }
}

impl<'a> From<i32> for Arg<'a> {
    fn from(value: i32) -> Self {
        Arg::Int(ConstInt::I32(value))
    }
}

impl<'a> vstd::std_specs::convert::FromSpecImpl<i32> for Arg<'a> {
    open spec fn obeys_from_spec() -> bool {
        true
    }

    open spec fn from_spec(v: i32) -> Self {
        Arg::Int(ConstInt::I32(v))
    }
}

impl<'a> From<u32> for Arg<'a> {
    fn from(value: u32) -> Self {
        Arg::Int(ConstInt::U32(value))
    }
}

impl<'a> vstd::std_specs::convert::FromSpecImpl<u32> for Arg<'a> {
    open spec fn obeys_from_spec() -> bool {
        true
    }

    open spec fn from_spec(v: u32) -> Self {
        Arg::Int(ConstInt::U32(v))
    }
}

impl<'a> From<i64> for Arg<'a> {
    fn from(value: i64) -> Self {
        Arg::Int(ConstInt::I64(value))
    }
}

impl<'a> vstd::std_specs::convert::FromSpecImpl<i64> for Arg<'a> {
    open spec fn obeys_from_spec() -> bool {
        true
    }

    open spec fn from_spec(v: i64) -> Self {
        Arg::Int(ConstInt::I64(v))
    }
}

impl<'a> From<u64> for Arg<'a> {
    fn from(value: u64) -> Self {
        Arg::Int(ConstInt::U64(value))
    }
}

impl<'a> vstd::std_specs::convert::FromSpecImpl<u64> for Arg<'a> {
    open spec fn obeys_from_spec() -> bool {
        true
    }

    open spec fn from_spec(v: u64) -> Self {
        Arg::Int(ConstInt::U64(v))
    }
}

impl<'a> From<ConstInt> for Arg<'a> {
    fn from(value: ConstInt) -> Self {
        Arg::Int(value)
    }
}

impl<'a> vstd::std_specs::convert::FromSpecImpl<ConstInt> for Arg<'a> {
    open spec fn obeys_from_spec() -> bool {
        true
    }

    open spec fn from_spec(v: ConstInt) -> Self {
        Arg::Int(v)
    }
}

impl<'a> From<Register> for Arg<'a> {
    fn from(value: Register) -> Self {
        Arg::Register(value)
    }
}

impl<'a> vstd::std_specs::convert::FromSpecImpl<Register> for Arg<'a> {
    open spec fn obeys_from_spec() -> bool {
        true
    }

    open spec fn from_spec(v: Register) -> Self {
        Arg::Register(v)
    }
}

impl<'a> From<Label<'a>> for Arg<'a> {
    fn from(value: Label<'a>) -> Self {
        Arg::Label(value)
    }
}

impl<'a> vstd::std_specs::convert::FromSpecImpl<Label<'a>> for Arg<'a> {
    open spec fn obeys_from_spec() -> bool {
        true
    }

    open spec fn from_spec(v: Label<'a>) -> Self {
        Arg::Label(v)
    }
}

impl<'a> From<&'a str> for Arg<'a> {
    fn from(value: &'a str) -> Self {
        Arg::Label(Label { label: value })
    }
}

impl<'a> vstd::std_specs::convert::FromSpecImpl<&'a str> for Arg<'a> {
    open spec fn obeys_from_spec() -> bool {
        true
    }

    open spec fn from_spec(v: &'a str) -> Self {
        Arg::Label(Label { label: v })
    }
}

impl<'a> From<Memory<'a>> for Arg<'a> {
    fn from(value: Memory<'a>) -> Self {
        Arg::Memory(value)
    }
}

impl<'a> vstd::std_specs::convert::FromSpecImpl<Memory<'a>> for Arg<'a> {
    open spec fn obeys_from_spec() -> bool {
        true
    }

    open spec fn from_spec(v: Memory<'a>) -> Self {
        Arg::Memory(v)
    }
}

} // verus!
