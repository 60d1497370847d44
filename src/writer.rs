//! Instruction and directive lines, written into an assembly text buffer.
use vstd::prelude::*;

use crate::args::{Arg, ArgSize};
use crate::error::AsmError;
use crate::label::Label;

verus! {

/// The suffix that two operands agree on: the one known size, or the common
/// size when both are known.
pub open spec fn infer_size(a: Option<ArgSize>, b: Option<ArgSize>) -> Result<ArgSize, AsmError> {
    match (a, b) {
        (None, None) => Err(AsmError::SizeUnknown),
        (Some(x), None) => Ok(x),
        (None, Some(y)) => Ok(y),
        (Some(x), Some(y)) => if x == y {
            Ok(x)
        } else {
            Err(AsmError::SizeMismatch)
        },
    }
}

/// Size inference does not depend on the order of the operands.
pub proof fn lemma_infer_size_commutative(a: Arg, b: Arg)
    ensures
        infer_size(a.spec_size(), b.spec_size()) == infer_size(b.spec_size(), a.spec_size()),
{
}

/// Size inference fails exactly when neither operand has a known size, or
/// when both have one and the two differ; otherwise it gives a size that an
/// operand has.
pub proof fn lemma_infer_size_failures(a: Arg, b: Arg)
    ensures
        infer_size(a.spec_size(), b.spec_size()) == Err::<ArgSize, AsmError>(AsmError::SizeUnknown)
            <==> (a.spec_size() is None && b.spec_size() is None),
        infer_size(a.spec_size(), b.spec_size()) == Err::<ArgSize, AsmError>(AsmError::SizeMismatch)
            <==> (a.spec_size() is Some && b.spec_size() is Some && a.spec_size()
            != b.spec_size()),
        infer_size(a.spec_size(), b.spec_size()) matches Ok(s) ==> (a.spec_size() == Some(s)
            || b.spec_size() == Some(s)),
{
}

/// The common size suffix of a two-operand instruction.
pub fn get_size(a: &Arg, b: &Arg) -> (r: Result<ArgSize, AsmError>)
    ensures
        r == infer_size(a.spec_size(), b.spec_size()),
{
    match (a.size(), b.size()) {
        (None, None) => Err(AsmError::SizeUnknown),
        (Some(x), None) => Ok(x),
        (None, Some(y)) => Ok(y),
        (Some(x), Some(y)) => {
            if x == y {
                Ok(x)
            } else {
                Err(AsmError::SizeMismatch)
            }
        },
    }
}

/// `\t<mnemonic> <src>, <dst>\n`
pub open spec fn two_operand_line(mnemonic: Seq<char>, src: Arg, dst: Arg) -> Seq<char> {
    "\t"@ + mnemonic + " "@ + src.text() + ", "@ + dst.text() + "\n"@
}

/// `\t<mnemonic> <operand>\n`
pub open spec fn one_operand_line(mnemonic: Seq<char>, operand: Seq<char>) -> Seq<char> {
    "\t"@ + mnemonic + " "@ + operand + "\n"@
}

/// A two-operand line whose mnemonic takes the suffix the operands agree on.
pub open spec fn sized_two_operand_line(mnemonic: Seq<char>, dst: Arg, src: Arg) -> Result<
    Seq<char>,
    AsmError,
> {
    match infer_size(dst.spec_size(), src.spec_size()) {
        Ok(s) => Ok(two_operand_line(mnemonic + s.suffix_text(), src, dst)),
        Err(e) => Err(e),
    }
}

/// A one-operand line whose mnemonic takes the operand's own size suffix.
pub open spec fn sized_one_operand_line(mnemonic: Seq<char>, operand: Arg) -> Result<
    Seq<char>,
    AsmError,
> {
    match operand.spec_size() {
        Some(s) => Ok(one_operand_line(mnemonic + s.suffix_text(), operand.text())),
        None => Err(AsmError::SizeUnknown),
    }
}

/// A jump or call target: `*` before a register or memory operand.
pub open spec fn target_text(dst: Arg) -> Seq<char> {
    if dst is Register || dst is Memory {
        "*"@ + dst.text()
    } else {
        dst.text()
    }
}

/// The text after an emission: the line appended and `Ok` when the line could
/// be formed, the text unchanged and its error otherwise.
pub open spec fn emitted(
    before: Seq<char>,
    after: Seq<char>,
    r: Result<(), AsmError>,
    line: Result<Seq<char>, AsmError>,
) -> bool {
    match line {
        Ok(l) => r is Ok && after == before + l,
        Err(e) => r == Err::<(), AsmError>(e) && after == before,
    }
}

pub enum BinaryOp {
    Single(BinaryOpSingle),
}

/// Binary operations that have a single size suffix
#[derive(Copy, Clone, Debug, PartialEq, Eq, Hash, Structural)]
pub enum BinaryOpSingle {
    Add,
    Sub,
    IMul,
    And,
    Or,
    Xor,
    Lea,
    Cmp,
    Test,
    Shl,
    Shr,
    Sar,
}

pub enum UnaryOp {
    Single(UnaryOpSingle),
}

/// Unary operations that have a single size suffix
#[derive(Copy, Clone, Debug, PartialEq, Eq, Hash, Structural)]
pub enum UnaryOpSingle {
    Inc,
    Dec,
    Neg,
    Not,
    Mul,
    IMul,
    Div,
    IDiv,
}

#[derive(Copy, Clone, Debug, PartialEq, Eq, Hash, Structural)]
pub enum NonaryOp {
    Ret,
}

#[derive(Copy, Clone, Debug, PartialEq, Eq, Hash, Structural)]
pub enum Condition {
    Zero,
    NotZero,
    Equal,
    NotEqual,
    Negative,
    NonNegative,
    GreaterThan,
    LessThan,
    GreaterEqual,
    LessEqual,
    Above,
    Below,
    AboveEqual,
    BelowEqual,
}

impl From<BinaryOpSingle> for BinaryOp {
    fn from(value: BinaryOpSingle) -> Self {
        BinaryOp::Single(value)
    }
}

impl vstd::std_specs::convert::FromSpecImpl<BinaryOpSingle> for BinaryOp {
    open spec fn obeys_from_spec() -> bool {
        true
    }

    open spec fn from_spec(v: BinaryOpSingle) -> Self {
        BinaryOp::Single(v)
    }
}

impl From<UnaryOpSingle> for UnaryOp {
    fn from(value: UnaryOpSingle) -> Self {
        UnaryOp::Single(value)
    }
}

impl vstd::std_specs::convert::FromSpecImpl<UnaryOpSingle> for UnaryOp {
    open spec fn obeys_from_spec() -> bool {
        true
    }

    open spec fn from_spec(v: UnaryOpSingle) -> Self {
        UnaryOp::Single(v)
    }
}

impl BinaryOp {
    pub open spec fn line(self, dst: Arg, src: Arg) -> Result<Seq<char>, AsmError> {
        match self {
            BinaryOp::Single(s) => sized_two_operand_line(s.mnemonic_text(), dst, src),
        }
    }
}

impl UnaryOp {
    pub open spec fn line(self, dst: Arg) -> Result<Seq<char>, AsmError> {
        match self {
            UnaryOp::Single(s) => sized_one_operand_line(s.mnemonic_text(), dst),
        }
    }
}

impl BinaryOpSingle {
    pub open spec fn mnemonic_text(self) -> Seq<char> {
        match self {
            BinaryOpSingle::Add => "add"@,
            BinaryOpSingle::Sub => "sub"@,
            BinaryOpSingle::IMul => "imul"@,
            BinaryOpSingle::And => "and"@,
            BinaryOpSingle::Or => "or"@,
            BinaryOpSingle::Xor => "xor"@,
            BinaryOpSingle::Lea => "lea"@,
            BinaryOpSingle::Cmp => "cmp"@,
            BinaryOpSingle::Test => "test"@,
            BinaryOpSingle::Shl => "shl"@,
            BinaryOpSingle::Shr => "shr"@,
            BinaryOpSingle::Sar => "sar"@,
        }
    }

    pub fn mnemonic(self) -> (r: &'static str)
        ensures
            r@ == self.mnemonic_text(),
    {
        match self {
            BinaryOpSingle::Add => "add",
            BinaryOpSingle::Sub => "sub",
            BinaryOpSingle::IMul => "imul",
            BinaryOpSingle::And => "and",
            BinaryOpSingle::Or => "or",
            BinaryOpSingle::Xor => "xor",
            BinaryOpSingle::Lea => "lea",
            BinaryOpSingle::Cmp => "cmp",
            BinaryOpSingle::Test => "test",
            BinaryOpSingle::Shl => "shl",
            BinaryOpSingle::Shr => "shr",
            BinaryOpSingle::Sar => "sar",
        }
    }
}

impl UnaryOpSingle {
    pub open spec fn mnemonic_text(self) -> Seq<char> {
        match self {
            UnaryOpSingle::Inc => "inc"@,
            UnaryOpSingle::Dec => "dec"@,
            UnaryOpSingle::Neg => "neg"@,
            UnaryOpSingle::Not => "not"@,
            UnaryOpSingle::Mul => "mul"@,
            UnaryOpSingle::IMul => "imul"@,
            UnaryOpSingle::Div => "div"@,
            UnaryOpSingle::IDiv => "idiv"@,
        }
    }

    pub fn mnemonic(self) -> (r: &'static str)
        ensures
            r@ == self.mnemonic_text(),
    {
        match self {
            UnaryOpSingle::Inc => "inc",
            UnaryOpSingle::Dec => "dec",
            UnaryOpSingle::Neg => "neg",
            UnaryOpSingle::Not => "not",
            UnaryOpSingle::Mul => "mul",
            UnaryOpSingle::IMul => "imul",
            UnaryOpSingle::Div => "div",
            UnaryOpSingle::IDiv => "idiv",
        }
    }
}

impl NonaryOp {
    pub open spec fn mnemonic_text(self) -> Seq<char> {
        match self {
            NonaryOp::Ret => "ret"@,
        }
    }

    pub fn mnemonic(self) -> (r: &'static str)
        ensures
            r@ == self.mnemonic_text(),
    {
        match self {
            NonaryOp::Ret => "ret",
        }
    }
}

impl Condition {
    pub open spec fn suffix_text(self) -> Seq<char> {
        match self {
            Condition::Zero => "z"@,
            Condition::NotZero => "nz"@,
            Condition::Equal => "e"@,
            Condition::NotEqual => "ne"@,
            Condition::Negative => "s"@,
            Condition::NonNegative => "ns"@,
            Condition::GreaterThan => "g"@,
            Condition::LessThan => "l"@,
            Condition::GreaterEqual => "ge"@,
            Condition::LessEqual => "le"@,
            Condition::Above => "a"@,
            Condition::Below => "b"@,
            Condition::AboveEqual => "ae"@,
            Condition::BelowEqual => "be"@,
        }
    }

    /// The condition's suffix for `j` and `cmov`.
    pub fn suffix(self) -> (r: &'static str)
        ensures
            r@ == self.suffix_text(),
    {
        match self {
            Condition::Zero => "z",
            Condition::NotZero => "nz",
            Condition::Equal => "e",
            Condition::NotEqual => "ne",
            Condition::Negative => "s",
            Condition::NonNegative => "ns",
            Condition::GreaterThan => "g",
            Condition::LessThan => "l",
            Condition::GreaterEqual => "ge",
            Condition::LessEqual => "le",
            Condition::Above => "a",
            Condition::Below => "b",
            Condition::AboveEqual => "ae",
            Condition::BelowEqual => "be",
        }
    }
}

/// Assembly text, one line appended per emission call.
pub struct AsmWriter {
    out: String,
}

impl View for AsmWriter {
    type V = Seq<char>;

    closed spec fn view(&self) -> Seq<char> {
        self.out@
    }
}

impl AsmWriter {
    /// A writer that appends after the text of `out`.
    pub fn new(out: String) -> (r: Self)
        ensures
            r@ == out@,
    {
        AsmWriter { out }
    }

    /// The text written so far.
    pub fn text(&self) -> (r: &str)
        ensures
            r@ == self@,
    {
        self.out.as_str()
    }

    /// The text written so far, handed over.
    pub fn into_inner(self) -> (r: String)
        ensures
            r@ == self@,
    {
        self.out
    }

    fn push_two(&mut self, mnemonic: &str, suffix: &str, src: &Arg, dst: &Arg)
        ensures
            final(self)@ == old(self)@ + two_operand_line(mnemonic@ + suffix@, *src, *dst),
    {
        let ghost start = self@;
        self.out.append("\t");
        self.out.append(mnemonic);
        self.out.append(suffix);
        self.out.append(" ");
        src.write_to(&mut self.out);
        self.out.append(", ");
        dst.write_to(&mut self.out);
        self.out.append("\n");
        assert(self@ =~= start + two_operand_line(mnemonic@ + suffix@, *src, *dst));
    }

    /// Appends `\t<mnemonic><suffix> <star><operand>\n`.
    fn push_one(&mut self, mnemonic: &str, suffix: &str, star: &str, operand: &Arg)
        ensures
            final(self)@ == old(self)@ + one_operand_line(
                mnemonic@ + suffix@,
                star@ + operand.text(),
            ),
    {
        let ghost start = self@;
        self.out.append("\t");
        self.out.append(mnemonic);
        self.out.append(suffix);
        self.out.append(" ");
        self.out.append(star);
        operand.write_to(&mut self.out);
        self.out.append("\n");
        assert(self@ =~= start + one_operand_line(mnemonic@ + suffix@, star@ + operand.text()));
    }

    /// Appends `\t.file "<name>"\n`.
    pub fn write_filename(&mut self, name: &str)
        ensures
            final(self)@ == old(self)@ + "\t.file \""@ + name@ + "\"\n"@,
    {
        self.out.append("\t.file \"");
        self.out.append(name);
        self.out.append("\"\n");
    }

    /// Appends `<label>:\n`.
    pub fn emit_label(&mut self, label: Label)
        ensures
            final(self)@ == old(self)@ + label.text() + ":\n"@,
    {
        label.write_to(&mut self.out);
        self.out.append(":\n");
    }

    /// Appends `\t.global <label>\n`.
    pub fn declare_global(&mut self, label: Label)
        ensures
            final(self)@ == old(self)@ + "\t.global "@ + label.text() + "\n"@,
    {
        self.out.append("\t.global ");
        label.write_to(&mut self.out);
        self.out.append("\n");
    }

    /// Appends `\t.text\n`.
    pub fn begin_text(&mut self)
        ensures
            final(self)@ == old(self)@ + "\t.text\n"@,
    {
        self.out.append("\t.text\n");
    }

    /// Appends an empty line.
    pub fn empty_line(&mut self)
        ensures
            final(self)@ == old(self)@ + "\n"@,
    {
        self.out.append("\n");
    }

    /// Appends `\t# <comment>\n`.
    pub fn comment(&mut self, comment: &str)
        ensures
            final(self)@ == old(self)@ + "\t# "@ + comment@ + "\n"@,
    {
        self.out.append("\t# ");
        self.out.append(comment);
        self.out.append("\n");
    }

    /// `\tmov<size> <src>, <dst>\n`, the size inferred from both operands.
    pub fn build_mov<'a>(&mut self, dst: Arg<'a>, src: Arg<'a>) -> (r: Result<(), AsmError>)
        ensures
            emitted(old(self)@, final(self)@, r, sized_two_operand_line("mov"@, dst, src)),
    {
        match get_size(&dst, &src) {
            Ok(size) => {
                self.push_two("mov", size.suffix(), &src, &dst);
                Ok(())
            },
            Err(e) => Err(e),
        }
    }

    /// `\tcmov<cc> <src>, <dst>\n`: the condition takes the place of a size.
    pub fn build_cmov<'a>(&mut self, c: Condition, dst: Arg<'a>, src: Arg<'a>)
        ensures
            final(self)@ == old(self)@ + two_operand_line("cmov"@ + c.suffix_text(), src, dst),
    {
        self.push_two("cmov", c.suffix(), &src, &dst);
    }

    /// `\tpush<size> <src>\n`; the operand's size must be known.
    pub fn build_push<'a>(&mut self, src: Arg<'a>) -> (r: Result<(), AsmError>)
        ensures
            emitted(old(self)@, final(self)@, r, sized_one_operand_line("push"@, src)),
    {
        match src.size() {
            Some(size) => {
                self.push_one("push", size.suffix(), "", &src);
                proof {
                    reveal_strlit("");
                }
                assert(""@ + src.text() =~= src.text());
                Ok(())
            },
            None => Err(AsmError::SizeUnknown),
        }
    }

    /// `\tpop<size> <dst>\n`; the operand's size must be known.
    pub fn build_pop<'a>(&mut self, dst: Arg<'a>) -> (r: Result<(), AsmError>)
        ensures
            emitted(old(self)@, final(self)@, r, sized_one_operand_line("pop"@, dst)),
    {
        match dst.size() {
            Some(size) => {
                self.push_one("pop", size.suffix(), "", &dst);
                proof {
                    reveal_strlit("");
                }
                assert(""@ + dst.text() =~= dst.text());
                Ok(())
            },
            None => Err(AsmError::SizeUnknown),
        }
    }

    /// `\t<op><size> <src>, <dst>\n`, the size inferred from both operands.
    pub fn build_binary_op<'a>(&mut self, op: BinaryOp, dst: Arg<'a>, src: Arg<'a>) -> (r: Result<
        (),
        AsmError,
    >)
        ensures
            emitted(old(self)@, final(self)@, r, op.line(dst, src)),
    {
        match op {
            BinaryOp::Single(s) => self.build_binary_op_single(s, dst, src),
        }
    }

    fn build_binary_op_single<'a>(&mut self, op: BinaryOpSingle, dst: Arg<'a>, src: Arg<'a>) -> (r:
        Result<(), AsmError>)
        ensures
            emitted(old(self)@, final(self)@, r, sized_two_operand_line(op.mnemonic_text(), dst, src)),
    {
        match get_size(&dst, &src) {
            Ok(size) => {
                self.push_two(op.mnemonic(), size.suffix(), &src, &dst);
                Ok(())
            },
            Err(e) => Err(e),
        }
    }

    /// `\t<op><size> <dst>\n`; the operand's size must be known.
    pub fn build_unary_op<'a>(&mut self, op: UnaryOp, dst: Arg<'a>) -> (r: Result<(), AsmError>)
        ensures
            emitted(old(self)@, final(self)@, r, op.line(dst)),
    {
        match op {
            UnaryOp::Single(s) => self.build_unary_op_single(s, dst),
        }
    }

    fn build_unary_op_single<'a>(&mut self, op: UnaryOpSingle, dst: Arg<'a>) -> (r: Result<
        (),
        AsmError,
    >)
        ensures
            emitted(old(self)@, final(self)@, r, sized_one_operand_line(op.mnemonic_text(), dst)),
    {
        match dst.size() {
            Some(size) => {
                self.push_one(op.mnemonic(), size.suffix(), "", &dst);
                proof {
                    reveal_strlit("");
                }
                assert(""@ + dst.text() =~= dst.text());
                Ok(())
            },
            None => Err(AsmError::SizeUnknown),
        }
    }

    /// `\tadd<size> <src>, <dst>\n`.
    pub fn build_add<'a>(&mut self, dst: Arg<'a>, src: Arg<'a>) -> (r: Result<(), AsmError>)
        ensures
            emitted(old(self)@, final(self)@, r, sized_two_operand_line("add"@, dst, src)),
    {
        self.build_binary_op(BinaryOp::Single(BinaryOpSingle::Add), dst, src)
    }

    /// `\tsub<size> <src>, <dst>\n`.
    pub fn build_sub<'a>(&mut self, dst: Arg<'a>, src: Arg<'a>) -> (r: Result<(), AsmError>)
        ensures
            emitted(old(self)@, final(self)@, r, sized_two_operand_line("sub"@, dst, src)),
    {
        self.build_binary_op(BinaryOp::Single(BinaryOpSingle::Sub), dst, src)
    }

    /// `\timul<size> <src>, <dst>\n`.
    pub fn build_imul<'a>(&mut self, dst: Arg<'a>, src: Arg<'a>) -> (r: Result<(), AsmError>)
        ensures
            emitted(old(self)@, final(self)@, r, sized_two_operand_line("imul"@, dst, src)),
    {
        self.build_binary_op(BinaryOp::Single(BinaryOpSingle::IMul), dst, src)
    }

    /// `\tand<size> <src>, <dst>\n`.
    pub fn build_and<'a>(&mut self, dst: Arg<'a>, src: Arg<'a>) -> (r: Result<(), AsmError>)
        ensures
            emitted(old(self)@, final(self)@, r, sized_two_operand_line("and"@, dst, src)),
    {
        self.build_binary_op(BinaryOp::Single(BinaryOpSingle::And), dst, src)
    }

    /// `\tor<size> <src>, <dst>\n`.
    pub fn build_or<'a>(&mut self, dst: Arg<'a>, src: Arg<'a>) -> (r: Result<(), AsmError>)
        ensures
            emitted(old(self)@, final(self)@, r, sized_two_operand_line("or"@, dst, src)),
    {
        self.build_binary_op(BinaryOp::Single(BinaryOpSingle::Or), dst, src)
    }

    /// `\txor<size> <src>, <dst>\n`.
    pub fn build_xor<'a>(&mut self, dst: Arg<'a>, src: Arg<'a>) -> (r: Result<(), AsmError>)
        ensures
            emitted(old(self)@, final(self)@, r, sized_two_operand_line("xor"@, dst, src)),
    {
        self.build_binary_op(BinaryOp::Single(BinaryOpSingle::Xor), dst, src)
    }

    /// `\tlea<size> <src>, <dst>\n`.
    pub fn build_lea<'a>(&mut self, dst: Arg<'a>, src: Arg<'a>) -> (r: Result<(), AsmError>)
        ensures
            emitted(old(self)@, final(self)@, r, sized_two_operand_line("lea"@, dst, src)),
    {
        self.build_binary_op(BinaryOp::Single(BinaryOpSingle::Lea), dst, src)
    }

    /// `\tcmp<size> <src>, <dst>\n`.
    pub fn build_cmp<'a>(&mut self, dst: Arg<'a>, src: Arg<'a>) -> (r: Result<(), AsmError>)
        ensures
            emitted(old(self)@, final(self)@, r, sized_two_operand_line("cmp"@, dst, src)),
    {
        self.build_binary_op(BinaryOp::Single(BinaryOpSingle::Cmp), dst, src)
    }

    /// `\ttest<size> <src>, <dst>\n`.
    pub fn build_test<'a>(&mut self, dst: Arg<'a>, src: Arg<'a>) -> (r: Result<(), AsmError>)
        ensures
            emitted(old(self)@, final(self)@, r, sized_two_operand_line("test"@, dst, src)),
    {
        self.build_binary_op(BinaryOp::Single(BinaryOpSingle::Test), dst, src)
    }

    /// `\tshl<size> <src>, <dst>\n`.
    pub fn build_shl<'a>(&mut self, dst: Arg<'a>, src: Arg<'a>) -> (r: Result<(), AsmError>)
        ensures
            emitted(old(self)@, final(self)@, r, sized_two_operand_line("shl"@, dst, src)),
    {
        self.build_binary_op(BinaryOp::Single(BinaryOpSingle::Shl), dst, src)
    }

    /// `\tshr<size> <src>, <dst>\n`.
    pub fn build_shr<'a>(&mut self, dst: Arg<'a>, src: Arg<'a>) -> (r: Result<(), AsmError>)
        ensures
            emitted(old(self)@, final(self)@, r, sized_two_operand_line("shr"@, dst, src)),
    {
        self.build_binary_op(BinaryOp::Single(BinaryOpSingle::Shr), dst, src)
    }

    /// `\tsar<size> <src>, <dst>\n`.
    pub fn build_sar<'a>(&mut self, dst: Arg<'a>, src: Arg<'a>) -> (r: Result<(), AsmError>)
        ensures
            emitted(old(self)@, final(self)@, r, sized_two_operand_line("sar"@, dst, src)),
    {
        self.build_binary_op(BinaryOp::Single(BinaryOpSingle::Sar), dst, src)
    }

    /// `\tinc<size> <dst>\n`.
    pub fn build_inc<'a>(&mut self, dst: Arg<'a>) -> (r: Result<(), AsmError>)
        ensures
            emitted(old(self)@, final(self)@, r, sized_one_operand_line("inc"@, dst)),
    {
        self.build_unary_op(UnaryOp::Single(UnaryOpSingle::Inc), dst)
    }

    /// `\tdec<size> <dst>\n`.
    pub fn build_dec<'a>(&mut self, dst: Arg<'a>) -> (r: Result<(), AsmError>)
        ensures
            emitted(old(self)@, final(self)@, r, sized_one_operand_line("dec"@, dst)),
    {
        self.build_unary_op(UnaryOp::Single(UnaryOpSingle::Dec), dst)
    }

    /// `\tneg<size> <dst>\n`.
    pub fn build_neg<'a>(&mut self, dst: Arg<'a>) -> (r: Result<(), AsmError>)
        ensures
            emitted(old(self)@, final(self)@, r, sized_one_operand_line("neg"@, dst)),
    {
        self.build_unary_op(UnaryOp::Single(UnaryOpSingle::Neg), dst)
    }

    /// `\tnot<size> <dst>\n`.
    pub fn build_not<'a>(&mut self, dst: Arg<'a>) -> (r: Result<(), AsmError>)
        ensures
            emitted(old(self)@, final(self)@, r, sized_one_operand_line("not"@, dst)),
    {
        self.build_unary_op(UnaryOp::Single(UnaryOpSingle::Not), dst)
    }

    /// `\tmul<size> <dst>\n`.
    pub fn build_mul<'a>(&mut self, dst: Arg<'a>) -> (r: Result<(), AsmError>)
        ensures
            emitted(old(self)@, final(self)@, r, sized_one_operand_line("mul"@, dst)),
    {
        self.build_unary_op(UnaryOp::Single(UnaryOpSingle::Mul), dst)
    }

    /// `\timul<size> <dst>\n`.
    pub fn build_unary_imul<'a>(&mut self, dst: Arg<'a>) -> (r: Result<(), AsmError>)
        ensures
            emitted(old(self)@, final(self)@, r, sized_one_operand_line("imul"@, dst)),
    {
        self.build_unary_op(UnaryOp::Single(UnaryOpSingle::IMul), dst)
    }

    /// `\tdiv<size> <dst>\n`.
    pub fn build_div<'a>(&mut self, dst: Arg<'a>) -> (r: Result<(), AsmError>)
        ensures
            emitted(old(self)@, final(self)@, r, sized_one_operand_line("div"@, dst)),
    {
        self.build_unary_op(UnaryOp::Single(UnaryOpSingle::Div), dst)
    }

    /// `\tidiv<size> <dst>\n`.
    pub fn build_idiv<'a>(&mut self, dst: Arg<'a>) -> (r: Result<(), AsmError>)
        ensures
            emitted(old(self)@, final(self)@, r, sized_one_operand_line("idiv"@, dst)),
    {
        self.build_unary_op(UnaryOp::Single(UnaryOpSingle::IDiv), dst)
    }

    /// `\tcall <target>\n`, with `*` before a register or memory target.
    pub fn build_call<'a>(&mut self, dst: Arg<'a>)
        ensures
            final(self)@ == old(self)@ + one_operand_line("call"@, target_text(dst)),
    {
        let needs_star = dst.is_memory() || dst.is_register();
        let star = if needs_star {
            "*"
        } else {
            ""
        };
        self.push_one("call", "", star, &dst);
        proof {
            reveal_strlit("");
        }
        assert("call"@ + ""@ =~= "call"@);
        assert(star@ + dst.text() =~= target_text(dst));
    }

    /// `\tjmp <target>\n`, with `*` before a register or memory target.
    pub fn build_jmp<'a>(&mut self, dst: Arg<'a>)
        ensures
            final(self)@ == old(self)@ + one_operand_line("jmp"@, target_text(dst)),
    {
        let needs_star = dst.is_memory() || dst.is_register();
        let star = if needs_star {
            "*"
        } else {
            ""
        };
        self.push_one("jmp", "", star, &dst);
        proof {
            reveal_strlit("");
        }
        assert("jmp"@ + ""@ =~= "jmp"@);
        assert(star@ + dst.text() =~= target_text(dst));
    }

    /// `\tj<cc> <target>\n`.
    pub fn build_cjmp<'a>(&mut self, c: Condition, dst: Arg<'a>)
        ensures
            final(self)@ == old(self)@ + one_operand_line("j"@ + c.suffix_text(), dst.text()),
    {
        self.push_one("j", c.suffix(), "", &dst);
        proof {
            reveal_strlit("");
        }
        assert(""@ + dst.text() =~= dst.text());
    }

    /// `\t<op>\n`.
    pub fn build_nonary_op(&mut self, op: NonaryOp)
        ensures
            final(self)@ == old(self)@ + "\t"@ + op.mnemonic_text() + "\n"@,
    {
        self.out.append("\t");
        self.out.append(op.mnemonic());
        self.out.append("\n");
    }

    /// `\tret\n`.
    pub fn build_ret(&mut self)
        ensures
            final(self)@ == old(self)@ + "\t"@ + "ret"@ + "\n"@,
    {
        self.build_nonary_op(NonaryOp::Ret);
    }
}

} // verus!
