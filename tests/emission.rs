use asm_emit::args::{Arg, ArgSize, ConstInt};
use asm_emit::error::AsmError;
use asm_emit::label::Label;
use asm_emit::register::{al, eax, rax, rbx, rcx, rsp};
use asm_emit::writer::{
    get_size, AsmWriter, BinaryOp, BinaryOpSingle, Condition, NonaryOp, UnaryOp, UnaryOpSingle,
};

fn writer() -> AsmWriter {
    AsmWriter::new(String::new())
}

#[test]
fn mov_between_quad_registers() {
    let mut w = writer();
    assert_eq!(w.build_mov(Arg::from(rbx()), Arg::from(rax())), Ok(()));
    assert_eq!(w.text(), "\tmovq %rax, %rbx\n");
}

#[test]
fn mov_takes_size_from_the_one_sized_operand() {
    let mut w = writer();
    assert_eq!(w.build_mov(Arg::from(Label::new("x").rip()), Arg::from(eax())), Ok(()));
    assert_eq!(w.build_mov(Arg::from(rax().memory()), Arg::from(7i8)), Ok(()));
    assert_eq!(w.text(), "\tmovl %eax, x(%rip)\n\tmovb $7, (%rax)\n");
}

#[test]
fn size_inference_is_commutative() {
    let args = [
        Arg::from(rax()),
        Arg::from(eax()),
        Arg::from(al()),
        Arg::from(1i32),
        Arg::from(1u64),
        Arg::from("l"),
        Arg::from(rax().memory()),
        Arg::from(rax().memory().size(ArgSize::Word)),
    ];
    for a in args {
        for b in args {
            assert_eq!(get_size(&a, &b), get_size(&b, &a));
        }
    }
}

#[test]
fn size_inference_results() {
    assert_eq!(get_size(&Arg::from(rax()), &Arg::from(5i64)), Ok(ArgSize::Quad));
    assert_eq!(get_size(&Arg::from("f"), &Arg::from(eax())), Ok(ArgSize::Double));
    assert_eq!(get_size(&Arg::from(eax()), &Arg::from("f")), Ok(ArgSize::Double));
}

#[test]
fn size_inference_fails_on_mismatch_and_on_unknown() {
    assert_eq!(get_size(&Arg::from(eax()), &Arg::from(5i64)), Err(AsmError::SizeMismatch));
    assert_eq!(get_size(&Arg::from(rax()), &Arg::from(al())), Err(AsmError::SizeMismatch));
    assert_eq!(get_size(&Arg::from("a"), &Arg::from("b")), Err(AsmError::SizeUnknown));
    assert_eq!(
        get_size(&Arg::from(rax().memory()), &Arg::from("b")),
        Err(AsmError::SizeUnknown)
    );
}

#[test]
fn failed_emission_writes_nothing() {
    let mut w = AsmWriter::new(String::from("keep\n"));
    assert_eq!(w.build_mov(Arg::from(eax()), Arg::from(1i64)), Err(AsmError::SizeMismatch));
    assert_eq!(w.build_add(Arg::from("a"), Arg::from("b")), Err(AsmError::SizeUnknown));
    assert_eq!(w.build_push(Arg::from("a")), Err(AsmError::SizeUnknown));
    assert_eq!(w.build_pop(Arg::from(rax().memory())), Err(AsmError::SizeUnknown));
    assert_eq!(w.build_neg(Arg::from("a")), Err(AsmError::SizeUnknown));
    assert_eq!(w.into_inner(), "keep\n");
}

#[test]
fn call_register_is_indirect() {
    let mut w = writer();
    w.build_call(Arg::from(rax()));
    assert_eq!(w.text(), "\tcall *%rax\n");
}

#[test]
fn call_label_is_direct() {
    let mut w = writer();
    w.build_call(Arg::from(Label::new("label")));
    assert_eq!(w.text(), "\tcall label\n");
}

#[test]
fn jmp_targets() {
    let mut w = writer();
    w.build_jmp(Arg::from("out"));
    w.build_jmp(Arg::from(rax().memory().offset(ConstInt::I32(16)).unwrap()));
    assert_eq!(w.text(), "\tjmp out\n\tjmp *16(%rax)\n");
}

#[test]
fn conditional_jump_greater_than() {
    let mut w = writer();
    w.build_cjmp(Condition::GreaterThan, Arg::from(Label::new("label")));
    assert_eq!(w.text(), "\tjg label\n");
}

#[test]
fn condition_suffixes() {
    let all = [
        (Condition::Zero, "z"),
        (Condition::NotZero, "nz"),
        (Condition::Equal, "e"),
        (Condition::NotEqual, "ne"),
        (Condition::Negative, "s"),
        (Condition::NonNegative, "ns"),
        (Condition::GreaterThan, "g"),
        (Condition::LessThan, "l"),
        (Condition::GreaterEqual, "ge"),
        (Condition::LessEqual, "le"),
        (Condition::Above, "a"),
        (Condition::Below, "b"),
        (Condition::AboveEqual, "ae"),
        (Condition::BelowEqual, "be"),
    ];
    for (c, s) in all {
        assert_eq!(c.suffix(), s);
    }
}

#[test]
fn cmov_uses_condition_not_size() {
    let mut w = writer();
    w.build_cmov(Condition::LessEqual, Arg::from(rax()), Arg::from(rcx()));
    assert_eq!(w.text(), "\tcmovle %rcx, %rax\n");
}

#[test]
fn push_and_pop() {
    let mut w = writer();
    assert_eq!(w.build_push(Arg::from(rax())), Ok(()));
    assert_eq!(w.build_pop(Arg::from(rbx())), Ok(()));
    assert_eq!(w.build_push(Arg::from(1i32)), Ok(()));
    assert_eq!(w.text(), "\tpushq %rax\n\tpopq %rbx\n\tpushl $1\n");
}

#[test]
fn binary_operations() {
    let mut w = writer();
    assert_eq!(w.build_add(Arg::from(rax()), Arg::from(1i64)), Ok(()));
    assert_eq!(w.build_sub(Arg::from(rsp()), Arg::from(16i64)), Ok(()));
    assert_eq!(w.build_imul(Arg::from(eax()), Arg::from(eax())), Ok(()));
    assert_eq!(w.build_and(Arg::from(al()), Arg::from(1u8)), Ok(()));
    assert_eq!(w.build_or(Arg::from(rax()), Arg::from(rbx())), Ok(()));
    assert_eq!(w.build_xor(Arg::from(eax()), Arg::from(eax())), Ok(()));
    assert_eq!(w.build_lea(Arg::from(rax()), Arg::from(Label::new("s").rip())), Ok(()));
    assert_eq!(w.build_cmp(Arg::from(rax()), Arg::from(0i64)), Ok(()));
    assert_eq!(w.build_test(Arg::from(al()), Arg::from(al())), Ok(()));
    assert_eq!(w.build_shl(Arg::from(rax()), Arg::from(2i64)), Ok(()));
    assert_eq!(w.build_shr(Arg::from(rax()), Arg::from(2i64)), Ok(()));
    assert_eq!(w.build_sar(Arg::from(rax()), Arg::from(2i64)), Ok(()));
    assert_eq!(
        w.text(),
        "\taddq $1, %rax\n\tsubq $16, %rsp\n\timull %eax, %eax\n\tandb $1, %al\n\
         \torq %rbx, %rax\n\txorl %eax, %eax\n\tleaq s(%rip), %rax\n\tcmpq $0, %rax\n\
         \ttestb %al, %al\n\tshlq $2, %rax\n\tshrq $2, %rax\n\tsarq $2, %rax\n"
    );
}

#[test]
fn binary_op_by_tag() {
    let mut w = writer();
    let op = BinaryOp::from(BinaryOpSingle::Xor);
    assert_eq!(w.build_binary_op(op, Arg::from(rcx()), Arg::from(rcx())), Ok(()));
    assert_eq!(w.text(), "\txorq %rcx, %rcx\n");
    assert_eq!(BinaryOpSingle::IMul.mnemonic(), "imul");
}

#[test]
fn unary_operations() {
    let mut w = writer();
    assert_eq!(w.build_inc(Arg::from(rax())), Ok(()));
    assert_eq!(w.build_dec(Arg::from(eax())), Ok(()));
    assert_eq!(w.build_neg(Arg::from(rax())), Ok(()));
    assert_eq!(w.build_not(Arg::from(al())), Ok(()));
    assert_eq!(w.build_mul(Arg::from(rbx())), Ok(()));
    assert_eq!(w.build_unary_imul(Arg::from(rbx())), Ok(()));
    assert_eq!(w.build_div(Arg::from(rcx())), Ok(()));
    assert_eq!(w.build_idiv(Arg::from(rax().memory().size(ArgSize::Quad))), Ok(()));
    assert_eq!(
        w.text(),
        "\tincq %rax\n\tdecl %eax\n\tnegq %rax\n\tnotb %al\n\tmulq %rbx\n\timulq %rbx\n\
         \tdivq %rcx\n\tidivq (%rax)\n"
    );
}

#[test]
fn unary_op_by_tag() {
    let mut w = writer();
    assert_eq!(w.build_unary_op(UnaryOp::from(UnaryOpSingle::IDiv), Arg::from(eax())), Ok(()));
    assert_eq!(w.text(), "\tidivl %eax\n");
    assert_eq!(UnaryOpSingle::Not.mnemonic(), "not");
}

#[test]
fn nonary_operations() {
    let mut w = writer();
    w.build_ret();
    w.build_nonary_op(NonaryOp::Ret);
    assert_eq!(w.text(), "\tret\n\tret\n");
    assert_eq!(NonaryOp::Ret.mnemonic(), "ret");
}

#[test]
fn directives() {
    let mut w = writer();
    w.write_filename("main.c");
    w.begin_text();
    w.declare_global(Label::new("main"));
    w.emit_label(Label::new("main"));
    w.comment("prologue");
    w.empty_line();
    assert_eq!(
        w.into_inner(),
        "\t.file \"main.c\"\n\t.text\n\t.global main\nmain:\n\t# prologue\n\n"
    );
}
