use asm_emit::args::{Arg, ArgSize, ConstInt, Memory, MemoryKind, Scale, SibMemory};
use asm_emit::error::AsmError;
use asm_emit::label::Label;
use asm_emit::register::{al, eax, rax, rbx, rx};

#[test]
fn sib_memory_with_base_index_scale_and_offset() {
    let m = Memory::sib()
        .base(rax())
        .unwrap()
        .index(rbx(), Scale::Four)
        .unwrap()
        .offset(ConstInt::I32(8))
        .unwrap();
    assert_eq!(m.to_string(), "8(%rax, %rbx, 4)");
}

#[test]
fn sib_memory_scale_one_is_omitted() {
    let m = Memory::sib().base(rax()).unwrap().index(rbx(), Scale::One).unwrap();
    assert_eq!(m.to_string(), "(%rax, %rbx)");
}

#[test]
fn sib_memory_index_without_base_leaves_base_slot_empty() {
    let m = Memory::sib().index(rbx(), Scale::Eight).unwrap();
    assert_eq!(m.to_string(), "(, %rbx, 8)");
    let m = Memory::sib().index(rx(10), Scale::Two).unwrap().offset(ConstInt::I32(-16)).unwrap();
    assert_eq!(m.to_string(), "-16(, %r10, 2)");
}

#[test]
fn sib_memory_without_registers_has_no_parentheses() {
    assert_eq!(Memory::sib().to_string(), "");
    let m = Memory::sib().label(Label::new("table")).unwrap();
    assert_eq!(m.to_string(), "table");
    let m = Memory::sib().offset(ConstInt::I64(4096)).unwrap();
    assert_eq!(m.to_string(), "4096");
}

#[test]
fn rip_memory_from_label() {
    assert_eq!(Label::new("name").rip().to_string(), "name(%rip)");
    assert_eq!(Memory::rip().to_string(), "(%rip)");
}

#[test]
fn rip_memory_with_positive_offset_inserts_plus() {
    let m = Label::new("name").rip().offset(ConstInt::I32(8)).unwrap();
    assert_eq!(m.to_string(), "name+8(%rip)");
    let m = Label::new("name").rip().offset(ConstInt::U64(8)).unwrap();
    assert_eq!(m.to_string(), "name+8(%rip)");
}

#[test]
fn rip_memory_with_negative_offset_has_no_plus() {
    let m = Label::new("name").rip().offset(ConstInt::I32(-8)).unwrap();
    assert_eq!(m.to_string(), "name-8(%rip)");
}

#[test]
fn zero_offset_is_not_rendered() {
    let m = Label::new("name").rip().offset(ConstInt::I32(0)).unwrap();
    assert_eq!(m.to_string(), "name(%rip)");
    let m = rax().memory().offset(ConstInt::I64(0)).unwrap();
    assert_eq!(m.to_string(), "(%rax)");
}

#[test]
fn second_label_is_rejected() {
    let m = Label::new("first").rip();
    assert_eq!(m.label(Label::new("second")), Err(AsmError::DuplicateDisplacement));
    let m = Memory::sib().label(Label::new("first")).unwrap();
    assert_eq!(m.label(Label::from("second")), Err(AsmError::DuplicateDisplacement));
}

#[test]
fn base_and_index_are_rejected_on_rip_memory() {
    assert_eq!(Memory::rip().base(rax()), Err(AsmError::InvalidAddressingOperation));
    assert_eq!(
        Memory::rip().index(rbx(), Scale::Two),
        Err(AsmError::InvalidAddressingOperation)
    );
}

#[test]
fn base_and_index_set_the_sib_fields() {
    let m = Memory::sib().base(rax()).unwrap().index(rbx(), Scale::Two).unwrap();
    assert_eq!(
        m.kind,
        MemoryKind::Sib(SibMemory { base: Some(rax()), index: Some((rbx(), Scale::Two)) })
    );
}

#[test]
fn offsets_accumulate() {
    let m = rax().memory().offset(ConstInt::I32(8)).unwrap().offset(ConstInt::I32(-20)).unwrap();
    assert_eq!(m.displacement_constant, Some(ConstInt::I32(-12)));
    assert_eq!(m.to_string(), "-12(%rax)");
    let m = Memory::sib().offset(ConstInt::U8(200)).unwrap().offset(ConstInt::U8(55)).unwrap();
    assert_eq!(m.displacement_constant, Some(ConstInt::U8(255)));
}

#[test]
fn mixed_offsets_are_rejected() {
    let m = rax().memory().offset(ConstInt::I32(8)).unwrap();
    assert_eq!(m.offset(ConstInt::U32(8)), Err(AsmError::IncompatibleAccumulation));
    assert_eq!(m.offset(ConstInt::I64(8)), Err(AsmError::IncompatibleAccumulation));
}

#[test]
fn add_assign_same_and_mixed_variants() {
    let mut c = ConstInt::I64(-5);
    assert_eq!(c.add_assign(ConstInt::I64(12)), Ok(()));
    assert_eq!(c, ConstInt::I64(7));
    let mut c = ConstInt::U32(1);
    assert_eq!(c.add_assign(ConstInt::I32(1)), Err(AsmError::IncompatibleAccumulation));
    assert_eq!(c, ConstInt::U32(1));
}

#[test]
fn const_int_predicates() {
    assert!(ConstInt::I8(0).is_zero());
    assert!(!ConstInt::U64(3).is_zero());
    assert!(ConstInt::I32(-1).is_negative());
    assert!(!ConstInt::I32(0).is_negative());
    assert!(!ConstInt::U8(255).is_negative());
}

#[test]
fn const_int_decimal_text() {
    assert_eq!(ConstInt::I8(-128).to_string(), "-128");
    assert_eq!(ConstInt::U8(255).to_string(), "255");
    assert_eq!(ConstInt::I32(0).to_string(), "0");
    assert_eq!(ConstInt::I64(i64::MIN).to_string(), "-9223372036854775808");
    assert_eq!(ConstInt::I64(i64::MAX).to_string(), "9223372036854775807");
    assert_eq!(ConstInt::U64(u64::MAX).to_string(), "18446744073709551615");
    assert_eq!(ConstInt::U32(1000).to_string(), "1000");
}

#[test]
fn arg_sizes() {
    assert_eq!(Arg::from(al()).size(), Some(ArgSize::Byte));
    assert_eq!(Arg::from(eax()).size(), Some(ArgSize::Double));
    assert_eq!(Arg::from(5i8).size(), Some(ArgSize::Byte));
    assert_eq!(Arg::from(5u8).size(), Some(ArgSize::Byte));
    assert_eq!(Arg::from(5i32).size(), Some(ArgSize::Double));
    assert_eq!(Arg::from(5u32).size(), Some(ArgSize::Double));
    assert_eq!(Arg::from(5i64).size(), Some(ArgSize::Quad));
    assert_eq!(Arg::from(5u64).size(), Some(ArgSize::Quad));
    assert_eq!(Arg::from("main").size(), None);
    assert_eq!(Arg::from(rax().memory()).size(), None);
    assert_eq!(Arg::from(rax().memory().size(ArgSize::Word)).size(), Some(ArgSize::Word));
}

#[test]
fn arg_kind_tests() {
    assert!(Arg::from(rax()).is_register());
    assert!(!Arg::from(rax()).is_memory());
    assert!(Arg::from(rax().memory()).is_memory());
    assert!(!Arg::from(Label::new("f")).is_register());
    assert!(!Arg::from(ConstInt::I32(1)).is_memory());
}

#[test]
fn arg_text() {
    assert_eq!(Arg::from(rax()).to_string(), "%rax");
    assert_eq!(Arg::from(-3i32).to_string(), "$-3");
    assert_eq!(Arg::from(42u64).to_string(), "$42");
    assert_eq!(Arg::from("loop").to_string(), "loop");
    assert_eq!(Arg::from(Label::new("x").rip()).to_string(), "x(%rip)");
}

#[test]
fn size_suffixes() {
    assert_eq!(ArgSize::Byte.suffix(), "b");
    assert_eq!(ArgSize::Word.suffix(), "w");
    assert_eq!(ArgSize::Double.suffix(), "l");
    assert_eq!(ArgSize::Quad.suffix(), "q");
}
