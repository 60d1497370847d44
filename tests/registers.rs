use asm_emit::register::{
    a_name, al, ax, b_name, bp, bp_name, bpl, c_name, d_name, di_name, eax, rax, rbx, rcx, rdx,
    rsp, rx, rx_name, rxb, rxd, rxw, si_name, sp, sp_name, spl, Register, RegisterName,
    RegisterSize,
};

const NAMES: [RegisterName; 16] = [
    RegisterName::A,
    RegisterName::B,
    RegisterName::C,
    RegisterName::D,
    RegisterName::SI,
    RegisterName::DI,
    RegisterName::SP,
    RegisterName::BP,
    RegisterName::R8,
    RegisterName::R9,
    RegisterName::R10,
    RegisterName::R11,
    RegisterName::R12,
    RegisterName::R13,
    RegisterName::R14,
    RegisterName::R15,
];

const SIZES: [RegisterSize; 4] = [
    RegisterSize::Byte,
    RegisterSize::Word,
    RegisterSize::Double,
    RegisterSize::Quad,
];

fn expected(name: RegisterName, size: RegisterSize) -> String {
    let base = match name {
        RegisterName::A => "a",
        RegisterName::B => "b",
        RegisterName::C => "c",
        RegisterName::D => "d",
        RegisterName::SI => "si",
        RegisterName::DI => "di",
        RegisterName::SP => "sp",
        RegisterName::BP => "bp",
        RegisterName::R8 => "r8",
        RegisterName::R9 => "r9",
        RegisterName::R10 => "r10",
        RegisterName::R11 => "r11",
        RegisterName::R12 => "r12",
        RegisterName::R13 => "r13",
        RegisterName::R14 => "r14",
        RegisterName::R15 => "r15",
    };
    let (prefix, suffix) = match name {
        RegisterName::A | RegisterName::B | RegisterName::C | RegisterName::D => match size {
            RegisterSize::Byte => ("", "l"),
            RegisterSize::Word => ("", "x"),
            RegisterSize::Double => ("e", "x"),
            RegisterSize::Quad => ("r", "x"),
        },
        RegisterName::SI | RegisterName::DI | RegisterName::SP | RegisterName::BP => match size {
            RegisterSize::Byte => ("", "l"),
            RegisterSize::Word => ("", ""),
            RegisterSize::Double => ("e", ""),
            RegisterSize::Quad => ("r", ""),
        },
        _ => match size {
            RegisterSize::Byte => ("", "b"),
            RegisterSize::Word => ("", "w"),
            RegisterSize::Double => ("", "d"),
            RegisterSize::Quad => ("", ""),
        },
    };
    format!("%{prefix}{base}{suffix}")
}

#[test]
fn every_register_follows_its_family_affixes() {
    for name in NAMES {
        for size in SIZES {
            let r = Register(name, size);
            assert_eq!(r.to_string(), expected(name, size));
            assert_eq!(r.to_string(), r.to_string());
        }
    }
}

#[test]
fn accumulator_family_examples() {
    assert_eq!(Register(RegisterName::A, RegisterSize::Byte).to_string(), "%al");
    assert_eq!(Register(RegisterName::A, RegisterSize::Quad).to_string(), "%rax");
    assert_eq!(eax().to_string(), "%eax");
    assert_eq!(ax().to_string(), "%ax");
    assert_eq!(al().to_string(), "%al");
    assert_eq!(rbx().to_string(), "%rbx");
    assert_eq!(rcx().to_string(), "%rcx");
    assert_eq!(rdx().to_string(), "%rdx");
}

#[test]
fn pointer_family_examples() {
    assert_eq!(sp().to_string(), "%sp");
    assert_eq!(rsp().to_string(), "%rsp");
    assert_eq!(spl().to_string(), "%spl");
    assert_eq!(bp().to_string(), "%bp");
    assert_eq!(bpl().to_string(), "%bpl");
    assert_eq!(si_name().double().to_string(), "%esi");
    assert_eq!(di_name().byte().to_string(), "%dil");
}

#[test]
fn numbered_family_examples() {
    assert_eq!(rxb(12).to_string(), "%r12b");
    assert_eq!(rx(12).to_string(), "%r12");
    assert_eq!(rxw(8).to_string(), "%r8w");
    assert_eq!(rxd(15).to_string(), "%r15d");
}

#[test]
fn name_constructors() {
    assert_eq!(a_name(), RegisterName::A);
    assert_eq!(b_name(), RegisterName::B);
    assert_eq!(c_name(), RegisterName::C);
    assert_eq!(d_name(), RegisterName::D);
    assert_eq!(si_name(), RegisterName::SI);
    assert_eq!(di_name(), RegisterName::DI);
    assert_eq!(sp_name(), RegisterName::SP);
    assert_eq!(bp_name(), RegisterName::BP);
    assert_eq!(rx_name(8), RegisterName::R8);
    assert_eq!(rx_name(15), RegisterName::R15);
    assert_eq!(rax(), Register(RegisterName::A, RegisterSize::Quad));
    assert_eq!(
        b_name().with_size(RegisterSize::Word),
        Register(RegisterName::B, RegisterSize::Word)
    );
}

#[test]
fn sizes_in_bytes() {
    assert_eq!(RegisterSize::Byte.in_bytes(), 1);
    assert_eq!(RegisterSize::Word.in_bytes(), 2);
    assert_eq!(RegisterSize::Double.in_bytes(), 4);
    assert_eq!(RegisterSize::Quad.in_bytes(), 8);
}

#[test]
fn register_as_memory_operand() {
    assert_eq!(rax().memory().to_string(), "(%rax)");
    assert_eq!(rx(9).memory().to_string(), "(%r9)");
}
