use vstd::prelude::*;

verus! {

/// The kind of one operand slot in an instruction's encoding.
#[derive(Clone, Copy, Debug, PartialEq, Eq, Structural)]
pub enum Param {
    /// Index of a register, one byte.
    Reg,
    /// Immediate word, two bytes, low byte first.
    Const16,
    /// Immediate byte.
    Const8,
    /// Word address, two bytes, low byte first.
    Addr16,
    /// Disc address, four bytes, low byte first.
    Addr32,
    /// Index of a register that holds an address, one byte.
    Ptr,
}

impl Param {
    /// Number of bytes this operand occupies in an encoded instruction.
    pub open spec fn spec_width(self) -> usize {
        match self {
            Param::Reg | Param::Const8 | Param::Ptr => 1,
            Param::Const16 | Param::Addr16 => 2,
            Param::Addr32 => 4,
        }
    }

    /// Number of bytes this operand occupies in an encoded instruction.
    #[verifier::when_used_as_spec(spec_width)]
    pub fn width(self) -> (w: usize)
        ensures
            w == self.spec_width(),
    {
        match self {
            Param::Reg | Param::Const8 | Param::Ptr => 1,
            Param::Const16 | Param::Addr16 => 2,
            Param::Addr32 => 4,
        }
    }
}

/// Total operand bytes of an operand list.
pub open spec fn params_width(params: Seq<Param>) -> nat
    decreases params.len(),
{
    if params.len() == 0 {
        0
    } else {
        params_width(params.drop_last()) + params.last().spec_width() as nat
    }
}

/// The concrete instructions of the machine.
#[derive(Clone, Copy, Debug, PartialEq, Eq, Structural)]
pub enum Opcode {
    Nop,
    Ldi,
    Mov,
    Swp,
    LdiR,
    Sto,
    Get,
    LdiPtr,
    StoPtr,
    GetPtr,
    MemCpy,
    MemCpyPtr,
    MemCompare,
    MemComparePtr,
    StoPtrOff,
    GetPtrOff,
    MemFill,
    StoPtrOffPtr,
    GetPtrOffPtr,
    MovR,
    SetRamFrame,
    SetStackFrame,
    SaveRegisters,
    LodRegisters,
    SetTimeout,
    SetTimeoutAdd,
    SetIntAddr,
    Int,
    CallPgrm,
    RetInt,
    SetPgrmStart,
    SetRamSize,
    SetPgrmSize,
    SetStackSize,
    SetFaultAddr,
    Kill,
    CpyRegion,
    Plot,
    CpyRegionPtr,
    VBlank,
    SwapFrameBuf,
    ColorAt,
    ColorPtr,
    Place,
    CpyShown,
    Solid,
    Add,
    Sub,
    SubRev,
    Mul,
    Div,
    Mod,
    And,
    Or,
    Not,
    Xor,
    Pow,
    Left,
    Right,
    RotLeft,
    RotRight,
    AddImm,
    SubImm,
    SubRevImm,
    MulImm,
    DivImm,
    ModImm,
    AndImm,
    OrImm,
    XorImm,
    PowImm,
    LeftImm,
    RightImm,
    RotLeftImm,
    RotRightImm,
    Less,
    Grtr,
    Eq,
    LessImm,
    GrtrImm,
    EqImm,
    ClrFlags,
    SaveFlags,
    Zero,
    LoadFlags,
    Jmp,
    Jic,
    Jnc,
    Jiz,
    Jnz,
    JiErr,
    JnErr,
    JiCry,
    JnCry,
    JmpPtr,
    JicPtr,
    JncPtr,
    JizPtr,
    JnzPtr,
    JiCryPtr,
    JnCryPtr,
    Psh,
    PshCon,
    Pop,
    Index,
    Edit,
    Call,
    Ret,
    RetFramed,
    SetStackPtr,
    RetConst,
    IndexPtr,
    IndexOff,
    IndexOffConst,
    EditPtr,
    PshPtr,
    Write,
    Load,
    WritePtr,
    LoadPtr,
    WriteSeg,
    LoadSeg,
    ReadIn,
    ReadInFlag,
    WriteOut,
    WriteOutFlag,
}

impl Opcode {
    /// The opcode byte: the high byte of the first word of an encoded instruction.
    pub open spec fn spec_code(self) -> u8 {
        match self {
            Opcode::Nop => 0x00,
            Opcode::Ldi => 0x01,
            Opcode::Mov => 0x02,
            Opcode::Swp => 0x03,
            Opcode::LdiR => 0x10,
            Opcode::Sto => 0x11,
            Opcode::Get => 0x12,
            Opcode::LdiPtr => 0x13,
            Opcode::StoPtr => 0x14,
            Opcode::GetPtr => 0x15,
            Opcode::MemCpy => 0x16,
            Opcode::MemCpyPtr => 0x17,
            Opcode::MemCompare => 0x18,
            Opcode::MemComparePtr => 0x19,
            Opcode::StoPtrOff => 0x1a,
            Opcode::GetPtrOff => 0x1b,
            Opcode::MemFill => 0x1c,
            Opcode::StoPtrOffPtr => 0x1d,
            Opcode::GetPtrOffPtr => 0x1e,
            Opcode::MovR => 0x1f,
            Opcode::SetRamFrame => 0x20,
            Opcode::SetStackFrame => 0x21,
            Opcode::SaveRegisters => 0x22,
            Opcode::LodRegisters => 0x23,
            Opcode::SetTimeout => 0x24,
            Opcode::SetTimeoutAdd => 0x25,
            Opcode::SetIntAddr => 0x26,
            Opcode::Int => 0x27,
            Opcode::CallPgrm => 0x28,
            Opcode::RetInt => 0x29,
            Opcode::SetPgrmStart => 0x2a,
            Opcode::SetRamSize => 0x2b,
            Opcode::SetPgrmSize => 0x2c,
            Opcode::SetStackSize => 0x2d,
            Opcode::SetFaultAddr => 0x2e,
            Opcode::Kill => 0x2f,
            Opcode::CpyRegion => 0x30,
            Opcode::Plot => 0x31,
            Opcode::CpyRegionPtr => 0x32,
            Opcode::VBlank => 0x33,
            Opcode::SwapFrameBuf => 0x34,
            Opcode::ColorAt => 0x35,
            Opcode::ColorPtr => 0x36,
            Opcode::Place => 0x37,
            Opcode::CpyShown => 0x38,
            Opcode::Solid => 0x39,
            Opcode::Add => 0x40,
            Opcode::Sub => 0x41,
            Opcode::SubRev => 0x42,
            Opcode::Mul => 0x43,
            Opcode::Div => 0x44,
            Opcode::Mod => 0x45,
            Opcode::And => 0x46,
            Opcode::Or => 0x47,
            Opcode::Not => 0x48,
            Opcode::Xor => 0x49,
            Opcode::Pow => 0x4a,
            Opcode::Left => 0x4b,
            Opcode::Right => 0x4c,
            Opcode::RotLeft => 0x4d,
            Opcode::RotRight => 0x4e,
            Opcode::AddImm => 0x50,
            Opcode::SubImm => 0x51,
            Opcode::SubRevImm => 0x52,
            Opcode::MulImm => 0x53,
            Opcode::DivImm => 0x54,
            Opcode::ModImm => 0x55,
            Opcode::AndImm => 0x56,
            Opcode::OrImm => 0x57,
            Opcode::XorImm => 0x59,
            Opcode::PowImm => 0x5a,
            Opcode::LeftImm => 0x5b,
            Opcode::RightImm => 0x5c,
            Opcode::RotLeftImm => 0x5d,
            Opcode::RotRightImm => 0x5e,
            Opcode::Less => 0x60,
            Opcode::Grtr => 0x61,
            Opcode::Eq => 0x62,
            Opcode::LessImm => 0x63,
            Opcode::GrtrImm => 0x64,
            Opcode::EqImm => 0x65,
            Opcode::ClrFlags => 0x66,
            Opcode::SaveFlags => 0x67,
            Opcode::Zero => 0x68,
            Opcode::LoadFlags => 0x69,
            Opcode::Jmp => 0x70,
            Opcode::Jic => 0x71,
            Opcode::Jnc => 0x72,
            Opcode::Jiz => 0x73,
            Opcode::Jnz => 0x74,
            Opcode::JiErr => 0x75,
            Opcode::JnErr => 0x76,
            Opcode::JiCry => 0x77,
            Opcode::JnCry => 0x78,
            Opcode::JmpPtr => 0x79,
            Opcode::JicPtr => 0x7a,
            Opcode::JncPtr => 0x7b,
            Opcode::JizPtr => 0x7c,
            Opcode::JnzPtr => 0x7d,
            Opcode::JiCryPtr => 0x7e,
            Opcode::JnCryPtr => 0x7f,
            Opcode::Psh => 0x80,
            Opcode::PshCon => 0x81,
            Opcode::Pop => 0x82,
            Opcode::Index => 0x83,
            Opcode::Edit => 0x84,
            Opcode::Call => 0x85,
            Opcode::Ret => 0x86,
            Opcode::RetFramed => 0x87,
            Opcode::SetStackPtr => 0x88,
            Opcode::RetConst => 0x89,
            Opcode::IndexPtr => 0x8a,
            Opcode::IndexOff => 0x8b,
            Opcode::IndexOffConst => 0x8c,
            Opcode::EditPtr => 0x8d,
            Opcode::PshPtr => 0x8e,
            Opcode::Write => 0x90,
            Opcode::Load => 0x91,
            Opcode::WritePtr => 0x92,
            Opcode::LoadPtr => 0x93,
            Opcode::WriteSeg => 0x94,
            Opcode::LoadSeg => 0x95,
            Opcode::ReadIn => 0xa0,
            Opcode::ReadInFlag => 0xa1,
            Opcode::WriteOut => 0xa2,
            Opcode::WriteOutFlag => 0xa3,
        }
    }

    /// The opcode byte of the instruction.
    #[verifier::when_used_as_spec(spec_code)]
    pub fn code(self) -> (b: u8)
        ensures
            b == self.spec_code(),
    {
        match self {
            Opcode::Nop => 0x00,
            Opcode::Ldi => 0x01,
            Opcode::Mov => 0x02,
            Opcode::Swp => 0x03,
            Opcode::LdiR => 0x10,
            Opcode::Sto => 0x11,
            Opcode::Get => 0x12,
            Opcode::LdiPtr => 0x13,
            Opcode::StoPtr => 0x14,
            Opcode::GetPtr => 0x15,
            Opcode::MemCpy => 0x16,
            Opcode::MemCpyPtr => 0x17,
            Opcode::MemCompare => 0x18,
            Opcode::MemComparePtr => 0x19,
            Opcode::StoPtrOff => 0x1a,
            Opcode::GetPtrOff => 0x1b,
            Opcode::MemFill => 0x1c,
            Opcode::StoPtrOffPtr => 0x1d,
            Opcode::GetPtrOffPtr => 0x1e,
            Opcode::MovR => 0x1f,
            Opcode::SetRamFrame => 0x20,
            Opcode::SetStackFrame => 0x21,
            Opcode::SaveRegisters => 0x22,
            Opcode::LodRegisters => 0x23,
            Opcode::SetTimeout => 0x24,
            Opcode::SetTimeoutAdd => 0x25,
            Opcode::SetIntAddr => 0x26,
            Opcode::Int => 0x27,
            Opcode::CallPgrm => 0x28,
            Opcode::RetInt => 0x29,
            Opcode::SetPgrmStart => 0x2a,
            Opcode::SetRamSize => 0x2b,
            Opcode::SetPgrmSize => 0x2c,
            Opcode::SetStackSize => 0x2d,
            Opcode::SetFaultAddr => 0x2e,
            Opcode::Kill => 0x2f,
            Opcode::CpyRegion => 0x30,
            Opcode::Plot => 0x31,
            Opcode::CpyRegionPtr => 0x32,
            Opcode::VBlank => 0x33,
            Opcode::SwapFrameBuf => 0x34,
            Opcode::ColorAt => 0x35,
            Opcode::ColorPtr => 0x36,
            Opcode::Place => 0x37,
            Opcode::CpyShown => 0x38,
            Opcode::Solid => 0x39,
            Opcode::Add => 0x40,
            Opcode::Sub => 0x41,
            Opcode::SubRev => 0x42,
            Opcode::Mul => 0x43,
            Opcode::Div => 0x44,
            Opcode::Mod => 0x45,
            Opcode::And => 0x46,
            Opcode::Or => 0x47,
            Opcode::Not => 0x48,
            Opcode::Xor => 0x49,
            Opcode::Pow => 0x4a,
            Opcode::Left => 0x4b,
            Opcode::Right => 0x4c,
            Opcode::RotLeft => 0x4d,
            Opcode::RotRight => 0x4e,
            Opcode::AddImm => 0x50,
            Opcode::SubImm => 0x51,
            Opcode::SubRevImm => 0x52,
            Opcode::MulImm => 0x53,
            Opcode::DivImm => 0x54,
            Opcode::ModImm => 0x55,
            Opcode::AndImm => 0x56,
            Opcode::OrImm => 0x57,
            Opcode::XorImm => 0x59,
            Opcode::PowImm => 0x5a,
            Opcode::LeftImm => 0x5b,
            Opcode::RightImm => 0x5c,
            Opcode::RotLeftImm => 0x5d,
            Opcode::RotRightImm => 0x5e,
            Opcode::Less => 0x60,
            Opcode::Grtr => 0x61,
            Opcode::Eq => 0x62,
            Opcode::LessImm => 0x63,
            Opcode::GrtrImm => 0x64,
            Opcode::EqImm => 0x65,
            Opcode::ClrFlags => 0x66,
            Opcode::SaveFlags => 0x67,
            Opcode::Zero => 0x68,
            Opcode::LoadFlags => 0x69,
            Opcode::Jmp => 0x70,
            Opcode::Jic => 0x71,
            Opcode::Jnc => 0x72,
            Opcode::Jiz => 0x73,
            Opcode::Jnz => 0x74,
            Opcode::JiErr => 0x75,
            Opcode::JnErr => 0x76,
            Opcode::JiCry => 0x77,
            Opcode::JnCry => 0x78,
            Opcode::JmpPtr => 0x79,
            Opcode::JicPtr => 0x7a,
            Opcode::JncPtr => 0x7b,
            Opcode::JizPtr => 0x7c,
            Opcode::JnzPtr => 0x7d,
            Opcode::JiCryPtr => 0x7e,
            Opcode::JnCryPtr => 0x7f,
            Opcode::Psh => 0x80,
            Opcode::PshCon => 0x81,
            Opcode::Pop => 0x82,
            Opcode::Index => 0x83,
            Opcode::Edit => 0x84,
            Opcode::Call => 0x85,
            Opcode::Ret => 0x86,
            Opcode::RetFramed => 0x87,
            Opcode::SetStackPtr => 0x88,
            Opcode::RetConst => 0x89,
            Opcode::IndexPtr => 0x8a,
            Opcode::IndexOff => 0x8b,
            Opcode::IndexOffConst => 0x8c,
            Opcode::EditPtr => 0x8d,
            Opcode::PshPtr => 0x8e,
            Opcode::Write => 0x90,
            Opcode::Load => 0x91,
            Opcode::WritePtr => 0x92,
            Opcode::LoadPtr => 0x93,
            Opcode::WriteSeg => 0x94,
            Opcode::LoadSeg => 0x95,
            Opcode::ReadIn => 0xa0,
            Opcode::ReadInFlag => 0xa1,
            Opcode::WriteOut => 0xa2,
            Opcode::WriteOutFlag => 0xa3,
        }
    }

    /// The instruction that an opcode byte selects, if any.
    pub open spec fn spec_from_code(b: u8) -> Option<Opcode> {
        match b {
            0x00 => Some(Opcode::Nop),
            0x01 => Some(Opcode::Ldi),
            0x02 => Some(Opcode::Mov),
            0x03 => Some(Opcode::Swp),
            0x10 => Some(Opcode::LdiR),
            0x11 => Some(Opcode::Sto),
            0x12 => Some(Opcode::Get),
            0x13 => Some(Opcode::LdiPtr),
            0x14 => Some(Opcode::StoPtr),
            0x15 => Some(Opcode::GetPtr),
            0x16 => Some(Opcode::MemCpy),
            0x17 => Some(Opcode::MemCpyPtr),
            0x18 => Some(Opcode::MemCompare),
            0x19 => Some(Opcode::MemComparePtr),
            0x1a => Some(Opcode::StoPtrOff),
            0x1b => Some(Opcode::GetPtrOff),
            0x1c => Some(Opcode::MemFill),
            0x1d => Some(Opcode::StoPtrOffPtr),
            0x1e => Some(Opcode::GetPtrOffPtr),
            0x1f => Some(Opcode::MovR),
            0x20 => Some(Opcode::SetRamFrame),
            0x21 => Some(Opcode::SetStackFrame),
            0x22 => Some(Opcode::SaveRegisters),
            0x23 => Some(Opcode::LodRegisters),
            0x24 => Some(Opcode::SetTimeout),
            0x25 => Some(Opcode::SetTimeoutAdd),
            0x26 => Some(Opcode::SetIntAddr),
            0x27 => Some(Opcode::Int),
            0x28 => Some(Opcode::CallPgrm),
            0x29 => Some(Opcode::RetInt),
            0x2a => Some(Opcode::SetPgrmStart),
            0x2b => Some(Opcode::SetRamSize),
            0x2c => Some(Opcode::SetPgrmSize),
            0x2d => Some(Opcode::SetStackSize),
            0x2e => Some(Opcode::SetFaultAddr),
            0x2f => Some(Opcode::Kill),
            0x30 => Some(Opcode::CpyRegion),
            0x31 => Some(Opcode::Plot),
            0x32 => Some(Opcode::CpyRegionPtr),
            0x33 => Some(Opcode::VBlank),
            0x34 => Some(Opcode::SwapFrameBuf),
            0x35 => Some(Opcode::ColorAt),
            0x36 => Some(Opcode::ColorPtr),
            0x37 => Some(Opcode::Place),
            0x38 => Some(Opcode::CpyShown),
            0x39 => Some(Opcode::Solid),
            0x40 => Some(Opcode::Add),
            0x41 => Some(Opcode::Sub),
            0x42 => Some(Opcode::SubRev),
            0x43 => Some(Opcode::Mul),
            0x44 => Some(Opcode::Div),
            0x45 => Some(Opcode::Mod),
            0x46 => Some(Opcode::And),
            0x47 => Some(Opcode::Or),
            0x48 => Some(Opcode::Not),
            0x49 => Some(Opcode::Xor),
            0x4a => Some(Opcode::Pow),
            0x4b => Some(Opcode::Left),
            0x4c => Some(Opcode::Right),
            0x4d => Some(Opcode::RotLeft),
            0x4e => Some(Opcode::RotRight),
            0x50 => Some(Opcode::AddImm),
            0x51 => Some(Opcode::SubImm),
            0x52 => Some(Opcode::SubRevImm),
            0x53 => Some(Opcode::MulImm),
            0x54 => Some(Opcode::DivImm),
            0x55 => Some(Opcode::ModImm),
            0x56 => Some(Opcode::AndImm),
            0x57 => Some(Opcode::OrImm),
            0x59 => Some(Opcode::XorImm),
            0x5a => Some(Opcode::PowImm),
            0x5b => Some(Opcode::LeftImm),
            0x5c => Some(Opcode::RightImm),
            0x5d => Some(Opcode::RotLeftImm),
            0x5e => Some(Opcode::RotRightImm),
            0x60 => Some(Opcode::Less),
            0x61 => Some(Opcode::Grtr),
            0x62 => Some(Opcode::Eq),
            0x63 => Some(Opcode::LessImm),
            0x64 => Some(Opcode::GrtrImm),
            0x65 => Some(Opcode::EqImm),
            0x66 => Some(Opcode::ClrFlags),
            0x67 => Some(Opcode::SaveFlags),
            0x68 => Some(Opcode::Zero),
            0x69 => Some(Opcode::LoadFlags),
            0x70 => Some(Opcode::Jmp),
            0x71 => Some(Opcode::Jic),
            0x72 => Some(Opcode::Jnc),
            0x73 => Some(Opcode::Jiz),
            0x74 => Some(Opcode::Jnz),
            0x75 => Some(Opcode::JiErr),
            0x76 => Some(Opcode::JnErr),
            0x77 => Some(Opcode::JiCry),
            0x78 => Some(Opcode::JnCry),
            0x79 => Some(Opcode::JmpPtr),
            0x7a => Some(Opcode::JicPtr),
            0x7b => Some(Opcode::JncPtr),
            0x7c => Some(Opcode::JizPtr),
            0x7d => Some(Opcode::JnzPtr),
            0x7e => Some(Opcode::JiCryPtr),
            0x7f => Some(Opcode::JnCryPtr),
            0x80 => Some(Opcode::Psh),
            0x81 => Some(Opcode::PshCon),
            0x82 => Some(Opcode::Pop),
            0x83 => Some(Opcode::Index),
            0x84 => Some(Opcode::Edit),
            0x85 => Some(Opcode::Call),
            0x86 => Some(Opcode::Ret),
            0x87 => Some(Opcode::RetFramed),
            0x88 => Some(Opcode::SetStackPtr),
            0x89 => Some(Opcode::RetConst),
            0x8a => Some(Opcode::IndexPtr),
            0x8b => Some(Opcode::IndexOff),
            0x8c => Some(Opcode::IndexOffConst),
            0x8d => Some(Opcode::EditPtr),
            0x8e => Some(Opcode::PshPtr),
            0x90 => Some(Opcode::Write),
            0x91 => Some(Opcode::Load),
            0x92 => Some(Opcode::WritePtr),
            0x93 => Some(Opcode::LoadPtr),
            0x94 => Some(Opcode::WriteSeg),
            0x95 => Some(Opcode::LoadSeg),
            0xa0 => Some(Opcode::ReadIn),
            0xa1 => Some(Opcode::ReadInFlag),
            0xa2 => Some(Opcode::WriteOut),
            0xa3 => Some(Opcode::WriteOutFlag),
            _ => None,
        }
    }

    /// The instruction that an opcode byte selects, if any.
    #[verifier::when_used_as_spec(spec_from_code)]
    pub fn from_code(b: u8) -> (r: Option<Opcode>)
        ensures
            r == Opcode::spec_from_code(b),
    {
        match b {
            0x00 => Some(Opcode::Nop),
            0x01 => Some(Opcode::Ldi),
            0x02 => Some(Opcode::Mov),
            0x03 => Some(Opcode::Swp),
            0x10 => Some(Opcode::LdiR),
            0x11 => Some(Opcode::Sto),
            0x12 => Some(Opcode::Get),
            0x13 => Some(Opcode::LdiPtr),
            0x14 => Some(Opcode::StoPtr),
            0x15 => Some(Opcode::GetPtr),
            0x16 => Some(Opcode::MemCpy),
            0x17 => Some(Opcode::MemCpyPtr),
            0x18 => Some(Opcode::MemCompare),
            0x19 => Some(Opcode::MemComparePtr),
            0x1a => Some(Opcode::StoPtrOff),
            0x1b => Some(Opcode::GetPtrOff),
            0x1c => Some(Opcode::MemFill),
            0x1d => Some(Opcode::StoPtrOffPtr),
            0x1e => Some(Opcode::GetPtrOffPtr),
            0x1f => Some(Opcode::MovR),
            0x20 => Some(Opcode::SetRamFrame),
            0x21 => Some(Opcode::SetStackFrame),
            0x22 => Some(Opcode::SaveRegisters),
            0x23 => Some(Opcode::LodRegisters),
            0x24 => Some(Opcode::SetTimeout),
            0x25 => Some(Opcode::SetTimeoutAdd),
            0x26 => Some(Opcode::SetIntAddr),
            0x27 => Some(Opcode::Int),
            0x28 => Some(Opcode::CallPgrm),
            0x29 => Some(Opcode::RetInt),
            0x2a => Some(Opcode::SetPgrmStart),
            0x2b => Some(Opcode::SetRamSize),
            0x2c => Some(Opcode::SetPgrmSize),
            0x2d => Some(Opcode::SetStackSize),
            0x2e => Some(Opcode::SetFaultAddr),
            0x2f => Some(Opcode::Kill),
            0x30 => Some(Opcode::CpyRegion),
            0x31 => Some(Opcode::Plot),
            0x32 => Some(Opcode::CpyRegionPtr),
            0x33 => Some(Opcode::VBlank),
            0x34 => Some(Opcode::SwapFrameBuf),
            0x35 => Some(Opcode::ColorAt),
            0x36 => Some(Opcode::ColorPtr),
            0x37 => Some(Opcode::Place),
            0x38 => Some(Opcode::CpyShown),
            0x39 => Some(Opcode::Solid),
            0x40 => Some(Opcode::Add),
            0x41 => Some(Opcode::Sub),
            0x42 => Some(Opcode::SubRev),
            0x43 => Some(Opcode::Mul),
            0x44 => Some(Opcode::Div),
            0x45 => Some(Opcode::Mod),
            0x46 => Some(Opcode::And),
            0x47 => Some(Opcode::Or),
            0x48 => Some(Opcode::Not),
            0x49 => Some(Opcode::Xor),
            0x4a => Some(Opcode::Pow),
            0x4b => Some(Opcode::Left),
            0x4c => Some(Opcode::Right),
            0x4d => Some(Opcode::RotLeft),
            0x4e => Some(Opcode::RotRight),
            0x50 => Some(Opcode::AddImm),
            0x51 => Some(Opcode::SubImm),
            0x52 => Some(Opcode::SubRevImm),
            0x53 => Some(Opcode::MulImm),
            0x54 => Some(Opcode::DivImm),
            0x55 => Some(Opcode::ModImm),
            0x56 => Some(Opcode::AndImm),
            0x57 => Some(Opcode::OrImm),
            0x59 => Some(Opcode::XorImm),
            0x5a => Some(Opcode::PowImm),
            0x5b => Some(Opcode::LeftImm),
            0x5c => Some(Opcode::RightImm),
            0x5d => Some(Opcode::RotLeftImm),
            0x5e => Some(Opcode::RotRightImm),
            0x60 => Some(Opcode::Less),
            0x61 => Some(Opcode::Grtr),
            0x62 => Some(Opcode::Eq),
            0x63 => Some(Opcode::LessImm),
            0x64 => Some(Opcode::GrtrImm),
            0x65 => Some(Opcode::EqImm),
            0x66 => Some(Opcode::ClrFlags),
            0x67 => Some(Opcode::SaveFlags),
            0x68 => Some(Opcode::Zero),
            0x69 => Some(Opcode::LoadFlags),
            0x70 => Some(Opcode::Jmp),
            0x71 => Some(Opcode::Jic),
            0x72 => Some(Opcode::Jnc),
            0x73 => Some(Opcode::Jiz),
            0x74 => Some(Opcode::Jnz),
            0x75 => Some(Opcode::JiErr),
            0x76 => Some(Opcode::JnErr),
            0x77 => Some(Opcode::JiCry),
            0x78 => Some(Opcode::JnCry),
            0x79 => Some(Opcode::JmpPtr),
            0x7a => Some(Opcode::JicPtr),
            0x7b => Some(Opcode::JncPtr),
            0x7c => Some(Opcode::JizPtr),
            0x7d => Some(Opcode::JnzPtr),
            0x7e => Some(Opcode::JiCryPtr),
            0x7f => Some(Opcode::JnCryPtr),
            0x80 => Some(Opcode::Psh),
            0x81 => Some(Opcode::PshCon),
            0x82 => Some(Opcode::Pop),
            0x83 => Some(Opcode::Index),
            0x84 => Some(Opcode::Edit),
            0x85 => Some(Opcode::Call),
            0x86 => Some(Opcode::Ret),
            0x87 => Some(Opcode::RetFramed),
            0x88 => Some(Opcode::SetStackPtr),
            0x89 => Some(Opcode::RetConst),
            0x8a => Some(Opcode::IndexPtr),
            0x8b => Some(Opcode::IndexOff),
            0x8c => Some(Opcode::IndexOffConst),
            0x8d => Some(Opcode::EditPtr),
            0x8e => Some(Opcode::PshPtr),
            0x90 => Some(Opcode::Write),
            0x91 => Some(Opcode::Load),
            0x92 => Some(Opcode::WritePtr),
            0x93 => Some(Opcode::LoadPtr),
            0x94 => Some(Opcode::WriteSeg),
            0x95 => Some(Opcode::LoadSeg),
            0xa0 => Some(Opcode::ReadIn),
            0xa1 => Some(Opcode::ReadInFlag),
            0xa2 => Some(Opcode::WriteOut),
            0xa3 => Some(Opcode::WriteOutFlag),
            _ => None,
        }
    }

    /// The mnemonic, as the characters of its name.
    pub open spec fn spec_name(self) -> Seq<char> {
        match self {
            Opcode::Nop => "Nop"@,
            Opcode::Ldi => "Ldi"@,
            Opcode::Mov => "Mov"@,
            Opcode::Swp => "Swp"@,
            Opcode::LdiR => "LdiR"@,
            Opcode::Sto => "Sto"@,
            Opcode::Get => "Get"@,
            Opcode::LdiPtr => "LdiPtr"@,
            Opcode::StoPtr => "StoPtr"@,
            Opcode::GetPtr => "GetPtr"@,
            Opcode::MemCpy => "MemCpy"@,
            Opcode::MemCpyPtr => "MemCpyPtr"@,
            Opcode::MemCompare => "MemCmp"@,
            Opcode::MemComparePtr => "MemCmpPtr"@,
            Opcode::StoPtrOff => "StoPtrOff"@,
            Opcode::GetPtrOff => "GetPtrOff"@,
            Opcode::MemFill => "MemFill"@,
            Opcode::StoPtrOffPtr => "StoPtrOffPtr"@,
            Opcode::GetPtrOffPtr => "GetPtrOffPtr"@,
            Opcode::MovR => "MovR"@,
            Opcode::SetRamFrame => "SetRamFrame"@,
            Opcode::SetStackFrame => "SetStackFrame"@,
            Opcode::SaveRegisters => "SaveRegisters"@,
            Opcode::LodRegisters => "LodRegisters"@,
            Opcode::SetTimeout => "SetTimeout"@,
            Opcode::SetTimeoutAdd => "SetTimeoutAdd"@,
            Opcode::SetIntAddr => "SetIntAddr"@,
            Opcode::Int => "Int"@,
            Opcode::CallPgrm => "CallPgrm"@,
            Opcode::RetInt => "RetInt"@,
            Opcode::SetPgrmStart => "SetPgrmStart"@,
            Opcode::SetRamSize => "SetRamSize"@,
            Opcode::SetPgrmSize => "SetPgrmSize"@,
            Opcode::SetStackSize => "SetStackSize"@,
            Opcode::SetFaultAddr => "SetFaultAddr"@,
            Opcode::Kill => "Kill"@,
            Opcode::CpyRegion => "CpyRegion"@,
            Opcode::Plot => "Plot"@,
            Opcode::CpyRegionPtr => "CpyRegionPtr"@,
            Opcode::VBlank => "VBlank"@,
            Opcode::SwapFrameBuf => "SwapFrameBuf"@,
            Opcode::ColorAt => "ColorAt"@,
            Opcode::ColorPtr => "ColorPtr"@,
            Opcode::Place => "Place"@,
            Opcode::CpyShown => "CpyShown"@,
            Opcode::Solid => "Solid"@,
            Opcode::Add => "Add"@,
            Opcode::Sub => "Sub"@,
            Opcode::SubRev => "SubRev"@,
            Opcode::Mul => "Mul"@,
            Opcode::Div => "Div"@,
            Opcode::Mod => "Mod"@,
            Opcode::And => "And"@,
            Opcode::Or => "Or"@,
            Opcode::Not => "Not"@,
            Opcode::Xor => "Xor"@,
            Opcode::Pow => "Pow"@,
            Opcode::Left => "Left"@,
            Opcode::Right => "Right"@,
            Opcode::RotLeft => "RotLeft"@,
            Opcode::RotRight => "RotRight"@,
            Opcode::AddImm => "AddImm"@,
            Opcode::SubImm => "SubImm"@,
            Opcode::SubRevImm => "SubRevImm"@,
            Opcode::MulImm => "MulImm"@,
            Opcode::DivImm => "DivImm"@,
            Opcode::ModImm => "ModImm"@,
            Opcode::AndImm => "AndImm"@,
            Opcode::OrImm => "OrImm"@,
            Opcode::XorImm => "XorImm"@,
            Opcode::PowImm => "PowImm"@,
            Opcode::LeftImm => "LeftImm"@,
            Opcode::RightImm => "RightImm"@,
            Opcode::RotLeftImm => "RotLeftImm"@,
            Opcode::RotRightImm => "RotRightImm"@,
            Opcode::Less => "Less"@,
            Opcode::Grtr => "Grtr"@,
            Opcode::Eq => "Eq"@,
            Opcode::LessImm => "LessImm"@,
            Opcode::GrtrImm => "GrtrImm"@,
            Opcode::EqImm => "EqImm"@,
            Opcode::ClrFlags => "ClrFlags"@,
            Opcode::SaveFlags => "SaveFlags"@,
            Opcode::Zero => "Zero"@,
            Opcode::LoadFlags => "loadFlags"@,
            Opcode::Jmp => "Jmp"@,
            Opcode::Jic => "Jic"@,
            Opcode::Jnc => "Jnc"@,
            Opcode::Jiz => "Jiz"@,
            Opcode::Jnz => "Jnz"@,
            Opcode::JiErr => "JiErr"@,
            Opcode::JnErr => "JnErr"@,
            Opcode::JiCry => "JiCry"@,
            Opcode::JnCry => "JnCry"@,
            Opcode::JmpPtr => "JmpPtr"@,
            Opcode::JicPtr => "JicPtr"@,
            Opcode::JncPtr => "JncPtr"@,
            Opcode::JizPtr => "JizPtr"@,
            Opcode::JnzPtr => "JnzPtr"@,
            Opcode::JiCryPtr => "JiCryPtr"@,
            Opcode::JnCryPtr => "JnCryPtr"@,
            Opcode::Psh => "Psh"@,
            Opcode::PshCon => "PshCon"@,
            Opcode::Pop => "Pop"@,
            Opcode::Index => "Index"@,
            Opcode::Edit => "Edit"@,
            Opcode::Call => "Call"@,
            Opcode::Ret => "Ret"@,
            Opcode::RetFramed => "RetFramed"@,
            Opcode::SetStackPtr => "SetStackPtr"@,
            Opcode::RetConst => "RetConst"@,
            Opcode::IndexPtr => "IndexPtr"@,
            Opcode::IndexOff => "IndexOff"@,
            Opcode::IndexOffConst => "IndexOffConst"@,
            Opcode::EditPtr => "EditPtr"@,
            Opcode::PshPtr => "PshPtr"@,
            Opcode::Write => "Write"@,
            Opcode::Load => "Load"@,
            Opcode::WritePtr => "WritePtr"@,
            Opcode::LoadPtr => "LoadPtr"@,
            Opcode::WriteSeg => "WriteSeg"@,
            Opcode::LoadSeg => "LoadSeg"@,
            Opcode::ReadIn => "readIn"@,
            Opcode::ReadInFlag => "readInFlag"@,
            Opcode::WriteOut => "writeOut"@,
            Opcode::WriteOutFlag => "writeOutFlag"@,
        }
    }

    /// The mnemonic of the instruction.
    pub fn name(self) -> (s: &'static str)
        ensures
            s@ == self.spec_name(),
    {
        match self {
            Opcode::Nop => "Nop",
            Opcode::Ldi => "Ldi",
            Opcode::Mov => "Mov",
            Opcode::Swp => "Swp",
            Opcode::LdiR => "LdiR",
            Opcode::Sto => "Sto",
            Opcode::Get => "Get",
            Opcode::LdiPtr => "LdiPtr",
            Opcode::StoPtr => "StoPtr",
            Opcode::GetPtr => "GetPtr",
            Opcode::MemCpy => "MemCpy",
            Opcode::MemCpyPtr => "MemCpyPtr",
            Opcode::MemCompare => "MemCmp",
            Opcode::MemComparePtr => "MemCmpPtr",
            Opcode::StoPtrOff => "StoPtrOff",
            Opcode::GetPtrOff => "GetPtrOff",
            Opcode::MemFill => "MemFill",
            Opcode::StoPtrOffPtr => "StoPtrOffPtr",
            Opcode::GetPtrOffPtr => "GetPtrOffPtr",
            Opcode::MovR => "MovR",
            Opcode::SetRamFrame => "SetRamFrame",
            Opcode::SetStackFrame => "SetStackFrame",
            Opcode::SaveRegisters => "SaveRegisters",
            Opcode::LodRegisters => "LodRegisters",
            Opcode::SetTimeout => "SetTimeout",
            Opcode::SetTimeoutAdd => "SetTimeoutAdd",
            Opcode::SetIntAddr => "SetIntAddr",
            Opcode::Int => "Int",
            Opcode::CallPgrm => "CallPgrm",
            Opcode::RetInt => "RetInt",
            Opcode::SetPgrmStart => "SetPgrmStart",
            Opcode::SetRamSize => "SetRamSize",
            Opcode::SetPgrmSize => "SetPgrmSize",
            Opcode::SetStackSize => "SetStackSize",
            Opcode::SetFaultAddr => "SetFaultAddr",
            Opcode::Kill => "Kill",
            Opcode::CpyRegion => "CpyRegion",
            Opcode::Plot => "Plot",
            Opcode::CpyRegionPtr => "CpyRegionPtr",
            Opcode::VBlank => "VBlank",
            Opcode::SwapFrameBuf => "SwapFrameBuf",
            Opcode::ColorAt => "ColorAt",
            Opcode::ColorPtr => "ColorPtr",
            Opcode::Place => "Place",
            Opcode::CpyShown => "CpyShown",
            Opcode::Solid => "Solid",
            Opcode::Add => "Add",
            Opcode::Sub => "Sub",
            Opcode::SubRev => "SubRev",
            Opcode::Mul => "Mul",
            Opcode::Div => "Div",
            Opcode::Mod => "Mod",
            Opcode::And => "And",
            Opcode::Or => "Or",
            Opcode::Not => "Not",
            Opcode::Xor => "Xor",
            Opcode::Pow => "Pow",
            Opcode::Left => "Left",
            Opcode::Right => "Right",
            Opcode::RotLeft => "RotLeft",
            Opcode::RotRight => "RotRight",
            Opcode::AddImm => "AddImm",
            Opcode::SubImm => "SubImm",
            Opcode::SubRevImm => "SubRevImm",
            Opcode::MulImm => "MulImm",
            Opcode::DivImm => "DivImm",
            Opcode::ModImm => "ModImm",
            Opcode::AndImm => "AndImm",
            Opcode::OrImm => "OrImm",
            Opcode::XorImm => "XorImm",
            Opcode::PowImm => "PowImm",
            Opcode::LeftImm => "LeftImm",
            Opcode::RightImm => "RightImm",
            Opcode::RotLeftImm => "RotLeftImm",
            Opcode::RotRightImm => "RotRightImm",
            Opcode::Less => "Less",
            Opcode::Grtr => "Grtr",
            Opcode::Eq => "Eq",
            Opcode::LessImm => "LessImm",
            Opcode::GrtrImm => "GrtrImm",
            Opcode::EqImm => "EqImm",
            Opcode::ClrFlags => "ClrFlags",
            Opcode::SaveFlags => "SaveFlags",
            Opcode::Zero => "Zero",
            Opcode::LoadFlags => "loadFlags",
            Opcode::Jmp => "Jmp",
            Opcode::Jic => "Jic",
            Opcode::Jnc => "Jnc",
            Opcode::Jiz => "Jiz",
            Opcode::Jnz => "Jnz",
            Opcode::JiErr => "JiErr",
            Opcode::JnErr => "JnErr",
            Opcode::JiCry => "JiCry",
            Opcode::JnCry => "JnCry",
            Opcode::JmpPtr => "JmpPtr",
            Opcode::JicPtr => "JicPtr",
            Opcode::JncPtr => "JncPtr",
            Opcode::JizPtr => "JizPtr",
            Opcode::JnzPtr => "JnzPtr",
            Opcode::JiCryPtr => "JiCryPtr",
            Opcode::JnCryPtr => "JnCryPtr",
            Opcode::Psh => "Psh",
            Opcode::PshCon => "PshCon",
            Opcode::Pop => "Pop",
            Opcode::Index => "Index",
            Opcode::Edit => "Edit",
            Opcode::Call => "Call",
            Opcode::Ret => "Ret",
            Opcode::RetFramed => "RetFramed",
            Opcode::SetStackPtr => "SetStackPtr",
            Opcode::RetConst => "RetConst",
            Opcode::IndexPtr => "IndexPtr",
            Opcode::IndexOff => "IndexOff",
            Opcode::IndexOffConst => "IndexOffConst",
            Opcode::EditPtr => "EditPtr",
            Opcode::PshPtr => "PshPtr",
            Opcode::Write => "Write",
            Opcode::Load => "Load",
            Opcode::WritePtr => "WritePtr",
            Opcode::LoadPtr => "LoadPtr",
            Opcode::WriteSeg => "WriteSeg",
            Opcode::LoadSeg => "LoadSeg",
            Opcode::ReadIn => "readIn",
            Opcode::ReadInFlag => "readInFlag",
            Opcode::WriteOut => "writeOut",
            Opcode::WriteOutFlag => "writeOutFlag",
        }
    }

    /// The operand kinds, in the order in which the operands are written and encoded.
    pub open spec fn spec_params(self) -> Seq<Param> {
        match self {
            Opcode::Nop | Opcode::Int | Opcode::RetInt | Opcode::Kill | Opcode::VBlank
            | Opcode::SwapFrameBuf | Opcode::CpyShown | Opcode::ClrFlags | Opcode::Ret => Seq::empty(),
            Opcode::Ldi | Opcode::LessImm | Opcode::GrtrImm | Opcode::EqImm => seq![Param::Reg, Param::Const16],
            Opcode::Mov | Opcode::Swp | Opcode::Not | Opcode::Less | Opcode::Grtr
            | Opcode::Eq | Opcode::IndexPtr | Opcode::IndexOff | Opcode::EditPtr => seq![Param::Reg, Param::Reg],
            Opcode::LdiR => seq![Param::Addr16, Param::Const16],
            Opcode::Sto | Opcode::Get | Opcode::Index | Opcode::Edit => seq![Param::Addr16, Param::Reg],
            Opcode::LdiPtr => seq![Param::Ptr, Param::Const16],
            Opcode::StoPtr | Opcode::GetPtr => seq![Param::Ptr, Param::Reg],
            Opcode::MemCpy | Opcode::MemCompare | Opcode::CpyRegion => seq![Param::Addr16, Param::Addr16, Param::Const8],
            Opcode::MemCpyPtr | Opcode::MemComparePtr => seq![Param::Ptr, Param::Ptr, Param::Reg],
            Opcode::StoPtrOff | Opcode::GetPtrOff => seq![Param::Ptr, Param::Const16, Param::Reg],
            Opcode::MemFill => seq![Param::Ptr, Param::Const16, Param::Const16],
            Opcode::StoPtrOffPtr | Opcode::GetPtrOffPtr => seq![Param::Ptr, Param::Reg, Param::Reg],
            Opcode::MovR => seq![Param::Addr16, Param::Addr16],
            Opcode::SetRamFrame | Opcode::SetStackFrame | Opcode::SaveRegisters
            | Opcode::LodRegisters | Opcode::SetTimeout | Opcode::CallPgrm
            | Opcode::SetPgrmStart | Opcode::SetRamSize | Opcode::SetPgrmSize
            | Opcode::SetStackSize | Opcode::SaveFlags | Opcode::Zero | Opcode::LoadFlags
            | Opcode::JmpPtr | Opcode::JicPtr | Opcode::JncPtr | Opcode::JizPtr
            | Opcode::JnzPtr | Opcode::JiCryPtr | Opcode::JnCryPtr | Opcode::Psh
            | Opcode::Pop | Opcode::RetFramed | Opcode::SetStackPtr => seq![Param::Reg],
            Opcode::SetTimeoutAdd | Opcode::SetIntAddr | Opcode::SetFaultAddr
            | Opcode::Jmp | Opcode::Jic | Opcode::Jnc | Opcode::Jiz | Opcode::Jnz
            | Opcode::JiErr | Opcode::JnErr | Opcode::JiCry | Opcode::JnCry | Opcode::Call => seq![Param::Addr16],
            Opcode::Plot | Opcode::CpyRegionPtr | Opcode::ColorPtr | Opcode::Add
            | Opcode::Sub | Opcode::SubRev | Opcode::Mul | Opcode::Div | Opcode::Mod
            | Opcode::And | Opcode::Or | Opcode::Xor | Opcode::Pow | Opcode::Left
            | Opcode::Right | Opcode::RotLeft | Opcode::RotRight | Opcode::WritePtr
            | Opcode::LoadPtr => seq![Param::Reg, Param::Reg, Param::Reg],
            Opcode::ColorAt => seq![Param::Const16, Param::Const16, Param::Reg],
            Opcode::Place | Opcode::Solid => seq![Param::Reg, Param::Reg, Param::Reg, Param::Reg, Param::Reg],
            Opcode::AddImm | Opcode::SubImm | Opcode::SubRevImm | Opcode::MulImm
            | Opcode::DivImm | Opcode::ModImm | Opcode::AndImm | Opcode::OrImm
            | Opcode::XorImm | Opcode::PowImm | Opcode::LeftImm | Opcode::RightImm
            | Opcode::RotLeftImm | Opcode::RotRightImm => seq![Param::Reg, Param::Const16, Param::Reg],
            Opcode::PshCon | Opcode::RetConst => seq![Param::Const16],
            Opcode::IndexOffConst => seq![Param::Const16, Param::Reg],
            Opcode::PshPtr => seq![Param::Ptr],
            Opcode::Write | Opcode::Load => seq![Param::Addr32, Param::Reg],
            Opcode::WriteSeg | Opcode::LoadSeg => seq![Param::Reg, Param::Reg, Param::Reg, Param::Reg],
            Opcode::ReadIn | Opcode::WriteOut | Opcode::WriteOutFlag => seq![Param::Reg, Param::Const8],
            Opcode::ReadInFlag => seq![Param::Const8],
        }
    }

    /// The operand kinds of the instruction, in the order of its operands.
    pub fn params(self) -> (v: Vec<Param>)
        ensures
            v@ == self.spec_params(),
    {
        match self {
            Opcode::Nop | Opcode::Int | Opcode::RetInt | Opcode::Kill | Opcode::VBlank
            | Opcode::SwapFrameBuf | Opcode::CpyShown | Opcode::ClrFlags | Opcode::Ret => Vec::new(),
            Opcode::Ldi | Opcode::LessImm | Opcode::GrtrImm | Opcode::EqImm => vec![Param::Reg, Param::Const16],
            Opcode::Mov | Opcode::Swp | Opcode::Not | Opcode::Less | Opcode::Grtr
            | Opcode::Eq | Opcode::IndexPtr | Opcode::IndexOff | Opcode::EditPtr => vec![Param::Reg, Param::Reg],
            Opcode::LdiR => vec![Param::Addr16, Param::Const16],
            Opcode::Sto | Opcode::Get | Opcode::Index | Opcode::Edit => vec![Param::Addr16, Param::Reg],
            Opcode::LdiPtr => vec![Param::Ptr, Param::Const16],
            Opcode::StoPtr | Opcode::GetPtr => vec![Param::Ptr, Param::Reg],
            Opcode::MemCpy | Opcode::MemCompare | Opcode::CpyRegion => vec![Param::Addr16, Param::Addr16, Param::Const8],
            Opcode::MemCpyPtr | Opcode::MemComparePtr => vec![Param::Ptr, Param::Ptr, Param::Reg],
            Opcode::StoPtrOff | Opcode::GetPtrOff => vec![Param::Ptr, Param::Const16, Param::Reg],
            Opcode::MemFill => vec![Param::Ptr, Param::Const16, Param::Const16],
            Opcode::StoPtrOffPtr | Opcode::GetPtrOffPtr => vec![Param::Ptr, Param::Reg, Param::Reg],
            Opcode::MovR => vec![Param::Addr16, Param::Addr16],
            Opcode::SetRamFrame | Opcode::SetStackFrame | Opcode::SaveRegisters
            | Opcode::LodRegisters | Opcode::SetTimeout | Opcode::CallPgrm
            | Opcode::SetPgrmStart | Opcode::SetRamSize | Opcode::SetPgrmSize
            | Opcode::SetStackSize | Opcode::SaveFlags | Opcode::Zero | Opcode::LoadFlags
            | Opcode::JmpPtr | Opcode::JicPtr | Opcode::JncPtr | Opcode::JizPtr
            | Opcode::JnzPtr | Opcode::JiCryPtr | Opcode::JnCryPtr | Opcode::Psh
            | Opcode::Pop | Opcode::RetFramed | Opcode::SetStackPtr => vec![Param::Reg],
            Opcode::SetTimeoutAdd | Opcode::SetIntAddr | Opcode::SetFaultAddr
            | Opcode::Jmp | Opcode::Jic | Opcode::Jnc | Opcode::Jiz | Opcode::Jnz
            | Opcode::JiErr | Opcode::JnErr | Opcode::JiCry | Opcode::JnCry | Opcode::Call => vec![Param::Addr16],
            Opcode::Plot | Opcode::CpyRegionPtr | Opcode::ColorPtr | Opcode::Add
            | Opcode::Sub | Opcode::SubRev | Opcode::Mul | Opcode::Div | Opcode::Mod
            | Opcode::And | Opcode::Or | Opcode::Xor | Opcode::Pow | Opcode::Left
            | Opcode::Right | Opcode::RotLeft | Opcode::RotRight | Opcode::WritePtr
            | Opcode::LoadPtr => vec![Param::Reg, Param::Reg, Param::Reg],
            Opcode::ColorAt => vec![Param::Const16, Param::Const16, Param::Reg],
            Opcode::Place | Opcode::Solid => vec![Param::Reg, Param::Reg, Param::Reg, Param::Reg, Param::Reg],
            Opcode::AddImm | Opcode::SubImm | Opcode::SubRevImm | Opcode::MulImm
            | Opcode::DivImm | Opcode::ModImm | Opcode::AndImm | Opcode::OrImm
            | Opcode::XorImm | Opcode::PowImm | Opcode::LeftImm | Opcode::RightImm
            | Opcode::RotLeftImm | Opcode::RotRightImm => vec![Param::Reg, Param::Const16, Param::Reg],
            Opcode::PshCon | Opcode::RetConst => vec![Param::Const16],
            Opcode::IndexOffConst => vec![Param::Const16, Param::Reg],
            Opcode::PshPtr => vec![Param::Ptr],
            Opcode::Write | Opcode::Load => vec![Param::Addr32, Param::Reg],
            Opcode::WriteSeg | Opcode::LoadSeg => vec![Param::Reg, Param::Reg, Param::Reg, Param::Reg],
            Opcode::ReadIn | Opcode::WriteOut | Opcode::WriteOutFlag => vec![Param::Reg, Param::Const8],
            Opcode::ReadInFlag => vec![Param::Const8],
        }
    }

    /// Cycles charged when the instruction is fetched.
    pub open spec fn spec_cycle_cost(self) -> u16 {
        match self {
            Opcode::WriteSeg | Opcode::LoadSeg => 8,
            Opcode::MemCpyPtr | Opcode::CpyShown => 6,
            Opcode::MemCpy | Opcode::MemFill | Opcode::CpyRegionPtr | Opcode::Solid => 5,
            Opcode::MemComparePtr | Opcode::CpyRegion | Opcode::Place => 4,
            Opcode::MemCompare | Opcode::StoPtrOff | Opcode::GetPtrOff
            | Opcode::StoPtrOffPtr | Opcode::GetPtrOffPtr | Opcode::SaveRegisters
            | Opcode::LodRegisters | Opcode::ColorPtr | Opcode::Call | Opcode::Ret
            | Opcode::RetFramed | Opcode::SetStackPtr | Opcode::RetConst | Opcode::IndexPtr
            | Opcode::IndexOff | Opcode::IndexOffConst | Opcode::EditPtr | Opcode::PshPtr
            | Opcode::Write | Opcode::WritePtr => 3,
            Opcode::LdiPtr | Opcode::StoPtr | Opcode::GetPtr | Opcode::MovR | Opcode::Plot
            | Opcode::VBlank | Opcode::SwapFrameBuf | Opcode::ColorAt | Opcode::Jmp
            | Opcode::Jic | Opcode::Jnc | Opcode::Jiz | Opcode::Jnz | Opcode::JiErr
            | Opcode::JnErr | Opcode::JiCry | Opcode::JnCry | Opcode::JmpPtr
            | Opcode::JicPtr | Opcode::JncPtr | Opcode::JizPtr | Opcode::JnzPtr
            | Opcode::JiCryPtr | Opcode::JnCryPtr | Opcode::Psh | Opcode::Pop
            | Opcode::Index | Opcode::Edit | Opcode::Load | Opcode::LoadPtr => 2,
            _ => 1,
        }
    }

    /// Cycles charged when the instruction is fetched.
    #[verifier::when_used_as_spec(spec_cycle_cost)]
    pub fn cycle_cost(self) -> (c: u16)
        ensures
            c == self.spec_cycle_cost(),
    {
        match self {
            Opcode::WriteSeg | Opcode::LoadSeg => 8,
            Opcode::MemCpyPtr | Opcode::CpyShown => 6,
            Opcode::MemCpy | Opcode::MemFill | Opcode::CpyRegionPtr | Opcode::Solid => 5,
            Opcode::MemComparePtr | Opcode::CpyRegion | Opcode::Place => 4,
            Opcode::MemCompare | Opcode::StoPtrOff | Opcode::GetPtrOff
            | Opcode::StoPtrOffPtr | Opcode::GetPtrOffPtr | Opcode::SaveRegisters
            | Opcode::LodRegisters | Opcode::ColorPtr | Opcode::Call | Opcode::Ret
            | Opcode::RetFramed | Opcode::SetStackPtr | Opcode::RetConst | Opcode::IndexPtr
            | Opcode::IndexOff | Opcode::IndexOffConst | Opcode::EditPtr | Opcode::PshPtr
            | Opcode::Write | Opcode::WritePtr => 3,
            Opcode::LdiPtr | Opcode::StoPtr | Opcode::GetPtr | Opcode::MovR | Opcode::Plot
            | Opcode::VBlank | Opcode::SwapFrameBuf | Opcode::ColorAt | Opcode::Jmp
            | Opcode::Jic | Opcode::Jnc | Opcode::Jiz | Opcode::Jnz | Opcode::JiErr
            | Opcode::JnErr | Opcode::JiCry | Opcode::JnCry | Opcode::JmpPtr
            | Opcode::JicPtr | Opcode::JncPtr | Opcode::JizPtr | Opcode::JnzPtr
            | Opcode::JiCryPtr | Opcode::JnCryPtr | Opcode::Psh | Opcode::Pop
            | Opcode::Index | Opcode::Edit | Opcode::Load | Opcode::LoadPtr => 2,
            _ => 1,
        }
    }
}

} // verus!
