//! The opcode table: one entry per instruction form, with the fixed bits of
//! its encoding and the fields of its operands, and the lookups into it.
//!
//! The order of the entries is their priority: a raw word decodes as the
//! first entry whose fixed bits it has. Mnemonics that are another
//! instruction under a second name (`clr`, `lsl`, `brlo`, ...) stand behind
//! the entry they repeat, so a lookup by word never gives them; a lookup by
//! mnemonic does. The short forms of `lds` and `sts`, which only the reduced
//! core has, share their encodings with `ldd` and `std` and stand behind
//! them.

use vstd::prelude::*;
use crate::constraint::Constraint;
use crate::error::Error;

verus! {

/// The mnemonics of the instruction set, and the tag of the synthetic
/// entries that stand outside it.
#[derive(Clone, Copy, Debug, PartialEq, Eq, Structural)]
#[allow(non_camel_case_types)]
pub enum Opcode {
    ADC,
    ADD,
    ADIW,
    AND,
    ANDI,
    ASR,
    BCLR,
    BLD,
    BRBC,
    BRBS,
    BRCC,
    BRCS,
    BREAK,
    BREQ,
    BRGE,
    BRHC,
    BRHS,
    BRID,
    BRIE,
    BRLO,
    BRLT,
    BRMI,
    BRNE,
    BRPL,
    BRSH,
    BRTC,
    BRTS,
    BRVC,
    BRVS,
    BSET,
    BST,
    CALL,
    CBI,
    CBR,
    CLC,
    CLH,
    CLI,
    CLN,
    CLR,
    CLS,
    CLT,
    CLV,
    CLZ,
    COM,
    CP,
    CPC,
    CPI,
    CPSE,
    DEC,
    DES,
    EICALL,
    EIJMP,
    ELPM,
    EOR,
    FMUL,
    FMULS,
    FMULSU,
    ICALL,
    IJMP,
    IN,
    INC,
    JMP,
    LAC,
    LAS,
    LAT,
    LD,
    LDD,
    LDI,
    LDS,
    LPM,
    LSL,
    LSR,
    MOV,
    MOVW,
    MUL,
    MULS,
    MULSU,
    NEG,
    NOP,
    OR,
    ORI,
    OUT,
    POP,
    PUSH,
    RCALL,
    RET,
    RETI,
    RJMP,
    ROL,
    ROR,
    SBC,
    SBCI,
    SBI,
    SBIC,
    SBIS,
    SBIW,
    SBR,
    SBRC,
    SBRS,
    SEC,
    SEH,
    SEI,
    SEN,
    SER,
    SES,
    SET,
    SEV,
    SEZ,
    SLEEP,
    SPM,
    ST,
    STD,
    STS,
    SUB,
    SUBI,
    SWAP,
    TST,
    WDR,
    XCH,
    /// A synthetic entry: raw data, the second word of a two-word
    /// instruction, or an empty flash cell. It holds the entry's identity.
    CUSTOM_INST(u32),
}

/// The field of one operand: the bits of the raw encoding that hold it and
/// the letter of its constraint.
#[derive(Clone, Copy, Debug, PartialEq, Eq, Structural)]
pub struct ConstraintMap {
    pub map: u32,
    pub constraint: char,
}

/// One instruction template.
#[derive(Debug)]
pub struct RawInst {
    pub opcode: &'static str,
    pub len: u8,
    pub name: Opcode,
    pub constraints: Option<Vec<ConstraintMap>>,
    pub bin_mask: u16,
    pub bin_opcode: u16,
    pub action: &'static str,
    pub description: &'static str,
}

/// The synthetic entries.
#[derive(Clone, Copy, Debug, PartialEq, Eq, Structural)]
pub enum CustomOpcodes {
    /// A word of raw data that no instruction matches.
    WORD,
    /// The second word of a two-word instruction.
    REMINDER,
    /// A flash cell that nothing was loaded into.
    EMPTY,
}

/// The number of entries in the table.
pub const OPCODE_COUNT: usize = 124;

/// The identity of the raw-data entry.
pub const WORD_ID: usize = 999;

/// The identity of the second-word entry.
pub const REMINDER_ID: usize = 998;

/// The identity of the empty-cell entry.
pub const EMPTY_ID: usize = 1000;

/// The bit pattern of each entry, most significant bit first: `0` and `1`
/// are fixed bits, any other character is a bit of an operand field.
pub const OPCODE_PATTERNS: [&'static str; 124] = [
    "1001010010001000", "1001010011011000", "1001010011111000", "1001010010101000",
    "1001010011001000", "1001010011101000", "1001010010111000", "1001010010011000",
    "1001010000001000", "1001010001011000", "1001010001111000", "1001010000101000",
    "1001010001001000", "1001010001101000", "1001010000111000", "1001010000011000",
    "100101001SSS1000", "100101000SSS1000", "1001010100001001", "1001010000001001",
    "1001010111001000", "1001000ddddd010+", "1001010111011000", "1001000ddddd011+",
    "0000000000000000", "1001010100001000", "1001010100011000", "1001010110001000",
    "1001010110011000", "1001010110101000", "1001010111101000", "10010101111+1000",
    "000111rdddddrrrr", "000011rdddddrrrr", "001000rdddddrrrr", "000101rdddddrrrr",
    "000001rdddddrrrr", "000100rdddddrrrr", "001001rdddddrrrr", "001011rdddddrrrr",
    "100111rdddddrrrr", "001010rdddddrrrr", "000010rdddddrrrr", "000110rdddddrrrr",
    "001001rdddddrrrr", "000011rdddddrrrr", "000111rdddddrrrr", "001000rdddddrrrr",
    "0111KKKKddddKKKK", "0111KKKKddddKKKK", "1110KKKKddddKKKK", "11101111dddd1111",
    "0110KKKKddddKKKK", "0110KKKKddddKKKK", "0011KKKKddddKKKK", "0100KKKKddddKKKK",
    "0101KKKKddddKKKK", "1111110rrrrr0sss", "1111111rrrrr0sss", "1111100ddddd0sss",
    "1111101ddddd0sss", "10110PPdddddPPPP", "10111PPrrrrrPPPP", "10010110KKddKKKK",
    "10010111KKddKKKK", "10011000pppppsss", "10011010pppppsss", "10011001pppppsss",
    "10011011pppppsss", "111101lllllll000", "111100lllllll000", "111100lllllll001",
    "111101lllllll100", "111101lllllll101", "111100lllllll101", "111101lllllll111",
    "111100lllllll111", "111100lllllll000", "111100lllllll100", "111100lllllll010",
    "111101lllllll001", "111101lllllll010", "111101lllllll000", "111101lllllll110",
    "111100lllllll110", "111101lllllll011", "111100lllllll011", "111101lllllllsss",
    "111100lllllllsss", "1101LLLLLLLLLLLL", "1100LLLLLLLLLLLL", "1001010hhhhh111h",
    "1001010hhhhh110h", "1001010rrrrr0101", "1001010rrrrr0000", "1001010rrrrr1010",
    "1001010rrrrr0011", "1001010rrrrr0110", "1001010rrrrr0001", "1001000rrrrr1111",
    "1001001rrrrr1111", "1001010rrrrr0111", "1001010rrrrr0010", "1001001rrrrr0100",
    "1001001rrrrr0101", "1001001rrrrr0110", "1001001rrrrr0111", "00000001ddddrrrr",
    "00000010ddddrrrr", "000000110ddd0rrr", "000000110ddd1rrr", "000000111ddd0rrr",
    "000000111ddd1rrr", "1001001ddddd0000", "1001000ddddd0000", "10o0oo0dddddbooo",
    "100!000dddddee-+", "10o0oo1rrrrrbooo", "100!001rrrrree-+", "10101kkkddddkkkk",
    "10100kkkddddkkkk", "1001010100011001", "1001010000011001", "10010100EEEE1011",
];

/// The length of each entry's encoding in 16-bit words.
pub const OPCODE_LENGTHS: [u8; 124] = [
    1, 1, 1, 1, 1, 1, 1, 1, 1, 1, 1, 1, 1, 1, 1, 1, 1, 1, 1, 1, 1, 1, 1, 1, 1, 1, 1, 1, 1, 1, 1,
    1, 1, 1, 1, 1, 1, 1, 1, 1, 1, 1, 1, 1, 1, 1, 1, 1, 1, 1, 1, 1, 1, 1, 1, 1, 1, 1, 1, 1, 1, 1,
    1, 1, 1, 1, 1, 1, 1, 1, 1, 1, 1, 1, 1, 1, 1, 1, 1, 1, 1, 1, 1, 1, 1, 1, 1, 1, 1, 1, 1, 2, 2,
    1, 1, 1, 1, 1, 1, 1, 1, 1, 1, 1, 1, 1, 1, 1, 1, 1, 1, 1, 1, 2, 2, 1, 1, 1, 1, 1, 1, 1, 1, 1,
];

/// The mnemonic of each entry.
pub const OPCODE_NAMES: [Opcode; 124] = [
    Opcode::CLC, Opcode::CLH, Opcode::CLI, Opcode::CLN, Opcode::CLS, Opcode::CLT,
    Opcode::CLV, Opcode::CLZ, Opcode::SEC, Opcode::SEH, Opcode::SEI, Opcode::SEN,
    Opcode::SES, Opcode::SET, Opcode::SEV, Opcode::SEZ, Opcode::BCLR, Opcode::BSET,
    Opcode::ICALL, Opcode::IJMP, Opcode::LPM, Opcode::LPM, Opcode::ELPM, Opcode::ELPM,
    Opcode::NOP, Opcode::RET, Opcode::RETI, Opcode::SLEEP, Opcode::BREAK, Opcode::WDR,
    Opcode::SPM, Opcode::SPM, Opcode::ADC, Opcode::ADD, Opcode::AND, Opcode::CP,
    Opcode::CPC, Opcode::CPSE, Opcode::EOR, Opcode::MOV, Opcode::MUL, Opcode::OR,
    Opcode::SBC, Opcode::SUB, Opcode::CLR, Opcode::LSL, Opcode::ROL, Opcode::TST,
    Opcode::ANDI, Opcode::CBR, Opcode::LDI, Opcode::SER, Opcode::ORI, Opcode::SBR,
    Opcode::CPI, Opcode::SBCI, Opcode::SUBI, Opcode::SBRC, Opcode::SBRS, Opcode::BLD,
    Opcode::BST, Opcode::IN, Opcode::OUT, Opcode::ADIW, Opcode::SBIW, Opcode::CBI,
    Opcode::SBI, Opcode::SBIC, Opcode::SBIS, Opcode::BRCC, Opcode::BRCS, Opcode::BREQ,
    Opcode::BRGE, Opcode::BRHC, Opcode::BRHS, Opcode::BRID, Opcode::BRIE, Opcode::BRLO,
    Opcode::BRLT, Opcode::BRMI, Opcode::BRNE, Opcode::BRPL, Opcode::BRSH, Opcode::BRTC,
    Opcode::BRTS, Opcode::BRVC, Opcode::BRVS, Opcode::BRBC, Opcode::BRBS, Opcode::RCALL,
    Opcode::RJMP, Opcode::CALL, Opcode::JMP, Opcode::ASR, Opcode::COM, Opcode::DEC,
    Opcode::INC, Opcode::LSR, Opcode::NEG, Opcode::POP, Opcode::PUSH, Opcode::ROR,
    Opcode::SWAP, Opcode::XCH, Opcode::LAS, Opcode::LAC, Opcode::LAT, Opcode::MOVW,
    Opcode::MULS, Opcode::MULSU, Opcode::FMUL, Opcode::FMULS, Opcode::FMULSU, Opcode::STS,
    Opcode::LDS, Opcode::LDD, Opcode::LD, Opcode::STD, Opcode::ST, Opcode::STS,
    Opcode::LDS, Opcode::EICALL, Opcode::EIJMP, Opcode::DES,
];

/// The fixed bits of each entry's first word.
pub const OPCODE_MASKS: [u16; 124] = [
    0xffff, 0xffff, 0xffff, 0xffff, 0xffff, 0xffff, 0xffff, 0xffff,
    0xffff, 0xffff, 0xffff, 0xffff, 0xffff, 0xffff, 0xffff, 0xffff,
    0xff8f, 0xff8f, 0xffff, 0xffff, 0xffff, 0xfe0e, 0xffff, 0xfe0e,
    0xffff, 0xffff, 0xffff, 0xffff, 0xffff, 0xffff, 0xffff, 0xffef,
    0xfc00, 0xfc00, 0xfc00, 0xfc00, 0xfc00, 0xfc00, 0xfc00, 0xfc00,
    0xfc00, 0xfc00, 0xfc00, 0xfc00, 0xfc00, 0xfc00, 0xfc00, 0xfc00,
    0xf000, 0xf000, 0xf000, 0xff0f, 0xf000, 0xf000, 0xf000, 0xf000,
    0xf000, 0xfe08, 0xfe08, 0xfe08, 0xfe08, 0xf800, 0xf800, 0xff00,
    0xff00, 0xff00, 0xff00, 0xff00, 0xff00, 0xfc07, 0xfc07, 0xfc07,
    0xfc07, 0xfc07, 0xfc07, 0xfc07, 0xfc07, 0xfc07, 0xfc07, 0xfc07,
    0xfc07, 0xfc07, 0xfc07, 0xfc07, 0xfc07, 0xfc07, 0xfc07, 0xfc00,
    0xfc00, 0xf000, 0xf000, 0xfe0e, 0xfe0e, 0xfe0f, 0xfe0f, 0xfe0f,
    0xfe0f, 0xfe0f, 0xfe0f, 0xfe0f, 0xfe0f, 0xfe0f, 0xfe0f, 0xfe0f,
    0xfe0f, 0xfe0f, 0xfe0f, 0xff00, 0xff00, 0xff88, 0xff88, 0xff88,
    0xff88, 0xfe0f, 0xfe0f, 0xd200, 0xee00, 0xd200, 0xee00, 0xf800,
    0xf800, 0xffff, 0xffff, 0xff0f,
];

/// The value of the fixed bits of each entry's first word.
pub const OPCODE_BITS: [u16; 124] = [
    0x9488, 0x94d8, 0x94f8, 0x94a8, 0x94c8, 0x94e8, 0x94b8, 0x9498,
    0x9408, 0x9458, 0x9478, 0x9428, 0x9448, 0x9468, 0x9438, 0x9418,
    0x9488, 0x9408, 0x9509, 0x9409, 0x95c8, 0x9004, 0x95d8, 0x9006,
    0x0000, 0x9508, 0x9518, 0x9588, 0x9598, 0x95a8, 0x95e8, 0x95e8,
    0x1c00, 0x0c00, 0x2000, 0x1400, 0x0400, 0x1000, 0x2400, 0x2c00,
    0x9c00, 0x2800, 0x0800, 0x1800, 0x2400, 0x0c00, 0x1c00, 0x2000,
    0x7000, 0x7000, 0xe000, 0xef0f, 0x6000, 0x6000, 0x3000, 0x4000,
    0x5000, 0xfc00, 0xfe00, 0xf800, 0xfa00, 0xb000, 0xb800, 0x9600,
    0x9700, 0x9800, 0x9a00, 0x9900, 0x9b00, 0xf400, 0xf000, 0xf001,
    0xf404, 0xf405, 0xf005, 0xf407, 0xf007, 0xf000, 0xf004, 0xf002,
    0xf401, 0xf402, 0xf400, 0xf406, 0xf006, 0xf403, 0xf003, 0xf400,
    0xf000, 0xd000, 0xc000, 0x940e, 0x940c, 0x9405, 0x9400, 0x940a,
    0x9403, 0x9406, 0x9401, 0x900f, 0x920f, 0x9407, 0x9402, 0x9204,
    0x9205, 0x9206, 0x9207, 0x0100, 0x0200, 0x0300, 0x0308, 0x0380,
    0x0388, 0x9200, 0x9000, 0x8000, 0x8000, 0x8200, 0x8200, 0xa800,
    0xa000, 0x9519, 0x9419, 0x940b,
];

/// How many operands each entry has.
pub const OPERAND_COUNTS: [u8; 124] = [
    0, 0, 0, 0, 0, 0, 0, 0, 0, 0, 0, 0, 0, 0, 0, 0, 1, 1, 0, 0, 0, 2, 0, 2, 0, 0, 0, 0, 0, 0, 0,
    1, 2, 2, 2, 2, 2, 2, 2, 2, 2, 2, 2, 2, 1, 1, 1, 1, 2, 2, 2, 1, 2, 2, 2, 2, 2, 2, 2, 2, 2, 2,
    2, 2, 2, 2, 2, 2, 2, 1, 1, 1, 1, 1, 1, 1, 1, 1, 1, 1, 1, 1, 1, 1, 1, 1, 1, 2, 2, 1, 1, 1, 1,
    1, 1, 1, 1, 1, 1, 1, 1, 1, 1, 2, 2, 2, 2, 2, 2, 2, 2, 2, 2, 2, 2, 3, 3, 3, 3, 2, 2, 0, 0, 1,
];

/// The constraint letter of each operand, in the order of the operand list;
/// a blank fills the unused places.
pub const OPERAND_KINDS: [[char; 3]; 124] = [
    [' ', ' ', ' '], [' ', ' ', ' '], [' ', ' ', ' '], [' ', ' ', ' '],
    [' ', ' ', ' '], [' ', ' ', ' '], [' ', ' ', ' '], [' ', ' ', ' '],
    [' ', ' ', ' '], [' ', ' ', ' '], [' ', ' ', ' '], [' ', ' ', ' '],
    [' ', ' ', ' '], [' ', ' ', ' '], [' ', ' ', ' '], [' ', ' ', ' '],
    ['S', ' ', ' '], ['S', ' ', ' '], [' ', ' ', ' '], [' ', ' ', ' '],
    [' ', ' ', ' '], ['r', 'z', ' '], [' ', ' ', ' '], ['r', 'z', ' '],
    [' ', ' ', ' '], [' ', ' ', ' '], [' ', ' ', ' '], [' ', ' ', ' '],
    [' ', ' ', ' '], [' ', ' ', ' '], [' ', ' ', ' '], ['z', ' ', ' '],
    ['r', 'r', ' '], ['r', 'r', ' '], ['r', 'r', ' '], ['r', 'r', ' '],
    ['r', 'r', ' '], ['r', 'r', ' '], ['r', 'r', ' '], ['r', 'r', ' '],
    ['r', 'r', ' '], ['r', 'r', ' '], ['r', 'r', ' '], ['r', 'r', ' '],
    ['r', ' ', ' '], ['r', ' ', ' '], ['r', ' ', ' '], ['r', ' ', ' '],
    ['d', 'M', ' '], ['d', 'n', ' '], ['d', 'M', ' '], ['d', ' ', ' '],
    ['d', 'M', ' '], ['d', 'M', ' '], ['d', 'M', ' '], ['d', 'M', ' '],
    ['d', 'M', ' '], ['r', 's', ' '], ['r', 's', ' '], ['r', 's', ' '],
    ['r', 's', ' '], ['r', 'P', ' '], ['P', 'r', ' '], ['w', 'K', ' '],
    ['w', 'K', ' '], ['p', 's', ' '], ['p', 's', ' '], ['p', 's', ' '],
    ['p', 's', ' '], ['l', ' ', ' '], ['l', ' ', ' '], ['l', ' ', ' '],
    ['l', ' ', ' '], ['l', ' ', ' '], ['l', ' ', ' '], ['l', ' ', ' '],
    ['l', ' ', ' '], ['l', ' ', ' '], ['l', ' ', ' '], ['l', ' ', ' '],
    ['l', ' ', ' '], ['l', ' ', ' '], ['l', ' ', ' '], ['l', ' ', ' '],
    ['l', ' ', ' '], ['l', ' ', ' '], ['l', ' ', ' '], ['s', 'l', ' '],
    ['s', 'l', ' '], ['L', ' ', ' '], ['L', ' ', ' '], ['h', ' ', ' '],
    ['h', ' ', ' '], ['r', ' ', ' '], ['r', ' ', ' '], ['r', ' ', ' '],
    ['r', ' ', ' '], ['r', ' ', ' '], ['r', ' ', ' '], ['r', ' ', ' '],
    ['r', ' ', ' '], ['r', ' ', ' '], ['r', ' ', ' '], ['z', 'r', ' '],
    ['z', 'r', ' '], ['z', 'r', ' '], ['z', 'r', ' '], ['v', 'v', ' '],
    ['d', 'd', ' '], ['a', 'a', ' '], ['a', 'a', ' '], ['a', 'a', ' '],
    ['a', 'a', ' '], ['i', 'r', ' '], ['r', 'i', ' '], ['r', 'o', 'b'],
    ['r', 'c', 'e'], ['o', 'r', 'b'], ['c', 'r', 'e'], ['j', 'd', ' '],
    ['d', 'j', ' '], [' ', ' ', ' '], [' ', ' ', ' '], ['E', ' ', ' '],
];

/// The bits of the raw encoding that hold each operand; for an entry of two
/// words the first word stands in the upper half.
pub const OPERAND_MASKS: [[u32; 3]; 124] = [
    [0, 0, 0], [0, 0, 0], [0, 0, 0],
    [0, 0, 0], [0, 0, 0], [0, 0, 0],
    [0, 0, 0], [0, 0, 0], [0, 0, 0],
    [0, 0, 0], [0, 0, 0], [0, 0, 0],
    [0, 0, 0], [0, 0, 0], [0, 0, 0],
    [0, 0, 0], [0x70, 0, 0], [0x70, 0, 0],
    [0, 0, 0], [0, 0, 0], [0, 0, 0],
    [0x1f0, 0x1, 0], [0, 0, 0], [0x1f0, 0x1, 0],
    [0, 0, 0], [0, 0, 0], [0, 0, 0],
    [0, 0, 0], [0, 0, 0], [0, 0, 0],
    [0, 0, 0], [0x10, 0, 0], [0x1f0, 0x20f, 0],
    [0x1f0, 0x20f, 0], [0x1f0, 0x20f, 0], [0x1f0, 0x20f, 0],
    [0x1f0, 0x20f, 0], [0x1f0, 0x20f, 0], [0x1f0, 0x20f, 0],
    [0x1f0, 0x20f, 0], [0x1f0, 0x20f, 0], [0x1f0, 0x20f, 0],
    [0x1f0, 0x20f, 0], [0x1f0, 0x20f, 0], [0x1f0, 0, 0],
    [0x1f0, 0, 0], [0x1f0, 0, 0], [0x1f0, 0, 0],
    [0xf0, 0xf0f, 0], [0xf0, 0xf0f, 0], [0xf0, 0xf0f, 0],
    [0xf0, 0, 0], [0xf0, 0xf0f, 0], [0xf0, 0xf0f, 0],
    [0xf0, 0xf0f, 0], [0xf0, 0xf0f, 0], [0xf0, 0xf0f, 0],
    [0x1f0, 0x7, 0], [0x1f0, 0x7, 0], [0x1f0, 0x7, 0],
    [0x1f0, 0x7, 0], [0x1f0, 0x60f, 0], [0x60f, 0x1f0, 0],
    [0x30, 0xcf, 0], [0x30, 0xcf, 0], [0xf8, 0x7, 0],
    [0xf8, 0x7, 0], [0xf8, 0x7, 0], [0xf8, 0x7, 0],
    [0x3f8, 0, 0], [0x3f8, 0, 0], [0x3f8, 0, 0],
    [0x3f8, 0, 0], [0x3f8, 0, 0], [0x3f8, 0, 0],
    [0x3f8, 0, 0], [0x3f8, 0, 0], [0x3f8, 0, 0],
    [0x3f8, 0, 0], [0x3f8, 0, 0], [0x3f8, 0, 0],
    [0x3f8, 0, 0], [0x3f8, 0, 0], [0x3f8, 0, 0],
    [0x3f8, 0, 0], [0x3f8, 0, 0], [0x3f8, 0, 0],
    [0x7, 0x3f8, 0], [0x7, 0x3f8, 0], [0xfff, 0, 0],
    [0xfff, 0, 0], [0x1f1ffff, 0, 0], [0x1f1ffff, 0, 0],
    [0x1f0, 0, 0], [0x1f0, 0, 0], [0x1f0, 0, 0],
    [0x1f0, 0, 0], [0x1f0, 0, 0], [0x1f0, 0, 0],
    [0x1f0, 0, 0], [0x1f0, 0, 0], [0x1f0, 0, 0],
    [0x1f0, 0, 0], [0, 0x1f0, 0], [0, 0x1f0, 0],
    [0, 0x1f0, 0], [0, 0x1f0, 0], [0xf0, 0xf, 0],
    [0xf0, 0xf, 0], [0x70, 0x7, 0], [0x70, 0x7, 0],
    [0x70, 0x7, 0], [0x70, 0x7, 0], [0xffff, 0x1f00000, 0],
    [0x1f00000, 0xffff, 0], [0x1f0, 0x2c07, 0x8], [0x1f0, 0x3, 0xc],
    [0x2c07, 0x1f0, 0x8], [0x3, 0x1f0, 0xc], [0x70f, 0xf0, 0],
    [0xf0, 0x70f, 0], [0, 0, 0], [0, 0, 0],
    [0xf0, 0, 0],
];

/// What each entry does, in register-transfer notation.
pub const OPCODE_ACTIONS: [&'static str; 124] = [
    "C <- 0",
    "H <- 0",
    "I <- 0",
    "N <- 0",
    "S <- 0",
    "T <- 0",
    "V <- 0",
    "Z <- 0",
    "C <- 1",
    "H <- 1",
    "I <- 1",
    "N <- 1",
    "S <- 1",
    "T <- 1",
    "V <- 1",
    "Z <- 1",
    "SREG(s) <- 0",
    "SREG(s) <- 1",
    "PC <- Z",
    "PC <- Z",
    "R0 <- (Z)",
    "Rd <- (Z)",
    "R0 <- (RAMPZ:Z)",
    "Rd <- (RAMPZ:Z)",
    "",
    "PC <- STACK",
    "PC <- STACK",
    "",
    "",
    "",
    "(Z) <- R1:R0",
    "(Z) <- R1:R0",
    "Rd <- Rd + Rr + C",
    "Rd <- Rd + Rr",
    "Rd <- Rd & Rr",
    "Rd - Rr",
    "Rd - Rr - C",
    "if (Rd = Rr) PC <- PC + 2 or 3",
    "Rd <- Rd ^ Rr",
    "Rd <- Rr",
    "R1:R0 <- Rd x Rr",
    "Rd <- Rd | Rr",
    "Rd <- Rd - Rr - C",
    "Rd <- Rd - Rr",
    "Rd <- Rd ^ Rd",
    "Rd <- Rd << 1",
    "Rd <- Rd << 1 | C",
    "Rd <- Rd & Rd",
    "Rd <- Rd & K",
    "Rd <- Rd & (0xFF - K)",
    "Rd <- K",
    "Rd <- 0xFF",
    "Rd <- Rd | K",
    "Rd <- Rd | K",
    "Rd - K",
    "Rd <- Rd - K - C",
    "Rd <- Rd - K",
    "if (Rr(b) = 0) PC <- PC + 2 or 3",
    "if (Rr(b) = 1) PC <- PC + 2 or 3",
    "Rd(b) <- T",
    "T <- Rd(b)",
    "Rd <- I/O(A)",
    "I/O(A) <- Rr",
    "Rd+1:Rd <- Rd+1:Rd + K",
    "Rd+1:Rd <- Rd+1:Rd - K",
    "I/O(A, b) <- 0",
    "I/O(A, b) <- 1",
    "if (I/O(A, b) = 0) PC <- PC + 2 or 3",
    "if (I/O(A, b) = 1) PC <- PC + 2 or 3",
    "if (C = 0) PC <- PC + k + 1",
    "if (C = 1) PC <- PC + k + 1",
    "if (Z = 1) PC <- PC + k + 1",
    "if (S = 0) PC <- PC + k + 1",
    "if (H = 0) PC <- PC + k + 1",
    "if (H = 1) PC <- PC + k + 1",
    "if (I = 0) PC <- PC + k + 1",
    "if (I = 1) PC <- PC + k + 1",
    "if (C = 1) PC <- PC + k + 1",
    "if (S = 1) PC <- PC + k + 1",
    "if (N = 1) PC <- PC + k + 1",
    "if (Z = 0) PC <- PC + k + 1",
    "if (N = 0) PC <- PC + k + 1",
    "if (C = 0) PC <- PC + k + 1",
    "if (T = 0) PC <- PC + k + 1",
    "if (T = 1) PC <- PC + k + 1",
    "if (V = 0) PC <- PC + k + 1",
    "if (V = 1) PC <- PC + k + 1",
    "if (SREG(s) = 0) PC <- PC + k + 1",
    "if (SREG(s) = 1) PC <- PC + k + 1",
    "PC <- PC + k + 1",
    "PC <- PC + k + 1",
    "PC <- k",
    "PC <- k",
    "Rd(n) <- Rd(n+1), n = 0..6",
    "Rd <- 0xFF - Rd",
    "Rd <- Rd - 1",
    "Rd <- Rd + 1",
    "Rd <- Rd >> 1",
    "Rd <- 0x00 - Rd",
    "Rd <- STACK",
    "STACK <- Rr",
    "Rd <- C:Rd >> 1",
    "Rd(3..0) <-> Rd(7..4)",
    "(Z) <- Rd, Rd <- (Z)",
    "(Z) <- Rd | (Z), Rd <- (Z)",
    "(Z) <- (0xFF - Rd) & (Z), Rd <- (Z)",
    "(Z) <- Rd ^ (Z), Rd <- (Z)",
    "Rd+1:Rd <- Rr+1:Rr",
    "R1:R0 <- Rd x Rr",
    "R1:R0 <- Rd x Rr",
    "R1:R0 <- Rd x Rr << 1",
    "R1:R0 <- Rd x Rr << 1",
    "R1:R0 <- Rd x Rr << 1",
    "(k) <- Rr",
    "Rd <- (k)",
    "Rd <- (Y or Z + q)",
    "Rd <- (X, Y or Z)",
    "(Y or Z + q) <- Rr",
    "(X, Y or Z) <- Rr",
    "(k) <- Rr",
    "Rd <- (k)",
    "PC <- EIND:Z",
    "PC <- EIND:Z",
    "",
];

/// The name of each entry's instruction in words.
pub const OPCODE_DESCRIPTIONS: [&'static str; 124] = [
    "Clear Carry Flag",
    "Clear Half Carry Flag",
    "Clear Global Interrupt Flag",
    "Clear Negative Flag",
    "Clear Sign Flag",
    "Clear Transfer Flag",
    "Clear Overflow Flag",
    "Clear Zero Flag",
    "Set Carry Flag",
    "Set Half Carry Flag",
    "Set Global Interrupt Flag",
    "Set Negative Flag",
    "Set Sign Flag",
    "Set Transfer Flag",
    "Set Overflow Flag",
    "Set Zero Flag",
    "Bit Clear in SREG",
    "Bit Set in SREG",
    "Indirect Call to Subroutine",
    "Indirect Jump",
    "Load Program Memory",
    "Load Program Memory",
    "Extended Load Program Memory",
    "Extended Load Program Memory",
    "No Operation",
    "Subroutine Return",
    "Interrupt Return",
    "Sleep",
    "Break",
    "Watchdog Reset",
    "Store Program Memory",
    "Store Program Memory",
    "Add with Carry",
    "Add without Carry",
    "Logical AND",
    "Compare",
    "Compare with Carry",
    "Compare, Skip if Equal",
    "Exclusive OR",
    "Copy Register",
    "Multiply Unsigned",
    "Logical OR",
    "Subtract with Carry",
    "Subtract without Carry",
    "Clear Register",
    "Logical Shift Left",
    "Rotate Left through Carry",
    "Test for Zero or Minus",
    "Logical AND with Immediate",
    "Clear Bits in Register",
    "Load Immediate",
    "Set all Bits in Register",
    "Logical OR with Immediate",
    "Set Bits in Register",
    "Compare with Immediate",
    "Subtract Immediate with Carry",
    "Subtract Immediate",
    "Skip if Bit in Register is Cleared",
    "Skip if Bit in Register is Set",
    "Bit Load from T to Register",
    "Bit Store from Register to T",
    "Load an I/O Location to Register",
    "Store Register to I/O Location",
    "Add Immediate to Word",
    "Subtract Immediate from Word",
    "Clear Bit in I/O Register",
    "Set Bit in I/O Register",
    "Skip if Bit in I/O Register is Cleared",
    "Skip if Bit in I/O Register is Set",
    "Branch if Carry Cleared",
    "Branch if Carry Set",
    "Branch if Equal",
    "Branch if Greater or Equal, Signed",
    "Branch if Half Carry Flag Cleared",
    "Branch if Half Carry Flag Set",
    "Branch if Interrupt Disabled",
    "Branch if Interrupt Enabled",
    "Branch if Lower",
    "Branch if Less Than, Signed",
    "Branch if Minus",
    "Branch if Not Equal",
    "Branch if Plus",
    "Branch if Same or Higher",
    "Branch if T Flag Cleared",
    "Branch if T Flag Set",
    "Branch if Overflow Flag is Cleared",
    "Branch if Overflow Flag is Set",
    "Branch if Status Flag Cleared",
    "Branch if Status Flag Set",
    "Relative Call to Subroutine",
    "Relative Jump",
    "Long Call to a Subroutine",
    "Jump",
    "Arithmetic Shift Right",
    "One's Complement",
    "Decrement",
    "Increment",
    "Logical Shift Right",
    "Two's Complement",
    "Pop Register from Stack",
    "Push Register on Stack",
    "Rotate Right through Carry",
    "Swap Nibbles",
    "Exchange",
    "Load and Set",
    "Load and Clear",
    "Load and Toggle",
    "Copy Register Word",
    "Multiply Signed",
    "Multiply Signed with Unsigned",
    "Fractional Multiply Unsigned",
    "Fractional Multiply Signed",
    "Fractional Multiply Signed with Unsigned",
    "Store Direct to Data Space",
    "Load Direct from Data Space",
    "Load Indirect with Displacement",
    "Load Indirect",
    "Store Indirect with Displacement",
    "Store Indirect",
    "Store Direct to Data Space",
    "Load Direct from Data Space",
    "Extended Indirect Call to Subroutine",
    "Extended Indirect Jump",
    "Data Encryption Standard",
];

/// Whether `word` has the fixed bits of entry `id`.
pub open spec fn matches_entry(word: u16, id: int) -> bool
    recommends
        0 <= id < 124,
{
    word & OPCODE_MASKS[id] == OPCODE_BITS[id]
}

/// The first entry at or after `from` that `word` matches.
pub open spec fn first_match_from(word: u16, from: nat) -> Option<usize>
    decreases 124 - from,
{
    if from >= 124 {
        None
    } else if matches_entry(word, from as int) {
        Some(from as usize)
    } else {
        first_match_from(word, from + 1)
    }
}

/// The entry that `word` decodes as.
pub open spec fn first_match(word: u16) -> Option<usize> {
    first_match_from(word, 0)
}

/// The first entry at or after `from` with the mnemonic `name`.
pub open spec fn first_named_from(name: Opcode, from: nat) -> Option<usize>
    decreases 124 - from,
{
    if from >= 124 {
        None
    } else if OPCODE_NAMES[from as int] == name {
        Some(from as usize)
    } else {
        first_named_from(name, from + 1)
    }
}

/// The first entry with the mnemonic `name`.
pub open spec fn first_named(name: Opcode) -> Option<usize> {
    first_named_from(name, 0)
}

/// The operand fields of entry `id`, in the order of the operand list.
pub open spec fn table_operands(id: int) -> Seq<ConstraintMap>
    recommends
        0 <= id < 124,
{
    Seq::new(OPERAND_COUNTS[id] as nat, |k: int| table_operand(id, k))
}

/// Operand field `k` of entry `id`.
pub open spec fn table_operand(id: int, k: int) -> ConstraintMap
    recommends
        0 <= id < 124,
        0 <= k < 3,
{
    ConstraintMap { map: OPERAND_MASKS[id][k], constraint: OPERAND_KINDS[id][k] }
}

/// Whether `id` is the identity of a synthetic entry.
pub open spec fn is_custom_id(id: int) -> bool {
    id == WORD_ID || id == REMINDER_ID || id == EMPTY_ID
}

/// The text that stands for a synthetic entry in a listing.
pub open spec fn custom_text(id: int) -> Seq<char> {
    if id == WORD_ID {
        ".word"@
    } else if id == REMINDER_ID {
        ".reminder"@
    } else {
        ".empty"@
    }
}

impl CustomOpcodes {
    /// The identity of this synthetic entry.
    pub open spec fn spec_id(self) -> usize {
        match self {
            CustomOpcodes::WORD => WORD_ID,
            CustomOpcodes::REMINDER => REMINDER_ID,
            CustomOpcodes::EMPTY => EMPTY_ID,
        }
    }

    /// The identity of this synthetic entry.
    pub fn id(self) -> (r: usize)
        ensures
            r == self.spec_id(),
            is_custom_id(r as int),
    {
        match self {
            CustomOpcodes::WORD => WORD_ID,
            CustomOpcodes::REMINDER => REMINDER_ID,
            CustomOpcodes::EMPTY => EMPTY_ID,
        }
    }

    /// The synthetic entry with identity `value`; an error for any other
    /// identity.
    pub fn try_from(value: usize) -> (r: Result<CustomOpcodes, Error>)
        ensures
            match r {
                Ok(c) => c.spec_id() == value,
                Err(e) => !is_custom_id(value as int) && e == (Error::UnknownInstruction {
                    id: value,
                }),
            },
    {
        if value == WORD_ID {
            Ok(CustomOpcodes::WORD)
        } else if value == REMINDER_ID {
            Ok(CustomOpcodes::REMINDER)
        } else if value == EMPTY_ID {
            Ok(CustomOpcodes::EMPTY)
        } else {
            Err(Error::UnknownInstruction { id: value })
        }
    }
}

impl RawInst {
    /// The operand fields, none where the entry has no list.
    pub open spec fn operands(self) -> Seq<ConstraintMap> {
        match self.constraints {
            Some(list) => list@,
            None => Seq::empty(),
        }
    }

    /// Whether this is entry `id` of the table.
    pub open spec fn is_entry(self, id: int) -> bool
        recommends
            0 <= id < 124,
    {
        &&& self.opcode@ == OPCODE_PATTERNS[id]@
        &&& self.len == OPCODE_LENGTHS[id]
        &&& self.name == OPCODE_NAMES[id]
        &&& self.operands() =~= table_operands(id)
        &&& (self.constraints is Some <==> OPERAND_COUNTS[id] > 0)
        &&& self.bin_mask == OPCODE_MASKS[id]
        &&& self.bin_opcode == OPCODE_BITS[id]
        &&& self.action@ == OPCODE_ACTIONS[id]@
        &&& self.description@ == OPCODE_DESCRIPTIONS[id]@
    }

    /// Whether this is the synthetic entry with identity `id`.
    pub open spec fn is_custom(self, id: int) -> bool {
        &&& self.opcode@ == custom_text(id)
        &&& self.len == 0
        &&& self.name == Opcode::CUSTOM_INST(id as u32)
        &&& self.constraints is None
        &&& self.bin_mask == 0xff
        &&& self.bin_opcode == 0
        &&& self.action@ == "nothing"@
        &&& self.description@ == "custom instruction (not executable)"@
    }

    /// Whether this is the entry, real or synthetic, with identity `id`.
    pub open spec fn has_id(self, id: int) -> bool {
        if 0 <= id < 124 {
            self.is_entry(id)
        } else {
            is_custom_id(id) && self.is_custom(id)
        }
    }

    /// The first entry of the table whose fixed bits `opcode` has, or `None`
    /// where no entry matches.
    pub fn get_inst_id_from_opcode_num(opcode: u16) -> (r: Option<usize>)
        ensures
            r == first_match(opcode),
            match r {
                Some(id) => id < 124 && matches_entry(opcode, id as int) && forall|j: int|
                    0 <= j < id ==> !matches_entry(opcode, j),
                None => forall|j: int| 0 <= j < 124 ==> !matches_entry(opcode, j),
            },
    {
        let mut i: usize = 0;
        while i < OPCODE_COUNT
            invariant
                i <= 124,
                first_match(opcode) == first_match_from(opcode, i as nat),
                forall|j: int| 0 <= j < i ==> !matches_entry(opcode, j),
            decreases 124 - i,
        {
            if opcode & OPCODE_MASKS[i] == OPCODE_BITS[i] {
                return Some(i);
            }
            i = i + 1;
        }
        None
    }

    /// The first entry of the table with the mnemonic `opcode`, or `None`
    /// where the table has none.
    pub fn get_inst_id_from_opcode(opcode: Opcode) -> (r: Option<usize>)
        ensures
            r == first_named(opcode),
            match r {
                Some(id) => id < 124 && OPCODE_NAMES[id as int] == opcode && forall|j: int|
                    0 <= j < id ==> OPCODE_NAMES[j] != opcode,
                None => forall|j: int| 0 <= j < 124 ==> OPCODE_NAMES[j] != opcode,
            },
    {
        let mut i: usize = 0;
        while i < OPCODE_COUNT
            invariant
                i <= 124,
                first_named(opcode) == first_named_from(opcode, i as nat),
                forall|j: int| 0 <= j < i ==> OPCODE_NAMES[j] != opcode,
            decreases 124 - i,
        {
            if OPCODE_NAMES[i] == opcode {
                return Some(i);
            }
            i = i + 1;
        }
        None
    }

    /// The entry with identity `id`: an entry of the table for an identity
    /// below its length, a synthetic entry for one of the three synthetic
    /// identities, and an error for any other.
    pub fn get_inst_from_id(id: usize) -> (r: Result<RawInst, Error>)
        ensures
            match r {
                Ok(inst) => inst.has_id(id as int),
                Err(e) => id >= 124 && !is_custom_id(id as int) && e == (Error::UnknownInstruction {
                    id,
                }),
            },
    {
        if id < OPCODE_COUNT {
            let count = OPERAND_COUNTS[id] as usize;
            assert(count <= 3) by {
                lemma_operand_counts(id as int);
            }
            let mut list: Vec<ConstraintMap> = Vec::new();
            let mut k: usize = 0;
            while k < count
                invariant
                    id < 124,
                    k <= count <= 3,
                    count == OPERAND_COUNTS[id as int],
                    list@.len() == k,
                    forall|j: int| 0 <= j < k ==> list@[j] == table_operand(id as int, j),
                decreases count - k,
            {
                list.push(ConstraintMap { map: OPERAND_MASKS[id][k], constraint: OPERAND_KINDS[id][k] });
                k = k + 1;
            }
            assert(list@ =~= table_operands(id as int));
            let constraints = if count == 0 {
                None
            } else {
                Some(list)
            };
            Ok(
                RawInst {
                    opcode: OPCODE_PATTERNS[id],
                    len: OPCODE_LENGTHS[id],
                    name: OPCODE_NAMES[id],
                    constraints,
                    bin_mask: OPCODE_MASKS[id],
                    bin_opcode: OPCODE_BITS[id],
                    action: OPCODE_ACTIONS[id],
                    description: OPCODE_DESCRIPTIONS[id],
                },
            )
        } else {
            match CustomOpcodes::try_from(id) {
                Err(e) => Err(e),
                Ok(custom) => {
                    let text = match custom {
                        CustomOpcodes::WORD => ".word",
                        CustomOpcodes::REMINDER => ".reminder",
                        CustomOpcodes::EMPTY => ".empty",
                    };
                    Ok(
                        RawInst {
                            opcode: text,
                            len: 0,
                            name: Opcode::CUSTOM_INST(id as u32),
                            constraints: None,
                            bin_mask: 0xff,
                            bin_opcode: 0,
                            action: "nothing",
                            description: "custom instruction (not executable)",
                        },
                    )
                },
            }
        }
    }
}

/// No entry has more than three operands, and each entry is one or two words
/// long.
pub(crate) proof fn lemma_operand_counts(id: int)
    requires
        0 <= id < 124,
    ensures
        OPERAND_COUNTS[id] <= 3,
        1 <= OPCODE_LENGTHS[id] <= 2,
{
}

/// Every operand of the table carries the letter of a constraint.
pub(crate) proof fn lemma_table_letters(id: int, k: int)
    requires
        0 <= id < 124,
        0 <= k < OPERAND_COUNTS[id],
    ensures
        Constraint::of_letter(table_operand(id, k).constraint) is Some,
{
}

/// The whole table, in the order of its entries.
pub fn opcode_list() -> (r: Vec<RawInst>)
    ensures
        r@.len() == 124,
        forall|id: int| 0 <= id < 124 ==> (#[trigger] r@[id]).is_entry(id),
{
    let mut list: Vec<RawInst> = Vec::new();
    let mut i: usize = 0;
    while i < OPCODE_COUNT
        invariant
            i <= 124,
            list@.len() == i,
            forall|id: int| 0 <= id < i ==> (#[trigger] list@[id]).is_entry(id),
        decreases 124 - i,
    {
        match RawInst::get_inst_from_id(i) {
            Ok(inst) => {
                list.push(inst);
            },
            Err(_) => {
                assert(false);
            },
        }
        i = i + 1;
    }
    list
}

} // verus!
