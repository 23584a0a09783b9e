use vstd::prelude::*;
use vstd::std_specs::convert::FromSpecImpl;

verus! {

/// `str::eq`: two string slices are equal exactly when they hold the same
/// characters in the same order.
#[verifier::external_body]
pub(crate) fn str_equals(a: &str, b: &str) -> (same: bool)
    ensures
        same == (a@ == b@),
{
    a == b
}

/// Operand names of the prefixed page: a bit index or an 8-bit location.
#[derive(Debug, Clone, Copy, PartialEq, Eq, Structural)]
pub enum PreOperands {
    N0,
    N1,
    N2,
    N3,
    N4,
    N5,
    N6,
    N7,
    A,
    B,
    C,
    D,
    E,
    H,
    HL,
    L,
    INVALID,
}

impl FromSpecImpl<String> for PreOperands {
    open spec fn obeys_from_spec() -> bool {
        true
    }

    open spec fn from_spec(operand: String) -> Self {
        if operand@ == "0"@ {
            Self::N0
        } else if operand@ == "1"@ {
            Self::N1
        } else if operand@ == "2"@ {
            Self::N2
        } else if operand@ == "3"@ {
            Self::N3
        } else if operand@ == "4"@ {
            Self::N4
        } else if operand@ == "5"@ {
            Self::N5
        } else if operand@ == "6"@ {
            Self::N6
        } else if operand@ == "7"@ {
            Self::N7
        } else if operand@ == "A"@ {
            Self::A
        } else if operand@ == "B"@ {
            Self::B
        } else if operand@ == "C"@ {
            Self::C
        } else if operand@ == "D"@ {
            Self::D
        } else if operand@ == "E"@ {
            Self::E
        } else if operand@ == "H"@ {
            Self::H
        } else if operand@ == "HL"@ {
            Self::HL
        } else if operand@ == "L"@ {
            Self::L
        } else {
            Self::INVALID
        }
    }
}

impl From<String> for PreOperands {
    fn from(operand: String) -> (tag: Self) {
        let text = operand.as_str();
        if str_equals(text, "0") {
            Self::N0
        } else if str_equals(text, "1") {
            Self::N1
        } else if str_equals(text, "2") {
            Self::N2
        } else if str_equals(text, "3") {
            Self::N3
        } else if str_equals(text, "4") {
            Self::N4
        } else if str_equals(text, "5") {
            Self::N5
        } else if str_equals(text, "6") {
            Self::N6
        } else if str_equals(text, "7") {
            Self::N7
        } else if str_equals(text, "A") {
            Self::A
        } else if str_equals(text, "B") {
            Self::B
        } else if str_equals(text, "C") {
            Self::C
        } else if str_equals(text, "D") {
            Self::D
        } else if str_equals(text, "E") {
            Self::E
        } else if str_equals(text, "H") {
            Self::H
        } else if str_equals(text, "HL") {
            Self::HL
        } else if str_equals(text, "L") {
            Self::L
        } else {
            Self::INVALID
        }
    }
}

/// Operand names of the unprefixed page.
#[allow(non_camel_case_types)]
#[derive(Debug, Clone, Copy, PartialEq, Eq, Structural)]
pub enum NopreOperands {
    X00,
    X08,
    X10,
    X18,
    X20,
    X28,
    X30,
    X38,
    A,
    AF,
    B,
    BC,
    C,
    D,
    DE,
    E,
    H,
    HL,
    L,
    NC,
    NZ,
    SP,
    Z,
    a16,
    a8,
    e8,
    n16,
    n8,
    INVALID,
}

impl FromSpecImpl<String> for NopreOperands {
    open spec fn obeys_from_spec() -> bool {
        true
    }

    open spec fn from_spec(operand: String) -> Self {
        if operand@ == "$00"@ {
            Self::X00
        } else if operand@ == "$08"@ {
            Self::X08
        } else if operand@ == "$10"@ {
            Self::X10
        } else if operand@ == "$18"@ {
            Self::X18
        } else if operand@ == "$20"@ {
            Self::X20
        } else if operand@ == "$28"@ {
            Self::X28
        } else if operand@ == "$30"@ {
            Self::X30
        } else if operand@ == "$38"@ {
            Self::X38
        } else if operand@ == "A"@ {
            Self::A
        } else if operand@ == "AF"@ {
            Self::AF
        } else if operand@ == "B"@ {
            Self::B
        } else if operand@ == "BC"@ {
            Self::BC
        } else if operand@ == "C"@ {
            Self::C
        } else if operand@ == "D"@ {
            Self::D
        } else if operand@ == "DE"@ {
            Self::DE
        } else if operand@ == "E"@ {
            Self::E
        } else if operand@ == "H"@ {
            Self::H
        } else if operand@ == "HL"@ {
            Self::HL
        } else if operand@ == "L"@ {
            Self::L
        } else if operand@ == "NC"@ {
            Self::NC
        } else if operand@ == "NZ"@ {
            Self::NZ
        } else if operand@ == "SP"@ {
            Self::SP
        } else if operand@ == "Z"@ {
            Self::Z
        } else if operand@ == "a16"@ {
            Self::a16
        } else if operand@ == "a8"@ {
            Self::a8
        } else if operand@ == "e8"@ {
            Self::e8
        } else if operand@ == "n16"@ {
            Self::n16
        } else if operand@ == "n8"@ {
            Self::n8
        } else {
            Self::INVALID
        }
    }
}

impl From<String> for NopreOperands {
    fn from(operand: String) -> (tag: Self) {
        let text = operand.as_str();
        if str_equals(text, "$00") {
            Self::X00
        } else if str_equals(text, "$08") {
            Self::X08
        } else if str_equals(text, "$10") {
            Self::X10
        } else if str_equals(text, "$18") {
            Self::X18
        } else if str_equals(text, "$20") {
            Self::X20
        } else if str_equals(text, "$28") {
            Self::X28
        } else if str_equals(text, "$30") {
            Self::X30
        } else if str_equals(text, "$38") {
            Self::X38
        } else if str_equals(text, "A") {
            Self::A
        } else if str_equals(text, "AF") {
            Self::AF
        } else if str_equals(text, "B") {
            Self::B
        } else if str_equals(text, "BC") {
            Self::BC
        } else if str_equals(text, "C") {
            Self::C
        } else if str_equals(text, "D") {
            Self::D
        } else if str_equals(text, "DE") {
            Self::DE
        } else if str_equals(text, "E") {
            Self::E
        } else if str_equals(text, "H") {
            Self::H
        } else if str_equals(text, "HL") {
            Self::HL
        } else if str_equals(text, "L") {
            Self::L
        } else if str_equals(text, "NC") {
            Self::NC
        } else if str_equals(text, "NZ") {
            Self::NZ
        } else if str_equals(text, "SP") {
            Self::SP
        } else if str_equals(text, "Z") {
            Self::Z
        } else if str_equals(text, "a16") {
            Self::a16
        } else if str_equals(text, "a8") {
            Self::a8
        } else if str_equals(text, "e8") {
            Self::e8
        } else if str_equals(text, "n16") {
            Self::n16
        } else if str_equals(text, "n8") {
            Self::n8
        } else {
            Self::INVALID
        }
    }
}

/// Operation families of the prefixed page.
#[derive(Debug, Clone, Copy, PartialEq, Eq, Structural)]
pub enum PrefixOpcodeMnemonics {
    BIT,
    INVALID,
    RES,
    RL,
    RLC,
    RR,
    RRC,
    SET,
    SLA,
    SRA,
    SRL,
    SWAP,
}

impl FromSpecImpl<String> for PrefixOpcodeMnemonics {
    open spec fn obeys_from_spec() -> bool {
        true
    }

    open spec fn from_spec(mnemonic: String) -> Self {
        if mnemonic@ == "BIT"@ {
            Self::BIT
        } else if mnemonic@ == "RES"@ {
            Self::RES
        } else if mnemonic@ == "RL"@ {
            Self::RL
        } else if mnemonic@ == "RLC"@ {
            Self::RLC
        } else if mnemonic@ == "RR"@ {
            Self::RR
        } else if mnemonic@ == "RRC"@ {
            Self::RRC
        } else if mnemonic@ == "SET"@ {
            Self::SET
        } else if mnemonic@ == "SLA"@ {
            Self::SLA
        } else if mnemonic@ == "SRA"@ {
            Self::SRA
        } else if mnemonic@ == "SRL"@ {
            Self::SRL
        } else if mnemonic@ == "SWAP"@ {
            Self::SWAP
        } else {
            Self::INVALID
        }
    }
}

impl From<String> for PrefixOpcodeMnemonics {
    fn from(mnemonic: String) -> (tag: Self) {
        let text = mnemonic.as_str();
        if str_equals(text, "BIT") {
            Self::BIT
        } else if str_equals(text, "RES") {
            Self::RES
        } else if str_equals(text, "RL") {
            Self::RL
        } else if str_equals(text, "RLC") {
            Self::RLC
        } else if str_equals(text, "RR") {
            Self::RR
        } else if str_equals(text, "RRC") {
            Self::RRC
        } else if str_equals(text, "SET") {
            Self::SET
        } else if str_equals(text, "SLA") {
            Self::SLA
        } else if str_equals(text, "SRA") {
            Self::SRA
        } else if str_equals(text, "SRL") {
            Self::SRL
        } else if str_equals(text, "SWAP") {
            Self::SWAP
        } else {
            Self::INVALID
        }
    }
}

/// Operation families of the unprefixed page.
#[derive(Debug, Clone, Copy, PartialEq, Eq, Structural)]
pub enum NopreOpcodeMnemonics {
    ADC,
    ADD,
    AND,
    CALL,
    CCF,
    CP,
    CPL,
    DAA,
    DEC,
    DI,
    EI,
    HALT,
    INC,
    IllegalD3,
    IllegalDb,
    IllegalDd,
    IllegalE3,
    IllegalE4,
    IllegalEb,
    IllegalEc,
    IllegalEd,
    IllegalF4,
    IllegalFc,
    IllegalFd,
    JP,
    JR,
    LD,
    LDH,
    NOP,
    OR,
    POP,
    PREFIX,
    PUSH,
    RET,
    RETI,
    RLA,
    RLCA,
    RRA,
    RRCA,
    RST,
    SBC,
    SCF,
    STOP,
    SUB,
    XOR,
    INVALID,
}

impl FromSpecImpl<String> for NopreOpcodeMnemonics {
    open spec fn obeys_from_spec() -> bool {
        true
    }

    open spec fn from_spec(mnemonic: String) -> Self {
        if mnemonic@ == "ADC"@ {
            Self::ADC
        } else if mnemonic@ == "ADD"@ {
            Self::ADD
        } else if mnemonic@ == "AND"@ {
            Self::AND
        } else if mnemonic@ == "CALL"@ {
            Self::CALL
        } else if mnemonic@ == "CCF"@ {
            Self::CCF
        } else if mnemonic@ == "CP"@ {
            Self::CP
        } else if mnemonic@ == "CPL"@ {
            Self::CPL
        } else if mnemonic@ == "DAA"@ {
            Self::DAA
        } else if mnemonic@ == "DEC"@ {
            Self::DEC
        } else if mnemonic@ == "DI"@ {
            Self::DI
        } else if mnemonic@ == "EI"@ {
            Self::EI
        } else if mnemonic@ == "HALT"@ {
            Self::HALT
        } else if mnemonic@ == "ILLEGAL_D3"@ {
            Self::IllegalD3
        } else if mnemonic@ == "ILLEGAL_DB"@ {
            Self::IllegalDb
        } else if mnemonic@ == "ILLEGAL_DD"@ {
            Self::IllegalDd
        } else if mnemonic@ == "ILLEGAL_E3"@ {
            Self::IllegalE3
        } else if mnemonic@ == "ILLEGAL_E4"@ {
            Self::IllegalE4
        } else if mnemonic@ == "ILLEGAL_EB"@ {
            Self::IllegalEb
        } else if mnemonic@ == "ILLEGAL_EC"@ {
            Self::IllegalEc
        } else if mnemonic@ == "ILLEGAL_ED"@ {
            Self::IllegalEd
        } else if mnemonic@ == "ILLEGAL_F4"@ {
            Self::IllegalF4
        } else if mnemonic@ == "ILLEGAL_FC"@ {
            Self::IllegalFc
        } else if mnemonic@ == "ILLEGAL_FD"@ {
            Self::IllegalFd
        } else if mnemonic@ == "INC"@ {
            Self::INC
        } else if mnemonic@ == "JP"@ {
            Self::JP
        } else if mnemonic@ == "JR"@ {
            Self::JR
        } else if mnemonic@ == "LD"@ {
            Self::LD
        } else if mnemonic@ == "LDH"@ {
            Self::LDH
        } else if mnemonic@ == "NOP"@ {
            Self::NOP
        } else if mnemonic@ == "OR"@ {
            Self::OR
        } else if mnemonic@ == "POP"@ {
            Self::POP
        } else if mnemonic@ == "PREFIX"@ {
            Self::PREFIX
        } else if mnemonic@ == "PUSH"@ {
            Self::PUSH
        } else if mnemonic@ == "RET"@ {
            Self::RET
        } else if mnemonic@ == "RETI"@ {
            Self::RETI
        } else if mnemonic@ == "RLA"@ {
            Self::RLA
        } else if mnemonic@ == "RLCA"@ {
            Self::RLCA
        } else if mnemonic@ == "RRA"@ {
            Self::RRA
        } else if mnemonic@ == "RRCA"@ {
            Self::RRCA
        } else if mnemonic@ == "RST"@ {
            Self::RST
        } else if mnemonic@ == "SBC"@ {
            Self::SBC
        } else if mnemonic@ == "SCF"@ {
            Self::SCF
        } else if mnemonic@ == "STOP"@ {
            Self::STOP
        } else if mnemonic@ == "SUB"@ {
            Self::SUB
        } else if mnemonic@ == "XOR"@ {
            Self::XOR
        } else {
            Self::INVALID
        }
    }
}

impl From<String> for NopreOpcodeMnemonics {
    fn from(mnemonic: String) -> (tag: Self) {
        let text = mnemonic.as_str();
        if str_equals(text, "ADC") {
            Self::ADC
        } else if str_equals(text, "ADD") {
            Self::ADD
        } else if str_equals(text, "AND") {
            Self::AND
        } else if str_equals(text, "CALL") {
            Self::CALL
        } else if str_equals(text, "CCF") {
            Self::CCF
        } else if str_equals(text, "CP") {
            Self::CP
        } else if str_equals(text, "CPL") {
            Self::CPL
        } else if str_equals(text, "DAA") {
            Self::DAA
        } else if str_equals(text, "DEC") {
            Self::DEC
        } else if str_equals(text, "DI") {
            Self::DI
        } else if str_equals(text, "EI") {
            Self::EI
        } else if str_equals(text, "HALT") {
            Self::HALT
        } else if str_equals(text, "ILLEGAL_D3") {
            Self::IllegalD3
        } else if str_equals(text, "ILLEGAL_DB") {
            Self::IllegalDb
        } else if str_equals(text, "ILLEGAL_DD") {
            Self::IllegalDd
        } else if str_equals(text, "ILLEGAL_E3") {
            Self::IllegalE3
        } else if str_equals(text, "ILLEGAL_E4") {
            Self::IllegalE4
        } else if str_equals(text, "ILLEGAL_EB") {
            Self::IllegalEb
        } else if str_equals(text, "ILLEGAL_EC") {
            Self::IllegalEc
        } else if str_equals(text, "ILLEGAL_ED") {
            Self::IllegalEd
        } else if str_equals(text, "ILLEGAL_F4") {
            Self::IllegalF4
        } else if str_equals(text, "ILLEGAL_FC") {
            Self::IllegalFc
        } else if str_equals(text, "ILLEGAL_FD") {
            Self::IllegalFd
        } else if str_equals(text, "INC") {
            Self::INC
        } else if str_equals(text, "JP") {
            Self::JP
        } else if str_equals(text, "JR") {
            Self::JR
        } else if str_equals(text, "LD") {
            Self::LD
        } else if str_equals(text, "LDH") {
            Self::LDH
        } else if str_equals(text, "NOP") {
            Self::NOP
        } else if str_equals(text, "OR") {
            Self::OR
        } else if str_equals(text, "POP") {
            Self::POP
        } else if str_equals(text, "PREFIX") {
            Self::PREFIX
        } else if str_equals(text, "PUSH") {
            Self::PUSH
        } else if str_equals(text, "RET") {
            Self::RET
        } else if str_equals(text, "RETI") {
            Self::RETI
        } else if str_equals(text, "RLA") {
            Self::RLA
        } else if str_equals(text, "RLCA") {
            Self::RLCA
        } else if str_equals(text, "RRA") {
            Self::RRA
        } else if str_equals(text, "RRCA") {
            Self::RRCA
        } else if str_equals(text, "RST") {
            Self::RST
        } else if str_equals(text, "SBC") {
            Self::SBC
        } else if str_equals(text, "SCF") {
            Self::SCF
        } else if str_equals(text, "STOP") {
            Self::STOP
        } else if str_equals(text, "SUB") {
            Self::SUB
        } else if str_equals(text, "XOR") {
            Self::XOR
        } else {
            Self::INVALID
        }
    }
}

} // verus!
