//! The mnemonics of the 6502 instruction set.

use vstd::prelude::*;

verus! {

/// One of the 56 instruction names of the 6502.
#[derive(Debug, Clone, Copy, PartialEq, Eq, Structural)]
pub enum Mnemonic {
    /// Add with carry.
    ADC,
    /// Logical AND.
    AND,
    /// Arithmetic shift left.
    ASL,
    /// Branch if carry clear.
    BCC,
    /// Branch if carry set.
    BCS,
    /// Branch if equal.
    BEQ,
    /// Bit test.
    BIT,
    /// Branch if minus.
    BMI,
    /// Branch if not equal.
    BNE,
    /// Branch if positive.
    BPL,
    /// Force interrupt.
    BRK,
    /// Branch if overflow clear.
    BVC,
    /// Branch if overflow set.
    BVS,
    /// Clear carry flag.
    CLC,
    /// Clear decimal mode.
    CLD,
    /// Clear interrupt disable.
    CLI,
    /// Clear overflow flag.
    CLV,
    /// Compare with accumulator.
    CMP,
    /// Compare with X register.
    CPX,
    /// Compare with Y register.
    CPY,
    /// Decrement memory.
    DEC,
    /// Decrement X register.
    DEX,
    /// Decrement Y register.
    DEY,
    /// Exclusive OR.
    EOR,
    /// Increment memory.
    INC,
    /// Increment X register.
    INX,
    /// Increment Y register.
    INY,
    /// Jump.
    JMP,
    /// Jump to subroutine.
    JSR,
    /// Load accumulator.
    LDA,
    /// Load X register.
    LDX,
    /// Load Y register.
    LDY,
    /// Logical shift right.
    LSR,
    /// No operation.
    NOP,
    /// Logical inclusive OR.
    ORA,
    /// Push accumulator.
    PHA,
    /// Push processor status.
    PHP,
    /// Pull accumulator.
    PLA,
    /// Pull processor status.
    PLP,
    /// Rotate left.
    ROL,
    /// Rotate right.
    ROR,
    /// Return from interrupt.
    RTI,
    /// Return from subroutine.
    RTS,
    /// Subtract with carry.
    SBC,
    /// Set carry flag.
    SEC,
    /// Set decimal flag.
    SED,
    /// Set interrupt disable.
    SEI,
    /// Store accumulator.
    STA,
    /// Store X register.
    STX,
    /// Store Y register.
    STY,
    /// Transfer accumulator to X.
    TAX,
    /// Transfer accumulator to Y.
    TAY,
    /// Transfer stack pointer to X.
    TSX,
    /// Transfer X to accumulator.
    TXA,
    /// Transfer X to stack pointer.
    TXS,
    /// Transfer Y to accumulator.
    TYA,
}

impl Mnemonic {
    /// The mnemonic's three upper-case letters.
    pub open spec fn name_spec(self) -> Seq<char> {
        match self {
            Mnemonic::ADC => seq!['A', 'D', 'C'],
            Mnemonic::AND => seq!['A', 'N', 'D'],
            Mnemonic::ASL => seq!['A', 'S', 'L'],
            Mnemonic::BCC => seq!['B', 'C', 'C'],
            Mnemonic::BCS => seq!['B', 'C', 'S'],
            Mnemonic::BEQ => seq!['B', 'E', 'Q'],
            Mnemonic::BIT => seq!['B', 'I', 'T'],
            Mnemonic::BMI => seq!['B', 'M', 'I'],
            Mnemonic::BNE => seq!['B', 'N', 'E'],
            Mnemonic::BPL => seq!['B', 'P', 'L'],
            Mnemonic::BRK => seq!['B', 'R', 'K'],
            Mnemonic::BVC => seq!['B', 'V', 'C'],
            Mnemonic::BVS => seq!['B', 'V', 'S'],
            Mnemonic::CLC => seq!['C', 'L', 'C'],
            Mnemonic::CLD => seq!['C', 'L', 'D'],
            Mnemonic::CLI => seq!['C', 'L', 'I'],
            Mnemonic::CLV => seq!['C', 'L', 'V'],
            Mnemonic::CMP => seq!['C', 'M', 'P'],
            Mnemonic::CPX => seq!['C', 'P', 'X'],
            Mnemonic::CPY => seq!['C', 'P', 'Y'],
            Mnemonic::DEC => seq!['D', 'E', 'C'],
            Mnemonic::DEX => seq!['D', 'E', 'X'],
            Mnemonic::DEY => seq!['D', 'E', 'Y'],
            Mnemonic::EOR => seq!['E', 'O', 'R'],
            Mnemonic::INC => seq!['I', 'N', 'C'],
            Mnemonic::INX => seq!['I', 'N', 'X'],
            Mnemonic::INY => seq!['I', 'N', 'Y'],
            Mnemonic::JMP => seq!['J', 'M', 'P'],
            Mnemonic::JSR => seq!['J', 'S', 'R'],
            Mnemonic::LDA => seq!['L', 'D', 'A'],
            Mnemonic::LDX => seq!['L', 'D', 'X'],
            Mnemonic::LDY => seq!['L', 'D', 'Y'],
            Mnemonic::LSR => seq!['L', 'S', 'R'],
            Mnemonic::NOP => seq!['N', 'O', 'P'],
            Mnemonic::ORA => seq!['O', 'R', 'A'],
            Mnemonic::PHA => seq!['P', 'H', 'A'],
            Mnemonic::PHP => seq!['P', 'H', 'P'],
            Mnemonic::PLA => seq!['P', 'L', 'A'],
            Mnemonic::PLP => seq!['P', 'L', 'P'],
            Mnemonic::ROL => seq!['R', 'O', 'L'],
            Mnemonic::ROR => seq!['R', 'O', 'R'],
            Mnemonic::RTI => seq!['R', 'T', 'I'],
            Mnemonic::RTS => seq!['R', 'T', 'S'],
            Mnemonic::SBC => seq!['S', 'B', 'C'],
            Mnemonic::SEC => seq!['S', 'E', 'C'],
            Mnemonic::SED => seq!['S', 'E', 'D'],
            Mnemonic::SEI => seq!['S', 'E', 'I'],
            Mnemonic::STA => seq!['S', 'T', 'A'],
            Mnemonic::STX => seq!['S', 'T', 'X'],
            Mnemonic::STY => seq!['S', 'T', 'Y'],
            Mnemonic::TAX => seq!['T', 'A', 'X'],
            Mnemonic::TAY => seq!['T', 'A', 'Y'],
            Mnemonic::TSX => seq!['T', 'S', 'X'],
            Mnemonic::TXA => seq!['T', 'X', 'A'],
            Mnemonic::TXS => seq!['T', 'X', 'S'],
            Mnemonic::TYA => seq!['T', 'Y', 'A'],
        }
    }

    /// The mnemonic's three upper-case letters.
    pub fn name(self) -> (s: &'static str)
        ensures
            s@ == self.name_spec(),
    {
        let s = match self {
            Mnemonic::ADC => {
                proof {
                    reveal_strlit("ADC");
                }
                "ADC"
            },
            Mnemonic::AND => {
                proof {
                    reveal_strlit("AND");
                }
                "AND"
            },
            Mnemonic::ASL => {
                proof {
                    reveal_strlit("ASL");
                }
                "ASL"
            },
            Mnemonic::BCC => {
                proof {
                    reveal_strlit("BCC");
                }
                "BCC"
            },
            Mnemonic::BCS => {
                proof {
                    reveal_strlit("BCS");
                }
                "BCS"
            },
            Mnemonic::BEQ => {
                proof {
                    reveal_strlit("BEQ");
                }
                "BEQ"
            },
            Mnemonic::BIT => {
                proof {
                    reveal_strlit("BIT");
                }
                "BIT"
            },
            Mnemonic::BMI => {
                proof {
                    reveal_strlit("BMI");
                }
                "BMI"
            },
            Mnemonic::BNE => {
                proof {
                    reveal_strlit("BNE");
                }
                "BNE"
            },
            Mnemonic::BPL => {
                proof {
                    reveal_strlit("BPL");
                }
                "BPL"
            },
            Mnemonic::BRK => {
                proof {
                    reveal_strlit("BRK");
                }
                "BRK"
            },
            Mnemonic::BVC => {
                proof {
                    reveal_strlit("BVC");
                }
                "BVC"
            },
            Mnemonic::BVS => {
                proof {
                    reveal_strlit("BVS");
                }
                "BVS"
            },
            Mnemonic::CLC => {
                proof {
                    reveal_strlit("CLC");
                }
                "CLC"
            },
            Mnemonic::CLD => {
                proof {
                    reveal_strlit("CLD");
                }
                "CLD"
            },
            Mnemonic::CLI => {
                proof {
                    reveal_strlit("CLI");
                }
                "CLI"
            },
            Mnemonic::CLV => {
                proof {
                    reveal_strlit("CLV");
                }
                "CLV"
            },
            Mnemonic::CMP => {
                proof {
                    reveal_strlit("CMP");
                }
                "CMP"
            },
            Mnemonic::CPX => {
                proof {
                    reveal_strlit("CPX");
                }
                "CPX"
            },
            Mnemonic::CPY => {
                proof {
                    reveal_strlit("CPY");
                }
                "CPY"
            },
            Mnemonic::DEC => {
                proof {
                    reveal_strlit("DEC");
                }
                "DEC"
            },
            Mnemonic::DEX => {
                proof {
                    reveal_strlit("DEX");
                }
                "DEX"
            },
            Mnemonic::DEY => {
                proof {
                    reveal_strlit("DEY");
                }
                "DEY"
            },
            Mnemonic::EOR => {
                proof {
                    reveal_strlit("EOR");
                }
                "EOR"
            },
            Mnemonic::INC => {
                proof {
                    reveal_strlit("INC");
                }
                "INC"
            },
            Mnemonic::INX => {
                proof {
                    reveal_strlit("INX");
                }
                "INX"
            },
            Mnemonic::INY => {
                proof {
                    reveal_strlit("INY");
                }
                "INY"
            },
            Mnemonic::JMP => {
                proof {
                    reveal_strlit("JMP");
                }
                "JMP"
            },
            Mnemonic::JSR => {
                proof {
                    reveal_strlit("JSR");
                }
                "JSR"
            },
            Mnemonic::LDA => {
                proof {
                    reveal_strlit("LDA");
                }
                "LDA"
            },
            Mnemonic::LDX => {
                proof {
                    reveal_strlit("LDX");
                }
                "LDX"
            },
            Mnemonic::LDY => {
                proof {
                    reveal_strlit("LDY");
                }
                "LDY"
            },
            Mnemonic::LSR => {
                proof {
                    reveal_strlit("LSR");
                }
                "LSR"
            },
            Mnemonic::NOP => {
                proof {
                    reveal_strlit("NOP");
                }
                "NOP"
            },
            Mnemonic::ORA => {
                proof {
                    reveal_strlit("ORA");
                }
                "ORA"
            },
            Mnemonic::PHA => {
                proof {
                    reveal_strlit("PHA");
                }
                "PHA"
            },
            Mnemonic::PHP => {
                proof {
                    reveal_strlit("PHP");
                }
                "PHP"
            },
            Mnemonic::PLA => {
                proof {
                    reveal_strlit("PLA");
                }
                "PLA"
            },
            Mnemonic::PLP => {
                proof {
                    reveal_strlit("PLP");
                }
                "PLP"
            },
            Mnemonic::ROL => {
                proof {
                    reveal_strlit("ROL");
                }
                "ROL"
            },
            Mnemonic::ROR => {
                proof {
                    reveal_strlit("ROR");
                }
                "ROR"
            },
            Mnemonic::RTI => {
                proof {
                    reveal_strlit("RTI");
                }
                "RTI"
            },
            Mnemonic::RTS => {
                proof {
                    reveal_strlit("RTS");
                }
                "RTS"
            },
            Mnemonic::SBC => {
                proof {
                    reveal_strlit("SBC");
                }
                "SBC"
            },
            Mnemonic::SEC => {
                proof {
                    reveal_strlit("SEC");
                }
                "SEC"
            },
            Mnemonic::SED => {
                proof {
                    reveal_strlit("SED");
                }
                "SED"
            },
            Mnemonic::SEI => {
                proof {
                    reveal_strlit("SEI");
                }
                "SEI"
            },
            Mnemonic::STA => {
                proof {
                    reveal_strlit("STA");
                }
                "STA"
            },
            Mnemonic::STX => {
                proof {
                    reveal_strlit("STX");
                }
                "STX"
            },
            Mnemonic::STY => {
                proof {
                    reveal_strlit("STY");
                }
                "STY"
            },
            Mnemonic::TAX => {
                proof {
                    reveal_strlit("TAX");
                }
                "TAX"
            },
            Mnemonic::TAY => {
                proof {
                    reveal_strlit("TAY");
                }
                "TAY"
            },
            Mnemonic::TSX => {
                proof {
                    reveal_strlit("TSX");
                }
                "TSX"
            },
            Mnemonic::TXA => {
                proof {
                    reveal_strlit("TXA");
                }
                "TXA"
            },
            Mnemonic::TXS => {
                proof {
                    reveal_strlit("TXS");
                }
                "TXS"
            },
            Mnemonic::TYA => {
                proof {
                    reveal_strlit("TYA");
                }
                "TYA"
            },
        };
        assert(s@ =~= self.name_spec());
        s
    }
}

} // verus!
